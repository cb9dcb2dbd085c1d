use rand::rngs::StdRng;
use rand::SeedableRng;
use revolt::genetics::gene::{Gene, SimpleGene};
use revolt::mixins::flat_mappable::FlatMappable;
use revolt::mixins::verifiable::Verifiable;
use revolt::repr::feature::{Feature, SimpleFeature};

struct MyVerifiable;

impl Verifiable for MyVerifiable {
    fn valid(&self) -> bool {
        true
    }

    fn verify(&self) -> bool {
        true
    }
}

#[test]
fn test_verify_default() {
    let verifiable = MyVerifiable {};
    assert!(verifiable.verify());
}

#[test]
fn simple_feature() {
    let feature = SimpleFeature { value: 42 };
    assert_eq!(feature.get_value(), &42);

    let new_feature = feature.duplicate_with_value(100);
    assert_eq!(new_feature.get_value(), &100);
    assert_eq!(feature.get_value(), &42);
}

#[test]
fn gene_can_be_mutated() {
    let mut rng = StdRng::seed_from_u64(7);
    for value in [0, 1, -1, 41, i32::MIN, i32::MAX - 1, -123456] {
        let gene = SimpleGene { value, is_valid: true };
        let mutated_gene = gene.mutate(&mut rng);
        assert_eq!(*mutated_gene.get_value(), gene.get_value() + 1);
        assert_eq!(*gene.get_value(), value);
        assert!(mutated_gene.verify());
    }
}

#[test]
fn mutation_keeps_the_validity_flag() {
    let mut rng = StdRng::seed_from_u64(7);
    let gene = SimpleGene { value: 9, is_valid: false };
    let mutated_gene = gene.mutate(&mut rng);
    assert_eq!(mutated_gene, SimpleGene { value: 10, is_valid: false });
    assert!(!mutated_gene.verify());
}

#[test]
fn gene_can_be_flattened() {
    for value in [0, 5, -7, i32::MAX, i32::MIN] {
        let gene = SimpleGene { value, is_valid: true };
        let flattened = gene.flatten();
        assert_eq!(flattened, vec![gene.get_value().clone()]);
    }
}

#[test]
fn gene_flat_map_keeps_order() {
    let gene = SimpleGene { value: 3, is_valid: true };
    let mapped = gene.flat_map(|leaf| vec![leaf, leaf * 10]);
    assert_eq!(mapped, vec![3, 30]);
}

#[test]
fn simple_feature_is_written_as_its_value() {
    assert_eq!(SimpleFeature { value: 42 }.to_string(), "42");
    assert_eq!(SimpleFeature { value: "left" }.to_string(), "left");
}
