use revolt::genetics::chromosome::{flatten_all, verify_all, Chromosome, SimpleChromosome};
use revolt::genetics::gene::SimpleGene;
use revolt::mixins::flat_mappable::FlatMappable;
use revolt::mixins::foldable::Foldable;
use revolt::mixins::verifiable::Verifiable;
use revolt::repr::representation::Representation;

fn gene(value: i32) -> SimpleGene {
    SimpleGene { value, is_valid: true }
}

fn three() -> SimpleChromosome {
    SimpleChromosome { genes: vec![gene(4), gene(-2), gene(9)] }
}

#[test]
fn chromosome_flattens_in_gene_order() {
    let chromosome = three();
    let mut expected = gene(4).flatten();
    expected.extend(gene(-2).flatten());
    expected.extend(gene(9).flatten());
    assert_eq!(chromosome.flatten(), expected);
    assert_eq!(chromosome.flatten(), vec![4, -2, 9]);
    assert_eq!(chromosome.flatten_genes(), vec![4, -2, 9]);
    assert_eq!(flatten_all(&chromosome.genes), vec![4, -2, 9]);
    assert_eq!(chromosome.size(), 3);
    assert_eq!(chromosome.gene_count(), 3);
    assert!(!chromosome.is_empty());
}

#[test]
fn empty_chromosome_is_valid_and_empty() {
    let chromosome = SimpleChromosome { genes: vec![] };
    assert!(chromosome.is_valid());
    assert!(chromosome.verify());
    assert!(chromosome.is_empty());
    assert_eq!(chromosome.size(), 0);
    assert_eq!(chromosome.flatten(), Vec::<i32>::new());
    assert!(chromosome.contains_all(&[]));
    assert!(!chromosome.contains(&gene(1)));
}

#[test]
fn one_invalid_gene_invalidates_the_chromosome() {
    let mut chromosome = three();
    assert!(chromosome.is_valid());
    assert!(chromosome.verify());
    assert!(verify_all(&chromosome.genes));
    chromosome.genes.insert(1, SimpleGene { value: 0, is_valid: false });
    assert!(!chromosome.is_valid());
    assert!(!chromosome.verify());
    assert!(!verify_all(&chromosome.genes));
    assert_eq!(chromosome.size(), 4);
}

#[test]
fn genes_come_back_in_order() {
    assert_eq!(three().genes(), vec![gene(4), gene(-2), gene(9)]);
}

#[test]
fn membership_goes_by_equality() {
    let chromosome = three();
    assert!(chromosome.contains(&gene(-2)));
    assert!(!chromosome.contains(&gene(5)));
    assert!(!chromosome.contains(&SimpleGene { value: 4, is_valid: false }));
    assert!(chromosome.contains_all(&[gene(9), gene(4)]));
    assert!(chromosome.contains_all(&[gene(9), gene(9)]));
    assert!(!chromosome.contains_all(&[gene(9), gene(5)]));
    assert!(chromosome.contains_all(&[]));
}

#[test]
fn flat_map_concatenates_in_order() {
    let chromosome = three();
    let mapped = chromosome.flat_map(|leaf| if leaf < 0 { vec![] } else { vec![leaf, leaf + 1] });
    assert_eq!(mapped, vec![4, 5, 9, 10]);
    let repeated = chromosome.flat_map(|leaf| vec![leaf, leaf]);
    assert_eq!(repeated, vec![4, 4, -2, -2, 9, 9]);
}

#[test]
fn fold_runs_left_to_right_over_every_leaf() {
    let chromosome = three();
    assert_eq!(chromosome.fold(0i64, |sum, leaf| sum + i64::from(*leaf)), 11);
    let trace = chromosome.fold(String::new(), |text, leaf| format!("{}[{}]", text, leaf));
    assert_eq!(trace, "[4][-2][9]");
    let empty = SimpleChromosome { genes: vec![] };
    assert_eq!(empty.fold(7i64, |sum, leaf| sum + i64::from(*leaf)), 7);
}
