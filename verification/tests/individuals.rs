use revolt::domain::{
    get_equality_threshold, hash, set_equality_threshold, EqualityThreshold, ToStringMode,
    UNEVALUATED,
};
use revolt::genetics::chromosome::SimpleChromosome;
use revolt::genetics::gene::SimpleGene;
use revolt::individual::{render, Individual};
use revolt::mixins::flat_mappable::FlatMappable;
use revolt::mixins::foldable::Foldable;
use revolt::mixins::verifiable::Verifiable;

fn sample(valid: bool) -> Individual<i32, SimpleGene, SimpleChromosome> {
    Individual::new(SimpleChromosome {
        genes: vec![
            SimpleGene { value: 1, is_valid: true },
            SimpleGene { value: 2, is_valid: valid },
        ],
    })
}

#[test]
fn fresh_individual_is_not_evaluated() {
    let individual = sample(true);
    assert!(!individual.is_evaluated());
    assert_eq!(individual.fitness, UNEVALUATED);
    assert!(f64::from_bits(individual.fitness).is_nan());
}

#[test]
fn individual_with_a_fitness_is_evaluated() {
    let mut individual = sample(true);
    for fitness in [3.2f64, 0.0, -0.0, -17.5, f64::INFINITY, f64::NEG_INFINITY, f64::MIN_POSITIVE] {
        individual.fitness = fitness.to_bits();
        assert!(individual.is_evaluated());
    }
    individual.fitness = f64::NAN.to_bits();
    assert!(!individual.is_evaluated());
}

#[test]
fn individual_delegates_to_its_representation() {
    let individual = sample(true);
    assert_eq!(individual.size(), 2);
    assert!(individual.verify());
    assert!(!sample(false).verify());
    assert_eq!(individual.flatten(), vec![1, 2]);
    assert_eq!(individual.fold(10, |sum, leaf| sum * 2 + leaf), 44);
    assert_eq!(individual.flat_map(|leaf| vec![leaf; 2]), vec![1, 1, 2, 2]);
}

#[test]
fn render_simple() {
    assert_eq!(render(ToStringMode::Simple, "5", "3.2"), "5 -> 3.2");
}

#[test]
fn render_default() {
    assert_eq!(
        render(ToStringMode::Default, "5", "3.2"),
        "Individual(representation=5, fitness=3.2)"
    );
}

#[test]
fn render_modes_differ() {
    for (representation, fitness) in [("5", "3.2"), ("", ""), ("[1, 2]", "NaN")] {
        assert_ne!(
            render(ToStringMode::Simple, representation, fitness),
            render(ToStringMode::Default, representation, fitness)
        );
    }
    assert_eq!(render(ToStringMode::Simple, "", ""), " -> ");
}

#[test]
fn individual_hash_combines_representation_and_fitness() {
    let mut individual = sample(true);
    individual.fitness = 2;
    assert_eq!(individual.hash_with(1), 16370);
    assert_eq!(individual.hash_with(1), hash(&vec![1, 2]));
    assert_ne!(individual.hash_with(1), individual.hash_with(2));
}

#[test]
fn equality_needs_both_parts() {
    let first = sample(true);
    let second = sample(true);
    let other = sample(false);
    assert!(first.equals(&second, true));
    assert!(!first.equals(&second, false));
    assert!(!first.equals(&other, true));
    assert!(!first.equals(&other, false));
}

#[test]
fn clone_keeps_representation_and_fitness() {
    let mut individual = sample(true);
    individual.fitness = 3.2f64.to_bits();
    let copy = individual.clone();
    assert_eq!(copy.fitness, individual.fitness);
    assert_eq!(copy.representation, individual.representation);
}

fn within(threshold: &EqualityThreshold, first: u64, second: u64) -> bool {
    let distance = (f64::from_bits(first) - f64::from_bits(second)).abs();
    distance <= f64::from_bits(get_equality_threshold(threshold))
}

#[test]
fn individuals_within_the_threshold_are_equal() {
    let threshold = EqualityThreshold::new();
    let mut first = sample(true);
    let mut second = sample(true);
    first.fitness = 3.2f64.to_bits();
    second.fitness = 3.20005f64.to_bits();
    assert!(first.equals(&second, within(&threshold, first.fitness, second.fitness)));
    second.fitness = 3.3f64.to_bits();
    assert!(!first.equals(&second, within(&threshold, first.fitness, second.fitness)));
}

#[test]
fn a_wider_threshold_makes_more_individuals_equal() {
    let mut threshold = EqualityThreshold::new();
    let mut first = sample(true);
    let mut second = sample(true);
    first.fitness = 3.2f64.to_bits();
    second.fitness = 3.3f64.to_bits();
    assert!(!first.equals(&second, within(&threshold, first.fitness, second.fitness)));
    assert_eq!(set_equality_threshold(&mut threshold, 0.5f64.to_bits()), Ok(()));
    assert!(first.equals(&second, within(&threshold, first.fitness, second.fitness)));
}

#[test]
fn unevaluated_individuals_are_never_equal() {
    let threshold = EqualityThreshold::new();
    let first = sample(true);
    let second = sample(true);
    assert!(!first.equals(&second, within(&threshold, first.fitness, second.fitness)));
}
