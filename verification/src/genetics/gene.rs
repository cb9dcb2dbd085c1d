use vstd::prelude::*;
use rand::rngs::StdRng;
use crate::mixins::flat_mappable::FlatMappable;
use crate::mixins::verifiable::Verifiable;
use crate::repr::feature::Feature;

verus! {

/// `mutant` is a mutation of `gene`, as `mutate` returns one: its value is one
/// that `gene` may generate from its own, and it is the sibling of `gene` with
/// that value.
pub open spec fn is_mutation<T, G: Gene<T>>(gene: G, mutant: G) -> bool {
    &&& gene.generates(gene.value(), mutant.value())
    &&& mutant == gene.with_value(mutant.value())
}

/// A feature that can produce a mutated sibling of itself and report its
/// validity. A gene is a single leaf.
pub trait Gene<T>: Feature<T> + Verifiable + FlatMappable<T> {
    /// The values from which this gene can produce a new one.
    spec fn can_generate(&self, current: T) -> bool;

    /// `next` is a value that `generate` may produce from `current`, whatever
    /// the generator draws.
    spec fn generates(&self, current: T, next: T) -> bool;

    /// A gene flattens to its own value and nothing else.
    proof fn single_leaf(&self)
        ensures
            self.leaves() == seq![self.value()],
    ;

    /// Produces a value from the current one, drawing from `rng` as needed.
    /// This is what tells one kind of gene from another.
    fn generate(&self, current: &T, rng: &mut StdRng) -> (next: T)
        requires
            self.can_generate(*current),
        ensures
            self.generates(*current, next),
    ;

    /// Returns a new gene whose value was generated from this gene's value
    /// and which keeps every other attribute. This gene is left as it is;
    /// only the generator moves on. The new gene need not be valid.
    fn mutate(&self, rng: &mut StdRng) -> (mutant: Self)
        requires
            self.can_generate(self.value()),
        ensures
            self.generates(self.value(), mutant.value()),
            mutant == self.with_value(mutant.value()),
    {
        let next = self.generate(self.get_value(), rng);
        self.duplicate_with_value(next)
    }
}

/// A gene over `i32` whose validity is fixed when it is made and whose
/// mutation adds one to its value.
#[derive(Clone, Copy, Debug)]
pub struct SimpleGene {
    /// The value held.
    pub value: i32,
    /// Whether the gene reports itself valid.
    pub is_valid: bool,
}

impl Feature<i32> for SimpleGene {
    open spec fn value(&self) -> i32 {
        self.value
    }

    open spec fn with_value(&self, value: i32) -> SimpleGene {
        SimpleGene { value, is_valid: self.is_valid }
    }

    fn get_value(&self) -> (v: &i32) {
        &self.value
    }

    fn duplicate_with_value(&self, value: i32) -> (copy: SimpleGene) {
        SimpleGene { value, is_valid: self.is_valid }
    }
}

impl Verifiable for SimpleGene {
    open spec fn valid(&self) -> bool {
        self.is_valid
    }

    fn verify(&self) -> (ok: bool) {
        self.is_valid
    }
}

impl FlatMappable<i32> for SimpleGene {
    open spec fn leaves(&self) -> Seq<i32> {
        seq![self.value]
    }

    fn flatten(&self) -> (out: Vec<i32>) {
        vec![self.value]
    }
}

impl Gene<i32> for SimpleGene {
    open spec fn can_generate(&self, current: i32) -> bool {
        current < i32::MAX
    }

    open spec fn generates(&self, current: i32, next: i32) -> bool {
        next == current + 1
    }

    proof fn single_leaf(&self) {
    }

    fn generate(&self, current: &i32, rng: &mut StdRng) -> (next: i32) {
        *current + 1
    }
}

impl PartialEq for SimpleGene {
    fn eq(&self, other: &SimpleGene) -> (same: bool) {
        self.value == other.value && self.is_valid == other.is_valid
    }
}

impl vstd::std_specs::cmp::PartialEqSpecImpl for SimpleGene {
    open spec fn obeys_eq_spec() -> bool {
        true
    }

    open spec fn eq_spec(&self, other: &SimpleGene) -> bool {
        self.value == other.value && self.is_valid == other.is_valid
    }
}

/// For a gene of any type that generates its current value plus one, every
/// mutation holds the value of the gene it came from plus one.
pub proof fn mutation_adds_one<G: Gene<i32>>(gene: G, mutant: G)
    requires
        forall|current: i32, next: i32| #[trigger]
            gene.generates(current, next) ==> next == current + 1,
        is_mutation(gene, mutant),
    ensures
        mutant.value() == gene.value() + 1,
{
}

/// A mutation of a `SimpleGene` holds the value of the gene it came from plus
/// one, and keeps its validity flag.
pub proof fn simple_gene_mutation(gene: SimpleGene, mutant: SimpleGene)
    requires
        is_mutation(gene, mutant),
    ensures
        mutant.value == gene.value + 1,
        mutant.is_valid == gene.is_valid,
{
}

} // verus!
