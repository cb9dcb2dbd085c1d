use vstd::prelude::*;
use vstd::std_specs::cmp::PartialEqSpec;
use core::marker::PhantomData;
use crate::domain::{bits_are_nan, hash, hash_of, is_nan, ToStringMode, UNEVALUATED};
use crate::mixins::flat_mappable::FlatMappable;
use crate::mixins::foldable::Foldable;
use crate::mixins::verifiable::Verifiable;
use crate::repr::feature::Feature;
use crate::repr::representation::Representation;

verus! {

/// A candidate solution: a representation and its fitness. The fitness is
/// held as the bits of a double-precision number, and is not a number until
/// the individual has been evaluated.
pub struct Individual<T, F, R> where F: Feature<T>, R: Representation<T, F> {
    /// What the individual is made of.
    pub representation: R,
    /// The bits of the fitness.
    pub fitness: u64,
    /// Ties the individual to its value and feature types; it holds nothing.
    pub marker: PhantomData<(T, F)>,
}

impl<T, F, R> Individual<T, F, R> where F: Feature<T>, R: Representation<T, F> {
    /// Whether the individual has been evaluated: its fitness is a number.
    pub open spec fn evaluated(&self) -> bool {
        !is_nan(self.fitness)
    }

    /// Makes an individual that has not been evaluated.
    pub fn new(representation: R) -> (individual: Self)
        ensures
            individual.representation == representation,
            individual.fitness == UNEVALUATED,
            !individual.evaluated(),
    {
        Individual { representation, fitness: UNEVALUATED, marker: PhantomData }
    }

    /// Returns the size of the representation.
    pub fn size(&self) -> (n: usize)
        ensures
            n == self.representation.count(),
    {
        self.representation.size()
    }

    /// Tells whether the individual has been evaluated.
    pub fn is_evaluated(&self) -> (evaluated: bool)
        ensures
            evaluated == self.evaluated(),
    {
        !bits_are_nan(self.fitness)
    }

    /// Writes the individual out in the given mode, from the text of its
    /// representation and `fitness`, the text of its fitness.
    pub fn to_string(&self, mode: ToStringMode, fitness: &str) -> (out: String) where
        R: core::fmt::Display,

        ensures
            exists|representation: String| #[trigger]
                vstd::string::to_string_from_display_ensures::<R>(
                    &self.representation,
                    representation,
                ) && out@ == rendered(mode, representation@, fitness@),
    {
        let representation = self.representation.to_string();
        render(mode, representation.as_str(), fitness)
    }

    /// Tells whether two individuals are equal, given whether their fitness
    /// values lie within the equality threshold of each other: they are
    /// equal when they do and the representations are equal.
    pub fn equals(&self, other: &Self, fitness_within_threshold: bool) -> (same: bool) where
        R: PartialEq,

        ensures
            R::obeys_eq_spec() ==> same == (fitness_within_threshold
                && self.representation.eq_spec(&other.representation)),
            !fitness_within_threshold ==> !same,
    {
        fitness_within_threshold && self.representation.eq(&other.representation)
    }

    /// Returns the hash of the individual, given that of its representation:
    /// the two parts are combined in this order, representation then
    /// fitness.
    pub fn hash_with(&self, representation_hash: u64) -> (code: u64)
        ensures
            code == hash_of(seq![representation_hash, self.fitness]),
    {
        let mut parts: Vec<u64> = Vec::new();
        parts.push(representation_hash);
        parts.push(self.fitness);
        proof {
            assert(parts@ == seq![representation_hash, self.fitness]);
        }
        hash(&parts)
    }
}

impl<T, F, R> Clone for Individual<T, F, R> where
    F: Feature<T>,
    R: Representation<T, F> + Clone,
 {
    /// Copies the individual: the representation is cloned and the fitness
    /// kept.
    fn clone(&self) -> (copy: Self)
        ensures
            copy.fitness == self.fitness,
            cloned(self.representation, copy.representation),
    {
        Individual {
            representation: self.representation.clone(),
            fitness: self.fitness,
            marker: PhantomData,
        }
    }
}

impl<T, F, R> Verifiable for Individual<T, F, R> where F: Feature<T>, R: Representation<T, F> {
    open spec fn valid(&self) -> bool {
        self.representation.valid()
    }

    fn verify(&self) -> (ok: bool) {
        self.representation.verify()
    }
}

impl<T, F, R> FlatMappable<T> for Individual<T, F, R> where
    F: Feature<T>,
    R: Representation<T, F>,
 {
    open spec fn leaves(&self) -> Seq<T> {
        self.representation.leaves()
    }

    fn flatten(&self) -> (out: Vec<T>) {
        self.representation.flatten()
    }
}

impl<T, F, R> Foldable<T> for Individual<T, F, R> where F: Feature<T>, R: Representation<T, F> {
    fn fold<B, M: Fn(B, &T) -> B>(&self, initial: B, f: M) -> (out: B) {
        proof {
            assert(self.leaves() == self.representation.leaves());
        }
        self.representation.fold(initial, f)
    }
}

/// An individual counts as evaluated exactly when its fitness is a number:
/// not before it is given one, and from then on whatever the number is.
pub proof fn evaluated_iff_fitness_is_a_number<T, F: Feature<T>, R: Representation<T, F>>(
    individual: Individual<T, F, R>,
)
    ensures
        individual.evaluated() <==> !is_nan(individual.fitness),
        individual.fitness == UNEVALUATED ==> !individual.evaluated(),
{
}

/// The text of an individual whose representation reads `representation`
/// and whose fitness reads `fitness`.
pub open spec fn rendered(mode: ToStringMode, representation: Seq<char>, fitness: Seq<char>) -> Seq<
    char,
> {
    match mode {
        ToStringMode::Simple => representation + " -> "@ + fitness,
        ToStringMode::Default => "Individual(representation="@ + representation + ", fitness="@
            + fitness + ")"@,
    }
}

/// Appends `text` to `out` by `String::push_str`: the characters of `text`
/// are added at the end, and what `out` held stays in front of them.
#[verifier::external_body]
fn push_text(out: &mut String, text: &str)
    ensures
        final(out)@ == old(out)@ + text@,
{
    out.push_str(text);
}

/// Writes out an individual in the given mode, from the text of its
/// representation and the text of its fitness.
pub fn render(mode: ToStringMode, representation: &str, fitness: &str) -> (out: String)
    ensures
        out@ == rendered(mode, representation@, fitness@),
{
    let mut out = String::new();
    match mode {
        ToStringMode::Simple => {
            push_text(&mut out, representation);
            push_text(&mut out, " -> ");
            push_text(&mut out, fitness);
        },
        ToStringMode::Default => {
            push_text(&mut out, "Individual(representation=");
            push_text(&mut out, representation);
            push_text(&mut out, ", fitness=");
            push_text(&mut out, fitness);
            push_text(&mut out, ")");
        },
    }
    proof {
        assert(out@ =~= rendered(mode, representation@, fitness@));
    }
    out
}

/// The two modes never write the same text for one individual.
pub proof fn modes_render_differently(representation: Seq<char>, fitness: Seq<char>)
    ensures
        rendered(ToStringMode::Simple, representation, fitness) != rendered(
            ToStringMode::Default,
            representation,
            fitness,
        ),
{
    reveal_strlit(" -> ");
    reveal_strlit("Individual(representation=");
    reveal_strlit(", fitness=");
    reveal_strlit(")");
    let simple = rendered(ToStringMode::Simple, representation, fitness);
    let detailed = rendered(ToStringMode::Default, representation, fitness);
    assert(simple.len() == representation.len() + fitness.len() + 4);
    assert(detailed.len() == representation.len() + fitness.len() + 37);
}

} // verus!
