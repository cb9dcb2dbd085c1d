use vstd::prelude::*;
use crate::mixins::foldable::Foldable;
use crate::mixins::verifiable::Verifiable;
use crate::repr::feature::Feature;

verus! {

/// A structure made of features of type `F` that hold values of type `T`. It
/// can be verified, flattened and folded.
pub trait Representation<T, F>: Verifiable + Foldable<T> where F: Feature<T> {
    /// The number of features held.
    spec fn count(&self) -> nat;

    /// Returns the number of features. This counts features, not leaves: the
    /// two agree only where every feature flattens to exactly one leaf.
    fn size(&self) -> (n: usize)
        ensures
            n == self.count(),
    ;
}

} // verus!
