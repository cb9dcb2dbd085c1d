use vstd::prelude::*;
use crate::mixins::flat_mappable::FlatMappable;

verus! {

/// `steps` records a left-to-right reduction by `f` of the first leaves of
/// `leaves`, one leaf for each entry after the first: it starts with
/// `initial`, and each later entry is a result that `f` may return for the
/// entry before it and the leaf at that place.
pub open spec fn folds_through<A, B, M: Fn(B, &A) -> B>(
    f: M,
    leaves: Seq<A>,
    initial: B,
    steps: Seq<B>,
) -> bool {
    &&& 1 <= steps.len() <= leaves.len() + 1
    &&& steps[0] == initial
    &&& forall|i: int|
        #![trigger steps[i]]
        0 <= i < steps.len() - 1 ==> call_ensures(f, (steps[i], &leaves[i]), steps[i + 1])
}

/// A structure whose leaves can be reduced to one value. The leaves are
/// those of `flatten`, in its order.
pub trait Foldable<A>: FlatMappable<A> {
    /// Combines the leaves from left to right, starting from `initial`. Every
    /// leaf is visited: there is no early exit. `f` must accept each leaf
    /// together with whatever the reduction of the leaves before it may have
    /// given.
    fn fold<B, M: Fn(B, &A) -> B>(&self, initial: B, f: M) -> (out: B)
        requires
            forall|steps: Seq<B>| #[trigger]
                folds_through(f, self.leaves(), initial, steps) && steps.len()
                    <= self.leaves().len() ==> call_requires(
                    f,
                    (steps.last(), &self.leaves()[steps.len() - 1]),
                ),
        ensures
            exists|steps: Seq<B>| #[trigger]
                folds_through(f, self.leaves(), initial, steps) && steps.len()
                    == self.leaves().len() + 1 && steps.last() == out,
    {
        let leaves = self.flatten();
        let mut acc = initial;
        let ghost mut steps: Seq<B> = seq![initial];
        let mut i: usize = 0;
        while i < leaves.len()
            invariant
                i <= leaves.len(),
                leaves@ == self.leaves(),
                forall|steps: Seq<B>| #[trigger]
                    folds_through(f, self.leaves(), initial, steps) && steps.len()
                        <= self.leaves().len() ==> call_requires(
                        f,
                        (steps.last(), &self.leaves()[steps.len() - 1]),
                    ),
                folds_through(f, self.leaves(), initial, steps),
                steps.len() == i + 1,
                steps.last() == acc,
            decreases leaves.len() - i,
        {
            acc = f(acc, &leaves[i]);
            proof {
                steps = steps.push(acc);
            }
            i += 1;
        }
        acc
    }
}

} // verus!
