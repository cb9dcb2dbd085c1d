use vstd::prelude::*;

verus! {

/// The concatenation of `parts`, first part first.
pub open spec fn concat<R>(parts: Seq<Vec<R>>) -> Seq<R>
    decreases parts.len(),
{
    if parts.len() == 0 {
        Seq::empty()
    } else {
        concat(parts.drop_last()) + parts.last()@
    }
}

/// `parts` holds, leaf by leaf, a result that `f` may return for that leaf.
pub open spec fn maps_each<T, R, M: Fn(T) -> Vec<R>>(
    f: M,
    leaves: Seq<T>,
    parts: Seq<Vec<R>>,
) -> bool {
    &&& parts.len() == leaves.len()
    &&& forall|i: int| 0 <= i < leaves.len() ==> call_ensures(f, (leaves[i],), #[trigger] parts[i])
}

/// A structure that can be reduced to the ordered sequence of its leaf
/// values. A single value flattens to a sequence of one leaf.
pub trait FlatMappable<T> {
    /// The leaves, in order.
    spec fn leaves(&self) -> Seq<T>;

    /// Returns the leaves, in order.
    fn flatten(&self) -> (out: Vec<T>)
        ensures
            out@ == self.leaves(),
    ;

    /// Applies `f` to each leaf in order and concatenates what it returns:
    /// nothing is reordered and nothing is dropped.
    fn flat_map<R, M: Fn(T) -> Vec<R>>(&self, f: M) -> (out: Vec<R>)
        requires
            forall|i: int| 0 <= i < self.leaves().len() ==> call_requires(f, (self.leaves()[i],)),
        ensures
            exists|parts: Seq<Vec<R>>| maps_each(f, self.leaves(), parts) && out@ == concat(parts),
    {
        let leaves = self.flatten();
        let mut out: Vec<R> = Vec::new();
        let ghost mut parts: Seq<Vec<R>> = Seq::empty();
        for leaf in it: leaves
            invariant
                it.seq() == self.leaves(),
                forall|i: int| 0 <= i < self.leaves().len() ==> call_requires(f, (self.leaves()[i],)),
                maps_each(f, self.leaves().take(it.index() as int), parts),
                out@ == concat(parts),
        {
            let mut part = f(leaf);
            proof {
                let ghost next = parts.push(part);
                assert(next.drop_last() == parts);
                assert(self.leaves().take(it.index() + 1).drop_last() == self.leaves().take(it.index() as int));
                parts = next;
            }
            out.append(&mut part);
        }
        proof {
            assert(self.leaves().take(self.leaves().len() as int) == self.leaves());
        }
        out
    }
}

} // verus!
