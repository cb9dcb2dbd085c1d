use vstd::prelude::*;
use vstd::std_specs::cmp::PartialEqSpec;
use crate::genetics::gene::{Gene, SimpleGene};
use crate::mixins::flat_mappable::FlatMappable;
use crate::mixins::foldable::Foldable;
use crate::mixins::verifiable::Verifiable;
use crate::repr::representation::Representation;

verus! {

/// The leaves of `genes`: each gene's leaves, in the order of the genes.
pub open spec fn gene_leaves<T, G: Gene<T>>(genes: Seq<G>) -> Seq<T>
    decreases genes.len(),
{
    if genes.len() == 0 {
        Seq::empty()
    } else {
        gene_leaves(genes.drop_last()) + genes.last().leaves()
    }
}

/// Every gene of `genes` is valid. This holds of no genes at all.
pub open spec fn all_valid<T, G: Gene<T>>(genes: Seq<G>) -> bool {
    forall|i: int| 0 <= i < genes.len() ==> (#[trigger] genes[i]).valid()
}

/// Some gene of `genes` equals `gene`.
pub open spec fn has_gene<G: PartialEq>(genes: Seq<G>, gene: G) -> bool {
    exists|i: int| 0 <= i < genes.len() && (#[trigger] genes[i]).eq_spec(&gene)
}

/// Every gene of `wanted` equals some gene of `genes`.
pub open spec fn has_all_genes<G: PartialEq>(genes: Seq<G>, wanted: Seq<G>) -> bool {
    forall|j: int| 0 <= j < wanted.len() ==> has_gene(genes, #[trigger] wanted[j])
}

/// Returns the leaves of `genes`, gene after gene.
pub fn flatten_all<T, G: Gene<T>>(genes: &Vec<G>) -> (out: Vec<T>)
    ensures
        out@ == gene_leaves(genes@),
{
    let mut out: Vec<T> = Vec::new();
    let mut i: usize = 0;
    while i < genes.len()
        invariant
            i <= genes.len(),
            out@ == gene_leaves(genes@.take(i as int)),
        decreases genes.len() - i,
    {
        let mut leaves = genes[i].flatten();
        proof {
            assert(genes@.take(i + 1).drop_last() == genes@.take(i as int));
        }
        out.append(&mut leaves);
        i += 1;
    }
    proof {
        assert(genes@.take(i as int) == genes@);
    }
    out
}

/// Tells whether every gene of `genes` is valid.
pub fn verify_all<T, G: Gene<T>>(genes: &Vec<G>) -> (ok: bool)
    ensures
        ok == all_valid(genes@),
{
    let mut i: usize = 0;
    while i < genes.len()
        invariant
            i <= genes.len(),
            forall|k: int| 0 <= k < i ==> (#[trigger] genes[k]).valid(),
        decreases genes.len() - i,
    {
        if !genes[i].verify() {
            return false;
        }
        i += 1;
    }
    true
}

/// An ordered collection of genes of one type, and a representation whose
/// features are those genes.
pub trait Chromosome<T, G>: Representation<T, G> + Sized where G: Gene<T> + PartialEq {
    /// The genes, in order.
    spec fn gene_seq(&self) -> Seq<G>;

    /// As a representation, a chromosome is its genes: it counts them, its
    /// leaves are theirs in order, and it is valid exactly when all of them
    /// are.
    proof fn made_of_genes(&self)
        ensures
            self.count() == self.gene_seq().len(),
            self.leaves() == gene_leaves(self.gene_seq()),
            self.valid() == all_valid(self.gene_seq()),
    ;

    /// Returns the genes, in order.
    fn genes(&self) -> (out: Vec<G>)
        ensures
            out@ == self.gene_seq(),
    ;

    /// Returns the number of genes: what `size` returns for a chromosome.
    fn gene_count(&self) -> (n: usize)
        ensures
            n == self.gene_seq().len(),
    {
        self.genes().len()
    }

    /// Tells whether there are no genes.
    fn is_empty(&self) -> (empty: bool)
        ensures
            empty == (self.gene_seq().len() == 0),
    {
        self.genes().len() == 0
    }

    /// Tells whether every gene of `other` equals some gene held.
    fn contains_all(&self, other: &[G]) -> (all: bool)
        ensures
            G::obeys_eq_spec() ==> all == has_all_genes(self.gene_seq(), other@),
    {
        let mut j: usize = 0;
        while j < other.len()
            invariant
                j <= other.len(),
                G::obeys_eq_spec() ==> has_all_genes(self.gene_seq(), other@.take(j as int)),
            decreases other.len() - j,
        {
            if !self.contains(&other[j]) {
                proof {
                    if G::obeys_eq_spec() {
                        assert(!has_gene(self.gene_seq(), other@[j as int]));
                    }
                }
                return false;
            }
            j += 1;
        }
        proof {
            assert(other@.take(j as int) == other@);
        }
        true
    }

    /// Tells whether some gene held equals `gene`.
    fn contains(&self, gene: &G) -> (found: bool)
        ensures
            G::obeys_eq_spec() ==> found == has_gene(self.gene_seq(), *gene),
    {
        let genes = self.genes();
        let mut i: usize = 0;
        while i < genes.len()
            invariant
                i <= genes.len(),
                genes@ == self.gene_seq(),
                G::obeys_eq_spec() ==> forall|k: int| 0 <= k < i ==> !(#[trigger] genes[k]).eq_spec(gene),
            decreases genes.len() - i,
        {
            if genes[i].eq(gene) {
                return true;
            }
            i += 1;
        }
        false
    }

    /// Returns the leaves of the genes, gene after gene: what `flatten`
    /// returns for a chromosome.
    fn flatten_genes(&self) -> (out: Vec<T>)
        ensures
            out@ == gene_leaves(self.gene_seq()),
    {
        flatten_all(&self.genes())
    }

    /// Tells whether every gene is valid: what `verify` returns for a
    /// chromosome. A chromosome without genes is valid.
    fn is_valid(&self) -> (ok: bool)
        ensures
            ok == all_valid(self.gene_seq()),
    {
        verify_all(&self.genes())
    }
}

/// The leaves of genes are their values: one leaf for each gene, in the
/// order of the genes.
pub proof fn gene_leaves_are_values<T, G: Gene<T>>(genes: Seq<G>)
    ensures
        gene_leaves(genes) == genes.map_values(|gene: G| gene.value()),
    decreases genes.len(),
{
    let values = genes.map_values(|gene: G| gene.value());
    if genes.len() == 0 {
        assert(gene_leaves(genes) =~= values);
    } else {
        gene_leaves_are_values::<T, G>(genes.drop_last());
        genes.last().single_leaf();
        assert(gene_leaves(genes) =~= values);
    }
}

/// The leaves of two runs of genes put together are the leaves of the first
/// followed by the leaves of the second.
pub proof fn gene_leaves_of_concatenation<T, G: Gene<T>>(front: Seq<G>, back: Seq<G>)
    ensures
        gene_leaves(front + back) == gene_leaves(front) + gene_leaves(back),
    decreases back.len(),
{
    if back.len() == 0 {
        assert(front + back =~= front);
        assert(gene_leaves(front) + gene_leaves(back) =~= gene_leaves(front));
    } else {
        gene_leaves_of_concatenation::<T, G>(front, back.drop_last());
        assert((front + back).drop_last() =~= front + back.drop_last());
        assert((front + back).last() == back.last());
        assert(gene_leaves(front + back) =~= gene_leaves(front) + gene_leaves(back));
    }
}

/// A chromosome has as many leaves as genes, and its leaves are the values
/// of its genes in order.
pub proof fn chromosome_leaves_are_gene_values<T, G: Gene<T> + PartialEq, C: Chromosome<T, G>>(
    chromosome: C,
)
    ensures
        chromosome.leaves() == chromosome.gene_seq().map_values(|gene: G| gene.value()),
        chromosome.leaves().len() == chromosome.count(),
{
    chromosome.made_of_genes();
    gene_leaves_are_values::<T, G>(chromosome.gene_seq());
}

/// A chromosome of three genes has size three, and flattens to the leaves of
/// the first gene, then those of the second, then those of the third.
pub proof fn chromosome_of_three_genes<T, G: Gene<T> + PartialEq, C: Chromosome<T, G>>(
    chromosome: C,
    first: G,
    second: G,
    third: G,
)
    requires
        chromosome.gene_seq() == seq![first, second, third],
    ensures
        chromosome.leaves() == first.leaves() + second.leaves() + third.leaves(),
        chromosome.count() == 3,
{
    chromosome.made_of_genes();
    let genes = seq![first, second, third];
    let two = seq![first, second];
    let one = seq![first];
    assert(genes.drop_last() =~= two);
    assert(two.drop_last() =~= one);
    assert(one.drop_last() =~= Seq::<G>::empty());
    assert(gene_leaves(one.drop_last()) =~= Seq::<T>::empty());
    assert(gene_leaves(one) =~= first.leaves());
    assert(gene_leaves(two) =~= first.leaves() + second.leaves());
    assert(gene_leaves(genes) =~= first.leaves() + second.leaves() + third.leaves());
}

/// A chromosome without genes is valid, and has neither size nor leaves.
pub proof fn empty_chromosome_is_valid<T, G: Gene<T> + PartialEq, C: Chromosome<T, G>>(
    chromosome: C,
)
    requires
        chromosome.gene_seq().len() == 0,
    ensures
        chromosome.valid(),
        chromosome.count() == 0,
        chromosome.leaves().len() == 0,
{
    chromosome.made_of_genes();
}

/// A chromosome is valid exactly when each of its genes is.
pub proof fn valid_iff_every_gene_is<T, G: Gene<T> + PartialEq, C: Chromosome<T, G>>(
    chromosome: C,
)
    ensures
        chromosome.valid() <==> forall|i: int|
            0 <= i < chromosome.gene_seq().len() ==> (#[trigger] chromosome.gene_seq()[i]).valid(),
{
    chromosome.made_of_genes();
}

/// One invalid gene makes the whole chromosome invalid.
pub proof fn invalid_gene_invalidates<T, G: Gene<T> + PartialEq, C: Chromosome<T, G>>(
    chromosome: C,
    at: int,
)
    requires
        0 <= at < chromosome.gene_seq().len(),
        !chromosome.gene_seq()[at].valid(),
    ensures
        !chromosome.valid(),
{
    chromosome.made_of_genes();
}

/// A chromosome that is nothing but a vector of `SimpleGene`s.
#[derive(Clone, Debug, PartialEq)]
pub struct SimpleChromosome {
    /// The genes, in order.
    pub genes: Vec<SimpleGene>,
}

impl Verifiable for SimpleChromosome {
    open spec fn valid(&self) -> bool {
        all_valid(self.genes@)
    }

    fn verify(&self) -> (ok: bool) {
        verify_all(&self.genes)
    }
}

impl FlatMappable<i32> for SimpleChromosome {
    open spec fn leaves(&self) -> Seq<i32> {
        gene_leaves(self.genes@)
    }

    fn flatten(&self) -> (out: Vec<i32>) {
        flatten_all(&self.genes)
    }
}

impl Foldable<i32> for SimpleChromosome {
}

impl Representation<i32, SimpleGene> for SimpleChromosome {
    open spec fn count(&self) -> nat {
        self.genes@.len()
    }

    fn size(&self) -> (n: usize) {
        self.genes.len()
    }
}

impl Chromosome<i32, SimpleGene> for SimpleChromosome {
    open spec fn gene_seq(&self) -> Seq<SimpleGene> {
        self.genes@
    }

    proof fn made_of_genes(&self) {
    }

    fn genes(&self) -> (out: Vec<SimpleGene>) {
        let mut out: Vec<SimpleGene> = Vec::new();
        let mut i: usize = 0;
        while i < self.genes.len()
            invariant
                i <= self.genes.len(),
                out@ == self.genes@.take(i as int),
            decreases self.genes.len() - i,
        {
            out.push(self.genes[i]);
            proof {
                assert(self.genes@.take(i + 1) == self.genes@.take(i as int).push(self.genes@[i as int]));
            }
            i += 1;
        }
        proof {
            assert(self.genes@.take(i as int) == self.genes@);
        }
        out
    }
}

} // verus!
