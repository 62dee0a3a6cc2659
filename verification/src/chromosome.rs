//! The genetic algorithm's unit of data: a flat, ordered sequence of
//! fixed-point genes.  For an agent the genes are exactly the weights of its
//! brain, in the network's flat encoding order.

use vstd::prelude::*;

verus! {

/// A flat chromosome of fixed-point genes.
#[derive(Clone, Debug)]
pub struct Chromosome {
    genes: Vec<i64>,
}

impl View for Chromosome {
    type V = Seq<i64>;

    closed spec fn view(&self) -> Seq<i64> {
        self.genes@
    }
}

impl Chromosome {
    /// Wraps a gene vector as a chromosome.
    pub fn from_genes(genes: Vec<i64>) -> (r: Chromosome)
        ensures
            r@ == genes@,
    {
        Chromosome { genes }
    }

    /// The number of genes.
    pub fn len(&self) -> (r: usize)
        ensures
            r == self@.len(),
    {
        self.genes.len()
    }

    /// The gene at index `i`.
    pub fn gene(&self, i: usize) -> (r: i64)
        requires
            i < self@.len(),
        ensures
            r == self@[i as int],
    {
        self.genes[i]
    }

    /// Overwrites the gene at index `i`.
    pub fn set_gene(&mut self, i: usize, v: i64)
        requires
            i < old(self)@.len(),
        ensures
            final(self)@ == old(self)@.update(i as int, v),
    {
        self.genes.set(i, v);
    }

    /// Unwraps the chromosome into its gene vector.
    pub fn into_genes(self) -> (r: Vec<i64>)
        ensures
            r@ == self@,
    {
        self.genes
    }

    /// Borrows the genes.
    pub fn genes(&self) -> (r: &Vec<i64>)
        ensures
            r@ == self@,
    {
        &self.genes
    }
}

} // verus!
