//! The genome: a sequence of genes whose length never changes.
use vstd::prelude::*;
use vstd::std_specs::iter::IteratorSpec;

verus! {

/// A genome. Each gene is a fixed-point number.
#[derive(Clone, Debug)]
pub struct Chromosome {
    genes: Vec<i32>,
}

impl View for Chromosome {
    type V = Seq<i32>;

    closed spec fn view(&self) -> Seq<i32> {
        self.genes@
    }
}

impl Chromosome {
    /// A genome that holds `genes` in their order.
    pub fn from_genes(genes: Vec<i32>) -> (chromosome: Self)
        ensures
            chromosome@ == genes@,
    {
        Chromosome { genes }
    }

    /// The genes in their order.
    pub fn into_genes(self) -> (genes: Vec<i32>)
        ensures
            genes@ == self@,
    {
        self.genes
    }

    /// The number of genes.
    pub fn len(&self) -> (n: usize)
        ensures
            n == self@.len(),
    {
        self.genes.len()
    }

    /// Puts `gene` at `index` and leaves the other genes as they are.
    pub fn set_gene(&mut self, index: usize, gene: i32)
        requires
            index < old(self)@.len(),
        ensures
            final(self)@ == old(self)@.update(index as int, gene),
    {
        self.genes[index] = gene;
    }

    /// The genes in their order, to read.
    pub fn iter(&self) -> (genes: &[i32])
        ensures
            genes@ == self@,
    {
        self.genes.as_slice()
    }

    /// The genes in their order, to change. Their number stays.
    pub fn iter_mut(&mut self) -> (genes: &mut [i32])
        ensures
            genes@ == old(self)@,
            final(genes)@ == final(self)@,
    {
        self.genes.as_mut_slice()
    }

    /// The gene at `index`.
    pub fn gene(&self, index: usize) -> (gene: i32)
        requires
            index < self@.len(),
        ensures
            gene == self@[index as int],
    {
        self.genes[index]
    }
}

impl core::ops::Index<usize> for Chromosome {
    type Output = i32;

    fn index(&self, index: usize) -> (gene: &i32)
        ensures
            *gene == self@[index as int],
    {
        &self.genes[index]
    }
}

impl vstd::std_specs::core::IndexSpecImpl<usize> for Chromosome {
    open spec fn index_req(&self, index: &usize) -> bool {
        *index < self@.len()
    }
}

impl IntoIterator for Chromosome {
    type Item = i32;

    type IntoIter = std::vec::IntoIter<i32>;

    fn into_iter(self) -> (genes: std::vec::IntoIter<i32>)
        ensures
            genes.remaining() == self@,
    {
        self.genes.into_iter()
    }
}

} // verus!
