//! Crossover: two parent genomes give one child genome.
use crate::chromosome::Chromosome;
use crate::random::draw_ratio;
use rand::rngs::StdRng;
use vstd::prelude::*;

verus! {

/// A way to combine two parents of equal length into one child.
pub trait CrossoverMethod {
    /// Whether this method can give `child` for the two parents.
    spec fn combines(&self, parent_a: Chromosome, parent_b: Chromosome, child: Chromosome) -> bool;

    /// A child of the two parents, of their length.
    fn crossover(&self, rng: &mut StdRng, parent_a: &Chromosome, parent_b: &Chromosome) -> (child:
        Chromosome)
        requires
            parent_a@.len() == parent_b@.len(),
        ensures
            child@.len() == parent_a@.len(),
            self.combines(*parent_a, *parent_b, child),
    ;
}

/// Uniform crossover: every gene of the child comes from one of the parents,
/// chosen by a fair coin that is tossed for that position alone.
#[derive(Clone, Debug)]
pub struct UniformCrossover;

/// The child that a sequence of coin tosses gives: the gene of the first
/// parent on heads, that of the second on tails.
pub open spec fn uniform_child(heads: Seq<bool>, parent_a: Seq<i32>, parent_b: Seq<i32>) -> Seq<
    i32,
> {
    Seq::new(
        parent_a.len(),
        |i: int|
            if heads[i] {
                parent_a[i]
            } else {
                parent_b[i]
            },
    )
}

impl UniformCrossover {
    /// Tosses one fair coin for each of `count` positions, in their order.
    pub fn toss(rng: &mut StdRng, count: usize) -> (heads: Vec<bool>)
        ensures
            heads@.len() == count,
    {
        let mut heads: Vec<bool> = Vec::new();
        let mut i: usize = 0;
        while i < count
            invariant
                i <= count,
                heads@.len() == i,
            decreases count - i,
        {
            let head = draw_ratio(rng, 1, 2);
            heads.push(head);
            i += 1;
        }
        heads
    }

    /// The child that the given coin tosses select from the two parents.
    pub fn assemble(heads: &Vec<bool>, parent_a: &Chromosome, parent_b: &Chromosome) -> (child:
        Chromosome)
        requires
            parent_a@.len() == parent_b@.len(),
            heads@.len() == parent_a@.len(),
        ensures
            child@ == uniform_child(heads@, parent_a@, parent_b@),
    {
        let n = parent_a.len();
        let mut genes: Vec<i32> = Vec::new();
        let mut i: usize = 0;
        while i < n
            invariant
                i <= n,
                n == parent_a@.len(),
                n == parent_b@.len(),
                n == heads@.len(),
                genes@.len() == i,
                forall|k: int|
                    0 <= k < i ==> genes@[k] == uniform_child(heads@, parent_a@, parent_b@)[k],
            decreases n - i,
        {
            let gene = if heads[i] {
                parent_a.gene(i)
            } else {
                parent_b.gene(i)
            };
            genes.push(gene);
            i += 1;
        }
        assert(genes@ =~= uniform_child(heads@, parent_a@, parent_b@));
        Chromosome::from_genes(genes)
    }
}

impl CrossoverMethod for UniformCrossover {
    open spec fn combines(&self, parent_a: Chromosome, parent_b: Chromosome, child: Chromosome) -> bool {
        &&& child@.len() == parent_a@.len()
        &&& forall|i: int|
            0 <= i < child@.len() ==> child@[i] == parent_a@[i] || child@[i] == parent_b@[i]
    }

    fn crossover(&self, rng: &mut StdRng, parent_a: &Chromosome, parent_b: &Chromosome) -> (child:
        Chromosome)
        ensures
            exists|heads: Seq<bool>|
                heads.len() == parent_a@.len() && child@ == uniform_child(
                    heads,
                    parent_a@,
                    parent_b@,
                ),
    {
        let heads = Self::toss(rng, parent_a.len());
        Self::assemble(&heads, parent_a, parent_b)
    }
}

/// A boxed method crosses as the method in the box does, so that an algorithm
/// can hold a method that is chosen while the program runs.
impl<T: CrossoverMethod + ?Sized> CrossoverMethod for Box<T> {
    open spec fn combines(&self, parent_a: Chromosome, parent_b: Chromosome, child: Chromosome) -> bool {
        (**self).combines(parent_a, parent_b, child)
    }

    fn crossover(&self, rng: &mut StdRng, parent_a: &Chromosome, parent_b: &Chromosome) -> (child:
        Chromosome) {
        (**self).crossover(rng, parent_a, parent_b)
    }
}

} // verus!
