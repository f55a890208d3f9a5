//! One generation: a population gives the next one.
use crate::chromosome::Chromosome;
use crate::crossover::CrossoverMethod;
use crate::individual::Individual;
use crate::mutation::MutationMethod;
use crate::selection::SelectionMethod;
use rand::rngs::StdRng;
use vstd::prelude::*;

verus! {

/// A genetic algorithm: a way to select parents, a way to cross them and a way
/// to mutate their child.
pub struct GeneticAlgorithm<S, C, M> {
    selection_method: S,
    crossover_method: C,
    mutation_method: M,
}

/// Whether all genomes of the population have one length.
pub open spec fn same_length<I: Individual>(population: &[I]) -> bool {
    forall|i: int, j: int|
        0 <= i < population@.len() && 0 <= j < population@.len() ==> (
        #[trigger] population@[i]).genome()@.len() == (#[trigger] population@[j]).genome()@.len()
}

/// Tells whether all genomes of the population have one length.
pub fn has_same_length<I: Individual>(population: &[I]) -> (same: bool)
    ensures
        same == same_length(population),
{
    let n = population.len();
    if n == 0 {
        return true;
    }
    let length = population[0].chromosome().len();
    let mut i: usize = 1;
    while i < n
        invariant
            1 <= i <= n,
            n == population@.len(),
            length == population@[0].genome()@.len(),
            forall|m: int| 0 <= m < i ==> (#[trigger] population@[m]).genome()@.len() == length,
        decreases n - i,
    {
        if population[i].chromosome().len() != length {
            assert(population@[i as int].genome()@.len() != population@[0].genome()@.len());
            return false;
        }
        i += 1;
    }
    true
}

impl<S, C: CrossoverMethod, M: MutationMethod> GeneticAlgorithm<S, C, M> {
    /// The way in which parents are selected.
    pub closed spec fn selection_method(&self) -> S {
        self.selection_method
    }

    /// The way in which two parents are crossed.
    pub closed spec fn crossover_method(&self) -> C {
        self.crossover_method
    }

    /// The way in which a child is mutated.
    pub closed spec fn mutation_method(&self) -> M {
        self.mutation_method
    }

    /// An algorithm that works with the three given methods.
    pub fn new(selection_method: S, crossover_method: C, mutation_method: M) -> (algorithm: Self)
        ensures
            algorithm.selection_method() == selection_method,
            algorithm.crossover_method() == crossover_method,
            algorithm.mutation_method() == mutation_method,
    {
        GeneticAlgorithm { selection_method, crossover_method, mutation_method }
    }

    /// Whether `offspring` can come from the members at `a` and `b` as its
    /// parents, with `crossed` as their child before its mutation.
    pub open spec fn bred_from<I: Individual>(
        &self,
        population: &[I],
        a: usize,
        b: usize,
        crossed: Chromosome,
        offspring: I,
    ) -> bool where S: SelectionMethod<I> {
        &&& a < population@.len()
        &&& b < population@.len()
        &&& self.selection_method().selects(population, a)
        &&& self.selection_method().selects(population, b)
        &&& self.crossover_method().combines(
            population@[a as int].genome(),
            population@[b as int].genome(),
            crossed,
        )
        &&& self.mutation_method().alters(crossed, offspring.genome())
    }

    /// Whether `offspring` can come from two members of the population: both
    /// selected, then crossed, their child mutated and made a member.
    pub open spec fn breeds<I: Individual>(&self, population: &[I], offspring: I) -> bool where
        S: SelectionMethod<I>,
     {
        exists|a: usize, b: usize, crossed: Chromosome| #[trigger]
            self.bred_from(population, a, b, crossed, offspring)
    }

    /// The next generation: as many members as the population has, each bred
    /// from two of its members, with a genome of the population's length.
    pub fn evolve<I>(&self, rng: &mut StdRng, population: &[I]) -> (offspring: Vec<I>) where
        I: Individual,
        S: SelectionMethod<I>,

        requires
            population@.len() > 0,
            self.selection_method().accepts(population),
            same_length(population),
        ensures
            offspring@.len() == population@.len(),
            forall|k: int|
                0 <= k < offspring@.len() ==> self.breeds(population, #[trigger] offspring@[k]),
            forall|k: int|
                0 <= k < offspring@.len() ==> (#[trigger] offspring@[k]).genome()@.len()
                    == population@[0].genome()@.len(),
    {
        let n = population.len();
        let mut offspring: Vec<I> = Vec::new();
        let mut k: usize = 0;
        while k < n
            invariant
                k <= n,
                n == population@.len(),
                n > 0,
                self.selection_method().accepts(population),
                same_length(population),
                offspring@.len() == k,
                forall|m: int|
                    0 <= m < k ==> self.breeds(population, #[trigger] offspring@[m]),
                forall|m: int|
                    0 <= m < k ==> (#[trigger] offspring@[m]).genome()@.len()
                        == population@[0].genome()@.len(),
            decreases n - k,
        {
            let first = self.selection_method.select(rng, population);
            let second = self.selection_method.select(rng, population);
            let ghost a = choose|i: usize|
                i < population@.len() && population@[i as int] == *first
                    && #[trigger] self.selection_method().selects(population, i);
            let ghost b = choose|i: usize|
                i < population@.len() && population@[i as int] == *second
                    && #[trigger] self.selection_method().selects(population, i);
            let parent_a = first.chromosome();
            let parent_b = second.chromosome();
            let mut child = self.crossover_method.crossover(rng, parent_a, parent_b);
            let ghost crossed = child;
            self.mutation_method.mutate(rng, &mut child);
            let member = I::create(child);
            proof {
                assert(self.bred_from(population, a, b, crossed, member));
            }
            offspring.push(member);
            k += 1;
        }
        offspring
    }
}

} // verus!
