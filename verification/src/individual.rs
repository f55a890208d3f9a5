//! What the algorithm asks of a member of a population.
use crate::chromosome::Chromosome;
use vstd::prelude::*;

verus! {

/// A member of a population: it has a fitness and a genome, and another can be
/// made from a genome. The algorithm knows nothing else of it.
pub trait Individual: Sized {
    /// The fitness as the contracts see it.
    spec fn fitness_value(&self) -> u32;

    /// The genome as the contracts see it.
    spec fn genome(&self) -> Chromosome;

    /// The fitness, a non-negative fixed-point number.
    fn fitness(&self) -> (fitness: u32)
        ensures
            fitness == self.fitness_value(),
    ;

    /// The genome, to read.
    fn chromosome(&self) -> (chromosome: &Chromosome)
        ensures
            *chromosome == self.genome(),
    ;

    /// A new member with the given genome. Its fitness is not yet known.
    fn create(chromosome: Chromosome) -> (individual: Self)
        ensures
            individual.genome() == chromosome,
    ;
}

} // verus!
