//! Selection: one member of a population is chosen as a parent.
use crate::individual::Individual;
use rand::distributions::WeightedError;
use rand::rngs::StdRng;
use rand::seq::SliceRandom;
use vstd::pervasive::unreached;
use vstd::prelude::*;

verus! {

/// A way to choose a parent. A choice leaves the population as it is, so the
/// same member can be chosen again.
pub trait SelectionMethod<I: Individual> {
    /// Whether this method can choose from the population at all.
    spec fn accepts(&self, population: &[I]) -> bool;

    /// Whether this method can choose the member at `index`.
    spec fn selects(&self, population: &[I], index: usize) -> bool;

    /// A member of the population that this method can choose.
    fn select<'a>(&self, rng: &mut StdRng, population: &'a [I]) -> (chosen: &'a I)
        requires
            population@.len() > 0,
            self.accepts(population),
        ensures
            exists|i: usize|
                i < population@.len() && population@[i as int] == *chosen
                    && #[trigger] self.selects(population, i),
    ;
}

/// Why no parent was chosen.
#[derive(Clone, Copy, Debug, PartialEq, Eq)]
pub enum SelectionError {
    /// The population has no member.
    EmptyPopulation,
    /// No member of the population has a fitness above zero.
    NoFitness,
}

impl SelectionError {
    /// What went wrong, in words.
    pub fn message(&self) -> (text: &'static str)
        ensures
            *self matches SelectionError::EmptyPopulation ==> text@ == "empty population"@,
            *self matches SelectionError::NoFitness ==> text@ == "no member has any fitness"@,
    {
        match self {
            SelectionError::EmptyPopulation => "empty population",
            SelectionError::NoFitness => "no member has any fitness",
        }
    }
}

/// The largest population from which a parent is chosen by fitness: with more
/// members the sum of the weights could leave the range of a `u64`.
pub const MAX_POPULATION: usize = 0xffff_ffff;

/// Whether some member has a fitness above zero.
pub open spec fn some_fit<I: Individual>(population: &[I]) -> bool {
    exists|i: int| 0 <= i < population@.len() && (#[trigger] population@[i]).fitness_value() > 0
}

/// Whether the member at `index` exists and has a fitness above zero.
pub open spec fn fit_at<I: Individual>(population: &[I], index: int) -> bool {
    0 <= index < population@.len() && population@[index].fitness_value() > 0
}

/// Tells whether some member has a fitness above zero.
pub fn has_fit_member<I: Individual>(population: &[I]) -> (fit: bool)
    ensures
        fit == some_fit(population),
{
    let n = population.len();
    let mut i: usize = 0;
    while i < n
        invariant
            i <= n,
            n == population@.len(),
            forall|m: int| 0 <= m < i ==> (#[trigger] population@[m]).fitness_value() == 0,
        decreases n - i,
    {
        if population[i].fitness() > 0 {
            assert(population@[i as int].fitness_value() > 0);
            return true;
        }
        i += 1;
    }
    false
}

/// The weight with which a member is chosen: its fitness.
pub fn weight_of<I: Individual>(member: &I) -> (weight: u64)
    ensures
        weight == member.fitness_value(),
{
    member.fitness() as u64
}

/// The reasons for which a weighted choice fails.
pub(crate) enum WeightedFailure {
    NoItem,
    InvalidWeight,
    AllWeightsZero,
    TooMany,
}

/// Calls `SliceRandom::choose_weighted` with the fitness of each member as its
/// weight. Believed of it: a member that it returns is one of the population
/// whose weight is above zero; it reports no item only for an empty
/// population, and all weights zero only where every weight is zero; whole
/// numbers are never invalid weights, and it never reports too many.
#[verifier::external_body]
pub(crate) fn choose_by_fitness<'a, I: Individual>(rng: &mut StdRng, population: &'a [I]) -> (outcome:
    Result<&'a I, WeightedFailure>)
    requires
        population@.len() <= MAX_POPULATION,
    ensures
        match outcome {
            Ok(chosen) => exists|i: int| #[trigger]
                fit_at(population, i) && population@[i] == *chosen,
            Err(WeightedFailure::NoItem) => population@.len() == 0,
            Err(WeightedFailure::AllWeightsZero) => population@.len() > 0 && !some_fit(population),
            Err(WeightedFailure::InvalidWeight) => false,
            Err(WeightedFailure::TooMany) => false,
        },
{
    match population.choose_weighted(rng, |member| weight_of(member)) {
        Ok(chosen) => Ok(chosen),
        Err(WeightedError::NoItem) => Err(WeightedFailure::NoItem),
        Err(WeightedError::InvalidWeight) => Err(WeightedFailure::InvalidWeight),
        Err(WeightedError::AllWeightsZero) => Err(WeightedFailure::AllWeightsZero),
        Err(WeightedError::TooMany) => Err(WeightedFailure::TooMany),
    }
}

/// Fitness-proportionate selection: a member is chosen with a probability of
/// its fitness over the sum of all.
#[derive(Clone, Debug)]
pub struct PropSelection;

impl PropSelection {
    /// Chooses a member, or says why none can be chosen. A member is chosen
    /// exactly where some member has a fitness above zero, and the one chosen
    /// has such a fitness. An empty population is refused whatever the
    /// generator holds.
    pub fn try_select<'a, I>(&self, rng: &mut StdRng, population: &'a [I]) -> (outcome: Result<
        &'a I,
        SelectionError,
    >) where I: Individual
        requires
            population@.len() <= MAX_POPULATION,
        ensures
            outcome is Ok <==> some_fit(population),
            outcome matches Ok(chosen) ==> exists|i: int| #[trigger]
                fit_at(population, i) && population@[i] == *chosen,
            outcome matches Err(SelectionError::EmptyPopulation) <==> population@.len() == 0,
            outcome matches Err(SelectionError::NoFitness) <==> population@.len() > 0 && !some_fit(
                population,
            ),
    {
        match choose_by_fitness(rng, population) {
            Ok(chosen) => Ok(chosen),
            Err(WeightedFailure::NoItem) => Err(SelectionError::EmptyPopulation),
            Err(WeightedFailure::AllWeightsZero) => Err(SelectionError::NoFitness),
            Err(WeightedFailure::InvalidWeight) => unreached(),
            Err(WeightedFailure::TooMany) => unreached(),
        }
    }
}

impl<I: Individual> SelectionMethod<I> for PropSelection {
    open spec fn accepts(&self, population: &[I]) -> bool {
        population@.len() <= MAX_POPULATION && some_fit(population)
    }

    open spec fn selects(&self, population: &[I], index: usize) -> bool {
        fit_at(population, index as int)
    }

    fn select<'a>(&self, rng: &mut StdRng, population: &'a [I]) -> (chosen: &'a I) {
        match self.try_select(rng, population) {
            Ok(chosen) => {
                proof {
                    let i = choose|i: int| #[trigger]
                        fit_at(population, i) && population@[i] == *chosen;
                    assert(self.selects(population, i as usize));
                }
                chosen
            },
            Err(_) => unreached(),
        }
    }
}

} // verus!
