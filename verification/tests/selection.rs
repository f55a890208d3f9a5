use neuroevolution::selection::has_fit_member;
use neuroevolution::selection::weight_of;
use neuroevolution::Chromosome;
use neuroevolution::Individual;
use neuroevolution::PropSelection;
use neuroevolution::SelectionError;
use neuroevolution::SelectionMethod;
use rand::rngs::StdRng;
use rand::SeedableRng;

struct Scored {
    fitness: u32,
    chromosome: Chromosome,
}

impl Scored {
    fn new(fitness: u32) -> Self {
        Scored { fitness, chromosome: Chromosome::from_genes(vec![fitness as i32]) }
    }
}

impl Individual for Scored {
    fn fitness_value(&self) -> u32 {
        self.fitness
    }

    fn genome(&self) -> Chromosome {
        self.chromosome.clone()
    }

    fn fitness(&self) -> u32 {
        self.fitness
    }

    fn chromosome(&self) -> &Chromosome {
        &self.chromosome
    }

    fn create(chromosome: Chromosome) -> Self {
        Scored { fitness: 0, chromosome }
    }
}

#[test]
fn selection_from_an_empty_population_fails() {
    let population: Vec<Scored> = Vec::new();
    for seed in 0..20 {
        let mut rng = StdRng::seed_from_u64(seed);
        let outcome = PropSelection.try_select(&mut rng, &population);
        assert_eq!(outcome.err(), Some(SelectionError::EmptyPopulation));
    }
}

#[test]
fn selection_without_any_fitness_fails() {
    let population = vec![Scored::new(0), Scored::new(0), Scored::new(0)];
    let mut rng = StdRng::seed_from_u64(1);
    let outcome = PropSelection.try_select(&mut rng, &population);
    assert_eq!(outcome.err(), Some(SelectionError::NoFitness));
}

#[test]
fn the_only_fit_member_is_always_selected() {
    let population = vec![Scored::new(0), Scored::new(0), Scored::new(5), Scored::new(0)];
    let mut rng = StdRng::seed_from_u64(2);
    for _ in 0..100 {
        let chosen = PropSelection.select(&mut rng, &population);
        assert_eq!(chosen.fitness, 5);
        assert!(std::ptr::eq(chosen, &population[2]));
    }
}

#[test]
fn a_member_without_fitness_is_never_selected() {
    let population = vec![Scored::new(3), Scored::new(0), Scored::new(1), Scored::new(0)];
    let mut rng = StdRng::seed_from_u64(3);
    for _ in 0..500 {
        let chosen = PropSelection.try_select(&mut rng, &population).ok().unwrap();
        assert!(chosen.fitness > 0);
    }
}

#[test]
fn selection_is_in_proportion_to_fitness() {
    let population = vec![Scored::new(1), Scored::new(2), Scored::new(4), Scored::new(3)];
    let mut rng = StdRng::seed_from_u64(4);
    let mut counts = [0u32; 5];
    for _ in 0..10000 {
        let chosen = PropSelection.select(&mut rng, &population);
        counts[chosen.fitness as usize] += 1;
    }
    assert_eq!(counts[0], 0);
    assert!(counts[1] > 800 && counts[1] < 1200);
    assert!(counts[2] > 1800 && counts[2] < 2200);
    assert!(counts[3] > 2800 && counts[3] < 3200);
    assert!(counts[4] > 3800 && counts[4] < 4200);
}

#[test]
fn selection_takes_the_largest_fitness_as_a_weight() {
    let population = vec![Scored::new(u32::MAX), Scored::new(u32::MAX), Scored::new(0)];
    let mut rng = StdRng::seed_from_u64(5);
    let mut first = 0;
    let mut second = 0;
    for _ in 0..1000 {
        let chosen = PropSelection.select(&mut rng, &population);
        if std::ptr::eq(chosen, &population[0]) {
            first += 1;
        } else {
            assert!(std::ptr::eq(chosen, &population[1]));
            second += 1;
        }
    }
    assert!(first > 400);
    assert!(second > 400);
}

#[test]
fn selection_with_one_seed_selects_one_member() {
    let population = vec![Scored::new(1), Scored::new(2), Scored::new(4), Scored::new(3)];
    let mut first = StdRng::seed_from_u64(6);
    let mut second = StdRng::seed_from_u64(6);
    for _ in 0..50 {
        let a = PropSelection.select(&mut first, &population);
        let b = PropSelection.select(&mut second, &population);
        assert!(std::ptr::eq(a, b));
    }
}

#[test]
fn has_fit_member_finds_a_fitness_above_zero() {
    let none: Vec<Scored> = Vec::new();
    assert!(!has_fit_member(&none));
    assert!(!has_fit_member(&[Scored::new(0), Scored::new(0)]));
    assert!(has_fit_member(&[Scored::new(0), Scored::new(1)]));
    assert!(has_fit_member(&[Scored::new(7)]));
}

#[test]
fn weight_is_the_fitness() {
    assert_eq!(weight_of(&Scored::new(0)), 0);
    assert_eq!(weight_of(&Scored::new(12345)), 12345);
    assert_eq!(weight_of(&Scored::new(u32::MAX)), 4294967295);
}

#[test]
fn each_error_says_what_went_wrong() {
    assert_eq!(SelectionError::EmptyPopulation.message(), "empty population");
    assert_eq!(SelectionError::NoFitness.message(), "no member has any fitness");
}
