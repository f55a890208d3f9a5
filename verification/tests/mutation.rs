use neuroevolution::Chromosome;
use neuroevolution::GeneDraw;
use neuroevolution::GuassianMutation;
use neuroevolution::MutationMethod;
use rand::rngs::StdRng;
use rand::RngCore;
use rand::SeedableRng;

const ONE: u32 = 65536;

fn draw(negative: bool, applied: bool, fraction: u32) -> GeneDraw {
    GeneDraw { negative, applied, fraction }
}

#[test]
fn perturb_adds_the_fraction_of_the_coefficient() {
    let m = GuassianMutation::new(ONE, 32768);
    assert_eq!(m.perturb(10000, draw(false, true, 16384)), 18192);
}

#[test]
fn perturb_subtracts_on_a_negative_sign() {
    let m = GuassianMutation::new(ONE, 32768);
    assert_eq!(m.perturb(10000, draw(true, true, 16384)), 1808);
}

#[test]
fn perturb_leaves_a_gene_that_is_not_applied() {
    let m = GuassianMutation::new(ONE, 32768);
    assert_eq!(m.perturb(10000, draw(true, false, 16384)), 10000);
    assert_eq!(m.perturb(-7, draw(false, false, 65535)), -7);
}

#[test]
fn perturb_rounds_the_change_down() {
    let m = GuassianMutation::new(ONE, 3);
    assert_eq!(m.perturb(50, draw(false, true, 1)), 50);
    assert_eq!(m.perturb(50, draw(false, true, 65535)), 52);
    assert_eq!(m.perturb(50, draw(true, true, 65535)), 48);
}

#[test]
fn perturb_stays_within_the_range_of_a_gene() {
    let m = GuassianMutation::new(ONE, 32768);
    assert_eq!(m.perturb(i32::MAX - 5, draw(false, true, 16384)), i32::MAX);
    assert_eq!(m.perturb(i32::MIN + 5, draw(true, true, 16384)), i32::MIN);
    let wide = GuassianMutation::new(ONE, u32::MAX);
    assert_eq!(wide.perturb(0, draw(true, true, 65535)), i32::MIN);
    assert_eq!(wide.perturb(0, draw(false, true, 65535)), i32::MAX);
    assert_eq!(wide.perturb(i32::MIN, draw(false, true, 65535)), 2147418111);
}

#[test]
fn perturb_with_fraction_zero_changes_nothing() {
    let m = GuassianMutation::new(ONE, 123456);
    assert_eq!(m.perturb(77, draw(true, true, 0)), 77);
    assert_eq!(m.perturb(77, draw(false, true, 0)), 77);
}

#[test]
fn apply_takes_each_draw_for_the_gene_at_its_place() {
    let m = GuassianMutation::new(32768, 65536);
    let mut c = Chromosome::from_genes(vec![0, 100, 200, 300]);
    let draws = vec![
        draw(false, true, 32768),
        draw(true, false, 0),
        draw(true, true, 16384),
        draw(false, true, 1),
    ];
    m.apply(&draws, &mut c);
    assert_eq!(c.into_genes(), vec![32768, 100, 200 - 16384, 301]);
}

#[test]
fn draw_gives_one_draw_for_each_gene() {
    let m = GuassianMutation::new(32768, 65536);
    let mut rng = StdRng::seed_from_u64(9);
    let draws = m.draw(&mut rng, 300);
    assert_eq!(draws.len(), 300);
    let mut applied = 0;
    let mut negative = 0;
    let mut distinct = std::collections::BTreeSet::new();
    for d in draws.iter() {
        assert!(d.fraction < ONE);
        if d.applied {
            applied += 1;
            distinct.insert(d.fraction);
        } else {
            assert_eq!(d.fraction, 0);
        }
        if d.negative {
            negative += 1;
        }
    }
    assert!(applied > 75 && applied < 225);
    assert!(negative > 75 && negative < 225);
    assert!(distinct.len() > 10);
}

#[test]
fn chance_zero_never_applies() {
    let m = GuassianMutation::new(0, 65536);
    let mut rng = StdRng::seed_from_u64(10);
    for d in m.draw(&mut rng, 500).iter() {
        assert!(!d.applied);
    }
}

#[test]
fn chance_one_always_applies() {
    let m = GuassianMutation::new(ONE, 65536);
    let mut rng = StdRng::seed_from_u64(10);
    for d in m.draw(&mut rng, 500).iter() {
        assert!(d.applied);
    }
}

#[test]
fn mutate_with_chance_zero_leaves_the_genome() {
    let m = GuassianMutation::new(0, 65536);
    let mut rng = StdRng::seed_from_u64(21);
    let genes: Vec<i32> = (0..50).map(|x| x * 1000 - 20000).collect();
    let mut c = Chromosome::from_genes(genes.clone());
    m.mutate(&mut rng, &mut c);
    assert_eq!(c.into_genes(), genes);
}

#[test]
fn mutate_with_chance_zero_still_draws_for_each_gene() {
    let m = GuassianMutation::new(0, 65536);
    let mut rng = StdRng::seed_from_u64(21);
    let mut c = Chromosome::from_genes(vec![1, 2, 3, 4]);
    m.mutate(&mut rng, &mut c);
    let mut untouched = StdRng::seed_from_u64(21);
    let after_none = untouched.next_u64();
    let mut reference = StdRng::seed_from_u64(21);
    for _ in 0..8 {
        reference.next_u64();
    }
    let expected = reference.next_u64();
    let got = rng.next_u64();
    assert_eq!(got, expected);
    assert_ne!(got, after_none);
}

#[test]
fn mutate_with_coefficient_zero_leaves_the_genome() {
    let m = GuassianMutation::new(ONE, 0);
    let mut rng = StdRng::seed_from_u64(22);
    let genes: Vec<i32> = vec![i32::MIN, -1, 0, 1, i32::MAX, 65536];
    let mut c = Chromosome::from_genes(genes.clone());
    m.mutate(&mut rng, &mut c);
    assert_eq!(c.into_genes(), genes);
}

#[test]
fn mutate_moves_each_gene_by_less_than_the_coefficient() {
    let m = GuassianMutation::new(ONE, 1000);
    let mut rng = StdRng::seed_from_u64(23);
    let genes: Vec<i32> = (0..200).map(|x| x * 5000).collect();
    let mut c = Chromosome::from_genes(genes.clone());
    m.mutate(&mut rng, &mut c);
    assert_eq!(c.len(), 200);
    let mut moved = 0;
    for i in 0..200 {
        let change = (c.gene(i) - genes[i]).abs();
        assert!(change < 1000);
        if change > 0 {
            moved += 1;
        }
    }
    assert!(moved > 100);
}

#[test]
fn mutate_with_one_seed_gives_one_genome() {
    let m = GuassianMutation::new(32768, 65536);
    let mut first = StdRng::seed_from_u64(24);
    let mut second = StdRng::seed_from_u64(24);
    let mut a = Chromosome::from_genes((0..100).collect());
    let mut b = Chromosome::from_genes((0..100).collect());
    m.mutate(&mut first, &mut a);
    m.mutate(&mut second, &mut b);
    assert_eq!(a.into_genes(), b.into_genes());
}

#[test]
fn boxed_mutation_mutates_as_the_method_in_the_box() {
    let boxed: Box<dyn MutationMethod> = Box::new(GuassianMutation::new(32768, 65536));
    let plain = GuassianMutation::new(32768, 65536);
    let mut first = StdRng::seed_from_u64(25);
    let mut second = StdRng::seed_from_u64(25);
    let mut a = Chromosome::from_genes((0..100).collect());
    let mut b = Chromosome::from_genes((0..100).collect());
    boxed.mutate(&mut first, &mut a);
    plain.mutate(&mut second, &mut b);
    assert_eq!(a.into_genes(), b.into_genes());
}
