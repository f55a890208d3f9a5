//! Mutation: a genome is perturbed in place, gene by gene.
use crate::chromosome::Chromosome;
use crate::fixed::saturate;
use crate::fixed::saturating;
use crate::fixed::scaled_product;
use crate::fixed::ONE;
use crate::random::draw_between;
use crate::random::draw_ratio;
use rand::rngs::StdRng;
use vstd::prelude::*;

verus! {

/// A way to change a genome in place. The length stays.
pub trait MutationMethod {
    /// Whether this method can turn the genome `before` into `after`.
    spec fn alters(&self, before: Chromosome, after: Chromosome) -> bool;

    /// Changes the genome in one of the ways that this method has.
    fn mutate(&self, rng: &mut StdRng, child: &mut Chromosome)
        ensures
            final(child)@.len() == old(child)@.len(),
            self.alters(*old(child), *final(child)),
    ;
}

/// What was drawn for one gene: a sign, whether the gene is changed at all,
/// and the fraction of the coefficient by which it is then moved.
#[derive(Clone, Copy, Debug)]
pub struct GeneDraw {
    /// Whether the gene is moved down rather than up.
    pub negative: bool,
    /// Whether the gene is moved at all.
    pub applied: bool,
    /// The part of the coefficient by which the gene is moved, a fixed-point
    /// number below one.
    pub fraction: u32,
}

/// A gene moved by the given fraction of `coefficient`, down if `negative` and
/// up if not, and kept within the range of a gene.
pub open spec fn perturbed(gene: i32, negative: bool, coefficient: u32, fraction: u32) -> i32 {
    let magnitude = scaled_product(coefficient as int, fraction as int);
    if negative {
        saturate(gene - magnitude)
    } else {
        saturate(gene + magnitude)
    }
}

/// The gene that one draw leaves.
pub open spec fn gene_after(gene: i32, draw: GeneDraw, coefficient: u32) -> i32 {
    if draw.applied {
        perturbed(gene, draw.negative, coefficient, draw.fraction)
    } else {
        gene
    }
}

/// The genome that the draws leave, each draw taken for the gene at its place.
pub open spec fn mutated(before: Seq<i32>, draws: Seq<GeneDraw>, coefficient: u32) -> Seq<i32> {
    Seq::new(before.len(), |i: int| gene_after(before[i], draws[i], coefficient))
}

/// Whether the draws are such as a mutation with the given chance makes: every
/// fraction lies below one, no gene is changed where the chance is zero, and
/// every gene where it is one.
pub open spec fn draws_fit(draws: Seq<GeneDraw>, chance: u32) -> bool {
    forall|i: int|
        0 <= i < draws.len() ==> {
            &&& (#[trigger] draws[i]).fraction < ONE
            &&& (chance == 0 ==> !draws[i].applied)
            &&& (chance == ONE ==> draws[i].applied)
        }
}

/// Mutation that moves each gene, with a probability of `chance`, by a random
/// fraction of `coefficient` up or down.
pub struct GuassianMutation {
    chance: u32,
    coeff: u32,
}

impl GuassianMutation {
    #[verifier::type_invariant]
    spec fn wf(self) -> bool {
        self.chance <= ONE
    }

    /// The probability with which a gene is changed, between zero and one.
    pub closed spec fn chance(&self) -> u32 {
        self.chance
    }

    /// The scale of a change.
    pub closed spec fn coefficient(&self) -> u32 {
        self.coeff
    }

    /// A mutation that changes a gene with a probability of `chance`, a
    /// fixed-point number between zero and one, by up to `coeff`.
    pub fn new(chance: u32, coeff: u32) -> (mutation: Self)
        requires
            chance <= ONE,
        ensures
            mutation.chance() == chance,
            mutation.coefficient() == coeff,
    {
        GuassianMutation { chance, coeff }
    }

    /// The gene that one draw leaves.
    pub fn perturb(&self, gene: i32, draw: GeneDraw) -> (after: i32)
        ensures
            after == gene_after(gene, draw, self.coefficient()),
    {
        if draw.applied {
            let wide_coeff = self.coeff as i128;
            let wide_fraction = draw.fraction as i128;
            assert(0 <= wide_coeff * wide_fraction <= 0x1_0000_0000 * 0x1_0000_0000)
                by (nonlinear_arith)
                requires
                    0 <= wide_coeff <= 0x1_0000_0000,
                    0 <= wide_fraction <= 0x1_0000_0000,
            ;
            let product: i128 = wide_coeff * wide_fraction;
            let magnitude: i128 = product / (ONE as i128);
            if draw.negative {
                saturating(gene as i128 - magnitude)
            } else {
                saturating(gene as i128 + magnitude)
            }
        } else {
            gene
        }
    }

    /// Draws for `count` genes in their order. For each gene the sign is drawn
    /// first, then whether the gene is changed, and the fraction only if it is.
    pub fn draw(&self, rng: &mut StdRng, count: usize) -> (draws: Vec<GeneDraw>)
        ensures
            draws@.len() == count,
            draws_fit(draws@, self.chance()),
    {
        proof {
            use_type_invariant(self);
        }
        let mut draws: Vec<GeneDraw> = Vec::new();
        let mut i: usize = 0;
        while i < count
            invariant
                i <= count,
                draws@.len() == i,
                draws_fit(draws@, self.chance),
                self.chance <= ONE,
            decreases count - i,
        {
            let negative = draw_ratio(rng, 1, 2);
            let applied = draw_ratio(rng, self.chance, ONE as u32);
            let fraction: u32 = if applied {
                draw_between(rng, 0, ONE - 1) as u32
            } else {
                0
            };
            draws.push(GeneDraw { negative, applied, fraction });
            i += 1;
        }
        draws
    }

    /// Changes the genome as the draws say, each draw taken for the gene at
    /// its place.
    pub fn apply(&self, draws: &Vec<GeneDraw>, child: &mut Chromosome)
        requires
            draws@.len() == old(child)@.len(),
        ensures
            final(child)@ == mutated(old(child)@, draws@, self.coefficient()),
    {
        let n = child.len();
        let mut i: usize = 0;
        while i < n
            invariant
                i <= n,
                n == draws@.len(),
                child@.len() == n,
                old(child)@.len() == n,
                forall|k: int|
                    0 <= k < i ==> child@[k] == gene_after(
                        old(child)@[k],
                        draws@[k],
                        self.coefficient(),
                    ),
                forall|k: int| i <= k < n ==> child@[k] == old(child)@[k],
            decreases n - i,
        {
            let after = self.perturb(child.gene(i), draws[i]);
            child.set_gene(i, after);
            i += 1;
        }
        assert(child@ =~= mutated(old(child)@, draws@, self.coefficient()));
    }
}

/// A perturbed gene lies on the side of the gene that the sign names, and no
/// further from it than the coefficient.
pub proof fn perturbation_is_bounded(gene: i32, negative: bool, coefficient: u32, fraction: u32)
    requires
        fraction < ONE,
    ensures
        negative ==> gene - coefficient <= perturbed(gene, negative, coefficient, fraction) <= gene,
        !negative ==> gene <= perturbed(gene, negative, coefficient, fraction) <= gene
            + coefficient,
{
    let c = coefficient as int;
    let f = fraction as int;
    assert(0 <= (c * f) / 65536 <= c) by (nonlinear_arith)
        requires
            0 <= c,
            0 <= f < 65536,
    ;
}

/// A mutation whose chance is zero leaves every genome as it is.
pub proof fn chance_zero_changes_nothing(before: Seq<i32>, draws: Seq<GeneDraw>, coefficient: u32)
    requires
        draws.len() == before.len(),
        draws_fit(draws, 0),
    ensures
        mutated(before, draws, coefficient) == before,
{
    assert(mutated(before, draws, coefficient) =~= before);
}

/// A mutation whose coefficient is zero leaves every genome as it is,
/// whatever is drawn.
pub proof fn coefficient_zero_changes_nothing(before: Seq<i32>, draws: Seq<GeneDraw>)
    requires
        draws.len() == before.len(),
    ensures
        mutated(before, draws, 0) == before,
{
    assert forall|i: int| 0 <= i < before.len() implies gene_after(before[i], draws[i], 0)
        == before[i] by {
        assert(scaled_product(0, draws[i].fraction as int) == 0);
    }
    assert(mutated(before, draws, 0) =~= before);
}

impl MutationMethod for GuassianMutation {
    open spec fn alters(&self, before: Chromosome, after: Chromosome) -> bool {
        exists|draws: Seq<GeneDraw>|
            {
                &&& draws.len() == before@.len()
                &&& draws_fit(draws, self.chance())
                &&& after@ == #[trigger] mutated(before@, draws, self.coefficient())
            }
    }

    fn mutate(&self, rng: &mut StdRng, child: &mut Chromosome)
        ensures
            self.chance() == 0 ==> final(child)@ == old(child)@,
            self.coefficient() == 0 ==> final(child)@ == old(child)@,
    {
        let draws = self.draw(rng, child.len());
        self.apply(&draws, child);
        proof {
            if self.chance() == 0 {
                chance_zero_changes_nothing(old(child)@, draws@, self.coefficient());
            }
            if self.coefficient() == 0 {
                coefficient_zero_changes_nothing(old(child)@, draws@);
            }
        }
    }
}

/// A boxed method mutates as the method in the box does, so that an algorithm
/// can hold a method that is chosen while the program runs.
impl<T: MutationMethod + ?Sized> MutationMethod for Box<T> {
    open spec fn alters(&self, before: Chromosome, after: Chromosome) -> bool {
        (**self).alters(before, after)
    }

    fn mutate(&self, rng: &mut StdRng, child: &mut Chromosome) {
        (**self).mutate(rng, child)
    }
}

} // verus!
