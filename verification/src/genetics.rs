use vstd::prelude::*;

use crate::sampling::rand_at_most;
use crate::sampling::rand_byte;
use crate::sampling::rand_index;
use crate::sampling::rand_ppm;
use crate::vm::Direction;

verus! {

/// Half of the parts-per-million scale: the probability of taking a
/// crossover bit from the first parent rather than the second.
pub const COIN_PPM: u32 = 500_000;

/// A candidate solution: a 64-byte program together with the results of
/// its latest evaluation. The fitness is stored exactly, as the numerator
/// of a fraction over `fitness_den_spec` of the treasure total.
pub struct Chromosome {
    pub genes: Vec<u8>,
    pub found_treasures: u32,
    pub fitness: u64,
    pub iterations: u32,
    pub steps: Vec<Direction>,
}

impl Chromosome {
    /// Wraps an instruction sequence into a chromosome that has not been
    /// evaluated yet: every score starts at zero, the trace empty.
    pub fn with_instructions(instructions: Vec<u8>) -> (c: Chromosome)
        ensures
            c.genes@ == instructions@,
            c.found_treasures == 0,
            c.fitness == 0,
            c.iterations == 0,
            c.steps@ == Seq::<Direction>::empty(),
    {
        Chromosome {
            genes: instructions,
            found_treasures: 0,
            fitness: 0,
            iterations: 0,
            steps: Vec::new(),
        }
    }
}

/// A fresh genome: 64 instructions, of which the first 16 are drawn
/// uniformly from the full 8-bit range and the remaining 48 start at zero.
pub fn random_instructions(rng: &mut rand_pcg::Pcg64) -> (output: Vec<u8>)
    ensures
        output@.len() == 64,
        forall|i: int| 16 <= i < 64 ==> output@[i] == 0u8,
{
    let mut output: Vec<u8> = Vec::new();
    let mut i: usize = 0;
    while i < 16
        invariant
            i <= 16,
            output@.len() == i,
        decreases 16 - i,
    {
        output.push(rand_byte(rng));
        i = i + 1;
    }
    while i < 64
        invariant
            16 <= i <= 64,
            output@.len() == i,
            forall|j: int| 16 <= j < i ==> output@[j] == 0u8,
        decreases 64 - i,
    {
        output.push(0);
        i = i + 1;
    }
    output
}

/// The fitness numerator: the found-over-total treasure ratio minus a
/// penalty of 1/200 per step, clamped at zero, all brought over the common
/// denominator `200 * total`.
pub open spec fn fitness_num_spec(steps: int, found: int, total: int) -> int {
    if 200 * found >= steps * total {
        200 * found - steps * total
    } else {
        0
    }
}

/// The denominator that fitness numerators are measured against.
pub open spec fn fitness_den_spec(total: int) -> int {
    200 * total
}

/// The fitness of an evaluation outcome, as the numerator of the exact
/// fraction `found/total - steps/200` clamped at zero, over the
/// denominator `fitness_den_spec(all_treasures)`. Rewards treasures found,
/// penalizes every step taken, and never goes negative.
pub fn calculate_fitness(steps: usize, found_treasures: u32, all_treasures: u32) -> (f: u64)
    requires
        all_treasures >= 1,
    ensures
        f as int == fitness_num_spec(steps as int, found_treasures as int, all_treasures as int),
{
    let reward: u128 = 200u128 * (found_treasures as u128);
    proof {
        vstd::arithmetic::mul::lemma_mul_upper_bound(
            steps as int,
            u64::MAX as int,
            all_treasures as int,
            u32::MAX as int,
        );
    }
    let penalty: u128 = (steps as u128) * (all_treasures as u128);
    if reward >= penalty {
        (reward - penalty) as u64
    } else {
        0
    }
}

/// The fitness fraction of a genome's evaluation lies between 0 and 1
/// inclusive, and is exactly 0 whenever no treasure was found, however
/// many steps were taken.
pub proof fn lemma_fitness_bounds(steps: int, found: int, total: int)
    requires
        0 <= steps,
        0 <= found <= total,
        1 <= total,
    ensures
        0 <= fitness_num_spec(steps, found, total) <= fitness_den_spec(total),
        found == 0 ==> fitness_num_spec(steps, found, total) == 0,
{
    assert(steps * total >= 0) by (nonlinear_arith)
        requires
            steps >= 0,
            total >= 1,
    ;
}

/// Produces a child's 64-byte instruction sequence from two parents. Each
/// output byte is built bit by bit, most significant first: an even coin
/// picks each bit from one parent or the other, and an independent draw
/// with probability `mutation_ppm` parts per million flips it. With the
/// mutation probability zero, every output bit is one of the parents'
/// bits at that position, and two equal parents then reproduce exactly;
/// with the probability at certainty (one million or above), every output
/// bit is the flip of a parent's bit, and two equal parents then yield
/// the exact bitwise complement.
pub fn reproduce(
    parent1: &Chromosome,
    parent2: &Chromosome,
    mutation_ppm: u32,
    rng: &mut rand_pcg::Pcg64,
) -> (output: Vec<u8>)
    requires
        parent1.genes@.len() == 64,
        parent2.genes@.len() == 64,
    ensures
        output@.len() == 64,
        mutation_ppm == 0 ==> forall|i: int|
            0 <= i < 64 ==> ((output@[i] ^ parent1.genes@[i]) & (output@[i] ^ parent2.genes@[i]))
                == 0,
        mutation_ppm == 0 && parent1.genes@ == parent2.genes@ ==> output@ == parent1.genes@,
        mutation_ppm >= 1_000_000 ==> forall|i: int|
            0 <= i < 64 ==> ((output@[i] ^ (parent1.genes@[i] ^ 0xFF)) & (output@[i]
                ^ (parent2.genes@[i] ^ 0xFF))) == 0,
        mutation_ppm >= 1_000_000 && parent1.genes@ == parent2.genes@ ==> forall|i: int|
            0 <= i < 64 ==> output@[i] == (parent1.genes@[i] ^ 0xFF),
{
    let mut output: Vec<u8> = Vec::new();
    let mut i: usize = 0;
    while i < 64
        invariant
            i <= 64,
            output@.len() == i,
            parent1.genes@.len() == 64,
            parent2.genes@.len() == 64,
            mutation_ppm == 0 ==> forall|j: int|
                0 <= j < i ==> ((output@[j] ^ parent1.genes@[j]) & (output@[j]
                    ^ parent2.genes@[j])) == 0,
            mutation_ppm == 0 && parent1.genes@ == parent2.genes@ ==> forall|j: int|
                0 <= j < i ==> output@[j] == parent1.genes@[j],
            mutation_ppm >= 1_000_000 ==> forall|j: int|
                0 <= j < i ==> ((output@[j] ^ (parent1.genes@[j] ^ 0xFF)) & (output@[j]
                    ^ (parent2.genes@[j] ^ 0xFF))) == 0,
            mutation_ppm >= 1_000_000 && parent1.genes@ == parent2.genes@ ==> forall|j: int|
                0 <= j < i ==> output@[j] == (parent1.genes@[j] ^ 0xFF),
        decreases 64 - i,
    {
        let mut mask: u8 = 128;
        let mut choice_mask: u8 = 0;
        let mut mutate_mask: u8 = 0;
        let mut bit: u8 = 0;
        proof {
            assert(128u8 >> 0u8 == 128u8) by (bit_vector);
        }
        while bit < 8
            invariant
                bit <= 8,
                bit < 8 ==> mask == 128u8 >> bit,
                bit == 8 ==> mask == 0u8,
                mutation_ppm == 0 ==> mutate_mask == 0,
                mutation_ppm >= 1_000_000 && bit == 0 ==> mutate_mask == 0,
                mutation_ppm >= 1_000_000 && bit >= 1 ==> mutate_mask == 0xFFu8 << (8 - bit) as u8,
            decreases 8 - bit,
        {
            if rand_ppm(rng) < COIN_PPM {
                choice_mask = choice_mask | mask;
            }
            if rand_ppm(rng) < mutation_ppm {
                mutate_mask = mutate_mask | mask;
            }
            proof {
                let b = bit;
                assert(b < 7 ==> ((128u8 >> b) >> 1) == 128u8 >> (b + 1) as u8) by (bit_vector);
                assert(((128u8 >> 7) >> 1) == 0u8) by (bit_vector);
                if mutation_ppm >= 1_000_000 {
                    assert((0u8 | (128u8 >> 0)) == 0xFFu8 << 7) by (bit_vector);
                    assert(1 <= b < 8 ==> ((0xFFu8 << (8 - b) as u8) | (128u8 >> b)) == 0xFFu8 << (7
                        - b) as u8) by (bit_vector);
                }
            }
            mask = mask >> 1;
            bit = bit + 1;
        }
        let g1 = parent1.genes[i];
        let g2 = parent2.genes[i];
        let number: u8 = ((g1 & choice_mask) | (g2 & !choice_mask)) ^ mutate_mask;
        if mutation_ppm == 0 {
            assert((((((g1 & choice_mask) | (g2 & !choice_mask)) ^ 0u8) ^ g1) & ((((g1
                & choice_mask) | (g2 & !choice_mask)) ^ 0u8) ^ g2)) == 0) by (bit_vector);
            assert(g1 == g2 ==> (((g1 & choice_mask) | (g2 & !choice_mask)) ^ 0u8) == g1)
                by (bit_vector);
        } else {
            proof {
                if mutation_ppm >= 1_000_000 {
                    assert(mutate_mask == 0xFFu8) by {
                        assert(0xFFu8 << 0u8 == 0xFFu8) by (bit_vector);
                    }
                    assert((((((g1 & choice_mask) | (g2 & !choice_mask)) ^ 0xFFu8) ^ (g1 ^ 0xFFu8))
                        & ((((g1 & choice_mask) | (g2 & !choice_mask)) ^ 0xFFu8) ^ (g2 ^ 0xFFu8)))
                        == 0) by (bit_vector);
                    assert(g1 == g2 ==> (((g1 & choice_mask) | (g2 & !choice_mask)) ^ 0xFFu8) == (g1
                        ^ 0xFFu8)) by (bit_vector);
                }
            }
        }
        output.push(number);
        i = i + 1;
    }
    proof {
        if mutation_ppm == 0 && parent1.genes@ == parent2.genes@ {
            assert(output@ =~= parent1.genes@);
        }
    }
    output
}

/// The fitness values of a population, in its order.
pub open spec fn fitness_seq(pop: Seq<Chromosome>) -> Seq<u64> {
    pop.map(|i: int, c: Chromosome| c.fitness)
}

/// The cumulative roulette walk from position `i` with `r` of the drawn
/// threshold still unspent: the first position whose fitness strictly
/// exceeds what remains, or the population length if the walk runs out.
pub open spec fn roulette_scan(fits: Seq<u64>, r: int, i: int) -> int
    decreases fits.len() - i,
{
    if i < 0 || i >= fits.len() {
        i
    } else if fits[i] as int > r {
        i
    } else {
        roulette_scan(fits, (r - fits[i]) as int, i + 1)
    }
}

/// The member a roulette draw of `r` selects: the first member whose
/// cumulative fitness strictly exceeds `r`, or — should the walk complete
/// without exceeding it — the last member, as a fallback.
pub open spec fn roulette_pick(fits: Seq<u64>, r: int) -> int {
    let k = roulette_scan(fits, r, 0);
    if k >= fits.len() {
        fits.len() - 1
    } else {
        k
    }
}

/// Walks the population accumulating fitness and returns the index that
/// the drawn threshold `r` selects: exactly `roulette_pick` of the
/// population's fitness values.
pub fn roulette_walk(chromosomes: &Vec<Chromosome>, r: u64) -> (idx: usize)
    requires
        chromosomes@.len() >= 1,
    ensures
        idx < chromosomes@.len(),
        idx as int == roulette_pick(fitness_seq(chromosomes@), r as int),
{
    let ghost fits = fitness_seq(chromosomes@);
    let mut curr_fitness: u128 = 0;
    let mut i: usize = 0;
    while i < chromosomes.len()
        invariant
            chromosomes@.len() >= 1,
            i <= chromosomes@.len(),
            fits == fitness_seq(chromosomes@),
            fits.len() == chromosomes@.len(),
            curr_fitness <= r as u128 || curr_fitness == 0,
            roulette_scan(fits, r as int, 0) == roulette_scan(
                fits,
                r as int - curr_fitness as int,
                i as int,
            ),
        decreases chromosomes@.len() - i,
    {
        let f: u64 = chromosomes[i].fitness;
        proof {
            assert(fits[i as int] == chromosomes@[i as int].fitness);
        }
        curr_fitness = curr_fitness + f as u128;
        if curr_fitness > r as u128 {
            return i;
        }
        i = i + 1;
    }
    chromosomes.len() - 1
}

/// Selects two parents by roulette wheel, with replacement: each is drawn
/// independently by a uniform threshold of at most `total_fitness` and the
/// cumulative walk `roulette_pick` describes. The caller is responsible
/// for `total_fitness` being the population's true fitness sum; a wrong
/// sum biases the draws but still yields valid indices. A population of
/// one always yields its only member twice.
pub fn selection_roulette(
    chromosomes: &Vec<Chromosome>,
    total_fitness: u64,
    rng: &mut rand_pcg::Pcg64,
) -> (parents: (usize, usize))
    requires
        chromosomes@.len() >= 1,
    ensures
        parents.0 < chromosomes@.len(),
        parents.1 < chromosomes@.len(),
        exists|r: int|
            0 <= r <= total_fitness && parents.0 as int == roulette_pick(
                fitness_seq(chromosomes@),
                r,
            ),
        exists|r: int|
            0 <= r <= total_fitness && parents.1 as int == roulette_pick(
                fitness_seq(chromosomes@),
                r,
            ),
        chromosomes@.len() == 1 ==> parents == (0usize, 0usize),
{
    let r0 = rand_at_most(rng, total_fitness);
    let first = roulette_walk(chromosomes, r0);
    let r1 = rand_at_most(rng, total_fitness);
    let second = roulette_walk(chromosomes, r1);
    proof {
        assert(0 <= r0 as int <= total_fitness && first as int == roulette_pick(
            fitness_seq(chromosomes@),
            r0 as int,
        ));
        assert(0 <= r1 as int <= total_fitness && second as int == roulette_pick(
            fitness_seq(chromosomes@),
            r1 as int,
        ));
    }
    (first, second)
}

/// The index a tournament between positions `i` and `j` selects: `i` only
/// on strictly greater fitness, ties and everything else to `j`.
pub open spec fn tournament_winner(fits: Seq<u64>, i: int, j: int) -> int {
    if fits[i] > fits[j] {
        i
    } else {
        j
    }
}

/// One tournament: draws two independent uniformly-random positions and
/// returns the winner between them, as `tournament_winner` describes.
pub fn tournament_round(chromosomes: &Vec<Chromosome>, rng: &mut rand_pcg::Pcg64) -> (idx: usize)
    requires
        chromosomes@.len() >= 1,
    ensures
        idx < chromosomes@.len(),
        exists|i: int, j: int|
            0 <= i < chromosomes@.len() && 0 <= j < chromosomes@.len() && idx as int
                == tournament_winner(fitness_seq(chromosomes@), i, j),
{
    let index1 = rand_index(rng, chromosomes.len());
    let index2 = rand_index(rng, chromosomes.len());
    let ghost fits = fitness_seq(chromosomes@);
    proof {
        assert(fits[index1 as int] == chromosomes@[index1 as int].fitness);
        assert(fits[index2 as int] == chromosomes@[index2 as int].fitness);
    }
    if chromosomes[index1].fitness > chromosomes[index2].fitness {
        proof {
            assert(index1 as int == tournament_winner(fits, index1 as int, index2 as int));
        }
        index1
    } else {
        proof {
            assert(index2 as int == tournament_winner(fits, index1 as int, index2 as int));
        }
        index2
    }
}

/// Selects two parents by tournament, with replacement: each parent is the
/// winner of an independent two-candidate tournament. A population of one
/// always yields its only member twice.
pub fn selection_tournament(chromosomes: &Vec<Chromosome>, rng: &mut rand_pcg::Pcg64) -> (parents: (
    usize,
    usize,
))
    requires
        chromosomes@.len() >= 1,
    ensures
        parents.0 < chromosomes@.len(),
        parents.1 < chromosomes@.len(),
        exists|i: int, j: int|
            0 <= i < chromosomes@.len() && 0 <= j < chromosomes@.len() && parents.0 as int
                == tournament_winner(fitness_seq(chromosomes@), i, j),
        exists|i: int, j: int|
            0 <= i < chromosomes@.len() && 0 <= j < chromosomes@.len() && parents.1 as int
                == tournament_winner(fitness_seq(chromosomes@), i, j),
        chromosomes@.len() == 1 ==> parents == (0usize, 0usize),
{
    let first = tournament_round(chromosomes, rng);
    let second = tournament_round(chromosomes, rng);
    (first, second)
}

} // verus!
