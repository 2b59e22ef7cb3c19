use rand::SeedableRng;
use rand_pcg::Pcg64;

use treasure_hunt::calculate_fitness;
use treasure_hunt::random_instructions;
use treasure_hunt::reproduce;
use treasure_hunt::roulette_walk;
use treasure_hunt::selection_roulette;
use treasure_hunt::selection_tournament;
use treasure_hunt::tournament_round;
use treasure_hunt::Chromosome;

fn chromosome_with_fitness(fitness: u64) -> Chromosome {
    let mut c = Chromosome::with_instructions(vec![0u8; 64]);
    c.fitness = fitness;
    c
}

#[test]
fn with_instructions_starts_unevaluated() {
    let genes: Vec<u8> = (0..64u8).collect();
    let c = Chromosome::with_instructions(genes.clone());
    assert_eq!(c.genes, genes);
    assert_eq!(c.found_treasures, 0);
    assert_eq!(c.fitness, 0);
    assert_eq!(c.iterations, 0);
    assert!(c.steps.is_empty());
}

#[test]
fn random_instructions_shape() {
    let mut rng = Pcg64::seed_from_u64(948464);
    let genes = random_instructions(&mut rng);
    assert_eq!(genes.len(), 64);
    assert!(genes[16..].iter().all(|&g| g == 0));
}

#[test]
fn random_instructions_draws_vary() {
    let mut rng = Pcg64::seed_from_u64(948464);
    let a = random_instructions(&mut rng);
    let b = random_instructions(&mut rng);
    // Two draws from one stream almost surely differ in the random prefix.
    assert_ne!(a[..16], b[..16]);
}

#[test]
fn fitness_exact_values() {
    // found/total - steps/200, over the denominator 200 * total.
    // 2/5 - 10/200 = 0.35, i.e. 350/1000.
    assert_eq!(calculate_fitness(10, 2, 5), 350);
    // A perfect, stepless outcome fills the whole fraction.
    assert_eq!(calculate_fitness(0, 5, 5), 1000);
    // 1/5 - 30/200 = 0.05, i.e. 50/1000.
    assert_eq!(calculate_fitness(30, 1, 5), 50);
}

#[test]
fn fitness_clamps_at_zero() {
    assert_eq!(calculate_fitness(200, 0, 5), 0);
    assert_eq!(calculate_fitness(500, 0, 5), 0);
    assert_eq!(calculate_fitness(0, 0, 5), 0);
    // One treasure of five is outweighed by 41 steps of penalty.
    assert_eq!(calculate_fitness(41, 1, 5), 0);
}

#[test]
fn crossover_without_mutation_takes_every_bit_from_a_parent() {
    let mut rng = Pcg64::seed_from_u64(7);
    let p1 = Chromosome::with_instructions((0..64u8).collect());
    let p2 = Chromosome::with_instructions((128..192u8).collect());
    let child = reproduce(&p1, &p2, 0, &mut rng);
    assert_eq!(child.len(), 64);
    for i in 0..64 {
        assert_eq!((child[i] ^ p1.genes[i]) & (child[i] ^ p2.genes[i]), 0);
    }
}

#[test]
fn crossover_of_a_parent_with_itself_is_the_identity() {
    let mut rng = Pcg64::seed_from_u64(11);
    let p1 = Chromosome::with_instructions((64..128u8).collect());
    let child = reproduce(&p1, &p1, 0, &mut rng);
    assert_eq!(child, p1.genes);
}

#[test]
fn certain_mutation_flips_every_bit() {
    let mut rng = Pcg64::seed_from_u64(13);
    let p1 = Chromosome::with_instructions((0..64u8).collect());
    let child = reproduce(&p1, &p1, 1_000_000, &mut rng);
    for i in 0..64 {
        assert_eq!(child[i], !p1.genes[i]);
    }
}

#[test]
fn roulette_walk_selects_by_cumulative_fitness() {
    let population = vec![
        chromosome_with_fitness(100),
        chromosome_with_fitness(200),
        chromosome_with_fitness(300),
    ];
    assert_eq!(roulette_walk(&population, 0), 0);
    assert_eq!(roulette_walk(&population, 99), 0);
    assert_eq!(roulette_walk(&population, 100), 1);
    assert_eq!(roulette_walk(&population, 299), 1);
    assert_eq!(roulette_walk(&population, 300), 2);
    assert_eq!(roulette_walk(&population, 599), 2);
    // At or past the total, the walk never exceeds the threshold and the
    // last member is the fallback.
    assert_eq!(roulette_walk(&population, 600), 2);
    assert_eq!(roulette_walk(&population, u64::MAX), 2);
}

#[test]
fn roulette_walk_skips_zero_fitness_members() {
    let population = vec![chromosome_with_fitness(0), chromosome_with_fitness(50)];
    assert_eq!(roulette_walk(&population, 0), 1);
}

#[test]
fn roulette_with_single_member_returns_it_twice() {
    let mut rng = Pcg64::seed_from_u64(5);
    let population = vec![chromosome_with_fitness(0)];
    for total_fitness in [0u64, 1, 1000, u64::MAX] {
        let (a, b) = selection_roulette(&population, total_fitness, &mut rng);
        assert_eq!((a, b), (0, 0));
    }
}

#[test]
fn roulette_selection_yields_valid_indices() {
    let mut rng = Pcg64::seed_from_u64(17);
    let population: Vec<Chromosome> = (0..20).map(|i| chromosome_with_fitness(i * 10)).collect();
    let total: u64 = population.iter().map(|c| c.fitness).sum();
    for _ in 0..50 {
        let (a, b) = selection_roulette(&population, total, &mut rng);
        assert!(a < population.len());
        assert!(b < population.len());
    }
}

#[test]
fn tournament_prefers_strictly_greater_fitness() {
    let mut rng = Pcg64::seed_from_u64(23);
    // With one member far fitter than the rest at fitness zero, every
    // tournament the fit member enters is won by it; a tournament between
    // two zero-fitness members never selects by luck, so only indices of
    // members that were actually drawn come back.
    let mut population: Vec<Chromosome> = (0..5).map(|_| chromosome_with_fitness(0)).collect();
    population[2].fitness = 1000;
    let mut saw_the_fit_one = false;
    for _ in 0..100 {
        let idx = tournament_round(&population, &mut rng);
        assert!(idx < population.len());
        if idx == 2 {
            saw_the_fit_one = true;
        }
    }
    assert!(saw_the_fit_one);
}

#[test]
fn tournament_with_single_member_returns_it_twice() {
    let mut rng = Pcg64::seed_from_u64(29);
    let population = vec![chromosome_with_fitness(42)];
    let (a, b) = selection_tournament(&population, &mut rng);
    assert_eq!((a, b), (0, 0));
}
