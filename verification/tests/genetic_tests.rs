//! Tests of the genetic-algorithm engine: crossover, mutation, selection and
//! whole-generation evolution with its statistics.

use evosim::bird_individual::BirdIndividual;
use evosim::chromosome::Chromosome;
use evosim::genetic::{
    CrossoverMethod, GaussianMutation, GeneticAlgorithm, Individual, MutationMethod,
    RouletteWheelSelection, SelectionMethod, UniformCrossover,
};
use evosim::rng::RngSource;
use evosim::SCALE;

fn individual(fitness: u64, genes: Vec<i64>) -> BirdIndividual {
    BirdIndividual { fitness, chromosome: Chromosome::from_genes(genes) }
}

#[test]
fn crossover_preserves_length_and_draws_genes_from_parents() {
    let mut rng = RngSource::seeded(17);
    let a = Chromosome::from_genes((0..32).collect());
    let b = Chromosome::from_genes((1_000..1_032).collect());
    let child = UniformCrossover::new().crossover(&mut rng, &a, &b);

    assert_eq!(child.len(), 32);
    for i in 0..32 {
        let g = child.gene(i);
        assert!(g == a.gene(i) || g == b.gene(i));
    }
}

#[test]
fn crossover_of_equal_parents_is_the_parent() {
    let mut rng = RngSource::seeded(23);
    let a = Chromosome::from_genes(vec![5, -7, 11, 0]);
    let b = Chromosome::from_genes(vec![5, -7, 11, 0]);
    let child = UniformCrossover::new().crossover(&mut rng, &a, &b);
    assert_eq!(child.into_genes(), vec![5, -7, 11, 0]);
}

#[test]
fn mutation_never_moves_a_gene_more_than_the_magnitude() {
    let mut rng = RngSource::seeded(31);
    // Mutation probability one: every gene is perturbed.
    let mutation = GaussianMutation::new(SCALE, 3_000);
    let before: Vec<i64> = (0..50).map(|i| i * 1_000 - 25_000).collect();
    let mut child = Chromosome::from_genes(before.clone());
    mutation.mutate(&mut rng, &mut child);

    assert_eq!(child.len(), 50);
    for i in 0..50 {
        let delta = child.gene(i) - before[i];
        assert!(-3_000 <= delta && delta <= 3_000);
    }
}

#[test]
fn mutation_with_zero_chance_changes_nothing() {
    let mut rng = RngSource::seeded(37);
    let mutation = GaussianMutation::new(0, 3_000);
    let before = vec![1, 2, 3, 4, 5];
    let mut child = Chromosome::from_genes(before.clone());
    mutation.mutate(&mut rng, &mut child);
    assert_eq!(child.into_genes(), before);
}

#[test]
fn mutation_with_zero_magnitude_changes_nothing() {
    let mut rng = RngSource::seeded(41);
    let mutation = GaussianMutation::new(SCALE, 0);
    let before = vec![9, -9, 0];
    let mut child = Chromosome::from_genes(before.clone());
    mutation.mutate(&mut rng, &mut child);
    assert_eq!(child.into_genes(), before);
}

#[test]
fn selection_with_one_nonzero_fitness_is_deterministic() {
    let selection = RouletteWheelSelection::new();
    let population: Vec<BirdIndividual> = (0..5)
        .map(|i| individual(if i == 2 { 7 } else { 0 }, vec![i as i64]))
        .collect();

    for seed in 0..50 {
        let mut rng = RngSource::seeded(seed);
        let picked = selection.select(&mut rng, &population);
        assert_eq!(picked, 2);
    }
}

#[test]
fn selection_never_picks_a_zero_fitness_individual() {
    let selection = RouletteWheelSelection::new();
    let population = vec![
        individual(0, vec![0]),
        individual(3, vec![1]),
        individual(0, vec![2]),
        individual(5, vec![3]),
    ];
    for seed in 0..100 {
        let mut rng = RngSource::seeded(seed);
        let picked = selection.select(&mut rng, &population);
        assert!(picked == 1 || picked == 3);
    }
}

#[test]
fn evolve_keeps_the_population_size() {
    let mut rng = RngSource::seeded(43);
    let engine = GeneticAlgorithm::new(
        RouletteWheelSelection::new(),
        UniformCrossover::new(),
        GaussianMutation::new(100, 3_000),
    );
    let population: Vec<BirdIndividual> =
        (1..=12u64).map(|f| individual(f, vec![f as i64, -(f as i64), 0])).collect();

    let (next, _stats) = engine.evolve(&mut rng, &population);
    assert_eq!(next.len(), 12);
    for ind in &next {
        assert_eq!(ind.chromosome.len(), 3);
        assert!(ind.fitness > 0);
    }
}

#[test]
fn evolve_reports_exact_statistics_of_the_input_population() {
    let mut rng = RngSource::seeded(47);
    let engine = GeneticAlgorithm::new(
        RouletteWheelSelection::new(),
        UniformCrossover::new(),
        GaussianMutation::new(0, 0),
    );
    let population = vec![
        individual(4, vec![1, 2]),
        individual(1, vec![3, 4]),
        individual(9, vec![5, 6]),
    ];

    let (_next, stats) = engine.evolve(&mut rng, &population);
    assert_eq!(stats.min_fitness(), 1);
    assert_eq!(stats.max_fitness(), 9);
    // (4 + 1 + 9) / 3 rounds down to 4.
    assert_eq!(stats.avg_fitness(), 4);
    assert!(stats.min_fitness() <= stats.avg_fitness());
    assert!(stats.avg_fitness() <= stats.max_fitness());
}

#[test]
fn statistics_average_rounds_down() {
    let mut rng = RngSource::seeded(53);
    let engine = GeneticAlgorithm::new(
        RouletteWheelSelection::new(),
        UniformCrossover::new(),
        GaussianMutation::new(0, 0),
    );
    let population = vec![individual(1, vec![0]), individual(2, vec![0])];
    let (_next, stats) = engine.evolve(&mut rng, &population);
    assert_eq!(stats.avg_fitness(), 1);
}

#[test]
fn created_individual_keeps_genes_and_starts_at_the_fitness_floor() {
    let child = Chromosome::from_genes(vec![10, 20, 30]);
    let ind = BirdIndividual::create(child);
    assert_eq!(ind.fitness, 100);
    assert_eq!(ind.chromosome.into_genes(), vec![10, 20, 30]);
}

#[test]
fn chromosome_accessors() {
    let mut c = Chromosome::from_genes(vec![4, 5, 6]);
    assert_eq!(c.len(), 3);
    assert_eq!(c.gene(1), 5);
    c.set_gene(1, -5);
    assert_eq!(c.genes(), &vec![4, -5, 6]);
    assert_eq!(c.into_genes(), vec![4, -5, 6]);
}
