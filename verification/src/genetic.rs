//! The generic genetic-algorithm engine.
//!
//! The engine is a static composition of three strategies: a selection method
//! (which individual becomes a parent), a crossover method (how two parent
//! chromosomes combine into a child) and a mutation method (how the child is
//! perturbed).  One call to [`GeneticAlgorithm::evolve`] consumes a non-empty
//! population of fitness-bearing individuals and produces a same-size next
//! generation together with fitness statistics of the input population.

use vstd::prelude::*;

use crate::chromosome::Chromosome;
use crate::rng::RngSource;
use crate::{int_abs, int_clamp, int_min, int_max, SCALE};

verus! {

/// A fitness-bearing value that the genetic algorithm can select, take apart
/// into a chromosome, and rebuild from an evolved chromosome.
pub trait Individual: Sized {
    /// The individual's scalar fitness.
    spec fn fitness_spec(&self) -> u64;

    /// The genes of the individual's chromosome.
    spec fn genes_spec(&self) -> Seq<i64>;

    /// Reads the fitness.
    fn fitness(&self) -> (r: u64)
        ensures
            r == self.fitness_spec(),
    ;

    /// Borrows the chromosome.
    fn chromosome(&self) -> (r: &Chromosome)
        ensures
            r@ == self.genes_spec(),
    ;

    /// Rebuilds an individual from an evolved chromosome.  The genes carry
    /// over unchanged and the fitness restarts at a small positive floor.
    fn create(chromosome: Chromosome) -> (r: Self)
        ensures
            r.genes_spec() == chromosome@,
            r.fitness_spec() > 0,
    ;
}

/// The summed fitness of a population.
pub open spec fn total_fitness<I: Individual>(pop: Seq<I>) -> int
    decreases pop.len(),
{
    if pop.len() == 0 {
        0
    } else {
        total_fitness(pop.drop_last()) + pop.last().fitness_spec()
    }
}

/// The least fitness in a non-empty population (0 for an empty one).
pub open spec fn min_fitness_of<I: Individual>(pop: Seq<I>) -> int
    decreases pop.len(),
{
    if pop.len() == 0 {
        0
    } else if pop.len() == 1 {
        pop.last().fitness_spec() as int
    } else {
        int_min(min_fitness_of(pop.drop_last()), pop.last().fitness_spec() as int)
    }
}

/// The greatest fitness in a non-empty population (0 for an empty one).
pub open spec fn max_fitness_of<I: Individual>(pop: Seq<I>) -> int
    decreases pop.len(),
{
    if pop.len() == 0 {
        0
    } else if pop.len() == 1 {
        pop.last().fitness_spec() as int
    } else {
        int_max(max_fitness_of(pop.drop_last()), pop.last().fitness_spec() as int)
    }
}

/// Unfolds the three fitness folds over one more prefix element.
proof fn lemma_fitness_fold_step<I: Individual>(pop: Seq<I>, i: int)
    requires
        0 <= i < pop.len(),
    ensures
        total_fitness(pop.take(i + 1)) == total_fitness(pop.take(i)) + pop[i].fitness_spec(),
        min_fitness_of(pop.take(i + 1)) == if i == 0 {
            pop[0].fitness_spec() as int
        } else {
            int_min(min_fitness_of(pop.take(i)), pop[i].fitness_spec() as int)
        },
        max_fitness_of(pop.take(i + 1)) == if i == 0 {
            pop[0].fitness_spec() as int
        } else {
            int_max(max_fitness_of(pop.take(i)), pop[i].fitness_spec() as int)
        },
{
    assert(pop.take(i + 1).drop_last() =~= pop.take(i));
    assert(pop.take(i + 1).last() == pop[i]);
}

/// Bounds the summed fitness by the population size.
proof fn lemma_total_fitness_bounds<I: Individual>(pop: Seq<I>)
    ensures
        0 <= total_fitness(pop),
        total_fitness(pop) <= pop.len() * (u64::MAX as int),
    decreases pop.len(),
{
    if pop.len() > 0 {
        lemma_total_fitness_bounds(pop.drop_last());
        assert((pop.len() - 1) * (u64::MAX as int) + (u64::MAX as int) == pop.len() * (
        u64::MAX as int)) by (nonlinear_arith);
    }
}

/// The sum over a prefix never exceeds the sum over the whole population.
proof fn lemma_total_fitness_prefix<I: Individual>(pop: Seq<I>, i: int)
    requires
        0 <= i <= pop.len(),
    ensures
        total_fitness(pop.take(i)) <= total_fitness(pop),
    decreases pop.len() - i,
{
    if i < pop.len() {
        lemma_fitness_fold_step(pop, i);
        lemma_total_fitness_prefix(pop, i + 1);
    } else {
        assert(pop.take(i) =~= pop);
    }
}

/// A non-empty population whose members all have positive fitness has
/// positive total fitness.
pub proof fn lemma_total_fitness_pos<I: Individual>(pop: Seq<I>)
    requires
        pop.len() > 0,
        forall|i: int| 0 <= i < pop.len() ==> (#[trigger] pop[i]).fitness_spec() > 0,
    ensures
        total_fitness(pop) > 0,
    decreases pop.len(),
{
    if pop.len() == 1 {
        assert(pop.drop_last().len() == 0);
        assert(total_fitness(pop.drop_last()) == 0);
    } else {
        assert(forall|i: int|
            0 <= i < pop.len() - 1 ==> (#[trigger] pop.drop_last()[i]) == pop[i]);
        lemma_total_fitness_pos(pop.drop_last());
    }
}

/// Selection degeneracy: when exactly one individual of a population has
/// positive fitness, any index admitted by the selection contract — the
/// selected individual always has positive fitness — is that individual's
/// index.  Roulette-wheel selection therefore always picks it.
pub proof fn lemma_selection_degenerate<I: Individual>(pop: Seq<I>, k: int, r: int)
    requires
        0 <= k < pop.len(),
        pop[k].fitness_spec() > 0,
        forall|i: int| 0 <= i < pop.len() && i != k ==> (#[trigger] pop[i]).fitness_spec() == 0,
        0 <= r < pop.len(),
        pop[r].fitness_spec() > 0,
    ensures
        r == k,
{
}

/// Sums a population's fitness without overflow.
fn sum_fitness<I: Individual>(population: &Vec<I>) -> (r: u128)
    ensures
        r == total_fitness(population@),
{
    let mut acc: u128 = 0;
    let mut i: usize = 0;
    while i < population.len()
        invariant
            0 <= i <= population@.len(),
            acc == total_fitness(population@.take(i as int)),
        decreases population@.len() - i,
    {
        let f = population[i].fitness();
        proof {
            lemma_fitness_fold_step(population@, i as int);
            lemma_total_fitness_prefix(population@, i + 1);
            lemma_total_fitness_bounds(population@);
            assert(population@.len() * (u64::MAX as int) < u128::MAX) by (nonlinear_arith)
                requires population@.len() <= usize::MAX;
        }
        acc = acc + (f as u128);
        i = i + 1;
    }
    proof {
        assert(population@.take(population@.len() as int) =~= population@);
    }
    acc
}

/// A way of drawing one parent out of a population.
pub trait SelectionMethod<I: Individual> {
    /// Picks the index of one individual.  Whatever the draw, the selected
    /// individual always has positive fitness: an individual with zero
    /// fitness is never selected.
    fn select(&self, rng: &mut RngSource, population: &Vec<I>) -> (r: usize)
        requires
            population@.len() > 0,
            total_fitness(population@) > 0,
        ensures
            r < population@.len(),
            population@[r as int].fitness_spec() > 0,
    ;
}

/// Roulette-wheel (fitness-proportional) selection: an individual is drawn
/// with probability proportional to its share of the summed fitness.
#[derive(Clone, Debug, Default)]
pub struct RouletteWheelSelection;

impl RouletteWheelSelection {
    /// Builds the strategy.
    pub fn new() -> Self {
        RouletteWheelSelection
    }
}

impl<I: Individual> SelectionMethod<I> for RouletteWheelSelection {
    fn select(&self, rng: &mut RngSource, population: &Vec<I>) -> (r: usize) {
        let total = sum_fitness(population);
        let t = rng.sample_below(total);
        let mut acc: u128 = 0;
        let mut i: usize = 0;
        while i < population.len() - 1
            invariant
                0 <= i < population@.len(),
                acc == total_fitness(population@.take(i as int)),
                acc <= t < total_fitness(population@),
            decreases population@.len() - i,
        {
            let f = population[i].fitness();
            proof {
                lemma_fitness_fold_step(population@, i as int);
                lemma_total_fitness_prefix(population@, i + 1);
            }
            let acc2 = acc + (f as u128);
            if t < acc2 {
                return i;
            }
            acc = acc2;
            i = i + 1;
        }
        proof {
            lemma_fitness_fold_step(population@, i as int);
            assert(population@.take(population@.len() as int) =~= population@);
        }
        i
    }
}

/// A way of combining two parent chromosomes into a child chromosome.
pub trait CrossoverMethod {
    /// Builds a child of the parents' (common) length; every gene of the
    /// child is taken from one parent or the other at the same position.
    fn crossover(&self, rng: &mut RngSource, parent_a: &Chromosome, parent_b: &Chromosome) -> (r:
        Chromosome)
        requires
            parent_a@.len() == parent_b@.len(),
        ensures
            r@.len() == parent_a@.len(),
            forall|i: int|
                0 <= i < r@.len() ==> r@[i] == parent_a@[i] || r@[i] == parent_b@[i],
    ;
}

/// Uniform crossover: each gene is taken from either parent independently,
/// with equal probability.
#[derive(Clone, Debug, Default)]
pub struct UniformCrossover;

impl UniformCrossover {
    /// Builds the strategy.
    pub fn new() -> Self {
        UniformCrossover
    }
}

impl CrossoverMethod for UniformCrossover {
    fn crossover(&self, rng: &mut RngSource, parent_a: &Chromosome, parent_b: &Chromosome) -> (r:
        Chromosome) {
        let n = parent_a.len();
        let mut genes: Vec<i64> = Vec::new();
        let mut i: usize = 0;
        while i < n
            invariant
                0 <= i <= n,
                n == parent_a@.len() == parent_b@.len(),
                genes@.len() == i,
                forall|j: int| 0 <= j < i ==> genes@[j] == parent_a@[j] || genes@[j] == parent_b@[j],
            decreases n - i,
        {
            let pick = rng.sample_range(0, 1);
            if pick == 0 {
                genes.push(parent_a.gene(i));
            } else {
                genes.push(parent_b.gene(i));
            }
            i = i + 1;
        }
        Chromosome::from_genes(genes)
    }
}

/// A way of perturbing a child chromosome in place.
pub trait MutationMethod: Sized {
    /// Whether this strategy's configuration is usable.
    spec fn valid(&self) -> bool;

    /// The largest magnitude by which one call may move a single gene.
    spec fn max_step(&self) -> int;

    /// Perturbs the chromosome.  The length never changes, and no gene moves
    /// by more than `max_step`.
    fn mutate(&self, rng: &mut RngSource, child: &mut Chromosome)
        requires
            self.valid(),
        ensures
            final(child)@.len() == old(child)@.len(),
            forall|i: int|
                0 <= i < final(child)@.len() ==> int_abs(
                    final(child)@[i] - old(child)@[i],
                ) <= self.max_step(),
    ;
}

/// Adds with saturation at the ends of the `i64` range.
fn sat_add(a: i64, b: i64) -> (r: i64)
    ensures
        r == int_clamp(a + b, i64::MIN as int, i64::MAX as int),
{
    if b >= 0 {
        if a > i64::MAX - b {
            i64::MAX
        } else {
            a + b
        }
    } else {
        if a < i64::MIN - b {
            i64::MIN
        } else {
            a + b
        }
    }
}

/// Per-gene bounded perturbation: each gene is selected for mutation with a
/// configured probability, and a selected gene moves by a uniformly drawn
/// offset of at most the configured magnitude.
#[derive(Clone, Debug)]
pub struct GaussianMutation {
    /// Probability of perturbing one gene, in fixed-point units of `1/SCALE`.
    pub chance: i64,
    /// Largest perturbation magnitude for one gene.
    pub mag: i64,
}

impl GaussianMutation {
    /// Builds the strategy.  The chance is a probability and must lie in
    /// `[0, SCALE]`; the magnitude must be non-negative.
    pub fn new(chance: i64, mag: i64) -> (r: GaussianMutation)
        requires
            0 <= chance <= SCALE,
            0 <= mag,
        ensures
            r.chance == chance,
            r.mag == mag,
    {
        GaussianMutation { chance, mag }
    }
}

impl MutationMethod for GaussianMutation {
    open spec fn valid(&self) -> bool {
        0 <= self.chance <= SCALE && 0 <= self.mag
    }

    open spec fn max_step(&self) -> int {
        self.mag as int
    }

    fn mutate(&self, rng: &mut RngSource, child: &mut Chromosome) {
        let n = child.len();
        let mut genes: Vec<i64> = Vec::new();
        let mut i: usize = 0;
        while i < n
            invariant
                0 <= i <= n,
                n == child@.len(),
                self.valid(),
                genes@.len() == i,
                forall|j: int| 0 <= j < i ==> int_abs(genes@[j] - child@[j]) <= self.mag,
            decreases n - i,
        {
            let g = child.gene(i);
            let p = rng.sample_range(0, SCALE - 1);
            if p < self.chance {
                let delta = rng.sample_range(-self.mag, self.mag);
                genes.push(sat_add(g, delta));
            } else {
                genes.push(g);
            }
            i = i + 1;
        }
        *child = Chromosome::from_genes(genes);
    }
}

/// Fitness statistics of one input population: the least, greatest and
/// average fitness (the average rounds down).
#[derive(Clone, Debug)]
pub struct Statistics {
    min_fitness: u64,
    max_fitness: u64,
    avg_fitness: u64,
}

impl Statistics {
    /// The least fitness recorded.
    pub closed spec fn min_spec(&self) -> u64 {
        self.min_fitness
    }

    /// The greatest fitness recorded.
    pub closed spec fn max_spec(&self) -> u64 {
        self.max_fitness
    }

    /// The average fitness recorded.
    pub closed spec fn avg_spec(&self) -> u64 {
        self.avg_fitness
    }

    /// Computes the statistics of a non-empty population.
    pub(crate) fn new<I: Individual>(population: &Vec<I>) -> (r: Statistics)
        requires
            population@.len() > 0,
        ensures
            r.min_spec() == min_fitness_of(population@),
            r.max_spec() == max_fitness_of(population@),
            r.avg_spec() == total_fitness(population@) / (population@.len() as int),
            r.min_spec() <= r.avg_spec() <= r.max_spec(),
    {
        let mut min_fitness = population[0].fitness();
        let mut max_fitness = min_fitness;
        let mut i: usize = 1;
        proof {
            assert(population@.take(1).drop_last() =~= Seq::<I>::empty());
        }
        while i < population.len()
            invariant
                1 <= i <= population@.len(),
                min_fitness == min_fitness_of(population@.take(i as int)),
                max_fitness == max_fitness_of(population@.take(i as int)),
            decreases population@.len() - i,
        {
            let f = population[i].fitness();
            proof {
                lemma_fitness_fold_step(population@, i as int);
            }
            if f < min_fitness {
                min_fitness = f;
            }
            if f > max_fitness {
                max_fitness = f;
            }
            i = i + 1;
        }
        let total = sum_fitness(population);
        proof {
            assert(population@.take(population@.len() as int) =~= population@);
            lemma_stats_order(population@);
        }
        let avg_fitness = (total / (population.len() as u128)) as u64;
        Statistics { min_fitness, max_fitness, avg_fitness }
    }

    /// The least fitness of the summarised population.
    pub fn min_fitness(&self) -> (r: u64)
        ensures
            r == self.min_spec(),
    {
        self.min_fitness
    }

    /// The greatest fitness of the summarised population.
    pub fn max_fitness(&self) -> (r: u64)
        ensures
            r == self.max_spec(),
    {
        self.max_fitness
    }

    /// The average fitness of the summarised population, rounded down.
    pub fn avg_fitness(&self) -> (r: u64)
        ensures
            r == self.avg_spec(),
    {
        self.avg_fitness
    }
}

/// The summed fitness of a non-empty population lies between the population
/// size times its least and times its greatest fitness; the rounded-down
/// average therefore lies between the least and the greatest fitness.
proof fn lemma_stats_order<I: Individual>(pop: Seq<I>)
    requires
        pop.len() > 0,
    ensures
        pop.len() * min_fitness_of(pop) <= total_fitness(pop),
        total_fitness(pop) <= pop.len() * max_fitness_of(pop),
        min_fitness_of(pop) <= total_fitness(pop) / (pop.len() as int) <= max_fitness_of(pop),
    decreases pop.len(),
{
    let n = pop.len() as int;
    let mn = min_fitness_of(pop);
    let mx = max_fitness_of(pop);
    let tot = total_fitness(pop);
    if pop.len() == 1 {
        assert(pop.drop_last().len() == 0);
    } else {
        let prev = pop.drop_last();
        lemma_stats_order(prev);
        let f = pop.last().fitness_spec() as int;
        assert(min_fitness_of(prev) >= mn);
        assert(max_fitness_of(prev) <= mx);
        assert((n - 1) * min_fitness_of(prev) >= (n - 1) * mn) by (nonlinear_arith)
            requires n >= 1, min_fitness_of(prev) >= mn;
        assert((n - 1) * max_fitness_of(prev) <= (n - 1) * mx) by (nonlinear_arith)
            requires n >= 1, max_fitness_of(prev) <= mx;
        assert((n - 1) * mn + mn == n * mn) by (nonlinear_arith);
        assert((n - 1) * mx + mx == n * mx) by (nonlinear_arith);
        assert(f >= mn);
        assert(f <= mx);
    }
    assert(mn <= tot / n < mx + 1) by (nonlinear_arith)
        requires n > 0, n * mn <= tot, tot <= n * mx, mn <= mx;
}

/// The engine: a selection, a crossover and a mutation strategy, composed
/// statically and fixed for the run's lifetime.
pub struct GeneticAlgorithm<S, C, M> {
    /// How parents are drawn.
    pub selection_method: S,
    /// How two parents combine into a child.
    pub crossover_method: C,
    /// How a child is perturbed.
    pub mutation_method: M,
}

impl<S, C, M> GeneticAlgorithm<S, C, M> {
    /// Composes an engine out of the three strategies.
    pub fn new(selection_method: S, crossover_method: C, mutation_method: M) -> (r:
        GeneticAlgorithm<S, C, M>)
        ensures
            r.selection_method == selection_method,
            r.crossover_method == crossover_method,
            r.mutation_method == mutation_method,
    {
        GeneticAlgorithm { selection_method, crossover_method, mutation_method }
    }

    /// Produces the next generation.
    ///
    /// Each output slot is filled by selecting two parents (possibly the same
    /// individual twice), crossing their chromosomes and mutating the child.
    /// The output population has exactly the size of the input population,
    /// every output individual has positive fitness, and its chromosome keeps
    /// the input population's common gene count.  The returned statistics
    /// summarise the input population.
    pub fn evolve<I: Individual>(&self, rng: &mut RngSource, population: &Vec<I>) -> (r: (
        Vec<I>,
        Statistics,
    )) where S: SelectionMethod<I>, C: CrossoverMethod, M: MutationMethod
        requires
            population@.len() > 0,
            total_fitness(population@) > 0,
            self.mutation_method.valid(),
            forall|i: int|
                0 <= i < population@.len() ==> (#[trigger] population@[i].genes_spec()).len()
                    == population@[0].genes_spec().len(),
        ensures
            r.0@.len() == population@.len(),
            forall|i: int|
                0 <= i < r.0@.len() ==> (#[trigger] r.0@[i]).fitness_spec() > 0
                    && r.0@[i].genes_spec().len() == population@[0].genes_spec().len(),
            r.1.min_spec() == min_fitness_of(population@),
            r.1.max_spec() == max_fitness_of(population@),
            r.1.avg_spec() == total_fitness(population@) / (population@.len() as int),
            r.1.min_spec() <= r.1.avg_spec() <= r.1.max_spec(),
    {
        let n = population.len();
        let mut new_pop: Vec<I> = Vec::new();
        while new_pop.len() < n
            invariant
                new_pop@.len() <= n,
                forall|i: int|
                    0 <= i < new_pop@.len() ==> (#[trigger] new_pop@[i]).fitness_spec() > 0
                        && new_pop@[i].genes_spec().len() == population@[0].genes_spec().len(),
            decreases n - new_pop@.len(),
        {
            let ia = self.selection_method.select(rng, population);
            let ib = self.selection_method.select(rng, population);
            let mut child = self.crossover_method.crossover(
                rng,
                population[ia].chromosome(),
                population[ib].chromosome(),
            );
            self.mutation_method.mutate(rng, &mut child);
            new_pop.push(I::create(child));
        }
        let stats = Statistics::new(population);
        (new_pop, stats)
    }
}

/// The engine composition the simulation runs with.
pub type DefaultGeneticAlgorithm = GeneticAlgorithm<
    RouletteWheelSelection,
    UniformCrossover,
    GaussianMutation,
>;

/// Default per-gene mutation probability, in units of `1/SCALE`.
pub const DEFAULT_MUTATION_CHANCE: i64 = 100;

/// Default largest per-gene mutation magnitude.
pub const DEFAULT_MUTATION_MAGNITUDE: i64 = 3_000;

impl Default for DefaultGeneticAlgorithm {
    /// The default engine: roulette-wheel selection, uniform crossover and
    /// bounded mutation with the default chance and magnitude.
    fn default() -> (r: DefaultGeneticAlgorithm)
        ensures
            r.mutation_method.chance == DEFAULT_MUTATION_CHANCE,
            r.mutation_method.mag == DEFAULT_MUTATION_MAGNITUDE,
    {
        GeneticAlgorithm::new(
            RouletteWheelSelection::new(),
            UniformCrossover::new(),
            GaussianMutation::new(DEFAULT_MUTATION_CHANCE, DEFAULT_MUTATION_MAGNITUDE),
        )
    }
}

} // verus!
