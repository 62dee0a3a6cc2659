//! The bridge between the world and the genetic algorithm: a bird frozen
//! into a fitness-bearing individual, and the way back.

use vstd::prelude::*;

use crate::bird::{Bird, FIT_FLOOR};
use crate::brain::BRAIN_GENE_COUNT;
use crate::chromosome::Chromosome;
use crate::genetic::Individual;
use crate::rng::RngSource;

verus! {

/// A bird materialised as the genetic algorithm's unit of selection: its
/// fitness and its brain flattened into a chromosome.
#[derive(Debug)]
pub struct BirdIndividual {
    /// The recorded fitness of the bird this individual came from.
    pub fitness: u64,
    /// The bird's brain, flattened.
    pub chromosome: Chromosome,
}

impl Individual for BirdIndividual {
    open spec fn fitness_spec(&self) -> u64 {
        self.fitness
    }

    open spec fn genes_spec(&self) -> Seq<i64> {
        self.chromosome@
    }

    fn fitness(&self) -> u64 {
        self.fitness
    }

    fn chromosome(&self) -> &Chromosome {
        &self.chromosome
    }

    fn create(chromosome: Chromosome) -> Self {
        BirdIndividual { fitness: FIT_FLOOR, chromosome }
    }
}

impl BirdIndividual {
    /// Freezes a bird into an individual: its fitness and its flattened
    /// brain.
    pub fn from_bird(bird: &Bird) -> (r: BirdIndividual)
        requires
            bird.wf(),
        ensures
            r.fitness == bird.fit_distance,
            r.chromosome@ == bird.brain.nn.weights_spec(),
            r.chromosome@.len() == BRAIN_GENE_COUNT,
    {
        BirdIndividual { fitness: bird.fit_distance(), chromosome: bird.brain.chromosome() }
    }

    /// Thaws an individual back into a bird: fresh physical state, brain
    /// rebuilt from the chromosome.
    pub fn into_bird(self, rng: &mut RngSource) -> (r: Bird)
        requires
            self.chromosome@.len() == BRAIN_GENE_COUNT,
        ensures
            r.wf(),
            r.fresh_state(),
            r.brain.nn.weights_spec() == self.genes_spec(),
    {
        Bird::from_chromosome(self.chromosome, rng)
    }
}

} // verus!
