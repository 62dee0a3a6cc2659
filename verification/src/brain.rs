//! An agent's brain: a neural network with the run's fixed topology, plus the
//! genome conversions the genetic algorithm needs.

use vstd::prelude::*;

use crate::chromosome::Chromosome;
use crate::network::{
    wf_arch, weight_count, weight_count_from, lemma_weights_spec_len, LayerArchitecture, Network,
};
use crate::rng::RngSource;

verus! {

/// Number of genes a brain's flat encoding holds; fixed by the topology.
pub const BRAIN_GENE_COUNT: usize = 66;

/// A brain: the network that turns the eye's features into a jump decision.
#[derive(Clone, Debug)]
pub struct Brain {
    /// The underlying network.
    pub nn: Network,
}

impl Brain {
    /// The run's fixed topology: five sensor inputs, two hidden rows of five
    /// neurons, one output neuron.
    pub open spec fn topology_spec() -> Seq<LayerArchitecture> {
        seq![
            LayerArchitecture { neurons: 5 },
            LayerArchitecture { neurons: 5 },
            LayerArchitecture { neurons: 5 },
            LayerArchitecture { neurons: 1 },
        ]
    }

    /// The fixed topology is a usable architecture and consumes exactly
    /// `BRAIN_GENE_COUNT` flat weights.
    pub proof fn lemma_topology()
        ensures
            wf_arch(Self::topology_spec()),
            weight_count(Self::topology_spec()) == BRAIN_GENE_COUNT,
    {
        let t = Self::topology_spec();
        assert(weight_count_from(t, 3) == 0);
        assert(weight_count_from(t, 2) == 6);
        assert(weight_count_from(t, 1) == 36);
        assert(weight_count_from(t, 0) == 66);
    }

    /// Builds the fixed topology.
    pub fn topology() -> (r: Vec<LayerArchitecture>)
        ensures
            r@ == Self::topology_spec(),
    {
        let mut t: Vec<LayerArchitecture> = Vec::new();
        t.push(LayerArchitecture { neurons: 5 });
        t.push(LayerArchitecture { neurons: 5 });
        t.push(LayerArchitecture { neurons: 5 });
        t.push(LayerArchitecture { neurons: 1 });
        proof {
            assert(t@ =~= Self::topology_spec());
        }
        t
    }

    /// The brain's network realises the fixed topology.
    pub open spec fn wf(&self) -> bool {
        self.nn.wf_for(Self::topology_spec())
    }

    /// Draws a fresh random brain.
    pub fn random(rng: &mut RngSource) -> (r: Brain)
        ensures
            r.wf(),
    {
        proof {
            Self::lemma_topology();
        }
        let topo = Self::topology();
        Brain { nn: Network::random(rng, &topo) }
    }

    /// Flattens the brain into a chromosome, in the network's flat encoding
    /// order.
    pub fn chromosome(&self) -> (r: Chromosome)
        requires
            self.wf(),
        ensures
            r@ == self.nn.weights_spec(),
            r@.len() == BRAIN_GENE_COUNT,
    {
        proof {
            Self::lemma_topology();
            lemma_weights_spec_len(self.nn, Self::topology_spec());
        }
        Chromosome::from_genes(self.nn.weights())
    }

    /// Rebuilds a brain from a chromosome of exactly the topology's gene
    /// count; the genes become the network's weights, in order.
    pub fn from_chromosome(chromosome: Chromosome) -> (r: Brain)
        requires
            chromosome@.len() == BRAIN_GENE_COUNT,
        ensures
            r.wf(),
            r.nn.weights_spec() == chromosome@,
    {
        proof {
            Self::lemma_topology();
        }
        let topo = Self::topology();
        Brain { nn: Network::from_weights(&topo, chromosome.genes()) }
    }
}

} // verus!
