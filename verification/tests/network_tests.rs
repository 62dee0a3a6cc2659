//! Tests of the neural network: the flat-encoding round trip, propagation
//! determinism, the sigmoid output range, and exact outputs of tiny networks.

use evosim::brain::Brain;
use evosim::network::{Layer, LayerArchitecture, Network, Neuron};
use evosim::rng::RngSource;
use evosim::SCALE;

fn arch(slots: &[usize]) -> Vec<LayerArchitecture> {
    slots.iter().map(|&n| LayerArchitecture::from(n)).collect()
}

#[test]
fn round_trip_weights_of_random_network() {
    let mut rng = RngSource::seeded(7);
    let topology = Brain::topology();
    let net = Network::random(&mut rng, &topology);
    let flat = net.weights();
    assert_eq!(flat.len(), 66);

    let rebuilt = Network::from_weights(&topology, &flat);
    let flat2 = rebuilt.weights();
    assert_eq!(flat, flat2);
}

#[test]
fn round_trip_network_has_same_outputs() {
    let mut rng = RngSource::seeded(11);
    let topology = Brain::topology();
    let net = Network::random(&mut rng, &topology);
    let rebuilt = Network::from_weights(&topology, &net.weights());

    let input = vec![1_234, -5_678, 0, 10_000, -10_000];
    assert_eq!(net.propagate(input.clone()), rebuilt.propagate(input));
}

#[test]
fn propagation_is_deterministic() {
    let mut rng = RngSource::seeded(3);
    let topology = Brain::topology();
    let net = Network::random(&mut rng, &topology);

    let input = vec![100, -200, 300, -400, 500];
    let a = net.propagate(input.clone());
    let b = net.propagate(input);
    assert_eq!(a, b);
}

#[test]
fn outputs_lie_strictly_between_zero_and_one() {
    let mut rng = RngSource::seeded(99);
    let topology = Brain::topology();
    for round in 0..20 {
        let net = Network::random(&mut rng, &topology);
        let input = vec![round * 997, -round * 1_003, 10_000, -10_000, round];
        for v in net.propagate(input) {
            assert!(0 < v && v < SCALE);
        }
    }
}

#[test]
fn single_neuron_identity_weight_output() {
    // One input, one neuron: bias 0, weight 1.0.  Input 1.0 gives a raw
    // output of 1.0, and the sigmoid of 1.0 is
    // 0.5 + (1.0 * 1.0) / (2 * (1.0 + 1.0)) = 0.75.
    let topology = arch(&[1, 1]);
    let net = Network::from_weights(&topology, &vec![0, SCALE]);
    assert_eq!(net.propagate(vec![SCALE]), vec![7_500]);
}

#[test]
fn sigmoid_of_zero_is_one_half() {
    let topology = arch(&[1, 1]);
    let net = Network::from_weights(&topology, &vec![0, 0]);
    assert_eq!(net.propagate(vec![1_234]), vec![5_000]);
}

#[test]
fn hidden_layer_applies_rectifier() {
    // The hidden neuron's raw output is -2.0; the rectifier turns it into 0,
    // so the output neuron sees 0 and reports one half.
    let topology = arch(&[1, 1, 1]);
    let net = Network::from_weights(&topology, &vec![-2 * SCALE, 0, 0, SCALE]);
    assert_eq!(net.propagate(vec![SCALE]), vec![5_000]);
}

#[test]
fn from_weights_consumes_in_bias_then_weights_order() {
    // Two inputs, one neuron: flat order is bias, then the two weights.
    let topology = arch(&[2, 1]);
    let flat = vec![1, 2, 3];
    let net = Network::from_weights(&topology, &flat);
    assert_eq!(net.weights(), flat);
    assert_eq!(net.layers.len(), 1);
    assert_eq!(net.layers[0].neurons.len(), 1);
    assert_eq!(net.layers[0].neurons[0].bias, 1);
    assert_eq!(net.layers[0].neurons[0].weights, vec![2, 3]);
}

#[test]
fn neuron_and_layer_read_from_the_cursor() {
    let flat = vec![10, 11, 12, 20, 21, 22, 30];
    let mut pos = 0;
    let neuron = Neuron::from_weights(2, &flat, &mut pos);
    assert_eq!(pos, 3);
    assert_eq!(neuron.bias, 10);
    assert_eq!(neuron.weights, vec![11, 12]);

    let layer = Layer::from_weights(2, 1, &flat, &mut pos);
    assert_eq!(pos, 6);
    assert_eq!(layer.neurons.len(), 1);
    assert_eq!(layer.neurons[0].bias, 20);
    assert_eq!(layer.neurons[0].weights, vec![21, 22]);
}

#[test]
fn random_network_weights_start_inside_unit_band() {
    let mut rng = RngSource::seeded(21);
    let topology = Brain::topology();
    let net = Network::random(&mut rng, &topology);
    for w in net.weights() {
        assert!(-SCALE <= w && w <= SCALE);
    }
}

#[test]
fn brain_chromosome_round_trip() {
    let mut rng = RngSource::seeded(5);
    let brain = Brain::random(&mut rng);
    let chromosome = brain.chromosome();
    assert_eq!(chromosome.len(), 66);

    let rebuilt = Brain::from_chromosome(chromosome);
    assert_eq!(brain.nn.weights(), rebuilt.nn.weights());
}
