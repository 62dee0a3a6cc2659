//! The feedforward neural network: a stack of fully-connected layers over
//! fixed-point values.
//!
//! A neuron holds one bias and one weight per input; its raw output is the
//! dot product of inputs and weights (rescaled by `SCALE`) plus the bias,
//! saturated into the value band `[-VAL_MAX, VAL_MAX]`.  Every layer but the
//! last feeds its raw outputs through a rectifier; the last layer feeds them
//! through a sigmoid, so the network's outputs lie strictly between `0` and
//! `SCALE` (that is, strictly between zero and one).
//!
//! A network can be flattened into a single weight sequence — for each layer,
//! for each neuron, the bias first and then each weight in input order — and
//! rebuilt from such a sequence.  The flattening is the wire contract between
//! the network and the genetic algorithm.

use vstd::prelude::*;

use crate::rng::RngSource;
use crate::{int_abs, int_clamp, HALF, SCALE, VAL_MAX};

verus! {

/// Widest layer a network may have.
pub const WIDTH_MAX: usize = 1_000;

/// Most architecture slots (input slot included) a network may have.
pub const LAYERS_MAX: usize = 16;

/// One slot of a network architecture: how many neurons the slot holds.
#[derive(Clone, Copy, Debug, PartialEq, Eq, Structural)]
pub struct LayerArchitecture {
    /// Number of neurons (for the first slot: number of inputs).
    pub neurons: usize,
}

impl From<usize> for LayerArchitecture {
    fn from(neurons: usize) -> (r: LayerArchitecture) {
        LayerArchitecture { neurons }
    }
}

impl vstd::std_specs::convert::FromSpecImpl<usize> for LayerArchitecture {
    open spec fn obeys_from_spec() -> bool {
        true
    }

    open spec fn from_spec(neurons: usize) -> LayerArchitecture {
        LayerArchitecture { neurons }
    }
}

/// A usable architecture: at least an input slot and one layer, no slot
/// empty, and every slot narrow enough for the fixed-point dot products.
pub open spec fn wf_arch(arch: Seq<LayerArchitecture>) -> bool {
    &&& 2 <= arch.len() <= LAYERS_MAX
    &&& forall|i: int| 0 <= i < arch.len() ==> 1 <= (#[trigger] arch[i]).neurons <= WIDTH_MAX
}

/// One neuron: a bias and one weight per input.
#[derive(Clone, Debug)]
pub struct Neuron {
    /// The bias, added after the weighted sum.
    pub bias: i64,
    /// One weight per input value.
    pub weights: Vec<i64>,
}

/// One fully-connected layer.
#[derive(Clone, Debug)]
pub struct Layer {
    /// The layer's neurons; each sees every input of the layer.
    pub neurons: Vec<Neuron>,
}

/// A stack of fully-connected layers.
#[derive(Clone, Debug)]
pub struct Network {
    /// The layers, from input side to output side.
    pub layers: Vec<Layer>,
}

impl Neuron {
    /// The neuron fits a layer with `inputs` input values.
    pub open spec fn wf(&self, inputs: int) -> bool {
        self.weights@.len() == inputs
    }
}

impl Layer {
    /// The layer maps `inputs` values to `outputs` values.
    pub open spec fn wf(&self, inputs: int, outputs: int) -> bool {
        &&& self.neurons@.len() == outputs
        &&& forall|j: int| 0 <= j < self.neurons@.len() ==> (#[trigger] self.neurons@[j]).wf(inputs)
    }
}

/// A fixed-point value inside the saturation band.
pub open spec fn val_in_band(x: i64) -> bool {
    -VAL_MAX <= x <= VAL_MAX
}

/// All values of a sequence inside the saturation band.
pub open spec fn all_in_band(xs: Seq<i64>) -> bool {
    forall|i: int| 0 <= i < xs.len() ==> val_in_band(#[trigger] xs[i])
}

impl Network {
    /// Number of input values the first layer expects.
    pub open spec fn input_size(&self) -> int {
        self.layers@[0].neurons@[0].weights@.len() as int
    }

    /// Number of output values the last layer produces.
    pub open spec fn output_size(&self) -> int {
        self.layers@.last().neurons@.len() as int
    }

    /// Number of input values layer `i` expects.
    pub open spec fn layer_input_size(&self, i: int) -> int {
        if i == 0 {
            self.input_size()
        } else {
            self.layers@[i - 1].neurons@.len() as int
        }
    }

    /// Structural consistency: at least one layer, every layer non-empty and
    /// narrow enough, and every neuron's weight count equal to the size of
    /// what the previous layer hands it.
    pub open spec fn wf(&self) -> bool {
        &&& 1 <= self.layers@.len() < LAYERS_MAX
        &&& 1 <= self.input_size() <= WIDTH_MAX
        &&& forall|i: int|
            0 <= i < self.layers@.len() ==> 1 <= (#[trigger] self.layers@[i]).neurons@.len()
                <= WIDTH_MAX
        &&& forall|i: int|
            0 <= i < self.layers@.len() ==> (#[trigger] self.layers@[i]).wf(
                self.layer_input_size(i),
                self.layers@[i].neurons@.len() as int,
            )
    }

    /// The network realises architecture `arch`: layer `i` maps `arch[i]`
    /// values to `arch[i + 1]` values.
    pub open spec fn wf_for(&self, arch: Seq<LayerArchitecture>) -> bool {
        &&& wf_arch(arch)
        &&& self.layers@.len() == arch.len() - 1
        &&& forall|i: int|
            0 <= i < self.layers@.len() ==> (#[trigger] self.layers@[i]).wf(
                arch[i].neurons as int,
                arch[i + 1].neurons as int,
            )
    }
}

/// A network shaped by an architecture is structurally consistent, with the
/// architecture's outer slots as its input and output sizes.
pub proof fn lemma_wf_for_implies_wf(net: Network, arch: Seq<LayerArchitecture>)
    requires
        net.wf_for(arch),
    ensures
        net.wf(),
        net.input_size() == arch[0].neurons,
        net.output_size() == arch[arch.len() - 1].neurons,
{
    assert forall|i: int| 0 <= i < net.layers@.len() implies net.layer_input_size(i)
        == arch[i].neurons as int by {
        if i > 0 {
            assert(net.layers@[i - 1].wf(arch[i - 1].neurons as int, arch[i].neurons as int));
        }
    }
}

/// The dot product of two sequences (up to the shorter length).
pub open spec fn dot(xs: Seq<i64>, ws: Seq<i64>) -> int
    decreases xs.len(),
{
    if xs.len() == 0 || ws.len() == 0 {
        0
    } else {
        dot(xs.drop_last(), ws.drop_last()) + xs.last() * ws.last()
    }
}

/// Unfolds the dot product over one more prefix element.
proof fn lemma_dot_take_step(xs: Seq<i64>, ws: Seq<i64>, i: int)
    requires
        0 <= i < xs.len(),
        0 <= i < ws.len(),
    ensures
        dot(xs.take(i + 1), ws.take(i + 1)) == dot(xs.take(i), ws.take(i)) + xs[i] * ws[i],
{
    assert(xs.take(i + 1).drop_last() =~= xs.take(i));
    assert(ws.take(i + 1).drop_last() =~= ws.take(i));
}

/// Largest magnitude one addend of a dot product can have: a band value
/// times a weight of largest magnitude.
pub open spec fn prod_max() -> int {
    (VAL_MAX as int) * 0x8000_0000_0000_0000
}

/// Division of a fixed-point product by `SCALE`, rounding toward zero.
pub open spec fn div_scale_int(d: int) -> int {
    if d >= 0 {
        d / (SCALE as int)
    } else {
        -((-d) / (SCALE as int))
    }
}

/// Saturation of an intermediate value into the value band.
pub open spec fn clamp_band(x: int) -> i64 {
    int_clamp(x, -VAL_MAX as int, VAL_MAX as int) as i64
}

/// The rectifier activation.
pub open spec fn relu(x: i64) -> i64 {
    if x < 0 {
        0
    } else {
        x
    }
}

/// The sigmoid activation, in fixed point: a smooth, monotone squash of the
/// whole value band strictly into `(0, SCALE)`, with `sigmoid_fix(0) == HALF`.
pub open spec fn sigmoid_fix(x: i64) -> i64 {
    if x >= 0 {
        (HALF + (SCALE * (x as int)) / (2 * (SCALE + (x as int)))) as i64
    } else {
        (HALF - (SCALE * (-(x as int))) / (2 * (SCALE + (-(x as int))))) as i64
    }
}

/// The raw (pre-activation) output of one neuron.
pub open spec fn neuron_raw(n: Neuron, xs: Seq<i64>) -> i64 {
    clamp_band(div_scale_int(dot(xs, n.weights@)) + n.bias)
}

/// The raw outputs of one layer.
pub open spec fn layer_raw(l: Layer, xs: Seq<i64>) -> Seq<i64> {
    Seq::new(l.neurons@.len(), |j: int| neuron_raw(l.neurons@[j], xs))
}

/// The rectifier applied to every value.
pub open spec fn relu_all(xs: Seq<i64>) -> Seq<i64> {
    xs.map_values(|x: i64| relu(x))
}

/// The sigmoid applied to every value.
pub open spec fn sigmoid_all(xs: Seq<i64>) -> Seq<i64> {
    xs.map_values(|x: i64| sigmoid_fix(x))
}

/// The values after the first `i` layers, each followed by the rectifier.
pub open spec fn hidden_after(layers: Seq<Layer>, xs: Seq<i64>, i: int) -> Seq<i64>
    decreases i,
{
    if i <= 0 {
        xs
    } else {
        relu_all(layer_raw(layers[i - 1], hidden_after(layers, xs, i - 1)))
    }
}

impl Network {
    /// The network's full forward propagation: all layers but the last feed
    /// through the rectifier, the last through the sigmoid.
    pub open spec fn propagate_spec(&self, xs: Seq<i64>) -> Seq<i64> {
        sigmoid_all(
            layer_raw(
                self.layers@.last(),
                hidden_after(self.layers@, xs, self.layers@.len() - 1),
            ),
        )
    }
}

/// Divides a non-negative-or-negative intermediate by `SCALE`, rounding
/// toward zero.
fn div_scale(d: i128) -> (r: i128)
    requires
        i128::MIN < d,
    ensures
        r == div_scale_int(d as int),
        int_abs(r as int) <= int_abs(d as int),
{
    if d >= 0 {
        (((d as u128) / (SCALE as u128)) as i128)
    } else {
        let m = (((-d) as u128) / (SCALE as u128));
        -(m as i128)
    }
}

/// Saturates an intermediate into the value band.
fn clamp_band_exec(x: i128) -> (r: i64)
    ensures
        r == clamp_band(x as int),
        val_in_band(r),
{
    let lo: i128 = -(VAL_MAX as i128);
    let hi: i128 = VAL_MAX as i128;
    if x < lo {
        -VAL_MAX
    } else if x > hi {
        VAL_MAX
    } else {
        x as i64
    }
}

impl Neuron {
    /// Draws a fresh neuron for `input_size` inputs, every weight and the
    /// bias uniformly from `[-SCALE, SCALE]`.
    pub fn random(rng: &mut RngSource, input_size: usize) -> (r: Neuron)
        ensures
            r.wf(input_size as int),
            -SCALE <= r.bias <= SCALE,
            forall|k: int| 0 <= k < r.weights@.len() ==> -SCALE <= #[trigger] r.weights@[k] <= SCALE,
    {
        let bias = rng.sample_range(-SCALE, SCALE);
        let mut weights: Vec<i64> = Vec::new();
        let mut k: usize = 0;
        while k < input_size
            invariant
                0 <= k <= input_size,
                weights@.len() == k,
                forall|j: int| 0 <= j < k ==> -SCALE <= #[trigger] weights@[j] <= SCALE,
            decreases input_size - k,
        {
            weights.push(rng.sample_range(-SCALE, SCALE));
            k = k + 1;
        }
        Neuron { bias, weights }
    }

    /// The neuron's raw output for the given inputs.
    fn propagate(&self, inputs: &Vec<i64>) -> (r: i64)
        requires
            inputs@.len() == self.weights@.len(),
            inputs@.len() <= WIDTH_MAX,
            all_in_band(inputs@),
        ensures
            r == neuron_raw(*self, inputs@),
            val_in_band(r),
    {
        let n = inputs.len();
        let mut acc: i128 = 0;
        let mut j: usize = 0;
        while j < n
            invariant
                0 <= j <= n,
                n == inputs@.len() == self.weights@.len(),
                n <= WIDTH_MAX,
                all_in_band(inputs@),
                acc == dot(inputs@.take(j as int), self.weights@.take(j as int)),
                int_abs(acc as int) <= j * prod_max(),
            decreases n - j,
        {
            let x = inputs[j];
            let w = self.weights[j];
            proof {
                lemma_dot_take_step(inputs@, self.weights@, j as int);
                assert(int_abs((x as int) * (w as int)) <= prod_max()) by (nonlinear_arith)
                    requires
                        -VAL_MAX <= x <= VAL_MAX,
                        i64::MIN <= w <= i64::MAX,
                ;
                assert((j as int) * prod_max() + prod_max() == (j + 1) * prod_max())
                    by (nonlinear_arith);
                assert((j + 1) * prod_max() <= WIDTH_MAX * prod_max()) by (nonlinear_arith)
                    requires j + 1 <= WIDTH_MAX;
            }
            acc = acc + (x as i128) * (w as i128);
            j = j + 1;
        }
        proof {
            assert(inputs@.take(n as int) =~= inputs@);
            assert(self.weights@.take(n as int) =~= self.weights@);
            assert((WIDTH_MAX as int) * prod_max() < i128::MAX) by (nonlinear_arith);
            assert((n as int) * prod_max() <= (WIDTH_MAX as int) * prod_max()) by (nonlinear_arith)
                requires n <= WIDTH_MAX;
        }
        let q = div_scale(acc);
        let s = q + (self.bias as i128);
        clamp_band_exec(s)
    }
}

impl Layer {
    /// Draws a fresh layer of `output_size` random neurons over `input_size`
    /// inputs.
    pub fn random(rng: &mut RngSource, input_size: usize, output_size: usize) -> (r: Layer)
        ensures
            r.wf(input_size as int, output_size as int),
            forall|j: int|
                0 <= j < r.neurons@.len() ==> neuron_in_init_band(#[trigger] r.neurons@[j]),
    {
        let mut neurons: Vec<Neuron> = Vec::new();
        let mut j: usize = 0;
        while j < output_size
            invariant
                0 <= j <= output_size,
                neurons@.len() == j,
                forall|i: int| 0 <= i < j ==> (#[trigger] neurons@[i]).wf(input_size as int),
                forall|i: int| 0 <= i < j ==> neuron_in_init_band(#[trigger] neurons@[i]),
            decreases output_size - j,
        {
            neurons.push(Neuron::random(rng, input_size));
            j = j + 1;
        }
        Layer { neurons }
    }

    /// The layer's raw outputs for the given inputs.
    fn propagate(&self, inputs: &Vec<i64>) -> (r: Vec<i64>)
        requires
            inputs@.len() <= WIDTH_MAX,
            all_in_band(inputs@),
            forall|j: int|
                0 <= j < self.neurons@.len() ==> (#[trigger] self.neurons@[j]).wf(
                    inputs@.len() as int,
                ),
        ensures
            r@ == layer_raw(*self, inputs@),
            all_in_band(r@),
            r@.len() == self.neurons@.len(),
    {
        let n = self.neurons.len();
        let mut out: Vec<i64> = Vec::new();
        let mut j: usize = 0;
        while j < n
            invariant
                0 <= j <= n,
                n == self.neurons@.len(),
                out@.len() == j,
                forall|i: int|
                    0 <= i < j ==> #[trigger] out@[i] == neuron_raw(self.neurons@[i], inputs@),
                forall|i: int| 0 <= i < j ==> val_in_band(#[trigger] out@[i]),
            decreases n - j,
        {
            out.push(self.neurons[j].propagate(inputs));
            j = j + 1;
        }
        proof {
            assert(out@ =~= layer_raw(*self, inputs@));
        }
        out
    }
}

/// Every weight and the bias of the neuron lie in the random-initialisation
/// band `[-SCALE, SCALE]`.
pub open spec fn neuron_in_init_band(n: Neuron) -> bool {
    &&& -SCALE <= n.bias <= SCALE
    &&& forall|k: int| 0 <= k < n.weights@.len() ==> -SCALE <= #[trigger] n.weights@[k] <= SCALE
}

/// Every neuron of the network lies in the random-initialisation band.
pub open spec fn network_in_init_band(net: Network) -> bool {
    forall|i: int, j: int|
        0 <= i < net.layers@.len() && 0 <= j < net.layers@[i].neurons@.len()
            ==> neuron_in_init_band(#[trigger] net.layers@[i].neurons@[j])
}

/// The rectifier applied to a whole vector.
fn relu_vec(xs: Vec<i64>) -> (r: Vec<i64>)
    requires
        all_in_band(xs@),
    ensures
        r@ == relu_all(xs@),
        all_in_band(r@),
        r@.len() == xs@.len(),
{
    let n = xs.len();
    let mut out: Vec<i64> = Vec::new();
    let mut j: usize = 0;
    while j < n
        invariant
            0 <= j <= n,
            n == xs@.len(),
            all_in_band(xs@),
            out@.len() == j,
            forall|i: int| 0 <= i < j ==> #[trigger] out@[i] == relu(xs@[i]),
            forall|i: int| 0 <= i < j ==> val_in_band(#[trigger] out@[i]),
        decreases n - j,
    {
        let x = xs[j];
        if x < 0 {
            out.push(0);
        } else {
            out.push(x);
        }
        j = j + 1;
    }
    proof {
        assert(out@ =~= relu_all(xs@));
    }
    out
}

/// The sigmoid of one value, strictly inside `(0, SCALE)`.
fn sigmoid_exec(x: i64) -> (r: i64)
    requires
        val_in_band(x),
    ensures
        r == sigmoid_fix(x),
        0 < r < SCALE,
{
    if x >= 0 {
        let num = (SCALE as u128) * (x as u128);
        let den = 2 * ((SCALE as u128) + (x as u128));
        let q = num / den;
        proof {
            assert(num < den * (HALF as u128)) by (nonlinear_arith)
                requires
                    num == (SCALE as int) * (x as int),
                    den == 2 * ((SCALE as int) + (x as int)),
                    x >= 0,
                    SCALE == 10_000,
                    HALF == 5_000,
            ;
            assert(q < HALF) by (nonlinear_arith)
                requires
                    num < den * (HALF as u128),
                    q == num / den,
                    den > 0,
            ;
        }
        HALF + (q as i64)
    } else {
        let xm = -x;
        let num = (SCALE as u128) * (xm as u128);
        let den = 2 * ((SCALE as u128) + (xm as u128));
        let q = num / den;
        proof {
            assert(num < den * (HALF as u128)) by (nonlinear_arith)
                requires
                    num == (SCALE as int) * (xm as int),
                    den == 2 * ((SCALE as int) + (xm as int)),
                    xm > 0,
                    SCALE == 10_000,
                    HALF == 5_000,
            ;
            assert(q < HALF) by (nonlinear_arith)
                requires
                    num < den * (HALF as u128),
                    q == num / den,
                    den > 0,
            ;
        }
        HALF - (q as i64)
    }
}

/// The sigmoid applied to a whole vector.
fn sigmoid_vec(xs: Vec<i64>) -> (r: Vec<i64>)
    requires
        all_in_band(xs@),
    ensures
        r@ == sigmoid_all(xs@),
        r@.len() == xs@.len(),
        forall|i: int| 0 <= i < r@.len() ==> 0 < #[trigger] r@[i] < SCALE,
{
    let n = xs.len();
    let mut out: Vec<i64> = Vec::new();
    let mut j: usize = 0;
    while j < n
        invariant
            0 <= j <= n,
            n == xs@.len(),
            all_in_band(xs@),
            out@.len() == j,
            forall|i: int| 0 <= i < j ==> #[trigger] out@[i] == sigmoid_fix(xs@[i]),
            forall|i: int| 0 <= i < j ==> 0 < #[trigger] out@[i] < SCALE,
        decreases n - j,
    {
        out.push(sigmoid_exec(xs[j]));
        j = j + 1;
    }
    proof {
        assert(out@ =~= sigmoid_all(xs@));
    }
    out
}

impl Network {
    /// Draws a fresh network for the architecture, every weight and bias
    /// uniformly from `[-SCALE, SCALE]`.
    pub fn random(rng: &mut RngSource, layers: &Vec<LayerArchitecture>) -> (r: Network)
        requires
            wf_arch(layers@),
        ensures
            r.wf_for(layers@),
            network_in_init_band(r),
    {
        let n = layers.len();
        let mut built: Vec<Layer> = Vec::new();
        let mut i: usize = 0;
        while i < n - 1
            invariant
                0 <= i <= n - 1,
                n == layers@.len(),
                wf_arch(layers@),
                built@.len() == i,
                forall|k: int|
                    0 <= k < i ==> (#[trigger] built@[k]).wf(
                        layers@[k].neurons as int,
                        layers@[k + 1].neurons as int,
                    ),
                forall|k: int, j: int|
                    0 <= k < i && 0 <= j < built@[k].neurons@.len() ==> neuron_in_init_band(
                        #[trigger] built@[k].neurons@[j],
                    ),
            decreases n - 1 - i,
        {
            let input_size = layers[i].neurons;
            let output_size = layers[i + 1].neurons;
            built.push(Layer::random(rng, input_size, output_size));
            i = i + 1;
        }
        Network { layers: built }
    }

    /// Forward propagation.  The result is a pure function of the network's
    /// weights and the inputs, has the last layer's width, and every output
    /// lies strictly between `0` and `SCALE`.
    pub fn propagate(&self, inputs: Vec<i64>) -> (r: Vec<i64>)
        requires
            self.wf(),
            inputs@.len() == self.input_size(),
            all_in_band(inputs@),
        ensures
            r@ == self.propagate_spec(inputs@),
            r@.len() == self.output_size(),
            forall|j: int| 0 <= j < r@.len() ==> 0 < #[trigger] r@[j] < SCALE,
    {
        let ghost inputs0 = inputs@;
        let n_layers = self.layers.len();
        let mut cur = inputs;
        let mut i: usize = 0;
        while i < n_layers - 1
            invariant
                0 <= i <= n_layers - 1,
                n_layers == self.layers@.len(),
                self.wf(),
                cur@ == hidden_after(self.layers@, inputs0, i as int),
                cur@.len() == self.layer_input_size(i as int),
                all_in_band(cur@),
            decreases n_layers - 1 - i,
        {
            let raw = self.layers[i].propagate(&cur);
            cur = relu_vec(raw);
            i = i + 1;
        }
        let raw = self.layers[n_layers - 1].propagate(&cur);
        sigmoid_vec(raw)
    }
}

/// The flat encoding of one neuron: the bias first, then each weight in
/// input order.
pub open spec fn neuron_flat(n: Neuron) -> Seq<i64> {
    seq![n.bias] + n.weights@
}

/// The flat encoding of a row of neurons, in neuron order.
pub open spec fn neurons_flat(ns: Seq<Neuron>) -> Seq<i64>
    decreases ns.len(),
{
    if ns.len() == 0 {
        Seq::empty()
    } else {
        neurons_flat(ns.drop_last()) + neuron_flat(ns.last())
    }
}

/// The flat encoding of a stack of layers, in layer order.
pub open spec fn layers_flat(ls: Seq<Layer>) -> Seq<i64>
    decreases ls.len(),
{
    if ls.len() == 0 {
        Seq::empty()
    } else {
        layers_flat(ls.drop_last()) + neurons_flat(ls.last().neurons@)
    }
}

impl Network {
    /// The network's flat weight sequence.
    pub open spec fn weights_spec(&self) -> Seq<i64> {
        layers_flat(self.layers@)
    }
}

/// How many flat values one layer consumes: per neuron, the bias and one
/// weight per input.
pub open spec fn layer_weight_count(inputs: int, outputs: int) -> int {
    outputs * (1 + inputs)
}

/// How many flat values the layers from slot `i` onward consume.
pub open spec fn weight_count_from(arch: Seq<LayerArchitecture>, i: int) -> int
    decreases arch.len() - i,
{
    if i < 0 || i >= arch.len() - 1 {
        0
    } else {
        layer_weight_count(arch[i].neurons as int, arch[i + 1].neurons as int)
            + weight_count_from(arch, i + 1)
    }
}

/// How many flat values a network of the given architecture consumes.
pub open spec fn weight_count(arch: Seq<LayerArchitecture>) -> int {
    weight_count_from(arch, 0)
}

/// Unfolds the flat encoding of a neuron row over one more prefix element.
proof fn lemma_neurons_flat_step(ns: Seq<Neuron>, j: int)
    requires
        0 <= j < ns.len(),
    ensures
        neurons_flat(ns.take(j + 1)) == neurons_flat(ns.take(j)) + neuron_flat(ns[j]),
{
    assert(ns.take(j + 1).drop_last() =~= ns.take(j));
    assert(ns.take(j + 1).last() == ns[j]);
}

/// Unfolds the flat encoding of a layer stack over one more prefix element.
proof fn lemma_layers_flat_step(ls: Seq<Layer>, i: int)
    requires
        0 <= i < ls.len(),
    ensures
        layers_flat(ls.take(i + 1)) == layers_flat(ls.take(i)) + neurons_flat(ls[i].neurons@),
{
    assert(ls.take(i + 1).drop_last() =~= ls.take(i));
    assert(ls.take(i + 1).last() == ls[i]);
}

/// The flat encoding of a row of neurons over `inputs` inputs has one slot
/// per neuron bias and weight.
proof fn lemma_neurons_flat_len(ns: Seq<Neuron>, inputs: int)
    requires
        inputs >= 0,
        forall|j: int| 0 <= j < ns.len() ==> (#[trigger] ns[j]).wf(inputs),
    ensures
        neurons_flat(ns).len() == ns.len() * (1 + inputs),
    decreases ns.len(),
{
    if ns.len() > 0 {
        assert(forall|j: int|
            0 <= j < ns.len() - 1 ==> (#[trigger] ns.drop_last()[j]) == ns[j]);
        lemma_neurons_flat_len(ns.drop_last(), inputs);
        assert(ns.last().wf(inputs));
        assert((ns.len() - 1) * (1 + inputs) + (1 + inputs) == ns.len() * (1 + inputs))
            by (nonlinear_arith);
    }
}

/// The flat count of the layers from slot `i` onward is never negative.
proof fn lemma_weight_count_from_nonneg(arch: Seq<LayerArchitecture>, i: int)
    requires
        forall|k: int| 0 <= k < arch.len() ==> (#[trigger] arch[k]).neurons >= 0,
    ensures
        weight_count_from(arch, i) >= 0,
    decreases arch.len() - i,
{
    if 0 <= i && i < arch.len() - 1 {
        lemma_weight_count_from_nonneg(arch, i + 1);
        assert(layer_weight_count(arch[i].neurons as int, arch[i + 1].neurons as int) >= 0)
            by (nonlinear_arith)
            requires arch[i].neurons >= 0, arch[i + 1].neurons >= 0;
    }
}

impl Network {
    /// Flattens the network into its weight sequence: for each layer, for
    /// each neuron, the bias first and then each weight in input order.
    pub fn weights(&self) -> (r: Vec<i64>)
        ensures
            r@ == self.weights_spec(),
    {
        let mut out: Vec<i64> = Vec::new();
        let mut i: usize = 0;
        while i < self.layers.len()
            invariant
                0 <= i <= self.layers@.len(),
                out@ == layers_flat(self.layers@.take(i as int)),
            decreases self.layers@.len() - i,
        {
            let layer = &self.layers[i];
            let ghost base_layer = layers_flat(self.layers@.take(i as int));
            let mut j: usize = 0;
            while j < layer.neurons.len()
                invariant
                    0 <= j <= layer.neurons@.len(),
                    layer == &self.layers@[i as int],
                    out@ == base_layer + neurons_flat(layer.neurons@.take(j as int)),
                decreases layer.neurons@.len() - j,
            {
                let neuron = &layer.neurons[j];
                let ghost base_neuron = base_layer + neurons_flat(layer.neurons@.take(j as int));
                out.push(neuron.bias);
                let mut k: usize = 0;
                while k < neuron.weights.len()
                    invariant
                        0 <= k <= neuron.weights@.len(),
                        neuron == &layer.neurons@[j as int],
                        out@ =~= base_neuron + seq![neuron.bias] + neuron.weights@.take(k as int),
                    decreases neuron.weights@.len() - k,
                {
                    out.push(neuron.weights[k]);
                    proof {
                        assert(out@ =~= base_neuron + seq![neuron.bias] + neuron.weights@.take(
                        k as int + 1));
                    }
                    k = k + 1;
                }
                proof {
                    lemma_neurons_flat_step(layer.neurons@, j as int);
                    assert(neuron.weights@.take(neuron.weights@.len() as int) =~= neuron.weights@);
                    assert(out@ =~= base_layer + neurons_flat(layer.neurons@.take(j as int + 1)));
                }
                j = j + 1;
            }
            proof {
                lemma_layers_flat_step(self.layers@, i as int);
                assert(layer.neurons@.take(layer.neurons@.len() as int) =~= layer.neurons@);
            }
            i = i + 1;
        }
        proof {
            assert(self.layers@.take(self.layers@.len() as int) =~= self.layers@);
        }
        out
    }

}

impl Neuron {
    /// Reads one neuron from the flat sequence at the cursor — the bias
    /// first, then one weight per input — and advances the cursor past it.
    /// Running out of values would mean a topology/genome mismatch, so the
    /// cursor must have room.
    pub fn from_weights(input_size: usize, weights: &Vec<i64>, pos: &mut usize) -> (r: Neuron)
        requires
            *old(pos) + 1 + input_size <= weights@.len(),
        ensures
            r.wf(input_size as int),
            *final(pos) == *old(pos) + 1 + input_size,
            neuron_flat(r) == weights@.subrange(*old(pos) as int, *final(pos) as int),
    {
        let n = weights.len();
        let mut p = *pos;
        let ghost p0 = p as int;
        let bias = weights[p];
        p = p + 1;
        let mut ws: Vec<i64> = Vec::new();
        let mut k: usize = 0;
        while k < input_size
            invariant
                0 <= k <= input_size,
                n == weights@.len(),
                p0 + 1 + input_size <= n,
                ws@.len() == k,
                p as int == p0 + 1 + k,
                bias == weights@[p0],
                ws@ == weights@.subrange(p0 + 1, p as int),
            decreases input_size - k,
        {
            ws.push(weights[p]);
            p = p + 1;
            proof {
                assert(ws@ =~= weights@.subrange(p0 + 1, p as int));
            }
            k = k + 1;
        }
        *pos = p;
        let r = Neuron { bias, weights: ws };
        proof {
            assert(neuron_flat(r) =~= weights@.subrange(p0, p as int));
        }
        r
    }
}

impl Layer {
    /// Reads one layer of `output_size` neurons over `input_size` inputs
    /// from the flat sequence at the cursor, and advances the cursor past
    /// everything the layer consumed.
    pub fn from_weights(
        input_size: usize,
        output_size: usize,
        weights: &Vec<i64>,
        pos: &mut usize,
    ) -> (r: Layer)
        requires
            *old(pos) + (output_size as int) * (1 + input_size as int) <= weights@.len(),
        ensures
            r.wf(input_size as int, output_size as int),
            *final(pos) as int == *old(pos) + (output_size as int) * (1 + input_size as int),
            neurons_flat(r.neurons@) == weights@.subrange(*old(pos) as int, *final(pos) as int),
    {
        let n = weights.len();
        let mut p = *pos;
        let ghost p0 = p as int;
        let mut neurons: Vec<Neuron> = Vec::new();
        let mut j: usize = 0;
        proof {
            assert(neurons_flat(neurons@) =~= weights@.subrange(p0, p0));
        }
        while j < output_size
            invariant
                0 <= j <= output_size,
                n == weights@.len(),
                p0 + (output_size as int) * (1 + input_size as int) <= n,
                neurons@.len() == j,
                forall|m: int| 0 <= m < j ==> (#[trigger] neurons@[m]).wf(input_size as int),
                p as int == p0 + j * (1 + input_size as int),
                neurons_flat(neurons@) == weights@.subrange(p0, p as int),
            decreases output_size - j,
        {
            proof {
                assert((j as int) * (1 + input_size as int) + (1 + input_size as int) <= (
                output_size as int) * (1 + input_size as int)) by (nonlinear_arith)
                    requires j < output_size, input_size >= 0;
            }
            let ghost neurons0 = neurons@;
            let nrn = Neuron::from_weights(input_size, weights, &mut p);
            neurons.push(nrn);
            proof {
                lemma_neurons_flat_step(neurons@, j as int);
                assert(neurons@.take(j as int) =~= neurons0);
                assert(neurons@.take(j as int + 1) =~= neurons@);
                assert(neurons_flat(neurons@) =~= weights@.subrange(p0, p as int));
                assert((j as int) * (1 + input_size as int) + (1 + input_size as int) == (j as int
                    + 1) * (1 + input_size as int)) by (nonlinear_arith);
            }
            j = j + 1;
        }
        *pos = p;
        Layer { neurons }
    }
}

impl Network {
    /// Rebuilds a network of architecture `layers` from a flat weight
    /// sequence, consuming it in the exact order `weights` emits: too few or
    /// too many values would mean a topology/genome mismatch, so the length
    /// must match the architecture's weight count exactly.  The rebuilt
    /// network flattens back to the given sequence.
    pub fn from_weights(layers: &Vec<LayerArchitecture>, weights: &Vec<i64>) -> (r: Network)
        requires
            wf_arch(layers@),
            weights@.len() == weight_count(layers@),
        ensures
            r.wf_for(layers@),
            r.weights_spec() == weights@,
    {
        let n = layers.len();
        let total = weights.len();
        let mut built: Vec<Layer> = Vec::new();
        let mut pos: usize = 0;
        let mut i: usize = 0;
        while i < n - 1
            invariant
                0 <= i <= n - 1,
                n == layers@.len(),
                total == weights@.len(),
                wf_arch(layers@),
                built@.len() == i,
                forall|k: int|
                    0 <= k < i ==> (#[trigger] built@[k]).wf(
                        layers@[k].neurons as int,
                        layers@[k + 1].neurons as int,
                    ),
                pos <= total,
                layers_flat(built@) == weights@.take(pos as int),
                pos + weight_count_from(layers@, i as int) == total,
            decreases n - 1 - i,
        {
            let input_size = layers[i].neurons;
            let output_size = layers[i + 1].neurons;
            proof {
                lemma_weight_count_from_nonneg(layers@, i as int + 1);
                assert(weight_count_from(layers@, i as int) == layer_weight_count(
                    input_size as int,
                    output_size as int,
                ) + weight_count_from(layers@, i as int + 1));
            }
            let ghost pos0 = pos as int;
            let ghost built0 = built@;
            let layer = Layer::from_weights(input_size, output_size, weights, &mut pos);
            built.push(layer);
            proof {
                lemma_layers_flat_step(built@, i as int);
                assert(built@.take(i as int) =~= built0);
                assert(built@.take(i as int + 1) =~= built@);
                assert(layers_flat(built@) =~= weights@.take(pos as int));
            }
            i = i + 1;
        }
        proof {
            assert(weight_count_from(layers@, n as int - 1) == 0);
            assert(weights@.take(weights@.len() as int) =~= weights@);
        }
        Network { layers: built }
    }
}

/// Unfolds the architecture's flat count from the back: dropping the last
/// slot drops exactly the last layer's share.
proof fn lemma_weight_count_snoc(arch: Seq<LayerArchitecture>, i: int)
    requires
        arch.len() >= 2,
        0 <= i <= arch.len() - 2,
    ensures
        weight_count_from(arch, i) == weight_count_from(arch.drop_last(), i) + layer_weight_count(
            arch[arch.len() - 2].neurons as int,
            arch[arch.len() - 1].neurons as int,
        ),
    decreases arch.len() - i,
{
    let n = arch.len() as int;
    assert(forall|k: int| 0 <= k < n - 1 ==> (#[trigger] arch.drop_last()[k]) == arch[k]);
    if i == n - 2 {
        assert(weight_count_from(arch, n - 1) == 0);
        assert(weight_count_from(arch.drop_last(), n - 2) == 0);
    } else {
        lemma_weight_count_snoc(arch, i + 1);
    }
}

/// A layer stack realising an architecture flattens to exactly the
/// architecture's weight count.
proof fn lemma_layers_flat_len(ls: Seq<Layer>, arch: Seq<LayerArchitecture>)
    requires
        ls.len() + 1 == arch.len(),
        forall|k: int| 0 <= k < arch.len() ==> (#[trigger] arch[k]).neurons >= 0,
        forall|i: int|
            0 <= i < ls.len() ==> (#[trigger] ls[i]).wf(
                arch[i].neurons as int,
                arch[i + 1].neurons as int,
            ),
    ensures
        layers_flat(ls).len() == weight_count(arch),
    decreases ls.len(),
{
    if ls.len() == 0 {
        assert(weight_count_from(arch, 0) == 0);
    } else {
        let n = ls.len() as int;
        assert(forall|i: int| 0 <= i < n - 1 ==> (#[trigger] ls.drop_last()[i]) == ls[i]);
        assert(forall|k: int|
            0 <= k < arch.len() - 1 ==> (#[trigger] arch.drop_last()[k]) == arch[k]);
        lemma_layers_flat_len(ls.drop_last(), arch.drop_last());
        assert(ls.last().wf(arch[n - 1].neurons as int, arch[n].neurons as int));
        lemma_neurons_flat_len(ls.last().neurons@, arch[n - 1].neurons as int);
        lemma_weight_count_snoc(arch, 0);
    }
}

/// A network realising an architecture flattens to exactly the
/// architecture's weight count.
pub proof fn lemma_weights_spec_len(net: Network, arch: Seq<LayerArchitecture>)
    requires
        net.wf_for(arch),
    ensures
        net.weights_spec().len() == weight_count(arch),
{
    lemma_layers_flat_len(net.layers@, arch);
}

/// Weight-for-weight equality: the networks have the same shape and, position
/// by position, the same biases and weights.
pub open spec fn same_structure(a: Network, b: Network) -> bool {
    &&& a.layers@.len() == b.layers@.len()
    &&& forall|i: int|
        0 <= i < a.layers@.len() ==> (#[trigger] a.layers@[i]).neurons@.len()
            == b.layers@[i].neurons@.len()
    &&& forall|i: int, j: int|
        0 <= i < a.layers@.len() && 0 <= j < a.layers@[i].neurons@.len()
            ==> (#[trigger] a.layers@[i].neurons@[j]).bias == b.layers@[i].neurons@[j].bias
                && a.layers@[i].neurons@[j].weights@ == b.layers@[i].neurons@[j].weights@
}

/// Splits an equality of concatenations whose right parts have equal length.
proof fn lemma_concat_cancel(s1: Seq<i64>, t1: Seq<i64>, s2: Seq<i64>, t2: Seq<i64>)
    requires
        s1 + t1 == s2 + t2,
        t1.len() == t2.len(),
    ensures
        s1 == s2,
        t1 == t2,
{
    assert((s1 + t1).len() == s1.len() + t1.len());
    assert((s2 + t2).len() == s2.len() + t2.len());
    assert(s1.len() == s2.len());
    assert(s1 =~= (s1 + t1).take(s1.len() as int));
    assert(s2 =~= (s2 + t2).take(s2.len() as int));
    assert(t1 =~= (s1 + t1).skip(s1.len() as int));
    assert(t2 =~= (s2 + t2).skip(s2.len() as int));
}

/// A neuron's flat encoding determines its bias and weights.
proof fn lemma_neuron_flat_inj(x: Neuron, y: Neuron)
    requires
        neuron_flat(x) == neuron_flat(y),
    ensures
        x.bias == y.bias,
        x.weights@ == y.weights@,
{
    assert(x.bias == neuron_flat(x)[0]);
    assert(y.bias == neuron_flat(y)[0]);
    assert(x.weights@ =~= neuron_flat(x).skip(1));
    assert(y.weights@ =~= neuron_flat(y).skip(1));
}

/// A neuron row's flat encoding determines every neuron, once the common
/// input width fixes where each neuron's slots lie.
proof fn lemma_neurons_flat_inj(xs: Seq<Neuron>, ys: Seq<Neuron>, inputs: int)
    requires
        inputs >= 0,
        xs.len() == ys.len(),
        forall|j: int| 0 <= j < xs.len() ==> (#[trigger] xs[j]).wf(inputs),
        forall|j: int| 0 <= j < ys.len() ==> (#[trigger] ys[j]).wf(inputs),
        neurons_flat(xs) == neurons_flat(ys),
    ensures
        forall|j: int|
            0 <= j < xs.len() ==> (#[trigger] xs[j]).bias == ys[j].bias && xs[j].weights@
                == ys[j].weights@,
    decreases xs.len(),
{
    if xs.len() > 0 {
        let n = xs.len() as int - 1;
        assert(forall|j: int| 0 <= j < n ==> (#[trigger] xs.drop_last()[j]) == xs[j]);
        assert(forall|j: int| 0 <= j < n ==> (#[trigger] ys.drop_last()[j]) == ys[j]);
        assert(neuron_flat(xs.last()).len() == 1 + inputs);
        assert(neuron_flat(ys.last()).len() == 1 + inputs);
        lemma_concat_cancel(
            neurons_flat(xs.drop_last()),
            neuron_flat(xs.last()),
            neurons_flat(ys.drop_last()),
            neuron_flat(ys.last()),
        );
        lemma_neuron_flat_inj(xs.last(), ys.last());
        lemma_neurons_flat_inj(xs.drop_last(), ys.drop_last(), inputs);
        assert forall|j: int| 0 <= j < xs.len() implies (#[trigger] xs[j]).bias == ys[j].bias
            && xs[j].weights@ == ys[j].weights@ by {
            if j < n {
                assert(xs.drop_last()[j] == xs[j]);
                assert(ys.drop_last()[j] == ys[j]);
            } else {
                assert(xs[j] == xs.last());
                assert(ys[j] == ys.last());
            }
        }
    }
}

/// A layer stack's flat encoding determines every neuron, once the
/// architecture fixes where each layer's slots lie.
proof fn lemma_layers_flat_inj(xs: Seq<Layer>, ys: Seq<Layer>, arch: Seq<LayerArchitecture>)
    requires
        xs.len() == ys.len(),
        xs.len() + 1 <= arch.len(),
        forall|k: int| 0 <= k < arch.len() ==> (#[trigger] arch[k]).neurons >= 0,
        forall|i: int|
            0 <= i < xs.len() ==> (#[trigger] xs[i]).wf(
                arch[i].neurons as int,
                arch[i + 1].neurons as int,
            ),
        forall|i: int|
            0 <= i < ys.len() ==> (#[trigger] ys[i]).wf(
                arch[i].neurons as int,
                arch[i + 1].neurons as int,
            ),
        layers_flat(xs) == layers_flat(ys),
    ensures
        forall|i: int, j: int|
            0 <= i < xs.len() && 0 <= j < xs[i].neurons@.len()
                ==> (#[trigger] xs[i].neurons@[j]).bias == ys[i].neurons@[j].bias
                    && xs[i].neurons@[j].weights@ == ys[i].neurons@[j].weights@,
    decreases xs.len(),
{
    if xs.len() > 0 {
        let n = xs.len() as int - 1;
        assert(forall|i: int| 0 <= i < n ==> (#[trigger] xs.drop_last()[i]) == xs[i]);
        assert(forall|i: int| 0 <= i < n ==> (#[trigger] ys.drop_last()[i]) == ys[i]);
        assert(xs.last().wf(arch[n].neurons as int, arch[n + 1].neurons as int));
        assert(ys.last().wf(arch[n].neurons as int, arch[n + 1].neurons as int));
        lemma_neurons_flat_len(xs.last().neurons@, arch[n].neurons as int);
        lemma_neurons_flat_len(ys.last().neurons@, arch[n].neurons as int);
        lemma_concat_cancel(
            layers_flat(xs.drop_last()),
            neurons_flat(xs.last().neurons@),
            layers_flat(ys.drop_last()),
            neurons_flat(ys.last().neurons@),
        );
        lemma_neurons_flat_inj(
            xs.last().neurons@,
            ys.last().neurons@,
            arch[n].neurons as int,
        );
        lemma_layers_flat_inj(xs.drop_last(), ys.drop_last(), arch);
        assert forall|i: int, j: int|
            0 <= i < xs.len() && 0 <= j < xs[i].neurons@.len() implies (#[trigger] xs[i].neurons@[
        j]).bias == ys[i].neurons@[j].bias && xs[i].neurons@[j].weights@
            == ys[i].neurons@[j].weights@ by {
            if i < n {
                assert(xs.drop_last()[i] == xs[i]);
                assert(ys.drop_last()[i] == ys[i]);
            } else {
                assert(xs[i] == xs.last());
                assert(ys[i] == ys.last());
            }
        }
    }
}

/// Hidden-layer propagation only depends on the networks' weights: two
/// weight-for-weight equal networks push any input through their first `i`
/// layers to the same values.
proof fn lemma_hidden_after_congr(a: Network, b: Network, xs: Seq<i64>, i: int)
    requires
        same_structure(a, b),
        0 <= i <= a.layers@.len(),
    ensures
        hidden_after(a.layers@, xs, i) == hidden_after(b.layers@, xs, i),
    decreases i,
{
    if i > 0 {
        lemma_hidden_after_congr(a, b, xs, i - 1);
        let h = hidden_after(a.layers@, xs, i - 1);
        assert(layer_raw(a.layers@[i - 1], h) =~= layer_raw(b.layers@[i - 1], h)) by {
            assert forall|j: int| 0 <= j < a.layers@[i - 1].neurons@.len() implies #[trigger]
            neuron_raw(a.layers@[i - 1].neurons@[j], h) == neuron_raw(
                b.layers@[i - 1].neurons@[j],
                h,
            ) by {
                assert(a.layers@[i - 1].neurons@[j].bias == b.layers@[i - 1].neurons@[j].bias);
                assert(a.layers@[i - 1].neurons@[j].weights@ == b.layers@[i - 1].neurons@[
                j].weights@);
            }
        }
    }
}

/// Round trip: a structurally consistent network is determined, weight for
/// weight, by its architecture and its flat weight sequence — so rebuilding
/// a network from its own flattening gives back the same network, with the
/// same outputs on every input.
pub proof fn lemma_network_round_trip(net: Network, rebuilt: Network, arch: Seq<LayerArchitecture>)
    requires
        net.wf_for(arch),
        rebuilt.wf_for(arch),
        rebuilt.weights_spec() == net.weights_spec(),
    ensures
        same_structure(net, rebuilt),
        forall|xs: Seq<i64>| net.propagate_spec(xs) == #[trigger] rebuilt.propagate_spec(xs),
{
    assert(forall|k: int| 0 <= k < arch.len() ==> (#[trigger] arch[k]).neurons >= 0);
    lemma_layers_flat_inj(net.layers@, rebuilt.layers@, arch);
    assert forall|i: int| 0 <= i < net.layers@.len() implies (#[trigger] net.layers@[
    i]).neurons@.len() == rebuilt.layers@[i].neurons@.len() by {
        assert(net.layers@[i].wf(arch[i].neurons as int, arch[i + 1].neurons as int));
        assert(rebuilt.layers@[i].wf(arch[i].neurons as int, arch[i + 1].neurons as int));
    }
    assert forall|xs: Seq<i64>| net.propagate_spec(xs) == #[trigger] rebuilt.propagate_spec(
        xs,
    ) by {
        let nl = net.layers@.len() as int;
        lemma_hidden_after_congr(net, rebuilt, xs, nl - 1);
        let h = hidden_after(net.layers@, xs, nl - 1);
        assert(layer_raw(net.layers@.last(), h) =~= layer_raw(rebuilt.layers@.last(), h)) by {
            assert forall|j: int| 0 <= j < net.layers@.last().neurons@.len() implies neuron_raw(
                net.layers@.last().neurons@[j],
                h,
            ) == neuron_raw(rebuilt.layers@.last().neurons@[j], h) by {
                assert(net.layers@.last() == net.layers@[nl - 1]);
                assert(rebuilt.layers@.last() == rebuilt.layers@[nl - 1]);
                assert(net.layers@[nl - 1].neurons@[j].bias == rebuilt.layers@[nl
                    - 1].neurons@[j].bias);
                assert(net.layers@[nl - 1].neurons@[j].weights@ == rebuilt.layers@[nl
                    - 1].neurons@[j].weights@);
            }
        }
    }
}

} // verus!
