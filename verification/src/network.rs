//! A feed-forward network of rectified-linear units.
use crate::fixed::saturate;
use crate::fixed::saturating;
use crate::fixed::ONE;
use crate::random::draw_between;
use crate::random::fresh_generator;
use rand::rngs::StdRng;
use vstd::prelude::*;

verus! {

/// The sum of the products of the weights and the inputs at the same places,
/// over raw values.
pub open spec fn dot(weights: Seq<i32>, input: Seq<i32>) -> int
    decreases weights.len(),
{
    if weights.len() == 0 {
        0
    } else {
        dot(weights.drop_last(), input.drop_last()) + weights.last() * input.last()
    }
}

/// The rectified-linear unit on a sum of raw products: nothing below zero,
/// and above it the sum brought back to the scale of a gene and kept within
/// its range.
pub open spec fn rectified(sum: int) -> i32 {
    if sum <= 0 {
        0
    } else {
        saturate(sum / (ONE as int))
    }
}

/// What a unit with the given bias and weights gives for an input:
/// `max(0, bias + dot(weights, input))` in fixed-point numbers.
pub open spec fn unit_output(bias: i32, weights: Seq<i32>, input: Seq<i32>) -> i32 {
    rectified(bias * ONE + dot(weights, input))
}

/// The product of two raw values stays within 2^62 on either side.
proof fn product_bound(a: i32, b: i32)
    ensures
        -0x4000_0000_0000_0000 <= a * b <= 0x4000_0000_0000_0000,
{
    assert(-0x4000_0000_0000_0000 <= a * b <= 0x4000_0000_0000_0000) by (nonlinear_arith)
        requires
            -0x8000_0000 <= a <= 0x8000_0000,
            -0x8000_0000 <= b <= 0x8000_0000,
    ;
}

/// One unit: a weight for each input, and a bias.
#[derive(Clone, Debug)]
pub struct Neuron {
    weights: Vec<i32>,
    bias: i32,
}

impl Neuron {
    pub closed spec fn weights(&self) -> Seq<i32> {
        self.weights@
    }

    pub closed spec fn bias(&self) -> i32 {
        self.bias
    }

    /// What the unit gives for an input.
    pub open spec fn output(&self, input: Seq<i32>) -> i32 {
        unit_output(self.bias(), self.weights(), input)
    }

    /// Whether the bias and every weight are zero.
    pub open spec fn is_zero(&self) -> bool {
        &&& self.bias() == 0
        &&& forall|i: int| 0 <= i < self.weights().len() ==> #[trigger] self.weights()[i] == 0
    }

    /// Whether the bias and every weight lie between minus one and one.
    pub open spec fn within_unit(&self) -> bool {
        &&& -ONE <= self.bias() <= ONE
        &&& forall|i: int| 0 <= i < self.weights().len() ==> -ONE <= #[trigger] self.weights()[i] <= ONE
    }

    /// The number of inputs for which the unit has a weight.
    pub fn inputs(&self) -> (count: usize)
        ensures
            count == self.weights().len(),
    {
        self.weights.len()
    }

    /// A unit with the given bias and weights.
    pub fn new(bias: i32, weights: Vec<i32>) -> (neuron: Self)
        ensures
            neuron.bias() == bias,
            neuron.weights() == weights@,
    {
        Neuron { weights, bias }
    }

    /// A unit for `inputs` inputs. The bias is drawn first, then the weights
    /// in their order, each between minus one and one.
    pub fn random(rng: &mut StdRng, inputs: usize) -> (neuron: Self)
        ensures
            neuron.weights().len() == inputs,
            neuron.within_unit(),
    {
        let bias = draw_between(rng, -ONE, ONE);
        let mut weights: Vec<i32> = Vec::new();
        let mut i: usize = 0;
        while i < inputs
            invariant
                i <= inputs,
                weights@.len() == i,
                forall|k: int| 0 <= k < i ==> -ONE <= #[trigger] weights@[k] <= ONE,
            decreases inputs - i,
        {
            let weight = draw_between(rng, -ONE, ONE);
            weights.push(weight);
            i += 1;
        }
        Neuron { weights, bias }
    }

    /// Evaluates the unit on an input that has a value for each weight.
    pub fn prop(&self, input: &[i32]) -> (output: i32)
        requires
            input@.len() == self.weights().len(),
        ensures
            output == self.output(input@),
            output >= 0,
    {
        let n = input.len();
        let mut sum: i128 = 0;
        let mut i: usize = 0;
        while i < n
            invariant
                i <= n,
                n == input@.len(),
                n == self.weights@.len(),
                sum == dot(self.weights@.take(i as int), input@.take(i as int)),
                -(i as int) * 0x4000_0000_0000_0000 <= sum <= (i as int) * 0x4000_0000_0000_0000,
            decreases n - i,
        {
            let weight = self.weights[i];
            let value = input[i];
            proof {
                product_bound(weight, value);
                let w = self.weights@.take(i + 1);
                let x = input@.take(i + 1);
                assert(w.drop_last() =~= self.weights@.take(i as int));
                assert(x.drop_last() =~= input@.take(i as int));
                assert(w.last() == weight);
                assert(x.last() == value);
            }
            sum = sum + (weight as i128) * (value as i128);
            i += 1;
        }
        proof {
            assert(self.weights@.take(n as int) =~= self.weights@);
            assert(input@.take(n as int) =~= input@);
            product_bound(self.bias, ONE);
        }
        let total: i128 = (self.bias as i128) * (ONE as i128) + sum;
        if total <= 0 {
            0
        } else {
            saturating(total / (ONE as i128))
        }
    }
}

/// One layer: its units, each of which gets the whole input of the layer.
#[derive(Clone, Debug)]
pub struct Layer {
    neurons: Vec<Neuron>,
}

impl Layer {
    pub closed spec fn neurons(&self) -> Seq<Neuron> {
        self.neurons@
    }

    /// Whether every unit has a weight for each of `inputs` inputs.
    pub open spec fn takes(&self, inputs: nat) -> bool {
        forall|k: int|
            0 <= k < self.neurons().len() ==> (#[trigger] self.neurons()[k]).weights().len()
                == inputs
    }

    /// What the layer gives for an input: the output of each unit, in the
    /// order of the units.
    pub open spec fn output(&self, input: Seq<i32>) -> Seq<i32> {
        Seq::new(self.neurons().len(), |k: int| self.neurons()[k].output(input))
    }

    /// Whether every bias and weight is zero.
    pub open spec fn is_zero(&self) -> bool {
        forall|k: int| 0 <= k < self.neurons().len() ==> (#[trigger] self.neurons()[k]).is_zero()
    }

    /// Whether every bias and weight lies between minus one and one.
    pub open spec fn within_unit(&self) -> bool {
        forall|k: int| 0 <= k < self.neurons().len() ==> (#[trigger] self.neurons()[k]).within_unit()
    }

    /// The number of units.
    pub fn len(&self) -> (count: usize)
        ensures
            count == self.neurons().len(),
    {
        self.neurons.len()
    }

    /// Tells whether every unit has a weight for each of `inputs` inputs.
    pub fn accepts(&self, inputs: usize) -> (ok: bool)
        ensures
            ok == self.takes(inputs as nat),
    {
        let n = self.neurons.len();
        let mut k: usize = 0;
        while k < n
            invariant
                k <= n,
                n == self.neurons@.len(),
                forall|m: int| 0 <= m < k ==> (#[trigger] self.neurons@[m]).weights().len() == inputs,
            decreases n - k,
        {
            if self.neurons[k].inputs() != inputs {
                assert(self.neurons()[k as int].weights().len() != inputs);
                return false;
            }
            k += 1;
        }
        true
    }

    /// A layer of the given units.
    pub fn new(neurons: Vec<Neuron>) -> (layer: Self)
        ensures
            layer.neurons() == neurons@,
    {
        Layer { neurons }
    }

    /// A layer of `next` random units for `current` inputs, drawn in their
    /// order.
    pub fn random(rng: &mut StdRng, current: usize, next: usize) -> (layer: Self)
        ensures
            layer.neurons().len() == next,
            layer.takes(current as nat),
            layer.within_unit(),
    {
        let mut neurons: Vec<Neuron> = Vec::new();
        let mut k: usize = 0;
        while k < next
            invariant
                k <= next,
                neurons@.len() == k,
                forall|m: int| 0 <= m < k ==> (#[trigger] neurons@[m]).weights().len() == current,
                forall|m: int| 0 <= m < k ==> (#[trigger] neurons@[m]).within_unit(),
            decreases next - k,
        {
            let neuron = Neuron::random(rng, current);
            neurons.push(neuron);
            k += 1;
        }
        Layer { neurons }
    }

    /// Evaluates every unit of the layer on the input.
    pub fn prop(&self, inputs: Vec<i32>) -> (outputs: Vec<i32>)
        requires
            self.takes(inputs@.len()),
        ensures
            outputs@ == self.output(inputs@),
    {
        let n = self.neurons.len();
        let mut outputs: Vec<i32> = Vec::new();
        let mut k: usize = 0;
        while k < n
            invariant
                k <= n,
                n == self.neurons@.len(),
                self.takes(inputs@.len()),
                outputs@.len() == k,
                forall|m: int| 0 <= m < k ==> outputs@[m] == self.neurons@[m].output(inputs@),
            decreases n - k,
        {
            assert(self.neurons()[k as int].weights().len() == inputs@.len());
            let output = self.neurons[k].prop(inputs.as_slice());
            outputs.push(output);
            k += 1;
        }
        assert(outputs@ =~= self.output(inputs@));
        outputs
    }
}

/// What a chain of layers gives for an input: each layer works on the output
/// of the one before it.
pub open spec fn propagate(layers: Seq<Layer>, input: Seq<i32>) -> Seq<i32>
    decreases layers.len(),
{
    if layers.len() == 0 {
        input
    } else {
        propagate(layers.drop_first(), layers[0].output(input))
    }
}

/// Whether the first layer takes `inputs` inputs and every other layer as
/// many as the layer before it has units.
pub open spec fn chained(layers: Seq<Layer>, inputs: nat) -> bool
    decreases layers.len(),
{
    layers.len() == 0 || (layers[0].takes(inputs) && chained(
        layers.drop_first(),
        layers[0].neurons().len(),
    ))
}

/// A network: layers, each fed by the one before it.
#[derive(Debug)]
pub struct Network {
    layers: Vec<Layer>,
}

impl Network {
    pub closed spec fn layers(&self) -> Seq<Layer> {
        self.layers@
    }

    /// Whether the network has the shape that the sizes give: a layer for each
    /// pair of neighbours, with as many inputs as the first of the pair says
    /// and as many units as the second.
    pub open spec fn shaped(&self, topology: Seq<usize>) -> bool {
        &&& self.layers().len() + 1 == topology.len()
        &&& forall|i: int|
            0 <= i < self.layers().len() ==> {
                &&& (#[trigger] self.layers()[i]).takes(topology[i] as nat)
                &&& self.layers()[i].neurons().len() == topology[i + 1]
            }
    }

    /// Whether the network can be evaluated on `inputs` values.
    pub open spec fn fits(&self, inputs: nat) -> bool {
        self.layers().len() > 0 && chained(self.layers(), inputs)
    }

    /// The number of values that the network gives.
    pub open spec fn output_size(&self) -> nat {
        self.layers().last().neurons().len()
    }

    /// Whether every bias and weight is zero.
    pub open spec fn is_zero(&self) -> bool {
        forall|i: int| 0 <= i < self.layers().len() ==> (#[trigger] self.layers()[i]).is_zero()
    }

    /// Whether every bias and weight lies between minus one and one.
    pub open spec fn within_unit(&self) -> bool {
        forall|i: int| 0 <= i < self.layers().len() ==> (#[trigger] self.layers()[i]).within_unit()
    }

    /// Tells whether the network can be evaluated on `inputs` values.
    pub fn accepts(&self, inputs: usize) -> (ok: bool)
        ensures
            ok == self.fits(inputs as nat),
    {
        let n = self.layers.len();
        if n == 0 {
            return false;
        }
        let mut width = inputs;
        let mut i: usize = 0;
        proof {
            assert(self.layers@.skip(0) =~= self.layers@);
        }
        while i < n
            invariant
                i <= n,
                n == self.layers@.len(),
                n > 0,
                chained(self.layers@, inputs as nat) == chained(
                    self.layers@.skip(i as int),
                    width as nat,
                ),
            decreases n - i,
        {
            proof {
                let rest = self.layers@.skip(i as int);
                assert(rest[0] == self.layers@[i as int]);
                assert(rest.drop_first() =~= self.layers@.skip(i + 1));
            }
            if !self.layers[i].accepts(width) {
                return false;
            }
            width = self.layers[i].len();
            i += 1;
        }
        proof {
            assert(self.layers@.skip(n as int) =~= Seq::<Layer>::empty());
        }
        true
    }

    /// A network of the given layers.
    pub fn from_layers(layers: Vec<Layer>) -> (network: Self)
        ensures
            network.layers() == layers@,
    {
        Network { layers }
    }

    /// A network of the given shape with random weights and biases, drawn
    /// layer by layer from `rng`.
    pub fn random(rng: &mut StdRng, topology: &[usize]) -> (network: Self)
        requires
            topology@.len() >= 2,
        ensures
            network.shaped(topology@),
            network.within_unit(),
    {
        let count = topology.len() - 1;
        let mut layers: Vec<Layer> = Vec::new();
        let mut i: usize = 0;
        while i < count
            invariant
                i <= count,
                count + 1 == topology@.len(),
                layers@.len() == i,
                forall|m: int|
                    0 <= m < i ==> {
                        &&& (#[trigger] layers@[m]).takes(topology@[m] as nat)
                        &&& layers@[m].neurons().len() == topology@[m + 1]
                    },
                forall|m: int| 0 <= m < i ==> (#[trigger] layers@[m]).within_unit(),
            decreases count - i,
        {
            let layer = Layer::random(rng, topology[i], topology[i + 1]);
            layers.push(layer);
            i += 1;
        }
        Network { layers }
    }

    /// A network of the given shape with random weights and biases, drawn
    /// from a generator that is seeded afresh.
    pub fn new(topology: &[usize]) -> (network: Self)
        requires
            topology@.len() >= 2,
        ensures
            network.shaped(topology@),
            network.within_unit(),
    {
        let mut rng = fresh_generator();
        Self::random(&mut rng, topology)
    }

    /// Evaluates the network: the input goes through the layers in their
    /// order.
    pub fn prop(&self, inputs: Vec<i32>) -> (outputs: Vec<i32>)
        requires
            self.fits(inputs@.len()),
        ensures
            outputs@ == propagate(self.layers(), inputs@),
            outputs@.len() == self.output_size(),
    {
        let n = self.layers.len();
        let mut values = inputs;
        let mut i: usize = 0;
        proof {
            assert(self.layers@.skip(0) =~= self.layers@);
        }
        while i < n
            invariant
                i <= n,
                n == self.layers@.len(),
                n > 0,
                chained(self.layers@.skip(i as int), values@.len()),
                propagate(self.layers@, inputs@) == propagate(self.layers@.skip(i as int), values@),
                i > 0 ==> values@.len() == self.layers@[i - 1].neurons().len(),
            decreases n - i,
        {
            proof {
                let rest = self.layers@.skip(i as int);
                assert(rest[0] == self.layers@[i as int]);
                assert(rest.drop_first() =~= self.layers@.skip(i + 1));
            }
            values = self.layers[i].prop(values);
            i += 1;
        }
        proof {
            assert(self.layers@.skip(n as int) =~= Seq::<Layer>::empty());
        }
        values
    }
}

/// As many zeros as `count` says.
pub open spec fn zeros(count: nat) -> Seq<i32> {
    Seq::new(count, |k: int| 0i32)
}

/// Weights that are all zero give a sum of zero, whatever the input.
pub proof fn zero_weights_sum_to_zero(weights: Seq<i32>, input: Seq<i32>)
    requires
        forall|i: int| 0 <= i < weights.len() ==> weights[i] == 0,
    ensures
        dot(weights, input) == 0,
    decreases weights.len(),
{
    if weights.len() > 0 {
        zero_weights_sum_to_zero(weights.drop_last(), input.drop_last());
    }
}

/// A layer whose biases and weights are all zero gives a zero for each of its
/// units, whatever the input.
pub proof fn zero_layer_gives_zeros(layer: Layer, input: Seq<i32>)
    requires
        layer.is_zero(),
    ensures
        layer.output(input) == zeros(layer.neurons().len()),
{
    assert forall|k: int| 0 <= k < layer.neurons().len() implies layer.neurons()[k].output(input)
        == 0 by {
        zero_weights_sum_to_zero(layer.neurons()[k].weights(), input);
    }
    assert(layer.output(input) =~= zeros(layer.neurons().len()));
}

/// Layers whose biases and weights are all zero give a zero for each unit of
/// the last layer, whatever the input.
pub proof fn zero_layers_give_zeros(layers: Seq<Layer>, input: Seq<i32>)
    requires
        layers.len() > 0,
        forall|i: int| 0 <= i < layers.len() ==> (#[trigger] layers[i]).is_zero(),
    ensures
        propagate(layers, input) == zeros(layers.last().neurons().len()),
    decreases layers.len(),
{
    zero_layer_gives_zeros(layers[0], input);
    let rest = layers.drop_first();
    if rest.len() > 0 {
        assert forall|i: int| 0 <= i < rest.len() implies (#[trigger] rest[i]).is_zero() by {
            assert(rest[i] == layers[i + 1]);
        }
        zero_layers_give_zeros(rest, layers[0].output(input));
        assert(rest.last() == layers.last());
    } else {
        assert(layers.last() == layers[0]);
        assert(propagate(rest, layers[0].output(input)) == layers[0].output(input));
    }
}

/// A network of some shape whose weights and biases are all zero gives, for
/// any input, a zero for each unit of its last layer.
pub proof fn zero_network_gives_zeros(network: Network, topology: Seq<usize>, input: Seq<i32>)
    requires
        topology.len() >= 2,
        network.shaped(topology),
        network.is_zero(),
    ensures
        propagate(network.layers(), input) == zeros(topology.last() as nat),
{
    zero_layers_give_zeros(network.layers(), input);
}

/// The layers from the one at `start` on are chained, where the network has
/// the shape that the sizes give.
proof fn shaped_layers_are_chained(layers: Seq<Layer>, topology: Seq<usize>, start: int)
    requires
        layers.len() + 1 == topology.len(),
        0 <= start <= layers.len(),
        forall|i: int|
            0 <= i < layers.len() ==> {
                &&& (#[trigger] layers[i]).takes(topology[i] as nat)
                &&& layers[i].neurons().len() == topology[i + 1]
            },
    ensures
        chained(layers.skip(start), topology[start] as nat),
    decreases layers.len() - start,
{
    let rest = layers.skip(start);
    if start < layers.len() {
        assert(rest[0] == layers[start]);
        assert(rest.drop_first() =~= layers.skip(start + 1));
        shaped_layers_are_chained(layers, topology, start + 1);
    }
}

/// Chained layers give as many values as the last of them has units.
pub proof fn output_has_size_of_last_layer(layers: Seq<Layer>, input: Seq<i32>)
    requires
        layers.len() > 0,
    ensures
        propagate(layers, input).len() == layers.last().neurons().len(),
    decreases layers.len(),
{
    let rest = layers.drop_first();
    if rest.len() > 0 {
        output_has_size_of_last_layer(rest, layers[0].output(input));
        assert(rest.last() == layers.last());
    } else {
        assert(layers.last() == layers[0]);
        assert(propagate(rest, layers[0].output(input)) == layers[0].output(input));
    }
}

/// A network of the shape that the sizes give can be evaluated on an input of
/// the first size, and then gives as many values as the last size says.
pub proof fn output_has_last_size(network: Network, topology: Seq<usize>, input: Seq<i32>)
    requires
        topology.len() >= 2,
        network.shaped(topology),
        input.len() == topology[0],
    ensures
        network.fits(input.len()),
        network.output_size() == topology.last(),
        propagate(network.layers(), input).len() == topology.last(),
{
    shaped_layers_are_chained(network.layers(), topology, 0);
    assert(network.layers().skip(0) =~= network.layers());
    output_has_size_of_last_layer(network.layers(), input);
}

} // verus!
