//! Dimensions of a network: a chain of layers.

use vstd::prelude::*;

use crate::losses::LossFnError;
use crate::network::layer::LayerError;

pub mod layer;

verus! {

/// Why a network cannot be built, evaluated or trained.
#[derive(Debug, Clone, Copy, PartialEq, Eq, Structural)]
pub enum NetworkError {
    /// Only this many layer sizes were given; an input size and an output
    /// size are the least a network needs.
    TooFewLayers(usize),
    /// The layer size at this index is zero.
    ZeroLayerSize(usize),
    /// A layer refused its dimensions or its input.
    LayerError(LayerError),
    /// A loss function refused its arguments.
    LossFnError(LossFnError),
}

impl From<LayerError> for NetworkError {
    fn from(error: LayerError) -> (r: NetworkError) {
        NetworkError::LayerError(error)
    }
}

impl vstd::std_specs::convert::FromSpecImpl<LayerError> for NetworkError {
    open spec fn obeys_from_spec() -> bool {
        true
    }

    open spec fn from_spec(error: LayerError) -> NetworkError {
        NetworkError::LayerError(error)
    }
}

impl From<LossFnError> for NetworkError {
    fn from(error: LossFnError) -> (r: NetworkError) {
        NetworkError::LossFnError(error)
    }
}

impl vstd::std_specs::convert::FromSpecImpl<LossFnError> for NetworkError {
    open spec fn obeys_from_spec() -> bool {
        true
    }

    open spec fn from_spec(error: LossFnError) -> NetworkError {
        NetworkError::LossFnError(error)
    }
}

/// A list of layer sizes describes a network when it holds at least two
/// sizes and none of them is zero.
pub open spec fn valid_layer_sizes(sizes: Seq<usize>) -> bool {
    &&& sizes.len() >= 2
    &&& forall|i: int| 0 <= i < sizes.len() ==> sizes[i] > 0
}

/// `index` is the place of the first zero among `sizes`.
pub open spec fn is_first_zero(sizes: Seq<usize>, index: int) -> bool {
    &&& 0 <= index < sizes.len()
    &&& sizes[index] == 0
    &&& forall|j: int| 0 <= j < index ==> sizes[j] != 0
}

/// Validates a list of layer sizes. A list that is too short is reported as
/// such, whatever it holds; otherwise the first zero is reported by its
/// index.
pub fn check_layer_sizes(layer_sizes: &[usize]) -> (r: Result<(), NetworkError>)
    ensures
        r is Ok <==> valid_layer_sizes(layer_sizes@),
        match r {
            Ok(_) => valid_layer_sizes(layer_sizes@),
            Err(NetworkError::TooFewLayers(given)) => {
                &&& layer_sizes@.len() < 2
                &&& given == layer_sizes@.len()
            },
            Err(NetworkError::ZeroLayerSize(index)) => {
                &&& layer_sizes@.len() >= 2
                &&& is_first_zero(layer_sizes@, index as int)
            },
            Err(_) => false,
        },
{
    if layer_sizes.len() < 2 {
        return Err(NetworkError::TooFewLayers(layer_sizes.len()));
    }
    let mut index: usize = 0;
    while index < layer_sizes.len()
        invariant
            2 <= layer_sizes@.len(),
            index <= layer_sizes@.len(),
            forall|j: int| 0 <= j < index ==> layer_sizes@[j] != 0,
        decreases layer_sizes@.len() - index,
    {
        if layer_sizes[index] == 0 {
            return Err(NetworkError::ZeroLayerSize(index));
        }
        index += 1;
    }
    Ok(())
}

/// The dimensions of the layers that a list of sizes describes, in order:
/// every two neighbouring sizes are the input size and the output size of
/// one layer. A list of fewer than two sizes describes no layer.
pub open spec fn layer_dimensions(sizes: Seq<usize>) -> Seq<(usize, usize)> {
    if sizes.len() < 2 {
        Seq::empty()
    } else {
        Seq::new((sizes.len() - 1) as nat, |i: int| (sizes[i], sizes[i + 1]))
    }
}

/// `layers` may be what `constructor` gave for the first dimensions of
/// `dimensions`, called once for each in order, every call a success.
pub open spec fn built_by<L, F: Fn(usize, usize) -> Result<L, LayerError>>(
    constructor: F,
    dimensions: Seq<(usize, usize)>,
    layers: Seq<L>,
) -> bool {
    &&& layers.len() <= dimensions.len()
    &&& forall|i: int|
        0 <= i < layers.len() ==> call_ensures(
            constructor,
            #[trigger] dimensions[i],
            Ok::<L, LayerError>(layers[i]),
        )
}

/// What building layers for `dimensions` with `constructor` may come to, the
/// constructor called once for each in order until one call fails: all the
/// layers where every call succeeded, else the error of the first call that
/// failed.
pub open spec fn construction<L, F: Fn(usize, usize) -> Result<L, LayerError>>(
    constructor: F,
    dimensions: Seq<(usize, usize)>,
    outcome: Result<Vec<L>, LayerError>,
) -> bool {
    match outcome {
        Ok(layers) => {
            &&& layers@.len() == dimensions.len()
            &&& built_by(constructor, dimensions, layers@)
        },
        Err(error) => exists|built: Seq<L>|
            {
                &&& built.len() < dimensions.len()
                &&& #[trigger] built_by(constructor, dimensions, built)
                &&& call_ensures(
                    constructor,
                    dimensions[built.len() as int],
                    Err::<L, LayerError>(error),
                )
            },
    }
}

/// `constructor` fails for no dimensions but those that `check_sizes` of a
/// layer refuses.
pub open spec fn refuses_only_invalid_sizes<L, F: Fn(usize, usize) -> Result<L, LayerError>>(
    constructor: F,
) -> bool {
    forall|input_size: usize, output_size: usize, error: LayerError| #[trigger]
        call_ensures(constructor, (input_size, output_size), Err::<L, LayerError>(error))
            ==> layer::size_check(input_size, output_size) is Err
}

/// Builds the layers of a network, one for every two neighbouring sizes,
/// first to last, and stops at the first layer that the constructor refuses.
///
/// The outcome is the constructor's. A list of fewer than two sizes gives no
/// layer, and no call. For a valid list of sizes, a constructor that refuses
/// only invalid dimensions is never refused.
pub fn construct_layers<L, F>(
    layer_sizes: &[usize],
    constructor: F,
) -> (r: Result<Vec<L>, LayerError>) where F: Fn(usize, usize) -> Result<L, LayerError>
    requires
        forall|i: int|
            0 <= i < layer_dimensions(layer_sizes@).len() ==> call_requires(
                constructor,
                #[trigger] layer_dimensions(layer_sizes@)[i],
            ),
    ensures
        construction(constructor, layer_dimensions(layer_sizes@), r),
        valid_layer_sizes(layer_sizes@) && refuses_only_invalid_sizes(constructor) ==> r is Ok,
{
    let mut layers: Vec<L> = Vec::new();
    if layer_sizes.len() < 2 {
        return Ok(layers);
    }
    let ghost dimensions = layer_dimensions(layer_sizes@);
    let mut index: usize = 0;
    while index < layer_sizes.len() - 1
        invariant
            2 <= layer_sizes@.len(),
            dimensions == layer_dimensions(layer_sizes@),
            index <= layer_sizes@.len() - 1,
            layers@.len() == index,
            built_by(constructor, dimensions, layers@),
            forall|i: int|
                0 <= i < dimensions.len() ==> call_requires(constructor, #[trigger] dimensions[i]),
        decreases layer_sizes@.len() - index,
    {
        assert(dimensions[index as int] == (layer_sizes@[index as int], layer_sizes@[index + 1]));
        match constructor(layer_sizes[index], layer_sizes[index + 1]) {
            Ok(layer) => {
                layers.push(layer);
            },
            Err(error) => {
                return Err(error);
            },
        }
        index += 1;
    }
    Ok(layers)
}

/// The number of values that leave a chain of layers of the given dimensions
/// when `size` values enter it. Each layer checks what it is handed against
/// its input size and hands on as many values as its output size says; the
/// first layer that refuses its input ends the pass with its error.
pub open spec fn size_through(
    dimensions: Seq<(usize, usize)>,
    size: usize,
) -> Result<usize, LayerError>
    decreases dimensions.len(),
{
    if dimensions.len() == 0 {
        Ok(size)
    } else {
        match layer::input_size_check(dimensions[0].0, size) {
            Err(error) => Err(error),
            Ok(_) => size_through(dimensions.drop_first(), dimensions[0].1),
        }
    }
}

/// Each layer but the last gives as many values as the next one takes.
pub open spec fn chained(dimensions: Seq<(usize, usize)>) -> bool {
    forall|i: int|
        0 <= i < dimensions.len() - 1 ==> (#[trigger] dimensions[i]).1 == dimensions[i + 1].0
}

/// A valid list of sizes describes one layer fewer than it has sizes, and
/// each of these layers has valid dimensions.
pub proof fn valid_sizes_describe_valid_layers(sizes: Seq<usize>)
    requires
        valid_layer_sizes(sizes),
    ensures
        layer_dimensions(sizes).len() == sizes.len() - 1,
        forall|i: int|
            0 <= i < layer_dimensions(sizes).len() ==> layer::size_check(
                (#[trigger] layer_dimensions(sizes)[i]).0,
                layer_dimensions(sizes)[i].1,
            ) is Ok,
{
}

/// The layers that a valid list of sizes describes fit one another: the
/// first takes as many values as the first size says, each gives as many as
/// the next one takes, and the last gives as many as the last size says.
pub proof fn valid_sizes_describe_a_chain(sizes: Seq<usize>)
    requires
        valid_layer_sizes(sizes),
    ensures
        layer_dimensions(sizes).first().0 == sizes.first(),
        layer_dimensions(sizes).last().1 == sizes.last(),
        chained(layer_dimensions(sizes)),
{
}

/// Values pass through a chain of at least one layer when there are as many
/// of them as the first layer takes, and as many come out as the last layer
/// gives.
proof fn lemma_chain_passes(dimensions: Seq<(usize, usize)>)
    requires
        dimensions.len() >= 1,
        chained(dimensions),
    ensures
        size_through(dimensions, dimensions.first().0) == Ok::<usize, LayerError>(
            dimensions.last().1,
        ),
    decreases dimensions.len(),
{
    let rest = dimensions.drop_first();
    if rest.len() == 0 {
        assert(size_through(rest, dimensions[0].1) == Ok::<usize, LayerError>(dimensions[0].1));
    } else {
        assert(chained(rest)) by {
            assert forall|i: int| 0 <= i < rest.len() - 1 implies (#[trigger] rest[i]).1 == rest[i
                + 1].0 by {
                assert(dimensions[i + 1].1 == dimensions[i + 2].0);
            }
        }
        lemma_chain_passes(rest);
        assert(rest.first().0 == dimensions[0].1);
        assert(rest.last() == dimensions.last());
    }
}

/// An input with as many values as the first size says passes through every
/// layer that a valid list of sizes describes, and as many values come out
/// as the last size says.
pub proof fn matching_input_passes(sizes: Seq<usize>)
    requires
        valid_layer_sizes(sizes),
    ensures
        size_through(layer_dimensions(sizes), sizes.first()) == Ok::<usize, LayerError>(
            sizes.last(),
        ),
{
    valid_sizes_describe_a_chain(sizes);
    lemma_chain_passes(layer_dimensions(sizes));
}

/// An input with any other number of values than the first size says is
/// refused by the first layer, which reports both numbers.
pub proof fn mismatched_input_is_refused(sizes: Seq<usize>, input_size: usize)
    requires
        valid_layer_sizes(sizes),
        input_size != sizes.first(),
    ensures
        size_through(layer_dimensions(sizes), input_size) == Err::<usize, LayerError>(
            LayerError::InputSizeMismatch {
                layer_input_size: sizes.first(),
                given_input_size: input_size,
            },
        ),
{
}

} // verus!
