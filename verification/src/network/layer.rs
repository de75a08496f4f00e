//! Dimensions of a single layer.

use vstd::prelude::*;

verus! {

/// Why a layer cannot be built, or cannot take an input.
#[derive(Debug, Clone, Copy, PartialEq, Eq, Structural)]
pub enum LayerError {
    /// A layer that takes `layer_input_size` values was handed
    /// `given_input_size` of them.
    InputSizeMismatch { layer_input_size: usize, given_input_size: usize },
    /// A layer was asked for that takes no values.
    ZeroInputSize,
    /// A layer was asked for that gives no values.
    ZeroOutputSize,
}

/// What validating the dimensions of a layer yields: a layer takes at least
/// one value and gives at least one. Where both sizes are zero, the input
/// size is the one reported.
pub open spec fn size_check(input_size: usize, output_size: usize) -> Result<(), LayerError> {
    if input_size == 0 {
        Err(LayerError::ZeroInputSize)
    } else if output_size == 0 {
        Err(LayerError::ZeroOutputSize)
    } else {
        Ok(())
    }
}

/// What handing `given_input_size` values to a layer that takes
/// `layer_input_size` yields: the two must be equal, and the error names both.
pub open spec fn input_size_check(
    layer_input_size: usize,
    given_input_size: usize,
) -> Result<(), LayerError> {
    if layer_input_size == given_input_size {
        Ok(())
    } else {
        Err(LayerError::InputSizeMismatch { layer_input_size, given_input_size })
    }
}

/// Validates the dimensions of a layer before it is built.
pub fn check_sizes(input_size: usize, output_size: usize) -> (r: Result<(), LayerError>)
    ensures
        r == size_check(input_size, output_size),
        r is Ok <==> input_size > 0 && output_size > 0,
{
    if input_size == 0 {
        return Err(LayerError::ZeroInputSize);
    }
    if output_size == 0 {
        return Err(LayerError::ZeroOutputSize);
    }
    Ok(())
}

/// Validates the length of an input against the input size of a layer.
pub fn check_input_size(
    layer_input_size: usize,
    given_input_size: usize,
) -> (r: Result<(), LayerError>)
    ensures
        r == input_size_check(layer_input_size, given_input_size),
        r is Ok <==> layer_input_size == given_input_size,
{
    if layer_input_size != given_input_size {
        return Err(LayerError::InputSizeMismatch { layer_input_size, given_input_size });
    }
    Ok(())
}

} // verus!
