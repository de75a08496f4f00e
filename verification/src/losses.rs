//! Dimensions that a loss function accepts.

use vstd::prelude::*;

verus! {

/// Why a loss cannot be computed.
#[derive(Debug, Clone, Copy, PartialEq, Eq, Structural)]
pub enum LossFnError {
    /// The output has `given_output_size` values, the expected output
    /// `expected_output_size`.
    OutputSizeMismatch { given_output_size: usize, expected_output_size: usize },
}

/// What comparing the length of an output with the length of the expected
/// output yields: the two must be equal, and the error names both.
pub open spec fn size_check(
    output_size: usize,
    expected_output_size: usize,
) -> Result<(), LossFnError> {
    if output_size == expected_output_size {
        Ok(())
    } else {
        Err(
            LossFnError::OutputSizeMismatch {
                given_output_size: output_size,
                expected_output_size,
            },
        )
    }
}

/// Validates the length of an output against the length of the expected
/// output, before a loss or its gradient is computed from the two.
pub fn check_sizes(output_size: usize, expected_output_size: usize) -> (r: Result<(), LossFnError>)
    ensures
        r == size_check(output_size, expected_output_size),
        r is Ok <==> output_size == expected_output_size,
{
    if output_size != expected_output_size {
        return Err(
            LossFnError::OutputSizeMismatch {
                given_output_size: output_size,
                expected_output_size,
            },
        );
    }
    Ok(())
}

} // verus!
