//! Errors of asset construction and decoding.
use vstd::prelude::*;

verus! {

/// Why an asset could not be built or decoded.
#[derive(Clone, Copy, Debug, PartialEq, Eq, Structural)]
pub enum IronfishError {
    /// The name is empty once surrounding whitespace is removed.
    InvalidData,
    /// The digest for the given nonce is not a usable curve point.
    InvalidAssetIdentifier,
    /// No nonce in `0..=255` gives a usable curve point.
    RandomnessError,
    /// The encoded asset is shorter than a full record.
    TruncatedInput,
}

} // verus!
