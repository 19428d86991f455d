//! Derivation, validation and binary encoding of asset identities for a
//! shielded-transaction network.
//!
//! An asset is named by its owner, a name and a metadata field. Its
//! identifier is a personalised BLAKE2s digest of those fields and a one-byte
//! nonce; the nonce is searched upward from zero until the digest, hashed once
//! more, decodes to a point of the Jubjub curve that is not of small order, so
//! that the identifier yields generators for value commitments.
use vstd::prelude::*;

pub mod asset;
pub mod encoding;
pub mod errors;
pub mod hashing;
pub mod identifier;

verus! {

} // verus!
