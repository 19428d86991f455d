//! The candidate digest for an asset identifier: a personalised BLAKE2s hash
//! over a protocol prefix, the owner, the name, the metadata and a nonce.
use vstd::prelude::*;
use vstd::string::StringSliceAdditionalSpecFns;

use crate::encoding::append_bytes;

verus! {

/// Width of an asset identifier, and of the digest it is taken from.
pub const ASSET_ID_LENGTH: usize = 32;

/// BLAKE2s personalization that separates asset identifiers from every other
/// use of the hash in the protocol.
pub const ASSET_ID_PERSONALIZATION: &'static str = "ironf_A_";

/// BLAKE2s personalization of the hash that maps an identifier to its
/// generator point.
pub const VALUE_COMMITMENT_GENERATOR_PERSONALIZATION: &'static str = "ironf_cv";

/// First block hashed before any asset field (the same prefix that the
/// Sapling group hash uses).
pub const GH_FIRST_BLOCK: &'static str = "096b36a5804bfacef1691e173c366a47ff5ba84a44f26ddd7e8d9f79d5b42df0";

/// The BLAKE2s digest of `data` with output length `hash_length` and the
/// given personalization.
pub uninterp spec fn blake2s_personal(personal: Seq<u8>, hash_length: nat, data: Seq<u8>) -> Seq<u8>;

/// Relies on `blake2s_simd::Params::hash`, with `hash_length` and `personal`
/// set: the digest has `hash_length` bytes and depends on the personalization,
/// the length and the input alone. The two setters panic on a length outside
/// `1..=32` and on a personalization longer than 8 bytes.
#[verifier::external_body]
fn blake2s_hash(personal: &[u8], hash_length: usize, data: &[u8]) -> (r: Vec<u8>)
    requires
        1 <= hash_length <= 32,
        personal@.len() <= 8,
    ensures
        r@ == blake2s_personal(personal@, hash_length as nat, data@),
        r@.len() == hash_length,
{
    blake2s_simd::Params::new().hash_length(hash_length).personal(personal).hash(data).as_bytes().to_vec()
}

/// The bytes hashed for one candidate: prefix, owner, name, metadata, nonce.
pub open spec fn hash_preimage(owner: Seq<u8>, name: Seq<u8>, metadata: Seq<u8>, nonce: u8) -> Seq<u8> {
    GH_FIRST_BLOCK.spec_bytes() + owner + name + metadata + seq![nonce]
}

/// The candidate identifier for the given fields and nonce.
pub open spec fn candidate_digest(owner: Seq<u8>, name: Seq<u8>, metadata: Seq<u8>, nonce: u8) -> Seq<u8> {
    blake2s_personal(
        ASSET_ID_PERSONALIZATION.spec_bytes(),
        ASSET_ID_LENGTH as nat,
        hash_preimage(owner, name, metadata, nonce),
    )
}

/// The bytes hashed again to find the generator point of identifier `id`.
pub open spec fn generator_hash(id: Seq<u8>) -> Seq<u8> {
    blake2s_personal(VALUE_COMMITMENT_GENERATOR_PERSONALIZATION.spec_bytes(), ASSET_ID_LENGTH as nat, id)
}

/// Computes the candidate identifier for `owner`, `name`, `metadata` and
/// `nonce`: the personalised hash of the protocol prefix followed by the
/// fields and the nonce byte.
pub fn hash_candidate(owner: &[u8], name: &[u8], metadata: &[u8], nonce: u8) -> (r: [u8; ASSET_ID_LENGTH])
    ensures
        r@ == candidate_digest(owner@, name@, metadata@, nonce),
{
    let mut data: Vec<u8> = Vec::new();
    append_bytes(&mut data, GH_FIRST_BLOCK.as_bytes());
    append_bytes(&mut data, owner);
    append_bytes(&mut data, name);
    append_bytes(&mut data, metadata);
    data.push(nonce);
    assert(data@ =~= hash_preimage(owner@, name@, metadata@, nonce));
    let personal = ASSET_ID_PERSONALIZATION.as_bytes();
    proof {
        reveal_strlit("ironf_A_");
        vstd::string::is_ascii_spec_bytes(ASSET_ID_PERSONALIZATION);
    }
    digest_array(personal, data.as_slice())
}

/// Hashes identifier `id` with the generator personalization; the result is
/// read as the encoding of the identifier's generator point.
pub fn hash_generator(id: &[u8]) -> (r: [u8; ASSET_ID_LENGTH])
    ensures
        r@ == generator_hash(id@),
{
    let personal = VALUE_COMMITMENT_GENERATOR_PERSONALIZATION.as_bytes();
    proof {
        reveal_strlit("ironf_cv");
        vstd::string::is_ascii_spec_bytes(VALUE_COMMITMENT_GENERATOR_PERSONALIZATION);
    }
    digest_array(personal, id)
}

/// The 32-byte personalised digest of `data`, as an array.
fn digest_array(personal: &[u8], data: &[u8]) -> (r: [u8; ASSET_ID_LENGTH])
    requires
        personal@.len() <= 8,
    ensures
        r@ == blake2s_personal(personal@, ASSET_ID_LENGTH as nat, data@),
{
    let digest = blake2s_hash(personal, ASSET_ID_LENGTH, data);
    let mut out = [0u8; ASSET_ID_LENGTH];
    let mut i: usize = 0;
    while i < ASSET_ID_LENGTH
        invariant
            i <= ASSET_ID_LENGTH,
            digest@.len() == ASSET_ID_LENGTH,
            out@.len() == ASSET_ID_LENGTH,
            forall|k: int| 0 <= k < i ==> out@[k] == digest@[k],
        decreases ASSET_ID_LENGTH - i,
    {
        out.set(i, digest[i]);
        i += 1;
    }
    assert(out@ =~= digest@);
    out
}

} // verus!
