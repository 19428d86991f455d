//! Assets: owner, name, metadata and the smallest nonce whose digest is a
//! valid identifier; their search, accessors and fixed-width binary form.
use vstd::prelude::*;
use vstd::string::StringSliceAdditionalSpecFns;
use vstd::utf8::encode_utf8;

use crate::encoding::{append_bytes, fixed_width, str_to_array};
use crate::errors::IronfishError;
use crate::hashing::{candidate_digest, generator_hash, hash_candidate, ASSET_ID_LENGTH};
use crate::identifier::{is_valid_asset_id, jubjub_cleared_of, jubjub_extended_of, AssetIdentifier};

verus! {

/// Width of the name field.
pub const NAME_LENGTH: usize = 32;

/// Width of the metadata field.
pub const METADATA_LENGTH: usize = 96;

/// Width of an owner's public address.
pub const PUBLIC_ADDRESS_SIZE: usize = 32;

/// Width of an encoded asset: owner, name, metadata and the nonce byte.
pub const ASSET_LENGTH: usize = NAME_LENGTH + PUBLIC_ADDRESS_SIZE + METADATA_LENGTH + 1;

/// Width of an asset identifier.
pub const ID_LENGTH: usize = ASSET_ID_LENGTH;

/// The characters of `s` without leading and trailing whitespace.
pub uninterp spec fn trim_of(s: Seq<char>) -> Seq<char>;

/// Relies on `str::trim`: the string slice without its leading and trailing
/// whitespace. It is a part of `s` (so no longer, and empty when `s` is),
/// and trimming it again leaves it as it is.
#[verifier::external_body]
fn trim(s: &str) -> (r: &str)
    ensures
        r@ == trim_of(s@),
        r@.len() <= s@.len(),
        s@.len() == 0 ==> r@.len() == 0,
        trim_of(r@) == r@,
{
    s.trim()
}

/// What an asset holds, as plain sequences.
pub struct AssetView {
    pub owner: Seq<u8>,
    pub name: Seq<u8>,
    pub metadata: Seq<u8>,
    pub nonce: u8,
    pub id: Seq<u8>,
}

/// Whether the digest for these fields and this nonce is a valid identifier.
pub open spec fn nonce_valid(owner: Seq<u8>, name: Seq<u8>, metadata: Seq<u8>, nonce: u8) -> bool {
    is_valid_asset_id(candidate_digest(owner, name, metadata, nonce))
}

/// Whether `nonce` is the smallest nonce that gives a valid identifier.
pub open spec fn is_first_valid_nonce(owner: Seq<u8>, name: Seq<u8>, metadata: Seq<u8>, nonce: u8) -> bool {
    &&& nonce_valid(owner, name, metadata, nonce)
    &&& forall|k: u8| k < nonce ==> !#[trigger] nonce_valid(owner, name, metadata, k)
}

/// The asset made of these fields and this nonce, with its derived identifier.
pub open spec fn asset_of(owner: Seq<u8>, name: Seq<u8>, metadata: Seq<u8>, nonce: u8) -> AssetView {
    AssetView { owner, name, metadata, nonce, id: candidate_digest(owner, name, metadata, nonce) }
}

/// Whether `v` describes an asset: fields of the right widths, and the
/// identifier derived from them is valid.
pub open spec fn is_asset(v: AssetView) -> bool {
    &&& v.owner.len() == PUBLIC_ADDRESS_SIZE
    &&& v.name.len() == NAME_LENGTH
    &&& v.metadata.len() == METADATA_LENGTH
    &&& v == asset_of(v.owner, v.name, v.metadata, v.nonce)
    &&& nonce_valid(v.owner, v.name, v.metadata, v.nonce)
}

/// The name field that `new` stores for `name`.
pub open spec fn name_field(name: Seq<char>) -> Seq<u8> {
    fixed_width(encode_utf8(trim_of(name)), NAME_LENGTH as nat)
}

/// The metadata field that `new` stores for `metadata`.
pub open spec fn metadata_field(metadata: Seq<u8>) -> Seq<u8> {
    fixed_width(metadata, METADATA_LENGTH as nat)
}

/// The binary form of an asset: owner, name, metadata, nonce.
pub open spec fn encode_asset(v: AssetView) -> Seq<u8> {
    v.owner + v.name + v.metadata + seq![v.nonce]
}

/// What decoding `b` gives: the fields are read from the first
/// `ASSET_LENGTH` bytes and the identifier is derived from them again.
pub open spec fn decode_asset(b: Seq<u8>) -> Result<AssetView, IronfishError> {
    if b.len() < ASSET_LENGTH {
        Err(IronfishError::TruncatedInput)
    } else {
        let name_start = PUBLIC_ADDRESS_SIZE as int;
        let metadata_start = name_start + NAME_LENGTH;
        let nonce_at = metadata_start + METADATA_LENGTH;
        let owner = b.subrange(0, name_start);
        let name = b.subrange(name_start, metadata_start);
        let metadata = b.subrange(metadata_start, nonce_at);
        let nonce = b[nonce_at];
        if nonce_valid(owner, name, metadata, nonce) {
            Ok(asset_of(owner, name, metadata, nonce))
        } else {
            Err(IronfishError::InvalidAssetIdentifier)
        }
    }
}

/// Everything needed to create and transact with an asset.
#[derive(Clone, Copy, Debug)]
pub struct Asset {
    name: [u8; NAME_LENGTH],
    metadata: [u8; METADATA_LENGTH],
    owner: [u8; PUBLIC_ADDRESS_SIZE],
    nonce: u8,
    id: AssetIdentifier,
}

impl View for Asset {
    type V = AssetView;

    closed spec fn view(&self) -> AssetView {
        AssetView {
            owner: self.owner@,
            name: self.name@,
            metadata: self.metadata@,
            nonce: self.nonce,
            id: self.id@,
        }
    }
}

/// Copies `N` bytes of `src` from `start` on into an array.
fn copy_array<const N: usize>(src: &[u8], start: usize) -> (r: [u8; N])
    requires
        start + N <= src@.len(),
    ensures
        r@ == src@.subrange(start as int, start + N),
{
    let len = src.len();
    let mut arr = [0u8; N];
    let mut i: usize = 0;
    while i < N
        invariant
            i <= N,
            len == src@.len(),
            start + N <= src@.len(),
            arr@.len() == N,
            forall|k: int| 0 <= k < i ==> arr@[k] == src@[start + k],
        decreases N - i,
    {
        arr.set(i, src[start + i]);
        i += 1;
    }
    assert(arr@ =~= src@.subrange(start as int, start + N));
    arr
}

/// Decoding the binary form of an asset gives that asset back, identifier
/// included.
pub proof fn lemma_read_write_round_trip(v: AssetView)
    requires
        is_asset(v),
    ensures
        decode_asset(encode_asset(v)) == Ok::<AssetView, IronfishError>(v),
{
    let b = encode_asset(v);
    assert(b.subrange(0, 32) =~= v.owner);
    assert(b.subrange(32, 64) =~= v.name);
    assert(b.subrange(64, 160) =~= v.metadata);
    assert(b[160] == v.nonce);
}

/// Changing any byte of an asset's binary form never decodes to that asset:
/// either decoding fails, or it gives an asset whose fields differ.
pub proof fn lemma_tampered_record_is_detected(v: AssetView, i: int, x: u8)
    requires
        is_asset(v),
        0 <= i < ASSET_LENGTH,
        x != encode_asset(v)[i],
    ensures
        decode_asset(encode_asset(v).update(i, x)) != Ok::<AssetView, IronfishError>(v),
{
    let t = encode_asset(v).update(i, x);
    if decode_asset(t) == Ok::<AssetView, IronfishError>(v) {
        lemma_read_write_round_trip(v);
        let owner = t.subrange(0, 32);
        let name = t.subrange(32, 64);
        let metadata = t.subrange(64, 160);
        assert(t =~= owner + name + metadata + seq![t[160]]);
        assert(t =~= encode_asset(v));
    }
}

/// The identifier is a function of the owner, name, metadata and nonce: two
/// assets built from the same fields carry the same identifier, and so the
/// same asset generator and value-commitment generator.
pub proof fn lemma_identifier_deterministic(
    owner: Seq<u8>,
    name: Seq<u8>,
    metadata: Seq<u8>,
    nonce: u8,
    a: AssetView,
    b: AssetView,
)
    requires
        a == asset_of(owner, name, metadata, nonce),
        b == asset_of(owner, name, metadata, nonce),
    ensures
        a.id == b.id,
        a.id == candidate_digest(owner, name, metadata, nonce),
        jubjub_extended_of(generator_hash(a.id)) == jubjub_extended_of(generator_hash(b.id)),
        jubjub_cleared_of(generator_hash(a.id)) == jubjub_cleared_of(generator_hash(b.id)),
{
}

impl Asset {
    #[verifier::type_invariant]
    spec fn inv(&self) -> bool {
        is_asset(self@)
    }

    /// Creates an asset for `owner` named `name`, with `metadata`. The name is
    /// trimmed and must not be empty; both fields are stored at fixed width.
    /// The nonce is the smallest one whose digest is a valid identifier.
    pub fn new(owner: [u8; PUBLIC_ADDRESS_SIZE], name: &str, metadata: &str) -> (r: Result<Asset, IronfishError>)
        ensures
            trim_of(name@).len() == 0 ==> r == Err::<Asset, IronfishError>(IronfishError::InvalidData),
            name@.len() == 0 ==> r == Err::<Asset, IronfishError>(IronfishError::InvalidData),
            trim_of(name@).len() > 0 ==> {
                let nm = name_field(name@);
                let md = metadata_field(metadata.spec_bytes());
                &&& (r is Ok <==> exists|n: u8| #[trigger] nonce_valid(owner@, nm, md, n))
                &&& (r is Err <==> forall|k: u8| !#[trigger] nonce_valid(owner@, nm, md, k))
                &&& r matches Ok(a) ==> a@ == asset_of(owner@, nm, md, a@.nonce)
                    && is_first_valid_nonce(owner@, nm, md, a@.nonce)
                &&& r matches Err(e) ==> e == IronfishError::RandomnessError
            },
    {
        let trimmed_name = trim(name);
        if trimmed_name.is_empty() {
            return Err(IronfishError::InvalidData);
        }
        let name_bytes: [u8; NAME_LENGTH] = str_to_array(trimmed_name);
        let metadata_bytes: [u8; METADATA_LENGTH] = str_to_array(metadata);
        let ghost nm = name_bytes@;
        let ghost md = metadata_bytes@;
        let mut nonce: u8 = 0;
        loop
            invariant
                trim_of(name@).len() != 0,
                name@.len() != 0,
                nm == name_field(name@),
                md == metadata_field(metadata.spec_bytes()),
                nm == name_bytes@,
                md == metadata_bytes@,
                forall|k: u8| k < nonce ==> !#[trigger] nonce_valid(owner@, nm, md, k),
            decreases 255 - nonce,
        {
            if let Ok(asset) = Asset::new_with_nonce(owner, name_bytes, metadata_bytes, nonce) {
                return Ok(asset);
            }
            match nonce.checked_add(1) {
                Some(next) => {
                    nonce = next;
                },
                None => {
                    assert forall|n: u8| !#[trigger] nonce_valid(owner@, nm, md, n) by {
                        if n < nonce {
                        }
                    }
                    return Err(IronfishError::RandomnessError);
                },
            }
        }
    }

    /// Creates the asset for these fields and this exact nonce, failing when
    /// its digest is not a valid identifier.
    pub fn new_with_nonce(
        owner: [u8; PUBLIC_ADDRESS_SIZE],
        name: [u8; NAME_LENGTH],
        metadata: [u8; METADATA_LENGTH],
        nonce: u8,
    ) -> (r: Result<Asset, IronfishError>)
        ensures
            r is Ok <==> nonce_valid(owner@, name@, metadata@, nonce),
            r matches Ok(a) ==> a@ == asset_of(owner@, name@, metadata@, nonce),
            r matches Err(e) ==> e == IronfishError::InvalidAssetIdentifier,
    {
        let digest = hash_candidate(owner.as_slice(), name.as_slice(), metadata.as_slice(), nonce);
        let id = AssetIdentifier::new(digest)?;
        Ok(Asset { owner, name, metadata, nonce, id })
    }

    /// The metadata field.
    pub fn metadata(&self) -> (r: &[u8])
        ensures
            r@ == self@.metadata,
    {
        self.metadata.as_slice()
    }

    /// The name field.
    pub fn name(&self) -> (r: &[u8])
        ensures
            r@ == self@.name,
    {
        self.name.as_slice()
    }

    /// The nonce the identifier was derived with.
    pub fn nonce(&self) -> (r: u8)
        ensures
            r == self@.nonce,
    {
        self.nonce
    }

    /// The owner's public address.
    pub fn owner(&self) -> (r: [u8; PUBLIC_ADDRESS_SIZE])
        ensures
            r@ == self@.owner,
    {
        self.owner
    }

    /// The identifier, derived from the other fields.
    pub fn id(&self) -> (r: &AssetIdentifier)
        ensures
            r@ == self@.id,
            is_asset(self@),
    {
        proof {
            use_type_invariant(self);
        }
        &self.id
    }

    /// The curve point that the identifier maps to.
    pub fn asset_generator(&self) -> (r: jubjub::ExtendedPoint)
        ensures
            r == jubjub_extended_of(generator_hash(self@.id)),
    {
        self.id.asset_generator()
    }

    /// The generator used for value commitments of this asset: the asset
    /// generator with its cofactor cleared.
    pub fn value_commitment_generator(&self) -> (r: jubjub::SubgroupPoint)
        ensures
            r == jubjub_cleared_of(generator_hash(self@.id)),
    {
        self.id.value_commitment_generator()
    }

    /// Decodes an asset from the first `ASSET_LENGTH` bytes of `bytes`,
    /// deriving and checking its identifier again.
    pub fn read(bytes: &[u8]) -> (r: Result<Asset, IronfishError>)
        ensures
            r is Ok <==> decode_asset(bytes@) is Ok,
            r matches Ok(a) ==> decode_asset(bytes@) == Ok::<AssetView, IronfishError>(a@),
            r matches Err(e) ==> decode_asset(bytes@) == Err::<AssetView, IronfishError>(e),
    {
        if bytes.len() < ASSET_LENGTH {
            return Err(IronfishError::TruncatedInput);
        }
        let owner: [u8; PUBLIC_ADDRESS_SIZE] = copy_array(bytes, 0);
        let name: [u8; NAME_LENGTH] = copy_array(bytes, PUBLIC_ADDRESS_SIZE);
        let metadata: [u8; METADATA_LENGTH] = copy_array(bytes, PUBLIC_ADDRESS_SIZE + NAME_LENGTH);
        let nonce = bytes[PUBLIC_ADDRESS_SIZE + NAME_LENGTH + METADATA_LENGTH];
        Asset::new_with_nonce(owner, name, metadata, nonce)
    }

    /// The binary form: owner, name, metadata, then the nonce byte.
    pub fn write(&self) -> (r: Vec<u8>)
        ensures
            r@ == encode_asset(self@),
            r@.len() == ASSET_LENGTH,
            is_asset(self@),
    {
        proof {
            use_type_invariant(self);
        }
        let mut out: Vec<u8> = Vec::new();
        append_bytes(&mut out, self.owner.as_slice());
        append_bytes(&mut out, self.name.as_slice());
        append_bytes(&mut out, self.metadata.as_slice());
        out.push(self.nonce);
        assert(out@ =~= encode_asset(self@));
        out
    }
}

} // verus!
