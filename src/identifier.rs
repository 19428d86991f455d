//! Asset identifiers: digests whose generator hash encodes a Jubjub point of
//! large order, and the two generators derived from that point.
use vstd::prelude::*;

use crate::errors::IronfishError;
use crate::hashing::{generator_hash, hash_generator, ASSET_ID_LENGTH};

verus! {

#[verifier::external_type_specification]
#[verifier::external_body]
pub struct ExAffinePoint(jubjub::AffinePoint);

#[verifier::external_type_specification]
#[verifier::external_body]
pub struct ExExtendedPoint(jubjub::ExtendedPoint);

#[verifier::external_type_specification]
#[verifier::external_body]
pub struct ExSubgroupPoint(jubjub::SubgroupPoint);

/// Whether `b` is the canonical encoding of a point of the Jubjub curve.
pub uninterp spec fn jubjub_decodes(b: Seq<u8>) -> bool;

/// Whether the Jubjub point that `b` encodes has small order, that is,
/// whether multiplying it by the cofactor gives the identity.
pub uninterp spec fn jubjub_small_order(b: Seq<u8>) -> bool;

/// The extended-coordinates form of the Jubjub point that `b` encodes.
pub uninterp spec fn jubjub_extended_of(b: Seq<u8>) -> jubjub::ExtendedPoint;

/// The Jubjub point that `b` encodes, multiplied by the cofactor: a point of
/// the prime-order subgroup.
pub uninterp spec fn jubjub_cleared_of(b: Seq<u8>) -> jubjub::SubgroupPoint;

/// A digest is a valid asset identifier when its generator hash (the digest
/// hashed once more with the generator personalization) is the encoding of a
/// curve point whose cofactor-cleared multiple is not the identity. The
/// digest itself is not read as a point: the generator hash is.
pub open spec fn is_valid_asset_id(b: Seq<u8>) -> bool {
    jubjub_decodes(generator_hash(b)) && !jubjub_small_order(generator_hash(b))
}

/// A curve point together with the bytes it was decoded from. Only
/// `decode_point` makes one, so `point` is always the point that `encoding`
/// encodes.
struct DecodedPoint {
    encoding: [u8; ASSET_ID_LENGTH],
    point: jubjub::AffinePoint,
}

/// Relies on `jubjub::AffinePoint::from_bytes`: it accepts exactly the
/// canonical encodings of curve points.
#[verifier::external_body]
fn decode_point(b: [u8; ASSET_ID_LENGTH]) -> (r: Option<DecodedPoint>)
    ensures
        r.is_some() == jubjub_decodes(b@),
        r matches Some(p) ==> p.encoding == b,
{
    let decoded: Option<jubjub::AffinePoint> = jubjub::AffinePoint::from_bytes(b).into();
    decoded.map(|point| DecodedPoint { encoding: b, point })
}

/// Relies on `jubjub::AffinePoint::is_small_order`, applied to the point that
/// `p.encoding` encodes.
#[verifier::external_body]
fn is_small_order(p: &DecodedPoint) -> (r: bool)
    ensures
        r == jubjub_small_order(p.encoding@),
{
    bool::from(p.point.is_small_order())
}

/// Relies on jubjub's `From<AffinePoint> for ExtendedPoint`, applied to the
/// point that `p.encoding` encodes.
#[verifier::external_body]
fn to_extended(p: &DecodedPoint) -> (r: jubjub::ExtendedPoint)
    ensures
        r == jubjub_extended_of(p.encoding@),
{
    jubjub::ExtendedPoint::from(p.point)
}

/// Relies on `group::cofactor::CofactorGroup::clear_cofactor` for jubjub's
/// `ExtendedPoint` (reached through `From<AffinePoint>`): the point that
/// `p.encoding` encodes times the cofactor, as a subgroup point.
#[verifier::external_body]
fn clear_cofactor(p: &DecodedPoint) -> (r: jubjub::SubgroupPoint)
    ensures
        r == jubjub_cleared_of(p.encoding@),
{
    group::cofactor::CofactorGroup::clear_cofactor(&jubjub::ExtendedPoint::from(p.point))
}

/// A 32-byte digest whose generator hash encodes a Jubjub point of large
/// order.
#[derive(Clone, Copy, Debug)]
pub struct AssetIdentifier {
    bytes: [u8; ASSET_ID_LENGTH],
}

impl View for AssetIdentifier {
    type V = Seq<u8>;

    closed spec fn view(&self) -> Seq<u8> {
        self.bytes@
    }
}

impl AssetIdentifier {
    #[verifier::type_invariant]
    spec fn inv(&self) -> bool {
        is_valid_asset_id(self.bytes@)
    }

    /// Accepts `bytes` as an identifier when their generator hash encodes a
    /// curve point whose cofactor-cleared multiple is not the identity.
    pub fn new(bytes: [u8; ASSET_ID_LENGTH]) -> (r: Result<AssetIdentifier, IronfishError>)
        ensures
            r is Ok <==> is_valid_asset_id(bytes@),
            r matches Ok(id) ==> id@ == bytes@,
            r matches Err(e) ==> e == IronfishError::InvalidAssetIdentifier,
    {
        match decode_point(hash_generator(bytes.as_slice())) {
            Some(p) => {
                if is_small_order(&p) {
                    Err(IronfishError::InvalidAssetIdentifier)
                } else {
                    Ok(AssetIdentifier { bytes })
                }
            },
            None => Err(IronfishError::InvalidAssetIdentifier),
        }
    }

    /// The digest, which is always a valid identifier.
    pub fn as_bytes(&self) -> (r: &[u8; ASSET_ID_LENGTH])
        ensures
            r@ == self@,
            is_valid_asset_id(self@),
    {
        proof {
            use_type_invariant(self);
        }
        &self.bytes
    }

    /// The curve point that the generator hash of the digest encodes.
    pub fn asset_generator(&self) -> (r: jubjub::ExtendedPoint)
        ensures
            r == jubjub_extended_of(generator_hash(self@)),
    {
        proof {
            use_type_invariant(self);
        }
        let p = decode_point(hash_generator(self.bytes.as_slice())).unwrap();
        to_extended(&p)
    }

    /// The asset generator multiplied by the cofactor: a point of the
    /// prime-order subgroup.
    pub fn value_commitment_generator(&self) -> (r: jubjub::SubgroupPoint)
        ensures
            r == jubjub_cleared_of(generator_hash(self@)),
    {
        proof {
            use_type_invariant(self);
        }
        let p = decode_point(hash_generator(self.bytes.as_slice())).unwrap();
        clear_cofactor(&p)
    }
}

impl PartialEq for AssetIdentifier {
    /// Two identifiers are equal when their digests are.
    fn eq(&self, other: &AssetIdentifier) -> (r: bool)
        ensures
            r == (self@ == other@),
    {
        let mut i: usize = 0;
        while i < ASSET_ID_LENGTH
            invariant
                i <= ASSET_ID_LENGTH,
                self.bytes@.len() == ASSET_ID_LENGTH,
                other.bytes@.len() == ASSET_ID_LENGTH,
                forall|k: int| 0 <= k < i ==> self.bytes@[k] == other.bytes@[k],
            decreases ASSET_ID_LENGTH - i,
        {
            if self.bytes[i] != other.bytes[i] {
                return false;
            }
            i += 1;
        }
        assert(self.bytes@ =~= other.bytes@);
        true
    }
}

impl vstd::std_specs::cmp::PartialEqSpecImpl for AssetIdentifier {
    open spec fn obeys_eq_spec() -> bool {
        true
    }

    open spec fn eq_spec(&self, other: &AssetIdentifier) -> bool {
        self@ == other@
    }
}

impl Eq for AssetIdentifier {
}

} // verus!
