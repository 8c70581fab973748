use vstd::prelude::*;

use groupy::CurveAffine;
use paired::bls12_381::G1Affine;

use crate::codec;
use crate::codec::{long_ok, LongPoint, ShortPoint};
use crate::errors::{DecodeFailure, PointField, PointGroup, VerificationError};
use crate::pairing;
use crate::pairing::pairing_equality_holds;

verus! {

/// The canonical compressed encoding of the short group's standard generator,
/// the fixed base point under which public keys are read.
pub open spec fn g1_generator_enc() -> Seq<u8> {
    seq![
        0x97u8, 0xf1, 0xd3, 0xa7, 0x31, 0x97, 0xd7, 0x94, 0x26, 0x95, 0x63, 0x8c, 0x4f, 0xa9,
        0xac, 0x0f, 0xc3, 0x68, 0x8c, 0x4f, 0x97, 0x74, 0xb9, 0x05, 0xa1, 0x4e, 0x3a, 0x3f, 0x17,
        0x1b, 0xac, 0x58, 0x6c, 0x55, 0xe8, 0x3f, 0xf9, 0x7a, 0x1a, 0xef, 0xfb, 0x3a, 0xf0, 0x0a,
        0xdb, 0x22, 0xc6, 0xbb,
    ]
}

/// The BLS verification equation: e(G, signature) == e(publicKey, message),
/// with G the short group's standard generator, stated over the three
/// compressed encodings.
pub open spec fn signature_matches(pk: Seq<u8>, sig: Seq<u8>, msg: Seq<u8>) -> bool {
    pairing_equality_holds(g1_generator_enc(), sig, pk, msg)
}

/// Relies on groupy's CurveAffine::one and into_compressed for the paired
/// crate's short group: one() is the standard generator, a valid subgroup
/// point whose canonical compressed encoding into_compressed yields, so the
/// short-group decoder accepts the returned bytes.
#[verifier::external_body]
fn short_generator() -> (r: ShortPoint)
    ensures
        r@ == g1_generator_enc(),
        codec::g1_decodes(r@),
{
    let bytes = G1Affine::one().into_compressed().as_ref().to_vec();
    ShortPoint { bytes }
}

/// The verification predicate: is `signature` a valid BLS signature of the
/// message point under the public key? Decoding failure of the signature is
/// an error; a well-formed signature that does not satisfy the pairing
/// equation is the normal Ok(false) outcome, not an error.
pub fn verify(pk: &ShortPoint, signature: &Vec<u8>, msg_point: &LongPoint) -> (r: Result<
    bool,
    VerificationError,
>)
    requires
        pk.wf(),
        msg_point.wf(),
    ensures
        r is Ok <==> long_ok(signature@),
        r matches Ok(valid) ==> valid == signature_matches(pk@, signature@, msg_point@),
        r matches Err(e) ==> (e matches VerificationError::InvalidPoint { field, error }
            && field == PointField::Signature && error.group == PointGroup::Long && ((
        signature@.len() != codec::LONG_POINT_LEN) <==> (
        error.reason matches DecodeFailure::WrongLength { .. }))),
{
    let generator = short_generator();
    let sigma = match codec::decode_long(signature) {
        Ok(point) => point,
        Err(error) => {
            return Err(VerificationError::InvalidPoint { field: PointField::Signature, error });
        },
    };
    Ok(pairing::pairing_equality(&generator, &sigma, pk, msg_point))
}

} // verus!
