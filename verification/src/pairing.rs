use vstd::prelude::*;

use fff::Field;
use groupy::CurveAffine;
use paired::bls12_381::{Bls12, Fq12};
use paired::{Engine, PairingCurveAffine};

use crate::codec::{g1_decodes, g2_decodes, LongPoint, ShortPoint};

verus! {

/// Whether e(P, Q) == e(R, S) holds of the four points encoded by the four
/// byte strings, with e the bilinear pairing of the curve into its target
/// group. A deterministic function of the encodings alone.
pub uninterp spec fn pairing_equality_holds(p: Seq<u8>, q: Seq<u8>, r: Seq<u8>, s: Seq<u8>) -> bool;

/// Relies on the paired crate's Bls12 pairing (and on drand_verify's decoders
/// to rebuild the affine points from their encodings): negating P, running one
/// Miller loop over the pairs (-P, Q) and (R, S), and applying one final
/// exponentiation yields the target group's identity exactly when
/// e(P, Q) == e(R, S). A Miller-loop result with no final exponentiation
/// answers false rather than failing. The whole computation is a
/// deterministic function of the four encodings.
#[verifier::external_body]
fn pairing_equality_raw(p: &[u8], q: &[u8], r: &[u8], s: &[u8]) -> (out: bool)
    requires
        g1_decodes(p@),
        g2_decodes(q@),
        g1_decodes(r@),
        g2_decodes(s@),
    ensures
        out == pairing_equality_holds(p@, q@, r@, s@),
{
    let pa = drand_verify::g1_from_variable(p).unwrap();
    let qa = drand_verify::g2_from_variable(q).unwrap();
    let ra = drand_verify::g1_from_variable(r).unwrap();
    let sa = drand_verify::g2_from_variable(s).unwrap();
    let mut minus_pa = pa;
    minus_pa.negate();
    let pair1 = (&minus_pa.prepare(), &qa.prepare());
    let pair2 = (&ra.prepare(), &sa.prepare());
    let looped = Bls12::miller_loop([&pair1, &pair2]);
    match Bls12::final_exponentiation(&looped) {
        Some(value) => value == Fq12::one(),
        None => false,
    }
}

/// Whether e(P, Q) == e(R, S), for decoded points P, R of the short group and
/// Q, S of the long group. Pure and total over well-formed points; the
/// single shared final exponentiation makes it one pairing evaluation cheaper
/// than comparing two independent pairings.
pub fn pairing_equality(p: &ShortPoint, q: &LongPoint, r: &ShortPoint, s: &LongPoint) -> (out:
    bool)
    requires
        p.wf(),
        q.wf(),
        r.wf(),
        s.wf(),
    ensures
        out == pairing_equality_holds(p@, q@, r@, s@),
{
    pairing_equality_raw(p.bytes_slice(), q.bytes_slice(), r.bytes_slice(), s.bytes_slice())
}

} // verus!
