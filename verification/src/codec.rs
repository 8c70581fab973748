use vstd::prelude::*;

use crate::errors::{DecodeFailure, InvalidPointError, PointGroup};

verus! {

/// Compressed encoding length of a short-group point.
pub const SHORT_POINT_LEN: usize = 48;

/// Compressed encoding length of a long-group point.
pub const LONG_POINT_LEN: usize = 96;

/// Whether the 48 bytes are the canonical compressed encoding of a point of
/// the short group's prime-order subgroup. Whatever decodes — on the curve,
/// in the subgroup, flags and coordinate canonical — satisfies this; nothing
/// else does.
pub uninterp spec fn g1_decodes(b: Seq<u8>) -> bool;

/// Whether the 96 bytes are the canonical compressed encoding of a point of
/// the long group's prime-order subgroup.
pub uninterp spec fn g2_decodes(b: Seq<u8>) -> bool;

/// A well-formed short-group encoding: right length and decodable.
pub open spec fn short_ok(b: Seq<u8>) -> bool {
    b.len() == SHORT_POINT_LEN && g1_decodes(b)
}

/// A well-formed long-group encoding: right length and decodable.
pub open spec fn long_ok(b: Seq<u8>) -> bool {
    b.len() == LONG_POINT_LEN && g2_decodes(b)
}

/// A point of the short group, held as its canonical compressed encoding.
/// Values are only constructed from byte strings that passed the full
/// decoding check (curve equation and subgroup membership included).
#[derive(Clone, Debug, PartialEq, Eq)]
pub struct ShortPoint {
    pub(crate) bytes: Vec<u8>,
}

/// A point of the long group, held as its canonical compressed encoding.
#[derive(Clone, Debug, PartialEq, Eq)]
pub struct LongPoint {
    pub(crate) bytes: Vec<u8>,
}

impl View for ShortPoint {
    type V = Seq<u8>;

    closed spec fn view(&self) -> Seq<u8> {
        self.bytes@
    }
}

impl View for LongPoint {
    type V = Seq<u8>;

    closed spec fn view(&self) -> Seq<u8> {
        self.bytes@
    }
}

/// Relies on drand_verify::g1_from_variable: it returns Ok exactly on the
/// 48-byte canonical compressed encodings of points of the short group's
/// prime-order subgroup (wrong length, bad flag bits, an out-of-range
/// coordinate, an off-curve coordinate, and a point outside the subgroup are
/// each rejected). The result depends on the bytes alone.
#[verifier::external_body]
fn g1_validate(b: &[u8]) -> (r: Result<(), String>)
    ensures
        r is Ok <==> g1_decodes(b@),
{
    match drand_verify::g1_from_variable(b) {
        Ok(_point) => Ok(()),
        Err(err) => Err(err.to_string()),
    }
}

/// Relies on drand_verify::g2_from_variable: the same acceptance condition as
/// g1_from_variable, for the 96-byte encodings of the long group.
#[verifier::external_body]
fn g2_validate(b: &[u8]) -> (r: Result<(), String>)
    ensures
        r is Ok <==> g2_decodes(b@),
{
    match drand_verify::g2_from_variable(b) {
        Ok(_point) => Ok(()),
        Err(err) => Err(err.to_string()),
    }
}

/// Byte-for-byte copy of a byte vector.
pub(crate) fn copy_bytes(src: &Vec<u8>) -> (r: Vec<u8>)
    ensures
        r@ == src@,
{
    let mut out: Vec<u8> = Vec::new();
    let mut i: usize = 0;
    while i < src.len()
        invariant
            i <= src@.len(),
            out@ == src@.subrange(0, i as int),
        decreases src@.len() - i,
    {
        out.push(src[i]);
        i = i + 1;
    }
    proof {
        assert(out@ =~= src@);
    }
    out
}

/// Decodes an untrusted byte string as a short-group point. Returns the point
/// exactly when the input is the canonical compressed encoding of a point of
/// the prime-order subgroup; otherwise reports how the input was malformed.
pub fn decode_short(b: &Vec<u8>) -> (r: Result<ShortPoint, InvalidPointError>)
    ensures
        r is Ok <==> short_ok(b@),
        r matches Ok(p) ==> p@ == b@ && p.wf(),
        b@.len() != SHORT_POINT_LEN ==> (r matches Err(e)
            && e.group == PointGroup::Short
            && (e.reason matches DecodeFailure::WrongLength { expected, actual }
                && expected == SHORT_POINT_LEN && actual == b@.len())),
        b@.len() == SHORT_POINT_LEN && !g1_decodes(b@) ==> (r matches Err(e)
            && e.group == PointGroup::Short
            && (e.reason matches DecodeFailure::InvalidEncoding { .. })),
{
    if b.len() != SHORT_POINT_LEN {
        return Err(InvalidPointError {
            group: PointGroup::Short,
            reason: DecodeFailure::WrongLength { expected: SHORT_POINT_LEN, actual: b.len() },
        });
    }
    match g1_validate(b.as_slice()) {
        Ok(()) => Ok(ShortPoint { bytes: copy_bytes(b) }),
        Err(detail) => Err(InvalidPointError {
            group: PointGroup::Short,
            reason: DecodeFailure::InvalidEncoding { detail },
        }),
    }
}

/// Decodes an untrusted byte string as a long-group point, under the same
/// contract as decode_short for the long group's encoding.
pub fn decode_long(b: &Vec<u8>) -> (r: Result<LongPoint, InvalidPointError>)
    ensures
        r is Ok <==> long_ok(b@),
        r matches Ok(p) ==> p@ == b@ && p.wf(),
        b@.len() != LONG_POINT_LEN ==> (r matches Err(e)
            && e.group == PointGroup::Long
            && (e.reason matches DecodeFailure::WrongLength { expected, actual }
                && expected == LONG_POINT_LEN && actual == b@.len())),
        b@.len() == LONG_POINT_LEN && !g2_decodes(b@) ==> (r matches Err(e)
            && e.group == PointGroup::Long
            && (e.reason matches DecodeFailure::InvalidEncoding { .. })),
{
    if b.len() != LONG_POINT_LEN {
        return Err(InvalidPointError {
            group: PointGroup::Long,
            reason: DecodeFailure::WrongLength { expected: LONG_POINT_LEN, actual: b.len() },
        });
    }
    match g2_validate(b.as_slice()) {
        Ok(()) => Ok(LongPoint { bytes: copy_bytes(b) }),
        Err(detail) => Err(InvalidPointError {
            group: PointGroup::Long,
            reason: DecodeFailure::InvalidEncoding { detail },
        }),
    }
}

impl ShortPoint {
    /// A value of this type always carries a well-formed encoding.
    pub open spec fn wf(&self) -> bool {
        short_ok(self@)
    }

    /// The canonical compressed encoding of the point, byte for byte as the
    /// decoder accepted it.
    pub fn encode(&self) -> (r: Vec<u8>)
        ensures
            r@ == self@,
    {
        copy_bytes(&self.bytes)
    }

    /// The held bytes, for the crate's own pairing calls.
    pub(crate) fn bytes_slice(&self) -> (r: &[u8])
        ensures
            r@ == self@,
    {
        self.bytes.as_slice()
    }
}

impl LongPoint {
    /// A value of this type always carries a well-formed encoding.
    pub open spec fn wf(&self) -> bool {
        long_ok(self@)
    }

    /// The canonical compressed encoding of the point.
    pub fn encode(&self) -> (r: Vec<u8>)
        ensures
            r@ == self@,
    {
        copy_bytes(&self.bytes)
    }

    /// The held bytes, for the crate's own pairing calls.
    pub(crate) fn bytes_slice(&self) -> (r: &[u8])
        ensures
            r@ == self@,
    {
        self.bytes.as_slice()
    }
}

/// Canonical-encoding law, short group: the encoding of a well-formed point
/// is accepted by the decoder, and decode_short's contract then pins the
/// decoded point's encoding to these same bytes, so decoding an encoding
/// gives the point back.
pub proof fn lemma_short_round_trip(p: ShortPoint)
    requires
        p.wf(),
    ensures
        short_ok(p@),
{
}

/// Canonical-encoding law, long group.
pub proof fn lemma_long_round_trip(p: LongPoint)
    requires
        p.wf(),
    ensures
        long_ok(p@),
{
}

} // verus!
