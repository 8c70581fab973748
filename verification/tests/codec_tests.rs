use drand_bls::codec::{decode_long, decode_short};
use drand_bls::errors::{DecodeFailure, PointGroup};

const PK_HEX: &str = "868f005eb8e6e4ca0a47c8a77ceaa5309a47978a7c71bc5cce96366b5d7a569937c529eeda66c7293784a9402801af31";
const SIG_HEX: &str = "a75c1b05446c28e9babb078b5e4887761a416b52a2f484bcb388be085236edacc72c69347cb533da81e01fe26f1be34708855b48171280c6660e2eb736abe214740ce696042879f01ba5613808a041b54a80a43dadb5a6be8ed580be7e3f546e";

#[test]
fn decode_short_accepts_valid_key() {
    let bytes = hex::decode(PK_HEX).unwrap();
    let point = decode_short(&bytes).unwrap();
    assert_eq!(point.encode(), bytes);
}

#[test]
fn decode_short_wrong_length() {
    let bytes = hex::decode(&PK_HEX[..PK_HEX.len() - 2]).unwrap();
    let err = decode_short(&bytes).unwrap_err();
    assert_eq!(err.group, PointGroup::Short);
    match err.reason {
        DecodeFailure::WrongLength { expected, actual } => {
            assert_eq!(expected, 48);
            assert_eq!(actual, 47);
        }
        other => panic!("unexpected reason: {:?}", other),
    }
}

#[test]
fn decode_short_empty_input() {
    let err = decode_short(&Vec::new()).unwrap_err();
    assert_eq!(err.group, PointGroup::Short);
    match err.reason {
        DecodeFailure::WrongLength { expected, actual } => {
            assert_eq!(expected, 48);
            assert_eq!(actual, 0);
        }
        other => panic!("unexpected reason: {:?}", other),
    }
}

#[test]
fn decode_long_accepts_valid_signature() {
    let bytes = hex::decode(SIG_HEX).unwrap();
    let point = decode_long(&bytes).unwrap();
    assert_eq!(point.encode(), bytes);
}

#[test]
fn decode_long_wrong_length() {
    let bytes = hex::decode(&SIG_HEX[..SIG_HEX.len() - 2]).unwrap();
    let err = decode_long(&bytes).unwrap_err();
    assert_eq!(err.group, PointGroup::Long);
    match err.reason {
        DecodeFailure::WrongLength { expected, actual } => {
            assert_eq!(expected, 96);
            assert_eq!(actual, 95);
        }
        other => panic!("unexpected reason: {:?}", other),
    }
}

#[test]
fn decode_long_rejects_short_group_length() {
    let bytes = hex::decode(PK_HEX).unwrap();
    let err = decode_long(&bytes).unwrap_err();
    assert_eq!(err.group, PointGroup::Long);
    match err.reason {
        DecodeFailure::WrongLength { expected, actual } => {
            assert_eq!(expected, 96);
            assert_eq!(actual, 48);
        }
        other => panic!("unexpected reason: {:?}", other),
    }
}

#[test]
fn round_trip_short() {
    let bytes = hex::decode(PK_HEX).unwrap();
    let point = decode_short(&bytes).unwrap();
    let reencoded = point.encode();
    assert_eq!(reencoded, bytes);
    let again = decode_short(&reencoded).unwrap();
    assert_eq!(again, point);
}

#[test]
fn round_trip_long() {
    let bytes = hex::decode(SIG_HEX).unwrap();
    let point = decode_long(&bytes).unwrap();
    let reencoded = point.encode();
    assert_eq!(reencoded, bytes);
    let again = decode_long(&reencoded).unwrap();
    assert_eq!(again, point);
}

/// Builds a 48-byte compressed encoding whose x coordinate is the small
/// integer k (compression flag set, sign flag clear).
fn short_candidate(k: u8) -> Vec<u8> {
    let mut bytes = vec![0u8; 48];
    bytes[0] = 0x80;
    bytes[47] = k;
    bytes
}

#[test]
fn decode_short_rejects_on_curve_outside_subgroup() {
    // Search small x coordinates for encodings that decompress to a curve
    // point (the unchecked decoder accepts them) but fail the full check:
    // such points lie on the curve yet outside the prime-order subgroup.
    let mut found = 0u32;
    for k in 0..=255u8 {
        let bytes = short_candidate(k);
        let mut fixed = [0u8; 48];
        fixed.copy_from_slice(&bytes);
        let on_curve = drand_verify::g1_from_fixed_unchecked(fixed).is_ok();
        let fully_valid = drand_verify::g1_from_fixed(fixed).is_ok();
        if on_curve && !fully_valid {
            found += 1;
            let err = decode_short(&bytes).unwrap_err();
            assert_eq!(err.group, PointGroup::Short);
            match err.reason {
                DecodeFailure::InvalidEncoding { .. } => {}
                other => panic!("unexpected reason: {:?}", other),
            }
        }
    }
    assert!(found > 0, "no on-curve non-subgroup candidate found");
}

/// Builds a 96-byte compressed encoding whose x coordinate has the small
/// integer k as a component.
fn long_candidate(k: u8) -> Vec<u8> {
    let mut bytes = vec![0u8; 96];
    bytes[0] = 0x80;
    bytes[95] = k;
    bytes
}

#[test]
fn decode_long_rejects_on_curve_outside_subgroup() {
    let mut found = 0u32;
    for k in 0..=255u8 {
        let bytes = long_candidate(k);
        let mut fixed = [0u8; 96];
        fixed.copy_from_slice(&bytes);
        let on_curve = drand_verify::g2_from_fixed_unchecked(fixed).is_ok();
        let fully_valid = drand_verify::g2_from_fixed(fixed).is_ok();
        if on_curve && !fully_valid {
            found += 1;
            let err = decode_long(&bytes).unwrap_err();
            assert_eq!(err.group, PointGroup::Long);
            match err.reason {
                DecodeFailure::InvalidEncoding { .. } => {}
                other => panic!("unexpected reason: {:?}", other),
            }
        }
    }
    assert!(found > 0, "no on-curve non-subgroup candidate found");
}

#[test]
fn decode_short_rejects_bad_flags() {
    // Compression flag cleared: not a compressed encoding.
    let mut bytes = hex::decode(PK_HEX).unwrap();
    bytes[0] &= 0x7f;
    let err = decode_short(&bytes).unwrap_err();
    assert_eq!(err.group, PointGroup::Short);
    assert!(matches!(err.reason, DecodeFailure::InvalidEncoding { .. }));
}
