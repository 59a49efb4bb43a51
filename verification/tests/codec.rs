use neon_core::numbits::{decode_small, encode_small, NAN_BITS, SMALL_LIMIT};
use neon_core::text::to_decimal;

#[test]
fn encode_matches_the_ieee_bit_patterns() {
    let samples: [u64; 12] = [
        0,
        1,
        2,
        3,
        5,
        10,
        1023,
        1024,
        4096,
        123456789,
        1048577,
        SMALL_LIMIT - 1,
    ];
    for n in samples {
        assert_eq!(encode_small(n), (n as f64).to_bits());
    }
}

#[test]
fn decode_inverts_encode() {
    let samples: [u64; 8] = [0, 1, 2, 7, 10, 65535, 123456789, SMALL_LIMIT - 1];
    for n in samples {
        assert_eq!(decode_small(encode_small(n)), Some(n));
    }
}

#[test]
fn decode_matches_the_ieee_bit_patterns() {
    assert_eq!(decode_small(2.0f64.to_bits()), Some(2));
    assert_eq!(decode_small(0.0f64.to_bits()), Some(0));
    assert_eq!(decode_small(5.0f64.to_bits()), Some(5));
}

#[test]
fn decode_rejects_what_is_not_a_small_integer() {
    assert_eq!(decode_small(2.5f64.to_bits()), None);
    assert_eq!(decode_small((-1.0f64).to_bits()), None);
    assert_eq!(decode_small((-0.0f64).to_bits()), None);
    assert_eq!(decode_small(f64::NAN.to_bits()), None);
    assert_eq!(decode_small(NAN_BITS), None);
    assert_eq!(decode_small(f64::INFINITY.to_bits()), None);
    assert_eq!(decode_small((SMALL_LIMIT as f64).to_bits()), None);
    assert_eq!(decode_small(0.5f64.to_bits()), None);
    assert_eq!(decode_small(f64::MIN_POSITIVE.to_bits()), None);
}

#[test]
fn nan_bits_denote_a_quiet_nan() {
    assert!(f64::from_bits(NAN_BITS).is_nan());
}

#[test]
fn decimal_rendering_is_exact() {
    assert_eq!(to_decimal(0), "0");
    assert_eq!(to_decimal(7), "7");
    assert_eq!(to_decimal(10), "10");
    assert_eq!(to_decimal(65535), "65535");
    assert_eq!(to_decimal(1048577), "1048577");
    assert_eq!(to_decimal(1000000), "1000000");
    assert_eq!(to_decimal(u64::MAX), "18446744073709551615");
}
