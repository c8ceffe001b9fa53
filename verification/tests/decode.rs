use mma7660fc::decode_sample;
use mma7660fc::encode_sample;

#[test]
fn scenario_raw_1f_decodes_31() {
    assert_eq!(decode_sample(0x1f), 31);
}

#[test]
fn scenario_raw_20_decodes_neg_32() {
    assert_eq!(decode_sample(0x20), -32);
}

#[test]
fn scenario_raw_ff_decodes_neg_1() {
    assert_eq!(decode_sample(0xff), -1);
}

#[test]
fn decode_zero_is_zero() {
    assert_eq!(decode_sample(0x00), 0);
}

#[test]
fn decode_range_all_bytes() {
    for b in 0..=255u8 {
        let v = decode_sample(b);
        assert!((-32..=31).contains(&v));
    }
}

#[test]
fn decode_ignores_high_status_bits() {
    for b in 0..=255u8 {
        assert_eq!(decode_sample(b), decode_sample(b & 0x3f));
    }
}

#[test]
fn decode_is_bijective_on_masked_bytes() {
    let mut seen = [false; 64];
    for m in 0..64u8 {
        let v = decode_sample(m);
        let slot = (v as i16 + 32) as usize;
        assert!(!seen[slot], "two masked bytes decode to the same value");
        seen[slot] = true;
    }
    assert!(seen.iter().all(|&s| s), "some value in -32..=31 is never hit");
}

#[test]
fn round_trip_value_to_byte_and_back() {
    for v in -32..=31i8 {
        let m = encode_sample(v);
        assert!(m < 64);
        assert_eq!(decode_sample(m), v);
    }
}

#[test]
fn round_trip_byte_to_value_and_back() {
    for m in 0..64u8 {
        assert_eq!(encode_sample(decode_sample(m)), m);
    }
}
