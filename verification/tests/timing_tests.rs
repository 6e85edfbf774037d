use vl53l0x::timing::calc_macro_period;
use vl53l0x::timing::decode_timeout;
use vl53l0x::timing::decode_vcsel_period;
use vl53l0x::timing::encode_timeout;
use vl53l0x::timing::encode_vcsel_period;
use vl53l0x::timing::timeout_mclks_to_microseconds;
use vl53l0x::timing::timeout_microseconds_to_mclks;

#[test]
fn decode_timeout_values() {
    // mantissa with zero exponent: ticks = mantissa + 1
    assert_eq!(decode_timeout(0x0096), 151);
    assert_eq!(decode_timeout(0x0000), 1);
    assert_eq!(decode_timeout(0x00FF), 256);
    // exponent shifts the mantissa
    assert_eq!(decode_timeout(0x01FE), 509);
    assert_eq!(decode_timeout(0x028D), 565);
    assert_eq!(decode_timeout(0x08FF), 0xFF01);
}

#[test]
fn encode_timeout_values() {
    assert_eq!(encode_timeout(0), 0);
    assert_eq!(encode_timeout(1), 0x0000);
    assert_eq!(encode_timeout(256), 0x00FF);
    assert_eq!(encode_timeout(568), 0x028D);
    assert_eq!(encode_timeout(0xFF01), 0x08FF);
}

#[test]
fn timeout_round_trip_on_representable_ticks() {
    // every tick count in the image of the decoder survives the round
    // trip; ranging over all register values ranges over exactly those
    for raw in 0..=0xFFFFu32 {
        let ticks = decode_timeout(raw as u16);
        assert_eq!(decode_timeout(encode_timeout(ticks)), ticks);
    }
}

#[test]
fn timeout_zero_is_the_exception() {
    // zero ticks encodes to zero, but the zero register value decodes
    // to one tick, so zero itself is not recovered
    assert_eq!(encode_timeout(0), 0);
    assert_eq!(decode_timeout(encode_timeout(0)), 1);
}

#[test]
fn macro_period_matches_the_literal_formula() {
    // the fixed empirical clock-model constant, spelled out
    assert_eq!(calc_macro_period(14), (2304u32 * 14 * 1655 + 500) / 1000);
    assert_eq!(calc_macro_period(14), 53384);
    assert_eq!(calc_macro_period(10), 38131);
    assert_eq!(calc_macro_period(0), 0);
    assert_eq!(calc_macro_period(255), 972346);
}

#[test]
fn mclks_to_microseconds_values() {
    assert_eq!(timeout_mclks_to_microseconds(151, 14), 8087);
    assert_eq!(timeout_mclks_to_microseconds(358, 10), 13669);
    assert_eq!(timeout_mclks_to_microseconds(6, 14), 346);
    assert_eq!(timeout_mclks_to_microseconds(0, 14), 26);
}

#[test]
fn microseconds_to_mclks_values() {
    assert_eq!(timeout_microseconds_to_mclks(15885, 10), 417);
    assert_eq!(timeout_microseconds_to_mclks(8087, 14), 151);
    assert_eq!(timeout_microseconds_to_mclks(0, 14), 0);
}

#[test]
fn vcsel_period_codec_values() {
    assert_eq!(decode_vcsel_period(0x06), 14);
    assert_eq!(decode_vcsel_period(0x04), 10);
    assert_eq!(encode_vcsel_period(14), 0x06);
    assert_eq!(encode_vcsel_period(18), 0x08);
}

#[test]
fn vcsel_period_round_trip_on_even_periods() {
    // periods the chip produces are always even and at least two
    let mut p: u16 = 2;
    while p <= 254 {
        assert_eq!(decode_vcsel_period(encode_vcsel_period(p as u8)), p as u8);
        p += 2;
    }
}
