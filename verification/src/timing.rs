//! Pure conversions of the sensor's internal clock model: the
//! mantissa/exponent timeout encoding, VCSEL pulse periods, and the
//! macro-period formula that ties macro-clock ticks to microseconds.

use vstd::prelude::*;

verus! {

/// Mantissa (low byte) of an encoded timeout register value.
pub open spec fn timeout_mantissa(raw: u16) -> u16 {
    raw & 0xFF
}

/// Exponent (high byte) of an encoded timeout register value.
pub open spec fn timeout_exponent(raw: u16) -> u16 {
    raw >> 8u16
}

/// Tick count denoted by an encoded timeout register value:
/// `(mantissa << exponent) + 1`, the shift taken modulo 2^16 as the
/// 16-bit register arithmetic does.
pub open spec fn spec_decode_timeout(raw: u16) -> u16 {
    if timeout_exponent(raw) >= 16 {
        1u16
    } else {
        ((((timeout_mantissa(raw) as u32) << timeout_exponent(raw)) % 0x10000) + 1) as u16
    }
}

/// One step of the timeout encoder: halve the mantissa-to-be until it
/// fits in one byte, counting the halvings in the exponent.
pub open spec fn spec_encode_shift(ls: u32, ms: u16) -> u16
    decreases ls,
{
    if ls > 0xFF {
        spec_encode_shift(ls / 2, (ms + 1) as u16)
    } else {
        (ms << 8u16) | (ls as u16)
    }
}

/// Encoded register value for a tick count: zero stays zero; otherwise
/// the minimal right-shift of `ticks - 1` that fits one byte, packed as
/// `(shift << 8) | remainder`.
pub open spec fn spec_encode_timeout(ticks: u16) -> u16 {
    if ticks == 0 {
        0u16
    } else {
        spec_encode_shift((ticks - 1) as u32, 0u16)
    }
}

/// Decodes a timeout register value into macro-clock ticks.
pub fn decode_timeout(register_value: u16) -> (ticks: u16)
    ensures
        ticks == spec_decode_timeout(register_value),
{
    let m = register_value & 0xFF;
    let e = register_value >> 8;
    if e >= 16 {
        1
    } else {
        let shifted: u32 = (m as u32) << e;
        proof {
            assert((((register_value & 0xFF) as u32) << (register_value >> 8u16)) % 0x10000
                <= 0xFF00) by (bit_vector)
                requires
                    register_value >> 8u16 < 16,
            ;
        }
        ((shifted % 0x10000) as u16) + 1
    }
}

/// Encodes a macro-clock tick count into a timeout register value.
pub fn encode_timeout(timeout_mclks: u16) -> (raw: u16)
    ensures
        raw == spec_encode_timeout(timeout_mclks),
{
    if timeout_mclks == 0 {
        return 0;
    }
    let mut ls_byte: u32 = (timeout_mclks - 1) as u32;
    let mut ms_byte: u16 = 0;
    proof {
        assert(0xFFFFu32 >> 0u16 == 0xFFFF) by (bit_vector);
    }
    while ls_byte & 0xFFFF_FF00 != 0
        invariant
            spec_encode_shift(ls_byte, ms_byte) == spec_encode_timeout(timeout_mclks),
            ms_byte <= 8,
            ls_byte <= 0xFFFFu32 >> ms_byte,
        decreases ls_byte,
    {
        proof {
            assert(ls_byte & 0xFFFF_FF00 != 0 ==> ls_byte > 0xFF) by (bit_vector);
            assert((ls_byte > 0xFF && ls_byte <= 0xFFFFu32 >> ms_byte && ms_byte <= 8) ==> (
                ms_byte < 8 && ls_byte >> 1u32 == ls_byte / 2 && ls_byte >> 1u32 <= 0xFFFFu32 >> (
                ms_byte + 1))) by (bit_vector);
        }
        ls_byte = ls_byte >> 1;
        ms_byte = ms_byte + 1;
    }
    proof {
        assert(ls_byte & 0xFFFF_FF00 == 0 ==> ls_byte <= 0xFF) by (bit_vector);
    }
    (ms_byte << 8) | (ls_byte as u16)
}

/// The all-zero register value decodes to one tick, and one tick encodes
/// back to the all-zero register value.
proof fn lemma_timeout_zero_codec()
    ensures
        spec_encode_shift(0u32, 0u16) == 0u16,
        spec_decode_timeout(0u16) == 1u16,
{
    assert((0u16 << 8u16) | 0u16 == 0u16) by (bit_vector);
    assert(0u16 >> 8u16 == 0u16) by (bit_vector);
    assert(0u16 & 0xFF == 0u16) by (bit_vector);
    assert(((0u16 as u32) << 0u16) % 0x10000 == 0) by (bit_vector);
}

/// Proof step for the round-trip law: running the encoder's halving loop
/// on an exact multiple `mant << (sh - ms)` (with the exponent already at
/// `ms`) yields an encoding whose decoding is the full value plus one.
proof fn lemma_encode_shift_exact(mant: u32, sh: u16, ms: u16)
    requires
        mant <= 0xFF,
        ms <= sh,
        sh <= 15,
        (mant << sh) <= 0xFFFF,
    ensures
        spec_decode_timeout(spec_encode_shift(mant << ((sh - ms) as u16), ms)) == (mant << sh) + 1,
    decreases sh - ms,
{
    let d = (sh - ms) as u16;
    let ls = mant << d;
    if ls > 0xFF {
        assert((mant <= 0xFF && ls == mant << d && ls > 0xFF && mant << sh <= 0xFFFF && d <= 15)
            ==> (d >= 1 && ls / 2 == mant << ((d - 1) as u16))) by (bit_vector);
        assert(spec_encode_shift(ls, ms) == spec_encode_shift(ls / 2, (ms + 1) as u16));
        lemma_encode_shift_exact(mant, sh, (ms + 1) as u16);
    } else {
        let packed = (ms << 8u16) | (ls as u16);
        assert(spec_encode_shift(ls, ms) == packed);
        assert((mant <= 0xFF && ls == mant << d && ls <= 0xFF && d == sh - ms && sh <= 15 && (mant
            << sh) <= 0xFFFF) ==> (((ms << 8u16) | (ls as u16)) & 0xFF == ls && ((ms << 8u16) | (
        ls as u16)) >> 8u16 == ms && ms < 16 && (((ls as u32)) << ms) % 0x10000 == mant << sh && (
        mant << sh) + 1 <= 0xFFFF)) by (bit_vector);
        assert(timeout_mantissa(packed) == ls);
        assert(timeout_exponent(packed) == ms);
    }
}

/// Round-trip law of the timeout encoding: every tick count that some
/// register value denotes is encoded exactly, so decoding the encoding
/// gives it back.  Stated over an arbitrary register value `raw`, whose
/// decoding ranges over exactly the representable tick counts.
pub proof fn lemma_timeout_round_trip(raw: u16)
    ensures
        spec_decode_timeout(spec_encode_timeout(spec_decode_timeout(raw))) == spec_decode_timeout(
            raw,
        ),
{
    let m = timeout_mantissa(raw);
    let e = timeout_exponent(raw);
    if e >= 16 {
        assert(spec_decode_timeout(raw) == 1);
        lemma_timeout_zero_codec();
    } else {
        let v = (((m as u32) << e) % 0x10000) as u32;
        assert((m == (raw & 0xFF) && e == raw >> 8u16 && e < 16 && v == ((m as u32) << e)
            % 0x10000) ==> v <= 0xFF00) by (bit_vector);
        let x = spec_decode_timeout(raw);
        assert(x == v + 1);
        if v == 0 {
            assert(spec_encode_timeout(1u16) == spec_encode_shift(0u32, 0u16));
            lemma_timeout_zero_codec();
        } else {
            let mant = v >> e;
            assert((v == ((m as u32) << e) % 0x10000 && e < 16 && m == (raw & 0xFF)) ==> (v >> e
                <= 0xFF && ((v >> e) << e) == v && v <= 0xFFFF)) by (bit_vector);
            lemma_encode_shift_exact(mant, e, 0u16);
            assert(mant << ((e - 0) as u16) == v);
            assert(spec_encode_timeout(x) == spec_encode_shift(v, 0u16));
        }
    }
}

/// The round-trip law phrased on the tick count itself: any `x` in the
/// image of the decoder satisfies `decode(encode(x)) == x`.
pub proof fn lemma_timeout_round_trip_exact(x: u16)
    requires
        exists|raw: u16| spec_decode_timeout(raw) == x,
    ensures
        spec_decode_timeout(spec_encode_timeout(x)) == x,
{
    let raw = choose|raw: u16| spec_decode_timeout(raw) == x;
    lemma_timeout_round_trip(raw);
}

/// Macro period in nanoseconds for a VCSEL period given in pulse clocks:
/// the chip's fixed empirical clock-model formula.
pub open spec fn spec_macro_period_ns(vcsel_period_pclks: u8) -> u32 {
    ((2304 * (vcsel_period_pclks as int) * 1655 + 500) / 1000) as u32
}

/// The macro period never exceeds the value at the largest VCSEL period.
pub proof fn lemma_macro_period_bounds(vcsel_period_pclks: u8)
    ensures
        spec_macro_period_ns(vcsel_period_pclks) <= 972_346,
        vcsel_period_pclks >= 1 ==> spec_macro_period_ns(vcsel_period_pclks) >= 3813,
{
}

/// Computes the macro period in nanoseconds.
pub fn calc_macro_period(vcsel_period_pclks: u8) -> (ns: u32)
    ensures
        ns == spec_macro_period_ns(vcsel_period_pclks),
{
    (2304u32 * (vcsel_period_pclks as u32) * 1655u32 + 500u32) / 1000u32
}

/// Microseconds corresponding to a macro-clock tick count, rounded to
/// nearest by pre-adding half the divisor.
pub open spec fn spec_mclks_to_us(mclks: u16, vcsel_period_pclks: u8) -> u32 {
    ((mclks * spec_macro_period_ns(vcsel_period_pclks) + spec_macro_period_ns(vcsel_period_pclks)
        / 2) / 1000) as u32
}

/// The microsecond equivalent of any representable tick count fits well
/// under 64 million.
pub proof fn lemma_mclks_to_us_bound(mclks: u16, vcsel_period_pclks: u8)
    ensures
        spec_mclks_to_us(mclks, vcsel_period_pclks) < 64_000_000,
{
    let macro_ns = spec_macro_period_ns(vcsel_period_pclks);
    lemma_macro_period_bounds(vcsel_period_pclks);
    vstd::arithmetic::mul::lemma_mul_upper_bound(mclks as int, 0xFFFF, macro_ns as int, 972_346);
}

/// Converts a macro-clock tick count into microseconds.
pub fn timeout_mclks_to_microseconds(timeout_period_mclks: u16, vcsel_period_pclks: u8) -> (us:
    u32)
    ensures
        us == spec_mclks_to_us(timeout_period_mclks, vcsel_period_pclks),
{
    let macro_period_nanoseconds: u64 = calc_macro_period(vcsel_period_pclks) as u64;
    proof {
        lemma_macro_period_bounds(vcsel_period_pclks);
        vstd::arithmetic::mul::lemma_mul_upper_bound(
            timeout_period_mclks as int,
            0xFFFF,
            macro_period_nanoseconds as int,
            972_346,
        );
    }
    ((((timeout_period_mclks as u64) * macro_period_nanoseconds) + (macro_period_nanoseconds / 2))
        / 1000) as u32
}

/// Macro-clock tick count corresponding to a microsecond duration,
/// rounded to nearest by pre-adding half the divisor.
pub open spec fn spec_us_to_mclks(us: u32, vcsel_period_pclks: u8) -> u32 {
    ((us * 1000 + spec_macro_period_ns(vcsel_period_pclks) / 2) / (spec_macro_period_ns(
        vcsel_period_pclks,
    ) as int)) as u32
}

/// Converts a microsecond duration into macro-clock ticks.  A zero VCSEL
/// period would make the macro period zero, so it is excluded.
pub fn timeout_microseconds_to_mclks(timeout_period_microseconds: u32, vcsel_period_pclks: u8) -> (
    mclks: u32)
    requires
        vcsel_period_pclks >= 1,
    ensures
        mclks == spec_us_to_mclks(timeout_period_microseconds, vcsel_period_pclks),
{
    let macro_period_nanoseconds: u64 = calc_macro_period(vcsel_period_pclks) as u64;
    proof {
        lemma_macro_period_bounds(vcsel_period_pclks);
        let num = timeout_period_microseconds * 1000 + macro_period_nanoseconds / 2;
        vstd::arithmetic::div_mod::lemma_div_is_ordered_by_denominator(
            num as int,
            3813,
            macro_period_nanoseconds as int,
        );
        vstd::arithmetic::div_mod::lemma_div_is_ordered(num as int, 4_294_967_781_173, 3813);
    }
    ((((timeout_period_microseconds as u64) * 1000) + (macro_period_nanoseconds / 2))
        / macro_period_nanoseconds) as u32
}

/// VCSEL pulse period in pulse clocks denoted by its register encoding:
/// `(raw + 1) * 2`, truncated to a byte as the register arithmetic does.
pub open spec fn spec_decode_vcsel_period(raw: u8) -> u8 {
    ((2 * (raw as int) + 2) % 256) as u8
}

/// Register encoding of a VCSEL pulse period: `period / 2 - 1`.  Periods
/// below two clocks have no encoding.
pub open spec fn spec_encode_vcsel_period(period_pclks: u8) -> u8 {
    if period_pclks >= 2 {
        ((period_pclks / 2) - 1) as u8
    } else {
        0u8
    }
}

/// Decodes a VCSEL period register value into pulse clocks.
pub fn decode_vcsel_period(register_value: u8) -> (pclks: u8)
    ensures
        pclks == spec_decode_vcsel_period(register_value),
{
    let widened: u16 = (register_value as u16) + 1;
    let doubled: u16 = widened << 1;
    proof {
        assert(widened <= 256 ==> widened << 1u16 == 2 * widened) by (bit_vector);
    }
    (doubled % 256) as u8
}

/// Encodes a VCSEL pulse period into its register value.
pub fn encode_vcsel_period(period_pclks: u8) -> (raw: u8)
    requires
        period_pclks >= 2,
    ensures
        raw == spec_encode_vcsel_period(period_pclks),
{
    proof {
        assert(period_pclks >= 2 ==> period_pclks >> 1u8 == period_pclks / 2 && period_pclks
            >> 1u8 >= 1) by (bit_vector);
    }
    (period_pclks >> 1) - 1
}

/// Round-trip law of the VCSEL period encoding: every even period of at
/// least two pulse clocks survives encoding and decoding unchanged.
pub proof fn lemma_vcsel_period_round_trip(period_pclks: u8)
    requires
        period_pclks >= 2,
        period_pclks % 2 == 0,
    ensures
        spec_decode_vcsel_period(spec_encode_vcsel_period(period_pclks)) == period_pclks,
{
}

} // verus!
