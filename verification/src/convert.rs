//! Wire encoding and the conversion engine.
//!
//! Wire encoding: every transaction's first byte is the target register
//! address; a register write carries the 16-bit value big-endian (most
//! significant byte first), and a register read receives two bytes combined
//! as `(first << 8) | second`.
//!
//! Conversion engine: pure functions that scale a raw register count to an
//! engineering unit (microamps, microvolts, milliwatts), and that decompose
//! a count into a whole-unit integer plus a sub-unit remainder.

use vstd::arithmetic::div_mod::lemma_div_is_ordered;
use vstd::arithmetic::div_mod::lemma_fundamental_div_mod;
use vstd::arithmetic::div_mod::lemma_mod_bound;
use vstd::arithmetic::mul::lemma_mul_inequality;
use vstd::prelude::*;

use crate::regs::Register;

verus! {

/// Microamps represented by one raw current count.
pub const CURRENT_LSB_UA: i32 = 1250;

/// Microvolts represented by one raw bus-voltage count.
pub const VOLTAGE_LSB_UV: u32 = 1250;

/// Milliwatts represented by one raw power count.
pub const POWER_LSB_MW: u32 = 10;

/// Raw current or voltage counts that make one whole unit (ampere / volt).
pub const AMP_VOLT_COUNTS_PER_UNIT: u32 = 800;

/// Sub-unit scale for the current and voltage remainders.
pub const AMP_VOLT_REMAINDER_SCALE: u32 = 125;

/// Raw power counts that make one whole watt.
pub const WATT_COUNTS_PER_UNIT: u32 = 100;

/// Sub-unit scale for the power remainder.
pub const WATT_REMAINDER_SCALE: u32 = 1000;

/// The 16-bit word read big-endian from two bus bytes.
pub open spec fn spec_word_be(first: u8, second: u8) -> u16 {
    ((first as u16) * 256 + (second as u16)) as u16
}

/// The byte sent first when a 16-bit value is written big-endian.
pub open spec fn spec_high_byte(value: u16) -> u8 {
    (value / 256) as u8
}

/// The byte sent second when a 16-bit value is written big-endian.
pub open spec fn spec_low_byte(value: u16) -> u8 {
    (value % 256) as u8
}

/// Combine the two bytes received from a register read into its 16-bit word.
pub fn word_be(first: u8, second: u8) -> (word: u16)
    ensures
        word == spec_word_be(first, second),
{
    proof {
        assert(((first as u16) << 8 | (second as u16)) == (first as u16) * 256 + (second as u16))
            by (bit_vector);
    }
    ((first as u16) << 8) | (second as u16)
}

/// Splitting a word into its big-endian bytes and recombining them gives the
/// word back.
pub proof fn lemma_word_be_round_trip(value: u16)
    ensures
        spec_word_be(spec_high_byte(value), spec_low_byte(value)) == value,
{
    assert(((value / 256) as u8 as u16) * 256 + ((value % 256) as u8 as u16) == value)
        by (bit_vector);
}

/// The bytes of a register write: the register address followed by the
/// 16-bit value, most significant byte first.
pub fn write_frame(reg: Register, value: u16) -> (frame: Vec<u8>)
    ensures
        frame@.len() == 3,
        frame@[0] == reg.spec_addr(),
        frame@[1] == spec_high_byte(value),
        frame@[2] == spec_low_byte(value),
        spec_word_be(frame@[1], frame@[2]) == value,
{
    proof {
        assert(value >> 8 == value / 256 && value >> 8 < 256 && (value & 255) == value % 256)
            by (bit_vector);
        lemma_word_be_round_trip(value);
    }
    let mut frame: Vec<u8> = Vec::new();
    frame.push(reg.addr());
    frame.push((value >> 8) as u8);
    frame.push((value & 255) as u8);
    frame
}

/// The single byte sent to select a register before reading it.
pub fn read_frame(reg: Register) -> (frame: Vec<u8>)
    ensures
        frame@.len() == 1,
        frame@[0] == reg.spec_addr(),
{
    let mut frame: Vec<u8> = Vec::new();
    frame.push(reg.addr());
    frame
}

/// The die-id register word carries the chip id in its upper 12 bits.
pub open spec fn spec_die_id(word: u16) -> u16 {
    word / 16
}

/// The die-id register word carries the revision in its lower 4 bits.
pub open spec fn spec_die_rev(word: u16) -> u16 {
    word % 16
}

/// Extract the 12-bit chip id from the die-id register word.
pub fn die_id_of_word(word: u16) -> (id: u16)
    ensures
        id == spec_die_id(word),
        id < 0x1000,
{
    proof {
        assert(word >> 4 == word / 16 && word >> 4 < 0x1000) by (bit_vector);
    }
    word >> 4
}

/// Extract the 4-bit revision from the die-id register word.
pub fn die_rev_of_word(word: u16) -> (rev: u16)
    ensures
        rev == spec_die_rev(word),
        rev < 16,
{
    proof {
        assert(word & 0b1111 == word % 16 && word & 0b1111 < 16) by (bit_vector);
    }
    word & 0b1111
}

/// The microamp value of a raw current count.
pub open spec fn spec_scaled_current(raw: i16) -> int {
    raw * CURRENT_LSB_UA
}

/// The microvolt value of a raw bus-voltage count.
pub open spec fn spec_scaled_voltage(raw: u16) -> int {
    raw * VOLTAGE_LSB_UV
}

/// The milliwatt value of a raw power count.
pub open spec fn spec_scaled_power(raw: u16) -> int {
    raw * POWER_LSB_MW
}

/// Scale a raw current count (two's-complement) to microamps.
pub fn scale_current(raw: i16) -> (ua: i32)
    ensures
        ua == spec_scaled_current(raw),
{
    (raw as i32) * CURRENT_LSB_UA
}

/// Scale a raw bus-voltage count to microvolts.
pub fn scale_voltage(raw: u16) -> (uv: u32)
    ensures
        uv == spec_scaled_voltage(raw),
{
    (raw as u32) * VOLTAGE_LSB_UV
}

/// Scale a raw power count to milliwatts.
pub fn scale_power(raw: u16) -> (mw: u32)
    ensures
        mw == spec_scaled_power(raw),
{
    (raw as u32) * POWER_LSB_MW
}

/// Decompose a non-negative count into whole units and a scaled remainder:
/// `counts / counts_per_unit` whole units, and the counts left over scaled
/// by `remainder_scale`.
pub fn split_counts(counts: u32, counts_per_unit: u32, remainder_scale: u32) -> (split: (u32, u32))
    requires
        0 < counts_per_unit,
        (counts_per_unit - 1) * remainder_scale <= u32::MAX,
    ensures
        split.0 == counts as int / counts_per_unit as int,
        split.1 == (counts as int % counts_per_unit as int) * remainder_scale,
{
    proof {
        lemma_mod_bound(counts as int, counts_per_unit as int);
        lemma_mul_inequality(
            counts as int % counts_per_unit as int,
            counts_per_unit - 1,
            remainder_scale as int,
        );
        lemma_div_is_ordered(0, counts as int, counts_per_unit as int);
        lemma_div_is_ordered(counts as int, u32::MAX as int, counts_per_unit as int);
    }
    let whole: u32 = counts / counts_per_unit;
    let remainder: u32 = (counts % counts_per_unit) * remainder_scale;
    (whole, remainder)
}

/// Recombination: for every non-negative count, the whole units converted
/// back to scaled sub-units plus the remainder equal the whole count scaled
/// to sub-units.
pub proof fn lemma_split_recombines(counts: int, counts_per_unit: int, remainder_scale: int)
    requires
        0 <= counts,
        0 < counts_per_unit,
    ensures
        (counts / counts_per_unit) * counts_per_unit * remainder_scale + (counts % counts_per_unit)
            * remainder_scale == counts * remainder_scale,
{
    lemma_fundamental_div_mod(counts, counts_per_unit);
    let whole = counts / counts_per_unit;
    let rest = counts % counts_per_unit;
    assert(whole * counts_per_unit * remainder_scale + rest * remainder_scale == counts
        * remainder_scale) by (nonlinear_arith)
        requires
            counts == counts_per_unit * whole + rest,
    ;
}

/// The split representation of a raw bus-voltage count: whole volts and the
/// remainder in ten-microvolt steps.
pub open spec fn spec_voltage_split(raw: u16) -> (int, int) {
    (
        raw as int / AMP_VOLT_COUNTS_PER_UNIT as int,
        (raw as int % AMP_VOLT_COUNTS_PER_UNIT as int) * AMP_VOLT_REMAINDER_SCALE,
    )
}

/// The split representation of a raw power count: whole watts and the
/// remainder in microwatt steps.
pub open spec fn spec_power_split(raw: u16) -> (int, int) {
    (
        raw as int / WATT_COUNTS_PER_UNIT as int,
        (raw as int % WATT_COUNTS_PER_UNIT as int) * WATT_REMAINDER_SCALE,
    )
}

/// Whole volts and the remainder in ten-microvolt steps of a raw
/// bus-voltage count.
pub fn voltage_split_of(raw: u16) -> (split: (u8, u32))
    ensures
        split.0 == spec_voltage_split(raw).0,
        split.1 == spec_voltage_split(raw).1,
{
    let (whole, remainder) = split_counts(
        raw as u32,
        AMP_VOLT_COUNTS_PER_UNIT,
        AMP_VOLT_REMAINDER_SCALE,
    );
    proof {
        lemma_div_is_ordered(raw as int, 65535, 800);
        assert(65535int / 800 == 81);
    }
    (whole as u8, remainder)
}

/// Whole watts and the remainder in microwatt steps of a raw power count.
pub fn power_split_of(raw: u16) -> (split: (u16, u32))
    ensures
        split.0 == spec_power_split(raw).0,
        split.1 == spec_power_split(raw).1,
{
    let (whole, remainder) = split_counts(raw as u32, WATT_COUNTS_PER_UNIT, WATT_REMAINDER_SCALE);
    proof {
        lemma_div_is_ordered(raw as int, 65535, 100);
        assert(65535int / 100 == 655);
    }
    (whole as u16, remainder)
}

/// The whole-ampere count of a raw current: the sign of the decomposition is
/// carried entirely by this component, which counts toward zero.
pub open spec fn spec_current_whole(raw: int) -> int {
    if raw >= 0 {
        raw / AMP_VOLT_COUNTS_PER_UNIT as int
    } else {
        -((-raw) / AMP_VOLT_COUNTS_PER_UNIT as int)
    }
}

/// The remainder of a raw current in ten-microamp steps: the magnitude of
/// the counts left over after the whole amperes, always non-negative.
pub open spec fn spec_current_rem(raw: int) -> int {
    if raw >= 0 {
        (raw % AMP_VOLT_COUNTS_PER_UNIT as int) * AMP_VOLT_REMAINDER_SCALE
    } else {
        ((-raw) % AMP_VOLT_COUNTS_PER_UNIT as int) * AMP_VOLT_REMAINDER_SCALE
    }
}

/// The split representation of a raw current count: whole amperes carrying
/// the sign, and the magnitude of the remainder in ten-microamp steps.
pub open spec fn spec_current_split(raw: i16) -> (int, int) {
    (spec_current_whole(raw as int), spec_current_rem(raw as int))
}

/// Whole amperes and the remainder in ten-microamp steps of a raw current
/// count, applied symmetrically around zero.
///
/// Only the whole-ampere component carries the sign: when the magnitude of
/// `raw` is below one whole ampere of counts, the whole component is zero
/// and the sign of a negative reading is not visible in the result.
pub fn current_split_of(raw: i16) -> (split: (i8, u32))
    ensures
        split.0 == spec_current_split(raw).0,
        split.1 == spec_current_split(raw).1,
{
    let wide: i32 = raw as i32;
    if wide >= 0 {
        let (whole, remainder) = split_counts(
            wide as u32,
            AMP_VOLT_COUNTS_PER_UNIT,
            AMP_VOLT_REMAINDER_SCALE,
        );
        proof {
            lemma_div_is_ordered(wide as int, 32767, 800);
            assert(32767int / 800 == 40);
        }
        (whole as i8, remainder)
    } else {
        let magnitude: u32 = (-wide) as u32;
        let (whole, remainder) = split_counts(
            magnitude,
            AMP_VOLT_COUNTS_PER_UNIT,
            AMP_VOLT_REMAINDER_SCALE,
        );
        proof {
            lemma_div_is_ordered(magnitude as int, 32768, 800);
            assert(32768int / 800 == 40);
        }
        (-(whole as i32) as i8, remainder)
    }
}

} // verus!
