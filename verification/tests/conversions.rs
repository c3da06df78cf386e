use ina260::config::{
    masked_merge, Averaging, BVConvTime, OperMode, SCConvTime, AVERAGING_MASK, BV_CONV_TIME_MASK,
    DEFAULT_CONFIG, OPER_MODE_MASK, SC_CONV_TIME_MASK,
};
use ina260::convert::{
    current_split_of, die_id_of_word, die_rev_of_word, power_split_of, read_frame, scale_current,
    scale_power, scale_voltage, voltage_split_of, word_be, write_frame,
};
use ina260::Register;

#[test]
fn register_addresses() {
    assert_eq!(Register::CONFIG.addr(), 0x00);
    assert_eq!(Register::CURRENT.addr(), 0x01);
    assert_eq!(Register::VOLTAGE.addr(), 0x02);
    assert_eq!(Register::POWER.addr(), 0x03);
    assert_eq!(Register::MASK_ENABLE.addr(), 0x06);
    assert_eq!(Register::ALERT_LIMIT.addr(), 0x07);
    assert_eq!(Register::MANUFACTURER_ID.addr(), 0xFE);
    assert_eq!(Register::DIE_ID.addr(), 0xFF);
    assert_eq!(u8::from(Register::DIE_ID), 0xFF);
}

#[test]
fn field_patterns_lie_in_their_masks() {
    let avg = [
        Averaging::AVG1,
        Averaging::AVG4,
        Averaging::AVG16,
        Averaging::AVG64,
        Averaging::AVG128,
        Averaging::AVG256,
        Averaging::AVG512,
        Averaging::AVG1024,
    ];
    for a in avg {
        assert_eq!(a.bits() & !AVERAGING_MASK, 0);
    }
    let bv = [
        BVConvTime::US140,
        BVConvTime::US204,
        BVConvTime::US332,
        BVConvTime::US588,
        BVConvTime::MS1_1,
        BVConvTime::MS2_116,
        BVConvTime::MS4_156,
        BVConvTime::MS8_244,
    ];
    for b in bv {
        assert_eq!(b.bits() & !BV_CONV_TIME_MASK, 0);
    }
    let sc = [
        SCConvTime::US140,
        SCConvTime::US204,
        SCConvTime::US332,
        SCConvTime::US588,
        SCConvTime::MS1_1,
        SCConvTime::MS2_116,
        SCConvTime::MS4_156,
        SCConvTime::MS8_244,
    ];
    for s in sc {
        assert_eq!(s.bits() & !SC_CONV_TIME_MASK, 0);
    }
    let om = [
        OperMode::SHUTDOWN,
        OperMode::SCT,
        OperMode::BVT,
        OperMode::SCBVT,
        OperMode::SCC,
        OperMode::BVC,
        OperMode::SCBVC,
    ];
    for o in om {
        assert_eq!(o.bits() & !OPER_MODE_MASK, 0);
    }
}

#[test]
fn default_word_is_the_documented_fields() {
    assert_eq!(
        DEFAULT_CONFIG,
        OperMode::SCBVC.bits()
            | Averaging::AVG1.bits()
            | SCConvTime::MS1_1.bits()
            | BVConvTime::MS1_1.bits()
    );
    assert_eq!(DEFAULT_CONFIG, 0x0127);
}

#[test]
fn masked_merge_replaces_only_the_field() {
    let merged = masked_merge(DEFAULT_CONFIG, AVERAGING_MASK, Averaging::AVG64.bits());
    assert_eq!(merged, 0x0727);
    assert_eq!(merged & OPER_MODE_MASK, DEFAULT_CONFIG & OPER_MODE_MASK);
    assert_eq!(merged & SC_CONV_TIME_MASK, DEFAULT_CONFIG & SC_CONV_TIME_MASK);
    assert_eq!(merged & BV_CONV_TIME_MASK, DEFAULT_CONFIG & BV_CONV_TIME_MASK);
    assert_eq!(merged & AVERAGING_MASK, Averaging::AVG64.bits());
}

#[test]
fn masked_merge_independence_over_all_pairs() {
    // Exercise every ordered pair of distinct fields on a word with every
    // field bit set: after setting one field, the other three are untouched.
    let word: u16 = 0x0FFF;
    let masks = [
        OPER_MODE_MASK,
        SC_CONV_TIME_MASK,
        BV_CONV_TIME_MASK,
        AVERAGING_MASK,
    ];
    let patterns: [u16; 4] = [
        OperMode::SCT.bits(),
        SCConvTime::US204.bits(),
        BVConvTime::US204.bits(),
        Averaging::AVG4.bits(),
    ];
    for i in 0..4 {
        let merged = masked_merge(word, masks[i], patterns[i]);
        for j in 0..4 {
            if i != j {
                assert_eq!(merged & masks[j], word & masks[j]);
            }
        }
    }
}

#[test]
fn wire_framing_of_a_configuration_write() {
    let frame = write_frame(Register::CONFIG, 0x1234);
    assert_eq!(frame, vec![0x00, 0x12, 0x34]);
}

#[test]
fn wire_framing_of_the_reset_write() {
    let frame = write_frame(Register::CONFIG, 0x8000);
    assert_eq!(frame, vec![0x00, 0x80, 0x00]);
}

#[test]
fn read_select_frame_is_the_register_address() {
    assert_eq!(read_frame(Register::CURRENT), vec![0x01]);
    assert_eq!(read_frame(Register::DIE_ID), vec![0xFF]);
}

#[test]
fn big_endian_word_round_trip() {
    assert_eq!(word_be(0x12, 0x34), 0x1234);
    let frame = write_frame(Register::CONFIG, 0xBEEF);
    assert_eq!(word_be(frame[1], frame[2]), 0xBEEF);
}

#[test]
fn die_id_extraction() {
    let word = word_be(0x22, 0x70);
    assert_eq!(word, 0x2270);
    assert_eq!(die_id_of_word(word), 0x227);
    assert_eq!(die_rev_of_word(word), 0x0);
}

#[test]
fn linear_scaling_exactness() {
    assert_eq!(scale_current(1), 1250);
    assert_eq!(scale_current(-1), -1250);
    assert_eq!(scale_voltage(800), 1_000_000);
    assert_eq!(scale_power(100), 1000);
}

#[test]
fn linear_scaling_extremes_do_not_overflow() {
    assert_eq!(scale_current(i16::MAX), 32767 * 1250);
    assert_eq!(scale_current(i16::MIN), -32768 * 1250);
    assert_eq!(scale_voltage(u16::MAX), 65535 * 1250);
    assert_eq!(scale_power(u16::MAX), 655_350);
}

#[test]
fn split_examples() {
    assert_eq!(voltage_split_of(800), (1, 0));
    assert_eq!(power_split_of(100), (1, 0));
    assert_eq!(current_split_of(1600), (2, 0));
}

#[test]
fn split_recombination_on_concrete_counts() {
    // whole * counts_per_unit * remainder_scale + remainder == raw * remainder_scale
    for raw in [0u32, 1, 799, 800, 801, 12345, 65535] {
        let (whole, rest) = voltage_split_of(raw.min(65535) as u16);
        assert_eq!(u32::from(whole) * 800 * 125 + rest, raw * 125);
    }
    for raw in [0u16, 1, 99, 100, 101, 25600, 65535] {
        let (whole, rest) = power_split_of(raw);
        assert_eq!(u32::from(whole) * 100 * 1000 + rest, u32::from(raw) * 1000);
    }
}

#[test]
fn split_of_small_counts_is_all_remainder() {
    assert_eq!(voltage_split_of(799), (0, 799 * 125));
    assert_eq!(power_split_of(99), (0, 99_000));
}

#[test]
fn current_split_is_symmetric_with_sign_in_whole() {
    assert_eq!(current_split_of(2000), (2, 400 * 125));
    assert_eq!(current_split_of(-2000), (-2, 400 * 125));
    assert_eq!(current_split_of(-1600), (-2, 0));
    assert_eq!(current_split_of(i16::MAX), (40, 767 * 125));
    assert_eq!(current_split_of(i16::MIN), (-40, 768 * 125));
}

#[test]
fn current_split_below_one_unit_loses_the_sign() {
    // The sign is carried only by the whole component: below one whole
    // ampere of counts it is zero for positive and negative readings alike.
    assert_eq!(current_split_of(500), (0, 62500));
    assert_eq!(current_split_of(-500), (0, 62500));
}

#[test]
fn power_split_of_large_counts_keeps_whole_watts_exact() {
    assert_eq!(power_split_of(25600), (256, 0));
    assert_eq!(power_split_of(65535), (655, 35_000));
}
