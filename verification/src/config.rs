//! The 16-bit configuration word: four disjoint bit-fields (operating mode,
//! shunt-current conversion time, bus-voltage conversion time, averaging
//! count) and the masked-merge update that changes one field while leaving
//! the bits of every other field untouched.

use vstd::prelude::*;

verus! {

/// Bits 0-2 of the configuration word: the operating mode.
pub const OPER_MODE_MASK: u16 = 0x0007;

/// Bits 3-5 of the configuration word: the shunt-current conversion time.
pub const SC_CONV_TIME_MASK: u16 = 0x0038;

/// Bits 6-8 of the configuration word: the bus-voltage conversion time.
pub const BV_CONV_TIME_MASK: u16 = 0x01C0;

/// Bits 9-11 of the configuration word: the averaging count.
pub const AVERAGING_MASK: u16 = 0x0E00;

/// The configuration word adopted as shadow after a reset: shunt current and
/// bus voltage sampled continuously, no averaging, 1.1 ms conversion time on
/// both channels.
pub const DEFAULT_CONFIG: u16 = 0x0127;

/// Writing this word to the configuration register resets the chip; bit 15
/// is a write-only strobe and never part of the shadow's meaning.
pub const RESET_WORD: u16 = 0x8000;

/// Averaging mode: how many samples are collected and averaged.
#[allow(non_camel_case_types)]
#[derive(Clone, Copy)]
pub enum Averaging {
    /// No averaging (default)
    AVG1,
    /// 4 times averaging
    AVG4,
    /// 16 times averaging
    AVG16,
    /// 64 times averaging
    AVG64,
    /// 128 times averaging
    AVG128,
    /// 256 times averaging
    AVG256,
    /// 512 times averaging
    AVG512,
    /// 1024 times averaging
    AVG1024,
}

impl Averaging {
    /// The bit pattern of this value, already positioned in bits 9-11.
    pub open spec fn spec_bits(self) -> u16 {
        match self {
            Averaging::AVG1 => 0x0000,
            Averaging::AVG4 => 0x0200,
            Averaging::AVG16 => 0x0400,
            Averaging::AVG64 => 0x0600,
            Averaging::AVG128 => 0x0800,
            Averaging::AVG256 => 0x0A00,
            Averaging::AVG512 => 0x0C00,
            Averaging::AVG1024 => 0x0E00,
        }
    }

    /// The bit pattern of this value, already positioned in bits 9-11.
    #[verifier::when_used_as_spec(spec_bits)]
    pub fn bits(self) -> (b: u16)
        ensures
            b == self.spec_bits(),
    {
        match self {
            Averaging::AVG1 => 0x0000,
            Averaging::AVG4 => 0x0200,
            Averaging::AVG16 => 0x0400,
            Averaging::AVG64 => 0x0600,
            Averaging::AVG128 => 0x0800,
            Averaging::AVG256 => 0x0A00,
            Averaging::AVG512 => 0x0C00,
            Averaging::AVG1024 => 0x0E00,
        }
    }

    /// Every legal averaging pattern lies inside the averaging field's mask.
    pub proof fn lemma_bits_in_field(self)
        ensures
            self.spec_bits() & !AVERAGING_MASK == 0,
    {
        let b = self.spec_bits();
        assert((b == 0x0000 || b == 0x0200 || b == 0x0400 || b == 0x0600 || b == 0x0800
            || b == 0x0A00 || b == 0x0C00 || b == 0x0E00) ==> b & !0x0E00u16 == 0)
            by (bit_vector);
    }
}

/// Bus-voltage conversion time.
#[allow(non_camel_case_types)]
#[derive(Clone, Copy)]
pub enum BVConvTime {
    /// Conversion time = 140 us
    US140,
    /// Conversion time = 204 us
    US204,
    /// Conversion time = 332 us
    US332,
    /// Conversion time = 588 us
    US588,
    /// Conversion time = 1.1 ms (default)
    MS1_1,
    /// Conversion time = 2.116 ms
    MS2_116,
    /// Conversion time = 4.156 ms
    MS4_156,
    /// Conversion time = 8.244 ms
    MS8_244,
}

impl BVConvTime {
    /// The bit pattern of this value, already positioned in bits 6-8.
    pub open spec fn spec_bits(self) -> u16 {
        match self {
            BVConvTime::US140 => 0x0000,
            BVConvTime::US204 => 0x0040,
            BVConvTime::US332 => 0x0080,
            BVConvTime::US588 => 0x00C0,
            BVConvTime::MS1_1 => 0x0100,
            BVConvTime::MS2_116 => 0x0140,
            BVConvTime::MS4_156 => 0x0180,
            BVConvTime::MS8_244 => 0x01C0,
        }
    }

    /// The bit pattern of this value, already positioned in bits 6-8.
    #[verifier::when_used_as_spec(spec_bits)]
    pub fn bits(self) -> (b: u16)
        ensures
            b == self.spec_bits(),
    {
        match self {
            BVConvTime::US140 => 0x0000,
            BVConvTime::US204 => 0x0040,
            BVConvTime::US332 => 0x0080,
            BVConvTime::US588 => 0x00C0,
            BVConvTime::MS1_1 => 0x0100,
            BVConvTime::MS2_116 => 0x0140,
            BVConvTime::MS4_156 => 0x0180,
            BVConvTime::MS8_244 => 0x01C0,
        }
    }

    /// Every legal pattern lies inside the bus-voltage field's mask.
    pub proof fn lemma_bits_in_field(self)
        ensures
            self.spec_bits() & !BV_CONV_TIME_MASK == 0,
    {
        let b = self.spec_bits();
        assert((b == 0x0000 || b == 0x0040 || b == 0x0080 || b == 0x00C0 || b == 0x0100
            || b == 0x0140 || b == 0x0180 || b == 0x01C0) ==> b & !0x01C0u16 == 0)
            by (bit_vector);
    }
}

/// Shunt-current conversion time.
#[allow(non_camel_case_types)]
#[derive(Clone, Copy)]
pub enum SCConvTime {
    /// Conversion time = 140 us
    US140,
    /// Conversion time = 204 us
    US204,
    /// Conversion time = 332 us
    US332,
    /// Conversion time = 588 us
    US588,
    /// Conversion time = 1.1 ms (default)
    MS1_1,
    /// Conversion time = 2.116 ms
    MS2_116,
    /// Conversion time = 4.156 ms
    MS4_156,
    /// Conversion time = 8.244 ms
    MS8_244,
}

impl SCConvTime {
    /// The bit pattern of this value, already positioned in bits 3-5.
    pub open spec fn spec_bits(self) -> u16 {
        match self {
            SCConvTime::US140 => 0x0000,
            SCConvTime::US204 => 0x0008,
            SCConvTime::US332 => 0x0010,
            SCConvTime::US588 => 0x0018,
            SCConvTime::MS1_1 => 0x0020,
            SCConvTime::MS2_116 => 0x0028,
            SCConvTime::MS4_156 => 0x0030,
            SCConvTime::MS8_244 => 0x0038,
        }
    }

    /// The bit pattern of this value, already positioned in bits 3-5.
    #[verifier::when_used_as_spec(spec_bits)]
    pub fn bits(self) -> (b: u16)
        ensures
            b == self.spec_bits(),
    {
        match self {
            SCConvTime::US140 => 0x0000,
            SCConvTime::US204 => 0x0008,
            SCConvTime::US332 => 0x0010,
            SCConvTime::US588 => 0x0018,
            SCConvTime::MS1_1 => 0x0020,
            SCConvTime::MS2_116 => 0x0028,
            SCConvTime::MS4_156 => 0x0030,
            SCConvTime::MS8_244 => 0x0038,
        }
    }

    /// Every legal pattern lies inside the shunt-current field's mask.
    pub proof fn lemma_bits_in_field(self)
        ensures
            self.spec_bits() & !SC_CONV_TIME_MASK == 0,
    {
        let b = self.spec_bits();
        assert((b == 0x0000 || b == 0x0008 || b == 0x0010 || b == 0x0018 || b == 0x0020
            || b == 0x0028 || b == 0x0030 || b == 0x0038) ==> b & !0x0038u16 == 0)
            by (bit_vector);
    }
}

/// Operating mode: continuous, triggered, or power-down.
#[allow(non_camel_case_types)]
#[derive(Clone, Copy)]
pub enum OperMode {
    /// Power-down (or shutdown)
    SHUTDOWN,
    /// Shunt current, triggered
    SCT,
    /// Bus voltage, triggered
    BVT,
    /// Shunt current + bus voltage, triggered
    SCBVT,
    /// Shunt current, continuous
    SCC,
    /// Bus voltage, continuous
    BVC,
    /// Shunt current + bus voltage, continuous (default)
    SCBVC,
}

impl OperMode {
    /// The bit pattern of this value, already positioned in bits 0-2.
    pub open spec fn spec_bits(self) -> u16 {
        match self {
            OperMode::SHUTDOWN => 0x0000,
            OperMode::SCT => 0x0001,
            OperMode::BVT => 0x0002,
            OperMode::SCBVT => 0x0003,
            OperMode::SCC => 0x0005,
            OperMode::BVC => 0x0006,
            OperMode::SCBVC => 0x0007,
        }
    }

    /// The bit pattern of this value, already positioned in bits 0-2.
    #[verifier::when_used_as_spec(spec_bits)]
    pub fn bits(self) -> (b: u16)
        ensures
            b == self.spec_bits(),
    {
        match self {
            OperMode::SHUTDOWN => 0x0000,
            OperMode::SCT => 0x0001,
            OperMode::BVT => 0x0002,
            OperMode::SCBVT => 0x0003,
            OperMode::SCC => 0x0005,
            OperMode::BVC => 0x0006,
            OperMode::SCBVC => 0x0007,
        }
    }

    /// Every legal pattern lies inside the operating-mode field's mask.
    pub proof fn lemma_bits_in_field(self)
        ensures
            self.spec_bits() & !OPER_MODE_MASK == 0,
    {
        let b = self.spec_bits();
        assert(b <= 0x0007u16 ==> b & !0x0007u16 == 0) by (bit_vector);
    }
}

/// The word obtained from `word` by replacing the bits of the field covered
/// by `mask` with `pattern` and keeping every other bit.
pub open spec fn spec_merge(word: u16, mask: u16, pattern: u16) -> u16 {
    (word & !mask) | pattern
}

/// Masked merge: replace the field covered by `mask` with `pattern`.
///
/// All inputs are closed enumerations at the call sites, so there is no
/// invalid-value state and no error condition.
pub fn masked_merge(word: u16, mask: u16, pattern: u16) -> (merged: u16)
    ensures
        merged == spec_merge(word, mask, pattern),
{
    (word & !mask) | pattern
}

/// A masked merge with a pattern that lies inside the mask changes only the
/// bits of the mask: the merged word holds `pattern` in the field and agrees
/// with `word` everywhere else, in particular on any range `other` of bits
/// disjoint from the mask.
pub proof fn lemma_merge_changes_only_field(word: u16, mask: u16, pattern: u16, other: u16)
    requires
        pattern & !mask == 0,
        mask & other == 0,
    ensures
        spec_merge(word, mask, pattern) & mask == pattern,
        spec_merge(word, mask, pattern) & !mask == word & !mask,
        spec_merge(word, mask, pattern) & other == word & other,
{
    assert(((word & !mask) | pattern) & mask == pattern
        && ((word & !mask) | pattern) & !mask == word & !mask
        && ((word & !mask) | pattern) & other == word & other) by (bit_vector)
        requires
            pattern & !mask == 0,
            mask & other == 0,
    ;
}

/// The four field masks are pairwise disjoint: together with
/// `lemma_merge_changes_only_field` this makes every setter leave the other
/// three fields' bits unchanged.
pub proof fn lemma_masks_disjoint()
    ensures
        OPER_MODE_MASK & SC_CONV_TIME_MASK == 0,
        OPER_MODE_MASK & BV_CONV_TIME_MASK == 0,
        OPER_MODE_MASK & AVERAGING_MASK == 0,
        SC_CONV_TIME_MASK & BV_CONV_TIME_MASK == 0,
        SC_CONV_TIME_MASK & AVERAGING_MASK == 0,
        BV_CONV_TIME_MASK & AVERAGING_MASK == 0,
        SC_CONV_TIME_MASK & OPER_MODE_MASK == 0,
        BV_CONV_TIME_MASK & OPER_MODE_MASK == 0,
        AVERAGING_MASK & OPER_MODE_MASK == 0,
        BV_CONV_TIME_MASK & SC_CONV_TIME_MASK == 0,
        AVERAGING_MASK & SC_CONV_TIME_MASK == 0,
        AVERAGING_MASK & BV_CONV_TIME_MASK == 0,
{
    assert(0x0007u16 & 0x0038u16 == 0 && 0x0007u16 & 0x01C0u16 == 0
        && 0x0007u16 & 0x0E00u16 == 0 && 0x0038u16 & 0x01C0u16 == 0
        && 0x0038u16 & 0x0E00u16 == 0 && 0x01C0u16 & 0x0E00u16 == 0
        && 0x0038u16 & 0x0007u16 == 0 && 0x01C0u16 & 0x0007u16 == 0
        && 0x0E00u16 & 0x0007u16 == 0 && 0x01C0u16 & 0x0038u16 == 0
        && 0x0E00u16 & 0x0038u16 == 0 && 0x0E00u16 & 0x01C0u16 == 0) by (bit_vector);
}

/// Setting the averaging count to any legal value never changes the bits of
/// the operating-mode, shunt-current or bus-voltage fields.
pub proof fn lemma_set_averaging_preserves_others(word: u16, a: Averaging)
    ensures
        spec_merge(word, AVERAGING_MASK, a.spec_bits()) & AVERAGING_MASK == a.spec_bits(),
        spec_merge(word, AVERAGING_MASK, a.spec_bits()) & OPER_MODE_MASK == word & OPER_MODE_MASK,
        spec_merge(word, AVERAGING_MASK, a.spec_bits()) & SC_CONV_TIME_MASK == word
            & SC_CONV_TIME_MASK,
        spec_merge(word, AVERAGING_MASK, a.spec_bits()) & BV_CONV_TIME_MASK == word
            & BV_CONV_TIME_MASK,
{
    a.lemma_bits_in_field();
    lemma_masks_disjoint();
    lemma_merge_changes_only_field(word, AVERAGING_MASK, a.spec_bits(), OPER_MODE_MASK);
    lemma_merge_changes_only_field(word, AVERAGING_MASK, a.spec_bits(), SC_CONV_TIME_MASK);
    lemma_merge_changes_only_field(word, AVERAGING_MASK, a.spec_bits(), BV_CONV_TIME_MASK);
}

/// Setting the operating mode to any legal value never changes the bits of
/// the averaging, shunt-current or bus-voltage fields.
pub proof fn lemma_set_oper_mode_preserves_others(word: u16, o: OperMode)
    ensures
        spec_merge(word, OPER_MODE_MASK, o.spec_bits()) & OPER_MODE_MASK == o.spec_bits(),
        spec_merge(word, OPER_MODE_MASK, o.spec_bits()) & AVERAGING_MASK == word & AVERAGING_MASK,
        spec_merge(word, OPER_MODE_MASK, o.spec_bits()) & SC_CONV_TIME_MASK == word
            & SC_CONV_TIME_MASK,
        spec_merge(word, OPER_MODE_MASK, o.spec_bits()) & BV_CONV_TIME_MASK == word
            & BV_CONV_TIME_MASK,
{
    o.lemma_bits_in_field();
    lemma_masks_disjoint();
    lemma_merge_changes_only_field(word, OPER_MODE_MASK, o.spec_bits(), AVERAGING_MASK);
    lemma_merge_changes_only_field(word, OPER_MODE_MASK, o.spec_bits(), SC_CONV_TIME_MASK);
    lemma_merge_changes_only_field(word, OPER_MODE_MASK, o.spec_bits(), BV_CONV_TIME_MASK);
}

/// Setting the shunt-current conversion time to any legal value never changes
/// the bits of the operating-mode, averaging or bus-voltage fields.
pub proof fn lemma_set_sc_conv_time_preserves_others(word: u16, s: SCConvTime)
    ensures
        spec_merge(word, SC_CONV_TIME_MASK, s.spec_bits()) & SC_CONV_TIME_MASK == s.spec_bits(),
        spec_merge(word, SC_CONV_TIME_MASK, s.spec_bits()) & OPER_MODE_MASK == word
            & OPER_MODE_MASK,
        spec_merge(word, SC_CONV_TIME_MASK, s.spec_bits()) & AVERAGING_MASK == word
            & AVERAGING_MASK,
        spec_merge(word, SC_CONV_TIME_MASK, s.spec_bits()) & BV_CONV_TIME_MASK == word
            & BV_CONV_TIME_MASK,
{
    s.lemma_bits_in_field();
    lemma_masks_disjoint();
    lemma_merge_changes_only_field(word, SC_CONV_TIME_MASK, s.spec_bits(), OPER_MODE_MASK);
    lemma_merge_changes_only_field(word, SC_CONV_TIME_MASK, s.spec_bits(), AVERAGING_MASK);
    lemma_merge_changes_only_field(word, SC_CONV_TIME_MASK, s.spec_bits(), BV_CONV_TIME_MASK);
}

/// Setting the bus-voltage conversion time to any legal value never changes
/// the bits of the operating-mode, averaging or shunt-current fields.
pub proof fn lemma_set_bv_conv_time_preserves_others(word: u16, b: BVConvTime)
    ensures
        spec_merge(word, BV_CONV_TIME_MASK, b.spec_bits()) & BV_CONV_TIME_MASK == b.spec_bits(),
        spec_merge(word, BV_CONV_TIME_MASK, b.spec_bits()) & OPER_MODE_MASK == word
            & OPER_MODE_MASK,
        spec_merge(word, BV_CONV_TIME_MASK, b.spec_bits()) & AVERAGING_MASK == word
            & AVERAGING_MASK,
        spec_merge(word, BV_CONV_TIME_MASK, b.spec_bits()) & SC_CONV_TIME_MASK == word
            & SC_CONV_TIME_MASK,
{
    b.lemma_bits_in_field();
    lemma_masks_disjoint();
    lemma_merge_changes_only_field(word, BV_CONV_TIME_MASK, b.spec_bits(), OPER_MODE_MASK);
    lemma_merge_changes_only_field(word, BV_CONV_TIME_MASK, b.spec_bits(), AVERAGING_MASK);
    lemma_merge_changes_only_field(word, BV_CONV_TIME_MASK, b.spec_bits(), SC_CONV_TIME_MASK);
}

/// The default word is exactly the continuous shunt+bus mode, no averaging,
/// and 1.1 ms conversion time on both channels, combined.
pub proof fn lemma_default_config_fields()
    ensures
        DEFAULT_CONFIG == OperMode::SCBVC.spec_bits() | Averaging::AVG1.spec_bits()
            | SCConvTime::MS1_1.spec_bits() | BVConvTime::MS1_1.spec_bits(),
{
    assert(0x0127u16 == 0x0007u16 | 0x0000u16 | 0x0020u16 | 0x0100u16) by (bit_vector);
}

} // verus!
