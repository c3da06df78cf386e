//! The shadow-state device.
//!
//! The device owns the bus handle and a shadow copy of the last
//! configuration word it successfully wrote. Every configuration setter
//! performs a read-modify-write against the shadow, never against the
//! peripheral: it merges the new field into the shadow, writes the merged
//! word, and adopts it as the new shadow only if the write succeeded, so a
//! failed write leaves the device in its last-known-good state, safe to
//! retry. Measurement reads never consult or mutate the shadow.

use vstd::prelude::*;

use crate::config::AVERAGING_MASK;
use crate::config::Averaging;
use crate::config::BVConvTime;
use crate::config::BV_CONV_TIME_MASK;
use crate::config::DEFAULT_CONFIG;
use crate::config::OPER_MODE_MASK;
use crate::config::OperMode;
use crate::config::RESET_WORD;
use crate::config::SCConvTime;
use crate::config::SC_CONV_TIME_MASK;
use crate::config::lemma_default_config_fields;
use crate::config::masked_merge;
use crate::config::spec_merge;
use crate::convert::current_split_of;
use crate::convert::die_id_of_word;
use crate::convert::die_rev_of_word;
use crate::convert::power_split_of;
use crate::convert::read_frame;
use crate::convert::scale_current;
use crate::convert::scale_power;
use crate::convert::scale_voltage;
use crate::convert::spec_current_split;
use crate::convert::spec_die_id;
use crate::convert::spec_die_rev;
use crate::convert::spec_power_split;
use crate::convert::spec_scaled_current;
use crate::convert::spec_scaled_power;
use crate::convert::spec_scaled_voltage;
use crate::convert::spec_voltage_split;
use crate::convert::voltage_split_of;
use crate::convert::word_be;
use crate::convert::write_frame;
use crate::regs::Register;

verus! {

/// The default 7-bit bus address of the chip.
pub const DEFAULT_ADDRESS: u8 = 0x40;

/// The addressed byte-level bus the device talks through, supplied by the
/// platform. A write sends the given bytes to the peripheral at the given
/// 7-bit address; a write-then-read sends the given bytes and then receives
/// two bytes from the same peripheral, returned in wire order.
///
/// Nothing is assumed of an implementation: every contract of the device
/// states what holds whichever result a transaction returns, and the
/// transport's own error kind is surfaced unchanged.
pub trait Transport {
    /// The error produced by a failed bus transaction.
    type Error;

    /// Perform one addressed write transaction.
    fn write(&mut self, address: u8, bytes: &Vec<u8>) -> Result<(), Self::Error>;

    /// Perform one addressed write-then-read transaction, receiving two
    /// bytes.
    fn write_then_read2(&mut self, address: u8, bytes: &Vec<u8>) -> Result<
        (u8, u8),
        Self::Error,
    >;
}

/// A driver instance for one chip on the bus: the bus handle it exclusively
/// owns, the chip's bus address, and the shadow configuration word.
pub struct INA260<B> {
    bus: B,
    address: u8,
    state: u16,
}

impl<B: Transport> INA260<B> {
    /// The shadow configuration word: the last value successfully written to
    /// the configuration register.
    pub closed spec fn shadow(self) -> u16 {
        self.state
    }

    /// The 7-bit bus address the device was created with.
    pub closed spec fn bus_address(self) -> u8 {
        self.address
    }

    /// One configuration-register write transaction: sends the register
    /// address followed by the value, most significant byte first. Touches
    /// neither the shadow word nor the bus address.
    fn write_reg(&mut self, reg: Register, value: u16) -> (result: Result<(), B::Error>)
        ensures
            final(self).state == old(self).state,
            final(self).address == old(self).address,
    {
        let frame = write_frame(reg, value);
        let address = self.address;
        self.bus.write(address, &frame)
    }

    /// One measurement-read transaction: selects `reg` with a one-byte
    /// write, receives two bytes, and combines them big-endian. Touches
    /// neither the shadow word nor the bus address.
    fn read_reg(&mut self, reg: Register) -> (result: Result<u16, B::Error>)
        ensures
            final(self).state == old(self).state,
            final(self).address == old(self).address,
    {
        let frame = read_frame(reg);
        let address = self.address;
        match self.bus.write_then_read2(address, &frame) {
            Ok((first, second)) => Ok(word_be(first, second)),
            Err(e) => Err(e),
        }
    }

    /// Create a driver for a chip at the given bus address: write the reset
    /// strobe to the configuration register and, only if that write
    /// succeeds, adopt the documented default word as shadow. On failure the
    /// transport error is returned and no device is produced.
    pub fn new_with_address(bus: B, address: u8) -> (result: Result<INA260<B>, B::Error>)
        ensures
            result matches Ok(dev) ==> dev.shadow() == DEFAULT_CONFIG && dev.bus_address()
                == address,
    {
        let state: u16 = OperMode::SCBVC.bits() | Averaging::AVG1.bits() | SCConvTime::MS1_1.bits()
            | BVConvTime::MS1_1.bits();
        proof {
            lemma_default_config_fields();
        }
        let mut dev = INA260 { bus, address, state };
        match dev.write_reg(Register::CONFIG, RESET_WORD) {
            Ok(_) => Ok(dev),
            Err(e) => Err(e),
        }
    }

    /// Create a driver for a chip at the default bus address.
    pub fn new(bus: B) -> (result: Result<INA260<B>, B::Error>)
        ensures
            result matches Ok(dev) ==> dev.shadow() == DEFAULT_CONFIG && dev.bus_address()
                == DEFAULT_ADDRESS,
    {
        Self::new_with_address(bus, DEFAULT_ADDRESS)
    }

    /// Change the averaging mode. On success the shadow holds the merged
    /// word: the new averaging field, every other bit unchanged. On failure
    /// the shadow is exactly what it was.
    pub fn set_averaging_mode(&mut self, a: Averaging) -> (result: Result<(), B::Error>)
        ensures
            final(self).bus_address() == old(self).bus_address(),
            result is Ok ==> final(self).shadow() == spec_merge(
                old(self).shadow(),
                AVERAGING_MASK,
                a.spec_bits(),
            ),
            result is Err ==> final(self).shadow() == old(self).shadow(),
    {
        let merged = masked_merge(self.state, AVERAGING_MASK, a.bits());
        match self.write_reg(Register::CONFIG, merged) {
            Ok(_) => {
                self.state = merged;
                Ok(())
            },
            Err(e) => Err(e),
        }
    }

    /// Change the operating mode. In a triggered mode the chip samples once
    /// per configuration write, so call this again for each new sample. On
    /// success the shadow holds the merged word; on failure it is exactly
    /// what it was.
    pub fn set_operating_mode(&mut self, o: OperMode) -> (result: Result<(), B::Error>)
        ensures
            final(self).bus_address() == old(self).bus_address(),
            result is Ok ==> final(self).shadow() == spec_merge(
                old(self).shadow(),
                OPER_MODE_MASK,
                o.spec_bits(),
            ),
            result is Err ==> final(self).shadow() == old(self).shadow(),
    {
        let merged = masked_merge(self.state, OPER_MODE_MASK, o.bits());
        match self.write_reg(Register::CONFIG, merged) {
            Ok(_) => {
                self.state = merged;
                Ok(())
            },
            Err(e) => Err(e),
        }
    }

    /// Change the shunt-current conversion time. On success the shadow holds
    /// the merged word; on failure it is exactly what it was.
    pub fn set_scconvtime_mode(&mut self, s: SCConvTime) -> (result: Result<(), B::Error>)
        ensures
            final(self).bus_address() == old(self).bus_address(),
            result is Ok ==> final(self).shadow() == spec_merge(
                old(self).shadow(),
                SC_CONV_TIME_MASK,
                s.spec_bits(),
            ),
            result is Err ==> final(self).shadow() == old(self).shadow(),
    {
        let merged = masked_merge(self.state, SC_CONV_TIME_MASK, s.bits());
        match self.write_reg(Register::CONFIG, merged) {
            Ok(_) => {
                self.state = merged;
                Ok(())
            },
            Err(e) => Err(e),
        }
    }

    /// Change the bus-voltage conversion time. On success the shadow holds
    /// the merged word; on failure it is exactly what it was.
    pub fn set_bvconvtime_mode(&mut self, b: BVConvTime) -> (result: Result<(), B::Error>)
        ensures
            final(self).bus_address() == old(self).bus_address(),
            result is Ok ==> final(self).shadow() == spec_merge(
                old(self).shadow(),
                BV_CONV_TIME_MASK,
                b.spec_bits(),
            ),
            result is Err ==> final(self).shadow() == old(self).shadow(),
    {
        let merged = masked_merge(self.state, BV_CONV_TIME_MASK, b.bits());
        match self.write_reg(Register::CONFIG, merged) {
            Ok(_) => {
                self.state = merged;
                Ok(())
            },
            Err(e) => Err(e),
        }
    }

    /// Read the unique chip id: the upper 12 bits of the die-id register.
    pub fn did(&mut self) -> (result: Result<u16, B::Error>)
        ensures
            final(self).shadow() == old(self).shadow(),
            final(self).bus_address() == old(self).bus_address(),
            result matches Ok(id) ==> id < 0x1000,
            result matches Ok(id) ==> exists|word: u16| id == spec_die_id(word),
    {
        match self.read_reg(Register::DIE_ID) {
            Ok(word) => {
                let id = die_id_of_word(word);
                proof {
                    assert(id == spec_die_id(word));
                }
                Ok(id)
            },
            Err(e) => Err(e),
        }
    }

    /// Read the die revision id: the lower 4 bits of the die-id register.
    pub fn rid(&mut self) -> (result: Result<u16, B::Error>)
        ensures
            final(self).shadow() == old(self).shadow(),
            final(self).bus_address() == old(self).bus_address(),
            result matches Ok(rev) ==> rev < 16,
            result matches Ok(rev) ==> exists|word: u16| rev == spec_die_rev(word),
    {
        match self.read_reg(Register::DIE_ID) {
            Ok(word) => {
                let rev = die_rev_of_word(word);
                proof {
                    assert(rev == spec_die_rev(word));
                }
                Ok(rev)
            },
            Err(e) => Err(e),
        }
    }

    /// Read the raw current count, reinterpreted as two's-complement.
    pub fn current_raw(&mut self) -> (result: Result<i16, B::Error>)
        ensures
            final(self).shadow() == old(self).shadow(),
            final(self).bus_address() == old(self).bus_address(),
    {
        match self.read_reg(Register::CURRENT) {
            Ok(word) => Ok(#[verifier::truncate] (word as i16)),
            Err(e) => Err(e),
        }
    }

    /// Read the current in microamps: the raw count scaled by its per-bit
    /// value.
    pub fn current(&mut self) -> (result: Result<i32, B::Error>)
        ensures
            final(self).shadow() == old(self).shadow(),
            final(self).bus_address() == old(self).bus_address(),
            result matches Ok(ua) ==> exists|raw: i16| ua == spec_scaled_current(raw),
    {
        match self.current_raw() {
            Ok(raw) => {
                let ua = scale_current(raw);
                proof {
                    assert(ua == spec_scaled_current(raw));
                }
                Ok(ua)
            },
            Err(e) => Err(e),
        }
    }

    /// Read the current as whole amperes (signed) and a ten-microamp
    /// remainder (magnitude).
    pub fn current_split(&mut self) -> (result: Result<(i8, u32), B::Error>)
        ensures
            final(self).shadow() == old(self).shadow(),
            final(self).bus_address() == old(self).bus_address(),
            result matches Ok(split) ==> exists|raw: i16|
                split.0 == spec_current_split(raw).0 && split.1 == spec_current_split(raw).1,
    {
        match self.current_raw() {
            Ok(raw) => {
                let split = current_split_of(raw);
                proof {
                    assert(split.0 == spec_current_split(raw).0 && split.1 == spec_current_split(
                        raw,
                    ).1);
                }
                Ok(split)
            },
            Err(e) => Err(e),
        }
    }

    /// Read the raw bus-voltage count.
    pub fn voltage_raw(&mut self) -> (result: Result<u16, B::Error>)
        ensures
            final(self).shadow() == old(self).shadow(),
            final(self).bus_address() == old(self).bus_address(),
    {
        self.read_reg(Register::VOLTAGE)
    }

    /// Read the bus voltage in microvolts: the raw count scaled by its
    /// per-bit value.
    pub fn voltage(&mut self) -> (result: Result<u32, B::Error>)
        ensures
            final(self).shadow() == old(self).shadow(),
            final(self).bus_address() == old(self).bus_address(),
            result matches Ok(uv) ==> exists|raw: u16| uv == spec_scaled_voltage(raw),
    {
        match self.voltage_raw() {
            Ok(raw) => {
                let uv = scale_voltage(raw);
                proof {
                    assert(uv == spec_scaled_voltage(raw));
                }
                Ok(uv)
            },
            Err(e) => Err(e),
        }
    }

    /// Read the bus voltage as whole volts and a ten-microvolt remainder.
    pub fn voltage_split(&mut self) -> (result: Result<(u8, u32), B::Error>)
        ensures
            final(self).shadow() == old(self).shadow(),
            final(self).bus_address() == old(self).bus_address(),
            result matches Ok(split) ==> exists|raw: u16|
                split.0 == spec_voltage_split(raw).0 && split.1 == spec_voltage_split(raw).1,
    {
        match self.voltage_raw() {
            Ok(raw) => {
                let split = voltage_split_of(raw);
                proof {
                    assert(split.0 == spec_voltage_split(raw).0 && split.1 == spec_voltage_split(
                        raw,
                    ).1);
                }
                Ok(split)
            },
            Err(e) => Err(e),
        }
    }

    /// Read the raw power count.
    pub fn power_raw(&mut self) -> (result: Result<u16, B::Error>)
        ensures
            final(self).shadow() == old(self).shadow(),
            final(self).bus_address() == old(self).bus_address(),
    {
        self.read_reg(Register::POWER)
    }

    /// Read the power in milliwatts: the raw count scaled by its per-bit
    /// value.
    pub fn power(&mut self) -> (result: Result<u32, B::Error>)
        ensures
            final(self).shadow() == old(self).shadow(),
            final(self).bus_address() == old(self).bus_address(),
            result matches Ok(mw) ==> exists|raw: u16| mw == spec_scaled_power(raw),
    {
        match self.power_raw() {
            Ok(raw) => {
                let mw = scale_power(raw);
                proof {
                    assert(mw == spec_scaled_power(raw));
                }
                Ok(mw)
            },
            Err(e) => Err(e),
        }
    }

    /// Read the power as whole watts and a microwatt remainder.
    pub fn power_split(&mut self) -> (result: Result<(u16, u32), B::Error>)
        ensures
            final(self).shadow() == old(self).shadow(),
            final(self).bus_address() == old(self).bus_address(),
            result matches Ok(split) ==> exists|raw: u16|
                split.0 == spec_power_split(raw).0 && split.1 == spec_power_split(raw).1,
    {
        match self.power_raw() {
            Ok(raw) => {
                let split = power_split_of(raw);
                proof {
                    assert(split.0 == spec_power_split(raw).0 && split.1 == spec_power_split(
                        raw,
                    ).1);
                }
                Ok(split)
            },
            Err(e) => Err(e),
        }
    }
}

} // verus!
