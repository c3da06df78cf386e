//! Register address map of the power monitor.

use vstd::prelude::*;

verus! {

/// A register of the peripheral, selected on the wire by a one-byte address.
#[allow(non_camel_case_types)]
#[derive(Clone, Copy, PartialEq, Eq, Structural)]
pub enum Register {
    /// Configuration register
    CONFIG,
    /// Value of the current flowing through the shunt resistor
    CURRENT,
    /// Bus voltage measurement data
    VOLTAGE,
    /// Value of the calculated power being delivered to the load
    POWER,
    /// Alert configuration and conversion-ready flag
    MASK_ENABLE,
    /// Limit value to compare to the selected alert function
    ALERT_LIMIT,
    /// Unique manufacturer identification number
    MANUFACTURER_ID,
    /// Unique die identification number
    DIE_ID,
}

impl Register {
    /// The one-byte address that selects this register on the wire.
    pub open spec fn spec_addr(self) -> u8 {
        match self {
            Register::CONFIG => 0x00,
            Register::CURRENT => 0x01,
            Register::VOLTAGE => 0x02,
            Register::POWER => 0x03,
            Register::MASK_ENABLE => 0x06,
            Register::ALERT_LIMIT => 0x07,
            Register::MANUFACTURER_ID => 0xFE,
            Register::DIE_ID => 0xFF,
        }
    }

    /// The one-byte address that selects this register on the wire.
    #[verifier::when_used_as_spec(spec_addr)]
    pub fn addr(self) -> (a: u8)
        ensures
            a == self.spec_addr(),
    {
        match self {
            Register::CONFIG => 0x00,
            Register::CURRENT => 0x01,
            Register::VOLTAGE => 0x02,
            Register::POWER => 0x03,
            Register::MASK_ENABLE => 0x06,
            Register::ALERT_LIMIT => 0x07,
            Register::MANUFACTURER_ID => 0xFE,
            Register::DIE_ID => 0xFF,
        }
    }
}

impl From<Register> for u8 {
    fn from(r: Register) -> (a: u8) {
        r.addr()
    }
}

impl vstd::std_specs::convert::FromSpecImpl<Register> for u8 {
    open spec fn obeys_from_spec() -> bool {
        true
    }

    open spec fn from_spec(r: Register) -> u8 {
        r.spec_addr()
    }
}

} // verus!
