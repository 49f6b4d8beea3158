//! Board-level pin renaming: pure data mapping a board's printed pin
//! labels to the device's physical pins.
//!
//! The one board table here belongs to a small breakout board built
//! around the mid-size device of [`crate::devices::atmega328p`]: digital
//! labels `D0`–`D13` (labels 2 and 7 are not brought out) and analog
//! labels `A0`–`A5`.

use vstd::prelude::*;
use crate::descriptor::PinId;
use crate::devices::{PORT_B, PORT_C, PORT_D};

verus! {

/// The physical pin behind digital label `n`, if the board brings that
/// label out.
pub open spec fn spec_digital_pin(n: u8) -> Option<PinId> {
    if n == 0 {
        Some(PinId { port: PORT_D, bit: 0 })
    } else if n == 1 {
        Some(PinId { port: PORT_D, bit: 1 })
    } else if n == 3 {
        Some(PinId { port: PORT_D, bit: 3 })
    } else if n == 4 {
        Some(PinId { port: PORT_D, bit: 4 })
    } else if n == 5 {
        Some(PinId { port: PORT_D, bit: 5 })
    } else if n == 6 {
        Some(PinId { port: PORT_D, bit: 6 })
    } else if n == 8 {
        Some(PinId { port: PORT_B, bit: 0 })
    } else if n == 9 {
        Some(PinId { port: PORT_B, bit: 1 })
    } else if n == 10 {
        Some(PinId { port: PORT_B, bit: 2 })
    } else if n == 11 {
        Some(PinId { port: PORT_B, bit: 3 })
    } else if n == 12 {
        Some(PinId { port: PORT_B, bit: 4 })
    } else if n == 13 {
        Some(PinId { port: PORT_B, bit: 5 })
    } else {
        None
    }
}

/// Looks up the physical pin behind digital label `n`.
pub fn digital_pin(n: u8) -> (r: Option<PinId>)
    ensures
        r == spec_digital_pin(n),
{
    if n == 0 {
        Some(PinId { port: PORT_D, bit: 0 })
    } else if n == 1 {
        Some(PinId { port: PORT_D, bit: 1 })
    } else if n == 3 {
        Some(PinId { port: PORT_D, bit: 3 })
    } else if n == 4 {
        Some(PinId { port: PORT_D, bit: 4 })
    } else if n == 5 {
        Some(PinId { port: PORT_D, bit: 5 })
    } else if n == 6 {
        Some(PinId { port: PORT_D, bit: 6 })
    } else if n == 8 {
        Some(PinId { port: PORT_B, bit: 0 })
    } else if n == 9 {
        Some(PinId { port: PORT_B, bit: 1 })
    } else if n == 10 {
        Some(PinId { port: PORT_B, bit: 2 })
    } else if n == 11 {
        Some(PinId { port: PORT_B, bit: 3 })
    } else if n == 12 {
        Some(PinId { port: PORT_B, bit: 4 })
    } else if n == 13 {
        Some(PinId { port: PORT_B, bit: 5 })
    } else {
        None
    }
}

/// The physical pin behind analog label `n`, if the board brings that
/// label out.
pub open spec fn spec_analog_pin(n: u8) -> Option<PinId> {
    if n < 6 {
        Some(PinId { port: PORT_C, bit: n })
    } else {
        None
    }
}

/// Looks up the physical pin behind analog label `n`.
pub fn analog_pin(n: u8) -> (r: Option<PinId>)
    ensures
        r == spec_analog_pin(n),
{
    if n < 6 {
        Some(PinId { port: PORT_C, bit: n })
    } else {
        None
    }
}

} // verus!
