//! A verified model of the peripheral core of an eight-bit
//! microcontroller family: pin typestate, timer/PWM configuration,
//! EEPROM, and ADC, all generated from a per-device hardware
//! descriptor.
//!
//! The descriptor ([`descriptor`]) is the sole source of cross-device
//! variance; [`device`] expands a validated descriptor into the typed
//! peripheral set; [`pin`], [`pwm`], [`eeprom`] and [`adc`] carry the
//! per-peripheral contracts; [`devices`] and [`boards`] hold the
//! shipped per-device and per-board data.

pub mod adc;
pub mod boards;
pub mod descriptor;
pub mod device;
pub mod devices;
pub mod eeprom;
pub mod pin;
pub mod pwm;
