//! Pin typestate model: a pin value carries its current mode in its
//! type, and the operations defined on it are exactly those of that
//! mode.
//!
//! A mode transition is a consuming conversion: it takes the pin by
//! value, performs the register side effect, and yields a new pin typed
//! with the target mode, so the old handle can no longer be invoked and
//! two live views of one physical pin in different modes cannot exist.
//! An unsupported conversion cannot be expressed at all. Pin values are
//! neither copyable nor clonable, which keeps each physical pin uniquely
//! owned.

use vstd::prelude::*;
use crate::adc::Adc;
use crate::descriptor::{AdcChannel, PinId};
use crate::pwm::{PwmPin, PwmTimer};

verus! {

/// Mode tag of a pin configured as a digital input, floating or pulled
/// up.
#[derive(Debug)]
pub struct Input;

/// Mode tag of a pin configured as a digital output.
#[derive(Debug)]
pub struct Output;

/// Mode tag of a pin routed to the ADC, its digital input buffer
/// powered down.
#[derive(Debug)]
pub struct Analog;

/// A pin in mode `M`, with its slice of the port registers.
///
/// `ddr` is the pin's direction bit (set for output), `out` its output
/// register bit — the driven level in output mode, the pull-up enable in
/// input mode — and `level` the externally driven line level an input
/// reads.
#[derive(Debug)]
pub struct Pin<M> {
    pub id: PinId,
    pub ddr: bool,
    pub out: bool,
    pub level: bool,
    pub mode: M,
}

impl Pin<Input> {
    /// Hands out the pin in its reset state: a floating input at the
    /// given line level.
    pub fn new_floating(id: PinId, level: bool) -> (r: Pin<Input>)
        ensures
            r.id == id,
            !r.ddr,
            !r.out,
            r.level == level,
    {
        Pin { id, ddr: false, out: false, level, mode: Input }
    }

    /// Reads the input line.
    pub fn is_high(&self) -> (r: bool)
        ensures
            r == self.level,
    {
        self.level
    }

    /// Reads the input line, inverted.
    pub fn is_low(&self) -> (r: bool)
        ensures
            r == !self.level,
    {
        !self.level
    }

    /// Enables the pull-up, staying an input.
    pub fn into_pull_up_input(self) -> (r: Pin<Input>)
        ensures
            r.id == self.id,
            !r.ddr,
            r.out,
            r.level == self.level,
    {
        Pin { id: self.id, ddr: false, out: true, level: self.level, mode: Input }
    }

    /// Disables the pull-up, staying an input.
    pub fn into_floating_input(self) -> (r: Pin<Input>)
        ensures
            r.id == self.id,
            !r.ddr,
            !r.out,
            r.level == self.level,
    {
        Pin { id: self.id, ddr: false, out: false, level: self.level, mode: Input }
    }

    /// Converts the pin to an output, driving low: sets the direction
    /// bit and clears the output bit as one consuming transition.
    pub fn into_output(self) -> (r: Pin<Output>)
        ensures
            r.id == self.id,
            r.ddr,
            !r.out,
            r.level == self.level,
    {
        Pin { id: self.id, ddr: true, out: false, level: self.level, mode: Output }
    }

    /// Converts the pin to an output, driving high.
    pub fn into_output_high(self) -> (r: Pin<Output>)
        ensures
            r.id == self.id,
            r.ddr,
            r.out,
            r.level == self.level,
    {
        Pin { id: self.id, ddr: true, out: true, level: self.level, mode: Output }
    }

    /// Converts the pin to an analog input for the ADC table entry `ch`
    /// that routes it: clears direction and pull-up and powers down the
    /// pin's digital input buffer.
    ///
    /// Only a pin with a pin-backed entry of its own can be converted;
    /// internal ADC sources have no pin and no entry here.
    pub fn into_analog(self, adc: &mut Adc, ch: &AdcChannel) -> (r: Pin<Analog>)
        requires
            ch.spec_fits(),
            (*ch) matches AdcChannel::PinChannel { pin, .. } && pin == self.id,
        ensures
            r.id == self.id,
            !r.ddr,
            !r.out,
            r.level == self.level,
            (*ch) matches AdcChannel::PinChannel { didr_bit, .. } ==> final(adc).didr0 == old(
                adc,
            ).didr0 | (1u8 << didr_bit),
            final(adc).admux == old(adc).admux,
            final(adc).inputs == old(adc).inputs,
    {
        match ch {
            AdcChannel::PinChannel { didr_bit, .. } => {
                adc.disable_digital_input(*didr_bit);
            },
            AdcChannel::InternalChannel { .. } => {
                proof {
                    assert(false);
                }
            },
        }
        Pin { id: self.id, ddr: false, out: false, level: self.level, mode: Analog }
    }
}

impl Pin<Output> {
    /// Drives the line high.
    pub fn set_high(&mut self)
        ensures
            final(self).out,
            final(self).id == old(self).id,
            final(self).ddr == old(self).ddr,
            final(self).level == old(self).level,
    {
        self.out = true;
    }

    /// Drives the line low.
    pub fn set_low(&mut self)
        ensures
            !final(self).out,
            final(self).id == old(self).id,
            final(self).ddr == old(self).ddr,
            final(self).level == old(self).level,
    {
        self.out = false;
    }

    /// Inverts the driven level.
    pub fn toggle(&mut self)
        ensures
            final(self).out == !old(self).out,
            final(self).id == old(self).id,
            final(self).ddr == old(self).ddr,
            final(self).level == old(self).level,
    {
        self.out = !self.out;
    }

    /// Reads the level the pin is driving.
    pub fn is_set_high(&self) -> (r: bool)
        ensures
            r == self.out,
    {
        self.out
    }

    /// Reads the level the pin is driving, inverted.
    pub fn is_set_low(&self) -> (r: bool)
        ensures
            r == !self.out,
    {
        !self.out
    }

    /// Converts the pin back to a floating input.
    pub fn into_floating_input(self) -> (r: Pin<Input>)
        ensures
            r.id == self.id,
            !r.ddr,
            !r.out,
            r.level == self.level,
    {
        Pin { id: self.id, ddr: false, out: false, level: self.level, mode: Input }
    }

    /// Converts the pin back to an input with the pull-up enabled.
    pub fn into_pull_up_input(self) -> (r: Pin<Input>)
        ensures
            r.id == self.id,
            !r.ddr,
            r.out,
            r.level == self.level,
    {
        Pin { id: self.id, ddr: false, out: true, level: self.level, mode: Input }
    }

    /// Binds the pin to the compare unit the descriptor pre-associated
    /// it with on `timer`, yielding its duty-cycle channel.
    ///
    /// The channel starts disconnected — its connect field is cleared —
    /// and the timer's duty registers, prescaler and waveform mode are
    /// untouched. A pin without a binding on this timer cannot be
    /// converted.
    pub fn into_pwm(self, timer: &mut PwmTimer) -> (r: PwmPin)
        requires
            exists|u: crate::pwm::CompareUnit| old(timer).spec_has_binding(self.id, u),
        ensures
            r.pin == self.id,
            old(timer).spec_has_binding(r.pin, r.unit),
            *final(timer) == old(timer).spec_with_com(r.unit, crate::pwm::COM_DISCONNECTED),
            final(timer).spec_com(r.unit) == crate::pwm::COM_DISCONNECTED,
            final(timer).spec_has_binding(r.pin, r.unit),
            final(timer).family == old(timer).family,
            final(timer).channels == old(timer).channels,
            final(timer).tccr_b == old(timer).tccr_b,
            final(timer).ocr_a == old(timer).ocr_a && final(timer).ocr_b == old(timer).ocr_b
                && final(timer).ocr_c == old(timer).ocr_c,
    {
        match timer.find_binding(self.id) {
            Some(unit) => {
                let channel = PwmPin { pin: self.id, unit };
                channel.disable(timer);
                channel
            },
            None => {
                proof {
                    let u = choose|u: crate::pwm::CompareUnit|
                        old(timer).spec_has_binding(self.id, u);
                    let j = choose|j: int|
                        0 <= j < old(timer).channels@.len() && old(timer).channels@[j]
                            == crate::descriptor::PwmChannelDesc { pin: self.id, unit: u };
                    assert(old(timer).channels@[j].pin == self.id);
                    assert(false);
                }
                vstd::pervasive::unreached()
            },
        }
    }
}

impl Pin<Analog> {
    /// Reads the pin's analog level to completion through the ADC, via
    /// the table entry `ch` that routes this pin.
    pub fn read_raw(&self, adc: &mut Adc, ch: &AdcChannel) -> (r: u16)
        requires
            old(adc).spec_wf(),
            ch.spec_fits(),
            (*ch) matches AdcChannel::PinChannel { pin, .. } && pin == self.id,
        ensures
            final(adc).spec_wf(),
            *final(adc) == old(adc).spec_after_select(*ch),
            r == old(adc).inputs@[ch.spec_mux_code() as int],
            r <= crate::adc::ADC_MAX,
    {
        adc.read_blocking(ch)
    }
}

} // verus!
