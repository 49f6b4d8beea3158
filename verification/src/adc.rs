//! ADC abstraction: routing one analog source — a physical pin or an
//! internal source — to the converter through its multiplexer, under a
//! chosen reference voltage.
//!
//! Selecting a source writes its multiplexer code into the multiplexer
//! register; a pin-backed source additionally sets the pin's
//! digital-input-disable bit, powering down the digital input buffer,
//! while internal sources never touch that register. The reference
//! bits are written once and persist across selections until changed.
//!
//! On the device a conversion is triggered and then polled to
//! completion; the poll has no effect on any value, so the model
//! completes a conversion in place, reading from a fixed table of
//! analog input levels, one ten-bit value per multiplexer code.

use vstd::prelude::*;
use crate::descriptor::AdcChannel;

verus! {

/// Mask of the multiplexer-code field in the multiplexer register.
pub const MUX_MASK: u8 = 0b0000_1111;

/// Mask of the reference-select bits in the multiplexer register.
pub const REFS_MASK: u8 = 0b1100_0000;

/// The largest value the converter's native ten-bit resolution yields.
pub const ADC_MAX: u16 = 0x03ff;

/// The number of multiplexer codes the four-bit field can route.
pub const MUX_CODES: u16 = 16;

/// The ADC reference-voltage selection.
#[derive(Clone, Copy, PartialEq, Eq, Structural, Debug)]
pub enum ReferenceVoltage {
    /// The supply voltage (the default).
    AVcc,
    /// The internal bandgap reference.
    Internal,
}

/// The reference-select bits of `r`, positioned in their field.
pub open spec fn spec_ref_bits(r: ReferenceVoltage) -> u8 {
    match r {
        ReferenceVoltage::AVcc => 0b0100_0000,
        ReferenceVoltage::Internal => 0b1100_0000,
    }
}

/// Looks up the reference-select bits of `r`.
pub fn ref_bits(r: ReferenceVoltage) -> (b: u8)
    ensures
        b == spec_ref_bits(r),
        b & REFS_MASK == b,
{
    let b: u8 = match r {
        ReferenceVoltage::AVcc => 0b0100_0000,
        ReferenceVoltage::Internal => 0b1100_0000,
    };
    assert((0b0100_0000u8 & REFS_MASK == 0b0100_0000u8) && (0b1100_0000u8 & REFS_MASK
        == 0b1100_0000u8)) by (bit_vector);
    b
}

/// The ADC unit: its multiplexer register (reference bits and
/// multiplexer code), the digital-input-disable register, and the fixed
/// analog input levels it converts, one per multiplexer code.
#[derive(Debug)]
pub struct Adc {
    pub admux: u8,
    pub didr0: u8,
    pub inputs: Vec<u16>,
}

impl Adc {
    /// Well-formedness: one input level per multiplexer code, each at
    /// the converter's native resolution.
    pub open spec fn spec_wf(self) -> bool {
        &&& self.inputs@.len() == MUX_CODES
        &&& forall|i: int| 0 <= i < self.inputs@.len() ==> #[trigger] self.inputs@[i] <= ADC_MAX
    }

    /// The ADC after selecting `ch`: the multiplexer field takes the
    /// entry's code, a pin-backed entry sets its input-disable bit, and
    /// nothing else changes.
    pub open spec fn spec_after_select(self, ch: AdcChannel) -> Adc {
        Adc {
            admux: (self.admux & !MUX_MASK) | (ch.spec_mux_code() & MUX_MASK),
            didr0: match ch {
                AdcChannel::PinChannel { didr_bit, .. } => self.didr0 | (1u8 << didr_bit),
                AdcChannel::InternalChannel { .. } => self.didr0,
            },
            ..self
        }
    }

    /// Claims the ADC unit with reference `r` and the analog input
    /// levels `inputs`; no source selected, no input buffer disabled.
    pub fn new(r: ReferenceVoltage, inputs: Vec<u16>) -> (adc: Adc)
        requires
            inputs@.len() == MUX_CODES,
            forall|i: int| 0 <= i < inputs@.len() ==> #[trigger] inputs@[i] <= ADC_MAX,
        ensures
            adc.spec_wf(),
            adc.admux == spec_ref_bits(r),
            adc.admux & REFS_MASK == spec_ref_bits(r),
            adc.didr0 == 0,
            adc.inputs == inputs,
    {
        let b = ref_bits(r);
        Adc { admux: b, didr0: 0, inputs }
    }

    /// Writes the reference-select bits of `r`, keeping the multiplexer
    /// code and every other register.
    ///
    /// The reference persists across selections and conversions until
    /// this is called again.
    pub fn set_reference(&mut self, r: ReferenceVoltage)
        ensures
            final(self).admux == (old(self).admux & !REFS_MASK) | spec_ref_bits(r),
            final(self).admux & REFS_MASK == spec_ref_bits(r),
            final(self).admux & MUX_MASK == old(self).admux & MUX_MASK,
            final(self).didr0 == old(self).didr0,
            final(self).inputs == old(self).inputs,
    {
        let b = ref_bits(r);
        let x = self.admux;
        self.admux = (x & !REFS_MASK) | b;
        proof {
            let bb = b;
            assert(((x & !REFS_MASK) | bb) & REFS_MASK == bb && ((x & !REFS_MASK) | bb) & MUX_MASK
                == x & MUX_MASK) by (bit_vector)
                requires
                    bb & REFS_MASK == bb,
            ;
        }
    }

    /// Selects the analog source of `ch`: writes its multiplexer code,
    /// and for a pin-backed source sets the pin's digital-input-disable
    /// bit. Internal sources never touch the input-disable register, and
    /// the reference bits persist unchanged.
    pub fn select_channel(&mut self, ch: &AdcChannel)
        requires
            ch.spec_fits(),
        ensures
            *final(self) == old(self).spec_after_select(*ch),
            final(self).admux & MUX_MASK == ch.spec_mux_code(),
            final(self).admux & REFS_MASK == old(self).admux & REFS_MASK,
            final(self).inputs == old(self).inputs,
            (*ch) is InternalChannel ==> final(self).didr0 == old(self).didr0,
            (*ch) matches AdcChannel::PinChannel { didr_bit, .. } ==> (final(self).didr0 >> didr_bit)
                & 1 == 1,
            (*ch) matches AdcChannel::PinChannel { didr_bit, .. } ==> forall|b2: u8|
                b2 < 8 && b2 != didr_bit ==> (final(self).didr0 >> b2) & 1 == (old(self).didr0
                    >> b2) & 1,
    {
        let m = ch.mux_code();
        let x = self.admux;
        self.admux = (x & !MUX_MASK) | (m & MUX_MASK);
        proof {
            let mm = m;
            assert(((x & !MUX_MASK) | (mm & MUX_MASK)) & MUX_MASK == mm && ((x & !MUX_MASK) | (mm
                & MUX_MASK)) & REFS_MASK == x & REFS_MASK) by (bit_vector)
                requires
                    mm < 16,
            ;
        }
        match ch {
            AdcChannel::PinChannel { didr_bit, .. } => {
                let d = self.didr0;
                let b = *didr_bit;
                self.didr0 = d | (1u8 << b);
                proof {
                    assert((d | (1u8 << b)) >> b & 1 == 1 && (forall|b2: u8|
                        b2 < 8 && b2 != b ==> (d | (1u8 << b)) >> b2 & 1 == d >> b2 & 1))
                        by (bit_vector)
                        requires
                            b < 8,
                    ;
                }
            },
            AdcChannel::InternalChannel { .. } => {},
        }
    }

    /// Powers down the digital input buffer of the pin whose
    /// input-disable bit sits at `didr_bit`, leaving every other bit and
    /// register unchanged.
    pub fn disable_digital_input(&mut self, didr_bit: u8)
        requires
            didr_bit < 8,
        ensures
            final(self).didr0 == old(self).didr0 | (1u8 << didr_bit),
            (final(self).didr0 >> didr_bit) & 1 == 1,
            forall|b2: u8|
                b2 < 8 && b2 != didr_bit ==> (final(self).didr0 >> b2) & 1 == (old(self).didr0
                    >> b2) & 1,
            final(self).admux == old(self).admux,
            final(self).inputs == old(self).inputs,
    {
        let d = self.didr0;
        let b = didr_bit;
        self.didr0 = d | (1u8 << b);
        proof {
            assert((d | (1u8 << b)) >> b & 1 == 1 && (forall|b2: u8|
                b2 < 8 && b2 != b ==> (d | (1u8 << b)) >> b2 & 1 == d >> b2 & 1)) by (bit_vector)
                requires
                    b < 8,
            ;
        }
    }

    /// Reads the source of `ch` to completion: selects it, converts, and
    /// returns the raw result at the converter's native resolution — the
    /// input level routed by the entry's multiplexer code.
    pub fn read_blocking(&mut self, ch: &AdcChannel) -> (r: u16)
        requires
            old(self).spec_wf(),
            ch.spec_fits(),
        ensures
            final(self).spec_wf(),
            *final(self) == old(self).spec_after_select(*ch),
            r == old(self).inputs@[ch.spec_mux_code() as int],
            r <= ADC_MAX,
    {
        self.select_channel(ch);
        let m = ch.mux_code();
        self.inputs[m as usize]
    }
}

/// For every entry of a device's ADC channel table: selecting it leaves
/// the multiplexer field holding exactly the entry's documented code; a
/// pin-backed entry sets its input-disable bit and no other; an
/// internal-source entry leaves the input-disable register untouched;
/// and the reference bits persist.
pub proof fn lemma_adc_table_selection(adc: Adc, table: Seq<AdcChannel>, i: int)
    requires
        0 <= i < table.len(),
        table[i].spec_fits(),
    ensures
        adc.spec_after_select(table[i]).admux & MUX_MASK == table[i].spec_mux_code(),
        adc.spec_after_select(table[i]).admux & REFS_MASK == adc.admux & REFS_MASK,
        table[i] is InternalChannel ==> adc.spec_after_select(table[i]).didr0 == adc.didr0,
        table[i] matches AdcChannel::PinChannel { didr_bit, .. } ==> (adc.spec_after_select(
            table[i],
        ).didr0 >> didr_bit) & 1 == 1 && (forall|b2: u8|
            b2 < 8 && b2 != didr_bit ==> (adc.spec_after_select(table[i]).didr0 >> b2) & 1 == (
            adc.didr0 >> b2) & 1),
        adc.spec_after_select(table[i]).inputs == adc.inputs,
{
    let ch = table[i];
    let x = adc.admux;
    let mm = ch.spec_mux_code();
    assert(((x & !MUX_MASK) | (mm & MUX_MASK)) & MUX_MASK == mm && ((x & !MUX_MASK) | (mm
        & MUX_MASK)) & REFS_MASK == x & REFS_MASK) by (bit_vector)
        requires
            mm < 16,
    ;
    match ch {
        AdcChannel::PinChannel { didr_bit, .. } => {
            let d = adc.didr0;
            let b = didr_bit;
            assert((d | (1u8 << b)) >> b & 1 == 1 && (forall|b2: u8|
                b2 < 8 && b2 != b ==> (d | (1u8 << b)) >> b2 & 1 == d >> b2 & 1)) by (bit_vector)
                requires
                    b < 8,
            ;
        },
        AdcChannel::InternalChannel { .. } => {},
    }
}

} // verus!
