//! Timer/PWM subsystem: per-timer-family register encodings for waveform
//! mode and clock prescaling, and the model of a running PWM timer with its
//! duty-cycle channels.
//!
//! Cross-device variance lives entirely in data: a timer belongs to a
//! family, and the family selects the bit encodings through lookup
//! functions, never through per-device control flow.

use vstd::prelude::*;
use crate::descriptor::{PinId, PwmChannelDesc};

verus! {

/// Mask of the clock-select bits in the control register B of a timer.
pub const CS_MASK: u8 = 0b0000_0111;

/// Mask of the waveform-generation bits in the control register A.
pub const WGM_A_MASK: u8 = 0b0000_0011;

/// Mask of the waveform-generation bits held in the control register B.
pub const WGM_B_MASK: u8 = 0b0001_1000;

/// Compare-output field value wiring the compare match to the pin
/// (clear on match, set at rollover).
pub const COM_MATCH_CLEAR: u8 = 0b10;

/// Compare-output field value leaving the pin disconnected from the timer.
pub const COM_DISCONNECTED: u8 = 0b00;

/// A clock divider applied to a timer's input clock.
#[derive(Clone, Copy, PartialEq, Eq, Structural, Debug)]
pub enum Prescaler {
    Direct,
    Prescale8,
    Prescale64,
    Prescale256,
    Prescale1024,
}

/// A family of timer hardware sharing one register encoding.
///
/// The encoding of the waveform-mode and clock-select bits is the dominant
/// source of cross-device variance, so it is keyed by family here:
/// - `Standard8`: an eight-bit counter with the common clock-select table;
/// - `Standard16`: a sixteen-bit counter, waveform bits split between the
///   two control registers;
/// - `Async8`: an eight-bit counter with its own clock domain, whose
///   clock-select table has extra dividers and therefore different codes.
#[derive(Clone, Copy, PartialEq, Eq, Structural, Debug)]
pub enum TimerFamily {
    Standard8,
    Standard16,
    Async8,
}

/// One of the up to three compare units of a timer.
#[derive(Clone, Copy, PartialEq, Eq, Structural, Debug)]
pub enum CompareUnit {
    UnitA,
    UnitB,
    UnitC,
}

/// The clock-select code of `p` for family `f`, as placed in the low bits
/// of the control register B.
pub open spec fn spec_prescaler_bits(f: TimerFamily, p: Prescaler) -> u8 {
    match f {
        TimerFamily::Standard8 | TimerFamily::Standard16 => match p {
            Prescaler::Direct => 1,
            Prescaler::Prescale8 => 2,
            Prescaler::Prescale64 => 3,
            Prescaler::Prescale256 => 4,
            Prescaler::Prescale1024 => 5,
        },
        TimerFamily::Async8 => match p {
            Prescaler::Direct => 1,
            Prescaler::Prescale8 => 2,
            Prescaler::Prescale64 => 4,
            Prescaler::Prescale256 => 6,
            Prescaler::Prescale1024 => 7,
        },
    }
}

/// Looks up the clock-select code of `p` for family `f`.
pub fn prescaler_bits(f: TimerFamily, p: Prescaler) -> (r: u8)
    ensures
        r == spec_prescaler_bits(f, p),
        r & CS_MASK == r,
        1 <= r <= 7,
{
    let r: u8 = match f {
        TimerFamily::Standard8 | TimerFamily::Standard16 => match p {
            Prescaler::Direct => 1,
            Prescaler::Prescale8 => 2,
            Prescaler::Prescale64 => 3,
            Prescaler::Prescale256 => 4,
            Prescaler::Prescale1024 => 5,
        },
        TimerFamily::Async8 => match p {
            Prescaler::Direct => 1,
            Prescaler::Prescale8 => 2,
            Prescaler::Prescale64 => 4,
            Prescaler::Prescale256 => 6,
            Prescaler::Prescale1024 => 7,
        },
    };
    proof {
        let rr = r;
        assert(rr & CS_MASK == rr) by (bit_vector)
            requires
                1 <= rr <= 7,
        ;
    }
    r
}

/// The prescaler selected by a clock-select code under family `f`, if the
/// code belongs to the fixed enumeration.
pub open spec fn spec_prescaler_of_bits(f: TimerFamily, bits: u8) -> Option<Prescaler> {
    match f {
        TimerFamily::Standard8 | TimerFamily::Standard16 => {
            if bits == 1 {
                Some(Prescaler::Direct)
            } else if bits == 2 {
                Some(Prescaler::Prescale8)
            } else if bits == 3 {
                Some(Prescaler::Prescale64)
            } else if bits == 4 {
                Some(Prescaler::Prescale256)
            } else if bits == 5 {
                Some(Prescaler::Prescale1024)
            } else {
                None
            }
        },
        TimerFamily::Async8 => {
            if bits == 1 {
                Some(Prescaler::Direct)
            } else if bits == 2 {
                Some(Prescaler::Prescale8)
            } else if bits == 4 {
                Some(Prescaler::Prescale64)
            } else if bits == 6 {
                Some(Prescaler::Prescale256)
            } else if bits == 7 {
                Some(Prescaler::Prescale1024)
            } else {
                None
            }
        },
    }
}

/// Decodes a clock-select code back to its prescaler under family `f`.
pub fn prescaler_of_bits(f: TimerFamily, bits: u8) -> (r: Option<Prescaler>)
    ensures
        r == spec_prescaler_of_bits(f, bits),
{
    match f {
        TimerFamily::Standard8 | TimerFamily::Standard16 => {
            if bits == 1 {
                Some(Prescaler::Direct)
            } else if bits == 2 {
                Some(Prescaler::Prescale8)
            } else if bits == 3 {
                Some(Prescaler::Prescale64)
            } else if bits == 4 {
                Some(Prescaler::Prescale256)
            } else if bits == 5 {
                Some(Prescaler::Prescale1024)
            } else {
                None
            }
        },
        TimerFamily::Async8 => {
            if bits == 1 {
                Some(Prescaler::Direct)
            } else if bits == 2 {
                Some(Prescaler::Prescale8)
            } else if bits == 4 {
                Some(Prescaler::Prescale64)
            } else if bits == 6 {
                Some(Prescaler::Prescale256)
            } else if bits == 7 {
                Some(Prescaler::Prescale1024)
            } else {
                None
            }
        },
    }
}

/// Per family, each prescaler encodes to a distinct code, and decoding the
/// code gives the prescaler back: the mapping between the fixed enumeration
/// and the device bit patterns is a bijection onto its range.
pub proof fn lemma_prescaler_bijective(f: TimerFamily, p1: Prescaler, p2: Prescaler)
    ensures
        spec_prescaler_of_bits(f, spec_prescaler_bits(f, p1)) == Some(p1),
        spec_prescaler_bits(f, p1) == spec_prescaler_bits(f, p2) ==> p1 == p2,
{
}

/// The waveform-generation bits written to the control register A of
/// family `f` to select the periodic (fast PWM) compare mode.
pub open spec fn spec_wgm_a_bits(f: TimerFamily) -> u8 {
    match f {
        TimerFamily::Standard8 => 0b11,
        TimerFamily::Standard16 => 0b01,
        TimerFamily::Async8 => 0b11,
    }
}

/// Looks up the waveform bits of the control register A for family `f`.
pub fn wgm_a_bits(f: TimerFamily) -> (r: u8)
    ensures
        r == spec_wgm_a_bits(f),
        r & WGM_A_MASK == r,
{
    let r: u8 = match f {
        TimerFamily::Standard8 => 0b11,
        TimerFamily::Standard16 => 0b01,
        TimerFamily::Async8 => 0b11,
    };
    assert((0b11u8 & WGM_A_MASK == 0b11u8) && (0b01u8 & WGM_A_MASK == 0b01u8)) by (bit_vector);
    r
}

/// The waveform-generation bits written to the control register B of
/// family `f` for the same mode; sixteen-bit timers split the waveform
/// field over both control registers.
pub open spec fn spec_wgm_b_bits(f: TimerFamily) -> u8 {
    match f {
        TimerFamily::Standard8 => 0b0000_0000,
        TimerFamily::Standard16 => 0b0000_1000,
        TimerFamily::Async8 => 0b0000_0000,
    }
}

/// Looks up the waveform bits of the control register B for family `f`.
pub fn wgm_b_bits(f: TimerFamily) -> (r: u8)
    ensures
        r == spec_wgm_b_bits(f),
        r & WGM_B_MASK == r,
        r & CS_MASK == 0,
{
    let r: u8 = match f {
        TimerFamily::Standard8 => 0b0000_0000,
        TimerFamily::Standard16 => 0b0000_1000,
        TimerFamily::Async8 => 0b0000_0000,
    };
    assert((0b0000_1000u8 & WGM_B_MASK == 0b0000_1000u8) && (0b0000_1000u8 & CS_MASK == 0)
        && (0u8 & WGM_B_MASK == 0) && (0u8 & CS_MASK == 0)) by (bit_vector);
    r
}

/// The duty-register mask of family `f`: a compare register keeps the low
/// eight bits on an eight-bit timer and all sixteen on a sixteen-bit one.
pub open spec fn spec_duty_mask(f: TimerFamily) -> u16 {
    match f {
        TimerFamily::Standard8 => 0x00ff,
        TimerFamily::Standard16 => 0xffff,
        TimerFamily::Async8 => 0x00ff,
    }
}

/// Looks up the duty-register mask for family `f`.
pub fn duty_mask(f: TimerFamily) -> (r: u16)
    ensures
        r == spec_duty_mask(f),
{
    match f {
        TimerFamily::Standard8 => 0x00ff,
        TimerFamily::Standard16 => 0xffff,
        TimerFamily::Async8 => 0x00ff,
    }
}

/// A duty value already within the register width of family `f` passes
/// the register's truncation unchanged.
pub proof fn lemma_duty_within_width(v: u16, f: TimerFamily)
    requires
        v <= spec_duty_mask(f),
    ensures
        v & spec_duty_mask(f) == v,
{
    assert(v & 0xffffu16 == v) by (bit_vector);
    if v <= 0x00ff {
        assert(v & 0x00ffu16 == v) by (bit_vector)
            requires
                v <= 0x00ff,
        ;
    }
}

/// The bit position of a compare unit's output field in the control
/// register A.
pub open spec fn spec_com_shift(u: CompareUnit) -> u8 {
    match u {
        CompareUnit::UnitA => 6,
        CompareUnit::UnitB => 4,
        CompareUnit::UnitC => 2,
    }
}

/// Looks up the bit position of a compare unit's output field.
pub fn com_shift(u: CompareUnit) -> (r: u8)
    ensures
        r == spec_com_shift(u),
        r == 2 || r == 4 || r == 6,
{
    match u {
        CompareUnit::UnitA => 6,
        CompareUnit::UnitB => 4,
        CompareUnit::UnitC => 2,
    }
}

/// The two-bit compare-output field of unit `u` in a control register A
/// value.
pub open spec fn spec_com_field(tccr_a: u8, u: CompareUnit) -> u8 {
    (tccr_a >> spec_com_shift(u)) & 3
}

/// A control register A value with the compare-output field of unit `u`
/// replaced by `val`, all other bits kept.
pub open spec fn spec_set_com(tccr_a: u8, u: CompareUnit, val: u8) -> u8 {
    (tccr_a & !(3u8 << spec_com_shift(u))) | ((val & 3) << spec_com_shift(u))
}

/// The two compare-output field values in use both fit the two-bit
/// field.
pub proof fn lemma_com_values_fit()
    ensures
        COM_MATCH_CLEAR & 3 == COM_MATCH_CLEAR,
        COM_DISCONNECTED & 3 == COM_DISCONNECTED,
{
    assert(0b10u8 & 3 == 0b10u8 && 0b00u8 & 3 == 0b00u8) by (bit_vector);
}

/// Replacing one compare-output field changes exactly that field: the
/// other units' fields and the waveform bits keep their values.
pub proof fn lemma_set_com_fields(x: u8, u: CompareUnit, val: u8)
    ensures
        spec_com_field(spec_set_com(x, u, val), u) == val & 3,
        forall|u2: CompareUnit|
            u2 != u ==> spec_com_field(spec_set_com(x, u, val), u2) == spec_com_field(x, u2),
        spec_set_com(x, u, val) & WGM_A_MASK == x & WGM_A_MASK,
{
    assert(((x & !(3u8 << 6)) | ((val & 3) << 6)) >> 6 & 3 == val & 3) by (bit_vector);
    assert(((x & !(3u8 << 6)) | ((val & 3) << 6)) >> 4 & 3 == x >> 4 & 3) by (bit_vector);
    assert(((x & !(3u8 << 6)) | ((val & 3) << 6)) >> 2 & 3 == x >> 2 & 3) by (bit_vector);
    assert(((x & !(3u8 << 6)) | ((val & 3) << 6)) & 0b0000_0011 == x & 0b0000_0011)
        by (bit_vector);
    assert(((x & !(3u8 << 4)) | ((val & 3) << 4)) >> 4 & 3 == val & 3) by (bit_vector);
    assert(((x & !(3u8 << 4)) | ((val & 3) << 4)) >> 6 & 3 == x >> 6 & 3) by (bit_vector);
    assert(((x & !(3u8 << 4)) | ((val & 3) << 4)) >> 2 & 3 == x >> 2 & 3) by (bit_vector);
    assert(((x & !(3u8 << 4)) | ((val & 3) << 4)) & 0b0000_0011 == x & 0b0000_0011)
        by (bit_vector);
    assert(((x & !(3u8 << 2)) | ((val & 3) << 2)) >> 2 & 3 == val & 3) by (bit_vector);
    assert(((x & !(3u8 << 2)) | ((val & 3) << 2)) >> 6 & 3 == x >> 6 & 3) by (bit_vector);
    assert(((x & !(3u8 << 2)) | ((val & 3) << 2)) >> 4 & 3 == x >> 4 & 3) by (bit_vector);
    assert(((x & !(3u8 << 2)) | ((val & 3) << 2)) & 0b0000_0011 == x & 0b0000_0011)
        by (bit_vector);
}

/// An unclaimed hardware counter: the timer resource as the device hands
/// it out, before any PWM configuration.
///
/// Claiming it is consuming, so a timer has a single owner at a time.
#[derive(Debug)]
pub struct TimerUnit {
    pub family: TimerFamily,
    pub channels: Vec<PwmChannelDesc>,
}

/// A running PWM timer.
///
/// Waveform mode and prescaler are written once, when the unclaimed
/// [`TimerUnit`] is consumed; no further transition exists, so
/// reconfiguring means releasing and re-acquiring the timer. The control
/// registers and the per-unit compare registers are modeled as plain
/// fields.
#[derive(Debug)]
pub struct PwmTimer {
    pub family: TimerFamily,
    pub channels: Vec<PwmChannelDesc>,
    pub tccr_a: u8,
    pub tccr_b: u8,
    pub ocr_a: u16,
    pub ocr_b: u16,
    pub ocr_c: u16,
}

impl PwmTimer {
    /// Whether the descriptor bound `pin` to compare unit `unit` of this
    /// timer.
    pub open spec fn spec_has_binding(self, pin: PinId, unit: CompareUnit) -> bool {
        exists|j: int|
            0 <= j < self.channels@.len() && #[trigger] self.channels@[j] == PwmChannelDesc {
                pin,
                unit,
            }
    }

    /// The compare register of unit `u`.
    pub open spec fn spec_ocr(self, u: CompareUnit) -> u16 {
        match u {
            CompareUnit::UnitA => self.ocr_a,
            CompareUnit::UnitB => self.ocr_b,
            CompareUnit::UnitC => self.ocr_c,
        }
    }

    /// The timer with the compare register of unit `u` set to `v`.
    pub open spec fn spec_with_ocr(self, u: CompareUnit, v: u16) -> PwmTimer {
        match u {
            CompareUnit::UnitA => PwmTimer { ocr_a: v, ..self },
            CompareUnit::UnitB => PwmTimer { ocr_b: v, ..self },
            CompareUnit::UnitC => PwmTimer { ocr_c: v, ..self },
        }
    }

    /// The timer with the compare-output field of unit `u` set to `val`.
    pub open spec fn spec_with_com(self, u: CompareUnit, val: u8) -> PwmTimer {
        PwmTimer { tccr_a: spec_set_com(self.tccr_a, u, val), ..self }
    }

    /// The compare-output field of unit `u` as currently configured.
    pub open spec fn spec_com(self, u: CompareUnit) -> u8 {
        spec_com_field(self.tccr_a, u)
    }

    /// Claims the timer and enters its one running state: writes the
    /// waveform bits of its family and the clock-select code of `p`, and
    /// leaves every compare unit disconnected with a zero compare
    /// register.
    ///
    /// Reading the mode and prescaler bits back yields exactly the
    /// configured values.
    pub fn new(unit: TimerUnit, p: Prescaler) -> (r: PwmTimer)
        ensures
            r.family == unit.family,
            r.channels == unit.channels,
            r.tccr_a == spec_wgm_a_bits(unit.family),
            r.tccr_b == spec_wgm_b_bits(unit.family) | spec_prescaler_bits(unit.family, p),
            r.ocr_a == 0 && r.ocr_b == 0 && r.ocr_c == 0,
            r.tccr_b & CS_MASK == spec_prescaler_bits(unit.family, p),
            spec_prescaler_of_bits(r.family, r.tccr_b & CS_MASK) == Some(p),
            r.tccr_a & WGM_A_MASK == spec_wgm_a_bits(unit.family),
            r.tccr_b & WGM_B_MASK == spec_wgm_b_bits(unit.family),
            r.spec_com(CompareUnit::UnitA) == COM_DISCONNECTED,
            r.spec_com(CompareUnit::UnitB) == COM_DISCONNECTED,
            r.spec_com(CompareUnit::UnitC) == COM_DISCONNECTED,
    {
        let a = wgm_a_bits(unit.family);
        let b = wgm_b_bits(unit.family);
        let cs = prescaler_bits(unit.family, p);
        let tccr_b = b | cs;
        proof {
            lemma_prescaler_bijective(unit.family, p, p);
            let bb = b;
            let cc = cs;
            assert((bb | cc) & CS_MASK == cc && (bb | cc) & WGM_B_MASK == bb) by (bit_vector)
                requires
                    bb & CS_MASK == 0,
                    bb & WGM_B_MASK == bb,
                    cc & CS_MASK == cc,
            ;
            let aa = a;
            assert(aa >> 6 & 3 == 0 && aa >> 4 & 3 == 0 && aa >> 2 & 3 == 0) by (bit_vector)
                requires
                    aa & WGM_A_MASK == aa,
            ;
        }
        PwmTimer {
            family: unit.family,
            channels: unit.channels,
            tccr_a: a,
            tccr_b,
            ocr_a: 0,
            ocr_b: 0,
            ocr_c: 0,
        }
    }

    /// Decodes the clock-select bits of the control register B back to
    /// the prescaler they select.
    pub fn read_prescaler(&self) -> (r: Option<Prescaler>)
        ensures
            r == spec_prescaler_of_bits(self.family, self.tccr_b & CS_MASK),
    {
        prescaler_of_bits(self.family, self.tccr_b & CS_MASK)
    }

    /// Reads the waveform bits of the control register A.
    pub fn read_wgm_a(&self) -> (r: u8)
        ensures
            r == self.tccr_a & WGM_A_MASK,
    {
        self.tccr_a & WGM_A_MASK
    }

    /// Reads the waveform bits of the control register B.
    pub fn read_wgm_b(&self) -> (r: u8)
        ensures
            r == self.tccr_b & WGM_B_MASK,
    {
        self.tccr_b & WGM_B_MASK
    }

    /// Reads the compare-output field of unit `u`.
    pub fn read_com(&self, u: CompareUnit) -> (r: u8)
        ensures
            r == self.spec_com(u),
    {
        let shift = com_shift(u);
        self.tccr_a >> shift & 3
    }

    /// Reads the compare register of unit `u`.
    pub fn read_ocr(&self, u: CompareUnit) -> (r: u16)
        ensures
            r == self.spec_ocr(u),
    {
        match u {
            CompareUnit::UnitA => self.ocr_a,
            CompareUnit::UnitB => self.ocr_b,
            CompareUnit::UnitC => self.ocr_c,
        }
    }

    /// Finds the compare unit the descriptor bound `pin` to on this
    /// timer, if any.
    #[verifier::loop_isolation(false)]
    pub fn find_binding(&self, pin: PinId) -> (r: Option<CompareUnit>)
        ensures
            match r {
                Some(u) => self.spec_has_binding(pin, u),
                None => forall|j: int|
                    0 <= j < self.channels@.len() ==> (#[trigger] self.channels@[j]).pin != pin,
            },
    {
        let mut j: usize = 0;
        while j < self.channels.len()
            invariant
                0 <= j <= self.channels@.len(),
                forall|j2: int| 0 <= j2 < j ==> (#[trigger] self.channels@[j2]).pin != pin,
            decreases self.channels@.len() - j,
        {
            if self.channels[j].pin == pin {
                return Some(self.channels[j].unit);
            }
            j += 1;
        }
        None
    }
}

/// A pin bound to one compare unit of a running timer.
///
/// The binding is pre-associated in the descriptor: exactly one
/// (compare register, connect field) pair of one timer. The channel
/// borrows its timer for register writes; its duty and connect state are
/// independent of every other channel of the same timer, while prescaler
/// and waveform mode stay shared.
#[derive(Debug)]
pub struct PwmPin {
    pub pin: PinId,
    pub unit: CompareUnit,
}

impl PwmPin {
    /// Writes `duty` into the channel's compare register, with no other
    /// side effect.
    ///
    /// A value exceeding the timer's register width is truncated by the
    /// register itself, exactly as the hardware stores it.
    pub fn set_duty(&self, timer: &mut PwmTimer, duty: u16)
        requires
            old(timer).spec_has_binding(self.pin, self.unit),
        ensures
            *final(timer) == old(timer).spec_with_ocr(
                self.unit,
                duty & spec_duty_mask(old(timer).family),
            ),
            final(timer).spec_ocr(self.unit) == duty & spec_duty_mask(old(timer).family),
            duty <= spec_duty_mask(old(timer).family) ==> final(timer).spec_ocr(self.unit)
                == duty,
    {
        proof {
            if duty <= spec_duty_mask(timer.family) {
                lemma_duty_within_width(duty, timer.family);
            }
        }
        let m = duty_mask(timer.family);
        let v = duty & m;
        match self.unit {
            CompareUnit::UnitA => timer.ocr_a = v,
            CompareUnit::UnitB => timer.ocr_b = v,
            CompareUnit::UnitC => timer.ocr_c = v,
        }
    }

    /// Reads the channel's compare register back.
    pub fn get_duty(&self, timer: &PwmTimer) -> (r: u16)
        ensures
            r == timer.spec_ocr(self.unit),
    {
        timer.read_ocr(self.unit)
    }

    /// The largest duty value the channel's register resolves: the
    /// timer's register width, all ones.
    pub fn get_max_duty(&self, timer: &PwmTimer) -> (r: u16)
        ensures
            r == spec_duty_mask(timer.family),
    {
        duty_mask(timer.family)
    }

    /// Sets the connect field, wiring the compare output to the physical
    /// pin; the stored duty and every other channel keep their state.
    pub fn enable(&self, timer: &mut PwmTimer)
        requires
            old(timer).spec_has_binding(self.pin, self.unit),
        ensures
            *final(timer) == old(timer).spec_with_com(self.unit, COM_MATCH_CLEAR),
            final(timer).spec_com(self.unit) == COM_MATCH_CLEAR,
            forall|u2: CompareUnit|
                u2 != self.unit ==> final(timer).spec_com(u2) == old(timer).spec_com(u2),
            final(timer).spec_ocr(self.unit) == old(timer).spec_ocr(self.unit),
            final(timer).ocr_a == old(timer).ocr_a && final(timer).ocr_b == old(timer).ocr_b
                && final(timer).ocr_c == old(timer).ocr_c,
            final(timer).tccr_b == old(timer).tccr_b,
            final(timer).tccr_a & WGM_A_MASK == old(timer).tccr_a & WGM_A_MASK,
    {
        proof {
            lemma_com_values_fit();
        }
        self.write_com(timer, COM_MATCH_CLEAR);
    }

    /// Clears only the connect field: the pin is disconnected from the
    /// timer while the duty register keeps its value, so re-enabling
    /// resumes the previous duty.
    pub fn disable(&self, timer: &mut PwmTimer)
        requires
            old(timer).spec_has_binding(self.pin, self.unit),
        ensures
            *final(timer) == old(timer).spec_with_com(self.unit, COM_DISCONNECTED),
            final(timer).spec_com(self.unit) == COM_DISCONNECTED,
            forall|u2: CompareUnit|
                u2 != self.unit ==> final(timer).spec_com(u2) == old(timer).spec_com(u2),
            final(timer).spec_ocr(self.unit) == old(timer).spec_ocr(self.unit),
            final(timer).ocr_a == old(timer).ocr_a && final(timer).ocr_b == old(timer).ocr_b
                && final(timer).ocr_c == old(timer).ocr_c,
            final(timer).tccr_b == old(timer).tccr_b,
            final(timer).tccr_a & WGM_A_MASK == old(timer).tccr_a & WGM_A_MASK,
    {
        proof {
            lemma_com_values_fit();
        }
        self.write_com(timer, COM_DISCONNECTED);
    }

    /// Writes `val` into the channel's connect field, leaving every other
    /// register bit as it was.
    fn write_com(&self, timer: &mut PwmTimer, val: u8)
        ensures
            *final(timer) == old(timer).spec_with_com(self.unit, val),
            final(timer).spec_com(self.unit) == val & 3,
            forall|u2: CompareUnit|
                u2 != self.unit ==> final(timer).spec_com(u2) == old(timer).spec_com(u2),
            final(timer).tccr_a & WGM_A_MASK == old(timer).tccr_a & WGM_A_MASK,
    {
        let shift = com_shift(self.unit);
        timer.tccr_a = (timer.tccr_a & !(3u8 << shift)) | ((val & 3) << shift);
        proof {
            lemma_set_com_fields(old(timer).tccr_a, self.unit, val);
        }
    }
}

/// Writing a duty value, connecting the channel, and disconnecting it
/// again leaves the compare register holding that duty, truncated to the
/// timer's register width: disabling never clears the stored duty.
pub proof fn lemma_duty_persists(t: PwmTimer, u: CompareUnit, v: u16)
    ensures
        ({
            let configured = t.spec_with_ocr(u, v & spec_duty_mask(t.family));
            let enabled = configured.spec_with_com(u, COM_MATCH_CLEAR);
            let disabled = enabled.spec_with_com(u, COM_DISCONNECTED);
            disabled.spec_ocr(u) == v & spec_duty_mask(t.family) && disabled.spec_com(u)
                == COM_DISCONNECTED && enabled.spec_ocr(u) == v & spec_duty_mask(t.family)
                && enabled.spec_com(u) == COM_MATCH_CLEAR
        }),
{
    lemma_com_values_fit();
    let configured = t.spec_with_ocr(u, v & spec_duty_mask(t.family));
    lemma_set_com_fields(configured.tccr_a, u, COM_MATCH_CLEAR);
    let enabled = configured.spec_with_com(u, COM_MATCH_CLEAR);
    lemma_set_com_fields(enabled.tccr_a, u, COM_DISCONNECTED);
}

} // verus!
