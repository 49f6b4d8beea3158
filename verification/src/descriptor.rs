//! The hardware descriptor: declarative, per-device data naming the port
//! and bit layout, the timer-to-pin compare-unit bindings, the EEPROM
//! shape, the ADC channel table, and the serial pin roles.
//!
//! A descriptor is pure data; all cross-device variance is expressed here
//! and nowhere else. [`DeviceDescriptor::validate`] holds a descriptor to
//! its well-formedness rules, so a malformed descriptor fails before any
//! peripheral object is generated from it.

use vstd::prelude::*;
use crate::pwm::{CompareUnit, TimerFamily};

verus! {

/// A physical pin, named by its port identifier and bit index.
///
/// Fixed at generation time and never reassigned.
#[derive(Clone, Copy, PartialEq, Eq, Structural, Debug)]
pub struct PinId {
    pub port: u8,
    pub bit: u8,
}

/// One port of the device: its identifier and the bit positions that are
/// bonded out as pins.
#[derive(Clone, Debug)]
pub struct PortDesc {
    pub id: u8,
    pub bits: Vec<u8>,
}

/// One PWM binding: a pin pre-associated with exactly one compare unit of
/// the timer that carries this entry.
#[derive(Clone, Copy, PartialEq, Eq, Structural, Debug)]
pub struct PwmChannelDesc {
    pub pin: PinId,
    pub unit: CompareUnit,
}

/// One hardware counter: its register-encoding family and its pin
/// bindings.
#[derive(Clone, Debug)]
pub struct TimerDesc {
    pub family: TimerFamily,
    pub channels: Vec<PwmChannelDesc>,
}

/// The width of the EEPROM address register.
#[derive(Clone, Copy, PartialEq, Eq, Structural, Debug)]
pub enum AddrWidth {
    Width8,
    Width16,
}

/// The EEPROM bank: its capacity in bytes and its address width.
#[derive(Clone, Copy, PartialEq, Eq, Structural, Debug)]
pub struct EepromDesc {
    pub capacity: u16,
    pub addr_width: AddrWidth,
}

/// One entry of the ADC channel table: an analog source together with its
/// multiplexer code.
///
/// A pin-backed source also carries the position of its digital-input-
/// disable bit; internal sources (bandgap, ground, temperature sensor)
/// have none, so selecting them can never touch an input-disable bit.
#[derive(Clone, Copy, PartialEq, Eq, Structural, Debug)]
pub enum AdcChannel {
    PinChannel { pin: PinId, mux: u8, didr_bit: u8 },
    InternalChannel { mux: u8 },
}

/// The pin roles of the serial peripheral interface.
#[derive(Clone, Copy, PartialEq, Eq, Structural, Debug)]
pub struct SpiRoles {
    pub sclk: PinId,
    pub mosi: PinId,
    pub miso: PinId,
    pub cs: PinId,
}

/// The full per-device descriptor: the sole source of cross-device
/// variance.
#[derive(Clone, Debug)]
pub struct DeviceDescriptor {
    pub ports: Vec<PortDesc>,
    pub timers: Vec<TimerDesc>,
    pub eeprom: EepromDesc,
    pub adc: Vec<AdcChannel>,
    pub spi: Option<SpiRoles>,
}

/// The first well-formedness rule a malformed descriptor breaks, in the
/// order the checks run: ports, EEPROM, timers, ADC, serial roles.
#[derive(Clone, Copy, PartialEq, Eq, Structural, Debug)]
pub enum DescriptorError {
    InvalidPorts,
    InvalidEeprom,
    InvalidPwm,
    InvalidAdc,
    InvalidSpi,
}

impl AdcChannel {
    /// The multiplexer code of this entry.
    pub open spec fn spec_mux_code(self) -> u8 {
        match self {
            AdcChannel::PinChannel { mux, .. } => mux,
            AdcChannel::InternalChannel { mux } => mux,
        }
    }

    /// Reads the multiplexer code of this entry.
    pub fn mux_code(&self) -> (r: u8)
        ensures
            r == self.spec_mux_code(),
    {
        match self {
            AdcChannel::PinChannel { mux, .. } => *mux,
            AdcChannel::InternalChannel { mux } => *mux,
        }
    }

    /// Whether this entry selects a physical pin rather than an internal
    /// source.
    pub open spec fn spec_is_pin_backed(self) -> bool {
        self is PinChannel
    }

    /// Tells a pin-backed entry from an internal one.
    pub fn is_pin_backed(&self) -> (r: bool)
        ensures
            r == self.spec_is_pin_backed(),
    {
        match self {
            AdcChannel::PinChannel { .. } => true,
            AdcChannel::InternalChannel { .. } => false,
        }
    }

    /// The entry's codes fit their register fields: the multiplexer code
    /// its four-bit field, and an input-disable bit its eight-bit
    /// register.
    pub open spec fn spec_fits(self) -> bool {
        &&& self.spec_mux_code() < 16
        &&& match self {
            AdcChannel::PinChannel { didr_bit, .. } => didr_bit < 8,
            AdcChannel::InternalChannel { .. } => true,
        }
    }
}

/// Whether the layout `ports` bonds out the pin `pin`.
pub open spec fn spec_layout_has(ports: Seq<PortDesc>, pin: PinId) -> bool {
    exists|i: int, j: int|
        0 <= i < ports.len() && 0 <= j < ports[i].bits@.len() && ports[i].id == pin.port
            && #[trigger] ports[i].bits@[j] == pin.bit
}

/// Well-formedness of one port: every bit position fits an eight-bit
/// port, and no position is listed twice.
pub open spec fn spec_port_wf(p: PortDesc) -> bool {
    &&& forall|k: int| 0 <= k < p.bits@.len() ==> #[trigger] p.bits@[k] < 8
    &&& forall|k1: int, k2: int|
        0 <= k1 < k2 < p.bits@.len() ==> #[trigger] p.bits@[k1] != #[trigger] p.bits@[k2]
}

/// Well-formedness of the port table: each port is well-formed and no
/// port identifier repeats.
pub open spec fn spec_ports_wf(ports: Seq<PortDesc>) -> bool {
    &&& forall|i: int| 0 <= i < ports.len() ==> spec_port_wf(#[trigger] ports[i])
    &&& forall|i: int, j: int|
        0 <= i < j < ports.len() ==> (#[trigger] ports[i]).id != (#[trigger] ports[j]).id
}

/// Looks a pin up in the port layout.
#[verifier::loop_isolation(false)]
pub fn layout_has(ports: &Vec<PortDesc>, pin: PinId) -> (r: bool)
    ensures
        r == spec_layout_has(ports@, pin),
{
    let mut i: usize = 0;
    while i < ports.len()
        invariant
            0 <= i <= ports.len(),
            forall|i2: int, j2: int|
                0 <= i2 < i && 0 <= j2 < ports@[i2].bits@.len() ==> !(ports@[i2].id == pin.port
                    && #[trigger] ports@[i2].bits@[j2] == pin.bit),
        decreases ports.len() - i,
    {
        if ports[i].id == pin.port {
            let bits = &ports[i].bits;
            let mut j: usize = 0;
            while j < bits.len()
                invariant
                    0 <= j <= bits.len(),
                    forall|j2: int| 0 <= j2 < j ==> #[trigger] bits@[j2] != pin.bit,
                decreases bits.len() - j,
            {
                if bits[j] == pin.bit {
                    return true;
                }
                j += 1;
            }
        }
        i += 1;
    }
    false
}

/// Checks the port table: bit positions in range, no repeated bit within
/// a port, no repeated port identifier.
#[verifier::loop_isolation(false)]
pub fn ports_ok(ports: &Vec<PortDesc>) -> (r: bool)
    ensures
        r == spec_ports_wf(ports@),
{
    let mut i: usize = 0;
    while i < ports.len()
        invariant
            0 <= i <= ports.len(),
            forall|i2: int| 0 <= i2 < i ==> spec_port_wf(#[trigger] ports@[i2]),
            forall|i1: int, i2: int|
                0 <= i1 < i2 < i ==> (#[trigger] ports@[i1]).id != (#[trigger] ports@[i2]).id,
        decreases ports.len() - i,
    {
        let bits = &ports[i].bits;
        let mut k: usize = 0;
        while k < bits.len()
            invariant
                0 <= k <= bits.len(),
                forall|k2: int| 0 <= k2 < k ==> #[trigger] bits@[k2] < 8,
                forall|k1: int, k2: int|
                    0 <= k1 < k2 < k ==> #[trigger] bits@[k1] != #[trigger] bits@[k2],
            decreases bits.len() - k,
        {
            if bits[k] >= 8 {
                return false;
            }
            let mut k2: usize = 0;
            while k2 < k
                invariant
                    0 <= k2 <= k < bits.len(),
                    forall|k3: int| 0 <= k3 < k2 ==> #[trigger] bits@[k3] != bits@[k as int],
                decreases k - k2,
            {
                if bits[k2] == bits[k] {
                    return false;
                }
                k2 += 1;
            }
            k += 1;
        }
        let mut i2: usize = 0;
        while i2 < i
            invariant
                0 <= i2 <= i < ports.len(),
                forall|i3: int| 0 <= i3 < i2 ==> (#[trigger] ports@[i3]).id != ports@[i as int].id,
            decreases i - i2,
        {
            if ports[i2].id == ports[i].id {
                return false;
            }
            i2 += 1;
        }
        i += 1;
    }
    true
}

/// Well-formedness of the EEPROM shape: a non-empty store whose capacity
/// is addressable at the declared address width.
pub open spec fn spec_eeprom_wf(e: EepromDesc) -> bool {
    &&& e.capacity > 0
    &&& e.addr_width == AddrWidth::Width8 ==> e.capacity <= 256
}

/// Checks the EEPROM shape.
pub fn eeprom_ok(e: &EepromDesc) -> (r: bool)
    ensures
        r == spec_eeprom_wf(*e),
{
    e.capacity > 0 && (match e.addr_width {
        AddrWidth::Width8 => e.capacity <= 256,
        AddrWidth::Width16 => true,
    })
}

/// Well-formedness of one timer's bindings: every bound pin exists in the
/// layout, a third compare unit only appears on a sixteen-bit family, and
/// no compare unit is bound twice.
pub open spec fn spec_timer_wf(t: TimerDesc, ports: Seq<PortDesc>) -> bool {
    &&& forall|j: int|
        0 <= j < t.channels@.len() ==> spec_layout_has(ports, (#[trigger] t.channels@[j]).pin)
    &&& forall|j: int|
        0 <= j < t.channels@.len() ==> ((#[trigger] t.channels@[j]).unit == CompareUnit::UnitC
            ==> t.family == TimerFamily::Standard16)
    &&& forall|j1: int, j2: int|
        0 <= j1 < j2 < t.channels@.len() ==> (#[trigger] t.channels@[j1]).unit != (
        #[trigger] t.channels@[j2]).unit
}

/// Whether `pin` is already claimed by a PWM binding that comes before
/// position (`i`, `j`) in the timer table.
pub open spec fn spec_claimed_earlier(
    timers: Seq<TimerDesc>,
    i: int,
    j: int,
    pin: PinId,
) -> bool {
    exists|i2: int, j2: int|
        0 <= i2 < timers.len() && 0 <= j2 < timers[i2].channels@.len() && (i2 < i || (i2 == i && j2
            < j)) && (#[trigger] timers[i2].channels@[j2]).pin == pin
}

/// No pin is claimed by two PWM bindings: each binding's pin is not
/// claimed by any earlier binding.
pub open spec fn spec_pwm_claims_unique(timers: Seq<TimerDesc>) -> bool {
    forall|i: int, j: int|
        0 <= i < timers.len() && 0 <= j < timers[i].channels@.len() ==> !spec_claimed_earlier(
            timers,
            i,
            j,
            (#[trigger] timers[i].channels@[j]).pin,
        )
}

/// Well-formedness of the timer table.
pub open spec fn spec_timers_wf(timers: Seq<TimerDesc>, ports: Seq<PortDesc>) -> bool {
    &&& forall|i: int| 0 <= i < timers.len() ==> spec_timer_wf(#[trigger] timers[i], ports)
    &&& spec_pwm_claims_unique(timers)
}

/// Looks `pin` up among the PWM bindings before position (`i`, `j`).
#[verifier::loop_isolation(false)]
fn claimed_earlier(timers: &Vec<TimerDesc>, i: usize, j: usize, pin: PinId) -> (r: bool)
    requires
        i < timers@.len(),
        j <= timers@[i as int].channels@.len(),
    ensures
        r == spec_claimed_earlier(timers@, i as int, j as int, pin),
{
    let mut i2: usize = 0;
    while i2 < i
        invariant
            0 <= i2 <= i,
            forall|i3: int, j3: int|
                0 <= i3 < i2 && 0 <= j3 < timers@[i3].channels@.len() ==> (
                #[trigger] timers@[i3].channels@[j3]).pin != pin,
        decreases i - i2,
    {
        let channels = &timers[i2].channels;
        let mut j2: usize = 0;
        while j2 < channels.len()
            invariant
                0 <= j2 <= channels@.len(),
                forall|j3: int| 0 <= j3 < j2 ==> (#[trigger] channels@[j3]).pin != pin,
            decreases channels@.len() - j2,
        {
            if channels[j2].pin == pin {
                return true;
            }
            j2 += 1;
        }
        i2 += 1;
    }
    let channels = &timers[i].channels;
    let mut j2: usize = 0;
    while j2 < j
        invariant
            0 <= j2 <= j,
            forall|j3: int| 0 <= j3 < j2 ==> (#[trigger] channels@[j3]).pin != pin,
        decreases j - j2,
    {
        if channels[j2].pin == pin {
            return true;
        }
        j2 += 1;
    }
    false
}

/// Checks the timer table: per-timer well-formedness and no duplicate pin
/// claim across all bindings.
#[verifier::loop_isolation(false)]
pub fn timers_ok(timers: &Vec<TimerDesc>, ports: &Vec<PortDesc>) -> (r: bool)
    ensures
        r == spec_timers_wf(timers@, ports@),
{
    let mut i: usize = 0;
    while i < timers.len()
        invariant
            0 <= i <= timers.len(),
            forall|i2: int| 0 <= i2 < i ==> spec_timer_wf(#[trigger] timers@[i2], ports@),
            forall|i2: int, j2: int|
                0 <= i2 < i && 0 <= j2 < timers@[i2].channels@.len() ==> !spec_claimed_earlier(
                    timers@,
                    i2,
                    j2,
                    (#[trigger] timers@[i2].channels@[j2]).pin,
                ),
        decreases timers.len() - i,
    {
        let mut j: usize = 0;
        while j < timers[i].channels.len()
            invariant
                0 <= i < timers.len(),
                0 <= j <= timers@[i as int].channels@.len(),
                forall|j2: int|
                    0 <= j2 < j ==> spec_layout_has(
                        ports@,
                        (#[trigger] timers@[i as int].channels@[j2]).pin,
                    ),
                forall|j2: int|
                    0 <= j2 < j ==> ((#[trigger] timers@[i as int].channels@[j2]).unit
                        == CompareUnit::UnitC ==> timers@[i as int].family
                        == TimerFamily::Standard16),
                forall|j1: int, j2: int|
                    0 <= j1 < j2 < j ==> (#[trigger] timers@[i as int].channels@[j1]).unit != (
                    #[trigger] timers@[i as int].channels@[j2]).unit,
                forall|j2: int|
                    0 <= j2 < j ==> !spec_claimed_earlier(
                        timers@,
                        i as int,
                        j2,
                        (#[trigger] timers@[i as int].channels@[j2]).pin,
                    ),
            decreases timers@[i as int].channels@.len() - j,
        {
            let ch = timers[i].channels[j];
            if !layout_has(ports, ch.pin) {
                return false;
            }
            if matches!(ch.unit, CompareUnit::UnitC) && !matches!(
                timers[i].family,
                TimerFamily::Standard16,
            ) {
                return false;
            }
            let mut j2: usize = 0;
            while j2 < j
                invariant
                    0 <= j2 <= j < timers@[i as int].channels@.len(),
                    forall|j3: int|
                        0 <= j3 < j2 ==> (#[trigger] timers@[i as int].channels@[j3]).unit
                            != ch.unit,
                decreases j - j2,
            {
                if timers[i].channels[j2].unit == ch.unit {
                    return false;
                }
                j2 += 1;
            }
            if claimed_earlier(timers, i, j, ch.pin) {
                return false;
            }
            j += 1;
        }
        i += 1;
    }
    true
}

/// Well-formedness of one ADC table entry: the multiplexer code fits its
/// register field, and a pin-backed source names a pin of the layout and
/// an input-disable bit that fits its register.
pub open spec fn spec_adc_channel_wf(ch: AdcChannel, ports: Seq<PortDesc>) -> bool {
    &&& ch.spec_fits()
    &&& match ch {
        AdcChannel::PinChannel { pin, .. } => spec_layout_has(ports, pin),
        AdcChannel::InternalChannel { .. } => true,
    }
}

/// Well-formedness of the ADC table: each entry well-formed, and no
/// multiplexer code listed twice.
pub open spec fn spec_adc_wf(adc: Seq<AdcChannel>, ports: Seq<PortDesc>) -> bool {
    &&& forall|i: int| 0 <= i < adc.len() ==> spec_adc_channel_wf(#[trigger] adc[i], ports)
    &&& forall|i: int, j: int|
        0 <= i < j < adc.len() ==> (#[trigger] adc[i]).spec_mux_code() != (
        #[trigger] adc[j]).spec_mux_code()
}

/// Checks the ADC channel table.
#[verifier::loop_isolation(false)]
pub fn adc_ok(adc: &Vec<AdcChannel>, ports: &Vec<PortDesc>) -> (r: bool)
    ensures
        r == spec_adc_wf(adc@, ports@),
{
    let mut i: usize = 0;
    while i < adc.len()
        invariant
            0 <= i <= adc.len(),
            forall|i2: int| 0 <= i2 < i ==> spec_adc_channel_wf(#[trigger] adc@[i2], ports@),
            forall|i1: int, i2: int|
                0 <= i1 < i2 < i ==> (#[trigger] adc@[i1]).spec_mux_code() != (
                #[trigger] adc@[i2]).spec_mux_code(),
        decreases adc.len() - i,
    {
        let ch = adc[i];
        if ch.mux_code() >= 16 {
            return false;
        }
        match ch {
            AdcChannel::PinChannel { pin, didr_bit, .. } => {
                if didr_bit >= 8 || !layout_has(ports, pin) {
                    return false;
                }
            },
            AdcChannel::InternalChannel { .. } => {},
        }
        let mut i2: usize = 0;
        while i2 < i
            invariant
                0 <= i2 <= i < adc.len(),
                forall|i3: int|
                    0 <= i3 < i2 ==> (#[trigger] adc@[i3]).spec_mux_code() != adc@[i as int].spec_mux_code(),
            decreases i - i2,
        {
            if adc[i2].mux_code() == ch.mux_code() {
                return false;
            }
            i2 += 1;
        }
        i += 1;
    }
    true
}

/// Well-formedness of the serial pin roles: every named pin exists in the
/// layout.
pub open spec fn spec_spi_wf(spi: Option<SpiRoles>, ports: Seq<PortDesc>) -> bool {
    match spi {
        Some(s) => spec_layout_has(ports, s.sclk) && spec_layout_has(ports, s.mosi)
            && spec_layout_has(ports, s.miso) && spec_layout_has(ports, s.cs),
        None => true,
    }
}

/// Checks the serial pin roles.
pub fn spi_ok(spi: &Option<SpiRoles>, ports: &Vec<PortDesc>) -> (r: bool)
    ensures
        r == spec_spi_wf(*spi, ports@),
{
    match spi {
        Some(s) => layout_has(ports, s.sclk) && layout_has(ports, s.mosi) && layout_has(
            ports,
            s.miso,
        ) && layout_has(ports, s.cs),
        None => true,
    }
}

impl DeviceDescriptor {
    /// The whole descriptor is well-formed: ports, EEPROM shape, timer
    /// bindings, ADC table and serial roles all pass their rules.
    pub open spec fn spec_valid(self) -> bool {
        &&& spec_ports_wf(self.ports@)
        &&& spec_eeprom_wf(self.eeprom)
        &&& spec_timers_wf(self.timers@, self.ports@)
        &&& spec_adc_wf(self.adc@, self.ports@)
        &&& spec_spi_wf(self.spi, self.ports@)
    }

    /// Validates the descriptor: succeeds exactly on well-formed
    /// descriptors, and otherwise reports the first rule broken, in the
    /// fixed order ports, EEPROM, timers, ADC, serial roles.
    pub fn validate(&self) -> (r: Result<(), DescriptorError>)
        ensures
            r is Ok <==> self.spec_valid(),
            r == Err::<(), DescriptorError>(DescriptorError::InvalidPorts) <==> !spec_ports_wf(
                self.ports@,
            ),
            r == Err::<(), DescriptorError>(DescriptorError::InvalidEeprom) <==> (spec_ports_wf(
                self.ports@,
            ) && !spec_eeprom_wf(self.eeprom)),
            r == Err::<(), DescriptorError>(DescriptorError::InvalidPwm) <==> (spec_ports_wf(
                self.ports@,
            ) && spec_eeprom_wf(self.eeprom) && !spec_timers_wf(self.timers@, self.ports@)),
            r == Err::<(), DescriptorError>(DescriptorError::InvalidAdc) <==> (spec_ports_wf(
                self.ports@,
            ) && spec_eeprom_wf(self.eeprom) && spec_timers_wf(self.timers@, self.ports@)
                && !spec_adc_wf(self.adc@, self.ports@)),
            r == Err::<(), DescriptorError>(DescriptorError::InvalidSpi) <==> (spec_ports_wf(
                self.ports@,
            ) && spec_eeprom_wf(self.eeprom) && spec_timers_wf(self.timers@, self.ports@)
                && spec_adc_wf(self.adc@, self.ports@) && !spec_spi_wf(self.spi, self.ports@)),
    {
        if !ports_ok(&self.ports) {
            return Err(DescriptorError::InvalidPorts);
        }
        if !eeprom_ok(&self.eeprom) {
            return Err(DescriptorError::InvalidEeprom);
        }
        if !timers_ok(&self.timers, &self.ports) {
            return Err(DescriptorError::InvalidPwm);
        }
        if !adc_ok(&self.adc, &self.ports) {
            return Err(DescriptorError::InvalidAdc);
        }
        if !spi_ok(&self.spi, &self.ports) {
            return Err(DescriptorError::InvalidSpi);
        }
        Ok(())
    }
}

} // verus!
