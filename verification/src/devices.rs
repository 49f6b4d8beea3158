//! Per-device hardware descriptors, authored once per supported device.
//!
//! Each function here is pure data in the shape [`DeviceDescriptor`]
//! asks for; nothing else in the crate varies per device. Port
//! identifiers and internal multiplexer codes use the canonical
//! constants below.

use vstd::prelude::*;
use crate::descriptor::{
    spec_adc_channel_wf, spec_adc_wf, spec_claimed_earlier, spec_eeprom_wf, spec_layout_has,
    spec_port_wf, spec_ports_wf, spec_spi_wf, spec_timer_wf, spec_timers_wf, AdcChannel,
    AddrWidth, DeviceDescriptor, EepromDesc, PinId, PortDesc, PwmChannelDesc, SpiRoles, TimerDesc,
};
use crate::pwm::{CompareUnit, TimerFamily};

verus! {

/// Canonical code of port A.
pub const PORT_A: u8 = 0;

/// Canonical code of port B.
pub const PORT_B: u8 = 1;

/// Canonical code of port C.
pub const PORT_C: u8 = 2;

/// Canonical code of port D.
pub const PORT_D: u8 = 3;

/// Canonical code of port E.
pub const PORT_E: u8 = 4;

/// Canonical code of port F.
pub const PORT_F: u8 = 5;

/// Canonical code of port G.
pub const PORT_G: u8 = 6;

/// Canonical code of port H.
pub const PORT_H: u8 = 7;

/// Canonical code of port L.
pub const PORT_L: u8 = 8;

/// Multiplexer code of the internal temperature sensor.
pub const MUX_TEMPERATURE: u8 = 8;

/// Multiplexer code of the internal bandgap reference.
pub const MUX_VBG: u8 = 14;

/// Multiplexer code of the internal ground source.
pub const MUX_GND: u8 = 15;

/// The descriptor of a small device: four ports (one of them four bits
/// wide), a sixty-four byte EEPROM behind an eight-bit address register,
/// one sixteen-bit timer driving two pins of port B, an eight-entry
/// pin channel table on ports C and A plus the three internal sources,
/// and the serial roles on port B.
pub fn attiny88() -> (d: DeviceDescriptor)
    ensures
        d.spec_valid(),
        d.ports@.len() == 4,
        d.ports@[0].id == PORT_A && d.ports@[0].bits@ == seq![0u8, 1, 2, 3],
        d.ports@[1].id == PORT_B && d.ports@[1].bits@ == seq![0u8, 1, 2, 3, 4, 5, 6, 7],
        d.ports@[2].id == PORT_C && d.ports@[2].bits@ == seq![0u8, 1, 2, 3, 4, 5, 6, 7],
        d.ports@[3].id == PORT_D && d.ports@[3].bits@ == seq![0u8, 1, 2, 3, 4, 5, 6, 7],
        d.eeprom == (EepromDesc { capacity: 64, addr_width: AddrWidth::Width8 }),
        d.timers@.len() == 1,
        d.timers@[0].family == TimerFamily::Standard16,
        d.timers@[0].channels@ == seq![
            (PwmChannelDesc { pin: PinId { port: PORT_B, bit: 1 }, unit: CompareUnit::UnitA }),
            (PwmChannelDesc { pin: PinId { port: PORT_B, bit: 2 }, unit: CompareUnit::UnitB }),
        ],
        d.adc@ == seq![
            (AdcChannel::PinChannel { pin: PinId { port: PORT_C, bit: 0 }, mux: 0, didr_bit: 0 }),
            (AdcChannel::PinChannel { pin: PinId { port: PORT_C, bit: 1 }, mux: 1, didr_bit: 1 }),
            (AdcChannel::PinChannel { pin: PinId { port: PORT_C, bit: 2 }, mux: 2, didr_bit: 2 }),
            (AdcChannel::PinChannel { pin: PinId { port: PORT_C, bit: 3 }, mux: 3, didr_bit: 3 }),
            (AdcChannel::PinChannel { pin: PinId { port: PORT_C, bit: 4 }, mux: 4, didr_bit: 4 }),
            (AdcChannel::PinChannel { pin: PinId { port: PORT_C, bit: 5 }, mux: 5, didr_bit: 5 }),
            (AdcChannel::PinChannel { pin: PinId { port: PORT_A, bit: 0 }, mux: 6, didr_bit: 6 }),
            (AdcChannel::PinChannel { pin: PinId { port: PORT_A, bit: 1 }, mux: 7, didr_bit: 7 }),
            (AdcChannel::InternalChannel { mux: MUX_VBG }),
            (AdcChannel::InternalChannel { mux: MUX_GND }),
            (AdcChannel::InternalChannel { mux: MUX_TEMPERATURE }),
        ],
        d.spi == Some(
            SpiRoles {
                sclk: PinId { port: PORT_B, bit: 5 },
                mosi: PinId { port: PORT_B, bit: 3 },
                miso: PinId { port: PORT_B, bit: 4 },
                cs: PinId { port: PORT_B, bit: 2 },
            },
        ),
{
    let ports: Vec<PortDesc> = vec![
        PortDesc { id: PORT_A, bits: vec![0u8, 1, 2, 3] },
        PortDesc { id: PORT_B, bits: vec![0u8, 1, 2, 3, 4, 5, 6, 7] },
        PortDesc { id: PORT_C, bits: vec![0u8, 1, 2, 3, 4, 5, 6, 7] },
        PortDesc { id: PORT_D, bits: vec![0u8, 1, 2, 3, 4, 5, 6, 7] },
    ];
    let timers: Vec<TimerDesc> = vec![
        TimerDesc {
            family: TimerFamily::Standard16,
            channels: vec![
                PwmChannelDesc { pin: PinId { port: PORT_B, bit: 1 }, unit: CompareUnit::UnitA },
                PwmChannelDesc { pin: PinId { port: PORT_B, bit: 2 }, unit: CompareUnit::UnitB },
            ],
        },
    ];
    let adc: Vec<AdcChannel> = vec![
        AdcChannel::PinChannel { pin: PinId { port: PORT_C, bit: 0 }, mux: 0, didr_bit: 0 },
        AdcChannel::PinChannel { pin: PinId { port: PORT_C, bit: 1 }, mux: 1, didr_bit: 1 },
        AdcChannel::PinChannel { pin: PinId { port: PORT_C, bit: 2 }, mux: 2, didr_bit: 2 },
        AdcChannel::PinChannel { pin: PinId { port: PORT_C, bit: 3 }, mux: 3, didr_bit: 3 },
        AdcChannel::PinChannel { pin: PinId { port: PORT_C, bit: 4 }, mux: 4, didr_bit: 4 },
        AdcChannel::PinChannel { pin: PinId { port: PORT_C, bit: 5 }, mux: 5, didr_bit: 5 },
        AdcChannel::PinChannel { pin: PinId { port: PORT_A, bit: 0 }, mux: 6, didr_bit: 6 },
        AdcChannel::PinChannel { pin: PinId { port: PORT_A, bit: 1 }, mux: 7, didr_bit: 7 },
        AdcChannel::InternalChannel { mux: MUX_VBG },
        AdcChannel::InternalChannel { mux: MUX_GND },
        AdcChannel::InternalChannel { mux: MUX_TEMPERATURE },
    ];
    let d = DeviceDescriptor {
        ports,
        timers,
        eeprom: EepromDesc { capacity: 64, addr_width: AddrWidth::Width8 },
        adc,
        spi: Some(
            SpiRoles {
                sclk: PinId { port: PORT_B, bit: 5 },
                mosi: PinId { port: PORT_B, bit: 3 },
                miso: PinId { port: PORT_B, bit: 4 },
                cs: PinId { port: PORT_B, bit: 2 },
            },
        ),
    };
    proof {
        lemma_attiny88_valid(d);
    }
    d
}

/// The shipped small-device descriptor passes every well-formedness
/// rule: its validity is settled at verification time, not at run time.
proof fn lemma_attiny88_valid(d: DeviceDescriptor)
    requires
        d.ports@.len() == 4,
        d.ports@[0].id == PORT_A && d.ports@[0].bits@ == seq![0u8, 1, 2, 3],
        d.ports@[1].id == PORT_B && d.ports@[1].bits@ == seq![0u8, 1, 2, 3, 4, 5, 6, 7],
        d.ports@[2].id == PORT_C && d.ports@[2].bits@ == seq![0u8, 1, 2, 3, 4, 5, 6, 7],
        d.ports@[3].id == PORT_D && d.ports@[3].bits@ == seq![0u8, 1, 2, 3, 4, 5, 6, 7],
        d.eeprom == (EepromDesc { capacity: 64, addr_width: AddrWidth::Width8 }),
        d.timers@.len() == 1,
        d.timers@[0].family == TimerFamily::Standard16,
        d.timers@[0].channels@ == seq![
            (PwmChannelDesc { pin: PinId { port: PORT_B, bit: 1 }, unit: CompareUnit::UnitA }),
            (PwmChannelDesc { pin: PinId { port: PORT_B, bit: 2 }, unit: CompareUnit::UnitB }),
        ],
        d.adc@ == seq![
            (AdcChannel::PinChannel { pin: PinId { port: PORT_C, bit: 0 }, mux: 0, didr_bit: 0 }),
            (AdcChannel::PinChannel { pin: PinId { port: PORT_C, bit: 1 }, mux: 1, didr_bit: 1 }),
            (AdcChannel::PinChannel { pin: PinId { port: PORT_C, bit: 2 }, mux: 2, didr_bit: 2 }),
            (AdcChannel::PinChannel { pin: PinId { port: PORT_C, bit: 3 }, mux: 3, didr_bit: 3 }),
            (AdcChannel::PinChannel { pin: PinId { port: PORT_C, bit: 4 }, mux: 4, didr_bit: 4 }),
            (AdcChannel::PinChannel { pin: PinId { port: PORT_C, bit: 5 }, mux: 5, didr_bit: 5 }),
            (AdcChannel::PinChannel { pin: PinId { port: PORT_A, bit: 0 }, mux: 6, didr_bit: 6 }),
            (AdcChannel::PinChannel { pin: PinId { port: PORT_A, bit: 1 }, mux: 7, didr_bit: 7 }),
            (AdcChannel::InternalChannel { mux: MUX_VBG }),
            (AdcChannel::InternalChannel { mux: MUX_GND }),
            (AdcChannel::InternalChannel { mux: MUX_TEMPERATURE }),
        ],
        d.spi == Some(
            SpiRoles {
                sclk: PinId { port: PORT_B, bit: 5 },
                mosi: PinId { port: PORT_B, bit: 3 },
                miso: PinId { port: PORT_B, bit: 4 },
                cs: PinId { port: PORT_B, bit: 2 },
            },
        ),
    ensures
        d.spec_valid(),
{
    let ps = d.ports@;
    assert(spec_port_wf(ps[0]));
    assert(spec_port_wf(ps[1]));
    assert(spec_port_wf(ps[2]));
    assert(spec_port_wf(ps[3]));
    assert(spec_ports_wf(ps));
    assert(spec_eeprom_wf(d.eeprom));
    assert(spec_layout_has(ps, PinId { port: PORT_A, bit: 0 })) by {
        assert(ps[0].bits@[0] == 0);
    }
    assert(spec_layout_has(ps, PinId { port: PORT_A, bit: 1 })) by {
        assert(ps[0].bits@[1] == 1);
    }
    assert forall|b: u8| b < 8 implies spec_layout_has(ps, PinId { port: PORT_B, bit: b }) by {
        assert(ps[1].bits@[b as int] == b);
    }
    assert forall|b: u8| b < 8 implies spec_layout_has(ps, PinId { port: PORT_C, bit: b }) by {
        assert(ps[2].bits@[b as int] == b);
    }
    let ts = d.timers@;
    assert(spec_timer_wf(ts[0], ps));
    assert forall|i: int, j: int|
        0 <= i < ts.len() && 0 <= j < ts[i].channels@.len() implies !spec_claimed_earlier(
        ts,
        i,
        j,
        (#[trigger] ts[i].channels@[j]).pin,
    ) by {
        assert(ts[0].channels@[0].pin != ts[0].channels@[1].pin);
    }
    assert(spec_timers_wf(ts, ps));
    let table = d.adc@;
    assert forall|i: int| 0 <= i < table.len() implies spec_adc_channel_wf(
        #[trigger] table[i],
        ps,
    ) by {
        assert(table[i].spec_fits());
    }
    assert(spec_adc_wf(table, ps));
    assert(spec_spi_wf(d.spi, ps));
}

/// The descriptor of a mid-size device: ports B, C and D, a kibibyte of
/// EEPROM behind a sixteen-bit address register, three timers — an
/// eight-bit one on pins D6/D5, a sixteen-bit one on B1/B2, and an
/// asynchronous eight-bit one on B3/D3 — a six-entry pin channel table
/// on port C plus the three internal sources, and the serial roles on
/// port B.
pub fn atmega328p() -> (d: DeviceDescriptor)
    ensures
        d.spec_valid(),
        d.ports@.len() == 3,
        d.ports@[0].id == PORT_B && d.ports@[0].bits@ == seq![0u8, 1, 2, 3, 4, 5, 6, 7],
        d.ports@[1].id == PORT_C && d.ports@[1].bits@ == seq![0u8, 1, 2, 3, 4, 5, 6],
        d.ports@[2].id == PORT_D && d.ports@[2].bits@ == seq![0u8, 1, 2, 3, 4, 5, 6, 7],
        d.eeprom == (EepromDesc { capacity: 1024, addr_width: AddrWidth::Width16 }),
        d.timers@.len() == 3,
        d.timers@[0].family == TimerFamily::Standard8,
        d.timers@[0].channels@ == seq![
            (PwmChannelDesc { pin: PinId { port: PORT_D, bit: 6 }, unit: CompareUnit::UnitA }),
            (PwmChannelDesc { pin: PinId { port: PORT_D, bit: 5 }, unit: CompareUnit::UnitB }),
        ],
        d.timers@[1].family == TimerFamily::Standard16,
        d.timers@[1].channels@ == seq![
            (PwmChannelDesc { pin: PinId { port: PORT_B, bit: 1 }, unit: CompareUnit::UnitA }),
            (PwmChannelDesc { pin: PinId { port: PORT_B, bit: 2 }, unit: CompareUnit::UnitB }),
        ],
        d.timers@[2].family == TimerFamily::Async8,
        d.timers@[2].channels@ == seq![
            (PwmChannelDesc { pin: PinId { port: PORT_B, bit: 3 }, unit: CompareUnit::UnitA }),
            (PwmChannelDesc { pin: PinId { port: PORT_D, bit: 3 }, unit: CompareUnit::UnitB }),
        ],
        d.adc@ == seq![
            (AdcChannel::PinChannel { pin: PinId { port: PORT_C, bit: 0 }, mux: 0, didr_bit: 0 }),
            (AdcChannel::PinChannel { pin: PinId { port: PORT_C, bit: 1 }, mux: 1, didr_bit: 1 }),
            (AdcChannel::PinChannel { pin: PinId { port: PORT_C, bit: 2 }, mux: 2, didr_bit: 2 }),
            (AdcChannel::PinChannel { pin: PinId { port: PORT_C, bit: 3 }, mux: 3, didr_bit: 3 }),
            (AdcChannel::PinChannel { pin: PinId { port: PORT_C, bit: 4 }, mux: 4, didr_bit: 4 }),
            (AdcChannel::PinChannel { pin: PinId { port: PORT_C, bit: 5 }, mux: 5, didr_bit: 5 }),
            (AdcChannel::InternalChannel { mux: MUX_VBG }),
            (AdcChannel::InternalChannel { mux: MUX_GND }),
            (AdcChannel::InternalChannel { mux: MUX_TEMPERATURE }),
        ],
        d.spi == Some(
            SpiRoles {
                sclk: PinId { port: PORT_B, bit: 5 },
                mosi: PinId { port: PORT_B, bit: 3 },
                miso: PinId { port: PORT_B, bit: 4 },
                cs: PinId { port: PORT_B, bit: 2 },
            },
        ),
{
    let ports: Vec<PortDesc> = vec![
        PortDesc { id: PORT_B, bits: vec![0u8, 1, 2, 3, 4, 5, 6, 7] },
        PortDesc { id: PORT_C, bits: vec![0u8, 1, 2, 3, 4, 5, 6] },
        PortDesc { id: PORT_D, bits: vec![0u8, 1, 2, 3, 4, 5, 6, 7] },
    ];
    let timers: Vec<TimerDesc> = vec![
        TimerDesc {
            family: TimerFamily::Standard8,
            channels: vec![
                PwmChannelDesc { pin: PinId { port: PORT_D, bit: 6 }, unit: CompareUnit::UnitA },
                PwmChannelDesc { pin: PinId { port: PORT_D, bit: 5 }, unit: CompareUnit::UnitB },
            ],
        },
        TimerDesc {
            family: TimerFamily::Standard16,
            channels: vec![
                PwmChannelDesc { pin: PinId { port: PORT_B, bit: 1 }, unit: CompareUnit::UnitA },
                PwmChannelDesc { pin: PinId { port: PORT_B, bit: 2 }, unit: CompareUnit::UnitB },
            ],
        },
        TimerDesc {
            family: TimerFamily::Async8,
            channels: vec![
                PwmChannelDesc { pin: PinId { port: PORT_B, bit: 3 }, unit: CompareUnit::UnitA },
                PwmChannelDesc { pin: PinId { port: PORT_D, bit: 3 }, unit: CompareUnit::UnitB },
            ],
        },
    ];
    let adc: Vec<AdcChannel> = vec![
        AdcChannel::PinChannel { pin: PinId { port: PORT_C, bit: 0 }, mux: 0, didr_bit: 0 },
        AdcChannel::PinChannel { pin: PinId { port: PORT_C, bit: 1 }, mux: 1, didr_bit: 1 },
        AdcChannel::PinChannel { pin: PinId { port: PORT_C, bit: 2 }, mux: 2, didr_bit: 2 },
        AdcChannel::PinChannel { pin: PinId { port: PORT_C, bit: 3 }, mux: 3, didr_bit: 3 },
        AdcChannel::PinChannel { pin: PinId { port: PORT_C, bit: 4 }, mux: 4, didr_bit: 4 },
        AdcChannel::PinChannel { pin: PinId { port: PORT_C, bit: 5 }, mux: 5, didr_bit: 5 },
        AdcChannel::InternalChannel { mux: MUX_VBG },
        AdcChannel::InternalChannel { mux: MUX_GND },
        AdcChannel::InternalChannel { mux: MUX_TEMPERATURE },
    ];
    let d = DeviceDescriptor {
        ports,
        timers,
        eeprom: EepromDesc { capacity: 1024, addr_width: AddrWidth::Width16 },
        adc,
        spi: Some(
            SpiRoles {
                sclk: PinId { port: PORT_B, bit: 5 },
                mosi: PinId { port: PORT_B, bit: 3 },
                miso: PinId { port: PORT_B, bit: 4 },
                cs: PinId { port: PORT_B, bit: 2 },
            },
        ),
    };
    proof {
        lemma_atmega328p_valid(d);
    }
    d
}

/// The shipped mid-size-device descriptor passes every well-formedness
/// rule: its validity is settled at verification time, not at run time.
proof fn lemma_atmega328p_valid(d: DeviceDescriptor)
    requires
        d.ports@.len() == 3,
        d.ports@[0].id == PORT_B && d.ports@[0].bits@ == seq![0u8, 1, 2, 3, 4, 5, 6, 7],
        d.ports@[1].id == PORT_C && d.ports@[1].bits@ == seq![0u8, 1, 2, 3, 4, 5, 6],
        d.ports@[2].id == PORT_D && d.ports@[2].bits@ == seq![0u8, 1, 2, 3, 4, 5, 6, 7],
        d.eeprom == (EepromDesc { capacity: 1024, addr_width: AddrWidth::Width16 }),
        d.timers@.len() == 3,
        d.timers@[0].family == TimerFamily::Standard8,
        d.timers@[0].channels@ == seq![
            (PwmChannelDesc { pin: PinId { port: PORT_D, bit: 6 }, unit: CompareUnit::UnitA }),
            (PwmChannelDesc { pin: PinId { port: PORT_D, bit: 5 }, unit: CompareUnit::UnitB }),
        ],
        d.timers@[1].family == TimerFamily::Standard16,
        d.timers@[1].channels@ == seq![
            (PwmChannelDesc { pin: PinId { port: PORT_B, bit: 1 }, unit: CompareUnit::UnitA }),
            (PwmChannelDesc { pin: PinId { port: PORT_B, bit: 2 }, unit: CompareUnit::UnitB }),
        ],
        d.timers@[2].family == TimerFamily::Async8,
        d.timers@[2].channels@ == seq![
            (PwmChannelDesc { pin: PinId { port: PORT_B, bit: 3 }, unit: CompareUnit::UnitA }),
            (PwmChannelDesc { pin: PinId { port: PORT_D, bit: 3 }, unit: CompareUnit::UnitB }),
        ],
        d.adc@ == seq![
            (AdcChannel::PinChannel { pin: PinId { port: PORT_C, bit: 0 }, mux: 0, didr_bit: 0 }),
            (AdcChannel::PinChannel { pin: PinId { port: PORT_C, bit: 1 }, mux: 1, didr_bit: 1 }),
            (AdcChannel::PinChannel { pin: PinId { port: PORT_C, bit: 2 }, mux: 2, didr_bit: 2 }),
            (AdcChannel::PinChannel { pin: PinId { port: PORT_C, bit: 3 }, mux: 3, didr_bit: 3 }),
            (AdcChannel::PinChannel { pin: PinId { port: PORT_C, bit: 4 }, mux: 4, didr_bit: 4 }),
            (AdcChannel::PinChannel { pin: PinId { port: PORT_C, bit: 5 }, mux: 5, didr_bit: 5 }),
            (AdcChannel::InternalChannel { mux: MUX_VBG }),
            (AdcChannel::InternalChannel { mux: MUX_GND }),
            (AdcChannel::InternalChannel { mux: MUX_TEMPERATURE }),
        ],
        d.spi == Some(
            SpiRoles {
                sclk: PinId { port: PORT_B, bit: 5 },
                mosi: PinId { port: PORT_B, bit: 3 },
                miso: PinId { port: PORT_B, bit: 4 },
                cs: PinId { port: PORT_B, bit: 2 },
            },
        ),
    ensures
        d.spec_valid(),
{
    let ps = d.ports@;
    assert(spec_port_wf(ps[0]));
    assert(spec_port_wf(ps[1]));
    assert(spec_port_wf(ps[2]));
    assert(spec_ports_wf(ps));
    assert(spec_eeprom_wf(d.eeprom));
    assert forall|b: u8| b < 8 implies spec_layout_has(ps, PinId { port: PORT_B, bit: b }) by {
        assert(ps[0].bits@[b as int] == b);
    }
    assert forall|b: u8| b < 7 implies spec_layout_has(ps, PinId { port: PORT_C, bit: b }) by {
        assert(ps[1].bits@[b as int] == b);
    }
    assert forall|b: u8| b < 8 implies spec_layout_has(ps, PinId { port: PORT_D, bit: b }) by {
        assert(ps[2].bits@[b as int] == b);
    }
    let ts = d.timers@;
    assert(spec_timer_wf(ts[0], ps));
    assert(spec_timer_wf(ts[1], ps));
    assert(spec_timer_wf(ts[2], ps));
    assert forall|i: int, j: int|
        0 <= i < ts.len() && 0 <= j < ts[i].channels@.len() implies !spec_claimed_earlier(
        ts,
        i,
        j,
        (#[trigger] ts[i].channels@[j]).pin,
    ) by {
        assert(ts[0].channels@[0].pin == (PinId { port: PORT_D, bit: 6 }));
        assert(ts[0].channels@[1].pin == (PinId { port: PORT_D, bit: 5 }));
        assert(ts[1].channels@[0].pin == (PinId { port: PORT_B, bit: 1 }));
        assert(ts[1].channels@[1].pin == (PinId { port: PORT_B, bit: 2 }));
        assert(ts[2].channels@[0].pin == (PinId { port: PORT_B, bit: 3 }));
        assert(ts[2].channels@[1].pin == (PinId { port: PORT_D, bit: 3 }));
    }
    assert(spec_timers_wf(ts, ps));
    let table = d.adc@;
    assert forall|i: int| 0 <= i < table.len() implies spec_adc_channel_wf(
        #[trigger] table[i],
        ps,
    ) by {
        assert(table[i].spec_fits());
    }
    assert(spec_adc_wf(table, ps));
    assert(spec_spi_wf(d.spi, ps));
}

/// The descriptor of a large device: six ports, four kibibytes of
/// EEPROM behind a sixteen-bit address register, and six timers — the
/// three sixteen-bit ones carrying three compare units each.
///
/// The hardware also routes the sixteen-bit timer 1's third compare
/// unit to pin B7, which already belongs to the eight-bit timer's first
/// unit; the descriptor binds every pin to exactly one compare unit, so
/// that third unit stays unbound here.
pub fn atmega2560() -> (d: DeviceDescriptor)
    ensures
        d.spec_valid(),
        d.ports@.len() == 6,
        d.ports@[0].id == PORT_B && d.ports@[0].bits@ == seq![0u8, 1, 2, 3, 4, 5, 6, 7],
        d.ports@[1].id == PORT_E && d.ports@[1].bits@ == seq![0u8, 1, 2, 3, 4, 5, 6, 7],
        d.ports@[2].id == PORT_F && d.ports@[2].bits@ == seq![0u8, 1, 2, 3, 4, 5, 6, 7],
        d.ports@[3].id == PORT_G && d.ports@[3].bits@ == seq![0u8, 1, 2, 3, 4, 5],
        d.ports@[4].id == PORT_H && d.ports@[4].bits@ == seq![0u8, 1, 2, 3, 4, 5, 6, 7],
        d.ports@[5].id == PORT_L && d.ports@[5].bits@ == seq![0u8, 1, 2, 3, 4, 5, 6, 7],
        d.eeprom == (EepromDesc { capacity: 4096, addr_width: AddrWidth::Width16 }),
        d.timers@.len() == 6,
        d.timers@[0].family == TimerFamily::Standard8,
        d.timers@[0].channels@ == seq![
            (PwmChannelDesc { pin: PinId { port: PORT_B, bit: 7 }, unit: CompareUnit::UnitA }),
            (PwmChannelDesc { pin: PinId { port: PORT_G, bit: 5 }, unit: CompareUnit::UnitB }),
        ],
        d.timers@[1].family == TimerFamily::Standard16,
        d.timers@[1].channels@ == seq![
            (PwmChannelDesc { pin: PinId { port: PORT_B, bit: 5 }, unit: CompareUnit::UnitA }),
            (PwmChannelDesc { pin: PinId { port: PORT_B, bit: 6 }, unit: CompareUnit::UnitB }),
        ],
        d.timers@[2].family == TimerFamily::Async8,
        d.timers@[2].channels@ == seq![
            (PwmChannelDesc { pin: PinId { port: PORT_B, bit: 4 }, unit: CompareUnit::UnitA }),
            (PwmChannelDesc { pin: PinId { port: PORT_H, bit: 6 }, unit: CompareUnit::UnitB }),
        ],
        d.timers@[3].family == TimerFamily::Standard16,
        d.timers@[3].channels@ == seq![
            (PwmChannelDesc { pin: PinId { port: PORT_E, bit: 3 }, unit: CompareUnit::UnitA }),
            (PwmChannelDesc { pin: PinId { port: PORT_E, bit: 4 }, unit: CompareUnit::UnitB }),
            (PwmChannelDesc { pin: PinId { port: PORT_E, bit: 5 }, unit: CompareUnit::UnitC }),
        ],
        d.timers@[4].family == TimerFamily::Standard16,
        d.timers@[4].channels@ == seq![
            (PwmChannelDesc { pin: PinId { port: PORT_H, bit: 3 }, unit: CompareUnit::UnitA }),
            (PwmChannelDesc { pin: PinId { port: PORT_H, bit: 4 }, unit: CompareUnit::UnitB }),
            (PwmChannelDesc { pin: PinId { port: PORT_H, bit: 5 }, unit: CompareUnit::UnitC }),
        ],
        d.timers@[5].family == TimerFamily::Standard16,
        d.timers@[5].channels@ == seq![
            (PwmChannelDesc { pin: PinId { port: PORT_L, bit: 3 }, unit: CompareUnit::UnitA }),
            (PwmChannelDesc { pin: PinId { port: PORT_L, bit: 4 }, unit: CompareUnit::UnitB }),
            (PwmChannelDesc { pin: PinId { port: PORT_L, bit: 5 }, unit: CompareUnit::UnitC }),
        ],
        d.adc@ == seq![
            (AdcChannel::PinChannel { pin: PinId { port: PORT_F, bit: 0 }, mux: 0, didr_bit: 0 }),
            (AdcChannel::PinChannel { pin: PinId { port: PORT_F, bit: 1 }, mux: 1, didr_bit: 1 }),
            (AdcChannel::PinChannel { pin: PinId { port: PORT_F, bit: 2 }, mux: 2, didr_bit: 2 }),
            (AdcChannel::PinChannel { pin: PinId { port: PORT_F, bit: 3 }, mux: 3, didr_bit: 3 }),
            (AdcChannel::PinChannel { pin: PinId { port: PORT_F, bit: 4 }, mux: 4, didr_bit: 4 }),
            (AdcChannel::PinChannel { pin: PinId { port: PORT_F, bit: 5 }, mux: 5, didr_bit: 5 }),
            (AdcChannel::PinChannel { pin: PinId { port: PORT_F, bit: 6 }, mux: 6, didr_bit: 6 }),
            (AdcChannel::PinChannel { pin: PinId { port: PORT_F, bit: 7 }, mux: 7, didr_bit: 7 }),
            (AdcChannel::InternalChannel { mux: MUX_VBG }),
            (AdcChannel::InternalChannel { mux: MUX_GND }),
        ],
        d.spi == Some(
            SpiRoles {
                sclk: PinId { port: PORT_B, bit: 1 },
                mosi: PinId { port: PORT_B, bit: 2 },
                miso: PinId { port: PORT_B, bit: 3 },
                cs: PinId { port: PORT_B, bit: 0 },
            },
        ),
{
    let ports: Vec<PortDesc> = vec![
        PortDesc { id: PORT_B, bits: vec![0u8, 1, 2, 3, 4, 5, 6, 7] },
        PortDesc { id: PORT_E, bits: vec![0u8, 1, 2, 3, 4, 5, 6, 7] },
        PortDesc { id: PORT_F, bits: vec![0u8, 1, 2, 3, 4, 5, 6, 7] },
        PortDesc { id: PORT_G, bits: vec![0u8, 1, 2, 3, 4, 5] },
        PortDesc { id: PORT_H, bits: vec![0u8, 1, 2, 3, 4, 5, 6, 7] },
        PortDesc { id: PORT_L, bits: vec![0u8, 1, 2, 3, 4, 5, 6, 7] },
    ];
    let timers: Vec<TimerDesc> = vec![
        TimerDesc {
            family: TimerFamily::Standard8,
            channels: vec![
                PwmChannelDesc { pin: PinId { port: PORT_B, bit: 7 }, unit: CompareUnit::UnitA },
                PwmChannelDesc { pin: PinId { port: PORT_G, bit: 5 }, unit: CompareUnit::UnitB },
            ],
        },
        TimerDesc {
            family: TimerFamily::Standard16,
            channels: vec![
                PwmChannelDesc { pin: PinId { port: PORT_B, bit: 5 }, unit: CompareUnit::UnitA },
                PwmChannelDesc { pin: PinId { port: PORT_B, bit: 6 }, unit: CompareUnit::UnitB },
            ],
        },
        TimerDesc {
            family: TimerFamily::Async8,
            channels: vec![
                PwmChannelDesc { pin: PinId { port: PORT_B, bit: 4 }, unit: CompareUnit::UnitA },
                PwmChannelDesc { pin: PinId { port: PORT_H, bit: 6 }, unit: CompareUnit::UnitB },
            ],
        },
        TimerDesc {
            family: TimerFamily::Standard16,
            channels: vec![
                PwmChannelDesc { pin: PinId { port: PORT_E, bit: 3 }, unit: CompareUnit::UnitA },
                PwmChannelDesc { pin: PinId { port: PORT_E, bit: 4 }, unit: CompareUnit::UnitB },
                PwmChannelDesc { pin: PinId { port: PORT_E, bit: 5 }, unit: CompareUnit::UnitC },
            ],
        },
        TimerDesc {
            family: TimerFamily::Standard16,
            channels: vec![
                PwmChannelDesc { pin: PinId { port: PORT_H, bit: 3 }, unit: CompareUnit::UnitA },
                PwmChannelDesc { pin: PinId { port: PORT_H, bit: 4 }, unit: CompareUnit::UnitB },
                PwmChannelDesc { pin: PinId { port: PORT_H, bit: 5 }, unit: CompareUnit::UnitC },
            ],
        },
        TimerDesc {
            family: TimerFamily::Standard16,
            channels: vec![
                PwmChannelDesc { pin: PinId { port: PORT_L, bit: 3 }, unit: CompareUnit::UnitA },
                PwmChannelDesc { pin: PinId { port: PORT_L, bit: 4 }, unit: CompareUnit::UnitB },
                PwmChannelDesc { pin: PinId { port: PORT_L, bit: 5 }, unit: CompareUnit::UnitC },
            ],
        },
    ];
    let adc: Vec<AdcChannel> = vec![
        AdcChannel::PinChannel { pin: PinId { port: PORT_F, bit: 0 }, mux: 0, didr_bit: 0 },
        AdcChannel::PinChannel { pin: PinId { port: PORT_F, bit: 1 }, mux: 1, didr_bit: 1 },
        AdcChannel::PinChannel { pin: PinId { port: PORT_F, bit: 2 }, mux: 2, didr_bit: 2 },
        AdcChannel::PinChannel { pin: PinId { port: PORT_F, bit: 3 }, mux: 3, didr_bit: 3 },
        AdcChannel::PinChannel { pin: PinId { port: PORT_F, bit: 4 }, mux: 4, didr_bit: 4 },
        AdcChannel::PinChannel { pin: PinId { port: PORT_F, bit: 5 }, mux: 5, didr_bit: 5 },
        AdcChannel::PinChannel { pin: PinId { port: PORT_F, bit: 6 }, mux: 6, didr_bit: 6 },
        AdcChannel::PinChannel { pin: PinId { port: PORT_F, bit: 7 }, mux: 7, didr_bit: 7 },
        AdcChannel::InternalChannel { mux: MUX_VBG },
        AdcChannel::InternalChannel { mux: MUX_GND },
    ];
    let d = DeviceDescriptor {
        ports,
        timers,
        eeprom: EepromDesc { capacity: 4096, addr_width: AddrWidth::Width16 },
        adc,
        spi: Some(
            SpiRoles {
                sclk: PinId { port: PORT_B, bit: 1 },
                mosi: PinId { port: PORT_B, bit: 2 },
                miso: PinId { port: PORT_B, bit: 3 },
                cs: PinId { port: PORT_B, bit: 0 },
            },
        ),
    };
    proof {
        lemma_atmega2560_valid(d);
    }
    d
}

/// The shipped large-device descriptor passes every well-formedness
/// rule: its validity is settled at verification time, not at run time.
proof fn lemma_atmega2560_valid(d: DeviceDescriptor)
    requires
        d.ports@.len() == 6,
        d.ports@[0].id == PORT_B && d.ports@[0].bits@ == seq![0u8, 1, 2, 3, 4, 5, 6, 7],
        d.ports@[1].id == PORT_E && d.ports@[1].bits@ == seq![0u8, 1, 2, 3, 4, 5, 6, 7],
        d.ports@[2].id == PORT_F && d.ports@[2].bits@ == seq![0u8, 1, 2, 3, 4, 5, 6, 7],
        d.ports@[3].id == PORT_G && d.ports@[3].bits@ == seq![0u8, 1, 2, 3, 4, 5],
        d.ports@[4].id == PORT_H && d.ports@[4].bits@ == seq![0u8, 1, 2, 3, 4, 5, 6, 7],
        d.ports@[5].id == PORT_L && d.ports@[5].bits@ == seq![0u8, 1, 2, 3, 4, 5, 6, 7],
        d.eeprom == (EepromDesc { capacity: 4096, addr_width: AddrWidth::Width16 }),
        d.timers@.len() == 6,
        d.timers@[0].family == TimerFamily::Standard8,
        d.timers@[0].channels@ == seq![
            (PwmChannelDesc { pin: PinId { port: PORT_B, bit: 7 }, unit: CompareUnit::UnitA }),
            (PwmChannelDesc { pin: PinId { port: PORT_G, bit: 5 }, unit: CompareUnit::UnitB }),
        ],
        d.timers@[1].family == TimerFamily::Standard16,
        d.timers@[1].channels@ == seq![
            (PwmChannelDesc { pin: PinId { port: PORT_B, bit: 5 }, unit: CompareUnit::UnitA }),
            (PwmChannelDesc { pin: PinId { port: PORT_B, bit: 6 }, unit: CompareUnit::UnitB }),
        ],
        d.timers@[2].family == TimerFamily::Async8,
        d.timers@[2].channels@ == seq![
            (PwmChannelDesc { pin: PinId { port: PORT_B, bit: 4 }, unit: CompareUnit::UnitA }),
            (PwmChannelDesc { pin: PinId { port: PORT_H, bit: 6 }, unit: CompareUnit::UnitB }),
        ],
        d.timers@[3].family == TimerFamily::Standard16,
        d.timers@[3].channels@ == seq![
            (PwmChannelDesc { pin: PinId { port: PORT_E, bit: 3 }, unit: CompareUnit::UnitA }),
            (PwmChannelDesc { pin: PinId { port: PORT_E, bit: 4 }, unit: CompareUnit::UnitB }),
            (PwmChannelDesc { pin: PinId { port: PORT_E, bit: 5 }, unit: CompareUnit::UnitC }),
        ],
        d.timers@[4].family == TimerFamily::Standard16,
        d.timers@[4].channels@ == seq![
            (PwmChannelDesc { pin: PinId { port: PORT_H, bit: 3 }, unit: CompareUnit::UnitA }),
            (PwmChannelDesc { pin: PinId { port: PORT_H, bit: 4 }, unit: CompareUnit::UnitB }),
            (PwmChannelDesc { pin: PinId { port: PORT_H, bit: 5 }, unit: CompareUnit::UnitC }),
        ],
        d.timers@[5].family == TimerFamily::Standard16,
        d.timers@[5].channels@ == seq![
            (PwmChannelDesc { pin: PinId { port: PORT_L, bit: 3 }, unit: CompareUnit::UnitA }),
            (PwmChannelDesc { pin: PinId { port: PORT_L, bit: 4 }, unit: CompareUnit::UnitB }),
            (PwmChannelDesc { pin: PinId { port: PORT_L, bit: 5 }, unit: CompareUnit::UnitC }),
        ],
        d.adc@ == seq![
            (AdcChannel::PinChannel { pin: PinId { port: PORT_F, bit: 0 }, mux: 0, didr_bit: 0 }),
            (AdcChannel::PinChannel { pin: PinId { port: PORT_F, bit: 1 }, mux: 1, didr_bit: 1 }),
            (AdcChannel::PinChannel { pin: PinId { port: PORT_F, bit: 2 }, mux: 2, didr_bit: 2 }),
            (AdcChannel::PinChannel { pin: PinId { port: PORT_F, bit: 3 }, mux: 3, didr_bit: 3 }),
            (AdcChannel::PinChannel { pin: PinId { port: PORT_F, bit: 4 }, mux: 4, didr_bit: 4 }),
            (AdcChannel::PinChannel { pin: PinId { port: PORT_F, bit: 5 }, mux: 5, didr_bit: 5 }),
            (AdcChannel::PinChannel { pin: PinId { port: PORT_F, bit: 6 }, mux: 6, didr_bit: 6 }),
            (AdcChannel::PinChannel { pin: PinId { port: PORT_F, bit: 7 }, mux: 7, didr_bit: 7 }),
            (AdcChannel::InternalChannel { mux: MUX_VBG }),
            (AdcChannel::InternalChannel { mux: MUX_GND }),
        ],
        d.spi == Some(
            SpiRoles {
                sclk: PinId { port: PORT_B, bit: 1 },
                mosi: PinId { port: PORT_B, bit: 2 },
                miso: PinId { port: PORT_B, bit: 3 },
                cs: PinId { port: PORT_B, bit: 0 },
            },
        ),
    ensures
        d.spec_valid(),
{
    let ps = d.ports@;
    assert(spec_port_wf(ps[0]));
    assert(spec_port_wf(ps[1]));
    assert(spec_port_wf(ps[2]));
    assert(spec_port_wf(ps[3]));
    assert(spec_port_wf(ps[4]));
    assert(spec_port_wf(ps[5]));
    assert(spec_ports_wf(ps));
    assert(spec_eeprom_wf(d.eeprom));
    assert forall|b: u8| b < 8 implies spec_layout_has(ps, PinId { port: PORT_B, bit: b }) by {
        assert(ps[0].bits@[b as int] == b);
    }
    assert forall|b: u8| b < 8 implies spec_layout_has(ps, PinId { port: PORT_E, bit: b }) by {
        assert(ps[1].bits@[b as int] == b);
    }
    assert forall|b: u8| b < 8 implies spec_layout_has(ps, PinId { port: PORT_F, bit: b }) by {
        assert(ps[2].bits@[b as int] == b);
    }
    assert forall|b: u8| b < 6 implies spec_layout_has(ps, PinId { port: PORT_G, bit: b }) by {
        assert(ps[3].bits@[b as int] == b);
    }
    assert forall|b: u8| b < 8 implies spec_layout_has(ps, PinId { port: PORT_H, bit: b }) by {
        assert(ps[4].bits@[b as int] == b);
    }
    assert forall|b: u8| b < 8 implies spec_layout_has(ps, PinId { port: PORT_L, bit: b }) by {
        assert(ps[5].bits@[b as int] == b);
    }
    let ts = d.timers@;
    assert(spec_timer_wf(ts[0], ps));
    assert(spec_timer_wf(ts[1], ps));
    assert(spec_timer_wf(ts[2], ps));
    assert(spec_timer_wf(ts[3], ps));
    assert(spec_timer_wf(ts[4], ps));
    assert(spec_timer_wf(ts[5], ps));
    assert forall|i: int, j: int|
        0 <= i < ts.len() && 0 <= j < ts[i].channels@.len() implies !spec_claimed_earlier(
        ts,
        i,
        j,
        (#[trigger] ts[i].channels@[j]).pin,
    ) by {
        assert(ts[0].channels@[0].pin == (PinId { port: PORT_B, bit: 7 }));
        assert(ts[0].channels@[1].pin == (PinId { port: PORT_G, bit: 5 }));
        assert(ts[1].channels@[0].pin == (PinId { port: PORT_B, bit: 5 }));
        assert(ts[1].channels@[1].pin == (PinId { port: PORT_B, bit: 6 }));
        assert(ts[2].channels@[0].pin == (PinId { port: PORT_B, bit: 4 }));
        assert(ts[2].channels@[1].pin == (PinId { port: PORT_H, bit: 6 }));
        assert(ts[3].channels@[0].pin == (PinId { port: PORT_E, bit: 3 }));
        assert(ts[3].channels@[1].pin == (PinId { port: PORT_E, bit: 4 }));
        assert(ts[3].channels@[2].pin == (PinId { port: PORT_E, bit: 5 }));
        assert(ts[4].channels@[0].pin == (PinId { port: PORT_H, bit: 3 }));
        assert(ts[4].channels@[1].pin == (PinId { port: PORT_H, bit: 4 }));
        assert(ts[4].channels@[2].pin == (PinId { port: PORT_H, bit: 5 }));
        assert(ts[5].channels@[0].pin == (PinId { port: PORT_L, bit: 3 }));
        assert(ts[5].channels@[1].pin == (PinId { port: PORT_L, bit: 4 }));
        assert(ts[5].channels@[2].pin == (PinId { port: PORT_L, bit: 5 }));
    }
    assert(spec_timers_wf(ts, ps));
    let table = d.adc@;
    assert forall|i: int| 0 <= i < table.len() implies spec_adc_channel_wf(
        #[trigger] table[i],
        ps,
    ) by {
        assert(table[i].spec_fits());
    }
    assert(spec_adc_wf(table, ps));
    assert(spec_spi_wf(d.spi, ps));
}

} // verus!
