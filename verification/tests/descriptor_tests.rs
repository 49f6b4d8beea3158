use avr_hal_core::descriptor::{
    AdcChannel, AddrWidth, DescriptorError, DeviceDescriptor, EepromDesc, PinId, PortDesc,
    PwmChannelDesc, SpiRoles, TimerDesc,
};
use avr_hal_core::devices::{atmega328p, attiny88, PORT_B, PORT_C};
use avr_hal_core::pwm::{CompareUnit, TimerFamily};

fn minimal() -> DeviceDescriptor {
    DeviceDescriptor {
        ports: vec![PortDesc { id: PORT_B, bits: vec![0, 1, 2, 3] }],
        timers: vec![],
        eeprom: EepromDesc { capacity: 64, addr_width: AddrWidth::Width8 },
        adc: vec![],
        spi: None,
    }
}

#[test]
fn shipped_descriptors_are_valid() {
    assert_eq!(attiny88().validate(), Ok(()));
    assert_eq!(atmega328p().validate(), Ok(()));
}

#[test]
fn minimal_descriptor_is_valid() {
    assert_eq!(minimal().validate(), Ok(()));
}

#[test]
fn out_of_range_bit_fails() {
    let mut d = minimal();
    d.ports[0].bits.push(8);
    assert_eq!(d.validate(), Err(DescriptorError::InvalidPorts));
}

#[test]
fn repeated_bit_fails() {
    let mut d = minimal();
    d.ports[0].bits.push(2);
    assert_eq!(d.validate(), Err(DescriptorError::InvalidPorts));
}

#[test]
fn repeated_port_id_fails() {
    let mut d = minimal();
    d.ports.push(PortDesc { id: PORT_B, bits: vec![4, 5] });
    assert_eq!(d.validate(), Err(DescriptorError::InvalidPorts));
}

#[test]
fn empty_eeprom_fails() {
    let mut d = minimal();
    d.eeprom = EepromDesc { capacity: 0, addr_width: AddrWidth::Width16 };
    assert_eq!(d.validate(), Err(DescriptorError::InvalidEeprom));
}

#[test]
fn narrow_address_width_bounds_capacity() {
    let mut d = minimal();
    d.eeprom = EepromDesc { capacity: 300, addr_width: AddrWidth::Width8 };
    assert_eq!(d.validate(), Err(DescriptorError::InvalidEeprom));
    d.eeprom = EepromDesc { capacity: 256, addr_width: AddrWidth::Width8 };
    assert_eq!(d.validate(), Ok(()));
}

#[test]
fn duplicate_pin_claim_fails() {
    let mut d = minimal();
    d.timers = vec![
        TimerDesc {
            family: TimerFamily::Standard8,
            channels: vec![
                PwmChannelDesc { pin: PinId { port: PORT_B, bit: 1 }, unit: CompareUnit::UnitA },
            ],
        },
        TimerDesc {
            family: TimerFamily::Standard8,
            channels: vec![
                PwmChannelDesc { pin: PinId { port: PORT_B, bit: 1 }, unit: CompareUnit::UnitA },
            ],
        },
    ];
    assert_eq!(d.validate(), Err(DescriptorError::InvalidPwm));
}

#[test]
fn pwm_pin_outside_layout_fails() {
    let mut d = minimal();
    d.timers = vec![TimerDesc {
        family: TimerFamily::Standard8,
        channels: vec![
            PwmChannelDesc { pin: PinId { port: PORT_C, bit: 0 }, unit: CompareUnit::UnitA },
        ],
    }];
    assert_eq!(d.validate(), Err(DescriptorError::InvalidPwm));
}

#[test]
fn repeated_compare_unit_fails() {
    let mut d = minimal();
    d.timers = vec![TimerDesc {
        family: TimerFamily::Standard8,
        channels: vec![
            PwmChannelDesc { pin: PinId { port: PORT_B, bit: 1 }, unit: CompareUnit::UnitA },
            PwmChannelDesc { pin: PinId { port: PORT_B, bit: 2 }, unit: CompareUnit::UnitA },
        ],
    }];
    assert_eq!(d.validate(), Err(DescriptorError::InvalidPwm));
}

#[test]
fn third_compare_unit_needs_wide_timer() {
    let mut d = minimal();
    d.timers = vec![TimerDesc {
        family: TimerFamily::Standard8,
        channels: vec![
            PwmChannelDesc { pin: PinId { port: PORT_B, bit: 1 }, unit: CompareUnit::UnitC },
        ],
    }];
    assert_eq!(d.validate(), Err(DescriptorError::InvalidPwm));
    d.timers[0].family = TimerFamily::Standard16;
    assert_eq!(d.validate(), Ok(()));
}

#[test]
fn duplicate_mux_code_fails() {
    let mut d = minimal();
    d.adc = vec![
        AdcChannel::PinChannel { pin: PinId { port: PORT_B, bit: 0 }, mux: 3, didr_bit: 0 },
        AdcChannel::InternalChannel { mux: 3 },
    ];
    assert_eq!(d.validate(), Err(DescriptorError::InvalidAdc));
}

#[test]
fn oversized_mux_code_fails() {
    let mut d = minimal();
    d.adc = vec![AdcChannel::InternalChannel { mux: 16 }];
    assert_eq!(d.validate(), Err(DescriptorError::InvalidAdc));
}

#[test]
fn oversized_didr_bit_fails() {
    let mut d = minimal();
    d.adc = vec![AdcChannel::PinChannel {
        pin: PinId { port: PORT_B, bit: 0 },
        mux: 0,
        didr_bit: 8,
    }];
    assert_eq!(d.validate(), Err(DescriptorError::InvalidAdc));
}

#[test]
fn adc_pin_outside_layout_fails() {
    let mut d = minimal();
    d.adc = vec![AdcChannel::PinChannel {
        pin: PinId { port: PORT_C, bit: 0 },
        mux: 0,
        didr_bit: 0,
    }];
    assert_eq!(d.validate(), Err(DescriptorError::InvalidAdc));
}

#[test]
fn spi_pin_outside_layout_fails() {
    let mut d = minimal();
    d.spi = Some(SpiRoles {
        sclk: PinId { port: PORT_B, bit: 0 },
        mosi: PinId { port: PORT_B, bit: 1 },
        miso: PinId { port: PORT_B, bit: 2 },
        cs: PinId { port: PORT_C, bit: 2 },
    });
    assert_eq!(d.validate(), Err(DescriptorError::InvalidSpi));
}

#[test]
fn error_order_reports_first_broken_rule() {
    let mut d = minimal();
    d.ports[0].bits.push(9);
    d.eeprom = EepromDesc { capacity: 0, addr_width: AddrWidth::Width8 };
    assert_eq!(d.validate(), Err(DescriptorError::InvalidPorts));
}

#[test]
fn adc_channel_accessors() {
    let pin_backed = AdcChannel::PinChannel {
        pin: PinId { port: PORT_C, bit: 4 },
        mux: 4,
        didr_bit: 4,
    };
    let internal = AdcChannel::InternalChannel { mux: 15 };
    assert_eq!(pin_backed.mux_code(), 4);
    assert!(pin_backed.is_pin_backed());
    assert_eq!(internal.mux_code(), 15);
    assert!(!internal.is_pin_backed());
}
