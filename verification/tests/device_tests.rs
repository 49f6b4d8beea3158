use avr_hal_core::boards;
use avr_hal_core::descriptor::{DescriptorError, PinId};
use avr_hal_core::device::Device;
use avr_hal_core::devices::{atmega328p, attiny88, PORT_A, PORT_B, PORT_D};
use avr_hal_core::eeprom::ERASED_BYTE;
use avr_hal_core::pin::{Input, Pin};
use avr_hal_core::pwm::{
    CompareUnit, Prescaler, PwmTimer, TimerFamily, COM_DISCONNECTED, COM_MATCH_CLEAR,
};

fn take_pin(pins: &mut Vec<Pin<Input>>, id: PinId) -> Pin<Input> {
    let idx = pins.iter().position(|p| p.id == id).expect("pin not in layout");
    pins.remove(idx)
}

#[test]
fn acquire_expands_the_small_device() {
    let device = Device::acquire(attiny88()).unwrap();
    assert_eq!(device.pins.len(), 4 + 8 + 8 + 8);
    assert_eq!(device.pins[0].id, PinId { port: PORT_A, bit: 0 });
    assert_eq!(device.pins[4].id, PinId { port: PORT_B, bit: 0 });
    for pin in &device.pins {
        assert!(!pin.ddr);
        assert!(!pin.out);
    }
    assert_eq!(device.timers.len(), 1);
    assert_eq!(device.timers[0].family, TimerFamily::Standard16);
    assert_eq!(device.eeprom.capacity, 64);
    let mut eeprom = device.eeprom;
    assert_eq!(eeprom.read_byte(0), Ok(ERASED_BYTE));
    assert_eq!(device.adc.didr0, 0);
}

#[test]
fn acquire_refuses_a_malformed_descriptor() {
    let mut desc = attiny88();
    desc.ports[0].bits.push(12);
    match Device::acquire(desc) {
        Err(e) => assert_eq!(e, DescriptorError::InvalidPorts),
        Ok(_) => panic!("malformed descriptor was accepted"),
    }
}

#[test]
fn pin_conversion_is_consuming() {
    let mut device = Device::acquire(attiny88()).unwrap();
    let pb0 = take_pin(&mut device.pins, PinId { port: PORT_B, bit: 0 });
    // After this conversion the input-typed handle has been moved out of
    // existence; only the output-typed pin remains usable.
    let mut out = pb0.into_output();
    assert!(out.ddr);
    assert!(!out.is_set_high());
    out.set_high();
    assert!(out.is_set_high());
    out.toggle();
    assert!(out.is_set_low());
    let back = out.into_pull_up_input();
    assert!(!back.ddr);
    assert!(back.out);
}

#[test]
fn board_labels_name_the_compare_pins() {
    assert_eq!(boards::digital_pin(5), Some(PinId { port: PORT_D, bit: 5 }));
    assert_eq!(boards::digital_pin(6), Some(PinId { port: PORT_D, bit: 6 }));
    assert_eq!(boards::digital_pin(13), Some(PinId { port: PORT_B, bit: 5 }));
    assert_eq!(boards::digital_pin(2), None);
    assert_eq!(boards::digital_pin(7), None);
    assert_eq!(boards::digital_pin(14), None);
    assert_eq!(boards::analog_pin(0), Some(PinId { port: avr_hal_core::devices::PORT_C, bit: 0 }));
    assert_eq!(boards::analog_pin(6), None);
}

#[test]
fn two_compare_units_on_one_timer() {
    // The first timer of the mid-size device binds its two compare units
    // to the board labels D6 (unit A) and D5 (unit B).
    let mut device = Device::acquire(atmega328p()).unwrap();
    let d5 = take_pin(&mut device.pins, boards::digital_pin(5).unwrap());
    let d6 = take_pin(&mut device.pins, boards::digital_pin(6).unwrap());
    let tc0 = device.timers.remove(0);
    assert_eq!(tc0.family, TimerFamily::Standard8);
    let mut timer = PwmTimer::new(tc0, Prescaler::Prescale64);
    assert_eq!(timer.read_prescaler(), Some(Prescaler::Prescale64));

    let d5_channel = d5.into_output().into_pwm(&mut timer);
    let d6_channel = d6.into_output().into_pwm(&mut timer);
    assert_eq!(d5_channel.unit, CompareUnit::UnitB);
    assert_eq!(d6_channel.unit, CompareUnit::UnitA);

    d6_channel.set_duty(&mut timer, 128);
    d6_channel.enable(&mut timer);
    assert_eq!(timer.read_ocr(CompareUnit::UnitA), 128);
    assert_eq!(timer.read_com(CompareUnit::UnitA), COM_MATCH_CLEAR);

    d6_channel.disable(&mut timer);
    assert_eq!(timer.read_ocr(CompareUnit::UnitA), 128);
    assert_eq!(timer.read_com(CompareUnit::UnitA), COM_DISCONNECTED);

    // The sibling channel was never affected.
    assert_eq!(timer.read_ocr(CompareUnit::UnitB), 0);
    assert_eq!(timer.read_com(CompareUnit::UnitB), COM_DISCONNECTED);
    assert_eq!(timer.read_prescaler(), Some(Prescaler::Prescale64));
}

#[test]
fn analog_conversion_through_a_device_pin() {
    let mut device = Device::acquire(attiny88()).unwrap();
    let pc2 = take_pin(&mut device.pins, PinId { port: avr_hal_core::devices::PORT_C, bit: 2 });
    let channel = device.adc_channels[2];
    let mut adc = device.adc;
    adc.inputs[2] = 512;
    let analog = pc2.into_analog(&mut adc, &channel);
    assert_eq!(adc.didr0, 0b0000_0100);
    assert_eq!(analog.read_raw(&mut adc, &channel), 512);
}

#[test]
fn large_device_descriptor_is_valid() {
    let desc = avr_hal_core::devices::atmega2560();
    assert_eq!(desc.validate(), Ok(()));
    assert_eq!(desc.timers.len(), 6);
    assert_eq!(desc.eeprom.capacity, 4096);
    let device = Device::acquire(desc).unwrap();
    assert_eq!(device.pins.len(), 8 + 8 + 8 + 6 + 8 + 8);
}

#[test]
fn three_compare_units_are_independent() {
    let mut device = Device::acquire(avr_hal_core::devices::atmega2560()).unwrap();
    // The fourth timer binds its three compare units to pins E3, E4, E5.
    let tc3 = device.timers.remove(3);
    assert_eq!(tc3.family, TimerFamily::Standard16);
    let mut timer = PwmTimer::new(tc3, Prescaler::Prescale256);
    let e3 = take_pin(&mut device.pins, PinId { port: avr_hal_core::devices::PORT_E, bit: 3 });
    let e4 = take_pin(&mut device.pins, PinId { port: avr_hal_core::devices::PORT_E, bit: 4 });
    let e5 = take_pin(&mut device.pins, PinId { port: avr_hal_core::devices::PORT_E, bit: 5 });
    let a = e3.into_output().into_pwm(&mut timer);
    let b = e4.into_output().into_pwm(&mut timer);
    let c = e5.into_output().into_pwm(&mut timer);
    assert_eq!(a.unit, CompareUnit::UnitA);
    assert_eq!(b.unit, CompareUnit::UnitB);
    assert_eq!(c.unit, CompareUnit::UnitC);
    a.set_duty(&mut timer, 100);
    b.set_duty(&mut timer, 200);
    c.set_duty(&mut timer, 300);
    c.enable(&mut timer);
    assert_eq!(timer.read_ocr(CompareUnit::UnitA), 100);
    assert_eq!(timer.read_ocr(CompareUnit::UnitB), 200);
    assert_eq!(timer.read_ocr(CompareUnit::UnitC), 300);
    assert_eq!(timer.read_com(CompareUnit::UnitA), COM_DISCONNECTED);
    assert_eq!(timer.read_com(CompareUnit::UnitB), COM_DISCONNECTED);
    assert_eq!(timer.read_com(CompareUnit::UnitC), COM_MATCH_CLEAR);
    assert_eq!(timer.read_prescaler(), Some(Prescaler::Prescale256));
}
