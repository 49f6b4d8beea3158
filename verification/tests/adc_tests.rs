use avr_hal_core::adc::{ref_bits, Adc, ReferenceVoltage, ADC_MAX, MUX_MASK, REFS_MASK};
use avr_hal_core::descriptor::AdcChannel;
use avr_hal_core::devices::{attiny88, MUX_GND, MUX_TEMPERATURE, MUX_VBG};

fn flat_inputs(level: u16) -> Vec<u16> {
    vec![level; 16]
}

#[test]
fn reference_bit_patterns() {
    assert_eq!(ref_bits(ReferenceVoltage::AVcc), 0b0100_0000);
    assert_eq!(ref_bits(ReferenceVoltage::Internal), 0b1100_0000);
}

#[test]
fn every_table_entry_selects_its_documented_code() {
    let table = attiny88().adc;
    let expected_mux: Vec<u8> = vec![0, 1, 2, 3, 4, 5, 6, 7, MUX_VBG, MUX_GND, MUX_TEMPERATURE];
    assert_eq!(table.len(), expected_mux.len());
    for (ch, want) in table.iter().zip(expected_mux) {
        let mut adc = Adc::new(ReferenceVoltage::AVcc, flat_inputs(0));
        adc.select_channel(ch);
        assert_eq!(adc.admux & MUX_MASK, want);
        assert_eq!(ch.mux_code(), want);
    }
}

#[test]
fn pin_backed_entries_disable_their_input_buffer() {
    let table = attiny88().adc;
    for ch in &table {
        let mut adc = Adc::new(ReferenceVoltage::AVcc, flat_inputs(0));
        adc.select_channel(ch);
        match ch {
            AdcChannel::PinChannel { didr_bit, .. } => {
                assert_eq!(adc.didr0, 1u8 << didr_bit);
            }
            AdcChannel::InternalChannel { .. } => {
                assert_eq!(adc.didr0, 0, "internal source touched the input-disable register");
            }
        }
    }
}

#[test]
fn selection_keeps_the_reference() {
    let mut adc = Adc::new(ReferenceVoltage::Internal, flat_inputs(0));
    let before = adc.admux & REFS_MASK;
    adc.select_channel(&AdcChannel::InternalChannel { mux: MUX_GND });
    assert_eq!(adc.admux & REFS_MASK, before);
    adc.set_reference(ReferenceVoltage::AVcc);
    assert_eq!(adc.admux & REFS_MASK, 0b0100_0000);
    assert_eq!(adc.admux & MUX_MASK, MUX_GND);
}

#[test]
fn read_blocking_returns_the_routed_level() {
    let mut inputs = flat_inputs(0);
    inputs[3] = 777;
    inputs[15] = 1;
    let mut adc = Adc::new(ReferenceVoltage::AVcc, inputs);
    let ch3 = AdcChannel::PinChannel {
        pin: avr_hal_core::descriptor::PinId { port: 2, bit: 3 },
        mux: 3,
        didr_bit: 3,
    };
    assert_eq!(adc.read_blocking(&ch3), 777);
    assert_eq!(adc.read_blocking(&AdcChannel::InternalChannel { mux: 15 }), 1);
    assert_eq!(adc.read_blocking(&AdcChannel::InternalChannel { mux: 0 }), 0);
}

#[test]
fn results_fit_native_resolution() {
    let adc = Adc::new(ReferenceVoltage::AVcc, flat_inputs(ADC_MAX));
    let mut adc = adc;
    let got = adc.read_blocking(&AdcChannel::InternalChannel { mux: 14 });
    assert_eq!(got, 1023);
    assert!(got <= ADC_MAX);
}

#[test]
fn disabling_two_buffers_accumulates_bits() {
    let mut adc = Adc::new(ReferenceVoltage::AVcc, flat_inputs(0));
    adc.disable_digital_input(0);
    adc.disable_digital_input(5);
    assert_eq!(adc.didr0, 0b0010_0001);
    adc.disable_digital_input(5);
    assert_eq!(adc.didr0, 0b0010_0001);
}
