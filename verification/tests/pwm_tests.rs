use avr_hal_core::pwm::{
    com_shift, duty_mask, prescaler_bits, prescaler_of_bits, CompareUnit, Prescaler, PwmPin,
    PwmTimer, TimerFamily, TimerUnit, COM_DISCONNECTED, COM_MATCH_CLEAR, CS_MASK, WGM_A_MASK,
    WGM_B_MASK,
};
use avr_hal_core::descriptor::{PinId, PwmChannelDesc};

fn two_channel_timer(family: TimerFamily) -> TimerUnit {
    TimerUnit {
        family,
        channels: vec![
            PwmChannelDesc { pin: PinId { port: 1, bit: 1 }, unit: CompareUnit::UnitA },
            PwmChannelDesc { pin: PinId { port: 1, bit: 2 }, unit: CompareUnit::UnitB },
        ],
    }
}

#[test]
fn standard_prescaler_codes() {
    for family in [TimerFamily::Standard8, TimerFamily::Standard16] {
        assert_eq!(prescaler_bits(family, Prescaler::Direct), 1);
        assert_eq!(prescaler_bits(family, Prescaler::Prescale8), 2);
        assert_eq!(prescaler_bits(family, Prescaler::Prescale64), 3);
        assert_eq!(prescaler_bits(family, Prescaler::Prescale256), 4);
        assert_eq!(prescaler_bits(family, Prescaler::Prescale1024), 5);
    }
}

#[test]
fn async_prescaler_codes() {
    assert_eq!(prescaler_bits(TimerFamily::Async8, Prescaler::Direct), 1);
    assert_eq!(prescaler_bits(TimerFamily::Async8, Prescaler::Prescale8), 2);
    assert_eq!(prescaler_bits(TimerFamily::Async8, Prescaler::Prescale64), 4);
    assert_eq!(prescaler_bits(TimerFamily::Async8, Prescaler::Prescale256), 6);
    assert_eq!(prescaler_bits(TimerFamily::Async8, Prescaler::Prescale1024), 7);
}

#[test]
fn prescaler_codes_decode_back() {
    let families = [TimerFamily::Standard8, TimerFamily::Standard16, TimerFamily::Async8];
    let prescalers = [
        Prescaler::Direct,
        Prescaler::Prescale8,
        Prescaler::Prescale64,
        Prescaler::Prescale256,
        Prescaler::Prescale1024,
    ];
    for family in families {
        for p in prescalers {
            assert_eq!(prescaler_of_bits(family, prescaler_bits(family, p)), Some(p));
        }
    }
}

#[test]
fn unused_codes_decode_to_none() {
    assert_eq!(prescaler_of_bits(TimerFamily::Standard8, 0), None);
    assert_eq!(prescaler_of_bits(TimerFamily::Standard8, 6), None);
    assert_eq!(prescaler_of_bits(TimerFamily::Standard8, 7), None);
    assert_eq!(prescaler_of_bits(TimerFamily::Async8, 0), None);
    assert_eq!(prescaler_of_bits(TimerFamily::Async8, 3), None);
    assert_eq!(prescaler_of_bits(TimerFamily::Async8, 5), None);
}

#[test]
fn init_reads_back_configured_bits() {
    let prescalers = [
        Prescaler::Direct,
        Prescaler::Prescale8,
        Prescaler::Prescale64,
        Prescaler::Prescale256,
        Prescaler::Prescale1024,
    ];
    for family in [TimerFamily::Standard8, TimerFamily::Standard16, TimerFamily::Async8] {
        for p in prescalers {
            let timer = PwmTimer::new(two_channel_timer(family), p);
            assert_eq!(timer.read_prescaler(), Some(p));
            assert_eq!(timer.tccr_b & CS_MASK, prescaler_bits(family, p));
        }
    }
}

#[test]
fn init_writes_waveform_mode_bits() {
    let t8 = PwmTimer::new(two_channel_timer(TimerFamily::Standard8), Prescaler::Prescale64);
    assert_eq!(t8.read_wgm_a(), 0b11);
    assert_eq!(t8.read_wgm_b(), 0);
    let t16 = PwmTimer::new(two_channel_timer(TimerFamily::Standard16), Prescaler::Prescale64);
    assert_eq!(t16.read_wgm_a(), 0b01);
    assert_eq!(t16.read_wgm_b(), 0b0000_1000);
    let ta = PwmTimer::new(two_channel_timer(TimerFamily::Async8), Prescaler::Prescale64);
    assert_eq!(ta.read_wgm_a(), 0b11);
    assert_eq!(ta.read_wgm_b(), 0);
    assert_eq!(WGM_A_MASK, 0b0000_0011);
    assert_eq!(WGM_B_MASK, 0b0001_1000);
}

#[test]
fn set_duty_truncates_to_register_width() {
    let mut timer = PwmTimer::new(two_channel_timer(TimerFamily::Standard8), Prescaler::Direct);
    let ch = PwmPin { pin: PinId { port: 1, bit: 1 }, unit: CompareUnit::UnitA };
    ch.set_duty(&mut timer, 300);
    assert_eq!(ch.get_duty(&timer), 300 & 0x00ff);
    assert_eq!(ch.get_duty(&timer), 44);
    assert_eq!(ch.get_max_duty(&timer), 255);
    let mut wide = PwmTimer::new(two_channel_timer(TimerFamily::Standard16), Prescaler::Direct);
    ch.set_duty(&mut wide, 300);
    assert_eq!(ch.get_duty(&wide), 300);
    assert_eq!(ch.get_max_duty(&wide), 65535);
    assert_eq!(duty_mask(TimerFamily::Async8), 0x00ff);
}

#[test]
fn enable_disable_keeps_duty() {
    let mut timer = PwmTimer::new(two_channel_timer(TimerFamily::Standard8), Prescaler::Prescale8);
    let ch = PwmPin { pin: PinId { port: 1, bit: 2 }, unit: CompareUnit::UnitB };
    ch.set_duty(&mut timer, 99);
    ch.enable(&mut timer);
    assert_eq!(timer.read_com(CompareUnit::UnitB), COM_MATCH_CLEAR);
    assert_eq!(ch.get_duty(&timer), 99);
    ch.disable(&mut timer);
    assert_eq!(timer.read_com(CompareUnit::UnitB), COM_DISCONNECTED);
    assert_eq!(ch.get_duty(&timer), 99);
    ch.enable(&mut timer);
    assert_eq!(ch.get_duty(&timer), 99);
    assert_eq!(timer.read_com(CompareUnit::UnitB), COM_MATCH_CLEAR);
}

#[test]
fn channels_share_mode_but_not_duty() {
    let mut timer = PwmTimer::new(two_channel_timer(TimerFamily::Standard16), Prescaler::Prescale64);
    let a = PwmPin { pin: PinId { port: 1, bit: 1 }, unit: CompareUnit::UnitA };
    let b = PwmPin { pin: PinId { port: 1, bit: 2 }, unit: CompareUnit::UnitB };
    a.set_duty(&mut timer, 1000);
    b.set_duty(&mut timer, 2000);
    a.enable(&mut timer);
    assert_eq!(a.get_duty(&timer), 1000);
    assert_eq!(b.get_duty(&timer), 2000);
    assert_eq!(timer.read_com(CompareUnit::UnitA), COM_MATCH_CLEAR);
    assert_eq!(timer.read_com(CompareUnit::UnitB), COM_DISCONNECTED);
    assert_eq!(timer.read_prescaler(), Some(Prescaler::Prescale64));
}

#[test]
fn compare_unit_field_positions() {
    assert_eq!(com_shift(CompareUnit::UnitA), 6);
    assert_eq!(com_shift(CompareUnit::UnitB), 4);
    assert_eq!(com_shift(CompareUnit::UnitC), 2);
}
