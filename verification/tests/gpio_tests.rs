use hal_project::errors::HalError;
use hal_project::gpio::atmega328p::Atmega328p as GpioAvr;
use hal_project::gpio::cortex_m3::CortexM3 as GpioArm;
use hal_project::gpio::{configure_pin, read_pin, write_pin};
use hal_project::gpio::{GpioPin, PinMode, PinValue, GPIO_PIN_LIMIT};

#[test]
fn pin_construction_succeeds_below_limit() {
    for p in 0..32u8 {
        let pin = GpioPin::new(p);
        assert!(pin.is_ok());
        assert_eq!(pin.unwrap().number(), p);
    }
}

#[test]
fn pin_construction_fails_from_limit_up() {
    assert_eq!(GPIO_PIN_LIMIT, 32);
    for p in 32..=255u8 {
        assert_eq!(GpioPin::new(p), Err(HalError::PinOutOfRange));
    }
}

#[test]
fn avr_output_high_reads_back_high() {
    let mut port = GpioAvr::new();
    configure_pin(&mut port, 2, PinMode::Output);
    write_pin(&mut port, 2, PinValue::High);
    assert_eq!(read_pin(&port, 2), PinValue::High);
    write_pin(&mut port, 2, PinValue::Low);
    assert_eq!(read_pin(&port, 2), PinValue::Low);
}

#[test]
fn cortex_output_high_reads_back_high() {
    let mut port = GpioArm::new();
    configure_pin(&mut port, 5, PinMode::Output);
    write_pin(&mut port, 5, PinValue::High);
    assert_eq!(read_pin(&port, 5), PinValue::High);
    write_pin(&mut port, 5, PinValue::Low);
    assert_eq!(read_pin(&port, 5), PinValue::Low);
}

#[test]
fn avr_configure_touches_only_the_target_bit() {
    let mut port = GpioAvr::new();
    port.ddrb = 0b1010_0000;
    configure_pin(&mut port, 0, PinMode::Output);
    assert_eq!(port.ddrb, 0b1010_0001);
    configure_pin(&mut port, 7, PinMode::Input);
    assert_eq!(port.ddrb, 0b0010_0001);
    assert_eq!(port.portb, 0);
    assert_eq!(port.pinb, 0);
}

#[test]
fn avr_write_touches_only_the_output_register() {
    let mut port = GpioAvr::new();
    port.portb = 0b0000_1000;
    write_pin(&mut port, 1, PinValue::High);
    assert_eq!(port.portb, 0b0000_1010);
    write_pin(&mut port, 3, PinValue::Low);
    assert_eq!(port.portb, 0b0000_0010);
    assert_eq!(port.ddrb, 0);
}

#[test]
fn avr_input_pin_follows_external_level() {
    let mut port = GpioAvr::new();
    configure_pin(&mut port, 4, PinMode::Input);
    port.pinb = 1 << 4;
    assert_eq!(read_pin(&port, 4), PinValue::High);
    port.pinb = 0;
    assert_eq!(read_pin(&port, 4), PinValue::Low);
}

#[test]
fn cortex_mode_register_uses_two_bits_per_pin() {
    let mut port = GpioArm::new();
    port.moder = 0xffff_ffff;
    configure_pin(&mut port, 3, PinMode::Output);
    assert_eq!(port.moder, (0xffff_ffffu32 & !(0b11 << 6)) | (0b01 << 6));
    configure_pin(&mut port, 3, PinMode::Input);
    assert_eq!(port.moder, 0xffff_ffffu32 & !(0b11 << 6));
}

#[test]
fn cortex_input_pin_follows_external_level() {
    let mut port = GpioArm::new();
    configure_pin(&mut port, 9, PinMode::Input);
    port.idr = 1 << 9;
    assert_eq!(read_pin(&port, 9), PinValue::High);
    port.idr = 0;
    assert_eq!(read_pin(&port, 9), PinValue::Low);
}
