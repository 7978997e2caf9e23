use hal_project::errors::HalError;
use hal_project::usart::atmega328p::Atmega328p as UsartAvr;
use hal_project::usart::cortex_m3::CortexM3 as UsartArm;
use hal_project::usart::{usart_init, usart_read, usart_write};

#[test]
fn avr_divisor_for_9600_baud_is_103() {
    let mut usart = UsartAvr::new();
    assert!(usart_init(&mut usart, 9600).is_ok());
    assert_eq!(usart.ubrr0h, 0);
    assert_eq!(usart.ubrr0l, 103);
    assert_eq!(usart.ucsr0b, 0x18);
    assert_eq!(usart.ucsr0c, 0x06);
}

#[test]
fn avr_divisor_for_19200_baud_is_51() {
    let mut usart = UsartAvr::new();
    assert!(usart_init(&mut usart, 19200).is_ok());
    assert_eq!(usart.ubrr0h, 0);
    assert_eq!(usart.ubrr0l, 51);
}

#[test]
fn avr_divisor_for_38400_baud_is_25() {
    let mut usart = UsartAvr::new();
    assert!(usart_init(&mut usart, 38400).is_ok());
    assert_eq!(usart.ubrr0h, 0);
    assert_eq!(usart.ubrr0l, 25);
}

#[test]
fn avr_wide_divisor_fills_both_bytes() {
    // 16_000_000 / (16 * 2) - 1 == 499_999 leaves the register range;
    // 16_000_000 / (16 * 16) - 1 == 62_499 == 0xf423 fits.
    let mut usart = UsartAvr::new();
    assert!(usart_init(&mut usart, 16).is_ok());
    assert_eq!(usart.ubrr0h, 0xf4);
    assert_eq!(usart.ubrr0l, 0x23);
}

#[test]
fn avr_rejects_zero_baud_rate() {
    let mut usart = UsartAvr::new();
    assert_eq!(usart_init(&mut usart, 0), Err(HalError::InvalidBaudRate));
    assert_eq!(usart.ucsr0b, 0);
}

#[test]
fn avr_rejects_divisor_beyond_register_range() {
    let mut usart = UsartAvr::new();
    assert_eq!(usart_init(&mut usart, 1), Err(HalError::InvalidBaudRate));
    assert_eq!(usart_init(&mut usart, 2), Err(HalError::InvalidBaudRate));
    assert!(usart_init(&mut usart, 16).is_ok());
}

#[test]
fn avr_write_commits_when_transmitter_ready() {
    let mut usart = UsartAvr::new();
    usart.ucsr0a = 1 << 5;
    assert!(usart_write(&mut usart, 0x31).is_ok());
    assert_eq!(usart.udr0, 0x31);
}

#[test]
fn avr_write_times_out_without_ready_flag() {
    let mut usart = UsartAvr::new();
    assert_eq!(usart_write(&mut usart, 0x31), Err(HalError::Timeout));
    assert_eq!(usart.udr0, 0);
}

#[test]
fn avr_read_returns_received_byte() {
    let mut usart = UsartAvr::new();
    usart.ucsr0a = 1 << 7;
    usart.udr0 = 0x55;
    assert_eq!(usart_read(&usart), Ok(0x55));
}

#[test]
fn avr_read_times_out_without_complete_flag() {
    let usart = UsartAvr::new();
    assert_eq!(usart_read(&usart), Err(HalError::Timeout));
}

#[test]
fn cortex_divisor_is_direct_clock_ratio() {
    let mut usart = UsartArm::new();
    assert!(usart_init(&mut usart, 9600).is_ok());
    assert_eq!(usart.brr, 16_000_000 / 9600);
    assert_eq!(usart.cr1, 0x200c);
}

#[test]
fn cortex_rejects_zero_baud_rate() {
    let mut usart = UsartArm::new();
    assert_eq!(usart_init(&mut usart, 0), Err(HalError::InvalidBaudRate));
    assert_eq!(usart.cr1, 0);
}

#[test]
fn cortex_write_and_read_through_data_register() {
    let mut usart = UsartArm::new();
    usart.sr = (1 << 7) | (1 << 5);
    assert!(usart_write(&mut usart, 0xa7).is_ok());
    assert_eq!(usart.dr, 0xa7);
    assert_eq!(usart_read(&usart), Ok(0xa7));
}

#[test]
fn cortex_write_and_read_time_out_without_flags() {
    let mut usart = UsartArm::new();
    assert_eq!(usart_write(&mut usart, 0xa7), Err(HalError::Timeout));
    assert_eq!(usart_read(&usart), Err(HalError::Timeout));
}
