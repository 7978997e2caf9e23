use hal_project::errors::HalError;
use hal_project::spi::atmega328p::Atmega328p as SpiAvr;
use hal_project::spi::cortex_m3::CortexM3 as SpiArm;
use hal_project::spi::{spi_init_master, spi_init_slave, spi_read, spi_transfer, spi_write};

#[test]
fn avr_master_control_word() {
    let mut spi = SpiAvr::new();
    spi.spsr = 0xff;
    spi_init_master(&mut spi);
    assert_eq!(spi.spcr, 0x52);
    assert_eq!(spi.spsr, 0);
}

#[test]
fn avr_slave_control_word() {
    let mut spi = SpiAvr::new();
    spi_init_master(&mut spi);
    spi_init_slave(&mut spi);
    assert_eq!(spi.spcr, 0x40);
    assert_eq!(spi.spsr, 0);
}

#[test]
fn avr_transfer_returns_data_register_after_write_phase() {
    let mut spi = SpiAvr::new();
    spi_init_master(&mut spi);
    spi.spsr = 1 << 7;
    assert_eq!(spi_transfer(&mut spi, 0x42), Ok(0x42));
    assert_eq!(spi.spdr, 0x42);
}

#[test]
fn avr_write_then_read_loops_back() {
    let mut spi = SpiAvr::new();
    spi.spsr = 1 << 7;
    assert!(spi_write(&mut spi, 0x55).is_ok());
    assert_eq!(spi_read(&spi), Ok(0x55));
}

#[test]
fn avr_write_loads_register_even_on_timeout() {
    let mut spi = SpiAvr::new();
    assert_eq!(spi_write(&mut spi, 0x55), Err(HalError::Timeout));
    assert_eq!(spi.spdr, 0x55);
}

#[test]
fn avr_spi_read_times_out_without_complete_flag() {
    let spi = SpiAvr::new();
    assert_eq!(spi_read(&spi), Err(HalError::Timeout));
}

#[test]
fn cortex_master_control_word() {
    let mut spi = SpiArm::new();
    spi_init_master(&mut spi);
    assert_eq!(spi.cr1, 0x5c);
}

#[test]
fn cortex_slave_control_word_rebuilt_from_scratch() {
    let mut spi = SpiArm::new();
    spi_init_master(&mut spi);
    spi_init_slave(&mut spi);
    assert_eq!(spi.cr1, 0x40);
}

#[test]
fn cortex_transfer_returns_data_register_after_write_phase() {
    let mut spi = SpiArm::new();
    spi_init_master(&mut spi);
    spi.sr = 0x03;
    assert_eq!(spi_transfer(&mut spi, 0x42), Ok(0x42));
    assert_eq!(spi.dr, 0x42);
}

#[test]
fn cortex_transfer_times_out_without_transmit_flag() {
    let mut spi = SpiArm::new();
    assert_eq!(spi_transfer(&mut spi, 0x42), Err(HalError::Timeout));
    assert_eq!(spi.dr, 0);
}

#[test]
fn cortex_read_takes_low_byte_of_data_register() {
    let mut spi = SpiArm::new();
    spi.sr = 0x01;
    spi.dr = 0x1ab;
    assert_eq!(spi_read(&spi), Ok(0xab));
}

#[test]
fn cortex_write_waits_for_transmit_flag() {
    let mut spi = SpiArm::new();
    assert_eq!(spi_write(&mut spi, 0x11), Err(HalError::Timeout));
    assert_eq!(spi.dr, 0);
    spi.sr = 0x02;
    assert!(spi_write(&mut spi, 0x11).is_ok());
    assert_eq!(spi.dr, 0x11);
}
