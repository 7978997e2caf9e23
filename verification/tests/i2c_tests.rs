use hal_project::errors::HalError;
use hal_project::i2c::atmega328p::Atmega328p as I2cAvr;
use hal_project::i2c::cortex_m3::CortexM3 as I2cArm;
use hal_project::i2c::{i2c_init, i2c_read, i2c_write, I2cEvent};

#[test]
fn avr_init_stores_bit_rate_and_enables() {
    let mut i2c = I2cAvr::new();
    assert!(i2c_init(&mut i2c, 100_000).is_ok());
    // ((16_000_000 / 100_000) - 16) / 2 == 72
    assert_eq!(i2c.twbr, 72);
    assert_eq!(i2c.twcr, 0x04);
    assert_eq!(i2c.twsr, 0);
}

#[test]
fn avr_init_rejects_bit_rate_below_minimum() {
    // 16_000_000 / 500_000 == 32 < 36, so the bit rate would fall below 10.
    let mut i2c = I2cAvr::new();
    i2c.twbr = 0xaa;
    assert_eq!(i2c_init(&mut i2c, 500_000), Err(HalError::BitRateTooLow));
    assert_eq!(i2c.twbr, 0xaa);
    assert_eq!(i2c.twcr, 0);
}

#[test]
fn avr_init_rejects_bit_rate_beyond_register() {
    // ((16_000_000 / 30_000) - 16) / 2 == 258 leaves the 8-bit register.
    let mut i2c = I2cAvr::new();
    assert_eq!(i2c_init(&mut i2c, 30_000), Err(HalError::BitRateTooHigh));
    assert_eq!(i2c_init(&mut i2c, 0), Err(HalError::BitRateTooHigh));
    assert!(i2c_init(&mut i2c, 100_000).is_ok());
}

#[test]
fn avr_read_of_empty_buffer_returns_zero_and_skips_data_phase() {
    let mut i2c = I2cAvr::new();
    let mut buffer: Vec<u8> = Vec::new();
    assert_eq!(i2c_read(&mut i2c, 0x42, &mut buffer), Ok(0));
    assert!(buffer.is_empty());
    assert_eq!(
        i2c.bus,
        vec![
            I2cEvent::Start,
            I2cEvent::Address { addr: 0x42, read: true },
            I2cEvent::Stop,
        ]
    );
}

#[test]
fn avr_write_asserts_every_phase_in_order() {
    let mut i2c = I2cAvr::new();
    assert!(i2c_write(&mut i2c, 0x42, &[0x01, 0x02, 0x03]).is_ok());
    assert_eq!(
        i2c.bus,
        vec![
            I2cEvent::Start,
            I2cEvent::Address { addr: 0x42, read: false },
            I2cEvent::DataOut { byte: 0x01 },
            I2cEvent::DataOut { byte: 0x02 },
            I2cEvent::DataOut { byte: 0x03 },
            I2cEvent::Stop,
        ]
    );
    assert_eq!(i2c.twdr, 0x03);
    assert_eq!(i2c.twcr, 0x94);
}

#[test]
fn avr_read_acknowledges_every_byte_but_the_last() {
    for n in [1usize, 2, 5] {
        let mut i2c = I2cAvr::new();
        i2c.rx = (1..=n as u8).collect();
        let mut buffer = vec![0u8; n];
        assert!(i2c_read(&mut i2c, 0x10, &mut buffer).is_ok());
        assert_eq!(i2c.bus.len(), n + 3);
        assert_eq!(i2c.bus[0], I2cEvent::Start);
        assert_eq!(i2c.bus[1], I2cEvent::Address { addr: 0x10, read: true });
        for i in 0..n {
            assert_eq!(i2c.bus[2 + i], I2cEvent::DataIn { ack: i != n - 1 });
        }
        assert_eq!(i2c.bus[n + 2], I2cEvent::Stop);
    }
}

#[test]
fn avr_write_sets_acknowledge_pattern_lengths_one_two_five() {
    for n in [1usize, 2, 5] {
        let mut i2c = I2cAvr::new();
        let data: Vec<u8> = (1..=n as u8).collect();
        assert!(i2c_write(&mut i2c, 0x10, &data).is_ok());
        assert_eq!(i2c.bus.len(), n + 3);
        for i in 0..n {
            assert_eq!(i2c.bus[2 + i], I2cEvent::DataOut { byte: data[i] });
        }
        assert_eq!(i2c.bus[n + 2], I2cEvent::Stop);
    }
}

#[test]
fn avr_read_fills_buffer_from_slave_queue() {
    let mut i2c = I2cAvr::new();
    i2c.rx = vec![10, 20, 30];
    let mut buffer = vec![0u8; 3];
    assert_eq!(i2c_read(&mut i2c, 0x42, &mut buffer), Ok(30));
    assert_eq!(buffer, vec![10, 20, 30]);
    assert!(i2c.rx.is_empty());
}

#[test]
fn avr_read_past_drained_queue_repeats_last_byte() {
    let mut i2c = I2cAvr::new();
    i2c.rx = vec![7];
    let mut buffer = vec![0u8; 3];
    assert_eq!(i2c_read(&mut i2c, 0x42, &mut buffer), Ok(7));
    assert_eq!(buffer, vec![7, 7, 7]);
}

#[test]
fn avr_read_with_silent_slave_repeats_address_byte() {
    let mut i2c = I2cAvr::new();
    let mut buffer = vec![0u8; 2];
    let address_byte = (0x42u8 << 1) | 1;
    assert_eq!(i2c_read(&mut i2c, 0x42, &mut buffer), Ok(address_byte));
    assert_eq!(buffer, vec![address_byte, address_byte]);
}

#[test]
fn cortex_init_stores_frequency_and_enables() {
    let mut i2c = I2cArm::new();
    assert!(i2c_init(&mut i2c, 16_000_000).is_ok());
    assert_eq!(i2c.cr2, 16);
    assert_eq!(i2c.cr1 & 0x01, 0x01);
}

#[test]
fn cortex_init_rejects_clock_above_maximum() {
    let mut i2c = I2cArm::new();
    assert_eq!(i2c_init(&mut i2c, 37_000_000), Err(HalError::ClockTooHigh));
    assert_eq!(i2c.cr1, 0);
    assert!(i2c_init(&mut i2c, 36_000_000).is_ok());
}

#[test]
fn cortex_write_asserts_every_phase_in_order() {
    let mut i2c = I2cArm::new();
    i2c.sr1 = 0x83;  // start bit, address sent, transmit empty
    assert!(i2c_write(&mut i2c, 0x42, &[0x01, 0x02]).is_ok());
    assert_eq!(
        i2c.bus,
        vec![
            I2cEvent::Start,
            I2cEvent::Address { addr: 0x42, read: false },
            I2cEvent::DataOut { byte: 0x01 },
            I2cEvent::DataOut { byte: 0x02 },
            I2cEvent::Stop,
        ]
    );
}

#[test]
fn cortex_write_timeout_still_releases_the_bus() {
    let mut i2c = I2cArm::new();
    assert_eq!(i2c_write(&mut i2c, 0x42, &[0x01]), Err(HalError::Timeout));
    assert_eq!(i2c.bus, vec![I2cEvent::Start, I2cEvent::Stop]);

    let mut i2c = I2cArm::new();
    i2c.sr1 = 0x01;  // start bit only: the address phase times out
    assert_eq!(i2c_write(&mut i2c, 0x42, &[0x01]), Err(HalError::Timeout));
    assert_eq!(
        i2c.bus,
        vec![
            I2cEvent::Start,
            I2cEvent::Address { addr: 0x42, read: false },
            I2cEvent::Stop,
        ]
    );
}

#[test]
fn cortex_read_fills_buffer_and_sets_acknowledge_pattern() {
    let mut i2c = I2cArm::new();
    i2c.sr1 = 0x43;  // start bit, address sent, receive not empty
    i2c.rx = vec![5, 6];
    let mut buffer = vec![0u8; 2];
    assert_eq!(i2c_read(&mut i2c, 0x21, &mut buffer), Ok(6));
    assert_eq!(buffer, vec![5, 6]);
    assert_eq!(
        i2c.bus,
        vec![
            I2cEvent::Start,
            I2cEvent::Address { addr: 0x21, read: true },
            I2cEvent::DataIn { ack: true },
            I2cEvent::DataIn { ack: false },
            I2cEvent::Stop,
        ]
    );
}

#[test]
fn cortex_read_timeout_still_releases_the_bus() {
    let mut i2c = I2cArm::new();
    i2c.sr1 = 0x03;  // address phase passes, no received byte
    let mut buffer = vec![0u8; 2];
    assert_eq!(i2c_read(&mut i2c, 0x21, &mut buffer), Err(HalError::Timeout));
    assert_eq!(buffer, vec![0, 0]);
    assert_eq!(
        i2c.bus,
        vec![
            I2cEvent::Start,
            I2cEvent::Address { addr: 0x21, read: true },
            I2cEvent::DataIn { ack: true },
            I2cEvent::Stop,
        ]
    );
}
