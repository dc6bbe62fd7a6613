use lcd_i2c_backpack::BusError;
use lcd_i2c_backpack::FunctionMode;
use lcd_i2c_backpack::I2cBus;
use lcd_i2c_backpack::I2cLcdBackpack;
use lcd_i2c_backpack::I2cLcdPinConfig;
use lcd_i2c_backpack::LcdError;

struct FakeBus {
    written: Vec<(u8, u8)>,
    to_read: Vec<u8>,
    read_pos: usize,
    read_addrs: Vec<u8>,
    fail_writes: bool,
    fail_reads: bool,
}

impl FakeBus {
    fn new() -> Self {
        FakeBus {
            written: Vec::new(),
            to_read: Vec::new(),
            read_pos: 0,
            read_addrs: Vec::new(),
            fail_writes: false,
            fail_reads: false,
        }
    }

    fn with_reads(to_read: Vec<u8>) -> Self {
        FakeBus { to_read, ..FakeBus::new() }
    }
}

impl I2cBus for FakeBus {
    fn write_byte(&mut self, address: u8, byte: u8) -> Result<(), BusError> {
        if self.fail_writes {
            return Err(BusError { code: 1 });
        }
        self.written.push((address, byte));
        Ok(())
    }

    fn read_byte(&mut self, address: u8) -> Result<u8, BusError> {
        if self.fail_reads {
            return Err(BusError { code: 2 });
        }
        let b = self.to_read[self.read_pos];
        self.read_pos += 1;
        self.read_addrs.push(address);
        Ok(b)
    }
}

#[test]
fn flush_transmits_the_accumulated_byte() {
    // Default assignment: RS at bit 0, EN at bit 2, nibble 0b1010 lands on
    // data lines 5 and 7.
    let mut lcd = I2cLcdBackpack::new(FakeBus::new(), 0x27);
    lcd.rs(true);
    lcd.enable(true);
    lcd.data(0b1010);
    assert!(lcd.bus().written.is_empty());
    lcd.apply().unwrap();
    assert_eq!(lcd.bus().written, vec![(0x27, 0b1010_0101)]);
}

#[test]
fn flush_does_not_clear_the_state_register() {
    let mut lcd = I2cLcdBackpack::new(FakeBus::new(), 0x3f);
    lcd.rs(true);
    lcd.apply().unwrap();
    lcd.apply().unwrap();
    assert_eq!(lcd.bus().written, vec![(0x3f, 0b0000_0001), (0x3f, 0b0000_0001)]);
}

#[test]
fn setters_touch_only_their_own_bit() {
    let mut lcd = I2cLcdBackpack::new(FakeBus::new(), 0x27);
    lcd.rs(true);
    lcd.enable(true);
    lcd.apply().unwrap();
    lcd.rs(false);
    lcd.apply().unwrap();
    lcd.enable(false);
    lcd.apply().unwrap();
    assert_eq!(
        lcd.bus().written,
        vec![(0x27, 0b0000_0101), (0x27, 0b0000_0100), (0x27, 0b0000_0000)],
    );
}

#[test]
fn data_nibble_round_trips_through_the_register() {
    // With the default assignment the four data lines are bits 4..=7, so
    // the transmitted byte's high nibble must reconstruct the value.
    for v in 0u8..16 {
        let mut lcd = I2cLcdBackpack::new(FakeBus::new(), 0x27);
        lcd.data(v);
        lcd.apply().unwrap();
        let (_, byte) = lcd.bus().written[0];
        assert_eq!(byte >> 4, v);
        assert_eq!(byte & 0x0f, 0);
    }
}

#[test]
fn data_ignores_the_high_nibble_of_its_argument() {
    let mut lcd = I2cLcdBackpack::new(FakeBus::new(), 0x27);
    lcd.data(0b1111_0110);
    lcd.apply().unwrap();
    let (_, byte) = lcd.bus().written[0];
    assert_eq!(byte >> 4, 0b0110);
}

#[test]
fn read_data_decodes_the_data_line_positions() {
    // Data lines sit at bits 4..=7 by default: the high nibble of the byte
    // on the bus comes back as the logical value.
    let mut lcd = I2cLcdBackpack::new(FakeBus::with_reads(vec![0b1011_0000]), 0x27);
    assert_eq!(lcd.read_data().unwrap(), 0b1011);
    // Exactly one read, and it went to the configured device address.
    assert_eq!(lcd.bus().read_addrs, vec![0x27]);
}

#[test]
fn read_data_ignores_non_data_bits() {
    // Same data-line levels, every other bit flipped: same decoded value.
    let mut lcd = I2cLcdBackpack::new(FakeBus::with_reads(vec![0b1011_0000, 0b1011_1111]), 0x27);
    let first = lcd.read_data().unwrap();
    let second = lcd.read_data().unwrap();
    assert_eq!(first, second);
    assert_eq!(second, 0b1011);
}

#[test]
fn read_data_with_remapped_data_lines() {
    // Data lines reversed onto bits 3..=0: bit 3 of the bus byte is data
    // line 4, bit 0 is data line 7.
    let pins = I2cLcdPinConfig::default()
        .d4(3)
        .unwrap()
        .d5(2)
        .unwrap()
        .d6(1)
        .unwrap()
        .d7(0)
        .unwrap();
    let mut lcd = I2cLcdBackpack::new_with_pins(FakeBus::with_reads(vec![0b0000_1000]), 0x27, pins);
    assert_eq!(lcd.read_data().unwrap(), 0b0001);
}

#[test]
fn rw_high_forces_the_input_pattern() {
    // Driving R/W high must also drive all four data-line bits high so the
    // peripheral can pull them low.
    let mut lcd = I2cLcdBackpack::new(FakeBus::new(), 0x27);
    lcd.rw(true).unwrap();
    lcd.apply().unwrap();
    // Data lines 4..=7 high plus R/W at bit 1.
    assert_eq!(lcd.bus().written, vec![(0x27, 0b1111_0010)]);
    lcd.rw(false).unwrap();
    lcd.apply().unwrap();
    // Clearing R/W leaves the data bits alone.
    assert_eq!(lcd.bus().written[1], (0x27, 0b1111_0000));
}

#[test]
fn mode_is_always_4_bit() {
    let lcd = I2cLcdBackpack::new(FakeBus::new(), 0x27);
    assert_eq!(lcd.mode(), FunctionMode::Bit4);
}

#[test]
fn backlight_flushes_immediately_and_alone() {
    let mut lcd = I2cLcdBackpack::new(FakeBus::new(), 0x27);
    lcd.rs(true);
    lcd.data(0b1010);
    // The pending control-line state has not been flushed yet; the
    // backlight call must transmit it together with the backlight bit,
    // in exactly one write.
    lcd.set_backlight(true).unwrap();
    assert_eq!(lcd.bus().written, vec![(0x27, 0b1010_1001)]);
    // Clearing the backlight leaves every non-backlight bit unchanged.
    lcd.set_backlight(false).unwrap();
    assert_eq!(lcd.bus().written[1], (0x27, 0b1010_0001));
    assert_eq!(lcd.bus().written.len(), 2);
}

#[test]
fn transport_failure_on_write_is_returned() {
    let mut bus = FakeBus::new();
    bus.fail_writes = true;
    let mut lcd = I2cLcdBackpack::new(bus, 0x27);
    assert_eq!(lcd.apply().unwrap_err(), LcdError::Transport(BusError { code: 1 }));
    assert_eq!(lcd.set_backlight(true).unwrap_err(), LcdError::Transport(BusError { code: 1 }));
}

#[test]
fn transport_failure_on_read_is_returned() {
    let mut bus = FakeBus::new();
    bus.fail_reads = true;
    let mut lcd = I2cLcdBackpack::new(bus, 0x27);
    assert_eq!(lcd.read_data().unwrap_err(), LcdError::Transport(BusError { code: 2 }));
}

#[test]
fn written_nibble_read_back_through_the_bus() {
    // Flush a nibble, then feed the very byte that crossed the bus back in
    // as the device's answer: decoding must reconstruct the nibble, for
    // every 4-bit value, under a remapped (still distinct) assignment.
    let pins = I2cLcdPinConfig::default()
        .d4(6)
        .unwrap()
        .d5(3)
        .unwrap()
        .d6(0)
        .unwrap()
        .d7(5)
        .unwrap();
    for v in 0u8..16 {
        let mut writer = I2cLcdBackpack::new_with_pins(FakeBus::new(), 0x27, pins);
        writer.data(v);
        writer.apply().unwrap();
        let (_, byte) = writer.bus().written[0];
        let mut reader =
            I2cLcdBackpack::new_with_pins(FakeBus::with_reads(vec![byte]), 0x27, pins);
        assert_eq!(reader.read_data().unwrap(), v);
    }
}

#[test]
fn new_uses_the_default_assignment() {
    let mut with_default = I2cLcdBackpack::new(FakeBus::new(), 0x27);
    let mut with_explicit =
        I2cLcdBackpack::new_with_pins(FakeBus::new(), 0x27, I2cLcdPinConfig::default());
    with_default.rs(true);
    with_default.data(0b0101);
    with_default.apply().unwrap();
    with_explicit.rs(true);
    with_explicit.data(0b0101);
    with_explicit.apply().unwrap();
    assert_eq!(with_default.bus().written, with_explicit.bus().written);
}
