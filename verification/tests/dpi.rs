use esp_slint_boards::dpi::{
    decode_eeprom, qvga_dpi, square_dpi, ClockPhase, ClockPolarity, IdleLevel,
};

fn eeprom(width: u16, height: u16, mhz: u8, tenths: u8, flags: u8) -> [u8; 28] {
    let mut bytes = [0xEEu8; 28];
    bytes[8..10].copy_from_slice(&width.to_be_bytes());
    bytes[10..12].copy_from_slice(&height.to_be_bytes());
    bytes[12] = mhz;
    bytes[13] = tenths;
    bytes[25] = flags;
    bytes
}

#[test]
fn stored_values_are_used() {
    let config = decode_eeprom(&eeprom(480, 272, 9, 5, 0));
    assert_eq!((config.eeprom_width, config.eeprom_height), (480, 272));
    assert_eq!((config.width, config.height), (480, 272));
    assert_eq!((config.eeprom_pclk_hz, config.pclk_hz), (9_500_000, 9_500_000));
}

#[test]
fn clock_is_limited() {
    let config = decode_eeprom(&eeprom(320, 240, 13, 7, 0));
    assert_eq!(config.pclk_hz, 13_600_000);
    let config = decode_eeprom(&eeprom(320, 240, 13, 6, 0));
    assert_eq!(config.pclk_hz, 13_600_000);
    let config = decode_eeprom(&eeprom(320, 240, 255, 255, 0));
    assert_eq!((config.eeprom_pclk_hz, config.pclk_hz), (13_600_000, 13_600_000));
}

#[test]
fn zero_eeprom_gives_defaults() {
    let config = decode_eeprom(&[0; 28]);
    assert_eq!((config.eeprom_width, config.eeprom_height, config.eeprom_pclk_hz), (0, 0, 0));
    assert_eq!((config.width, config.height, config.pclk_hz), (320, 240, 10_000_000));
    let settings = qvga_dpi(&config);
    assert_eq!(settings.hsync_idle, IdleLevel::High);
    assert_eq!(settings.vsync_idle, IdleLevel::High);
    assert_eq!(settings.de_idle, IdleLevel::Low);
    assert_eq!(settings.polarity, ClockPolarity::IdleLow);
    assert_eq!(settings.phase, ClockPhase::ShiftLow);
    assert_eq!(settings.pclk_hz, 10_000_000);
}

#[test]
fn each_flag() {
    let flags = |f| {
        let c = decode_eeprom(&eeprom(320, 240, 6, 0, f));
        assert_eq!(c.flags, f);
        (c.hsync_idle_low, c.vsync_idle_low, c.de_idle_high, c.pclk_active_neg)
    };
    assert_eq!(flags(0x01), (true, false, false, false));
    assert_eq!(flags(0x02), (false, true, false, false));
    assert_eq!(flags(0x04), (false, false, true, false));
    assert_eq!(flags(0x20), (false, false, false, true));
    assert_eq!(flags(0xD8), (false, false, false, false));
    assert_eq!(flags(0xFF), (true, true, true, true));
}

#[test]
fn flags_set_the_signals() {
    let settings = qvga_dpi(&decode_eeprom(&eeprom(320, 240, 6, 0, 0x27)));
    assert_eq!(settings.hsync_idle, IdleLevel::Low);
    assert_eq!(settings.vsync_idle, IdleLevel::Low);
    assert_eq!(settings.de_idle, IdleLevel::High);
    assert_eq!(settings.polarity, ClockPolarity::IdleHigh);
    assert_eq!(settings.phase, ClockPhase::ShiftHigh);
}

#[test]
fn other_bytes_do_not_matter() {
    let a = eeprom(320, 240, 6, 0, 0x05);
    let mut b = a;
    b[0] = 0;
    b[14] = 1;
    b[27] = 2;
    assert_eq!(decode_eeprom(&a), decode_eeprom(&b));
}

#[test]
fn qvga_frame_timing() {
    let settings = qvga_dpi(&decode_eeprom(&[0; 28]));
    let t = settings.timing;
    assert_eq!((t.horizontal_active_width, t.horizontal_total_width), (320, 454));
    assert_eq!((t.vertical_active_height, t.vertical_total_height), (240, 272));
    assert_eq!((t.horizontal_blank_front_porch, t.vertical_blank_front_porch), (87, 16));
    assert_eq!((t.hsync_width, t.vsync_width, t.hsync_position), (4, 4, 47));
    assert!(settings.two_byte_mode);
    assert!(!settings.disable_black_region);
}

#[test]
fn square_panel_settings() {
    let settings = square_dpi();
    let t = settings.timing;
    assert_eq!((t.horizontal_active_width, t.horizontal_total_width), (480, 520));
    assert_eq!((t.vertical_active_height, t.vertical_total_height), (480, 510));
    assert_eq!((t.horizontal_blank_front_porch, t.vertical_blank_front_porch), (20, 10));
    assert_eq!((t.hsync_width, t.vsync_width, t.hsync_position), (10, 10, 10));
    assert_eq!(settings.pclk_hz, 16_000_000);
    assert_eq!(settings.de_idle, IdleLevel::Low);
    assert_eq!(settings.vsync_idle, IdleLevel::High);
}

#[test]
fn timing_fits_into_the_totals() {
    for t in [qvga_dpi(&decode_eeprom(&[0xFF; 28])).timing, square_dpi().timing] {
        assert!(
            t.horizontal_active_width + t.horizontal_blank_front_porch + t.hsync_width
                <= t.horizontal_total_width
        );
        assert!(
            t.vertical_active_height + t.vertical_blank_front_porch + t.vsync_width
                <= t.vertical_total_height
        );
    }
}
