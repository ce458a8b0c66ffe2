use arduous::{Arduboy, EmuError, DISPLAY_PIXELS, SSD1306};

#[test]
fn the_display_inits() {
    let arduboy: Arduboy = Default::default();
    for row in arduboy.display().iter() {
        for pixel in row.iter() {
            assert_eq!(pixel, &false);
        }
    }
}

#[test]
fn it_inits() {
    let display = SSD1306::default();
    for pixel in display.iter() {
        assert_eq!(pixel, false);
    }
}

fn pixel(display: &SSD1306, x: usize, y: usize) -> bool {
    display.iter()[y * 128 + x]
}

#[test]
fn readout_has_every_pixel() {
    let display = SSD1306::new();
    assert_eq!(display.iter().len(), 8192);
    assert_eq!(DISPLAY_PIXELS, 128 * 64);
    let arduboy = Arduboy::new();
    assert_eq!(arduboy.display_iter().len(), 8192);
    assert_eq!(arduboy.display().len(), 64);
    assert_eq!(arduboy.display()[0].len(), 128);
    assert_eq!(arduboy.display_dimensions(), (128, 64));
}

#[test]
fn data_byte_lsb_at_bottom_of_page() {
    let mut display = SSD1306::new();
    display.push_data(0x01);
    assert!(pixel(&display, 0, 7));
    for y in 0..7 {
        assert!(!pixel(&display, 0, y));
    }
    display.push_data(0x80);
    assert!(pixel(&display, 1, 0));
    assert!(!pixel(&display, 1, 7));
}

#[test]
fn page_mode_wraps_to_column_start_on_same_page() {
    // From column 0: after 128 bytes the cursor is back at the column start.
    let mut display = SSD1306::new();
    for _ in 0..128 {
        display.push_data(0x00);
    }
    display.push_data(0x01);
    assert!(pixel(&display, 0, 7));
    assert!(!pixel(&display, 0, 15));

    // Page 3, column start 5: the wrap goes to column 5 of page 3.
    let mut display = SSD1306::new();
    display.push_command(0xb3).unwrap();
    display.push_command(0x05).unwrap();
    for _ in 5..128 {
        display.push_data(0x00);
    }
    display.push_data(0xff);
    for y in 24..32 {
        assert!(pixel(&display, 5, y));
    }
    assert!(!pixel(&display, 5, 23));
    assert!(!pixel(&display, 5, 32));
}

#[test]
fn all_ones_reads_all_true() {
    let mut display = SSD1306::new();
    display.push_command(0x20).unwrap();
    display.push_command(0x00).unwrap();
    for _ in 0..(128 * 8) {
        display.push_data(0xff);
    }
    assert!(display.iter().iter().all(|p| *p));
}

#[test]
fn invert_on_then_off() {
    let mut display = SSD1306::new();
    display.push_data(0x0f);
    let raw = display.iter();
    display.push_command(0xa7).unwrap();
    let inverted = display.iter();
    for i in 0..8192 {
        assert_eq!(inverted[i], !raw[i]);
    }
    display.push_command(0xa6).unwrap();
    assert_eq!(display.iter(), raw);
}

#[test]
fn ignore_ram_lights_everything() {
    let mut display = SSD1306::new();
    display.push_command(0xa5).unwrap();
    assert!(display.iter().iter().all(|p| *p));
    display.push_command(0xa4).unwrap();
    assert!(display.iter().iter().all(|p| !*p));
}

#[test]
fn sleep_hides_ram() {
    let mut display = SSD1306::new();
    for b in [0x55u8, 0xaa, 0xff, 0x01] {
        display.push_data(b);
    }
    let pattern = display.iter();
    display.push_command(0xae).unwrap();
    assert!(display.iter().iter().all(|p| !*p));
    display.push_command(0xaf).unwrap();
    assert_eq!(display.iter(), pattern);
}

#[test]
fn multiplex_ratio_below_sixteen_is_invalid() {
    let mut display = SSD1306::new();
    assert_eq!(display.push_command(0xa8), Ok(()));
    assert_eq!(
        display.push_command(0x0a),
        Err(EmuError::InvalidDisplayParameter { command: 0xa8, parameter: 0x0a })
    );
    // the faulty byte was not taken: a valid parameter completes the command
    assert_eq!(display.push_command(0x3f), Ok(()));
}

#[test]
fn addressing_mode_three_is_unknown() {
    let mut display = SSD1306::new();
    display.push_command(0x20).unwrap();
    assert_eq!(display.push_command(0b11), Err(EmuError::UnknownDisplayCommand { command: 0x20 }));
}

#[test]
fn precharge_with_zero_nibble_is_invalid() {
    let mut display = SSD1306::new();
    display.push_command(0xd9).unwrap();
    assert_eq!(
        display.push_command(0xf0),
        Err(EmuError::InvalidDisplayParameter { command: 0xd9, parameter: 0xf0 })
    );
    assert_eq!(display.push_command(0xf1), Ok(()));
}

#[test]
fn unknown_command_byte() {
    let mut display = SSD1306::new();
    assert_eq!(display.push_command(0xff), Err(EmuError::UnknownDisplayCommand { command: 0xff }));
}

#[test]
fn column_window_in_horizontal_mode() {
    let mut display = SSD1306::new();
    for b in [0x20u8, 0x00, 0x21, 10, 11, 0x22, 2, 3] {
        display.push_command(b).unwrap();
    }
    for _ in 0..3 {
        display.push_data(0x01);
    }
    // columns 10, 11 of page 2, then column 10 of page 3
    assert!(pixel(&display, 10, 23));
    assert!(pixel(&display, 11, 23));
    assert!(pixel(&display, 10, 31));
    assert!(!pixel(&display, 12, 23));
}

#[test]
fn vertical_mode_moves_down_first() {
    let mut display = SSD1306::new();
    for b in [0x20u8, 0x01] {
        display.push_command(b).unwrap();
    }
    display.push_data(0x01);
    display.push_data(0x01);
    assert!(pixel(&display, 0, 7));
    assert!(pixel(&display, 0, 15));
    assert!(!pixel(&display, 1, 7));
}

#[test]
fn column_start_high_nibble_keeps_all_four_bits() {
    // high nibble 2, low nibble 5: column 37
    let mut display = SSD1306::new();
    display.push_command(0x12).unwrap();
    display.push_command(0x05).unwrap();
    display.push_data(0x01);
    assert!(pixel(&display, 37, 7));
    // high nibble 8: column 128 and beyond lies off the panel
    let mut display = SSD1306::new();
    display.push_command(0x18).unwrap();
    display.push_command(0x00).unwrap();
    for _ in 0..200 {
        display.push_data(0xff);
    }
    assert!(display.iter().iter().all(|p| !*p));
    // back on the panel: high nibble 0, low nibble 3
    display.push_command(0x10).unwrap();
    display.push_command(0x03).unwrap();
    display.push_data(0x80);
    assert!(pixel(&display, 3, 0));
}
