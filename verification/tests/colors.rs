use vga::colors::{default_palette, Color16Bit, TextModeColor, PALETTE_SIZE};

#[test]
fn test_set_foreground() {
    let mut color = TextModeColor::new(Color16Bit::Yellow, Color16Bit::Black);
    color.set_foreground(Color16Bit::Red);
    assert_eq!(color.0 & 0x0F, Color16Bit::Red as u8);
}

#[test]
fn test_set_background() {
    let mut color = TextModeColor::new(Color16Bit::Yellow, Color16Bit::Black);
    color.set_background(Color16Bit::DarkGrey);
    assert_eq!(color.0 >> 4, Color16Bit::DarkGrey as u8);
}

const ALL_COLORS: [Color16Bit; 16] = [
    Color16Bit::Black,
    Color16Bit::Blue,
    Color16Bit::Green,
    Color16Bit::Cyan,
    Color16Bit::Red,
    Color16Bit::Magenta,
    Color16Bit::Brown,
    Color16Bit::LightGrey,
    Color16Bit::DarkGrey,
    Color16Bit::LightBlue,
    Color16Bit::LightGreen,
    Color16Bit::LightCyan,
    Color16Bit::LightRed,
    Color16Bit::Pink,
    Color16Bit::Yellow,
    Color16Bit::White,
];

#[test]
fn color_codes_are_dense() {
    for (i, color) in ALL_COLORS.iter().enumerate() {
        assert_eq!(color.code(), i as u8);
        assert_eq!(color.code(), *color as u8);
        assert_eq!(Color16Bit::from_code(i as u8).code(), i as u8);
    }
}

#[test]
fn new_packs_both_nibbles_for_all_pairs() {
    for fg in ALL_COLORS.iter() {
        for bg in ALL_COLORS.iter() {
            let color = TextModeColor::new(*fg, *bg);
            assert_eq!(color.0 & 0x0F, fg.code());
            assert_eq!(color.0 >> 4, bg.code());
        }
    }
}

#[test]
fn set_foreground_keeps_background_nibble() {
    let mut color = TextModeColor::new(Color16Bit::Yellow, Color16Bit::Blue);
    color.set_foreground(Color16Bit::Red);
    assert_eq!(color.0 & 0x0F, Color16Bit::Red as u8);
    assert_eq!(color.0 >> 4, Color16Bit::Blue as u8);
}

#[test]
fn set_background_keeps_foreground_nibble() {
    let mut color = TextModeColor::new(Color16Bit::Yellow, Color16Bit::Blue);
    color.set_background(Color16Bit::DarkGrey);
    assert_eq!(color.0 >> 4, Color16Bit::DarkGrey as u8);
    assert_eq!(color.0 & 0x0F, Color16Bit::Yellow as u8);
}

#[test]
fn palette_has_768_bytes_in_dac_range() {
    let palette = default_palette();
    assert_eq!(palette.len(), 768);
    assert_eq!(palette.len(), PALETTE_SIZE);
    assert_eq!(palette.len() % 3, 0);
    for byte in palette.iter() {
        assert!(*byte <= 63);
    }
}

#[test]
fn palette_matches_reference_bytes() {
    let palette = default_palette();
    let first_sixteen_entries: [u8; 48] = [
        0x0, 0x0, 0x0, 0x0, 0x0, 0x2A, 0x0, 0x2A, 0x0, 0x0, 0x2A, 0x2A, 0x2A, 0x0, 0x0, 0x2A,
        0x0, 0x2A, 0x2A, 0x2A, 0x0, 0x2A, 0x2A, 0x2A, 0x0, 0x0, 0x15, 0x0, 0x0, 0x3F, 0x0, 0x2A,
        0x15, 0x0, 0x2A, 0x3F, 0x2A, 0x0, 0x15, 0x2A, 0x0, 0x3F, 0x2A, 0x2A, 0x15, 0x2A, 0x2A,
        0x3F,
    ];
    assert_eq!(&palette[..48], &first_sixteen_entries[..]);
    // Spot checks deeper into the ramp of the first 64 entries.
    assert_eq!(&palette[48..51], &[0x0, 0x15, 0x0]);
    assert_eq!(&palette[60..63], &[0x2A, 0x15, 0x0]);
    assert_eq!(&palette[75..78], &[0x0, 0x15, 0x3F]);
    assert_eq!(&palette[90..93], &[0x2A, 0x3F, 0x15]);
    assert_eq!(&palette[120..123], &[0x15, 0x0, 0x15]);
    assert_eq!(&palette[144..147], &[0x15, 0x15, 0x0]);
    assert_eq!(&palette[168..171], &[0x15, 0x15, 0x15]);
    assert_eq!(&palette[186..189], &[0x3F, 0x3F, 0x15]);
    assert_eq!(&palette[189..192], &[0x3F, 0x3F, 0x3F]);
    // Entries 64..256 are all white.
    for byte in palette[192..].iter() {
        assert_eq!(*byte, 0x3F);
    }
}
