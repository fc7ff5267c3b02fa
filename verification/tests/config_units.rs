use rstrings::classify::is_printable;
use rstrings::cli::parse_cli_args;
use rstrings::config::{Config, ConfigBuilder, Encoding, LocationRadix, UnicodeDisplay};
use rstrings::decode::{decode_unit_at, decode_units};

#[test]
fn default_config_matches_documented_defaults() {
    let c = Config::default();
    assert!(!c.data_only);
    assert!(!c.print_file_name);
    assert_eq!(c.min_seq_len, 4);
    assert!(c.loc_radix.is_none());
    assert!(!c.whitespace);
    assert_eq!(c.char_encoding, Encoding::SevenBit);
    assert_eq!(c.unicode_display, UnicodeDisplay::RelyOnEncoding);
    assert_eq!(c.separator, "");
}

#[test]
fn builder_sets_every_field() {
    let c = ConfigBuilder::default()
        .data_only(true)
        .print_file_name(true)
        .min_seq_len(7)
        .loc_radix(LocationRadix::Hex)
        .whitespace(true)
        .char_encoding(Encoding::ThirtyTwoBitLE)
        .unicode_display(UnicodeDisplay::Hex)
        .separator(String::from("--"))
        .build();
    assert!(c.data_only);
    assert!(c.print_file_name);
    assert_eq!(c.min_seq_len, 7);
    assert_eq!(c.loc_radix, Some(LocationRadix::Hex));
    assert!(c.whitespace);
    assert_eq!(c.char_encoding, Encoding::ThirtyTwoBitLE);
    assert_eq!(c.unicode_display, UnicodeDisplay::Hex);
    assert_eq!(c.separator, "--");
}

#[test]
fn parse_cli_args_yields_defaults() {
    let args = vec![String::from("rstrings"), String::from("some.bin")];
    let c = parse_cli_args(args);
    assert_eq!(c, Config::default());
}

#[test]
fn enum_defaults() {
    assert_eq!(Encoding::default(), Encoding::SevenBit);
    assert_eq!(UnicodeDisplay::default(), UnicodeDisplay::RelyOnEncoding);
}

#[test]
fn decode_single_units_every_width() {
    let bytes: Vec<u8> = vec![0x12, 0x34, 0x56, 0x78];
    assert_eq!(decode_unit_at(&bytes, 0, Encoding::SevenBit), 0x12);
    assert_eq!(decode_unit_at(&bytes, 1, Encoding::EightBit), 0x34);
    assert_eq!(decode_unit_at(&bytes, 0, Encoding::SixteenBitBE), 0x1234);
    assert_eq!(decode_unit_at(&bytes, 0, Encoding::SixteenBitLE), 0x3412);
    assert_eq!(decode_unit_at(&bytes, 0, Encoding::ThirtyTwoBitBE), 0x12345678);
    assert_eq!(decode_unit_at(&bytes, 0, Encoding::ThirtyTwoBitLE), 0x78563412);
}

#[test]
fn decode_drops_trailing_fragment() {
    let bytes: Vec<u8> = vec![0xAA, 0xBB, 0xCC];
    let units = decode_units(&bytes, Encoding::SixteenBitBE);
    assert_eq!(units.len(), 1);
    assert_eq!(units[0].value, 0xAABB);
    assert_eq!(units[0].offset, 0);
    let wide = decode_units(&bytes, Encoding::ThirtyTwoBitLE);
    assert!(wide.is_empty());
}

#[test]
fn decode_offsets_advance_by_width() {
    let bytes: Vec<u8> = vec![1, 2, 3, 4, 5, 6];
    let units = decode_units(&bytes, Encoding::SixteenBitLE);
    assert_eq!(units.len(), 3);
    assert_eq!(units[0].offset, 0);
    assert_eq!(units[1].offset, 2);
    assert_eq!(units[2].offset, 4);
    assert_eq!(units[1].value, 0x0403);
}

#[test]
fn classifier_seven_bit() {
    let e = Encoding::SevenBit;
    assert!(is_printable(b'a' as u32, e, false));
    assert!(is_printable(b'!' as u32, e, false));
    assert!(!is_printable(0x20, e, false));
    assert!(is_printable(0x20, e, true));
    assert!(is_printable(0x09, e, true));
    assert!(!is_printable(0x09, e, false));
    assert!(!is_printable(0x7F, e, false));
    assert!(!is_printable(0x80, e, false));
    assert!(!is_printable(0x00, e, true));
}

#[test]
fn classifier_eight_bit_accepts_high_bytes() {
    let e = Encoding::EightBit;
    assert!(is_printable(0xE9, e, false));
    assert!(is_printable(0xA0, e, false));
    assert!(!is_printable(0x9F, e, false));
    assert!(!is_printable(0x80, e, false));
    assert!(!is_printable(0x7F, e, false));
}

#[test]
fn classifier_wide_modes_require_scalars() {
    let e16 = Encoding::SixteenBitBE;
    assert!(is_printable(b'Z' as u32, e16, false));
    assert!(!is_printable(0xD800, e16, false));
    assert!(!is_printable(0xDFFF, e16, false));
    assert!(is_printable(0xE000, e16, false));
    let e32 = Encoding::ThirtyTwoBitLE;
    assert!(is_printable(0x10FFFF, e32, false));
    assert!(!is_printable(0x110000, e32, false));
    assert!(!is_printable(0x0A, e32, false));
    assert!(is_printable(0x0A, e32, true));
}
