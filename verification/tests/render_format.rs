use rstrings::config::{Config, ConfigBuilder, Encoding, LocationRadix, UnicodeDisplay};
use rstrings::extract::{scan_source, scan_source_output};
use rstrings::format::{make_record, record_line, write_records};
use rstrings::radix::{format_offset, radix_digits};
use rstrings::render::render_run_text;
use rstrings::scan::Run;

#[test]
fn offsets_in_each_radix() {
    assert_eq!(format_offset(0, LocationRadix::Octal), "0");
    assert_eq!(format_offset(8, LocationRadix::Octal), "10");
    assert_eq!(format_offset(255, LocationRadix::Octal), "377");
    assert_eq!(format_offset(1234, LocationRadix::Decimal), "1234");
    assert_eq!(format_offset(255, LocationRadix::Hex), "ff");
    assert_eq!(format_offset(4096, LocationRadix::Hex), "1000");
}

#[test]
fn digits_in_arbitrary_bases() {
    assert_eq!(radix_digits(0, 2), "0");
    assert_eq!(radix_digits(6, 2), "110");
    assert_eq!(radix_digits(0xdead, 16), "dead");
}

#[test]
fn render_rely_on_encoding_keeps_scalars() {
    let expected = format!("H{}", char::from_u32(0xE9).unwrap());
    let rendered = render_run_text(&vec![0x48, 0xE9], UnicodeDisplay::RelyOnEncoding);
    assert_eq!(rendered, expected);
}

#[test]
fn render_invalid_masks_non_ascii() {
    let rendered = render_run_text(&vec![0x48, 0xE9, 0x20], UnicodeDisplay::Invalid);
    assert_eq!(rendered, "H? ");
}

#[test]
fn render_escape_mode() {
    let rendered = render_run_text(&vec![0x48, 0xE9], UnicodeDisplay::Escape);
    assert_eq!(rendered, "H\\u00e9");
    let wide = render_run_text(&vec![0x1F600], UnicodeDisplay::Escape);
    assert_eq!(wide, "\\u0001f600");
}

#[test]
fn render_hex_mode() {
    let rendered = render_run_text(&vec![0x48, 0xE9], UnicodeDisplay::Hex);
    assert_eq!(rendered, "H<e9>");
    let wide = render_run_text(&vec![0x1F600], UnicodeDisplay::Hex);
    assert_eq!(wide, "<1f600>");
}

#[test]
fn record_carries_file_name_when_enabled() {
    let bytes: Vec<u8> = b"needle".to_vec();
    let name = String::from("hay.bin");
    let config = ConfigBuilder::default().print_file_name(true).build();
    let records = scan_source(&bytes, Some(&name), &config);
    assert_eq!(records.len(), 1);
    assert_eq!(records[0].file_name.as_deref(), Some("hay.bin"));
    let line = record_line(&records[0]);
    assert_eq!(line, "hay.bin: needle");
}

#[test]
fn file_name_absent_for_anonymous_source() {
    let bytes: Vec<u8> = b"needle".to_vec();
    let config = ConfigBuilder::default().print_file_name(true).build();
    let records = scan_source(&bytes, None, &config);
    assert_eq!(records.len(), 1);
    assert!(records[0].file_name.is_none());
}

#[test]
fn full_line_with_name_offset_and_text() {
    let bytes: Vec<u8> = b"\x00\x00\x00\x00\x00\x00\x00\x00padding!".to_vec();
    let name = String::from("blob");
    let config = ConfigBuilder::default()
        .print_file_name(true)
        .loc_radix(LocationRadix::Hex)
        .build();
    let out = scan_source_output(&bytes, Some(&name), &config);
    assert_eq!(out, "blob: 8 padding!\n");
}

#[test]
fn separator_stands_between_records_only() {
    let bytes: Vec<u8> = b"hello\x01world".to_vec();
    let config = ConfigBuilder::default().separator(String::from("|")).build();
    let out = scan_source_output(&bytes, None, &config);
    assert_eq!(out, "hello|world");
}

#[test]
fn make_record_renders_under_display_mode() {
    let run = Run { start: 16, units: vec![0x41, 0x2665] };
    let config = ConfigBuilder::default()
        .unicode_display(UnicodeDisplay::Escape)
        .loc_radix(LocationRadix::Decimal)
        .build();
    let rec = make_record(&run, None, &config);
    assert_eq!(rec.text, "A\\u2665");
    assert_eq!(rec.offset.as_deref(), Some("16"));
    assert!(rec.file_name.is_none());
    assert_eq!(record_line(&rec), "16 A\\u2665");
}

#[test]
fn write_records_empty_input_is_empty_output() {
    let records = Vec::new();
    assert_eq!(write_records(&records), "");
    let bytes: Vec<u8> = b"ab".to_vec();
    assert_eq!(scan_source_output(&bytes, None, &Config::default()), "");
}
