use rstrings::config::{Config, ConfigBuilder, Encoding, LocationRadix};
use rstrings::decode::decode_unit_at;
use rstrings::extract::{scan_source, scan_source_output};
use rstrings::scan::scan_bytes;

#[test]
fn scenario_short_runs_dropped_long_run_kept() {
    let bytes: Vec<u8> = b"ab\x00\x00cdef".to_vec();
    let config = Config::default();
    let records = scan_source(&bytes, None, &config);
    assert_eq!(records.len(), 1);
    assert_eq!(records[0].text, "cdef");
    assert!(records[0].offset.is_none());
    assert!(records[0].file_name.is_none());
}

#[test]
fn scenario_two_records_on_own_lines() {
    let bytes: Vec<u8> = b"hello\x01world".to_vec();
    let config = Config::default();
    let records = scan_source(&bytes, None, &config);
    assert_eq!(records.len(), 2);
    assert_eq!(records[0].text, "hello");
    assert_eq!(records[1].text, "world");
    let out = scan_source_output(&bytes, None, &config);
    assert_eq!(out, "hello\nworld\n");
}

#[test]
fn scenario_sixteen_bit_le() {
    let bytes: Vec<u8> = vec![b'H', 0, b'i', 0];
    let config = ConfigBuilder::default()
        .char_encoding(Encoding::SixteenBitLE)
        .min_seq_len(1)
        .build();
    let records = scan_source(&bytes, None, &config);
    assert_eq!(records.len(), 1);
    assert_eq!(records[0].text, "Hi");
}

#[test]
fn scenario_space_not_printable_without_whitespace() {
    let bytes: Vec<u8> = b"ab cd".to_vec();
    let config = ConfigBuilder::default().min_seq_len(2).build();
    let records = scan_source(&bytes, None, &config);
    assert_eq!(records.len(), 2);
    assert_eq!(records[0].text, "ab");
    assert_eq!(records[1].text, "cd");
}

#[test]
fn scenario_octal_offset_zero() {
    let bytes: Vec<u8> = b"xxxx".to_vec();
    let config = ConfigBuilder::default().loc_radix(LocationRadix::Octal).build();
    let records = scan_source(&bytes, None, &config);
    assert_eq!(records.len(), 1);
    assert_eq!(records[0].offset.as_deref(), Some("0"));
    assert_eq!(records[0].text, "xxxx");
    let out = scan_source_output(&bytes, None, &config);
    assert_eq!(out, "0 xxxx\n");
}

#[test]
fn whitespace_flag_keeps_run_together() {
    let bytes: Vec<u8> = b"ab cd".to_vec();
    let config = ConfigBuilder::default().whitespace(true).min_seq_len(4).build();
    let records = scan_source(&bytes, None, &config);
    assert_eq!(records.len(), 1);
    assert_eq!(records[0].text, "ab cd");
}

#[test]
fn min_len_zero_treated_as_one() {
    let bytes: Vec<u8> = b"a\x00".to_vec();
    let config = ConfigBuilder::default().min_seq_len(0).build();
    let records = scan_source(&bytes, None, &config);
    assert_eq!(records.len(), 1);
    assert_eq!(records[0].text, "a");
}

#[test]
fn rescan_yields_identical_records() {
    let bytes: Vec<u8> = b"one\x02two words\xffmore".to_vec();
    let config = ConfigBuilder::default()
        .loc_radix(LocationRadix::Hex)
        .min_seq_len(3)
        .build();
    let first = scan_source(&bytes, None, &config);
    let again = scan_source(&bytes, None, &config);
    assert_eq!(first, again);
    assert_eq!(
        scan_source_output(&bytes, None, &config),
        scan_source_output(&bytes, None, &config)
    );
}

#[test]
fn emitted_runs_meet_minimum_and_are_printable_ascii() {
    let bytes: Vec<u8> = b"x\x00longest\x01ab\x02words here\x03".to_vec();
    let min: u16 = 4;
    let runs = scan_bytes(&bytes, Encoding::SevenBit, false, min);
    for run in &runs {
        assert!(run.units.len() >= min as usize);
        for v in &run.units {
            assert!((0x21..=0x7E).contains(v));
        }
        // maximality: the byte before and after each run is not printable
        if run.start > 0 {
            let before = bytes[run.start - 1] as u32;
            assert!(!(0x21..=0x7E).contains(&before));
        }
        let end = run.start + run.units.len();
        if end < bytes.len() {
            let after = bytes[end] as u32;
            assert!(!(0x21..=0x7E).contains(&after));
        }
    }
    assert_eq!(runs.len(), 3);
    assert_eq!(runs[0].start, 2);
    assert_eq!(runs[1].start, 13);
    assert_eq!(runs[2].start, 19);
}

#[test]
fn round_trip_offset_decodes_first_unit() {
    let bytes: Vec<u8> = vec![0x00, 0x48, 0x00, 0x69, 0xD8, 0x00, 0x00, 0x21];
    let enc = Encoding::SixteenBitBE;
    let runs = scan_bytes(&bytes, enc, false, 1);
    assert!(!runs.is_empty());
    for run in &runs {
        let first = decode_unit_at(&bytes, run.start, enc);
        assert_eq!(first, run.units[0]);
    }
}

#[test]
fn dangling_tail_never_in_a_run() {
    // 5 bytes under a 2-byte width: the final byte is a partial window
    let bytes: Vec<u8> = vec![b'A', b'B', 0x00, 0x00, b'C'];
    let runs = scan_bytes(&bytes, Encoding::SixteenBitLE, false, 1);
    for run in &runs {
        assert!(run.start + 2 * run.units.len() <= 4);
    }
    assert_eq!(runs.len(), 1);
    assert_eq!(runs[0].start, 0);
    assert_eq!(runs[0].units, vec![0x4241]);
}

#[test]
fn thirty_two_bit_big_endian_scan() {
    let bytes: Vec<u8> = vec![0, 0, 0, b'O', 0, 0, 0, b'K'];
    let config = ConfigBuilder::default()
        .char_encoding(Encoding::ThirtyTwoBitBE)
        .min_seq_len(2)
        .build();
    let records = scan_source(&bytes, None, &config);
    assert_eq!(records.len(), 1);
    assert_eq!(records[0].text, "OK");
}

#[test]
fn surrogate_code_unit_breaks_runs() {
    // 0xD800 is no Unicode scalar value, so it splits the printable units
    let bytes: Vec<u8> = vec![0x00, 0x41, 0xD8, 0x00, 0x00, 0x42];
    let runs = scan_bytes(&bytes, Encoding::SixteenBitBE, false, 1);
    assert_eq!(runs.len(), 2);
    assert_eq!(runs[0].units, vec![0x41]);
    assert_eq!(runs[1].units, vec![0x42]);
}

#[test]
fn data_only_flag_is_pass_through() {
    let bytes: Vec<u8> = b"alpha\x00beta!\x7fgamma".to_vec();
    let whole = ConfigBuilder::default().min_seq_len(4).build();
    let data = ConfigBuilder::default().min_seq_len(4).data_only(true).build();
    assert_eq!(
        scan_source(&bytes, None, &whole),
        scan_source(&bytes, None, &data)
    );
}
