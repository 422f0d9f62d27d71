use sfff::{ReadError, SfFontMetadata, WriteError};

fn sample_meta(name: &str) -> SfFontMetadata {
    SfFontMetadata {
        sffonts_version: 0,
        font_name: name.to_string(),
        stave_line_thickness: 1,
        stem_thickness: 2,
        ledger_line_thickness: 3,
        ledger_line_extension: 4,
        slur_endpoint_thickness: 5,
        slur_midpoint_thickness: 6,
        barline_thickness: 7,
        thick_barline_thickness: 8,
        barlines_space: 9,
        barline_repeatdot_space: 10,
        bracket_thickness: 11,
        subbracket_thickness: 12,
        hairpin_thickness: 13,
        rehearsal_box_thickness: 14,
    }
}

#[test]
fn round_trip_preserves_everything() {
    let meta = SfFontMetadata {
        sffonts_version: 0,
        font_name: "Modern".to_string(),
        stave_line_thickness: 30,
        stem_thickness: 120,
        ledger_line_thickness: 160,
        ledger_line_extension: 400,
        slur_endpoint_thickness: 100,
        slur_midpoint_thickness: 220,
        barline_thickness: 160,
        thick_barline_thickness: 500,
        barlines_space: 400,
        barline_repeatdot_space: 160,
        bracket_thickness: 500,
        subbracket_thickness: 160,
        hairpin_thickness: 160,
        rehearsal_box_thickness: 160,
    };
    let blob = "M5 3-2-4 1 1zC5 3-2-4 1 1";
    let bytes = meta.write(blob).unwrap();
    let (back, blob_back) = SfFontMetadata::from_buf_reader(&bytes).unwrap();
    assert_eq!(back, meta);
    assert_eq!(blob_back, blob);
}

#[test]
fn wire_layout_is_exact() {
    let meta = sample_meta("Ab");
    let bytes = meta.write("z").unwrap();
    let mut expected: Vec<u8> = vec![0, 0, 2, b'A', b'b'];
    for field in 1u32..=14 {
        expected.extend_from_slice(&field.to_le_bytes());
    }
    expected.push(b'z');
    assert_eq!(bytes, expected);
}

#[test]
fn version_is_little_endian() {
    let mut meta = sample_meta("x");
    meta.sffonts_version = 0x0201;
    let bytes = meta.write("").unwrap();
    assert_eq!(bytes[0], 0x01);
    assert_eq!(bytes[1], 0x02);
    let (back, _) = SfFontMetadata::from_buf_reader(&bytes).unwrap();
    assert_eq!(back.sffonts_version, 0x0201);
}

#[test]
fn name_of_255_bytes_succeeds() {
    let meta = sample_meta(&"a".repeat(255));
    let bytes = meta.write("blob").unwrap();
    assert_eq!(bytes[2], 255);
    let (back, blob) = SfFontMetadata::from_buf_reader(&bytes).unwrap();
    assert_eq!(back.font_name.len(), 255);
    assert_eq!(blob, "blob");
}

#[test]
fn name_of_256_bytes_fails() {
    let meta = sample_meta(&"a".repeat(256));
    assert!(matches!(meta.write("blob"), Err(WriteError::FontNameTooLong)));
}

#[test]
fn name_length_counts_bytes_not_chars() {
    // 128 two-byte characters: 128 chars but 256 bytes of UTF-8.
    let meta = sample_meta(&"\u{e9}".repeat(128));
    assert!(matches!(meta.write(""), Err(WriteError::FontNameTooLong)));
}

#[test]
fn truncation_before_blob_always_eof() {
    let meta = sample_meta("Modern");
    let bytes = meta.write("M1 2z").unwrap();
    let header_len = 2 + 1 + "Modern".len() + 14 * 4;
    for cut in 0..header_len {
        let r = SfFontMetadata::from_buf_reader(&bytes[..cut]);
        assert!(matches!(r, Err(ReadError::UnexpectedEof)), "cut at {cut}");
    }
    // Cutting exactly at the blob boundary leaves a readable, empty-blob artifact.
    let (back, blob) = SfFontMetadata::from_buf_reader(&bytes[..header_len]).unwrap();
    assert_eq!(back, meta);
    assert_eq!(blob, "");
}

#[test]
fn empty_input_is_eof() {
    assert!(matches!(
        SfFontMetadata::from_buf_reader(&[]),
        Err(ReadError::UnexpectedEof)
    ));
}

#[test]
fn invalid_name_bytes_are_invalid_text() {
    let mut bytes: Vec<u8> = vec![0, 0, 2, 0xFF, 0xFE];
    bytes.extend_from_slice(&[0u8; 56]);
    assert!(matches!(
        SfFontMetadata::from_buf_reader(&bytes),
        Err(ReadError::InvalidText)
    ));
}

#[test]
fn invalid_blob_bytes_are_prevented() {
    let meta = sample_meta("ok");
    let mut bytes = meta.write("").unwrap();
    bytes.push(0xFF);
    assert!(matches!(
        SfFontMetadata::from_buf_reader(&bytes),
        Err(ReadError::Prevented)
    ));
}

#[test]
fn empty_blob_round_trips() {
    let meta = sample_meta("Modern");
    let bytes = meta.write("").unwrap();
    assert_eq!(bytes.len(), 2 + 1 + "Modern".len() + 14 * 4);
    let (back, blob) = SfFontMetadata::from_buf_reader(&bytes).unwrap();
    assert_eq!(back, meta);
    assert_eq!(blob, "");
}

#[test]
fn non_ascii_name_round_trips() {
    let meta = sample_meta("\u{e9}tude \u{266f}");
    let bytes = meta.write("M1 2").unwrap();
    // The name region holds real UTF-8, not one byte per character.
    assert_eq!(bytes[2] as usize, "\u{e9}tude \u{266f}".len());
    let (back, _) = SfFontMetadata::from_buf_reader(&bytes).unwrap();
    assert_eq!(back.font_name, "\u{e9}tude \u{266f}");
}

#[test]
fn nonzero_version_accepted_on_read() {
    let mut meta = sample_meta("x");
    meta.sffonts_version = 7;
    let bytes = meta.write("b").unwrap();
    let (back, _) = SfFontMetadata::from_buf_reader(&bytes).unwrap();
    assert_eq!(back.sffonts_version, 7);
}

#[test]
fn measurements_accept_any_bit_pattern() {
    let mut meta = sample_meta("x");
    meta.stave_line_thickness = u32::MAX;
    meta.rehearsal_box_thickness = 0;
    let bytes = meta.write("").unwrap();
    let (back, _) = SfFontMetadata::from_buf_reader(&bytes).unwrap();
    assert_eq!(back.stave_line_thickness, u32::MAX);
    assert_eq!(back.rehearsal_box_thickness, 0);
}
