use sfff::{encode_path, Glyph, GlyphsBuilder, PathCommand, SfFontMetadata};

#[test]
fn blob_is_pushed_strings_in_order() {
    let mut glyphs = GlyphsBuilder::new();
    glyphs.push(Glyph::NoteheadFill, "M1 2z".to_string());
    glyphs.push(Glyph::Sharp, "L3 4".to_string());
    glyphs.push(Glyph::Flat, "".to_string());
    glyphs.push(Glyph::Natural, "z".to_string());
    assert_eq!(glyphs.into_string(), "M1 2zL3 4z");
}

#[test]
fn into_bytes_is_the_blob_text_as_utf8() {
    let mut glyphs = GlyphsBuilder::new();
    glyphs.push(Glyph::NoteheadFill, "M1 2z".to_string());
    assert_eq!(glyphs.into_bytes(), b"M1 2z");
}

#[test]
fn fresh_builder_yields_empty_blob() {
    let glyphs = GlyphsBuilder::new();
    assert_eq!(glyphs.into_string(), "");
}

#[test]
fn builder_feeds_the_codec() {
    let mut glyphs = GlyphsBuilder::new();
    let notehead = vec![
        PathCommand::MoveTo { abs: true, x: 0, y: 1 },
        PathCommand::LineTo { abs: false, x: 2, y: -3 },
        PathCommand::ClosePath { abs: false },
    ];
    glyphs.push(Glyph::NoteheadFill, encode_path(&notehead));
    let sharp = vec![
        PathCommand::MoveTo { abs: true, x: -1, y: -1 },
        PathCommand::VerticalLineTo { abs: false, y: 4 },
    ];
    glyphs.push(Glyph::Sharp, encode_path(&sharp));
    let blob = glyphs.into_string();
    assert_eq!(blob, "M0-1l2 3zM-1 1v-4");

    let meta = SfFontMetadata {
        sffonts_version: 0,
        font_name: "Test".to_string(),
        stave_line_thickness: 30,
        stem_thickness: 120,
        ledger_line_thickness: 160,
        ledger_line_extension: 400,
        slur_endpoint_thickness: 100,
        slur_midpoint_thickness: 220,
        barline_thickness: 160,
        thick_barline_thickness: 500,
        barlines_space: 400,
        barline_repeatdot_space: 160,
        bracket_thickness: 500,
        subbracket_thickness: 160,
        hairpin_thickness: 160,
        rehearsal_box_thickness: 160,
    };
    let bytes = meta.write(&blob).unwrap();
    let (back, blob_back) = SfFontMetadata::from_buf_reader(&bytes).unwrap();
    assert_eq!(back, meta);
    assert_eq!(blob_back, blob);
}
