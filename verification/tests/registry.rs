use sfff::Glyph;

#[test]
fn primary_symbols_hold_the_published_codes() {
    assert_eq!(Glyph::NoteheadFillX.code_of(), 0x00);
    assert_eq!(Glyph::NoteheadFill.code_of(), 0x01);
    assert_eq!(Glyph::NoteheadHalf.code_of(), 0x02);
    assert_eq!(Glyph::NoteheadWhole.code_of(), 0x03);
    assert_eq!(Glyph::Flat.code_of(), 0x04);
    assert_eq!(Glyph::Sharp.code_of(), 0x05);
    assert_eq!(Glyph::Natural.code_of(), 0x06);
    assert_eq!(Glyph::FlagUp8.code_of(), 0x07);
    assert_eq!(Glyph::Rest4.code_of(), 0x0D);
    assert_eq!(Glyph::NoteheadDouble.code_of(), 0x10);
    assert_eq!(Glyph::ClefG.code_of(), 0x35);
    assert_eq!(Glyph::TimeSig4.code_of(), 0x54);
    assert_eq!(Glyph::Coda.code_of(), 0x70);
    assert_eq!(Glyph::Segno.code_of(), 0x76);
    assert_eq!(Glyph::Tremelo5.code_of(), 0x75);
    assert_eq!(Glyph::Len.code_of(), 0x77);
}

#[test]
fn every_code_maps_back_to_its_glyph() {
    for code in 0u16..=0x77 {
        let glyph = Glyph::from_code(code).unwrap();
        assert_eq!(glyph.code_of(), code);
    }
}

#[test]
fn codes_are_unique() {
    let mut seen = vec![false; 0x78];
    for code in 0u16..=0x77 {
        let glyph = Glyph::from_code(code).unwrap();
        let c = glyph.code_of() as usize;
        assert!(!seen[c]);
        seen[c] = true;
    }
    assert!(seen.iter().all(|&s| s));
}

#[test]
fn out_of_range_codes_name_nothing() {
    assert!(Glyph::from_code(0x78).is_none());
    assert!(Glyph::from_code(0x100).is_none());
    assert!(Glyph::from_code(u16::MAX).is_none());
}

#[test]
fn common_symbols_precede_rare_ones() {
    let common = [
        Glyph::NoteheadFill,
        Glyph::NoteheadHalf,
        Glyph::NoteheadWhole,
        Glyph::Flat,
        Glyph::Sharp,
        Glyph::Natural,
        Glyph::FlagUp8,
        Glyph::Rest4,
    ];
    let rare = [
        Glyph::Tremelo1,
        Glyph::Tremelo2,
        Glyph::Tremelo3,
        Glyph::Tremelo4,
        Glyph::Tremelo5,
    ];
    for c in common {
        for r in rare {
            assert!(c.code_of() < r.code_of());
        }
    }
}
