#![allow(non_snake_case)]

use sfff::{Alternate, Alternates, Ligature, OptionalGlyph, SetGlyph, StylisticSet};

#[test]
fn metadata_records_hold_their_fields() {
    let alt = Alternate {
        codepoint: "U+F400".to_string(),
        name: "noteheadBlackSmall".to_string(),
    };
    let alts = Alternates { alternates: vec![alt.clone()] };
    assert_eq!(alts.alternates[0], alt);

    let lig = Ligature {
        codepoint: "U+E09E".to_string(),
        componentGlyphs: vec!["flag8thUp".to_string(), "flag16thUp".to_string()],
    };
    assert_eq!(lig.componentGlyphs.len(), 2);

    let set = StylisticSet {
        set_type: "flagsShort".to_string(),
        description: "Alternate shorter flags".to_string(),
        glyphs: vec![SetGlyph {
            codepoint: "U+F410".to_string(),
            name: "flag8thUpShort".to_string(),
            alternateFor: "flag8thUp".to_string(),
        }],
    };
    assert_eq!(set.glyphs[0].alternateFor, "flag8thUp");

    let opt = OptionalGlyph {
        classes: Some(vec!["noteheads".to_string()]),
        codepoint: "U+F477".to_string(),
    };
    assert_eq!(opt.classes.as_ref().unwrap().len(), 1);
}
