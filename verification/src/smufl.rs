//! Text-level records of the source metadata document.
//!
//! The source font ships a metadata document describing its glyphs; these
//! records hold the parts of it whose fields are plain text. The document's
//! schema is the source format's, so field names follow its spelling.

use vstd::prelude::*;

verus! {

/// A stylistic alternate for one glyph: its code point and name.
#[allow(non_snake_case)]
#[derive(Debug, Clone, PartialEq, Eq)]
pub struct Alternate {
    /// Code point of the alternate glyph.
    pub codepoint: String,
    /// Canonical name of the alternate glyph.
    pub name: String,
}

/// The list of stylistic alternates provided for one glyph.
#[allow(non_snake_case)]
#[derive(Debug, Clone, PartialEq, Eq)]
pub struct Alternates {
    /// The alternates, in document order.
    pub alternates: Vec<Alternate>,
}

/// A ligature joining several recommended glyphs.
#[allow(non_snake_case)]
#[derive(Debug, Clone, PartialEq, Eq)]
pub struct Ligature {
    /// Code point of the ligature glyph.
    pub codepoint: String,
    /// Names of the glyphs the ligature joins.
    pub componentGlyphs: Vec<String>,
}

/// One glyph of a stylistic set.
#[allow(non_snake_case)]
#[derive(Debug, Clone, PartialEq, Eq)]
pub struct SetGlyph {
    /// Code point of the set's glyph.
    pub codepoint: String,
    /// Canonical name of the set's glyph.
    pub name: String,
    /// Name of the recommended glyph this one stands in for.
    pub alternateFor: String,
}

/// A stylistic set defined by the font; named `sets` in the document.
#[allow(non_snake_case)]
#[derive(Debug, Clone, PartialEq, Eq)]
pub struct StylisticSet {
    /// Purpose of the set, one of the source format's set kinds (small
    /// optical variants, short or straight flags, large time-signature
    /// digits, large noteheads).
    pub set_type: String,
    /// Designer's description of the set.
    pub description: String,
    /// The set's glyphs.
    pub glyphs: Vec<SetGlyph>,
}

/// An optional glyph private to the font, outside the recommended ranges.
#[allow(non_snake_case)]
#[derive(Debug, Clone, PartialEq, Eq)]
pub struct OptionalGlyph {
    /// Classes the glyph belongs to, when the font assigns any.
    pub classes: Option<Vec<String>>,
    /// Code point of the glyph.
    pub codepoint: String,
}

} // verus!
