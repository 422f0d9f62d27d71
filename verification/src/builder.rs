//! Glyph blob builder.
//!
//! Accumulates `(glyph, path string)` entries and yields the final blob: the
//! pushed strings concatenated in push order, nothing between them. The
//! builder never re-sorts by code; a caller wanting canonical output pushes
//! in registry order, which is a convention of the format, not an enforced
//! invariant.

use crate::registry::{spec_code_of, Glyph};
use vstd::prelude::*;

verus! {

/// Accumulator for the glyph-path section of a font artifact.
///
/// Its abstraction is the sequence of codes pushed so far together with the
/// text accumulated so far; [`GlyphsBuilder::into_string`] hands the text
/// out and consumes the builder.
pub struct GlyphsBuilder {
    paths: String,
    codes: Ghost<Seq<u16>>,
}

impl View for GlyphsBuilder {
    type V = (Seq<u16>, Seq<char>);

    closed spec fn view(&self) -> (Seq<u16>, Seq<char>) {
        (self.codes@, self.paths@)
    }
}

impl GlyphsBuilder {
    /// An empty builder: no codes, no text.
    pub fn new() -> (builder: GlyphsBuilder)
        ensures
            builder@.0 == Seq::<u16>::empty(),
            builder@.1 == Seq::<char>::empty(),
    {
        GlyphsBuilder { paths: String::new(), codes: Ghost(Seq::empty()) }
    }

    /// Append one glyph's encoded path: the glyph's code is recorded and the
    /// text goes verbatim at the end of the blob.
    pub fn push(&mut self, glyph: Glyph, path: String)
        ensures
            final(self)@.0 == old(self)@.0.push(spec_code_of(glyph)),
            final(self)@.1 == old(self)@.1 + path@,
    {
        self.paths.append(path.as_str());
        proof {
            self.codes@ = self.codes@.push(spec_code_of(glyph));
        }
    }

    /// The finished blob; the builder is consumed and cannot be reused.
    pub fn into_string(self) -> (blob: String)
        ensures
            blob@ == self@.1,
    {
        self.paths
    }

    /// The finished blob as its UTF-8 bytes; the builder is consumed and
    /// cannot be reused.
    pub fn into_bytes(self) -> (blob: Vec<u8>)
        ensures
            blob@ == vstd::utf8::encode_utf8(self@.1),
    {
        vstd::slice::slice_to_vec(self.paths.as_str().as_bytes())
    }
}

} // verus!
