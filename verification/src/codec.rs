//! Binary codec for the font container.
//!
//! The on-wire layout, all multi-byte integers little-endian:
//!
//! | field               | width        |
//! |---------------------|--------------|
//! | format version      | 2 bytes      |
//! | font-name length N  | 1 byte       |
//! | font-name           | N bytes UTF-8|
//! | measurement fields  | 4 bytes each |
//! | glyph-path blob     | to end       |
//!
//! The blob carries no length prefix: a reader consumes every byte after the
//! header. [`spec_serialize`] and [`spec_parse`] state the layout at the
//! specification level; [`SfFontMetadata::write`] and
//! [`SfFontMetadata::from_buf_reader`] are the executable codec, and
//! [`lemma_round_trip`] and [`lemma_truncation_eof`] relate the two
//! directions.

use vstd::bytes::*;
use vstd::prelude::*;
use vstd::slice::*;
use vstd::utf8::*;

verus! {

/// Failure modes when producing the binary artifact.
#[derive(Debug, PartialEq, Eq, Structural)]
pub enum WriteError {
    /// The underlying byte sink refused a write; raised by callers that hand
    /// the produced bytes to an I/O layer, never by the codec itself.
    Prevented,
    /// The font name does not fit the one-byte length prefix (more than 255
    /// bytes of UTF-8).
    FontNameTooLong,
}

/// Failure modes when reading the binary artifact back.
#[derive(Debug, PartialEq, Eq, Structural)]
pub enum ReadError {
    /// The glyph-path blob is not valid text.
    Prevented,
    /// The font-name bytes are not valid UTF-8.
    InvalidText,
    /// A fixed-width field was truncated.
    UnexpectedEof,
}

/// Metadata header of a font artifact: a format version, a display name, and
/// the engraving measurements in thousandths of one stave space.
#[derive(Debug, Clone, PartialEq, Eq)]
pub struct SfFontMetadata {
    /// Must be 0 in this revision of the format.
    pub sffonts_version: u16,
    /// Name of this font.
    pub font_name: String,
    /// Thickness of one stave line.
    pub stave_line_thickness: u32,
    /// Thickness of a note stem.
    pub stem_thickness: u32,
    /// Thickness of a ledger line.
    pub ledger_line_thickness: u32,
    /// How far a ledger line extends past a notehead.
    pub ledger_line_extension: u32,
    /// Thickness at the endpoint of a slur or tie.
    pub slur_endpoint_thickness: u32,
    /// Thickness at the midpoint of a slur or tie.
    pub slur_midpoint_thickness: u32,
    /// Thickness of a thin barline.
    pub barline_thickness: u32,
    /// Thickness of a thick barline.
    pub thick_barline_thickness: u32,
    /// Space between two barlines.
    pub barlines_space: u32,
    /// Space between a barline and repeat dots.
    pub barline_repeatdot_space: u32,
    /// Thickness of an instrument-group bracket.
    pub bracket_thickness: u32,
    /// Thickness of an instrument-subgroup bracket.
    pub subbracket_thickness: u32,
    /// Thickness of hairpins and similar lines.
    pub hairpin_thickness: u32,
    /// Thickness of a rehearsal-mark box.
    pub rehearsal_box_thickness: u32,
}

/// Mathematical model of a metadata record: the font name as a character
/// sequence, every other field as the machine integer it is stored as.
pub struct SfFontMetadataView {
    /// Format version.
    pub sffonts_version: u16,
    /// Name of this font.
    pub font_name: Seq<char>,
    /// Thickness of one stave line.
    pub stave_line_thickness: u32,
    /// Thickness of a note stem.
    pub stem_thickness: u32,
    /// Thickness of a ledger line.
    pub ledger_line_thickness: u32,
    /// How far a ledger line extends past a notehead.
    pub ledger_line_extension: u32,
    /// Thickness at the endpoint of a slur or tie.
    pub slur_endpoint_thickness: u32,
    /// Thickness at the midpoint of a slur or tie.
    pub slur_midpoint_thickness: u32,
    /// Thickness of a thin barline.
    pub barline_thickness: u32,
    /// Thickness of a thick barline.
    pub thick_barline_thickness: u32,
    /// Space between two barlines.
    pub barlines_space: u32,
    /// Space between a barline and repeat dots.
    pub barline_repeatdot_space: u32,
    /// Thickness of an instrument-group bracket.
    pub bracket_thickness: u32,
    /// Thickness of an instrument-subgroup bracket.
    pub subbracket_thickness: u32,
    /// Thickness of hairpins and similar lines.
    pub hairpin_thickness: u32,
    /// Thickness of a rehearsal-mark box.
    pub rehearsal_box_thickness: u32,
}

impl View for SfFontMetadata {
    type V = SfFontMetadataView;

    open spec fn view(&self) -> SfFontMetadataView {
        SfFontMetadataView {
            sffonts_version: self.sffonts_version,
            font_name: self.font_name@,
            stave_line_thickness: self.stave_line_thickness,
            stem_thickness: self.stem_thickness,
            ledger_line_thickness: self.ledger_line_thickness,
            ledger_line_extension: self.ledger_line_extension,
            slur_endpoint_thickness: self.slur_endpoint_thickness,
            slur_midpoint_thickness: self.slur_midpoint_thickness,
            barline_thickness: self.barline_thickness,
            thick_barline_thickness: self.thick_barline_thickness,
            barlines_space: self.barlines_space,
            barline_repeatdot_space: self.barline_repeatdot_space,
            bracket_thickness: self.bracket_thickness,
            subbracket_thickness: self.subbracket_thickness,
            hairpin_thickness: self.hairpin_thickness,
            rehearsal_box_thickness: self.rehearsal_box_thickness,
        }
    }
}

/// The fourteen measurement fields in wire order, 4 bytes each,
/// little-endian.
pub open spec fn spec_measurements(m: SfFontMetadataView) -> Seq<u8> {
    spec_u32_to_le_bytes(m.stave_line_thickness) + spec_u32_to_le_bytes(m.stem_thickness)
        + spec_u32_to_le_bytes(m.ledger_line_thickness) + spec_u32_to_le_bytes(
        m.ledger_line_extension,
    ) + spec_u32_to_le_bytes(m.slur_endpoint_thickness) + spec_u32_to_le_bytes(
        m.slur_midpoint_thickness,
    ) + spec_u32_to_le_bytes(m.barline_thickness) + spec_u32_to_le_bytes(
        m.thick_barline_thickness,
    ) + spec_u32_to_le_bytes(m.barlines_space) + spec_u32_to_le_bytes(m.barline_repeatdot_space)
        + spec_u32_to_le_bytes(m.bracket_thickness) + spec_u32_to_le_bytes(m.subbracket_thickness)
        + spec_u32_to_le_bytes(m.hairpin_thickness) + spec_u32_to_le_bytes(
        m.rehearsal_box_thickness,
    )
}

/// The complete artifact produced for a metadata record and a glyph-path
/// blob: header fields in order, then the blob's UTF-8 bytes verbatim.
pub open spec fn spec_serialize(m: SfFontMetadataView, glyph_paths: Seq<char>) -> Seq<u8> {
    spec_u16_to_le_bytes(m.sffonts_version) + seq![encode_utf8(m.font_name).len() as u8]
        + encode_utf8(m.font_name) + spec_measurements(m) + encode_utf8(glyph_paths)
}

/// The metadata record recovered from an artifact whose header is complete:
/// the version from the first two bytes, the name decoded from its
/// length-prefixed region, and the measurements in wire order.
pub open spec fn spec_parsed_meta(bytes: Seq<u8>) -> SfFontMetadataView
    recommends
        bytes.len() >= 59 + bytes[2],
{
    let off = 3 + bytes[2] as int;
    SfFontMetadataView {
        sffonts_version: spec_u16_from_le_bytes(bytes.subrange(0, 2)),
        font_name: decode_utf8(bytes.subrange(3, off)),
        stave_line_thickness: spec_u32_from_le_bytes(bytes.subrange(off, off + 4)),
        stem_thickness: spec_u32_from_le_bytes(bytes.subrange(off + 4, off + 8)),
        ledger_line_thickness: spec_u32_from_le_bytes(bytes.subrange(off + 8, off + 12)),
        ledger_line_extension: spec_u32_from_le_bytes(bytes.subrange(off + 12, off + 16)),
        slur_endpoint_thickness: spec_u32_from_le_bytes(bytes.subrange(off + 16, off + 20)),
        slur_midpoint_thickness: spec_u32_from_le_bytes(bytes.subrange(off + 20, off + 24)),
        barline_thickness: spec_u32_from_le_bytes(bytes.subrange(off + 24, off + 28)),
        thick_barline_thickness: spec_u32_from_le_bytes(bytes.subrange(off + 28, off + 32)),
        barlines_space: spec_u32_from_le_bytes(bytes.subrange(off + 32, off + 36)),
        barline_repeatdot_space: spec_u32_from_le_bytes(bytes.subrange(off + 36, off + 40)),
        bracket_thickness: spec_u32_from_le_bytes(bytes.subrange(off + 40, off + 44)),
        subbracket_thickness: spec_u32_from_le_bytes(bytes.subrange(off + 44, off + 48)),
        hairpin_thickness: spec_u32_from_le_bytes(bytes.subrange(off + 48, off + 52)),
        rehearsal_box_thickness: spec_u32_from_le_bytes(bytes.subrange(off + 52, off + 56)),
    }
}

/// Reading an artifact, field by field in wire order.
///
/// Fails with `UnexpectedEof` when a fixed-width field is truncated, with
/// `InvalidText` when the font-name bytes are not UTF-8, and with `Prevented`
/// when the trailing blob bytes are not UTF-8; the checks happen in exactly
/// that order, mirroring the read. Any version and any measurement bit
/// pattern is accepted.
pub open spec fn spec_parse(bytes: Seq<u8>) -> Result<(SfFontMetadataView, Seq<char>), ReadError> {
    if bytes.len() < 3 {
        Err(ReadError::UnexpectedEof)
    } else {
        let name_len = bytes[2] as int;
        if bytes.len() < 3 + name_len {
            Err(ReadError::UnexpectedEof)
        } else if !valid_utf8(bytes.subrange(3, 3 + name_len)) {
            Err(ReadError::InvalidText)
        } else if bytes.len() < 59 + name_len {
            Err(ReadError::UnexpectedEof)
        } else if !valid_utf8(bytes.subrange(59 + name_len, bytes.len() as int)) {
            Err(ReadError::Prevented)
        } else {
            Ok(
                (
                    spec_parsed_meta(bytes),
                    decode_utf8(bytes.subrange(59 + name_len, bytes.len() as int)),
                ),
            )
        }
    }
}

/// How a serialized artifact decomposes into its regions: used to relate the
/// write and read directions.
proof fn lemma_serialize_regions(m: SfFontMetadataView, blob: Seq<char>)
    requires
        encode_utf8(m.font_name).len() <= 255,
    ensures
        ({
            let name = encode_utf8(m.font_name);
            let nb = name.len() as int;
            let s = spec_serialize(m, blob);
            &&& s.len() == 59 + nb + encode_utf8(blob).len()
            &&& s.subrange(0, 2) =~= spec_u16_to_le_bytes(m.sffonts_version)
            &&& s[2] == nb as u8
            &&& s.subrange(3, 3 + nb) =~= name
            &&& s.subrange(3 + nb, 59 + nb) =~= spec_measurements(m)
            &&& s.subrange(59 + nb, s.len() as int) =~= encode_utf8(blob)
        }),
{
    lemma_auto_spec_u16_to_from_le_bytes();
    lemma_auto_spec_u32_to_from_le_bytes();
    assert(spec_measurements(m).len() == 56);
}

/// Round-trip: an artifact written for any metadata record whose name fits
/// the length prefix, together with any glyph-path blob, reads back as
/// exactly that record and that blob.
pub proof fn lemma_round_trip(m: SfFontMetadataView, blob: Seq<char>)
    requires
        encode_utf8(m.font_name).len() <= 255,
    ensures
        spec_parse(spec_serialize(m, blob)) == Ok::<(SfFontMetadataView, Seq<char>), ReadError>(
            (m, blob),
        ),
{
    lemma_auto_spec_u16_to_from_le_bytes();
    lemma_auto_spec_u32_to_from_le_bytes();
    lemma_serialize_regions(m, blob);
    let name = encode_utf8(m.font_name);
    let nb = name.len() as int;
    let s = spec_serialize(m, blob);
    assert(s[2] as int == nb);
    encode_utf8_valid_utf8(m.font_name);
    encode_utf8_decode_utf8(m.font_name);
    assert(valid_utf8(s.subrange(3, 3 + nb)));
    assert(decode_utf8(s.subrange(3, 3 + nb)) == m.font_name);
    encode_utf8_valid_utf8(blob);
    encode_utf8_decode_utf8(blob);
    assert(valid_utf8(s.subrange(59 + nb, s.len() as int)));
    assert(decode_utf8(s.subrange(59 + nb, s.len() as int)) == blob);
    let off = 3 + nb;
    assert(s.subrange(off, off + 4) =~= spec_u32_to_le_bytes(m.stave_line_thickness));
    assert(s.subrange(off + 4, off + 8) =~= spec_u32_to_le_bytes(m.stem_thickness));
    assert(s.subrange(off + 8, off + 12) =~= spec_u32_to_le_bytes(m.ledger_line_thickness));
    assert(s.subrange(off + 12, off + 16) =~= spec_u32_to_le_bytes(m.ledger_line_extension));
    assert(s.subrange(off + 16, off + 20) =~= spec_u32_to_le_bytes(m.slur_endpoint_thickness));
    assert(s.subrange(off + 20, off + 24) =~= spec_u32_to_le_bytes(m.slur_midpoint_thickness));
    assert(s.subrange(off + 24, off + 28) =~= spec_u32_to_le_bytes(m.barline_thickness));
    assert(s.subrange(off + 28, off + 32) =~= spec_u32_to_le_bytes(m.thick_barline_thickness));
    assert(s.subrange(off + 32, off + 36) =~= spec_u32_to_le_bytes(m.barlines_space));
    assert(s.subrange(off + 36, off + 40) =~= spec_u32_to_le_bytes(m.barline_repeatdot_space));
    assert(s.subrange(off + 40, off + 44) =~= spec_u32_to_le_bytes(m.bracket_thickness));
    assert(s.subrange(off + 44, off + 48) =~= spec_u32_to_le_bytes(m.subbracket_thickness));
    assert(s.subrange(off + 48, off + 52) =~= spec_u32_to_le_bytes(m.hairpin_thickness));
    assert(s.subrange(off + 52, off + 56) =~= spec_u32_to_le_bytes(m.rehearsal_box_thickness));
    assert(spec_u16_from_le_bytes(s.subrange(0, 2)) == m.sffonts_version);
    assert(spec_parsed_meta(s) == m);
}

/// Truncation: cutting a valid artifact anywhere before the blob begins
/// makes the read fail with `UnexpectedEof`; it never silently succeeds.
pub proof fn lemma_truncation_eof(m: SfFontMetadataView, blob: Seq<char>, k: int)
    requires
        encode_utf8(m.font_name).len() <= 255,
        0 <= k < 59 + encode_utf8(m.font_name).len(),
    ensures
        spec_parse(spec_serialize(m, blob).subrange(0, k)) == Err::<
            (SfFontMetadataView, Seq<char>),
            ReadError,
        >(ReadError::UnexpectedEof),
{
    lemma_serialize_regions(m, blob);
    let name = encode_utf8(m.font_name);
    let nb = name.len() as int;
    let s = spec_serialize(m, blob);
    let t = s.subrange(0, k);
    if k < 3 {
        assert(t.len() < 3);
    } else {
        assert(t[2] == s[2]);
        assert(t[2] as int == nb);
        if k < 3 + nb {
            assert(t.len() < 3 + nb);
        } else {
            assert(t.subrange(3, 3 + nb) =~= name);
            encode_utf8_valid_utf8(m.font_name);
            assert(valid_utf8(t.subrange(3, 3 + nb)));
            assert(t.len() < 59 + nb);
        }
    }
}

/// Relies on std's `String::from_utf8`: it returns `Ok` exactly when the
/// bytes are valid UTF-8, and then the string whose encoding they are.
#[verifier::external_body]
fn string_from_utf8(v: Vec<u8>) -> (r: Option<String>)
    ensures
        r is Some <==> valid_utf8(v@),
        r matches Some(s) ==> s@ == decode_utf8(v@),
{
    String::from_utf8(v).ok()
}

impl SfFontMetadata {
    /// Serialize this metadata record followed by the glyph-path blob.
    ///
    /// Succeeds exactly when the font name fits the one-byte length prefix,
    /// and then returns the full artifact; a longer name fails with
    /// [`WriteError::FontNameTooLong`] and nothing is produced.
    pub fn write(&self, glyph_paths: &str) -> (r: Result<Vec<u8>, WriteError>)
        ensures
            encode_utf8(self@.font_name).len() <= 255 ==> (r matches Ok(bytes) && bytes@
                == spec_serialize(self@, glyph_paths@)),
            encode_utf8(self@.font_name).len() > 255 ==> r == Err::<Vec<u8>, WriteError>(
                WriteError::FontNameTooLong,
            ),
    {
        let name_bytes = self.font_name.as_str().as_bytes();
        if name_bytes.len() > 255 {
            return Err(WriteError::FontNameTooLong);
        }
        let mut out = u16_to_le_bytes(self.sffonts_version);
        out.push(name_bytes.len() as u8);
        let mut part = slice_to_vec(name_bytes);
        out.append(&mut part);
        let mut part = u32_to_le_bytes(self.stave_line_thickness);
        out.append(&mut part);
        let mut part = u32_to_le_bytes(self.stem_thickness);
        out.append(&mut part);
        let mut part = u32_to_le_bytes(self.ledger_line_thickness);
        out.append(&mut part);
        let mut part = u32_to_le_bytes(self.ledger_line_extension);
        out.append(&mut part);
        let mut part = u32_to_le_bytes(self.slur_endpoint_thickness);
        out.append(&mut part);
        let mut part = u32_to_le_bytes(self.slur_midpoint_thickness);
        out.append(&mut part);
        let mut part = u32_to_le_bytes(self.barline_thickness);
        out.append(&mut part);
        let mut part = u32_to_le_bytes(self.thick_barline_thickness);
        out.append(&mut part);
        let mut part = u32_to_le_bytes(self.barlines_space);
        out.append(&mut part);
        let mut part = u32_to_le_bytes(self.barline_repeatdot_space);
        out.append(&mut part);
        let mut part = u32_to_le_bytes(self.bracket_thickness);
        out.append(&mut part);
        let mut part = u32_to_le_bytes(self.subbracket_thickness);
        out.append(&mut part);
        let mut part = u32_to_le_bytes(self.hairpin_thickness);
        out.append(&mut part);
        let mut part = u32_to_le_bytes(self.rehearsal_box_thickness);
        out.append(&mut part);
        let mut part = slice_to_vec(glyph_paths.as_bytes());
        out.append(&mut part);
        proof {
            assert(out@ =~= spec_serialize(self@, glyph_paths@));
        }
        Ok(out)
    }

    /// Read an artifact back into a metadata record and the glyph-path blob.
    ///
    /// The outcome is exactly [`spec_parse`] of the input: every field in
    /// wire order, the blob returned verbatim as text, and the error that
    /// [`spec_parse`] assigns to a short or ill-formed input.
    pub fn from_buf_reader(bytes: &[u8]) -> (r: Result<(SfFontMetadata, String), ReadError>)
        ensures
            spec_parse(bytes@) matches Ok(p) ==> (r matches Ok(q) && q.0@ == p.0 && q.1@ == p.1),
            spec_parse(bytes@) matches Err(e) ==> (r matches Err(e2) && e == e2),
    {
        let n = bytes.len();
        if n < 3 {
            return Err(ReadError::UnexpectedEof);
        }
        let sffonts_version = u16_from_le_bytes(slice_subrange(bytes, 0, 2));
        let name_len = *slice_index_get(bytes, 2) as usize;
        if n - 3 < name_len {
            return Err(ReadError::UnexpectedEof);
        }
        let name_vec = slice_to_vec(slice_subrange(bytes, 3, 3 + name_len));
        let font_name = match string_from_utf8(name_vec) {
            Some(s) => s,
            None => {
                return Err(ReadError::InvalidText);
            },
        };
        if n - 3 - name_len < 56 {
            return Err(ReadError::UnexpectedEof);
        }
        let off = 3 + name_len;
        let stave_line_thickness = u32_from_le_bytes(slice_subrange(bytes, off, off + 4));
        let stem_thickness = u32_from_le_bytes(slice_subrange(bytes, off + 4, off + 8));
        let ledger_line_thickness = u32_from_le_bytes(slice_subrange(bytes, off + 8, off + 12));
        let ledger_line_extension = u32_from_le_bytes(slice_subrange(bytes, off + 12, off + 16));
        let slur_endpoint_thickness = u32_from_le_bytes(slice_subrange(bytes, off + 16, off + 20));
        let slur_midpoint_thickness = u32_from_le_bytes(slice_subrange(bytes, off + 20, off + 24));
        let barline_thickness = u32_from_le_bytes(slice_subrange(bytes, off + 24, off + 28));
        let thick_barline_thickness = u32_from_le_bytes(slice_subrange(bytes, off + 28, off + 32));
        let barlines_space = u32_from_le_bytes(slice_subrange(bytes, off + 32, off + 36));
        let barline_repeatdot_space = u32_from_le_bytes(slice_subrange(bytes, off + 36, off + 40));
        let bracket_thickness = u32_from_le_bytes(slice_subrange(bytes, off + 40, off + 44));
        let subbracket_thickness = u32_from_le_bytes(slice_subrange(bytes, off + 44, off + 48));
        let hairpin_thickness = u32_from_le_bytes(slice_subrange(bytes, off + 48, off + 52));
        let rehearsal_box_thickness = u32_from_le_bytes(slice_subrange(bytes, off + 52, off + 56));
        let blob_vec = slice_to_vec(slice_subrange(bytes, off + 56, n));
        let glyph_paths = match string_from_utf8(blob_vec) {
            Some(s) => s,
            None => {
                return Err(ReadError::Prevented);
            },
        };
        let meta = SfFontMetadata {
            sffonts_version,
            font_name,
            stave_line_thickness,
            stem_thickness,
            ledger_line_thickness,
            ledger_line_extension,
            slur_endpoint_thickness,
            slur_midpoint_thickness,
            barline_thickness,
            thick_barline_thickness,
            barlines_space,
            barline_repeatdot_space,
            bracket_thickness,
            subbracket_thickness,
            hairpin_thickness,
            rehearsal_box_thickness,
        };
        proof {
            assert(meta@ == spec_parse(bytes@)->Ok_0.0);
            assert(glyph_paths@ == spec_parse(bytes@)->Ok_0.1);
        }
        Ok((meta, glyph_paths))
    }
}

} // verus!
