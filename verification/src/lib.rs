//! ScoreFall Font Format: a compact binary container for music-notation
//! glyph fonts.
//!
//! The crate covers four pieces:
//!
//! - a glyph registry ([`Glyph`]) assigning each notation symbol a stable
//!   numeric code,
//! - a vector-path re-encoder ([`PathCommand`], [`encode_path`]) that turns
//!   drawing commands into a minimal textual path with a y-axis flip,
//! - a blob builder ([`GlyphsBuilder`]) that concatenates the per-glyph path
//!   strings in push order, and
//! - a binary codec ([`SfFontMetadata`]) that serializes the metadata header
//!   followed by the glyph-path blob, and reads the same layout back.
//!
//! The records in [`smufl`] mirror the text-level parts of the source
//! metadata document that a converter reads its input from.

pub mod builder;
pub mod codec;
pub mod path;
pub mod registry;
pub mod smufl;

pub use builder::GlyphsBuilder;
pub use codec::{ReadError, SfFontMetadata, WriteError};
pub use path::{encode_command, encode_path, flip_command, PathCommand};
pub use registry::Glyph;
pub use smufl::{Alternate, Alternates, Ligature, OptionalGlyph, SetGlyph, StylisticSet};
