//! Glyph registry.
//!
//! A total, bidirectional mapping between notation symbols and their stable
//! numeric codes. The most frequently referenced symbols (primary noteheads,
//! common accidentals, common flags and rests) hold the lowest values, to
//! favour lookup locality in the consuming renderer; once published, a
//! code's meaning is never reassigned, since binary artifacts reference
//! codes positionally.
//!
//! [`Glyph::code_of`] maps a symbol to its code, [`Glyph::from_code`] maps a
//! code back; [`lemma_for_code_inverse`] and [`lemma_codes_unique`] show the
//! mapping is one-to-one onto the dense range below [`Glyph::Len`]'s code.

use vstd::prelude::*;

verus! {

/// One notation symbol of the closed glyph set.
#[derive(Debug, Clone, Copy, PartialEq, Eq, Structural)]
pub enum Glyph {
    /* Noteheads */
    NoteheadFill,
    NoteheadHalf,
    NoteheadWhole,
    NoteheadDouble,
    NoteheadFillX,
    NoteheadHalfX,
    NoteheadWholeX,
    NoteheadDoubleX,
    NoteheadFillTriangle,
    NoteheadHalfTriangle,
    NoteheadWholeTriangle,
    NoteheadDoubleTriangle,
    NoteheadFillDiamond,
    NoteheadHalfDiamond,
    NoteheadWholeDiamond,
    NoteheadDoubleDiamond,
    NoteheadFillSquare,
    NoteheadHalfSquare,
    NoteheadWholeSquare,
    NoteheadDoubleSquare,
    NoteheadFillSlash,
    NoteheadHalfSlash,
    NoteheadWholeSlash,
    NoteheadDoubleSlash,
    /* Accidentals */
    Flat,
    Sharp,
    Natural,
    DoubleFlat,
    DoubleSharp,
    QuarterFlat,
    QuarterSharp,
    ThreeQuarterFlat,
    ThreeQuarterSharp,
    ThirdFlat,
    ThirdSharp,
    TwoThirdFlat,
    TwoThirdSharp,
    /* Flags */
    FlagUp8,
    FlagDown8,
    FlagUp16,
    FlagDown16,
    FlagUp32,
    FlagDown32,
    FlagUp64,
    FlagDown64,
    /* Rests */
    Rest1,
    Rest2,
    Rest4,
    Rest8,
    Rest16,
    Rest32,
    Rest64,
    /* Clefs */
    /// Alto clef (soprano, mezzo-soprano, alto, tenor, baritone).
    ClefC,
    /// Treble clef (French violin, treble).
    ClefG,
    /// Bass clef (baritone, bass, sub-bass).
    ClefF,
    /// Percussion (neutral) clef.
    ClefN,
    ClefChangeC,
    ClefChangeG,
    ClefChangeF,
    ClefC8va,
    ClefG8va,
    ClefF8va,
    ClefC8vb,
    ClefG8vb,
    ClefF8vb,
    ClefC16va,
    ClefG16va,
    ClefF16va,
    ClefC16vb,
    ClefG16vb,
    ClefF16vb,
    /* Tab "clefs" */
    Tab4,
    Tab6,
    /* Dynamics */
    P,
    MP,
    MF,
    F,
    /// Sforzando letter; may be displayed as "r" in some fonts.
    S,
    Z,
    N,
    /* Time signatures */
    TimeSig0,
    TimeSig1,
    TimeSig2,
    TimeSig3,
    TimeSig4,
    TimeSig5,
    TimeSig6,
    TimeSig7,
    TimeSig8,
    TimeSig9,
    TimeSigCommon,
    TimeSigCut,
    TimeSigPlus,
    /* Repeats */
    RepeatSlash,
    RepeatDots,
    /* Tuplets */
    TupletColon,
    Tuplet0,
    Tuplet1,
    Tuplet2,
    Tuplet3,
    Tuplet4,
    Tuplet5,
    Tuplet6,
    Tuplet7,
    Tuplet8,
    Tuplet9,
    /* Jumps */
    Coda,
    Segno,
    /* Stem modifiers */
    BuzzRoll,
    Damp,
    HarpStringNoise,
    RimShot,
    BowBridge,
    BowTailpiece,
    Tremelo1,
    Tremelo2,
    Tremelo3,
    Tremelo4,
    Tremelo5,
    /// Number of codes the registry assigns; not itself a symbol.
    Len,
}

/// The numeric code assigned to each symbol.
pub open spec fn spec_code_of(glyph: Glyph) -> u16 {
    match glyph {
        Glyph::NoteheadFill => 0x01,
        Glyph::NoteheadHalf => 0x02,
        Glyph::NoteheadWhole => 0x03,
        Glyph::NoteheadDouble => 0x10,
        Glyph::NoteheadFillX => 0x00,
        Glyph::NoteheadHalfX => 0x11,
        Glyph::NoteheadWholeX => 0x12,
        Glyph::NoteheadDoubleX => 0x13,
        Glyph::NoteheadFillTriangle => 0x14,
        Glyph::NoteheadHalfTriangle => 0x15,
        Glyph::NoteheadWholeTriangle => 0x16,
        Glyph::NoteheadDoubleTriangle => 0x17,
        Glyph::NoteheadFillDiamond => 0x18,
        Glyph::NoteheadHalfDiamond => 0x19,
        Glyph::NoteheadWholeDiamond => 0x1A,
        Glyph::NoteheadDoubleDiamond => 0x1B,
        Glyph::NoteheadFillSquare => 0x1C,
        Glyph::NoteheadHalfSquare => 0x1D,
        Glyph::NoteheadWholeSquare => 0x1E,
        Glyph::NoteheadDoubleSquare => 0x1F,
        Glyph::NoteheadFillSlash => 0x20,
        Glyph::NoteheadHalfSlash => 0x21,
        Glyph::NoteheadWholeSlash => 0x22,
        Glyph::NoteheadDoubleSlash => 0x23,
        Glyph::Flat => 0x04,
        Glyph::Sharp => 0x05,
        Glyph::Natural => 0x06,
        Glyph::DoubleFlat => 0x24,
        Glyph::DoubleSharp => 0x25,
        Glyph::QuarterFlat => 0x26,
        Glyph::QuarterSharp => 0x27,
        Glyph::ThreeQuarterFlat => 0x28,
        Glyph::ThreeQuarterSharp => 0x29,
        Glyph::ThirdFlat => 0x2A,
        Glyph::ThirdSharp => 0x2B,
        Glyph::TwoThirdFlat => 0x2C,
        Glyph::TwoThirdSharp => 0x2D,
        Glyph::FlagUp8 => 0x07,
        Glyph::FlagDown8 => 0x08,
        Glyph::FlagUp16 => 0x09,
        Glyph::FlagDown16 => 0x0A,
        Glyph::FlagUp32 => 0x30,
        Glyph::FlagDown32 => 0x31,
        Glyph::FlagUp64 => 0x32,
        Glyph::FlagDown64 => 0x33,
        Glyph::Rest1 => 0x0B,
        Glyph::Rest2 => 0x0C,
        Glyph::Rest4 => 0x0D,
        Glyph::Rest8 => 0x0E,
        Glyph::Rest16 => 0x0F,
        Glyph::Rest32 => 0x2E,
        Glyph::Rest64 => 0x2F,
        Glyph::ClefC => 0x34,
        Glyph::ClefG => 0x35,
        Glyph::ClefF => 0x36,
        Glyph::ClefN => 0x37,
        Glyph::ClefChangeC => 0x38,
        Glyph::ClefChangeG => 0x39,
        Glyph::ClefChangeF => 0x3A,
        Glyph::ClefC8va => 0x3B,
        Glyph::ClefG8va => 0x3C,
        Glyph::ClefF8va => 0x3D,
        Glyph::ClefC8vb => 0x3E,
        Glyph::ClefG8vb => 0x3F,
        Glyph::ClefF8vb => 0x40,
        Glyph::ClefC16va => 0x41,
        Glyph::ClefG16va => 0x42,
        Glyph::ClefF16va => 0x43,
        Glyph::ClefC16vb => 0x44,
        Glyph::ClefG16vb => 0x45,
        Glyph::ClefF16vb => 0x46,
        Glyph::Tab4 => 0x47,
        Glyph::Tab6 => 0x48,
        Glyph::P => 0x49,
        Glyph::MP => 0x4A,
        Glyph::MF => 0x4B,
        Glyph::F => 0x4C,
        Glyph::S => 0x4D,
        Glyph::Z => 0x4E,
        Glyph::N => 0x4F,
        Glyph::TimeSig0 => 0x50,
        Glyph::TimeSig1 => 0x51,
        Glyph::TimeSig2 => 0x52,
        Glyph::TimeSig3 => 0x53,
        Glyph::TimeSig4 => 0x54,
        Glyph::TimeSig5 => 0x55,
        Glyph::TimeSig6 => 0x56,
        Glyph::TimeSig7 => 0x57,
        Glyph::TimeSig8 => 0x58,
        Glyph::TimeSig9 => 0x59,
        Glyph::TimeSigCommon => 0x5A,
        Glyph::TimeSigCut => 0x5B,
        Glyph::TimeSigPlus => 0x5C,
        Glyph::RepeatSlash => 0x5D,
        Glyph::RepeatDots => 0x5E,
        Glyph::TupletColon => 0x5F,
        Glyph::Tuplet0 => 0x60,
        Glyph::Tuplet1 => 0x61,
        Glyph::Tuplet2 => 0x62,
        Glyph::Tuplet3 => 0x63,
        Glyph::Tuplet4 => 0x64,
        Glyph::Tuplet5 => 0x65,
        Glyph::Tuplet6 => 0x66,
        Glyph::Tuplet7 => 0x67,
        Glyph::Tuplet8 => 0x68,
        Glyph::Tuplet9 => 0x69,
        Glyph::Coda => 0x70,
        Glyph::Segno => 0x76,
        Glyph::BuzzRoll => 0x6A,
        Glyph::Damp => 0x6B,
        Glyph::HarpStringNoise => 0x6C,
        Glyph::RimShot => 0x6D,
        Glyph::BowBridge => 0x6E,
        Glyph::BowTailpiece => 0x6F,
        Glyph::Tremelo1 => 0x71,
        Glyph::Tremelo2 => 0x72,
        Glyph::Tremelo3 => 0x73,
        Glyph::Tremelo4 => 0x74,
        Glyph::Tremelo5 => 0x75,
        Glyph::Len => 0x77,
    }
}

/// The symbol assigned to each code in the registry's range; codes outside
/// it fall back to the final marker.
pub open spec fn spec_glyph_for_code(code: u16) -> Glyph {
    if code == 0x00 {
        Glyph::NoteheadFillX
    } else if code == 0x01 {
        Glyph::NoteheadFill
    } else if code == 0x02 {
        Glyph::NoteheadHalf
    } else if code == 0x03 {
        Glyph::NoteheadWhole
    } else if code == 0x04 {
        Glyph::Flat
    } else if code == 0x05 {
        Glyph::Sharp
    } else if code == 0x06 {
        Glyph::Natural
    } else if code == 0x07 {
        Glyph::FlagUp8
    } else if code == 0x08 {
        Glyph::FlagDown8
    } else if code == 0x09 {
        Glyph::FlagUp16
    } else if code == 0x0A {
        Glyph::FlagDown16
    } else if code == 0x0B {
        Glyph::Rest1
    } else if code == 0x0C {
        Glyph::Rest2
    } else if code == 0x0D {
        Glyph::Rest4
    } else if code == 0x0E {
        Glyph::Rest8
    } else if code == 0x0F {
        Glyph::Rest16
    } else if code == 0x10 {
        Glyph::NoteheadDouble
    } else if code == 0x11 {
        Glyph::NoteheadHalfX
    } else if code == 0x12 {
        Glyph::NoteheadWholeX
    } else if code == 0x13 {
        Glyph::NoteheadDoubleX
    } else if code == 0x14 {
        Glyph::NoteheadFillTriangle
    } else if code == 0x15 {
        Glyph::NoteheadHalfTriangle
    } else if code == 0x16 {
        Glyph::NoteheadWholeTriangle
    } else if code == 0x17 {
        Glyph::NoteheadDoubleTriangle
    } else if code == 0x18 {
        Glyph::NoteheadFillDiamond
    } else if code == 0x19 {
        Glyph::NoteheadHalfDiamond
    } else if code == 0x1A {
        Glyph::NoteheadWholeDiamond
    } else if code == 0x1B {
        Glyph::NoteheadDoubleDiamond
    } else if code == 0x1C {
        Glyph::NoteheadFillSquare
    } else if code == 0x1D {
        Glyph::NoteheadHalfSquare
    } else if code == 0x1E {
        Glyph::NoteheadWholeSquare
    } else if code == 0x1F {
        Glyph::NoteheadDoubleSquare
    } else if code == 0x20 {
        Glyph::NoteheadFillSlash
    } else if code == 0x21 {
        Glyph::NoteheadHalfSlash
    } else if code == 0x22 {
        Glyph::NoteheadWholeSlash
    } else if code == 0x23 {
        Glyph::NoteheadDoubleSlash
    } else if code == 0x24 {
        Glyph::DoubleFlat
    } else if code == 0x25 {
        Glyph::DoubleSharp
    } else if code == 0x26 {
        Glyph::QuarterFlat
    } else if code == 0x27 {
        Glyph::QuarterSharp
    } else if code == 0x28 {
        Glyph::ThreeQuarterFlat
    } else if code == 0x29 {
        Glyph::ThreeQuarterSharp
    } else if code == 0x2A {
        Glyph::ThirdFlat
    } else if code == 0x2B {
        Glyph::ThirdSharp
    } else if code == 0x2C {
        Glyph::TwoThirdFlat
    } else if code == 0x2D {
        Glyph::TwoThirdSharp
    } else if code == 0x2E {
        Glyph::Rest32
    } else if code == 0x2F {
        Glyph::Rest64
    } else if code == 0x30 {
        Glyph::FlagUp32
    } else if code == 0x31 {
        Glyph::FlagDown32
    } else if code == 0x32 {
        Glyph::FlagUp64
    } else if code == 0x33 {
        Glyph::FlagDown64
    } else if code == 0x34 {
        Glyph::ClefC
    } else if code == 0x35 {
        Glyph::ClefG
    } else if code == 0x36 {
        Glyph::ClefF
    } else if code == 0x37 {
        Glyph::ClefN
    } else if code == 0x38 {
        Glyph::ClefChangeC
    } else if code == 0x39 {
        Glyph::ClefChangeG
    } else if code == 0x3A {
        Glyph::ClefChangeF
    } else if code == 0x3B {
        Glyph::ClefC8va
    } else if code == 0x3C {
        Glyph::ClefG8va
    } else if code == 0x3D {
        Glyph::ClefF8va
    } else if code == 0x3E {
        Glyph::ClefC8vb
    } else if code == 0x3F {
        Glyph::ClefG8vb
    } else if code == 0x40 {
        Glyph::ClefF8vb
    } else if code == 0x41 {
        Glyph::ClefC16va
    } else if code == 0x42 {
        Glyph::ClefG16va
    } else if code == 0x43 {
        Glyph::ClefF16va
    } else if code == 0x44 {
        Glyph::ClefC16vb
    } else if code == 0x45 {
        Glyph::ClefG16vb
    } else if code == 0x46 {
        Glyph::ClefF16vb
    } else if code == 0x47 {
        Glyph::Tab4
    } else if code == 0x48 {
        Glyph::Tab6
    } else if code == 0x49 {
        Glyph::P
    } else if code == 0x4A {
        Glyph::MP
    } else if code == 0x4B {
        Glyph::MF
    } else if code == 0x4C {
        Glyph::F
    } else if code == 0x4D {
        Glyph::S
    } else if code == 0x4E {
        Glyph::Z
    } else if code == 0x4F {
        Glyph::N
    } else if code == 0x50 {
        Glyph::TimeSig0
    } else if code == 0x51 {
        Glyph::TimeSig1
    } else if code == 0x52 {
        Glyph::TimeSig2
    } else if code == 0x53 {
        Glyph::TimeSig3
    } else if code == 0x54 {
        Glyph::TimeSig4
    } else if code == 0x55 {
        Glyph::TimeSig5
    } else if code == 0x56 {
        Glyph::TimeSig6
    } else if code == 0x57 {
        Glyph::TimeSig7
    } else if code == 0x58 {
        Glyph::TimeSig8
    } else if code == 0x59 {
        Glyph::TimeSig9
    } else if code == 0x5A {
        Glyph::TimeSigCommon
    } else if code == 0x5B {
        Glyph::TimeSigCut
    } else if code == 0x5C {
        Glyph::TimeSigPlus
    } else if code == 0x5D {
        Glyph::RepeatSlash
    } else if code == 0x5E {
        Glyph::RepeatDots
    } else if code == 0x5F {
        Glyph::TupletColon
    } else if code == 0x60 {
        Glyph::Tuplet0
    } else if code == 0x61 {
        Glyph::Tuplet1
    } else if code == 0x62 {
        Glyph::Tuplet2
    } else if code == 0x63 {
        Glyph::Tuplet3
    } else if code == 0x64 {
        Glyph::Tuplet4
    } else if code == 0x65 {
        Glyph::Tuplet5
    } else if code == 0x66 {
        Glyph::Tuplet6
    } else if code == 0x67 {
        Glyph::Tuplet7
    } else if code == 0x68 {
        Glyph::Tuplet8
    } else if code == 0x69 {
        Glyph::Tuplet9
    } else if code == 0x6A {
        Glyph::BuzzRoll
    } else if code == 0x6B {
        Glyph::Damp
    } else if code == 0x6C {
        Glyph::HarpStringNoise
    } else if code == 0x6D {
        Glyph::RimShot
    } else if code == 0x6E {
        Glyph::BowBridge
    } else if code == 0x6F {
        Glyph::BowTailpiece
    } else if code == 0x70 {
        Glyph::Coda
    } else if code == 0x71 {
        Glyph::Tremelo1
    } else if code == 0x72 {
        Glyph::Tremelo2
    } else if code == 0x73 {
        Glyph::Tremelo3
    } else if code == 0x74 {
        Glyph::Tremelo4
    } else if code == 0x75 {
        Glyph::Tremelo5
    } else if code == 0x76 {
        Glyph::Segno
    } else {
        Glyph::Len
    }
}

impl Glyph {
    /// The stable numeric code of this symbol.
    pub fn code_of(self) -> (code: u16)
        ensures
            code == spec_code_of(self),
    {
        match self {
            Glyph::NoteheadFill => 0x01,
            Glyph::NoteheadHalf => 0x02,
            Glyph::NoteheadWhole => 0x03,
            Glyph::NoteheadDouble => 0x10,
            Glyph::NoteheadFillX => 0x00,
            Glyph::NoteheadHalfX => 0x11,
            Glyph::NoteheadWholeX => 0x12,
            Glyph::NoteheadDoubleX => 0x13,
            Glyph::NoteheadFillTriangle => 0x14,
            Glyph::NoteheadHalfTriangle => 0x15,
            Glyph::NoteheadWholeTriangle => 0x16,
            Glyph::NoteheadDoubleTriangle => 0x17,
            Glyph::NoteheadFillDiamond => 0x18,
            Glyph::NoteheadHalfDiamond => 0x19,
            Glyph::NoteheadWholeDiamond => 0x1A,
            Glyph::NoteheadDoubleDiamond => 0x1B,
            Glyph::NoteheadFillSquare => 0x1C,
            Glyph::NoteheadHalfSquare => 0x1D,
            Glyph::NoteheadWholeSquare => 0x1E,
            Glyph::NoteheadDoubleSquare => 0x1F,
            Glyph::NoteheadFillSlash => 0x20,
            Glyph::NoteheadHalfSlash => 0x21,
            Glyph::NoteheadWholeSlash => 0x22,
            Glyph::NoteheadDoubleSlash => 0x23,
            Glyph::Flat => 0x04,
            Glyph::Sharp => 0x05,
            Glyph::Natural => 0x06,
            Glyph::DoubleFlat => 0x24,
            Glyph::DoubleSharp => 0x25,
            Glyph::QuarterFlat => 0x26,
            Glyph::QuarterSharp => 0x27,
            Glyph::ThreeQuarterFlat => 0x28,
            Glyph::ThreeQuarterSharp => 0x29,
            Glyph::ThirdFlat => 0x2A,
            Glyph::ThirdSharp => 0x2B,
            Glyph::TwoThirdFlat => 0x2C,
            Glyph::TwoThirdSharp => 0x2D,
            Glyph::FlagUp8 => 0x07,
            Glyph::FlagDown8 => 0x08,
            Glyph::FlagUp16 => 0x09,
            Glyph::FlagDown16 => 0x0A,
            Glyph::FlagUp32 => 0x30,
            Glyph::FlagDown32 => 0x31,
            Glyph::FlagUp64 => 0x32,
            Glyph::FlagDown64 => 0x33,
            Glyph::Rest1 => 0x0B,
            Glyph::Rest2 => 0x0C,
            Glyph::Rest4 => 0x0D,
            Glyph::Rest8 => 0x0E,
            Glyph::Rest16 => 0x0F,
            Glyph::Rest32 => 0x2E,
            Glyph::Rest64 => 0x2F,
            Glyph::ClefC => 0x34,
            Glyph::ClefG => 0x35,
            Glyph::ClefF => 0x36,
            Glyph::ClefN => 0x37,
            Glyph::ClefChangeC => 0x38,
            Glyph::ClefChangeG => 0x39,
            Glyph::ClefChangeF => 0x3A,
            Glyph::ClefC8va => 0x3B,
            Glyph::ClefG8va => 0x3C,
            Glyph::ClefF8va => 0x3D,
            Glyph::ClefC8vb => 0x3E,
            Glyph::ClefG8vb => 0x3F,
            Glyph::ClefF8vb => 0x40,
            Glyph::ClefC16va => 0x41,
            Glyph::ClefG16va => 0x42,
            Glyph::ClefF16va => 0x43,
            Glyph::ClefC16vb => 0x44,
            Glyph::ClefG16vb => 0x45,
            Glyph::ClefF16vb => 0x46,
            Glyph::Tab4 => 0x47,
            Glyph::Tab6 => 0x48,
            Glyph::P => 0x49,
            Glyph::MP => 0x4A,
            Glyph::MF => 0x4B,
            Glyph::F => 0x4C,
            Glyph::S => 0x4D,
            Glyph::Z => 0x4E,
            Glyph::N => 0x4F,
            Glyph::TimeSig0 => 0x50,
            Glyph::TimeSig1 => 0x51,
            Glyph::TimeSig2 => 0x52,
            Glyph::TimeSig3 => 0x53,
            Glyph::TimeSig4 => 0x54,
            Glyph::TimeSig5 => 0x55,
            Glyph::TimeSig6 => 0x56,
            Glyph::TimeSig7 => 0x57,
            Glyph::TimeSig8 => 0x58,
            Glyph::TimeSig9 => 0x59,
            Glyph::TimeSigCommon => 0x5A,
            Glyph::TimeSigCut => 0x5B,
            Glyph::TimeSigPlus => 0x5C,
            Glyph::RepeatSlash => 0x5D,
            Glyph::RepeatDots => 0x5E,
            Glyph::TupletColon => 0x5F,
            Glyph::Tuplet0 => 0x60,
            Glyph::Tuplet1 => 0x61,
            Glyph::Tuplet2 => 0x62,
            Glyph::Tuplet3 => 0x63,
            Glyph::Tuplet4 => 0x64,
            Glyph::Tuplet5 => 0x65,
            Glyph::Tuplet6 => 0x66,
            Glyph::Tuplet7 => 0x67,
            Glyph::Tuplet8 => 0x68,
            Glyph::Tuplet9 => 0x69,
            Glyph::Coda => 0x70,
            Glyph::Segno => 0x76,
            Glyph::BuzzRoll => 0x6A,
            Glyph::Damp => 0x6B,
            Glyph::HarpStringNoise => 0x6C,
            Glyph::RimShot => 0x6D,
            Glyph::BowBridge => 0x6E,
            Glyph::BowTailpiece => 0x6F,
            Glyph::Tremelo1 => 0x71,
            Glyph::Tremelo2 => 0x72,
            Glyph::Tremelo3 => 0x73,
            Glyph::Tremelo4 => 0x74,
            Glyph::Tremelo5 => 0x75,
            Glyph::Len => 0x77,
        }
    }

    /// The symbol a code names, if the registry assigns the code.
    pub fn from_code(code: u16) -> (glyph: Option<Glyph>)
        ensures
            glyph is Some <==> code <= 0x77,
            glyph matches Some(g) ==> g == spec_glyph_for_code(code) && spec_code_of(g) == code,
    {
        let glyph = match code {
            0x00 => Some(Glyph::NoteheadFillX),
            0x01 => Some(Glyph::NoteheadFill),
            0x02 => Some(Glyph::NoteheadHalf),
            0x03 => Some(Glyph::NoteheadWhole),
            0x04 => Some(Glyph::Flat),
            0x05 => Some(Glyph::Sharp),
            0x06 => Some(Glyph::Natural),
            0x07 => Some(Glyph::FlagUp8),
            0x08 => Some(Glyph::FlagDown8),
            0x09 => Some(Glyph::FlagUp16),
            0x0A => Some(Glyph::FlagDown16),
            0x0B => Some(Glyph::Rest1),
            0x0C => Some(Glyph::Rest2),
            0x0D => Some(Glyph::Rest4),
            0x0E => Some(Glyph::Rest8),
            0x0F => Some(Glyph::Rest16),
            0x10 => Some(Glyph::NoteheadDouble),
            0x11 => Some(Glyph::NoteheadHalfX),
            0x12 => Some(Glyph::NoteheadWholeX),
            0x13 => Some(Glyph::NoteheadDoubleX),
            0x14 => Some(Glyph::NoteheadFillTriangle),
            0x15 => Some(Glyph::NoteheadHalfTriangle),
            0x16 => Some(Glyph::NoteheadWholeTriangle),
            0x17 => Some(Glyph::NoteheadDoubleTriangle),
            0x18 => Some(Glyph::NoteheadFillDiamond),
            0x19 => Some(Glyph::NoteheadHalfDiamond),
            0x1A => Some(Glyph::NoteheadWholeDiamond),
            0x1B => Some(Glyph::NoteheadDoubleDiamond),
            0x1C => Some(Glyph::NoteheadFillSquare),
            0x1D => Some(Glyph::NoteheadHalfSquare),
            0x1E => Some(Glyph::NoteheadWholeSquare),
            0x1F => Some(Glyph::NoteheadDoubleSquare),
            0x20 => Some(Glyph::NoteheadFillSlash),
            0x21 => Some(Glyph::NoteheadHalfSlash),
            0x22 => Some(Glyph::NoteheadWholeSlash),
            0x23 => Some(Glyph::NoteheadDoubleSlash),
            0x24 => Some(Glyph::DoubleFlat),
            0x25 => Some(Glyph::DoubleSharp),
            0x26 => Some(Glyph::QuarterFlat),
            0x27 => Some(Glyph::QuarterSharp),
            0x28 => Some(Glyph::ThreeQuarterFlat),
            0x29 => Some(Glyph::ThreeQuarterSharp),
            0x2A => Some(Glyph::ThirdFlat),
            0x2B => Some(Glyph::ThirdSharp),
            0x2C => Some(Glyph::TwoThirdFlat),
            0x2D => Some(Glyph::TwoThirdSharp),
            0x2E => Some(Glyph::Rest32),
            0x2F => Some(Glyph::Rest64),
            0x30 => Some(Glyph::FlagUp32),
            0x31 => Some(Glyph::FlagDown32),
            0x32 => Some(Glyph::FlagUp64),
            0x33 => Some(Glyph::FlagDown64),
            0x34 => Some(Glyph::ClefC),
            0x35 => Some(Glyph::ClefG),
            0x36 => Some(Glyph::ClefF),
            0x37 => Some(Glyph::ClefN),
            0x38 => Some(Glyph::ClefChangeC),
            0x39 => Some(Glyph::ClefChangeG),
            0x3A => Some(Glyph::ClefChangeF),
            0x3B => Some(Glyph::ClefC8va),
            0x3C => Some(Glyph::ClefG8va),
            0x3D => Some(Glyph::ClefF8va),
            0x3E => Some(Glyph::ClefC8vb),
            0x3F => Some(Glyph::ClefG8vb),
            0x40 => Some(Glyph::ClefF8vb),
            0x41 => Some(Glyph::ClefC16va),
            0x42 => Some(Glyph::ClefG16va),
            0x43 => Some(Glyph::ClefF16va),
            0x44 => Some(Glyph::ClefC16vb),
            0x45 => Some(Glyph::ClefG16vb),
            0x46 => Some(Glyph::ClefF16vb),
            0x47 => Some(Glyph::Tab4),
            0x48 => Some(Glyph::Tab6),
            0x49 => Some(Glyph::P),
            0x4A => Some(Glyph::MP),
            0x4B => Some(Glyph::MF),
            0x4C => Some(Glyph::F),
            0x4D => Some(Glyph::S),
            0x4E => Some(Glyph::Z),
            0x4F => Some(Glyph::N),
            0x50 => Some(Glyph::TimeSig0),
            0x51 => Some(Glyph::TimeSig1),
            0x52 => Some(Glyph::TimeSig2),
            0x53 => Some(Glyph::TimeSig3),
            0x54 => Some(Glyph::TimeSig4),
            0x55 => Some(Glyph::TimeSig5),
            0x56 => Some(Glyph::TimeSig6),
            0x57 => Some(Glyph::TimeSig7),
            0x58 => Some(Glyph::TimeSig8),
            0x59 => Some(Glyph::TimeSig9),
            0x5A => Some(Glyph::TimeSigCommon),
            0x5B => Some(Glyph::TimeSigCut),
            0x5C => Some(Glyph::TimeSigPlus),
            0x5D => Some(Glyph::RepeatSlash),
            0x5E => Some(Glyph::RepeatDots),
            0x5F => Some(Glyph::TupletColon),
            0x60 => Some(Glyph::Tuplet0),
            0x61 => Some(Glyph::Tuplet1),
            0x62 => Some(Glyph::Tuplet2),
            0x63 => Some(Glyph::Tuplet3),
            0x64 => Some(Glyph::Tuplet4),
            0x65 => Some(Glyph::Tuplet5),
            0x66 => Some(Glyph::Tuplet6),
            0x67 => Some(Glyph::Tuplet7),
            0x68 => Some(Glyph::Tuplet8),
            0x69 => Some(Glyph::Tuplet9),
            0x6A => Some(Glyph::BuzzRoll),
            0x6B => Some(Glyph::Damp),
            0x6C => Some(Glyph::HarpStringNoise),
            0x6D => Some(Glyph::RimShot),
            0x6E => Some(Glyph::BowBridge),
            0x6F => Some(Glyph::BowTailpiece),
            0x70 => Some(Glyph::Coda),
            0x71 => Some(Glyph::Tremelo1),
            0x72 => Some(Glyph::Tremelo2),
            0x73 => Some(Glyph::Tremelo3),
            0x74 => Some(Glyph::Tremelo4),
            0x75 => Some(Glyph::Tremelo5),
            0x76 => Some(Glyph::Segno),
            0x77 => Some(Glyph::Len),
            _ => None,
        };
        glyph
    }
}

/// Every code the registry assigns lies in the dense range reserved for it.
pub proof fn lemma_code_in_range(glyph: Glyph)
    ensures
        spec_code_of(glyph) <= 0x77,
{
}

/// Mapping a symbol to its code and back returns the symbol: the registry is
/// bidirectional.
pub proof fn lemma_for_code_inverse(glyph: Glyph)
    ensures
        spec_glyph_for_code(spec_code_of(glyph)) == glyph,
{
}

/// No two distinct symbols share a code.
pub proof fn lemma_codes_unique(a: Glyph, b: Glyph)
    requires
        spec_code_of(a) == spec_code_of(b),
    ensures
        a == b,
{
    lemma_for_code_inverse(a);
    lemma_for_code_inverse(b);
}

/// The most commonly referenced symbols sit below the rare stem modifiers:
/// the primary noteheads and the plain accidentals all precede the tremolo
/// variants.
pub proof fn lemma_common_symbols_first()
    ensures
        spec_code_of(Glyph::NoteheadFill) < spec_code_of(Glyph::Tremelo1),
        spec_code_of(Glyph::NoteheadHalf) < spec_code_of(Glyph::Tremelo1),
        spec_code_of(Glyph::NoteheadWhole) < spec_code_of(Glyph::Tremelo1),
        spec_code_of(Glyph::Flat) < spec_code_of(Glyph::Tremelo1),
        spec_code_of(Glyph::Sharp) < spec_code_of(Glyph::Tremelo1),
        spec_code_of(Glyph::Natural) < spec_code_of(Glyph::Tremelo1),
        spec_code_of(Glyph::Tremelo1) < spec_code_of(Glyph::Tremelo2),
        spec_code_of(Glyph::Tremelo2) < spec_code_of(Glyph::Tremelo3),
        spec_code_of(Glyph::Tremelo3) < spec_code_of(Glyph::Tremelo4),
        spec_code_of(Glyph::Tremelo4) < spec_code_of(Glyph::Tremelo5),
{
}

} // verus!
