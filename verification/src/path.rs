//! Vector-path re-encoder.
//!
//! One glyph's geometry arrives as an ordered sequence of [`PathCommand`]
//! values in the source coordinate system (y-up) and leaves as a minimal
//! textual path in the target system (y-down). The transform, per command:
//!
//! 1. every y-coordinate, y-radius and y-control-coordinate is negated
//!    ([`flip_cmd`]);
//! 2. each command emits exactly one letter, uppercase for absolute and
//!    lowercase for relative, never compacted across repeats;
//! 3. a space separates a numeric parameter from what precedes it unless the
//!    parameter is negative, in which case its own minus sign is the
//!    separator ([`spec_sep_num`]); the first parameter follows the command
//!    letter directly;
//! 4. the two elliptical-arc flags are written as `1`/`0`, each with one
//!    leading space, between the rotation and the endpoint;
//! 5. the close command is a bare `Z` or `z`.
//!
//! [`spec_path_chars`] states the whole transform; [`encode_path`] is the
//! executable re-encoder, total over well-formed command sequences.

use vstd::prelude::*;

verus! {

/// One vector drawing primitive, with an absolute/relative flag and its
/// numeric parameters.
///
/// Coordinates are integers in the source font's units. A coordinate is
/// well-formed when its negation is representable ([`cmd_valid`]), so the
/// axis flip is a pure sign change.
#[derive(Debug, Clone, Copy, PartialEq, Eq, Structural)]
pub enum PathCommand {
    /// Move the pen to a new subpath start.
    MoveTo { abs: bool, x: i32, y: i32 },
    /// Straight line to a point.
    LineTo { abs: bool, x: i32, y: i32 },
    /// Straight horizontal line.
    HorizontalLineTo { abs: bool, x: i32 },
    /// Straight vertical line.
    VerticalLineTo { abs: bool, y: i32 },
    /// Cubic Bezier curve with two control points.
    CurveTo { abs: bool, x1: i32, y1: i32, x2: i32, y2: i32, x: i32, y: i32 },
    /// Cubic Bezier curve whose first control point is reflected.
    SmoothCurveTo { abs: bool, x2: i32, y2: i32, x: i32, y: i32 },
    /// Quadratic Bezier curve with one control point.
    Quadratic { abs: bool, x1: i32, y1: i32, x: i32, y: i32 },
    /// Quadratic Bezier curve whose control point is reflected.
    SmoothQuadratic { abs: bool, x: i32, y: i32 },
    /// Elliptical arc to a point.
    EllipticalArc {
        abs: bool,
        rx: i32,
        ry: i32,
        x_axis_rotation: i32,
        large_arc: bool,
        sweep: bool,
        x: i32,
        y: i32,
    },
    /// Close the current subpath.
    ClosePath { abs: bool },
}

/// A coordinate whose sign can be flipped without leaving the type.
pub open spec fn coord_valid(v: i32) -> bool {
    v != i32::MIN
}

/// Every numeric parameter of the command can be negated; the well-formedness
/// the re-encoder asks of its input.
pub open spec fn cmd_valid(cmd: PathCommand) -> bool {
    match cmd {
        PathCommand::MoveTo { abs, x, y } => coord_valid(x) && coord_valid(y),
        PathCommand::LineTo { abs, x, y } => coord_valid(x) && coord_valid(y),
        PathCommand::HorizontalLineTo { abs, x } => coord_valid(x),
        PathCommand::VerticalLineTo { abs, y } => coord_valid(y),
        PathCommand::CurveTo { abs, x1, y1, x2, y2, x, y } => coord_valid(x1) && coord_valid(y1)
            && coord_valid(x2) && coord_valid(y2) && coord_valid(x) && coord_valid(y),
        PathCommand::SmoothCurveTo { abs, x2, y2, x, y } => coord_valid(x2) && coord_valid(y2)
            && coord_valid(x) && coord_valid(y),
        PathCommand::Quadratic { abs, x1, y1, x, y } => coord_valid(x1) && coord_valid(y1)
            && coord_valid(x) && coord_valid(y),
        PathCommand::SmoothQuadratic { abs, x, y } => coord_valid(x) && coord_valid(y),
        PathCommand::EllipticalArc { abs, rx, ry, x_axis_rotation, large_arc, sweep, x, y } => (
        coord_valid(rx) && coord_valid(ry) && coord_valid(x_axis_rotation) && coord_valid(x)
            && coord_valid(y)),
        PathCommand::ClosePath { abs } => true,
    }
}

/// A coordinate with its sign flipped.
pub open spec fn flip_coord(v: i32) -> i32 {
    (-(v as int)) as i32
}

/// The axis flip: negates every y-coordinate, y-radius and
/// y-control-coordinate of the command and touches nothing else.
pub open spec fn flip_cmd(cmd: PathCommand) -> PathCommand {
    match cmd {
        PathCommand::MoveTo { abs, x, y } => PathCommand::MoveTo { abs, x, y: flip_coord(y) },
        PathCommand::LineTo { abs, x, y } => PathCommand::LineTo { abs, x, y: flip_coord(y) },
        PathCommand::HorizontalLineTo { abs, x } => PathCommand::HorizontalLineTo { abs, x },
        PathCommand::VerticalLineTo { abs, y } => (PathCommand::VerticalLineTo {
            abs,
            y: flip_coord(y),
        }),
        PathCommand::CurveTo { abs, x1, y1, x2, y2, x, y } => (PathCommand::CurveTo {
            abs,
            x1,
            y1: flip_coord(y1),
            x2,
            y2: flip_coord(y2),
            x,
            y: flip_coord(y),
        }),
        PathCommand::SmoothCurveTo { abs, x2, y2, x, y } => (PathCommand::SmoothCurveTo {
            abs,
            x2,
            y2: flip_coord(y2),
            x,
            y: flip_coord(y),
        }),
        PathCommand::Quadratic { abs, x1, y1, x, y } => (PathCommand::Quadratic {
            abs,
            x1,
            y1: flip_coord(y1),
            x,
            y: flip_coord(y),
        }),
        PathCommand::SmoothQuadratic { abs, x, y } => (PathCommand::SmoothQuadratic {
            abs,
            x,
            y: flip_coord(y),
        }),
        PathCommand::EllipticalArc { abs, rx, ry, x_axis_rotation, large_arc, sweep, x, y } => (
        PathCommand::EllipticalArc {
            abs,
            rx,
            ry: flip_coord(ry),
            x_axis_rotation,
            large_arc,
            sweep,
            x,
            y: flip_coord(y),
        }),
        PathCommand::ClosePath { abs } => PathCommand::ClosePath { abs },
    }
}

/// The decimal digit character for one digit value.
pub open spec fn spec_digit_char(d: int) -> char {
    if d == 0 {
        '0'
    } else if d == 1 {
        '1'
    } else if d == 2 {
        '2'
    } else if d == 3 {
        '3'
    } else if d == 4 {
        '4'
    } else if d == 5 {
        '5'
    } else if d == 6 {
        '6'
    } else if d == 7 {
        '7'
    } else if d == 8 {
        '8'
    } else {
        '9'
    }
}

/// Decimal digits of a non-negative integer, most significant first, with no
/// leading zeros (a single `0` for zero).
pub open spec fn spec_nat_chars(n: int) -> Seq<char>
    recommends
        n >= 0,
    decreases n,
{
    if n < 10 {
        seq![spec_digit_char(n)]
    } else {
        spec_nat_chars(n / 10).push(spec_digit_char(n % 10))
    }
}

/// Decimal text of an integer: a minus sign and the magnitude's digits for a
/// negative value, the digits alone otherwise.
pub open spec fn spec_int_chars(v: int) -> Seq<char> {
    if v < 0 {
        seq!['-'] + spec_nat_chars(-v)
    } else {
        spec_nat_chars(v)
    }
}

/// A numeric parameter after the first: one leading space when the value is
/// non-negative, and none when it is negative, where the minus sign itself
/// separates it from what precedes it.
pub open spec fn spec_sep_num(v: int) -> Seq<char> {
    if v >= 0 {
        seq![' '] + spec_int_chars(v)
    } else {
        spec_int_chars(v)
    }
}

/// Sign-based separator elision, stated once for every parameter: a
/// negative parameter is introduced by its own minus sign and nothing else,
/// a non-negative one by exactly one space followed by its digits.
pub proof fn lemma_sign_elision(v: int)
    ensures
        v < 0 ==> spec_sep_num(v) == spec_int_chars(v) && spec_int_chars(v)[0] == '-',
        v >= 0 ==> spec_sep_num(v)[0] == ' ' && spec_sep_num(v).drop_first() == spec_int_chars(v),
{
    if v >= 0 {
        assert((seq![' '] + spec_int_chars(v)).drop_first() =~= spec_int_chars(v));
    }
}

/// An elliptical-arc flag digit.
pub open spec fn spec_flag_char(b: bool) -> char {
    if b {
        '1'
    } else {
        '0'
    }
}

/// The text one command contributes to the path string, exactly as the
/// target renderer reads it back: the command letter, then its parameters
/// under the separator-elision rule.
pub open spec fn spec_cmd_chars(cmd: PathCommand) -> Seq<char> {
    match cmd {
        PathCommand::MoveTo { abs, x, y } => seq![if abs { 'M' } else { 'm' }] + spec_int_chars(
            x as int,
        ) + spec_sep_num(y as int),
        PathCommand::LineTo { abs, x, y } => seq![if abs { 'L' } else { 'l' }] + spec_int_chars(
            x as int,
        ) + spec_sep_num(y as int),
        PathCommand::HorizontalLineTo { abs, x } => seq![if abs { 'H' } else { 'h' }]
            + spec_int_chars(x as int),
        PathCommand::VerticalLineTo { abs, y } => seq![if abs { 'V' } else { 'v' }]
            + spec_int_chars(y as int),
        PathCommand::CurveTo { abs, x1, y1, x2, y2, x, y } => seq![if abs { 'C' } else { 'c' }]
            + spec_int_chars(x1 as int) + spec_sep_num(y1 as int) + spec_sep_num(x2 as int)
            + spec_sep_num(y2 as int) + spec_sep_num(x as int) + spec_sep_num(y as int),
        PathCommand::SmoothCurveTo { abs, x2, y2, x, y } => seq![if abs { 'S' } else { 's' }]
            + spec_int_chars(x2 as int) + spec_sep_num(y2 as int) + spec_sep_num(x as int)
            + spec_sep_num(y as int),
        PathCommand::Quadratic { abs, x1, y1, x, y } => seq![if abs { 'Q' } else { 'q' }]
            + spec_int_chars(x1 as int) + spec_sep_num(y1 as int) + spec_sep_num(x as int)
            + spec_sep_num(y as int),
        PathCommand::SmoothQuadratic { abs, x, y } => seq![if abs { 'T' } else { 't' }]
            + spec_int_chars(x as int) + spec_sep_num(y as int),
        PathCommand::EllipticalArc { abs, rx, ry, x_axis_rotation, large_arc, sweep, x, y } => seq![
            if abs {
                'A'
            } else {
                'a'
            },
        ] + spec_int_chars(rx as int) + spec_sep_num(ry as int) + spec_sep_num(
            x_axis_rotation as int,
        ) + seq![' ', spec_flag_char(large_arc), ' ', spec_flag_char(sweep)] + spec_sep_num(x as int)
            + spec_sep_num(y as int),
        PathCommand::ClosePath { abs } => seq![if abs { 'Z' } else { 'z' }],
    }
}

/// The full re-encoding of a command sequence: each command is axis-flipped
/// and written in order, nothing between commands.
pub open spec fn spec_path_chars(cmds: Seq<PathCommand>) -> Seq<char>
    decreases cmds.len(),
{
    if cmds.len() == 0 {
        Seq::<char>::empty()
    } else {
        spec_cmd_chars(flip_cmd(cmds[0])) + spec_path_chars(cmds.drop_first())
    }
}

/// The axis flip of one command, as executable code.
pub fn flip_command(cmd: &PathCommand) -> (r: PathCommand)
    requires
        cmd_valid(*cmd),
    ensures
        r == flip_cmd(*cmd),
        cmd_valid(r),
{
    match *cmd {
        PathCommand::MoveTo { abs, x, y } => PathCommand::MoveTo { abs, x, y: -y },
        PathCommand::LineTo { abs, x, y } => PathCommand::LineTo { abs, x, y: -y },
        PathCommand::HorizontalLineTo { abs, x } => PathCommand::HorizontalLineTo { abs, x },
        PathCommand::VerticalLineTo { abs, y } => PathCommand::VerticalLineTo { abs, y: -y },
        PathCommand::CurveTo { abs, x1, y1, x2, y2, x, y } => PathCommand::CurveTo {
            abs,
            x1,
            y1: -y1,
            x2,
            y2: -y2,
            x,
            y: -y,
        },
        PathCommand::SmoothCurveTo { abs, x2, y2, x, y } => PathCommand::SmoothCurveTo {
            abs,
            x2,
            y2: -y2,
            x,
            y: -y,
        },
        PathCommand::Quadratic { abs, x1, y1, x, y } => PathCommand::Quadratic {
            abs,
            x1,
            y1: -y1,
            x,
            y: -y,
        },
        PathCommand::SmoothQuadratic { abs, x, y } => PathCommand::SmoothQuadratic {
            abs,
            x,
            y: -y,
        },
        PathCommand::EllipticalArc { abs, rx, ry, x_axis_rotation, large_arc, sweep, x, y } => {
            PathCommand::EllipticalArc {
                abs,
                rx,
                ry: -ry,
                x_axis_rotation,
                large_arc,
                sweep,
                x,
                y: -y,
            }
        },
        PathCommand::ClosePath { abs } => PathCommand::ClosePath { abs },
    }
}

/// The axis flip is its own inverse: applying it twice to a well-formed
/// command reproduces every original value exactly.
pub proof fn lemma_flip_involutive(cmd: PathCommand)
    requires
        cmd_valid(cmd),
    ensures
        flip_cmd(flip_cmd(cmd)) == cmd,
        cmd_valid(flip_cmd(cmd)),
{
}

/// The axis flip of a whole command sequence.
pub open spec fn spec_flip_path(cmds: Seq<PathCommand>) -> Seq<PathCommand> {
    cmds.map_values(|c: PathCommand| flip_cmd(c))
}

/// The axis flip is its own inverse over whole sequences.
pub proof fn lemma_flip_path_involutive(cmds: Seq<PathCommand>)
    requires
        forall|i: int| 0 <= i < cmds.len() ==> cmd_valid(#[trigger] cmds[i]),
    ensures
        spec_flip_path(spec_flip_path(cmds)) == cmds,
{
    assert forall|i: int| 0 <= i < cmds.len() implies flip_cmd(flip_cmd(#[trigger] cmds[i]))
        == cmds[i] by {
        lemma_flip_involutive(cmds[i]);
    }
    assert(spec_flip_path(spec_flip_path(cmds)) =~= cmds);
}

/// Append the decimal digits of a non-negative value.
fn append_digits(out: &mut String, n: i32)
    requires
        n >= 0,
    ensures
        final(out)@ == old(out)@ + spec_nat_chars(n as int),
    decreases n,
{
    if n >= 10 {
        append_digits(out, n / 10);
    }
    let d = n % 10;
    if d == 0 {
        out.append("0");
        proof {
            reveal_strlit("0");
        }
    } else if d == 1 {
        out.append("1");
        proof {
            reveal_strlit("1");
        }
    } else if d == 2 {
        out.append("2");
        proof {
            reveal_strlit("2");
        }
    } else if d == 3 {
        out.append("3");
        proof {
            reveal_strlit("3");
        }
    } else if d == 4 {
        out.append("4");
        proof {
            reveal_strlit("4");
        }
    } else if d == 5 {
        out.append("5");
        proof {
            reveal_strlit("5");
        }
    } else if d == 6 {
        out.append("6");
        proof {
            reveal_strlit("6");
        }
    } else if d == 7 {
        out.append("7");
        proof {
            reveal_strlit("7");
        }
    } else if d == 8 {
        out.append("8");
        proof {
            reveal_strlit("8");
        }
    } else {
        out.append("9");
        proof {
            reveal_strlit("9");
        }
    }
    proof {
        assert(out@ =~= old(out)@ + spec_nat_chars(n as int));
    }
}

/// Append the decimal text of an integer, minus sign included.
fn append_int(out: &mut String, v: i32)
    requires
        coord_valid(v),
    ensures
        final(out)@ == old(out)@ + spec_int_chars(v as int),
{
    if v < 0 {
        out.append("-");
        proof {
            reveal_strlit("-");
        }
        append_digits(out, -v);
        proof {
            assert(out@ =~= old(out)@ + spec_int_chars(v as int));
        }
    } else {
        append_digits(out, v);
    }
}

/// Append a parameter after the first: a space first when the value is
/// non-negative, nothing extra when it is negative.
fn append_sep_num(out: &mut String, v: i32)
    requires
        coord_valid(v),
    ensures
        final(out)@ == old(out)@ + spec_sep_num(v as int),
{
    if v >= 0 {
        out.append(" ");
        proof {
            reveal_strlit(" ");
        }
    }
    append_int(out, v);
    proof {
        assert(out@ =~= old(out)@ + spec_sep_num(v as int));
    }
}

/// Append one arc flag with its single leading space.
fn append_flag(out: &mut String, b: bool)
    ensures
        final(out)@ == old(out)@ + seq![' ', spec_flag_char(b)],
{
    if b {
        out.append(" 1");
        proof {
            reveal_strlit(" 1");
            assert(out@ =~= old(out)@ + seq![' ', spec_flag_char(b)]);
        }
    } else {
        out.append(" 0");
        proof {
            reveal_strlit(" 0");
            assert(out@ =~= old(out)@ + seq![' ', spec_flag_char(b)]);
        }
    }
}

/// Append the text of one already-flipped command.
#[verifier::rlimit(100)]
fn append_command(out: &mut String, cmd: &PathCommand)
    requires
        cmd_valid(*cmd),
    ensures
        final(out)@ == old(out)@ + spec_cmd_chars(*cmd),
{
    match *cmd {
        PathCommand::MoveTo { abs, x, y } => {
            if abs {
                out.append("M");
                proof {
                    reveal_strlit("M");
                }
            } else {
                out.append("m");
                proof {
                    reveal_strlit("m");
                }
            }
            append_int(out, x);
            append_sep_num(out, y);
            proof {
                assert(out@ =~= old(out)@ + spec_cmd_chars(*cmd));
            }
        },
        PathCommand::LineTo { abs, x, y } => {
            if abs {
                out.append("L");
                proof {
                    reveal_strlit("L");
                }
            } else {
                out.append("l");
                proof {
                    reveal_strlit("l");
                }
            }
            append_int(out, x);
            append_sep_num(out, y);
            proof {
                assert(out@ =~= old(out)@ + spec_cmd_chars(*cmd));
            }
        },
        PathCommand::HorizontalLineTo { abs, x } => {
            if abs {
                out.append("H");
                proof {
                    reveal_strlit("H");
                }
            } else {
                out.append("h");
                proof {
                    reveal_strlit("h");
                }
            }
            append_int(out, x);
            proof {
                assert(out@ =~= old(out)@ + spec_cmd_chars(*cmd));
            }
        },
        PathCommand::VerticalLineTo { abs, y } => {
            if abs {
                out.append("V");
                proof {
                    reveal_strlit("V");
                }
            } else {
                out.append("v");
                proof {
                    reveal_strlit("v");
                }
            }
            append_int(out, y);
            proof {
                assert(out@ =~= old(out)@ + spec_cmd_chars(*cmd));
            }
        },
        PathCommand::CurveTo { abs, x1, y1, x2, y2, x, y } => {
            if abs {
                out.append("C");
                proof {
                    reveal_strlit("C");
                }
            } else {
                out.append("c");
                proof {
                    reveal_strlit("c");
                }
            }
            append_int(out, x1);
            append_sep_num(out, y1);
            append_sep_num(out, x2);
            append_sep_num(out, y2);
            append_sep_num(out, x);
            append_sep_num(out, y);
            proof {
                assert(out@ =~= old(out)@ + spec_cmd_chars(*cmd));
            }
        },
        PathCommand::SmoothCurveTo { abs, x2, y2, x, y } => {
            if abs {
                out.append("S");
                proof {
                    reveal_strlit("S");
                }
            } else {
                out.append("s");
                proof {
                    reveal_strlit("s");
                }
            }
            append_int(out, x2);
            append_sep_num(out, y2);
            append_sep_num(out, x);
            append_sep_num(out, y);
            proof {
                assert(out@ =~= old(out)@ + spec_cmd_chars(*cmd));
            }
        },
        PathCommand::Quadratic { abs, x1, y1, x, y } => {
            if abs {
                out.append("Q");
                proof {
                    reveal_strlit("Q");
                }
            } else {
                out.append("q");
                proof {
                    reveal_strlit("q");
                }
            }
            append_int(out, x1);
            append_sep_num(out, y1);
            append_sep_num(out, x);
            append_sep_num(out, y);
            proof {
                assert(out@ =~= old(out)@ + spec_cmd_chars(*cmd));
            }
        },
        PathCommand::SmoothQuadratic { abs, x, y } => {
            if abs {
                out.append("T");
                proof {
                    reveal_strlit("T");
                }
            } else {
                out.append("t");
                proof {
                    reveal_strlit("t");
                }
            }
            append_int(out, x);
            append_sep_num(out, y);
            proof {
                assert(out@ =~= old(out)@ + spec_cmd_chars(*cmd));
            }
        },
        PathCommand::EllipticalArc { abs, rx, ry, x_axis_rotation, large_arc, sweep, x, y } => {
            if abs {
                out.append("A");
                proof {
                    reveal_strlit("A");
                }
            } else {
                out.append("a");
                proof {
                    reveal_strlit("a");
                }
            }
            append_int(out, rx);
            append_sep_num(out, ry);
            append_sep_num(out, x_axis_rotation);
            append_flag(out, large_arc);
            append_flag(out, sweep);
            append_sep_num(out, x);
            append_sep_num(out, y);
            proof {
                assert(out@ =~= old(out)@ + spec_cmd_chars(*cmd));
            }
        },
        PathCommand::ClosePath { abs } => {
            if abs {
                out.append("Z");
                proof {
                    reveal_strlit("Z");
                }
            } else {
                out.append("z");
                proof {
                    reveal_strlit("z");
                }
            }
            proof {
                assert(out@ =~= old(out)@ + spec_cmd_chars(*cmd));
            }
        },
    }
}

/// Re-encode one command: flip its axis and write its minimal text.
pub fn encode_command(cmd: &PathCommand) -> (out: String)
    requires
        cmd_valid(*cmd),
    ensures
        out@ == spec_cmd_chars(flip_cmd(*cmd)),
{
    let flipped = flip_command(cmd);
    let mut out = String::new();
    append_command(&mut out, &flipped);
    out
}

/// Writing one more command extends the re-encoding of a prefix by that
/// command's text.
proof fn lemma_path_chars_snoc(cmds: Seq<PathCommand>, i: int)
    requires
        0 <= i < cmds.len(),
    ensures
        spec_path_chars(cmds.take(i + 1)) == spec_path_chars(cmds.take(i)) + spec_cmd_chars(
            flip_cmd(cmds[i]),
        ),
    decreases i,
{
    if i == 0 {
        assert(cmds.take(1).drop_first() =~= Seq::<PathCommand>::empty());
        assert(cmds.take(0) =~= Seq::<PathCommand>::empty());
        assert(spec_path_chars(cmds.take(1)) =~= spec_path_chars(cmds.take(0)) + spec_cmd_chars(
            flip_cmd(cmds[0]),
        ));
    } else {
        let rest = cmds.drop_first();
        lemma_path_chars_snoc(rest, i - 1);
        assert(cmds.take(i + 1).drop_first() =~= rest.take(i));
        assert(cmds.take(i).drop_first() =~= rest.take(i - 1));
        assert(cmds.take(i + 1)[0] == cmds[0]);
        assert(cmds.take(i)[0] == cmds[0]);
        assert(rest[i - 1] == cmds[i]);
        assert(spec_path_chars(cmds.take(i + 1)) =~= spec_path_chars(cmds.take(i))
            + spec_cmd_chars(flip_cmd(cmds[i])));
    }
}

/// Re-encode a glyph's whole command sequence into one path string.
///
/// Total over well-formed commands; an empty sequence yields the empty
/// string.
pub fn encode_path(cmds: &Vec<PathCommand>) -> (out: String)
    requires
        forall|i: int| 0 <= i < cmds@.len() ==> cmd_valid(#[trigger] cmds@[i]),
    ensures
        out@ == spec_path_chars(cmds@),
{
    let mut out = String::new();
    let mut i: usize = 0;
    while i < cmds.len()
        invariant
            0 <= i <= cmds@.len(),
            forall|j: int| 0 <= j < cmds@.len() ==> cmd_valid(#[trigger] cmds@[j]),
            out@ == spec_path_chars(cmds@.take(i as int)),
        decreases cmds@.len() - i,
    {
        let flipped = flip_command(&cmds[i]);
        append_command(&mut out, &flipped);
        proof {
            lemma_path_chars_snoc(cmds@, i as int);
        }
        i = i + 1;
    }
    proof {
        assert(cmds@.take(cmds@.len() as int) =~= cmds@);
    }
    out
}

} // verus!
