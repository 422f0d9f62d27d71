use sfff::{encode_command, encode_path, flip_command, PathCommand};

#[test]
fn cubic_sign_elision() {
    // After the y-flip the written parameters are (5, 3, -2, -4, 1, 1):
    // every negative parameter rides on its own minus sign, every
    // non-negative one after the first gets exactly one space.
    let cmd = PathCommand::CurveTo {
        abs: true,
        x1: 5,
        y1: -3,
        x2: -2,
        y2: 4,
        x: 1,
        y: -1,
    };
    assert_eq!(encode_command(&cmd), "C5 3-2-4 1 1");
}

#[test]
fn move_and_line_letters() {
    let m = PathCommand::MoveTo { abs: true, x: 3, y: 4 };
    assert_eq!(encode_command(&m), "M3-4");
    let m = PathCommand::MoveTo { abs: false, x: 3, y: -4 };
    assert_eq!(encode_command(&m), "m3 4");
    let l = PathCommand::LineTo { abs: true, x: -3, y: 0 };
    assert_eq!(encode_command(&l), "L-3 0");
    let l = PathCommand::LineTo { abs: false, x: 0, y: 7 };
    assert_eq!(encode_command(&l), "l0-7");
}

#[test]
fn horizontal_keeps_x_vertical_flips_y() {
    let h = PathCommand::HorizontalLineTo { abs: true, x: -7 };
    assert_eq!(encode_command(&h), "H-7");
    let h = PathCommand::HorizontalLineTo { abs: false, x: 7 };
    assert_eq!(encode_command(&h), "h7");
    let v = PathCommand::VerticalLineTo { abs: true, y: 5 };
    assert_eq!(encode_command(&v), "V-5");
    let v = PathCommand::VerticalLineTo { abs: false, y: -5 };
    assert_eq!(encode_command(&v), "v5");
}

#[test]
fn smooth_and_quadratic_letters() {
    let s = PathCommand::SmoothCurveTo { abs: true, x2: 1, y2: 2, x: 3, y: 4 };
    assert_eq!(encode_command(&s), "S1-2 3-4");
    let s = PathCommand::SmoothCurveTo { abs: false, x2: -1, y2: -2, x: -3, y: -4 };
    assert_eq!(encode_command(&s), "s-1 2-3 4");
    let q = PathCommand::Quadratic { abs: true, x1: 10, y1: 20, x: 30, y: 40 };
    assert_eq!(encode_command(&q), "Q10-20 30-40");
    let t = PathCommand::SmoothQuadratic { abs: false, x: 8, y: 9 };
    assert_eq!(encode_command(&t), "t8-9");
}

#[test]
fn arc_flags_never_elided() {
    let a = PathCommand::EllipticalArc {
        abs: true,
        rx: 1,
        ry: 2,
        x_axis_rotation: 0,
        large_arc: true,
        sweep: false,
        x: 3,
        y: 4,
    };
    // ry and y flip; the flags keep their single leading spaces.
    assert_eq!(encode_command(&a), "A1-2 0 1 0 3-4");
    let a = PathCommand::EllipticalArc {
        abs: false,
        rx: 1,
        ry: -2,
        x_axis_rotation: -30,
        large_arc: false,
        sweep: true,
        x: -3,
        y: -4,
    };
    assert_eq!(encode_command(&a), "a1 2-30 0 1-3 4");
}

#[test]
fn close_path_has_no_parameters() {
    assert_eq!(encode_command(&PathCommand::ClosePath { abs: true }), "Z");
    assert_eq!(encode_command(&PathCommand::ClosePath { abs: false }), "z");
}

#[test]
fn zero_is_non_negative_after_flip() {
    let m = PathCommand::MoveTo { abs: true, x: 0, y: 0 };
    assert_eq!(encode_command(&m), "M0 0");
}

#[test]
fn multi_digit_numbers() {
    let m = PathCommand::MoveTo { abs: true, x: 1234, y: -56789 };
    assert_eq!(encode_command(&m), "M1234 56789");
    let l = PathCommand::LineTo { abs: true, x: -2147483647, y: 2147483647 };
    assert_eq!(encode_command(&l), "L-2147483647-2147483647");
}

#[test]
fn path_concatenates_commands_in_order() {
    let cmds = vec![
        PathCommand::MoveTo { abs: true, x: 1, y: 2 },
        PathCommand::LineTo { abs: false, x: 3, y: -4 },
        PathCommand::LineTo { abs: false, x: 3, y: -4 },
        PathCommand::ClosePath { abs: false },
    ];
    // Every command re-emits its letter, consecutive repeats included.
    assert_eq!(encode_path(&cmds), "M1-2l3 4l3 4z");
}

#[test]
fn empty_sequence_yields_empty_string() {
    let cmds: Vec<PathCommand> = vec![];
    assert_eq!(encode_path(&cmds), "");
}

#[test]
fn flip_twice_restores_commands() {
    let cmds = vec![
        PathCommand::MoveTo { abs: true, x: 1, y: -2 },
        PathCommand::CurveTo { abs: false, x1: 5, y1: -3, x2: -2, y2: 4, x: 1, y: -1 },
        PathCommand::EllipticalArc {
            abs: true,
            rx: 9,
            ry: 8,
            x_axis_rotation: 7,
            large_arc: true,
            sweep: true,
            x: -6,
            y: 0,
        },
        PathCommand::HorizontalLineTo { abs: false, x: 11 },
        PathCommand::ClosePath { abs: true },
    ];
    for cmd in &cmds {
        assert_eq!(flip_command(&flip_command(cmd)), *cmd);
    }
}

#[test]
fn flip_negates_only_y_values() {
    let a = PathCommand::EllipticalArc {
        abs: true,
        rx: 1,
        ry: 2,
        x_axis_rotation: 3,
        large_arc: false,
        sweep: true,
        x: 4,
        y: 5,
    };
    let flipped = flip_command(&a);
    assert_eq!(
        flipped,
        PathCommand::EllipticalArc {
            abs: true,
            rx: 1,
            ry: -2,
            x_axis_rotation: 3,
            large_arc: false,
            sweep: true,
            x: 4,
            y: -5,
        }
    );
}
