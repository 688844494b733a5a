use pslib::{
    ColorMode, Directive, Line, Rect, Scalar, Serialize, TransformLineOrigin, TransformOrigin,
};

fn num(v: f64) -> Scalar {
    Scalar::from_thousandths((v * 1000.0).round() as i64)
}

/// Walks the markup line by line and returns the depth of the graphics-state
/// stack at the end, or `None` if it ever fell below zero.
fn final_depth(markup: &str) -> Option<i64> {
    let mut depth: i64 = 0;
    for line in markup.lines() {
        if line == "gsave" {
            depth += 1;
        } else if line == "grestore" {
            depth -= 1;
        }
        if depth < 0 {
            return None;
        }
    }
    Some(depth)
}

fn count_lines(markup: &str, wanted: &str) -> usize {
    markup.lines().filter(|line| *line == wanted).count()
}

fn sample_rects() -> Vec<Rect> {
    let base = || Rect::new(num(155.0), num(155.0), num(100.0), num(100.0));
    vec![
        base(),
        base().fill_rgb(num(1.0), num(0.0), num(0.0)),
        base().stroke_rgb(num(2.0), num(0.0), num(0.0), num(0.0)),
        base().fill_cmyk(num(0.5), num(1.0), num(0.5), num(0.0)).stroke_cmyk(
            num(1.0),
            num(0.0),
            num(1.0),
            num(0.0),
            num(0.0),
        ),
        base().rotate(num(45.0)),
        base().scale(num(1.5), num(1.0)),
        base().rotate(num(0.0)),
        base().rotate(num(360.0)).scale(num(-1.0), num(1.0)),
        base()
            .fill_rgb(num(1.0), num(0.0), num(0.0))
            .rotate(num(45.0))
            .scale(num(1.5), num(1.0))
            .stroke_rgb(num(2.0), num(0.0), num(0.0), num(0.0)),
    ]
}

fn sample_lines() -> Vec<Line> {
    let base = || Line::new(num(100.0), num(100.0), num(100.0));
    vec![
        base(),
        base().stroke_rgb(num(0.0), num(0.0), num(0.0), num(0.0)),
        base().rotate(num(45.0)),
        base().rotate(num(-45.0)).scale(num(2.0), num(2.0)),
        base().scale(num(1.0), num(1.0)),
        base().rotate(num(360.0)),
        base().rotate(num(45.0)).set_orign(TransformLineOrigin::Left).stroke_cmyk(
            num(2.0),
            num(1.0),
            num(0.0),
            num(0.0),
            num(0.25),
        ),
    ]
}

#[test]
fn plain_rect_is_a_single_path() {
    let rect = Rect::new(num(50.0), num(100.0), num(400.0), num(100.0));
    assert_eq!(rect.to_postscript_string(), "-400 0 0 -100 400 0 0 100 50 100 rect\n");
}

#[test]
fn rect_with_fill_and_stroke() {
    let rect = Rect::new(num(0.0), num(0.0), num(100.0), num(100.0))
        .fill_rgb(num(1.0), num(0.0), num(0.0))
        .stroke_rgb(num(2.0), num(0.0), num(0.0), num(0.0));
    assert_eq!(
        rect.to_postscript_string(),
        "-100 0 0 -100 100 0 0 100 0 0 rect\n\
         gsave\n1 0 0 setrgbcolor\nfill\ngrestore\n\
         gsave\n2 setlinewidth\n0 0 0 setrgbcolor\nstroke\ngrestore\n"
    );
}

#[test]
fn rect_with_every_attribute() {
    let rect = Rect::new(num(155.0), num(155.0), num(100.0), num(100.0))
        .fill_rgb(num(1.0), num(0.0), num(0.0))
        .rotate(num(45.0))
        .scale(num(1.5), num(1.0))
        .stroke_rgb(num(2.0), num(0.0), num(0.0), num(0.0));
    assert_eq!(
        rect.to_postscript_string(),
        "gsave\n205 205 translate\n45 rotate\n1.5 1 scale\n-205 -205 translate\n\
         -100 0 0 -100 100 0 0 100 155 155 rect\n\
         gsave\n1 0 0 setrgbcolor\nfill\ngrestore\n\
         gsave\n2 setlinewidth\n0 0 0 setrgbcolor\nstroke\ngrestore\n\
         grestore\n"
    );
}

#[test]
fn rect_with_cmyk_stroke() {
    let rect = Rect::new(num(50.0), num(100.0), num(400.0), num(100.0)).stroke_cmyk(
        num(2.0),
        num(0.0),
        num(1.0),
        num(0.0),
        num(0.0),
    );
    assert_eq!(
        rect.to_postscript_string(),
        "-400 0 0 -100 400 0 0 100 50 100 rect\n\
         gsave\n2 setlinewidth\n0 1 0 0 setcmykcolor\nstroke\ngrestore\n"
    );
}

#[test]
fn rect_directives_in_order() {
    let rect = Rect::new(num(10.0), num(20.0), num(30.0), num(40.0))
        .scale(num(-1.0), num(0.5))
        .fill_cmyk(num(0.1), num(0.2), num(0.3), num(0.4));
    assert_eq!(
        rect.directives(),
        vec![
            Directive::Save,
            Directive::Translate { x: num(25.0), y: num(40.0) },
            Directive::Scale { x: num(-1.0), y: num(0.5) },
            Directive::TranslateBack { x: num(25.0), y: num(40.0) },
            Directive::RectPath { x: num(10.0), y: num(20.0), width: num(30.0), height: num(40.0) },
            Directive::Save,
            Directive::CmykColor { c: num(0.1), m: num(0.2), y: num(0.3), k: num(0.4) },
            Directive::Fill,
            Directive::Restore,
            Directive::Restore,
        ]
    );
}

#[test]
fn rect_anchor_follows_the_origin() {
    let base = || Rect::new(num(10.0), num(20.0), num(30.0), num(41.0)).scale(num(2.0), num(2.0));
    let anchor = |origin: TransformOrigin| base().set_orign(origin).directives()[1];
    assert_eq!(
        anchor(TransformOrigin::Center),
        Directive::Translate { x: num(25.0), y: num(40.5) }
    );
    assert_eq!(
        anchor(TransformOrigin::BottomLeft),
        Directive::Translate { x: num(10.0), y: num(20.0) }
    );
    assert_eq!(
        anchor(TransformOrigin::TopLeft),
        Directive::Translate { x: num(10.0), y: num(61.0) }
    );
    assert_eq!(
        anchor(TransformOrigin::TopRight),
        Directive::Translate { x: num(40.0), y: num(61.0) }
    );
    assert_eq!(
        anchor(TransformOrigin::BottomRight),
        Directive::Translate { x: num(40.0), y: num(20.0) }
    );
}

#[test]
fn line_anchor_follows_the_origin() {
    let base = || {
        Line::new(num(100.0), num(50.0), num(30.0))
            .stroke_rgb(num(3.0), num(0.0), num(0.0), num(0.0))
            .scale(num(2.0), num(2.0))
    };
    let anchor = |origin: TransformLineOrigin| base().set_orign(origin).directives()[1];
    assert_eq!(
        anchor(TransformLineOrigin::Left),
        Directive::Translate { x: num(100.0), y: num(51.5) }
    );
    assert_eq!(
        anchor(TransformLineOrigin::Center),
        Directive::Translate { x: num(115.0), y: num(51.5) }
    );
    assert_eq!(
        anchor(TransformLineOrigin::Right),
        Directive::Translate { x: num(130.0), y: num(51.5) }
    );
}

#[test]
fn half_of_an_odd_count_rounds_down() {
    let rect = Rect::new(num(0.0), num(0.0), num(0.001), num(0.003)).scale(num(1.0), num(1.0));
    assert_eq!(rect.directives()[1], Directive::Translate { x: num(0.0), y: num(0.001) });
}

#[test]
fn anchor_saturates_at_the_largest_scalar() {
    let big = Scalar::from_thousandths(i64::MAX);
    let rect = Rect::new(big, big, big, big)
        .set_orign(TransformOrigin::TopRight)
        .scale(num(1.0), num(1.0));
    assert_eq!(rect.directives()[1], Directive::Translate { x: big, y: big });
}

#[test]
fn new_line_is_stroked_black_one_unit_wide() {
    let line = Line::new(num(100.0), num(100.0), num(100.0));
    assert_eq!(
        line.to_postscript_string(),
        "100 0 100 100 line\ngsave\n1 setlinewidth\n0 0 0 setrgbcolor\nstroke\ngrestore\n"
    );
}

#[test]
fn line_without_width_is_not_stroked() {
    let line = Line::new(num(1.0), num(2.0), num(3.0)).stroke_rgb(
        num(0.0),
        num(1.0),
        num(1.0),
        num(1.0),
    );
    assert_eq!(line.to_postscript_string(), "3 0 1 2 line\n");
}

#[test]
fn rotated_line_about_its_left_end() {
    let line = Line::new(num(100.0), num(100.0), num(100.0))
        .rotate(num(45.0))
        .set_orign(TransformLineOrigin::Left)
        .stroke_cmyk(num(2.0), num(1.0), num(0.0), num(0.0), num(0.25));
    assert_eq!(
        line.to_postscript_string(),
        "gsave\n100 101 translate\n45 rotate\n-100 -101 translate\n\
         100 0 100 100 line\n\
         gsave\n2 setlinewidth\n1 0 0 0.25 setcmykcolor\nstroke\ngrestore\n\
         grestore\n"
    );
}

#[test]
fn line_rotated_by_a_negative_angle() {
    let line = Line::new(num(0.0), num(0.0), num(10.0))
        .stroke_rgb(num(0.0), num(0.0), num(0.0), num(0.0))
        .rotate(num(-90.0));
    assert_eq!(
        line.to_postscript_string(),
        "gsave\n5 0 translate\n-90 rotate\n-5 -0 translate\n10 0 0 0 line\ngrestore\n"
    );
}

#[test]
fn negative_geometry_is_raised_to_zero() {
    let rect = Rect::new(num(-5.0), num(-0.001), num(-400.0), num(100.0));
    let config = rect.config();
    assert_eq!(config.x, num(0.0));
    assert_eq!(config.y, num(0.0));
    assert_eq!(config.width, num(0.0));
    assert_eq!(config.height, num(100.0));
    let line = Line::new(num(-1.0), num(2.0), num(-3.0));
    let config = line.config();
    assert_eq!(config.x, num(0.0));
    assert_eq!(config.y, num(2.0));
    assert_eq!(config.length, num(0.0));
}

#[test]
fn every_save_has_its_restore() {
    for rect in sample_rects() {
        let markup = rect.to_postscript_string();
        assert_eq!(final_depth(&markup), Some(0), "{markup}");
        assert_eq!(count_lines(&markup, "gsave"), count_lines(&markup, "grestore"));
    }
    for line in sample_lines() {
        let markup = line.to_postscript_string();
        assert_eq!(final_depth(&markup), Some(0), "{markup}");
        assert_eq!(count_lines(&markup, "gsave"), count_lines(&markup, "grestore"));
    }
}

#[test]
fn no_transform_means_no_outer_frame() {
    let rect = Rect::new(num(1.0), num(1.0), num(1.0), num(1.0));
    assert_eq!(count_lines(&rect.to_postscript_string(), "gsave"), 0);
    let scaled = rect.scale(num(1.0), num(1.0));
    assert_eq!(
        scaled.to_postscript_string(),
        "gsave\n1.5 1.5 translate\n1 1 scale\n-1.5 -1.5 translate\n-1 0 0 -1 1 0 0 1 1 1 rect\ngrestore\n"
    );
}

#[test]
fn color_channels_are_limited_to_the_unit_range() {
    let inputs = [-1.0e9, -1.0, -0.001, 0.0, 0.25, 1.0, 1.001, 7.0, 1.0e9];
    for &a in &inputs {
        for &b in &inputs {
            let rect = Rect::new(num(0.0), num(0.0), num(1.0), num(1.0))
                .fill_rgb(num(a), num(b), num(a))
                .stroke_cmyk(num(1.0), num(b), num(a), num(b), num(a));
            for directive in rect.directives() {
                let channels = match directive {
                    Directive::RgbColor { r, g, b } => vec![r, g, b],
                    Directive::CmykColor { c, m, y, k } => vec![c, m, y, k],
                    _ => vec![],
                };
                for channel in channels {
                    let t = channel.to_thousandths();
                    assert!((0..=1000).contains(&t), "{t}");
                }
            }
        }
    }
}

#[test]
fn clamped_channels_are_emitted() {
    let rect = Rect::new(num(0.0), num(0.0), num(1.0), num(1.0)).fill_rgb(
        num(-3.0),
        num(0.5),
        num(2.0),
    );
    assert_eq!(
        rect.to_postscript_string(),
        "-1 0 0 -1 1 0 0 1 0 0 rect\ngsave\n0 0.5 1 setrgbcolor\nfill\ngrestore\n"
    );
    assert_eq!(
        ColorMode::cmyk(num(1.5), num(-0.5), num(0.123), num(1.0)),
        ColorMode::CMYK { c: num(1.0), m: num(0.0), y: num(0.123), k: num(1.0) }
    );
    assert_eq!(
        (ColorMode::RGB { r: num(9.0), g: num(0.0), b: num(-9.0) }).clamp(),
        ColorMode::RGB { r: num(1.0), g: num(0.0), b: num(0.0) }
    );
}

#[test]
fn rotation_is_limited_to_a_full_turn() {
    let inputs = [-1.0e6, -720.0, -360.001, -360.0, -359.999, -90.0, 0.0, 0.001, 45.0, 360.0, 361.0];
    for &angle in &inputs {
        let rect = Rect::new(num(0.0), num(0.0), num(1.0), num(1.0)).rotate(num(angle));
        let line = Line::new(num(0.0), num(0.0), num(1.0)).rotate(num(angle));
        let mut all = rect.directives();
        all.extend(line.directives());
        for directive in all {
            if let Directive::Rotate { angle } = directive {
                let t = angle.to_thousandths();
                assert!((-360_000..=360_000).contains(&t));
                assert!(t != 0 && t != 360_000 && t != -360_000);
            }
        }
    }
}

#[test]
fn idle_rotations_emit_no_rotate() {
    for angle in [0.0, 360.0, -360.0, 400.0, -1000.0] {
        let rect = Rect::new(num(0.0), num(0.0), num(2.0), num(2.0)).rotate(num(angle));
        assert_eq!(
            rect.to_postscript_string(),
            "gsave\n1 1 translate\n-1 -1 translate\n-2 0 0 -2 2 0 0 2 0 0 rect\ngrestore\n"
        );
        let line = Line::new(num(0.0), num(0.0), num(2.0)).rotate(num(angle));
        assert!(!line.to_postscript_string().contains("rotate"));
    }
    let rect = Rect::new(num(0.0), num(0.0), num(2.0), num(2.0)).rotate(num(359.999));
    assert!(rect.to_postscript_string().contains("359.999 rotate\n"));
}

#[test]
fn serialising_twice_gives_the_same_markup() {
    for rect in sample_rects() {
        assert_eq!(rect.to_postscript_string(), rect.to_postscript_string());
        let copy = rect;
        assert_eq!(rect.to_postscript_string(), copy.to_postscript_string());
    }
    for line in sample_lines() {
        assert_eq!(line.to_postscript_string(), line.to_postscript_string());
    }
}

#[test]
fn what_was_set_is_read_back_clamped() {
    let rect = Rect::new(num(1.0), num(2.0), num(3.0), num(4.0))
        .fill_rgb(num(2.0), num(-1.0), num(0.5))
        .stroke_cmyk(num(-4.0), num(0.1), num(1.1), num(-0.1), num(1.0))
        .rotate(num(720.0))
        .scale(num(-2.0), num(3.0))
        .set_orign(TransformOrigin::TopRight);
    let config = rect.config();
    assert_eq!(config.fill, Some(ColorMode::RGB { r: num(1.0), g: num(0.0), b: num(0.5) }));
    assert_eq!(config.stroke_width, num(0.0));
    assert_eq!(
        config.stroke_color,
        ColorMode::CMYK { c: num(0.1), m: num(1.0), y: num(0.0), k: num(1.0) }
    );
    assert_eq!(config.transform.rotation, Some(num(360.0)));
    assert_eq!(config.transform.scale, Some((num(-2.0), num(3.0))));
    assert_eq!(config.origin, TransformOrigin::TopRight);

    let line = Line::new(num(1.0), num(2.0), num(3.0))
        .stroke_rgb(num(5.0), num(2.0), num(0.5), num(-2.0))
        .rotate(num(-361.0))
        .scale(num(0.0), num(0.0))
        .set_orign(TransformLineOrigin::Right);
    let config = line.config();
    assert_eq!(config.stroke_width, num(5.0));
    assert_eq!(config.stroke_color, ColorMode::RGB { r: num(1.0), g: num(0.5), b: num(0.0) });
    assert_eq!(config.transform.rotation, Some(num(-360.0)));
    assert_eq!(config.transform.scale, Some((num(0.0), num(0.0))));
    assert_eq!(config.origin, TransformLineOrigin::Right);
}

#[test]
fn scale_of_one_differs_from_no_scale() {
    let plain = Rect::new(num(0.0), num(0.0), num(1.0), num(1.0));
    let scaled = plain.scale(num(1.0), num(1.0));
    assert_eq!(plain.config().transform.scale, None);
    assert_eq!(scaled.config().transform.scale, Some((num(1.0), num(1.0))));
    assert!(plain.to_postscript_string() != scaled.to_postscript_string());
}

#[test]
fn later_color_replaces_the_earlier_space() {
    let rect = Rect::new(num(0.0), num(0.0), num(1.0), num(1.0))
        .fill_cmyk(num(1.0), num(1.0), num(1.0), num(1.0))
        .fill_rgb(num(0.0), num(1.0), num(0.0));
    let markup = rect.to_postscript_string();
    assert!(markup.contains("0 1 0 setrgbcolor\n"));
    assert!(!markup.contains("setcmykcolor"));
}

#[test]
fn directives_render_to_the_markup() {
    for rect in sample_rects() {
        let mut out = String::from("% before\n");
        pslib::directive::write_directives(&rect.directives(), &mut out);
        assert_eq!(out, format!("% before\n{}", rect.to_postscript_string()));
    }
}

#[test]
fn each_directive_writes_its_line() {
    let cases = [
        (Directive::Save, "gsave\n"),
        (Directive::Restore, "grestore\n"),
        (Directive::Translate { x: num(1.5), y: num(-2.0) }, "1.5 -2 translate\n"),
        (Directive::TranslateBack { x: num(1.5), y: num(0.0) }, "-1.5 -0 translate\n"),
        (Directive::Rotate { angle: num(-45.0) }, "-45 rotate\n"),
        (Directive::Scale { x: num(-1.0), y: num(0.5) }, "-1 0.5 scale\n"),
        (
            Directive::RectPath { x: num(1.0), y: num(2.0), width: num(3.0), height: num(4.0) },
            "-3 0 0 -4 3 0 0 4 1 2 rect\n",
        ),
        (Directive::LinePath { x: num(1.0), y: num(2.0), length: num(3.0) }, "3 0 1 2 line\n"),
        (Directive::LineWidth { width: num(0.5) }, "0.5 setlinewidth\n"),
        (Directive::RgbColor { r: num(1.0), g: num(0.5), b: num(0.0) }, "1 0.5 0 setrgbcolor\n"),
        (
            Directive::CmykColor { c: num(0.1), m: num(0.2), y: num(0.3), k: num(0.4) },
            "0.1 0.2 0.3 0.4 setcmykcolor\n",
        ),
        (Directive::Fill, "fill\n"),
        (Directive::Stroke, "stroke\n"),
    ];
    for (directive, expected) in cases {
        let mut out = String::new();
        directive.write_to(&mut out);
        assert_eq!(out, expected);
    }
}

#[test]
fn color_emits_the_operator_of_its_space() {
    assert_eq!(
        ColorMode::rgb(num(0.1), num(0.2), num(0.3)).emit(),
        Directive::RgbColor { r: num(0.1), g: num(0.2), b: num(0.3) }
    );
    assert_eq!(
        ColorMode::cmyk(num(0.1), num(0.2), num(0.3), num(0.4)).emit(),
        Directive::CmykColor { c: num(0.1), m: num(0.2), y: num(0.3), k: num(0.4) }
    );
}
