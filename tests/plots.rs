use criterion_plot::candlestick::{self, Candlesticks};
use criterion_plot::filledcurve::{self, FilledCurve};
use criterion_plot::figure::Figure;
use criterion_plot::number::Decimal;
use criterion_plot::style::{Axes, Axis, Color, LineType};

fn dec(s: &str) -> Decimal {
    Decimal::parse(s).unwrap()
}

#[test]
fn candlestick_default_script() {
    let p = candlestick::Properties::default();
    assert_eq!(p.script(), "with candlesticks lt 1 notitle");
}

#[test]
fn candlestick_full_script() {
    let mut p = candlestick::Properties::default();
    p.line_type(LineType::Dash)
        .line_width(dec("2.5"))
        .color(Color::Rgb(255, 0, 16))
        .label("high/low");
    assert_eq!(
        p.script(),
        "with candlesticks lt 2 lw 2.5 lc rgb '#ff0010' title 'high/low'"
    );
}

#[test]
fn line_width_directive_is_exact() {
    for w in ["0.5", "1", "3.25", "10"] {
        let mut p = candlestick::Properties::default();
        p.line_width(dec(w));
        assert!(p.script().contains(&format!("lw {} ", w)));
    }
}

#[test]
fn line_type_numbers() {
    let cases = [
        (LineType::Dash, "2"),
        (LineType::Dot, "3"),
        (LineType::DotDash, "4"),
        (LineType::DotDotDash, "5"),
        (LineType::SmallDot, "0"),
        (LineType::Solid, "1"),
    ];
    for (lt, s) in cases {
        assert_eq!(lt.display(), s);
    }
}

#[test]
fn color_names() {
    assert_eq!(Color::Green.display(), "web-green");
    assert_eq!(Color::DarkViolet.display(), "dark-violet");
    assert_eq!(Color::Rgb(0, 171, 9).display(), "#00ab09");
}

#[test]
fn filled_curve_default_script() {
    let p = filledcurve::Properties::default();
    assert_eq!(p.script(), "with filledcurves fillstyle noborder notitle");
}

#[test]
fn filled_curve_full_script() {
    let mut p = filledcurve::Properties::default();
    p.axes(Axes::TopXRightY)
        .opacity(dec("0.25"))
        .color(Color::Red)
        .label("band");
    assert_eq!(
        p.script(),
        "axes x2y2 with filledcurves fillstyle solid 0.25 noborder lc rgb 'red' title 'band'"
    );
}

#[test]
fn opacity_directive_is_exact() {
    for o in ["0", "0.5", "1", "1.0", "-0"] {
        let d = dec(o);
        assert!(d.in_unit_interval());
        let mut p = filledcurve::Properties::default();
        p.opacity(d);
        assert!(p.script().contains(&format!("solid {} ", o)));
    }
}

#[test]
fn candlestick_zip_truncates_to_shortest() {
    let c = Candlesticks {
        x: vec![1.0, 2.0, 3.0],
        whisker_min: vec![0.0, 0.0],
        box_min: vec![0.5, 0.5, 0.5],
        box_high: vec![2.0, 2.0, 2.0],
        whisker_high: vec![3.0, 3.0, 3.0],
    };
    let rows = c.rows();
    assert_eq!(rows.len(), 2);
    assert_eq!(rows[0], vec![1.0, 0.5, 0.0, 3.0, 2.0]);
    assert_eq!(rows[1], vec![2.0, 0.5, 0.0, 3.0, 2.0]);
}

#[test]
fn candlestick_plot_uses_bottom_left_axes() {
    let mut fig: Figure<f64> = Figure::new();
    let c = Candlesticks {
        x: vec![1.0, 2.0, 3.0],
        whisker_min: vec![0.0, 0.0],
        box_min: vec![0.5, 0.5, 0.5],
        box_high: vec![2.0, 2.0, 2.0],
        whisker_high: vec![3.0, 3.0, 3.0],
    };
    let mut p = candlestick::Properties::default();
    p.color(Color::Blue);
    fig.plot_candlesticks(c, &p);
    assert_eq!(fig.plots.len(), 1);
    let plot = &fig.plots[0];
    assert_eq!(plot.data.rows.len(), 2);
    assert_eq!(
        plot.data.scales,
        vec![Axis::BottomX, Axis::LeftY, Axis::LeftY, Axis::LeftY, Axis::LeftY]
    );
    assert_eq!(plot.script, "with candlesticks lt 1 lc rgb 'blue' notitle");
}

#[test]
fn filled_curve_scales_follow_configured_axes() {
    let mut fig: Figure<f64> = Figure::new();
    let fc = FilledCurve {
        x: vec![0.0, 1.0, 2.0, 3.0],
        y1: vec![1.0, 2.0, 3.0],
        y2: vec![4.0, 5.0, 6.0, 7.0],
    };
    let mut p = filledcurve::Properties::default();
    p.axes(Axes::TopXRightY);
    fig.plot_filled_curve(fc, &p);
    let plot = &fig.plots[0];
    assert_eq!(plot.data.scales, vec![Axis::TopX, Axis::RightY, Axis::RightY]);
    assert_eq!(plot.data.rows.len(), 3);
    assert_eq!(plot.data.rows[2], vec![2.0, 3.0, 6.0]);
}

#[test]
fn filled_curve_default_axes_are_bottom_left() {
    let mut fig: Figure<f64> = Figure::new();
    let fc = FilledCurve { x: vec![0.0], y1: vec![1.0], y2: vec![2.0] };
    let p = filledcurve::Properties::default();
    fig.plot_filled_curve(fc, &p);
    assert_eq!(fig.plots[0].data.scales, vec![Axis::BottomX, Axis::LeftY, Axis::LeftY]);
}

#[test]
fn properties_script_twice_is_identical() {
    let mut c = candlestick::Properties::default();
    c.line_width(dec("1.5")).label("a");
    assert_eq!(c.script(), c.script());
    let mut f = filledcurve::Properties::default();
    f.opacity(dec("0.3")).color(Color::Gold);
    assert_eq!(f.script(), f.script());
}

#[test]
fn decimal_parse_accepts_literals() {
    for s in ["0", "12", "1.5", "-3.25", "-0", "007.100"] {
        let d = Decimal::parse(s).unwrap();
        assert_eq!(d.display(), s);
    }
}

#[test]
fn decimal_parse_rejects_other_text() {
    for s in ["", "-", ".5", "1.", "1.2.3", "abc", "1e5", "+1", "--1", "inf", "NaN"] {
        assert!(Decimal::parse(s).is_none(), "{}", s);
    }
}

#[test]
fn decimal_positivity() {
    assert!(dec("0.001").is_positive());
    assert!(dec("2").is_positive());
    assert!(!dec("0").is_positive());
    assert!(!dec("0.000").is_positive());
    assert!(!dec("-1").is_positive());
    assert!(!dec("-0").is_positive());
}

#[test]
fn decimal_unit_interval() {
    assert!(dec("0").in_unit_interval());
    assert!(dec("0.999").in_unit_interval());
    assert!(dec("1").in_unit_interval());
    assert!(dec("01.000").in_unit_interval());
    assert!(dec("-0.0").in_unit_interval());
    assert!(!dec("1.01").in_unit_interval());
    assert!(!dec("2").in_unit_interval());
    assert!(!dec("10").in_unit_interval());
    assert!(!dec("-0.1").in_unit_interval());
}
