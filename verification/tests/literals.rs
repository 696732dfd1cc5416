//! The canonical text of literals.

use markup_syntax::{AngularUnit, LengthUnit, Lit, LitKind, Numeral, Pos, Printer, RgbaColor, Span};

fn written(kind: LitKind) -> String {
    let mut p = Printer::new();
    kind.pretty(&mut p);
    p.finish()
}

fn num(v: f64) -> Numeral {
    Numeral::new(ryu::Buffer::new().format(v)).unwrap()
}

#[test]
fn none_and_booleans() {
    assert_eq!(written(LitKind::NoneLit), "none");
    assert_eq!(written(LitKind::Bool(true)), "true");
    assert_eq!(written(LitKind::Bool(false)), "false");
}

#[test]
fn integers_are_plain_decimal() {
    assert_eq!(written(LitKind::Int(0)), "0");
    assert_eq!(written(LitKind::Int(7)), "7");
    assert_eq!(written(LitKind::Int(10)), "10");
    assert_eq!(written(LitKind::Int(120)), "120");
    assert_eq!(written(LitKind::Int(-1)), "-1");
    assert_eq!(written(LitKind::Int(-1000)), "-1000");
    assert_eq!(written(LitKind::Int(i64::MAX)), "9223372036854775807");
    assert_eq!(written(LitKind::Int(i64::MIN)), "-9223372036854775808");
}

#[test]
fn integers_match_the_standard_formatting() {
    for v in [0i64, 1, 9, 10, 11, 99, 100, 101, 12345, -5, -10, -99999, i64::MAX - 1, i64::MIN + 1]
    {
        assert_eq!(written(LitKind::Int(v)), format!("{}", v));
    }
}

#[test]
fn floats_are_shortest_numerals() {
    assert_eq!(written(LitKind::Float(num(3.14))), "3.14");
    assert_eq!(written(LitKind::Float(num(1.0))), "1.0");
    assert_eq!(written(LitKind::Float(num(0.0))), "0.0");
    assert_eq!(written(LitKind::Float(num(-0.5))), "-0.5");
    assert_eq!(written(LitKind::Float(num(0.1 + 0.2))), "0.30000000000000004");
    assert_eq!(written(LitKind::Float(num(1e21))), "1e21");
    assert_eq!(written(LitKind::Float(num(1.5e-7))), "1.5e-7");
    assert_eq!(written(LitKind::Float(num(f64::MAX))), "1.7976931348623157e308");
    assert_eq!(written(LitKind::Float(num(5e-324))), "5e-324");
}

#[test]
fn floats_read_back_as_the_same_number() {
    for v in [3.14f64, 10.0, 14.1, 20.0, -0.0, 1e300, 1.0 / 3.0, 123456.789e-20, f64::MIN_POSITIVE]
    {
        let text = written(LitKind::Float(num(v)));
        let back: f64 = text.parse().unwrap();
        assert_eq!(back.to_bits(), v.to_bits());
    }
}

#[test]
fn units_follow_without_a_space() {
    assert_eq!(written(LitKind::Length(num(12.0), LengthUnit::Pt)), "12.0pt");
    assert_eq!(written(LitKind::Length(num(2.5), LengthUnit::Mm)), "2.5mm");
    assert_eq!(written(LitKind::Length(num(3.0), LengthUnit::Cm)), "3.0cm");
    assert_eq!(written(LitKind::Length(num(1.0), LengthUnit::In)), "1.0in");
    assert_eq!(written(LitKind::Angle(num(90.0), AngularUnit::Deg)), "90.0deg");
    assert_eq!(written(LitKind::Angle(num(1.5), AngularUnit::Rad)), "1.5rad");
    assert_eq!(written(LitKind::Percent(num(50.0))), "50.0%");
    assert_eq!(written(LitKind::Percent(num(0.5))), "0.5%");
}

#[test]
fn unit_spellings() {
    assert_eq!(LengthUnit::Pt.as_str(), "pt");
    assert_eq!(LengthUnit::Mm.as_str(), "mm");
    assert_eq!(LengthUnit::Cm.as_str(), "cm");
    assert_eq!(LengthUnit::In.as_str(), "in");
    assert_eq!(AngularUnit::Deg.as_str(), "deg");
    assert_eq!(AngularUnit::Rad.as_str(), "rad");
}

#[test]
fn colors_are_six_hex_digits() {
    assert_eq!(written(LitKind::Color(RgbaColor::new(0xab, 0xcd, 0xef, 0xff))), "#abcdef");
    assert_eq!(written(LitKind::Color(RgbaColor::new(0, 0, 0, 0))), "#000000");
    assert_eq!(written(LitKind::Color(RgbaColor::new(255, 16, 9, 128))), "#ff1009");
    assert_eq!(written(LitKind::Color(RgbaColor::new(0x0a, 0xa0, 0x99, 1))), "#0aa099");
}

#[test]
fn color_channels_are_kept() {
    let color = RgbaColor::new(1, 2, 3, 4);
    assert_eq!((color.r, color.g, color.b, color.a), (1, 2, 3, 4));
    for v in 0..=255u8 {
        let text = written(LitKind::Color(RgbaColor::new(v, 255 - v, v, 255)));
        assert_eq!(text, format!("#{:02x}{:02x}{:02x}", v, 255 - v, v));
    }
}

#[test]
fn strings_escape_quotes_and_backslashes_only() {
    assert_eq!(written(LitKind::Str(String::new())), "\"\"");
    assert_eq!(written(LitKind::Str("hi".to_string())), "\"hi\"");
    assert_eq!(written(LitKind::Str("let's \" go".to_string())), "\"let's \\\" go\"");
    assert_eq!(written(LitKind::Str("a\\b".to_string())), "\"a\\\\b\"");
    assert_eq!(written(LitKind::Str("\\\"".to_string())), "\"\\\\\\\"\"");
    assert_eq!(written(LitKind::Str("a\nb\tc".to_string())), "\"a\nb\tc\"");
    assert_eq!(written(LitKind::Str("größe ✓".to_string())), "\"größe ✓\"");
}

#[test]
fn a_literal_is_written_as_its_kind() {
    let lit = Lit { span: Span::new(Pos(3), Pos(5)), kind: LitKind::Int(42) };
    let mut p = Printer::new();
    p.push_str("x = ");
    lit.pretty(&mut p);
    assert_eq!(p.finish(), "x = 42");
}

#[test]
fn numerals_are_accepted() {
    for text in [
        "3.14", "10.0", "0.0", "-0.0", "-0.5", "0.001234", "1e21", "1.234e21", "1e-7", "1.5e-7",
        "-2.5e-300", "12340000000.0", "1.7976931348623157e308",
    ] {
        let numeral = Numeral::new(text);
        assert!(numeral.is_some(), "{:?}", text);
        assert_eq!(numeral.unwrap().as_str(), text);
    }
}

#[test]
fn what_is_no_numeral_is_refused() {
    for text in [
        "", "-", "10", "-10", ".5", "5.", "1.", "1e", "1e-", "1.0e", "1.0e-", "1e+5", "1E5", "e5",
        "1.2.3", "1e5e5", "1e5.0", "--1.0", "+1.0", "1.0 ", " 1.0", "1,0", "1.0pt", "1_000.0",
        "inf", "-inf", "NaN", "nan", "0x1.0", "1.-5", "1e--5",
    ] {
        assert!(Numeral::new(text).is_none(), "{:?}", text);
    }
}

#[test]
fn values_that_are_not_finite_have_no_numeral() {
    for v in [f64::NAN, f64::INFINITY, f64::NEG_INFINITY] {
        assert!(Numeral::new(ryu::Buffer::new().format(v)).is_none());
    }
}

#[test]
fn every_finite_value_has_a_numeral() {
    let mut bits: u64 = 0x3ff0_0000_0000_0000;
    for _ in 0..2000 {
        bits = bits.wrapping_mul(6364136223846793005).wrapping_add(1442695040888963407);
        let v = f64::from_bits(bits);
        if v.is_finite() {
            let mut buffer = ryu::Buffer::new();
            let text = buffer.format(v);
            let numeral = Numeral::new(text);
            assert!(numeral.is_some(), "{:?}", text);
            assert_eq!(written(LitKind::Float(numeral.unwrap())), text);
        }
    }
}
