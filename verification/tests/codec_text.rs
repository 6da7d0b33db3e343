use icao_units::codec::DecodeError;
use icao_units::si::{Kelvin, Metres, Pascals};

#[test]
fn test_decode_exact_values() {
    // Decoding reads the nearest binary64 value of the numeral.
    assert_eq!(Metres::from_text("1.5").unwrap().0, 1.5f64.to_bits());
    assert_eq!(Metres::from_text("0").unwrap().0, 0.0f64.to_bits());
    assert_eq!(Metres::from_text("-0").unwrap().0, (-0.0f64).to_bits());
    assert_eq!(Metres::from_text("1852").unwrap().0, 1852.0f64.to_bits());
    assert_eq!(Metres::from_text("0.3048").unwrap().0, 0.3048f64.to_bits());
    assert_eq!(Metres::from_text("-2.5e3").unwrap().0, (-2500.0f64).to_bits());
    assert_eq!(Metres::from_text("4E-2").unwrap().0, 0.04f64.to_bits());
    assert_eq!(Metres::from_text("0.1").unwrap().0, 0.1f64.to_bits());
    assert_eq!(
        Metres::from_text("0.51444444444444448").unwrap().0,
        (1852.0f64 / 3600.0).to_bits(),
    );
}

#[test]
fn test_decode_refuses_text_outside_the_grammar() {
    for text in [
        "junk", "", " 1", "1 ", "+1", "--1", "-", ".5", "1.", "1.e3", "01", "-01", "0x10", "1e",
        "1e+", "1e-", "e5", "NaN", "nan", "Inf", "inf", "1,5", "null", "\"1\"",
    ] {
        assert_eq!(Err(DecodeError), Metres::from_text(text));
        assert_eq!(Err(DecodeError), Kelvin::from_text(text));
    }
}

#[test]
fn test_decode_accepts_the_number_grammar() {
    for text in [
        "0", "-0", "7", "-7", "10", "1.5", "-1.5", "0.0001", "1e3", "1E3", "1e+3", "1e-3",
        "12.25e-2", "0e0", "9007199254740993", "1e400", "-1e400", "1e-400",
    ] {
        assert!(Pascals::from_text(text).is_ok(), "refused: {}", text);
    }
}

#[test]
fn test_decode_overflow_and_underflow() {
    // A numeral beyond the binary64 range reads as an infinity, one below
    // it as a zero, following round-to-nearest.
    assert_eq!(Metres::from_text("1e400").unwrap().0, f64::INFINITY.to_bits());
    assert_eq!(
        Metres::from_text("-1e400").unwrap().0,
        f64::NEG_INFINITY.to_bits(),
    );
    assert_eq!(Metres::from_text("1e-400").unwrap().0, 0.0f64.to_bits());
}

#[test]
fn test_encode_decode_identity() {
    // Decoding the encoded form of a value reproduces it exactly.
    for v in [
        0.0f64,
        -0.0,
        1.0,
        -1.0,
        0.5,
        1852.0,
        0.3048,
        1852.0 / 3600.0,
        123.456,
        -9.8765e-21,
        6.02214076e23,
        f64::MIN,
        f64::MAX,
        f64::MIN_POSITIVE,
        5e-324,
    ] {
        let m = Metres(v.to_bits());
        let text = m.to_text();
        let back = Metres::from_text(&text).unwrap();
        assert_eq!(m.0, back.0, "value {} through text {}", v, text);
    }
}

#[test]
fn test_encoded_text_is_a_plain_number() {
    // The encoded form of a finite value is a bare numeral that other JSON
    // readers take to the same value.
    for v in [0.0f64, 1.0, -1.0, 1852.0, 0.5, 100.0, -2.5e-8] {
        let text = Metres(v.to_bits()).to_text();
        let read: f64 = serde_json::from_str(&text).unwrap();
        assert_eq!(v.to_bits(), read.to_bits(), "text {}", text);
    }
}

#[test]
fn test_decode_agrees_with_other_json_readers() {
    for text in ["0", "-0", "1.5", "-12.25e-2", "1852", "0.1"] {
        let ours = Metres::from_text(text).unwrap().0;
        let theirs: f64 = serde_json::from_str(text).unwrap();
        assert_eq!(ours, theirs.to_bits(), "text {}", text);
    }
}
