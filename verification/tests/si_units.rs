use icao_units::si::{
    Kelvin, Kilograms, KilogramsPerCubicMetre, Metres, MetresPerSecond, MetresPerSecondSquared,
    Pascals,
};

fn bits(v: f64) -> u64 {
    v.to_bits()
}

#[test]
fn test_metres() {
    let zero_m = Metres::default();
    assert_eq!(Metres(bits(0.0)), zero_m);
    let one_m = Metres(bits(1.0));
    let mut one_m_clone = one_m.clone();
    assert_eq!(one_m, one_m_clone);
    let two_m = Metres(bits(2.0));
    assert!(one_m < two_m);
    let minus_one_m = Metres(bits(-1.0));
    assert_eq!(minus_one_m, -one_m);

    assert_eq!(one_m, minus_one_m.abs());

    assert_eq!(minus_one_m, one_m - two_m);
    one_m_clone.sub_assign(two_m);
    assert_eq!(minus_one_m, one_m_clone);

    assert_eq!(one_m, minus_one_m + two_m);
    one_m_clone.add_assign(two_m);
    assert_eq!(one_m, one_m_clone);

    let serialized = one_m.to_text();
    let deserialized = Metres::from_text(&serialized).unwrap();
    assert_eq!(one_m, deserialized);

    let bad_text = "junk";
    let _decode_error = Metres::from_text(bad_text).unwrap_err();

    println!("Metres: {:?}", one_m);
}

#[test]
fn test_metres_per_second() {
    let zero_mps = MetresPerSecond::default();
    assert_eq!(MetresPerSecond(bits(0.0)), zero_mps);
    let one_mps = MetresPerSecond(bits(1.0));
    let mut one_mps_clone = one_mps.clone();
    assert_eq!(one_mps, one_mps_clone);
    let two_mps = MetresPerSecond(bits(2.0));
    assert!(one_mps < two_mps);
    let minus_one_mps = MetresPerSecond(bits(-1.0));
    assert_eq!(minus_one_mps, -one_mps);

    assert_eq!(one_mps, minus_one_mps.abs());

    assert_eq!(minus_one_mps, one_mps - two_mps);
    one_mps_clone.sub_assign(two_mps);
    assert_eq!(minus_one_mps, one_mps_clone);

    assert_eq!(one_mps, minus_one_mps + two_mps);
    one_mps_clone.add_assign(two_mps);
    assert_eq!(one_mps, one_mps_clone);

    let serialized = one_mps.to_text();
    let deserialized = MetresPerSecond::from_text(&serialized).unwrap();
    assert_eq!(one_mps, deserialized);

    let bad_text = "junk";
    let _decode_error = MetresPerSecond::from_text(bad_text).unwrap_err();

    println!("MetresPerSecond: {:?}", one_mps);
}

#[test]
fn test_metres_per_second_squared() {
    let zero_mps2 = MetresPerSecondSquared::default();
    assert_eq!(MetresPerSecondSquared(bits(0.0)), zero_mps2);
    let one_mps2 = MetresPerSecondSquared(bits(1.0));
    let one_mps2_clone = one_mps2.clone();
    assert_eq!(one_mps2, one_mps2_clone);
    let two_mps2 = MetresPerSecondSquared(bits(2.0));
    assert!(one_mps2 < two_mps2);

    let serialized = one_mps2.to_text();
    let deserialized = MetresPerSecondSquared::from_text(&serialized).unwrap();
    assert_eq!(one_mps2, deserialized);

    let bad_text = "junk";
    let _decode_error = MetresPerSecondSquared::from_text(bad_text).unwrap_err();

    println!("MetresPerSecondSquared: {:?}", one_mps2);
}

#[test]
fn test_kelvin() {
    let one_k = Kelvin(bits(1.0));
    let mut one_k_clone = one_k.clone();
    assert_eq!(one_k, one_k_clone);
    let two_k = Kelvin(bits(2.0));
    assert!(one_k < two_k);
    let minus_one_k = Kelvin(bits(-1.0));
    assert_eq!(minus_one_k, -one_k);

    assert_eq!(minus_one_k, one_k - two_k);
    one_k_clone.sub_assign(two_k);
    assert_eq!(minus_one_k, one_k_clone);

    assert_eq!(one_k, minus_one_k + two_k);
    one_k_clone.add_assign(two_k);
    assert_eq!(one_k, one_k_clone);

    let serialized = one_k.to_text();
    let deserialized = Kelvin::from_text(&serialized).unwrap();
    assert_eq!(one_k, deserialized);

    let bad_text = "junk";
    let _decode_error = Kelvin::from_text(bad_text).unwrap_err();

    println!("Kelvin: {:?}", one_k);
}

#[test]
fn test_pascals() {
    let one_pa = Pascals(bits(1.0));
    let one_pa_clone = one_pa.clone();
    assert_eq!(one_pa, one_pa_clone);
    let two_pa = Pascals(bits(2.0));
    assert!(one_pa < two_pa);

    let serialized = one_pa.to_text();
    let deserialized = Pascals::from_text(&serialized).unwrap();
    assert_eq!(one_pa, deserialized);

    let bad_text = "junk";
    let _decode_error = Pascals::from_text(bad_text).unwrap_err();

    println!("Pascals: {:?}", one_pa);
}

#[test]
fn test_kilograms() {
    let zero_kg = Kilograms::default();
    assert_eq!(Kilograms(bits(0.0)), zero_kg);
    let one_kg = Kilograms(bits(1.0));
    let mut one_kg_clone = one_kg.clone();
    assert_eq!(one_kg, one_kg_clone);
    let two_kg = Kilograms(bits(2.0));
    assert!(one_kg < two_kg);
    let minus_one_kg = Kilograms(bits(-1.0));
    assert_eq!(minus_one_kg, -one_kg);

    assert_eq!(minus_one_kg, one_kg - two_kg);
    one_kg_clone.sub_assign(two_kg);
    assert_eq!(minus_one_kg, one_kg_clone);

    assert_eq!(one_kg, minus_one_kg + two_kg);
    one_kg_clone.add_assign(two_kg);
    assert_eq!(one_kg, one_kg_clone);

    let serialized = one_kg.to_text();
    let deserialized = Kilograms::from_text(&serialized).unwrap();
    assert_eq!(one_kg, deserialized);

    let bad_text = "junk";
    let _decode_error = Kilograms::from_text(bad_text).unwrap_err();

    println!("Kilograms: {:?}", one_kg);
}

#[test]
fn test_kilograms_per_cubic_metre() {
    let one_kgm3 = KilogramsPerCubicMetre(bits(1.0));
    let one_kgm3_clone = one_kgm3.clone();
    assert_eq!(one_kgm3, one_kgm3_clone);
    let two_kgm3 = KilogramsPerCubicMetre(bits(2.0));
    assert!(one_kgm3 < two_kgm3);

    let serialized = one_kgm3.to_text();
    let deserialized = KilogramsPerCubicMetre::from_text(&serialized).unwrap();
    assert_eq!(one_kgm3, deserialized);

    let bad_text = "junk";
    let _decode_error = KilogramsPerCubicMetre::from_text(bad_text).unwrap_err();

    println!("KilogramsPerCubicMetre: {:?}", one_kgm3);
}

#[test]
fn test_metres_float_equality_semantics() {
    // Equality is binary64 value equality, not bit equality.
    let pos_zero = Metres(bits(0.0));
    let neg_zero = Metres(bits(-0.0));
    assert_eq!(pos_zero, neg_zero);

    let nan = Metres(f64::NAN.to_bits());
    assert_ne!(nan, nan);
    assert!(!(nan < pos_zero));
    assert!(!(nan > pos_zero));
    assert!(!(nan == pos_zero));
}

#[test]
fn test_metres_subtraction_scenario() {
    // 1 m - 2 m is -1 m, and compound subtraction of a mutable copy agrees.
    let one_m = Metres(bits(1.0));
    let two_m = Metres(bits(2.0));
    let minus_one_m = Metres(bits(-1.0));
    assert_eq!(minus_one_m, one_m - two_m);

    let mut copy_m = one_m;
    copy_m.sub_assign(two_m);
    assert_eq!(minus_one_m, copy_m);
    assert_eq!(copy_m.0, (one_m - two_m).0);
}

#[test]
fn test_metres_ordering_consistency() {
    // With a < b, a + c < b + c and -a > -b for ordinary values.
    let a = Metres(bits(1.0));
    let b = Metres(bits(2.0));
    let c = Metres(bits(3.5));
    assert!(a < b);
    assert!(a + c < b + c);
    assert!(-a > -b);
}

#[test]
fn test_metres_abs_law() {
    // abs(v) equals abs(-v) and wraps a non-negative value.
    for v in [0.0f64, -0.0, 1.5, -1.5, 1852.0, -4.25e-3, f64::INFINITY] {
        let m = Metres(v.to_bits());
        let neg_m = -m;
        assert_eq!(m.abs(), neg_m.abs());
        assert!(f64::from_bits(m.abs().0) >= 0.0);
    }
}
