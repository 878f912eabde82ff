use fast_floats::Fast;

#[test]
fn plain_form_is_that_of_the_scalar() {
    assert_eq!(format!("{}", Fast::new(1.5f64)), "1.5");
    assert_eq!(format!("{}", Fast::new(-0.0f64)), "-0");
    assert_eq!(format!("{}", Fast::new(2.0f32)), "2");
    assert_eq!(format!("{}", Fast::new(42u8)), "42");
}

#[test]
fn diagnostic_form_is_that_of_the_scalar() {
    assert_eq!(format!("{:?}", Fast::new(2.0f64)), "2.0");
    assert_eq!(format!("{:?}", Fast::new(-1.25f32)), "-1.25");
    assert_eq!(format!("{:?}", Fast::new(1e21f64)), "1e21");
}

#[test]
fn exponent_forms_are_those_of_the_scalar() {
    assert_eq!(format!("{:e}", Fast::new(1500.0f64)), "1.5e3");
    assert_eq!(format!("{:E}", Fast::new(1500.0f64)), "1.5E3");
    assert_eq!(format!("{:e}", Fast::new(0.00025f32)), "2.5e-4");
    assert_eq!(format!("{:E}", Fast::new(0.00025f32)), "2.5E-4");
}

#[test]
fn every_form_matches_the_scalar_on_all_values() {
    let values = [
        0.0f64,
        -0.0,
        1.0,
        -1234.5678,
        0.1,
        1e300,
        -1e-300,
        5e-324,
        f64::MAX,
        f64::MIN,
        f64::EPSILON,
        f64::INFINITY,
        f64::NEG_INFINITY,
        f64::NAN,
    ];
    for &v in values.iter() {
        let w = Fast::new(v);
        assert_eq!(format!("{}", w), format!("{}", v));
        assert_eq!(format!("{:?}", w), format!("{:?}", v));
        assert_eq!(format!("{:e}", w), format!("{:e}", v));
        assert_eq!(format!("{:E}", w), format!("{:E}", v));
    }
    let values = [0.0f32, -7.5, 3.4e38, 1e-40, f32::INFINITY, f32::NAN];
    for &v in values.iter() {
        let w = Fast::new(v);
        assert_eq!(format!("{}", w), format!("{}", v));
        assert_eq!(format!("{:?}", w), format!("{:?}", v));
        assert_eq!(format!("{:e}", w), format!("{:e}", v));
        assert_eq!(format!("{:E}", w), format!("{:E}", v));
    }
}

#[test]
fn width_precision_and_flags_reach_the_scalar() {
    let v = 3.14159f64;
    let w = Fast::new(v);
    assert_eq!(format!("{:.2}", w), "3.14");
    assert_eq!(format!("{:8.3}", w), "   3.142");
    assert_eq!(format!("{:<8.1}|", w), "3.1     |");
    assert_eq!(format!("{:+}", w), "+3.14159");
    assert_eq!(format!("{:08.2}", w), "00003.14");
    assert_eq!(format!("{:.3e}", w), "3.142e0");
    assert_eq!(format!("{:.1E}", Fast::new(12345.0f64)), "1.2E4");
    assert_eq!(format!("{:10?}|", Fast::new(1.0f64)), format!("{:10?}|", 1.0f64));
}

#[test]
fn text_of_a_result_is_text_of_the_scalar_result() {
    let r = Fast::new(0.1f64) + Fast::new(0.2f64);
    assert_eq!(format!("{}", r), format!("{}", 0.1f64 + 0.2f64));
    assert_eq!(format!("{:?}", r), format!("{:?}", 0.1f64 + 0.2f64));
}
