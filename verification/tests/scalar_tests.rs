use csf_retarget::csf::Csf;
use csf_retarget::scalar::Scalar;

fn scalar(x: f32) -> Scalar {
    Scalar::from_bits(x.to_bits())
}

fn csf(a: f32, omega: f32, sigma: f32, k: f32) -> Csf {
    Csf { a: scalar(a), omega: scalar(omega), sigma: scalar(sigma), k: scalar(k) }
}

fn samples() -> Vec<f32> {
    vec![
        0.0,
        -0.0,
        1.0,
        -1.0,
        0.71,
        1.787,
        2.2,
        7.22,
        50.0,
        1.0e10,
        -1.0e10,
        f32::MIN_POSITIVE,
        f32::MIN_POSITIVE / 2.0,
        -f32::MIN_POSITIVE / 2.0,
        f32::MAX,
        f32::MIN,
        f32::INFINITY,
        f32::NEG_INFINITY,
        f32::NAN,
        -f32::NAN,
        f32::from_bits(0x7f80_0001),
        f32::from_bits(0xffff_ffff),
    ]
}

#[test]
fn test_eq() {
    let csf = csf(90.0, 32.0, 93.0, 10000000000.0);
    assert_eq!(csf, csf.clone());
}

#[test]
fn scalar_round_trips_its_bits() {
    for x in samples() {
        assert_eq!(scalar(x).to_bits(), x.to_bits());
        assert_eq!(scalar(x).bits, x.to_bits());
    }
    assert_eq!(scalar(50.0).to_bits(), 0x4248_0000);
    assert_eq!(scalar(0.0).to_bits(), 0);
}

#[test]
fn scalar_equality_is_equality_of_the_numbers() {
    for x in samples() {
        for y in samples() {
            assert_eq!(scalar(x) == scalar(y), x == y);
            assert_eq!(scalar(x) != scalar(y), x != y);
        }
    }
}

#[test]
fn scalar_zeros_of_both_signs_are_equal() {
    assert!(scalar(0.0) == scalar(-0.0));
    assert_ne!(scalar(0.0).to_bits(), scalar(-0.0).to_bits());
}

#[test]
fn scalar_nan_equals_nothing() {
    assert!(scalar(f32::NAN) != scalar(f32::NAN));
    assert!(scalar(f32::NAN) != scalar(1.0));
}

#[test]
fn scalar_classes_are_those_of_the_numbers() {
    for x in samples() {
        assert_eq!(scalar(x).nan(), x.is_nan());
        assert_eq!(scalar(x).finite(), x.is_finite());
        assert_eq!(scalar(x).zero(), x == 0.0);
    }
}

#[test]
fn csf_equality_is_field_by_field() {
    let base = csf(1.787, 7.22, 2.2, 0.71);
    assert!(base == csf(1.787, 7.22, 2.2, 0.71));
    assert!(base != csf(1.788, 7.22, 2.2, 0.71));
    assert!(base != csf(1.787, 7.23, 2.2, 0.71));
    assert!(base != csf(1.787, 7.22, 2.3, 0.71));
    assert!(base != csf(1.787, 7.22, 2.2, 0.72));
    assert!(csf(0.0, 7.22, 2.2, 0.71) == csf(-0.0, 7.22, 2.2, 0.71));
    let nan = csf(f32::NAN, 7.22, 2.2, 0.71);
    assert!(nan != nan.clone());
}

#[test]
fn csf_validity_needs_finite_fields_and_nonzero_rolloffs() {
    assert!(csf(1.787, 7.22, 2.2, 0.71).valid());
    assert!(csf(0.0, 7.22, 2.2, 0.0).valid());
    assert!(csf(90.0, 32.0, 93.0, 10000000000.0).valid());
    assert!(!csf(1.787, 0.0, 2.2, 0.71).valid());
    assert!(!csf(1.787, -0.0, 2.2, 0.71).valid());
    assert!(!csf(1.787, 7.22, 0.0, 0.71).valid());
    assert!(!csf(f32::NAN, 7.22, 2.2, 0.71).valid());
    assert!(!csf(1.787, f32::INFINITY, 2.2, 0.71).valid());
    assert!(!csf(1.787, 7.22, f32::NEG_INFINITY, 0.71).valid());
    assert!(!csf(1.787, 7.22, 2.2, f32::NAN).valid());
}
