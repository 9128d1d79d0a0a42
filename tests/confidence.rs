use nllb::confidence::{Confidence, INFINITY_BITS, NEGATIVE_ZERO_BITS, ZERO_BITS};

#[test]
fn scores_keep_their_encoding() {
    for x in [0.0f64, 0.25, 0.5, 0.92, 1.0, 1.00001] {
        assert_eq!(Confidence::from_bits(x.to_bits()).unwrap().bits(), x.to_bits());
    }
    assert_eq!(Confidence::from_bits(INFINITY_BITS).unwrap().bits(), f64::INFINITY.to_bits());
}

#[test]
fn negative_zero_reads_as_zero() {
    assert_eq!(NEGATIVE_ZERO_BITS, (-0.0f64).to_bits());
    assert_eq!(Confidence::from_bits((-0.0f64).to_bits()), Some(Confidence::zero()));
    assert_eq!(Confidence::zero().bits(), ZERO_BITS);
}

#[test]
fn negative_and_nan_are_no_scores() {
    assert_eq!(Confidence::from_bits((-0.5f64).to_bits()), None);
    assert_eq!(Confidence::from_bits(f64::NAN.to_bits()), None);
    assert_eq!(Confidence::from_bits(f64::NEG_INFINITY.to_bits()), None);
}

#[test]
fn comparisons_follow_numeric_order() {
    let values = [0.0f64, 1e-300, 0.1, 0.3, 0.5, 0.5000001, 0.9, 1.0, 2.5];
    for &a in &values {
        for &b in &values {
            let ca = Confidence::from_bits(a.to_bits()).unwrap();
            let cb = Confidence::from_bits(b.to_bits()).unwrap();
            assert_eq!(ca.at_least(&cb), a >= b, "{a} >= {b}");
            assert_eq!(ca.at_most(&cb), a <= b, "{a} <= {b}");
        }
    }
}
