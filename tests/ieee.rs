use statrs::ieee::Double;
use statrs::statistics::IterStatistics;

fn d(x: f64) -> Double {
    Double::from_bits(x.to_bits())
}

fn f(x: Double) -> f64 {
    f64::from_bits(x.to_bits())
}

fn data(xs: &[f64]) -> Vec<Double> {
    xs.iter().map(|x| d(*x)).collect()
}

#[test]
fn comparisons_follow_ieee() {
    let vals = [
        f64::NEG_INFINITY, -1e300, -2.0, -1.0, -0.5, -f64::MIN_POSITIVE, -0.0, 0.0,
        f64::from_bits(1), 0.5, 1.0, 2.0, 1e300, f64::INFINITY, f64::NAN, -f64::NAN,
    ];
    for a in vals {
        for b in vals {
            assert_eq!(d(a).lt(&d(b)), a < b, "{} < {}", a, b);
            assert_eq!(d(a).le(&d(b)), a <= b, "{} <= {}", a, b);
            assert_eq!(d(a).eq_value(&d(b)), a == b, "{} == {}", a, b);
        }
        assert_eq!(d(a).is_nan(), a.is_nan());
        assert_eq!(d(a).is_sign_negative(), a.is_sign_negative());
        assert_eq!(d(a).abs().to_bits(), a.abs().to_bits());
    }
}

#[test]
fn constants_are_the_ieee_values() {
    assert_eq!(f(Double::zero()).to_bits(), 0.0f64.to_bits());
    assert_eq!(f(Double::one()), 1.0);
    assert_eq!(f(Double::infinity()), f64::INFINITY);
    assert_eq!(f(Double::neg_infinity()), f64::NEG_INFINITY);
    assert!(f(Double::nan_value()).is_nan());
}

#[test]
fn abs_min_of_values() {
    assert!(f(data(&[]).abs_min()).is_nan());
    assert!(f(data(&[0.0, f64::NAN, 3.0, -2.0]).abs_min()).is_nan());
    assert_eq!(f(data(&[0.0, 3.0, -2.0]).abs_min()), 0.0);
    assert_eq!(f(data(&[4.0, -1.5, 3.0, -2.0]).abs_min()), 1.5);
    assert_eq!(f(data(&[-7.0]).abs_min()), 7.0);
    assert!(f(data(&[f64::NAN, 1.0]).abs_min()).is_nan());
}

#[test]
fn abs_max_of_values() {
    assert!(f(data(&[]).abs_max()).is_nan());
    assert!(f(data(&[0.0, f64::NAN, 3.0, -2.0]).abs_max()).is_nan());
    assert_eq!(f(data(&[0.0, 3.0, -2.0, -8.0]).abs_max()), 8.0);
    assert_eq!(f(data(&[-0.0]).abs_max()).to_bits(), 0.0f64.to_bits());
    assert_eq!(f(data(&[1.0, f64::NEG_INFINITY]).abs_max()), f64::INFINITY);
    assert!(f(data(&[1.0, -f64::NAN]).abs_max()).is_nan());
}

#[test]
fn abs_folds_leave_data_unchanged() {
    let mut v = data(&[1.0, -2.0, 3.0]);
    let before = v.clone();
    let _ = v.abs_min();
    let _ = v.abs_max();
    assert_eq!(v, before);
}
