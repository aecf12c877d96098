use mag::length::{self, ft, km, m, mi, mm, nm, yd, In, Length};
use mag::ratio::Ratio;
use mag::speed::Speed;
use mag::time::{self, d, ds, h, ms, s, us, Frequency};

fn q(num: i64, den: i64) -> Ratio {
    Ratio::new(num, den)
}

fn len<U: length::Unit>(num: i64, den: i64) -> Length<U> {
    Length::new(q(num, den))
}

fn speed<L: length::Unit, P: time::Unit>(num: i64, den: i64) -> Speed<L, P> {
    Speed::new(q(num, den))
}

#[test]
fn speed_display() {
    assert_eq!(len::<m>(234, 10).per_unit(s).to_string(), "23.4 m/s");
    assert_eq!(len::<mi>(4555, 100).per_unit(h).to_string(), "45.55 mi/h");
    assert_eq!(len::<mm>(251, 10).per_unit(d).to_string(), "25.1 mm/d");
    assert_eq!(len::<ft>(88, 1).per_unit(s).to::<mi, h>().to_string_prec(0), "60 mi/h");
}

#[test]
fn vel_display() {
    assert_eq!(len::<m>(234, 10).per_unit(s).to_string(), "23.4 m/s");
    assert_eq!(len::<mi>(4555, 100).per_unit(h).to_string(), "45.55 mi/h");
    assert_eq!(len::<mm>(251, 10).per_unit(d).to_string(), "25.1 mm/d");
}

#[test]
fn speed_add() {
    assert_eq!(speed::<nm, s>(101, 10).add(speed::<nm, s>(151, 10)), speed::<nm, s>(252, 10));
    assert_eq!(speed::<km, h>(20, 1).add(speed::<km, h>(30, 1)), speed::<km, h>(50, 1));
}

#[test]
fn vel_add() {
    assert_eq!(speed::<nm, s>(101, 10).add(speed::<nm, s>(151, 10)), speed::<nm, s>(252, 10));
    assert_eq!(speed::<km, h>(20, 1).add(speed::<km, h>(30, 1)), speed::<km, h>(50, 1));
}

#[test]
fn speed_sub() {
    assert_eq!(speed::<mm, d>(556, 10).sub(speed::<mm, d>(33, 1)), speed::<mm, d>(226, 10));
    assert_eq!(speed::<km, ms>(10, 1).sub(speed::<km, ms>(55, 10)), speed::<km, ms>(45, 10));
}

#[test]
fn vel_sub() {
    assert_eq!(speed::<mm, d>(556, 10).sub(speed::<mm, d>(33, 1)), speed::<mm, d>(226, 10));
    assert_eq!(speed::<km, ms>(10, 1).sub(speed::<km, ms>(55, 10)), speed::<km, ms>(45, 10));
}

#[test]
fn speed_mul() {
    assert_eq!(speed::<In, s>(51, 10).mul_scalar(q(2, 1)), speed::<In, s>(102, 10));
    assert_eq!(speed::<mi, us>(105, 10).mul_scalar(q(3, 1)), speed::<mi, us>(315, 10));
    // length times frequency
    assert_eq!(
        len::<m>(15, 1).mul_frequency(Frequency::<ds>::new(q(3, 1))),
        speed::<m, ds>(45, 1)
    );
    // frequency times length
    assert_eq!(Frequency::<s>::new(q(5, 1)).mul_length(len::<yd>(3, 1)), speed::<yd, s>(15, 1));
}

#[test]
fn vel_mul() {
    assert_eq!(speed::<In, s>(51, 10).mul_scalar(q(2, 1)), speed::<In, s>(102, 10));
    assert_eq!(speed::<mi, us>(105, 10).mul_scalar(q(3, 1)), speed::<mi, us>(315, 10));
    // length times frequency
    assert_eq!(
        len::<m>(15, 1).mul_frequency(Frequency::<ds>::new(q(3, 1))),
        speed::<m, ds>(45, 1)
    );
    // frequency times length
    assert_eq!(Frequency::<s>::new(q(5, 1)).mul_length(len::<yd>(3, 1)), speed::<yd, s>(15, 1));
}
