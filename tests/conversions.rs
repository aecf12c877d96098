use mag::length::{self, cm, ft, km, m, mi, mm, um, yd, In, Length};
use mag::mass::{cg, g, kg, Mass};
use mag::ratio::Ratio;
use mag::speed::{Speed, Velocity};
use mag::temp::{self, DegC, DegF, DegK, DegR, Delisle, Temperature};
use mag::time::{h, min, ms, s, us, Frequency, Period};

fn q(num: i64, den: i64) -> Ratio {
    Ratio::new(num, den)
}

fn len<U: length::Unit>(num: i64, den: i64) -> Length<U> {
    Length::new(q(num, den))
}

fn deg<U: temp::Unit>(num: i64, den: i64) -> Temperature<U> {
    Temperature::new(q(num, den))
}

#[test]
fn ratio_sign_and_value_equality() {
    let r = Ratio::new(1, -2);
    assert_eq!(r.numer(), -1);
    assert_eq!(r.denom(), 2);
    assert_eq!(Ratio::new(2, 4), Ratio::new(1, 2));
    assert_ne!(Ratio::new(2, 4), Ratio::new(1, 3));
    assert_eq!(Ratio::from_integer(3), Ratio::new(6, 2));
}

#[test]
fn ratio_arithmetic() {
    assert_eq!(q(1, 2).plus(q(1, 3)), q(5, 6));
    assert_eq!(q(1, 2).minus(q(1, 3)), q(1, 6));
    assert_eq!(q(2, 3).times(q(3, 4)), q(1, 2));
    assert_eq!(q(1, 2).over(q(-1, 4)), q(-2, 1));
    assert!(q(1, 2).over(q(-1, 4)).denom() > 0);
}

#[test]
fn convert_to_same_unit_is_identity() {
    assert_eq!(len::<mi>(37, 10).to::<mi>(), len::<mi>(37, 10));
    assert_eq!(Mass::<kg>::new(q(5, 2)).to::<kg>(), Mass::<kg>::new(q(5, 2)));
    assert_eq!(deg::<DegF>(986, 10).to::<DegF>(), deg::<DegF>(986, 10));
}

#[test]
fn convert_round_trip() {
    assert_eq!(len::<km>(7, 3).to::<mi>().to::<km>(), len::<km>(7, 3));
    assert_eq!(Period::<h>::new(q(5, 4)).to::<s>().to::<h>(), Period::<h>::new(q(5, 4)));
    assert_eq!(deg::<DegC>(25, 1).to::<DegF>().to::<DegC>(), deg::<DegC>(25, 1));
}

#[test]
fn length_conversions_are_exact() {
    assert_eq!(len::<ft>(1, 1).to::<In>(), len::<In>(12, 1));
    assert_eq!(len::<yd>(1, 1).to::<ft>(), len::<ft>(3, 1));
    assert_eq!(len::<yd>(1, 1).to::<In>(), len::<In>(36, 1));
    assert_eq!(len::<mi>(1, 1).to::<ft>(), len::<ft>(5280, 1));
    assert_eq!(len::<m>(1, 1).to::<km>(), len::<km>(1, 1000));
    assert_eq!(len::<cm>(110, 1).to::<m>(), len::<m>(11, 10));
    assert_eq!(len::<cm>(1, 1).to::<In>(), len::<In>(50, 127));
}

#[test]
fn inch_to_meters() {
    let one_inch = len::<In>(1, 1).to::<m>();
    assert_eq!(one_inch, len::<m>(254, 10000));
    assert_eq!(one_inch.to_string(), "0.0254 m");
}

#[test]
fn area_and_volume_conversions() {
    assert_eq!(len::<ft>(1, 1).mul_unit(ft).to::<In>(), len::<In>(144, 1).mul_unit(In));
    assert_eq!(len::<m>(1, 1).mul_unit(m).to::<cm>(), len::<cm>(10000, 1).mul_unit(cm));
    assert_eq!(
        len::<yd>(2, 1).mul_unit(yd).mul_unit(yd).to::<ft>(),
        len::<ft>(54, 1).mul_unit(ft).mul_unit(ft)
    );
    assert_eq!(
        len::<cm>(48, 10).mul_unit(cm).mul_unit(cm).to::<mm>(),
        len::<mm>(4800, 1).mul_unit(mm).mul_unit(mm)
    );
}

#[test]
fn mass_conversions() {
    assert_eq!(Mass::<g>::new(q(1, 1)).to::<kg>(), Mass::<kg>::new(q(1, 1000)));
    assert_eq!(Mass::<cg>::new(q(110, 1)).to::<g>(), Mass::<g>::new(q(11, 10)));
}

#[test]
fn time_conversions() {
    assert_eq!(Period::<h>::new(q(475, 100)).to::<min>(), Period::<min>::new(q(285, 1)));
    assert_eq!(Period::<s>::new(q(25, 10)).to::<ms>(), Period::<ms>::new(q(2500, 1)));
    assert_eq!(Frequency::<s>::new(q(1000, 1)).to::<ms>(), Frequency::<ms>::new(q(1, 1)));
    assert_eq!(Frequency::<ms>::new(q(300, 1)).to::<us>(), Frequency::<us>::new(q(3, 10)));
}

#[test]
fn period_and_frequency_inverses() {
    assert_eq!(Period::<s>::new(q(1, 1)).inverse(q(1, 1)), Frequency::<s>::new(q(1, 1)));
    assert_eq!(Frequency::<min>::new(q(1, 1)).inverse(q(2, 1)), Period::<min>::new(q(2, 1)));
}

#[test]
fn temperature_affine_conversions() {
    assert_eq!(deg::<DegC>(0, 1).to::<DegK>(), deg::<DegK>(27315, 100));
    assert_eq!(deg::<DegF>(32, 1).to::<DegC>(), deg::<DegC>(0, 1));
    assert_eq!(deg::<DegC>(100, 1).to::<DegF>(), deg::<DegF>(212, 1));
    assert_eq!(deg::<DegC>(-27315, 100).to::<DegK>(), deg::<DegK>(0, 1));
    assert_eq!(deg::<DegK>(0, 1).to::<DegC>(), deg::<DegC>(-27315, 100));
    assert_eq!(deg::<DegF>(986, 10).to::<DegC>(), deg::<DegC>(37, 1));
    assert_eq!(deg::<DegK>(100, 1).to::<DegR>(), deg::<DegR>(180, 1));
}

#[test]
fn speed_composition() {
    let hour = Period::<h>::new(q(1, 1));
    assert_eq!(len::<mi>(55, 1).per_period(hour), Speed::<mi, h>::new(q(55, 1)));
    assert_eq!(len::<mi>(10, 1).per_unit(h), Velocity::<mi, h>::new(q(10, 1)));
    assert_eq!(
        len::<km>(455, 10).per_period(hour),
        Speed::<km, h>::new(q(455, 10))
    );
    assert_eq!(len::<ft>(88, 1).per_unit(s).to::<mi, h>(), Speed::<mi, h>::new(q(60, 1)));
    assert_eq!(
        Speed::<mi, h>::new(q(55, 1)).to::<km, h>(),
        Speed::<km, h>::new(q(8851392, 100000))
    );
}

#[test]
fn additivity_and_scaling() {
    let (a, b) = (q(7, 3), q(-5, 2));
    assert_eq!(Length::<m>::new(a).add(Length::<m>::new(b)), Length::<m>::new(a.plus(b)));
    let sc = q(9, 4);
    assert_eq!(Length::<m>::new(a).mul_scalar(sc), Length::<m>::new(a.times(sc)));
    assert_eq!(len::<km>(1, 1).sub(len::<km>(3, 1)), len::<km>(-2, 1));
}

#[test]
fn dimensional_closure() {
    let (a, b) = (q(3, 2), q(5, 7));
    let side_a = Length::<m>::new(a);
    let side_b = Length::<m>::new(b);
    let area = side_a.mul_length(side_b);
    assert_eq!(area, Length::<m>::new(a.times(b)).mul_unit(m));
    let volume = area.mul_length(side_b);
    assert_eq!(volume, Length::<m>::new(a.times(b).times(b)).mul_unit(m).mul_unit(m));
    assert_eq!(volume.div_length(side_b), area);
    assert_eq!(area.div_length(side_b), side_a);
    assert_eq!(volume.div_area(area), side_b);
}

#[test]
fn display_formats() {
    assert_eq!(len::<km>(25, 10).to_string(), "2.5 km");
    assert_eq!(len::<m>(1, 1).mul_unit(m).to_string(), "1 m²");
    assert_eq!(len::<um>(123, 1).mul_unit(um).mul_unit(um).to_string(), "123 μm³");
    assert_eq!(Frequency::<s>::new(q(60, 1)).to_string(), "60 ㎐");
    assert_eq!(Mass::<g>::new(q(-3, 4)).to_string(), "-0.75 g");
}

#[test]
fn display_rounding() {
    assert_eq!(len::<m>(1, 3).to_string(), "0.333333333333333 m");
    assert_eq!(len::<m>(2, 3).to_string_prec(3), "0.667 m");
    assert_eq!(len::<m>(1, 8).to_string_prec(2), "0.13 m");
    assert_eq!(len::<m>(-1, 8).to_string_prec(2), "-0.13 m");
    assert_eq!(len::<m>(-1, 1000).to_string_prec(2), "0.00 m");
    assert_eq!(len::<m>(0, 1).to_string(), "0 m");
    assert_eq!(len::<m>(7, 2).to_string_prec(0), "4 m");
    assert_eq!(len::<m>(12345, 1).to_string_prec(1), "12345.0 m");
}

#[test]
fn delisle_scale_runs_backwards() {
    let boiling = deg::<Delisle>(0, 1);
    assert_eq!(boiling.to_string(), "0 °D");
    assert_eq!(boiling.to::<DegC>().to_string_prec(4), "100.0033 °C");
    assert_eq!(deg::<DegC>(0, 1).to::<Delisle>().to_string_prec(1), "150.0 °D");
}

#[test]
fn display_extremes() {
    let big = Length::<m>::new(Ratio::new(i64::MAX, 1));
    assert_eq!(big.to_string_prec(18), "9223372036854775807.000000000000000000 m");
    assert_eq!(big.to_string(), "9223372036854775807 m");
    let tiny = Length::<m>::new(Ratio::new(-1, i64::MAX));
    assert_eq!(tiny.to_string(), "0 m");
    assert_eq!(tiny.to_string_prec(18), "0.000000000000000000 m");
}

#[test]
fn display_width_applies_to_the_magnitude() {
    let a = len::<km>(25, 10);
    assert_eq!(a.to_string_with(None, 6), "   2.5 km");
    assert_eq!(a.to_string_with(Some(2), 6), "  2.50 km");
    assert_eq!(a.to_string_with(Some(2), 2), "2.50 km");
    assert_eq!(len::<m>(1, 1).mul_unit(m).to_string_with(Some(1), 5), "  1.0 m²");
    assert_eq!(Speed::<mi, h>::new(q(60, 1)).to_string_with(None, 3), " 60 mi/h");
}
