use mag::ratio::Ratio;
use mag::temp::{DegC, DegF, DegK, Temperature, Unit};

fn q(num: i64, den: i64) -> Ratio {
    Ratio::new(num, den)
}

fn deg<U: Unit>(num: i64, den: i64) -> Temperature<U> {
    Temperature::new(q(num, den))
}

#[test]
fn temp_temp_display() {
    assert_eq!(deg::<DegC>(224, 10).to_string(), "22.4 °C");
    assert_eq!(deg::<DegF>(-52, 10).to_string(), "-5.2 °F");
    assert_eq!(deg::<DegK>(1111111, 10000).to_string_prec(1), "111.1 °K");
    assert_eq!(deg::<DegF>(32, 1).to::<DegC>().to_string_prec(2), "0.00 °C");
}

#[test]
fn mod_temp_display() {
    assert_eq!(deg::<DegC>(224, 10).to_string(), "22.4 °C");
    assert_eq!(deg::<DegF>(-52, 10).to_string(), "-5.2 °F");
    assert_eq!(deg::<DegK>(1111111, 10000).to_string_prec(1), "111.1 °K");
    assert_eq!(deg::<DegF>(32, 1).to::<DegC>().to_string_prec(2), "0.00 °C");
}

#[test]
fn temp_temp_add() {
    assert_eq!(deg::<DegF>(10, 1).add(deg::<DegF>(55, 10)), deg::<DegF>(155, 10));
    assert_eq!(deg::<DegC>(20, 1).add(deg::<DegC>(62, 10)), deg::<DegC>(262, 10));
}

#[test]
fn mod_temp_add() {
    assert_eq!(deg::<DegF>(10, 1).add(deg::<DegF>(55, 10)), deg::<DegF>(155, 10));
    assert_eq!(deg::<DegC>(20, 1).add(deg::<DegC>(62, 10)), deg::<DegC>(262, 10));
}

#[test]
fn temp_temp_sub() {
    assert_eq!(deg::<DegF>(70, 1).sub(deg::<DegF>(156, 10)), deg::<DegF>(544, 10));
    assert_eq!(deg::<DegC>(40, 1).sub(deg::<DegC>(161, 10)), deg::<DegC>(239, 10));
}

#[test]
fn mod_temp_sub() {
    assert_eq!(deg::<DegF>(70, 1).sub(deg::<DegF>(156, 10)), deg::<DegF>(544, 10));
    assert_eq!(deg::<DegC>(40, 1).sub(deg::<DegC>(161, 10)), deg::<DegC>(239, 10));
}
