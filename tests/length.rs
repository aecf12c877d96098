use mag::length::{cm, dm, ft, km, m, mi, mm, nm, um, yd, Area, In, Length, Unit, Volume};
use mag::ratio::Ratio;

fn q(num: i64, den: i64) -> Ratio {
    Ratio::new(num, den)
}

fn len<U: Unit>(num: i64, den: i64) -> Length<U> {
    Length::new(q(num, den))
}

fn area<U: Unit>(num: i64, den: i64) -> Area<U> {
    Area::new(q(num, den))
}

fn vol<U: Unit>(num: i64, den: i64) -> Volume<U> {
    Volume::new(q(num, den))
}

#[test]
fn length_len_display() {
    assert_eq!(len::<km>(25, 10).to_string(), "2.5 km");
    assert_eq!(len::<m>(10, 1).to_string(), "10 m");
    assert_eq!(len::<dm>(111, 10).to_string(), "11.1 dm");
    assert_eq!(len::<cm>(25, 1).to_string(), "25 cm");
    assert_eq!(len::<mm>(10101, 100).to_string(), "101.01 mm");
    assert_eq!(len::<um>(39, 10).to_string(), "3.9 μm");
    assert_eq!(len::<mi>(222, 100).to_string(), "2.22 mi");
    assert_eq!(len::<ft>(5, 10).to_string(), "0.5 ft");
    assert_eq!(len::<In>(6, 1).to_string(), "6 in");
    assert_eq!(len::<yd>(100, 1).to_string(), "100 yd");
}

#[test]
fn mod_len_display() {
    assert_eq!(len::<km>(25, 10).to_string(), "2.5 km");
    assert_eq!(len::<m>(10, 1).to_string(), "10 m");
    assert_eq!(len::<dm>(111, 10).to_string(), "11.1 dm");
    assert_eq!(len::<cm>(25, 1).to_string(), "25 cm");
    assert_eq!(len::<mm>(10101, 100).to_string(), "101.01 mm");
    assert_eq!(len::<um>(39, 10).to_string(), "3.9 μm");
    assert_eq!(len::<mi>(222, 100).to_string(), "2.22 mi");
    assert_eq!(len::<ft>(5, 10).to_string(), "0.5 ft");
    assert_eq!(len::<In>(6, 1).to_string(), "6 in");
    assert_eq!(len::<yd>(100, 1).to_string(), "100 yd");
}

#[test]
fn length_area_display() {
    assert_eq!(len::<m>(1, 1).mul_unit(m).to_string(), "1 m²");
    assert_eq!(len::<In>(185, 10).mul_unit(In).to_string(), "18.5 in²");
    assert_eq!(len::<cm>(1234, 1000).mul_unit(cm).to_string_prec(2), "1.23 cm²");
}

#[test]
fn mod_area_display() {
    assert_eq!(len::<m>(1, 1).mul_unit(m).to_string(), "1 m²");
    assert_eq!(len::<In>(185, 10).mul_unit(In).to_string(), "18.5 in²");
    assert_eq!(len::<cm>(1234, 1000).mul_unit(cm).to_string_prec(2), "1.23 cm²");
}

#[test]
fn length_volume_display() {
    assert_eq!(len::<um>(123, 1).mul_unit(um).mul_unit(um).to_string(), "123 μm³");
    assert_eq!(len::<In>(543, 10).mul_unit(In).mul_unit(In).to_string(), "54.3 in³");
}

#[test]
fn mod_volume_display() {
    assert_eq!(len::<um>(123, 1).mul_unit(um).mul_unit(um).to_string(), "123 μm³");
    assert_eq!(len::<In>(543, 10).mul_unit(In).mul_unit(In).to_string(), "54.3 in³");
}

#[test]
fn length_len_add() {
    assert_eq!(len::<m>(1, 1).add(len::<m>(1, 1)), len::<m>(2, 1));
    assert_eq!(
        Length::<m>::new(Ratio::from_integer(1)).add(Length::<m>::new(Ratio::from_integer(1))),
        Length::<m>::new(Ratio::from_integer(2))
    );
    assert_eq!(len::<ft>(10, 1).add(len::<ft>(2, 1)), len::<ft>(12, 1));
    assert_eq!(len::<In>(6, 1).add(len::<In>(6, 1)), len::<In>(12, 1));
}

#[test]
fn mod_len_add() {
    assert_eq!(len::<m>(1, 1).add(len::<m>(1, 1)), len::<m>(2, 1));
    assert_eq!(
        Length::<m>::new(Ratio::from_integer(1)).add(Length::<m>::new(Ratio::from_integer(1))),
        Length::<m>::new(Ratio::from_integer(2))
    );
    assert_eq!(len::<ft>(10, 1).add(len::<ft>(2, 1)), len::<ft>(12, 1));
    assert_eq!(len::<In>(6, 1).add(len::<In>(6, 1)), len::<In>(12, 1));
}

#[test]
fn length_area_add() {
    assert_eq!(area::<yd>(12, 1).add(area::<yd>(15, 1)), area::<yd>(27, 1));
    assert_eq!(area::<km>(256, 10).add(area::<km>(154, 10)), area::<km>(41, 1));
}

#[test]
fn mod_area_add() {
    assert_eq!(area::<yd>(12, 1).add(area::<yd>(15, 1)), area::<yd>(27, 1));
    assert_eq!(area::<km>(256, 10).add(area::<km>(154, 10)), area::<km>(41, 1));
}

#[test]
fn length_volume_add() {
    assert_eq!(vol::<mm>(25, 1).add(vol::<mm>(51, 10)), vol::<mm>(301, 10));
    assert_eq!(vol::<In>(12, 10).add(vol::<In>(38, 10)), vol::<In>(5, 1));
}

#[test]
fn mod_volume_add() {
    assert_eq!(vol::<mm>(25, 1).add(vol::<mm>(51, 10)), vol::<mm>(301, 10));
    assert_eq!(vol::<In>(12, 10).add(vol::<In>(38, 10)), vol::<In>(5, 1));
}

#[test]
fn length_len_sub() {
    assert_eq!(len::<km>(5, 1).sub(len::<km>(1, 1)), len::<km>(4, 1));
    assert_eq!(len::<mm>(500, 1).sub(len::<mm>(100, 1)), len::<mm>(400, 1));
}

#[test]
fn mod_len_sub() {
    assert_eq!(len::<km>(5, 1).sub(len::<km>(1, 1)), len::<km>(4, 1));
    assert_eq!(len::<mm>(500, 1).sub(len::<mm>(100, 1)), len::<mm>(400, 1));
}

#[test]
fn length_area_sub() {
    assert_eq!(area::<mi>(5, 1).sub(area::<mi>(25, 10)), area::<mi>(25, 10));
}

#[test]
fn mod_area_sub() {
    assert_eq!(area::<mi>(5, 1).sub(area::<mi>(25, 10)), area::<mi>(25, 10));
}

#[test]
fn length_volume_sub() {
    assert_eq!(vol::<m>(10, 1).sub(vol::<m>(45, 10)), vol::<m>(55, 10));
}

#[test]
fn mod_volume_sub() {
    assert_eq!(vol::<m>(10, 1).sub(vol::<m>(45, 10)), vol::<m>(55, 10));
}

#[test]
fn length_len_mul() {
    assert_eq!(len::<m>(3, 1).mul_length(len::<m>(3, 1)), len::<m>(9, 1).mul_unit(m));
    assert_eq!(len::<nm>(3, 1).mul_scalar(q(3, 1)), len::<nm>(9, 1));
    assert_eq!(len::<m>(3, 1).mul_scalar(q(3, 1)), len::<m>(9, 1));
    assert_eq!(len::<In>(10, 1).mul_length(len::<In>(5, 1)), len::<In>(50, 1).mul_unit(In));
}

#[test]
fn mod_len_mul() {
    assert_eq!(len::<m>(3, 1).mul_length(len::<m>(3, 1)), len::<m>(9, 1).mul_unit(m));
    assert_eq!(len::<nm>(3, 1).mul_scalar(q(3, 1)), len::<nm>(9, 1));
    assert_eq!(len::<m>(3, 1).mul_scalar(q(3, 1)), len::<m>(9, 1));
    assert_eq!(len::<In>(10, 1).mul_length(len::<In>(5, 1)), len::<In>(50, 1).mul_unit(In));
}

#[test]
fn length_area_mul() {
    assert_eq!(len::<dm>(3, 1).mul_unit(dm).mul_scalar(q(25, 10)), area::<dm>(75, 10));
    assert_eq!(area::<dm>(3, 1).mul_scalar(q(4, 1)), area::<dm>(12, 1));
    assert_eq!(area::<mm>(123, 1).mul_length(len::<mm>(2, 1)), vol::<mm>(246, 1));
    assert_eq!(
        len::<mm>(123, 1).mul_unit(mm).mul_scalar(q(2, 1)).mul_unit(mm),
        len::<mm>(246, 1).mul_unit(mm).mul_unit(mm)
    );
}

#[test]
fn mod_area_mul() {
    assert_eq!(len::<dm>(3, 1).mul_unit(dm).mul_scalar(q(25, 10)), area::<dm>(75, 10));
    assert_eq!(area::<dm>(3, 1).mul_scalar(q(4, 1)), area::<dm>(12, 1));
    assert_eq!(area::<mm>(123, 1).mul_length(len::<mm>(2, 1)), vol::<mm>(246, 1));
    assert_eq!(
        len::<mm>(123, 1).mul_unit(mm).mul_scalar(q(2, 1)).mul_unit(mm),
        len::<mm>(246, 1).mul_unit(mm).mul_unit(mm)
    );
}

#[test]
fn length_volume_mul() {
    assert_eq!(vol::<um>(8, 1).mul_scalar(q(15, 10)), vol::<um>(12, 1));
    assert_eq!(vol::<km>(25, 10).mul_scalar(q(4, 1)), vol::<km>(10, 1));
}

#[test]
fn mod_volume_mul() {
    assert_eq!(vol::<um>(8, 1).mul_scalar(q(15, 10)), vol::<um>(12, 1));
    assert_eq!(vol::<km>(25, 10).mul_scalar(q(4, 1)), vol::<km>(10, 1));
}

#[test]
fn length_len_div() {
    assert_eq!(len::<ft>(5, 1).div_scalar(q(5, 1)), len::<ft>(1, 1));
}

#[test]
fn mod_len_div() {
    assert_eq!(len::<ft>(5, 1).div_scalar(q(5, 1)), len::<ft>(1, 1));
}

#[test]
fn length_area_div() {
    assert_eq!(area::<cm>(500, 1).div_scalar(q(5, 1)), area::<cm>(100, 1));
    assert_eq!(area::<nm>(40, 1).div_length(len::<nm>(10, 1)), len::<nm>(4, 1));
}

#[test]
fn mod_area_div() {
    assert_eq!(area::<cm>(500, 1).div_scalar(q(5, 1)), area::<cm>(100, 1));
    assert_eq!(area::<nm>(40, 1).div_length(len::<nm>(10, 1)), len::<nm>(4, 1));
}

#[test]
fn length_volume_div() {
    assert_eq!(vol::<mm>(50, 1).div_scalar(q(10, 1)), vol::<mm>(5, 1));
    assert_eq!(vol::<yd>(40, 1).div_length(len::<yd>(2, 1)), area::<yd>(20, 1));
    assert_eq!(vol::<In>(25, 1).div_area(area::<In>(5, 1)), len::<In>(5, 1));
}

#[test]
fn mod_volume_div() {
    assert_eq!(vol::<mm>(50, 1).div_scalar(q(10, 1)), vol::<mm>(5, 1));
    assert_eq!(vol::<yd>(40, 1).div_length(len::<yd>(2, 1)), area::<yd>(20, 1));
    assert_eq!(vol::<In>(25, 1).div_area(area::<In>(5, 1)), len::<In>(5, 1));
}
