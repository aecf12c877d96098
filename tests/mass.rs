use mag::mass::{cg, dg, g, kg, mg, ng, ug, Mass, Unit};
use mag::ratio::Ratio;

fn q(num: i64, den: i64) -> Ratio {
    Ratio::new(num, den)
}

fn mass<U: Unit>(num: i64, den: i64) -> Mass<U> {
    Mass::new(q(num, den))
}

#[test]
fn mass_mass_display() {
    assert_eq!(mass::<kg>(25, 10).to_string(), "2.5 kg");
    assert_eq!(mass::<g>(10, 1).to_string(), "10 g");
    assert_eq!(mass::<dg>(111, 10).to_string(), "11.1 dg");
    assert_eq!(mass::<cg>(25, 1).to_string(), "25 cg");
    assert_eq!(mass::<mg>(10101, 100).to_string(), "101.01 mg");
    assert_eq!(mass::<ug>(39, 10).to_string(), "3.9 μg");
}

#[test]
fn mod_mass_display() {
    assert_eq!(mass::<kg>(25, 10).to_string(), "2.5 kg");
    assert_eq!(mass::<g>(10, 1).to_string(), "10 g");
    assert_eq!(mass::<dg>(111, 10).to_string(), "11.1 dg");
    assert_eq!(mass::<cg>(25, 1).to_string(), "25 cg");
    assert_eq!(mass::<mg>(10101, 100).to_string(), "101.01 mg");
    assert_eq!(mass::<ug>(39, 10).to_string(), "3.9 μg");
}

#[test]
fn mass_mass_add() {
    assert_eq!(mass::<g>(1, 1).add(mass::<g>(1, 1)), mass::<g>(2, 1));
    assert_eq!(
        Mass::<g>::new(Ratio::from_integer(1)).add(Mass::<g>::new(Ratio::from_integer(1))),
        Mass::<g>::new(Ratio::from_integer(2))
    );
}

#[test]
fn mod_mass_add() {
    assert_eq!(mass::<g>(1, 1).add(mass::<g>(1, 1)), mass::<g>(2, 1));
    assert_eq!(
        Mass::<g>::new(Ratio::from_integer(1)).add(Mass::<g>::new(Ratio::from_integer(1))),
        Mass::<g>::new(Ratio::from_integer(2))
    );
}

#[test]
fn mass_mass_sub() {
    assert_eq!(mass::<kg>(5, 1).sub(mass::<kg>(1, 1)), mass::<kg>(4, 1));
    assert_eq!(mass::<mg>(500, 1).sub(mass::<mg>(100, 1)), mass::<mg>(400, 1));
}

#[test]
fn mod_mass_sub() {
    assert_eq!(mass::<kg>(5, 1).sub(mass::<kg>(1, 1)), mass::<kg>(4, 1));
    assert_eq!(mass::<mg>(500, 1).sub(mass::<mg>(100, 1)), mass::<mg>(400, 1));
}

#[test]
fn mass_mass_mul() {
    assert_eq!(mass::<ng>(3, 1).mul_scalar(q(3, 1)), mass::<ng>(9, 1));
    assert_eq!(mass::<g>(3, 1).mul_scalar(q(3, 1)), mass::<g>(9, 1));
}

#[test]
fn mod_mass_mul() {
    assert_eq!(mass::<ng>(3, 1).mul_scalar(q(3, 1)), mass::<ng>(9, 1));
    assert_eq!(mass::<g>(3, 1).mul_scalar(q(3, 1)), mass::<g>(9, 1));
}

#[test]
fn mass_mass_div() {
    assert_eq!(mass::<dg>(5, 1).div_scalar(q(5, 1)), mass::<dg>(1, 1));
}

#[test]
fn mod_mass_div() {
    assert_eq!(mass::<dg>(5, 1).div_scalar(q(5, 1)), mass::<dg>(1, 1));
}
