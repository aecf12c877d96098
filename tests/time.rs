use mag::ratio::Ratio;
use mag::time::{d, ds, h, ms, ns, s, us, wk, Frequency, Period, Unit};

fn q(num: i64, den: i64) -> Ratio {
    Ratio::new(num, den)
}

fn per<U: Unit>(num: i64, den: i64) -> Period<U> {
    Period::new(q(num, den))
}

fn freq<U: Unit>(num: i64, den: i64) -> Frequency<U> {
    Frequency::new(q(num, den))
}

#[test]
fn time_time_display() {
    assert_eq!(per::<s>(237, 10).to_string(), "23.7 s");
    assert_eq!(per::<h>(325, 100).to_string(), "3.25 h");
    assert_eq!(freq::<s>(50, 1).to_string(), "50 ㎐");
    assert_eq!(freq::<d>(2, 1).to_string(), "2 /d");
    assert_eq!(freq::<us>(3333333, 10000).to_string_prec(1), "333.3 ㎒");
}

#[test]
fn mod_time_display() {
    assert_eq!(per::<s>(237, 10).to_string(), "23.7 s");
    assert_eq!(per::<h>(325, 100).to_string(), "3.25 h");
    assert_eq!(freq::<s>(50, 1).to_string(), "50 ㎐");
    assert_eq!(freq::<d>(2, 1).to_string(), "2 /d");
    assert_eq!(freq::<us>(3333333, 10000).to_string_prec(1), "333.3 ㎒");
}

#[test]
fn time_time_add() {
    assert_eq!(per::<d>(35, 10).add(per::<d>(125, 100)), per::<d>(475, 100));
    assert_eq!(per::<wk>(1, 1).add(per::<wk>(21, 10)), per::<wk>(31, 10));
    assert_eq!(freq::<ns>(5, 1).add(freq::<ns>(4, 1)), freq::<ns>(9, 1));
}

#[test]
fn mod_time_add() {
    assert_eq!(per::<d>(35, 10).add(per::<d>(125, 100)), per::<d>(475, 100));
    assert_eq!(per::<wk>(1, 1).add(per::<wk>(21, 10)), per::<wk>(31, 10));
    assert_eq!(freq::<ns>(5, 1).add(freq::<ns>(4, 1)), freq::<ns>(9, 1));
}

#[test]
fn time_time_sub() {
    assert_eq!(per::<us>(5678, 10).sub(per::<us>(1234, 10)), per::<us>(4444, 10));
    assert_eq!(freq::<ms>(23, 1).sub(freq::<ms>(12, 1)), freq::<ms>(11, 1));
}

#[test]
fn mod_time_sub() {
    assert_eq!(per::<us>(5678, 10).sub(per::<us>(1234, 10)), per::<us>(4444, 10));
    assert_eq!(freq::<ms>(23, 1).sub(freq::<ms>(12, 1)), freq::<ms>(11, 1));
}

#[test]
fn time_time_mul() {
    assert_eq!(per::<ns>(65, 10).mul_scalar(q(12, 1)), per::<ns>(78, 1));
    assert_eq!(per::<h>(15, 10).mul_scalar(q(4, 1)), per::<h>(6, 1));
    assert_eq!(freq::<ds>(25, 10).mul_scalar(q(2, 1)), freq::<ds>(5, 1));
}

#[test]
fn mod_time_mul() {
    assert_eq!(per::<ns>(65, 10).mul_scalar(q(12, 1)), per::<ns>(78, 1));
    assert_eq!(per::<h>(15, 10).mul_scalar(q(4, 1)), per::<h>(6, 1));
    assert_eq!(freq::<ds>(25, 10).mul_scalar(q(2, 1)), freq::<ds>(5, 1));
}
