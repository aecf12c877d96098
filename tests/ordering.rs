use mag::length::{m, Length};
use mag::ratio::Ratio;

#[test]
fn ordering_by_value() {
    let a = Length::<m>::new(Ratio::new(1, 3));
    let b = Length::<m>::new(Ratio::new(1, 2));
    assert!(a < b);
    assert!(b > a);
    assert!(a <= Length::<m>::new(Ratio::new(2, 6)));
    assert!(Ratio::new(-1, 2) < Ratio::new(1, 3));
}
