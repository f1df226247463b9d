use chanlun::sequence::{MergeDirection, Sequence};

#[test]
fn high_low_and_ends() {
    let s = Sequence::new(3, 30, 150, 4, 40, 120);
    assert_eq!(s.high(), 150);
    assert_eq!(s.low(), 120);
    assert_eq!(s.from_index(), 3);
    assert_eq!(s.to_index(), 4);
    assert_eq!(s.start(), (30, 150));
    assert_eq!(s.end(), (40, 120));
}

#[test]
fn merge_up_takes_higher_high_and_higher_low() {
    // a falling element covering the next one
    let mut s = Sequence::new(1, 10, 200, 2, 20, 100);
    let rhs = Sequence::new(3, 30, 180, 4, 40, 120);
    assert!(s.merge(&rhs, MergeDirection::Up));
    assert_eq!(s.start(), (10, 200));
    assert_eq!(s.end(), (40, 120));
    assert_eq!((s.from_index(), s.to_index()), (1, 4));
}

#[test]
fn merge_down_takes_lower_high_and_lower_low() {
    let mut s = Sequence::new(1, 10, 200, 2, 20, 100);
    let rhs = Sequence::new(3, 30, 180, 4, 40, 120);
    assert!(s.merge(&rhs, MergeDirection::Down));
    assert_eq!(s.start(), (30, 180));
    assert_eq!(s.end(), (20, 100));
}

#[test]
fn no_merge_without_strict_cover() {
    let mut s = Sequence::new(1, 10, 200, 2, 20, 100);
    let rhs = Sequence::new(3, 30, 210, 4, 40, 150);
    assert!(!s.merge(&rhs, MergeDirection::Up));
    assert_eq!(s.start(), (10, 200));
    let same_high = Sequence::new(3, 30, 200, 4, 40, 150);
    assert!(!s.merge(&same_high, MergeDirection::Up));
}

#[test]
fn sequence_fractals() {
    let a = Sequence::new(0, 0, 10, 1, 1, 5);
    let b = Sequence::new(2, 2, 14, 3, 3, 3);
    let c = Sequence::new(4, 4, 12, 5, 5, 6);
    assert!(Sequence::is_top_fractal(&a, &b, &c));
    assert!(Sequence::is_bottom_fractal(&a, &b, &c));
    assert!(!Sequence::is_top_fractal(&a, &c, &b));
    assert!(!Sequence::is_bottom_fractal(&b, &a, &c));
}
