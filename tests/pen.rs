use chanlun::candle::Candle;
use chanlun::fractal::{Fractal, FractalType};
use chanlun::pen::{Pen, PenStatus, PenType};
use chanlun::pen_detector::{is_pen, merge_same_type, MergeAction, PenDetector, PenEvent};

/// Prices in the tests are written as decimals and held as integer ticks of
/// 0.00001.
fn px(v: f64) -> i64 {
    (v * 100000.0).round() as i64
}

fn candle(index: u64, time: i64, high: f64, low: f64) -> Candle {
    Candle::new(index, time, px(high), px(high), px(low), px(low))
}

fn sample_pair() -> (Fractal, Fractal) {
    let k1 = candle(1117, 1052779380000, 1.15642, 1.15627);
    let k2 = candle(1118, 1052779380000, 1.15645, 1.15634);
    let k3 = candle(1119, 1052779500000, 1.15638, 1.1562);
    let f1 = Fractal::new(k1, k2, k3);
    let k4 = candle(1131, 1052780640000, 1.15604, 1.1559);
    let k5 = candle(1132, 1052780820000, 1.15602, 1.15576);
    let k6 = candle(1133, 1052780940000, 1.15624, 1.15599);
    let f2 = Fractal::new(k4, k5, k6);
    (f1, f2)
}

#[test]
fn pd2_test_is_pen() {
    let (f1, f2) = sample_pair();
    let has_enough_distance = f1.has_enough_distance(&f2);
    assert!(has_enough_distance);
    println!(
        "f1.type = {:?} f1.range = {:?}, f2.type = {:?}, f2.range = {:?}",
        f1.fractal_type(),
        (f1.highest(), f1.lowest()),
        f2.fractal_type(),
        (f2.highest(), f1.lowest())
    );
    assert!(is_pen(&f1, &f2));
}

#[test]
fn pen_detector_test_is_pen() {
    let (f1, f2) = sample_pair();
    assert!(f1.has_enough_distance(&f2));
    assert!(is_pen(&f1, &f2));
}

#[test]
fn pen_analyzer_test_is_pen() {
    let (f1, f2) = sample_pair();
    assert!(f1.has_enough_distance(&f2));
    assert!(is_pen(&f1, &f2));
}

#[test]
fn fractal_series_test_is_pen() {
    let (f1, f2) = sample_pair();
    assert!(f1.has_enough_distance(&f2));
    println!("f1.low = {}, f2.high = {}", f1.k2.bar.low, f2.k2.bar.high);
    assert!(f1.k2.bar.low > f2.k2.bar.high);
    assert!(is_pen(&f1, &f2));
}

fn bottom(index: u64, time: i64, low: f64) -> Fractal {
    Fractal::new(
        candle(index - 1, time - 1, low + 0.0003, low + 0.0001),
        candle(index, time, low + 0.0002, low),
        candle(index + 1, time + 1, low + 0.0004, low + 0.00015),
    )
}

fn top(index: u64, time: i64, high: f64) -> Fractal {
    Fractal::new(
        candle(index - 1, time - 1, high - 0.0001, high - 0.0003),
        candle(index, time, high, high - 0.0002),
        candle(index + 1, time + 1, high - 0.00015, high - 0.0004),
    )
}

#[test]
fn pen_formation_update_and_commit_scenario() {
    let (f1, f2) = sample_pair();
    assert_eq!(f1.fractal_type(), FractalType::Top);
    assert_eq!(f2.fractal_type(), FractalType::Bottom);
    assert_eq!(f1.distance(&f2), 14);

    let mut pd = PenDetector::new();
    assert!(pd.on_new_fractal(f1).is_none());
    match pd.on_new_fractal(f2) {
        Some(PenEvent::First(a, b)) => {
            assert_eq!(a.index(), 1118);
            assert_eq!(b.index(), 1132);
        }
        other => panic!("expected First, got {:?}", other),
    }
    assert!(pd.has_pen());

    // a lower bottom moves the end of the pen
    let f3 = bottom(1140, 1052781000000, 1.15550);
    assert_eq!(f3.lowest(), px(1.15550));
    match pd.on_new_fractal(f3) {
        Some(PenEvent::UpdateTo(c)) => assert_eq!(c.index(), 1140),
        other => panic!("expected UpdateTo, got {:?}", other),
    }

    // a top that makes a pen with it starts the next pen
    let f4 = top(1150, 1052782000000, 1.15660);
    assert!(is_pen(&f3, &f4));
    match pd.on_new_fractal(f4) {
        Some(PenEvent::New(c)) => assert_eq!(c.index(), 1150),
        other => panic!("expected New, got {:?}", other),
    }
}

#[test]
fn merge_same_type_prefers_more_extreme_and_later_on_tie() {
    let a = top(10, 100, 1.2);
    let b = top(20, 200, 1.1);
    let c = top(30, 300, 1.2);
    assert_eq!(merge_same_type(&a, &b), MergeAction::Keep);
    assert_eq!(merge_same_type(&b, &a), MergeAction::Replace);
    assert_eq!(merge_same_type(&a, &c), MergeAction::Replace);
    let x = bottom(10, 100, 1.0);
    let y = bottom(20, 200, 1.1);
    assert_eq!(merge_same_type(&x, &y), MergeAction::Keep);
    assert_eq!(merge_same_type(&y, &x), MergeAction::Replace);
}

#[test]
fn no_pen_when_too_close_or_same_type() {
    let t = top(10, 100, 1.2);
    let b = bottom(13, 130, 1.0);
    assert_eq!(t.distance(&b), 3);
    assert!(!is_pen(&t, &b));
    let b2 = bottom(14, 140, 1.0);
    assert!(is_pen(&t, &b2));
    assert!(!is_pen(&t, &top(20, 200, 1.3)));
    // the end must pass the start's extreme
    assert!(!is_pen(&t, &bottom(20, 200, 1.1997)));
}

#[test]
fn pen_lifecycle() {
    let t = top(10, 100, 1.2);
    let b = bottom(20, 200, 1.0);
    let mut p = Pen::new(t, b);
    assert_eq!(p.pen_type(), PenType::Down);
    assert_eq!(p.status(), PenStatus::New);
    let lower = bottom(30, 300, 0.9);
    assert!(p.can_update_to(&lower));
    p.update_to(lower);
    assert_eq!(p.to().index(), 30);
    assert_eq!(p.from().index(), 10);
    assert_eq!(p.status(), PenStatus::Continue);
    p.commit();
    assert_eq!(p.status(), PenStatus::Complete);
    assert!(p.to().lowest() < p.from().highest());
    let up = Pen::new(lower, top(40, 400, 1.3));
    assert_eq!(up.pen_type(), PenType::Up);
    assert!(up.to().highest() > up.from().lowest());
}

#[test]
fn first_pen_waits_for_enough_distance() {
    let mut pd = PenDetector::new();
    assert!(pd.on_new_fractal(top(10, 100, 1.2)).is_none());
    // too close: held as a candidate
    assert!(pd.on_new_fractal(bottom(12, 120, 1.0)).is_none());
    assert!(!pd.has_pen());
    // a later bottom that makes a pen with the top replaces it
    match pd.on_new_fractal(bottom(20, 200, 0.9)) {
        Some(PenEvent::First(a, b)) => {
            assert_eq!(a.index(), 10);
            assert_eq!(b.index(), 20);
        }
        other => panic!("expected First, got {:?}", other),
    }
}
