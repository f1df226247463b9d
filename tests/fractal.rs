use chanlun::bar::Bar;
use chanlun::candle::Candle;
use chanlun::fractal::{Fractal, FractalType};
use chanlun::fractal_detector::FractalDetector;

/// Prices in the tests are written as decimals and held as integer ticks of
/// 0.00001.
fn px(v: f64) -> i64 {
    (v * 100000.0).round() as i64
}

fn bar(time: i64, open: f64, high: f64, low: f64, close: f64) -> Bar {
    Bar::new(time, px(open), px(high), px(low), px(close))
}

fn candle(index: u64, time: i64, open: f64, high: f64, low: f64, close: f64) -> Candle {
    Candle::new(index, time, px(open), px(high), px(low), px(close))
}

#[test]
fn test_distance_and_eq() {
    let k1 = candle(9, 2000000, 100.0, 100.0, 30.0, 30.0);
    let k2 = candle(10, 2000001, 150.0, 150.0, 120.0, 120.0);
    let k3 = candle(11, 2000002, 130.0, 130.0, 60.0, 60.0);

    let k4 = candle(12, 3000000, 90.0, 90.0, 60.0, 60.0);
    let k5 = candle(13, 3000001, 70.0, 70.0, 30.0, 30.0);
    let k6 = candle(14, 3000002, 80.0, 80.0, 50.0, 50.0);
    let f1 = Fractal::new(k1, k2, k3);
    let f2 = Fractal::new(k4, k5, k6);

    let d1 = f1.distance(&f2);
    let d2 = f2.distance(&f1);

    assert_eq!(d1, d2);
    assert_eq!(d1, 3);

    assert_ne!(f1, f2);

    assert!(f1.is_contain(&f2));
}

#[test]
fn test_detector() {
    let b1 = bar(1, 6.0, 8.0, 6.0, 8.0);
    let b2 = bar(2, 9.0, 9.0, 7.0, 7.0);
    let b3 = bar(3, 7.0, 7.0, 6.0, 6.0);
    let b4 = bar(4, 6.0, 9.0, 6.0, 9.0);
    let b5 = bar(5, 8.0, 11.0, 8.0, 11.0);

    let mut cq = FractalDetector::new();
    let f1 = cq.on_new_bar(&b1);
    let f2 = cq.on_new_bar(&b2);
    let f3 = cq.on_new_bar(&b3);
    let f4 = cq.on_new_bar(&b4);
    let f5 = cq.on_new_bar(&b5);
    assert!(f1.is_none());
    assert!(f2.is_none());
    assert!(f3.is_none());
    assert!(f4.is_none());
    assert!(f5.is_some());
    let f = f5.unwrap();
    assert_eq!(f.fractal_type(), FractalType::Top);
    let k1 = f.k1;
    let k2 = f.k2;
    let k3 = f.k3;
    assert!(k1.bar.high == px(8.0) && k1.bar.low == px(6.0));
    assert!(k2.bar.high == px(9.0) && k2.bar.low == px(7.0));
    assert!(k3.bar.high == px(7.0) && k3.bar.low == px(6.0));
}

#[test]
fn test_cq() {
    let bars = [
        bar(1, 6.0, 8.0, 6.0, 8.0),
        bar(2, 9.0, 9.0, 7.0, 7.0),
        bar(3, 7.0, 7.0, 6.0, 6.0),
        bar(4, 6.0, 9.0, 6.0, 9.0),
        bar(5, 8.0, 11.0, 8.0, 11.0),
    ];
    let mut cq = FractalDetector::new();
    let results: Vec<Option<Fractal>> = bars.iter().map(|b| cq.on_new_bar(b)).collect();
    assert!(results[..4].iter().all(|r| r.is_none()));
    let f = results[4].unwrap();
    assert!(f.k1.bar.high == px(8.0) && f.k1.bar.low == px(6.0));
    assert!(f.k2.bar.high == px(9.0) && f.k2.bar.low == px(7.0));
    assert!(f.k3.bar.high == px(7.0) && f.k3.bar.low == px(6.0));
}

#[test]
fn test_check_fractal() {
    let c1 = candle(0, 1052779380000, 1.15642, 1.15642, 1.15627, 1.15627);
    let c2 = candle(10, 1052779380000, 1.15645, 1.15645, 1.15634, 1.15634);
    let c3 = candle(20, 1052779500000, 1.15638, 1.15638, 1.1562, 1.1562);
    let c4 = candle(30, 1052780640000, 1.15604, 1.15604, 1.1559, 1.1559);
    let c5 = candle(40, 1052780820000, 1.15602, 1.15602, 1.15576, 1.15576);
    let c6 = candle(50, 1052780940000, 1.15624, 1.15624, 1.15599, 1.15599);

    let direction = Candle::check_direction(&c1, &c2);
    assert!(direction == chanlun::candle::Direction::Up);

    let f1 = Fractal::check_fractal(&c1, &c2, &c3);
    assert!(f1.is_some());
    assert!(f1.as_ref().unwrap().fractal_type() == FractalType::Top);
    assert!(f1.as_ref().unwrap().highest() == px(1.15645));

    let f2 = Fractal::check_fractal(&c4, &c5, &c6);
    assert!(f2.is_some());
    assert!(f2.as_ref().unwrap().fractal_type() == FractalType::Bottom);
    assert!(f2.as_ref().unwrap().lowest() == px(1.15576));
}

#[test]
fn fractal_analyzer_util_test_candle_util() {
    let c1 = candle(0, 1052779380000, 1.15642, 1.15642, 1.15627, 1.15627);
    let c2 = candle(10, 1052779380000, 1.15645, 1.15645, 1.15634, 1.15634);
    let c3 = candle(20, 1052779500000, 1.15638, 1.15638, 1.1562, 1.1562);
    let c4 = candle(30, 1052780640000, 1.15604, 1.15604, 1.1559, 1.1559);
    let c5 = candle(40, 1052780820000, 1.15602, 1.15602, 1.15576, 1.15576);
    let c6 = candle(50, 1052780940000, 1.15624, 1.15624, 1.15599, 1.15599);

    let direction = Candle::check_direction(&c1, &c2);
    assert!(direction == chanlun::candle::Direction::Up);

    let f1 = Fractal::check_fractal(&c1, &c2, &c3);
    assert!(f1.is_some());
    assert!(f1.as_ref().unwrap().fractal_type() == FractalType::Top);
    assert!(f1.as_ref().unwrap().price() == px(1.15645));

    let f2 = Fractal::check_fractal(&c4, &c5, &c6);
    assert!(f2.is_some());
    assert!(f2.as_ref().unwrap().fractal_type() == FractalType::Bottom);
    assert!(f2.as_ref().unwrap().price() == px(1.15576));

    let b1 = bar(1052692740000, 1.15166, 1.15176, 1.15156, 1.15176);
    let mut current = c1.clone();
    assert!(!Candle::merge(chanlun::candle::Direction::Up, &mut current, &b1));

    let mut con = c1.clone();
    let b2 = bar(1052692740000, 1.15636, 1.15639, 1.15635, 1.15638);
    assert!(Candle::merge(chanlun::candle::Direction::Up, &mut con, &b2));
    assert!(con.bar.high == px(1.15642));
    assert!(con.bar.low == px(1.15635));
}

#[test]
fn fractal_analyzer_util_test_contain_relationship() {
    let b = bar(10002, 100.0, 110.0, 95.0, 99.0);
    let c1 = candle(10, 10000, 100.0, 100.0, 50.0, 50.0);
    let mut c2 = candle(11, 10001, 120.0, 120.0, 90.0, 90.0);
    let direction = Candle::check_direction(&c1, &c2);
    let is_contained = Candle::merge(direction, &mut c2, &b);
    assert_eq!(is_contained, true);
    assert_eq!(direction, chanlun::candle::Direction::Up);
    assert_eq!(c2.bar.high, px(120.0));
    assert_eq!(c2.bar.low, px(95.0));
}

#[test]
fn check_fractal_none_on_a_slope() {
    let c1 = Candle::new(0, 1, 0, 10, 5, 0);
    let c2 = Candle::new(1, 2, 0, 12, 7, 0);
    let c3 = Candle::new(2, 3, 0, 14, 9, 0);
    assert!(Fractal::check_fractal(&c1, &c2, &c3).is_none());
}

#[test]
fn bottom_fractal_extremes() {
    let c1 = Candle::new(0, 1, 0, 20, 10, 0);
    let c2 = Candle::new(1, 2, 0, 15, 4, 0);
    let c3 = Candle::new(2, 3, 0, 25, 8, 0);
    let f = Fractal::check_fractal(&c1, &c2, &c3).unwrap();
    assert_eq!(f.fractal_type(), FractalType::Bottom);
    assert_eq!(f.lowest(), 4);
    assert_eq!(f.highest(), 25);
    assert_eq!(f.price(), 4);
    assert_eq!(f.time(), 2);
    assert_eq!(f.index(), 1);
    // a top with the same centre time is equal, whatever else differs
    let t = Fractal::new(Candle::new(5, 9, 0, 1, 0, 0), Candle::new(6, 2, 0, 30, 0, 0), c3);
    assert_eq!(f, t);
    assert!(!f.is_same_type(&t));
}

#[test]
fn five_bar_top_fractal_scenario() {
    let bars = [
        Bar::new(1, 6, 8, 6, 8),
        Bar::new(2, 9, 9, 7, 7),
        Bar::new(3, 7, 7, 6, 6),
        Bar::new(4, 6, 9, 6, 9),
        Bar::new(5, 8, 11, 8, 11),
    ];
    let mut d = FractalDetector::new();
    for b in &bars[..4] {
        assert!(d.on_new_bar(b).is_none());
    }
    let f = d.on_new_bar(&bars[4]).unwrap();
    assert_eq!(f.fractal_type(), FractalType::Top);
    assert_eq!((f.k2.bar.high, f.k2.bar.low), (9, 7));
    assert_eq!((f.k1.bar.high, f.k1.bar.low), (8, 6));
    assert_eq!((f.k3.bar.high, f.k3.bar.low), (7, 6));
    assert!(f.k1.bar.time <= f.k2.bar.time && f.k2.bar.time <= f.k3.bar.time);
}

#[test]
fn inclusion_merge_scenario() {
    let mut d = FractalDetector::with_candles();
    assert!(d.on_new_bar(&Bar::new(1, 100, 110, 95, 100)).is_none());
    assert!(d.on_new_bar(&Bar::new(2, 102, 108, 97, 103)).is_none());
    // no second candle was opened and nothing was confirmed
    assert_eq!(d.next_index(), 1);
    assert_eq!(d.get_candles().unwrap().len(), 0);
    assert_eq!(d.last_time(), Some(1));
}

#[test]
fn covered_bar_changes_no_history() {
    let mut d = FractalDetector::with_candles();
    d.on_new_bar(&Bar::new(1, 10, 12, 8, 10));
    d.on_new_bar(&Bar::new(2, 14, 16, 13, 14));
    d.on_new_bar(&Bar::new(3, 18, 20, 17, 18));
    let next = d.next_index();
    let recorded = d.get_candles().unwrap().clone();
    assert!(d.on_new_bar(&Bar::new(4, 18, 19, 17, 18)).is_none());
    assert_eq!(d.next_index(), next);
    assert_eq!(d.get_candles().unwrap().len(), recorded.len());
}

#[test]
fn bar_covering_the_first_candle_replaces_it() {
    let mut d = FractalDetector::new();
    d.on_new_bar(&Bar::new(1, 10, 12, 8, 10));
    d.on_new_bar(&Bar::new(2, 10, 20, 5, 10));
    assert_eq!(d.next_index(), 2);
    assert_eq!(d.last_time(), Some(2));
}

#[test]
fn recorded_candles_are_never_inclusive() {
    let mut d = FractalDetector::with_candles();
    let mut price: i64 = 1000;
    for t in 0..400i64 {
        let step = ((t * 37) % 11) - 5;
        price += step;
        let spread = 1 + (t % 4);
        let b = Bar::new(t, price, price + spread, price - spread, price);
        if let Some(f) = d.on_new_bar(&b) {
            assert!(f.k1.bar.time <= f.k2.bar.time && f.k2.bar.time <= f.k3.bar.time);
        }
    }
    let candles = d.get_candles().unwrap();
    assert!(candles.len() > 10);
    for pair in candles.windows(2) {
        let (a, b) = (pair[0], pair[1]);
        let a_covers_b = a.high >= b.high && a.low <= b.low;
        let b_covers_a = b.high >= a.high && b.low <= a.low;
        assert!(!a_covers_b && !b_covers_a);
    }
}
