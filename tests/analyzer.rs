use chanlun::analyzer::Analyzer;
use chanlun::bar::Bar;
use chanlun::fractal::FractalType;
use chanlun::pen::{PenStatus, PenType};

/// A price series made of waves of varying length and size, one bar per
/// minute.
fn waves(n: i64) -> Vec<Bar> {
    let mut bars = Vec::new();
    let mut price: i64 = 100_000;
    for t in 0..n {
        let leg = 6 + (t / 50) % 5;
        let size = 20 + 7 * ((t / 37) % 4);
        let rising = (t / leg) % 2 == 0;
        let drift = if (t / 120) % 2 == 0 { 3 } else { -3 };
        price += if rising { size } else { -size + 5 } + drift;
        let spread = 5 + (t * 13) % 9;
        let open = price - 2;
        let close = price + 2;
        bars.push(Bar::new(60_000 * t, open, price + spread, price - spread, close));
    }
    bars
}

fn run(bars: &[Bar]) -> Analyzer {
    let mut a = Analyzer::new();
    for b in bars {
        a.on_new_bar(b);
    }
    a
}

#[test]
fn test_analyzer() {
    let bars = waves(2000);
    let a = run(&bars);
    let count = a.fractals().len();
    println!("count = {}", count);
    assert!(count > 0);
}

#[test]
fn replay_gives_the_same_events() {
    let bars = waves(3000);
    let a = run(&bars);
    let b = run(&bars);
    assert_eq!(format!("{:?}", a.fractals()), format!("{:?}", b.fractals()));
    assert_eq!(format!("{:?}", a.pens()), format!("{:?}", b.pens()));
    assert_eq!(format!("{:?}", a.segments()), format!("{:?}", b.segments()));
}

#[test]
fn fractal_and_pen_times_increase() {
    let a = run(&waves(3000));
    assert!(a.fractals().len() > 10);
    for f in a.fractals() {
        assert!(f.k1.bar.time <= f.k2.bar.time && f.k2.bar.time <= f.k3.bar.time);
    }
    assert!(a.pens().len() > 3);
    for p in a.pens() {
        assert!(p.from().time() < p.to().time());
    }
}

#[test]
fn pens_alternate_and_keep_their_distance() {
    let a = run(&waves(3000));
    let pens = a.pens();
    assert!(pens.len() > 3);
    for p in pens {
        assert_ne!(p.from().fractal_type(), p.to().fractal_type());
        assert!(p.from().distance(p.to()) >= 4);
        match p.pen_type() {
            PenType::Up => {
                assert_eq!(p.from().fractal_type(), FractalType::Bottom);
                assert!(p.to().highest() > p.from().lowest());
            }
            PenType::Down => {
                assert_eq!(p.from().fractal_type(), FractalType::Top);
                assert!(p.to().lowest() < p.from().highest());
            }
        }
    }
    for pair in pens.windows(2) {
        assert_eq!(pair[0].to().time(), pair[1].from().time());
    }
}

#[test]
fn run_matches_bar_by_bar() {
    let bars = waves(1500);
    let a = run(&bars);
    let b = Analyzer::run(&bars);
    assert_eq!(format!("{:?}", a.fractals()), format!("{:?}", b.fractals()));
    assert_eq!(format!("{:?}", a.pens()), format!("{:?}", b.pens()));
    assert_eq!(format!("{:?}", a.segments()), format!("{:?}", b.segments()));
    assert_eq!(a.next_index(), b.next_index());
    assert_eq!(a.last_time(), b.last_time());
}

#[test]
fn empty_series_reports_nothing() {
    let a = Analyzer::run(&Vec::new());
    assert!(a.fractals().is_empty());
    assert!(a.pens().is_empty());
    assert!(a.segments().is_empty());
    assert_eq!(a.last_time(), None);
}

#[test]
fn only_the_last_pen_is_open() {
    let a = run(&waves(3000));
    let pens = a.pens();
    assert!(pens.len() > 3);
    for p in &pens[..pens.len() - 1] {
        assert_eq!(p.status(), PenStatus::Complete);
    }
    assert_ne!(pens[pens.len() - 1].status(), PenStatus::Complete);
}
