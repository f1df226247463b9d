use chanlun::candle::Candle;
use chanlun::fractal::Fractal;
use chanlun::pen_detector::PenEvent;
use chanlun::segment_detector::{SegmentDetector, SegmentDirection, SegmentEvent};

fn top(index: u64, price: i64) -> Fractal {
    Fractal::new(
        Candle::new(index - 1, index as i64 - 1, 0, price - 5, price - 15, 0),
        Candle::new(index, index as i64, 0, price, price - 10, 0),
        Candle::new(index + 1, index as i64 + 1, 0, price - 6, price - 20, 0),
    )
}

fn bottom(index: u64, price: i64) -> Fractal {
    Fractal::new(
        Candle::new(index - 1, index as i64 - 1, 0, price + 15, price + 5, 0),
        Candle::new(index, index as i64, 0, price + 10, price, 0),
        Candle::new(index + 1, index as i64 + 1, 0, price + 20, price + 6, 0),
    )
}

#[test]
fn first_segment_scenario() {
    let p1 = bottom(10, 100);
    let p2 = top(20, 150);
    let p3 = bottom(30, 120);
    let p4 = top(40, 170);
    let p5 = bottom(50, 140);
    let mut sd = SegmentDetector::new();
    // a pen leads into p1, so that p1..p4 are the ends of three pens
    let p0 = top(5, 250);
    assert!(sd.on_pen_event(PenEvent::First(p0, p1)).is_none());
    assert!(sd.on_pen_event(PenEvent::New(p2)).is_none());
    assert!(sd.on_pen_event(PenEvent::New(p3)).is_none());
    assert!(sd.on_pen_event(PenEvent::New(p4)).is_none());
    assert_eq!(sd.direction(), None);
    // the pen p3-p4 closes when p5 arrives
    match sd.on_pen_event(PenEvent::New(p5)) {
        Some(SegmentEvent::New(a, b)) => {
            assert_eq!(a.index(), 10);
            assert_eq!(b.index(), 40);
        }
        other => panic!("expected a segment, got {:?}", other),
    }
    assert_eq!(sd.direction(), Some(SegmentDirection::Up));
}

#[test]
fn no_first_segment_without_overlap() {
    let mut sd = SegmentDetector::new();
    sd.on_pen_event(PenEvent::First(top(5, 250), bottom(10, 100)));
    sd.on_pen_event(PenEvent::New(top(20, 150)));
    sd.on_pen_event(PenEvent::New(bottom(30, 90)));
    sd.on_pen_event(PenEvent::New(top(40, 170)));
    assert!(sd.on_pen_event(PenEvent::New(bottom(50, 140))).is_none());
    assert_eq!(sd.direction(), None);
}

#[test]
fn down_first_segment() {
    let mut sd = SegmentDetector::new();
    sd.on_pen_event(PenEvent::First(bottom(5, 50), top(10, 200)));
    sd.on_pen_event(PenEvent::New(bottom(20, 150)));
    sd.on_pen_event(PenEvent::New(top(30, 180)));
    sd.on_pen_event(PenEvent::New(bottom(40, 130)));
    match sd.on_pen_event(PenEvent::New(top(50, 160))) {
        Some(SegmentEvent::New(a, b)) => {
            assert_eq!(a.index(), 10);
            assert_eq!(b.index(), 40);
        }
        other => panic!("expected a segment, got {:?}", other),
    }
    assert_eq!(sd.direction(), Some(SegmentDirection::Down));
}

#[test]
fn counter_trend_top_without_gap_ends_segment() {
    let mut sd = SegmentDetector::new();
    sd.on_pen_event(PenEvent::First(top(5, 250), bottom(10, 100)));
    sd.on_pen_event(PenEvent::New(top(20, 150)));
    sd.on_pen_event(PenEvent::New(bottom(30, 120)));
    sd.on_pen_event(PenEvent::New(top(40, 170)));
    assert!(sd.on_pen_event(PenEvent::New(bottom(50, 140))).is_some());
    assert!(sd.on_pen_event(PenEvent::New(top(60, 160))).is_none());
    assert!(sd.on_pen_event(PenEvent::New(bottom(70, 130))).is_none());
    match sd.on_pen_event(PenEvent::New(top(80, 150))) {
        Some(SegmentEvent::New(a, b)) => {
            assert_eq!(a.index(), 10);
            assert_eq!(b.index(), 40);
        }
        other => panic!("expected the segment to end, got {:?}", other),
    }
    assert_eq!(sd.direction(), Some(SegmentDirection::Down));
}

#[test]
fn update_to_replaces_the_open_end() {
    let mut sd = SegmentDetector::new();
    sd.on_pen_event(PenEvent::First(top(5, 250), bottom(10, 100)));
    sd.on_pen_event(PenEvent::New(top(20, 150)));
    sd.on_pen_event(PenEvent::New(bottom(30, 120)));
    // the open end moves from 120 down to 110: still no segment
    assert!(sd.on_pen_event(PenEvent::UpdateTo(bottom(32, 110))).is_none());
    sd.on_pen_event(PenEvent::New(top(40, 170)));
    match sd.on_pen_event(PenEvent::New(bottom(50, 140))) {
        Some(SegmentEvent::New(a, b)) => {
            assert_eq!(a.index(), 10);
            assert_eq!(b.index(), 40);
        }
        other => panic!("expected a segment, got {:?}", other),
    }
}

#[test]
fn process_needs_five_endpoints() {
    let mut sd = SegmentDetector::new();
    assert!(sd.process().is_none());
    // four endpoints that would open an up segment: still nothing
    sd.on_pen_event(PenEvent::First(bottom(10, 100), top(20, 150)));
    sd.on_pen_event(PenEvent::New(bottom(30, 120)));
    sd.on_pen_event(PenEvent::New(top(40, 170)));
    assert!(sd.process().is_none());
    assert_eq!(sd.direction(), None);
}

#[test]
fn first_segment_rule() {
    let up = SegmentDetector::is_first_segment(
        &bottom(10, 100),
        &top(20, 150),
        &bottom(30, 120),
        &top(40, 170),
    );
    assert_eq!(up, Some(SegmentDirection::Up));
    let none = SegmentDetector::is_first_segment(
        &bottom(10, 100),
        &top(20, 150),
        &bottom(30, 120),
        &top(40, 140),
    );
    assert_eq!(none, None);
}

/// An up segment from 100 to 200 whose first counter-trend pen leaves a gap.
fn gapped_up_segment(sd: &mut SegmentDetector) {
    sd.on_pen_event(PenEvent::First(top(5, 250), bottom(10, 100)));
    sd.on_pen_event(PenEvent::New(top(20, 150)));
    sd.on_pen_event(PenEvent::New(bottom(30, 120)));
    sd.on_pen_event(PenEvent::New(top(40, 200)));
    assert!(sd.on_pen_event(PenEvent::New(bottom(50, 160))).is_some());
    assert!(sd.on_pen_event(PenEvent::New(top(60, 190))).is_none());
    assert!(sd.on_pen_event(PenEvent::New(bottom(70, 150))).is_none());
}

#[test]
fn gap_then_confirmed_next_segment() {
    let mut sd = SegmentDetector::new();
    gapped_up_segment(&mut sd);
    assert!(sd.on_pen_event(PenEvent::New(top(80, 180))).is_none());
    assert!(sd.on_pen_event(PenEvent::New(bottom(90, 155))).is_none());
    assert!(sd.on_pen_event(PenEvent::New(top(100, 185))).is_none());
    match sd.on_pen_event(PenEvent::New(bottom(110, 170))) {
        Some(SegmentEvent::New2(a, b, c)) => {
            assert_eq!(a.index(), 10);
            assert_eq!(b.index(), 40);
            assert_eq!(c.index(), 70);
        }
        other => panic!("expected two segments, got {:?}", other),
    }
    assert_eq!(sd.direction(), Some(SegmentDirection::Up));
}

#[test]
fn gap_then_gapped_confirmation() {
    let mut sd = SegmentDetector::new();
    gapped_up_segment(&mut sd);
    assert!(sd.on_pen_event(PenEvent::New(top(80, 158))).is_none());
    assert!(sd.on_pen_event(PenEvent::New(bottom(90, 152))).is_none());
    assert!(sd.on_pen_event(PenEvent::New(top(100, 175))).is_none());
    match sd.on_pen_event(PenEvent::New(bottom(110, 170))) {
        Some(SegmentEvent::New(a, b)) => {
            assert_eq!(a.index(), 10);
            assert_eq!(b.index(), 40);
        }
        other => panic!("expected the segment to end, got {:?}", other),
    }
    assert_eq!(sd.direction(), Some(SegmentDirection::Down));
}

#[test]
fn new_high_moves_the_assumed_end() {
    let mut sd = SegmentDetector::new();
    sd.on_pen_event(PenEvent::First(top(5, 250), bottom(10, 100)));
    sd.on_pen_event(PenEvent::New(top(20, 150)));
    sd.on_pen_event(PenEvent::New(bottom(30, 120)));
    sd.on_pen_event(PenEvent::New(top(40, 170)));
    assert!(sd.on_pen_event(PenEvent::New(bottom(50, 140))).is_some());
    assert!(sd.on_pen_event(PenEvent::New(top(60, 190))).is_none());
    // 190 passes 170: the segment now ends, at the earliest, at 190
    assert!(sd.on_pen_event(PenEvent::New(bottom(70, 160))).is_none());
    assert!(sd.on_pen_event(PenEvent::New(top(80, 180))).is_none());
    assert!(sd.on_pen_event(PenEvent::New(bottom(90, 150))).is_none());
    match sd.on_pen_event(PenEvent::New(top(100, 170))) {
        Some(SegmentEvent::New(a, b)) => {
            assert_eq!(a.index(), 10);
            assert_eq!(b.index(), 60);
        }
        other => panic!("expected the segment to end at 190, got {:?}", other),
    }
}
