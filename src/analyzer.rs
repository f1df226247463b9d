use vstd::prelude::*;

use crate::bar::{Bar, Time};
use crate::candle::Candle;
use crate::fractal::Fractal;
use crate::fractal_detector::{detect_step, FractalDetector};
use crate::pen::{pen_type_from, Pen, PenStatus, PenType};
use crate::pen_detector::{pen_step, PenDetector, PenEvent};
use crate::segment_detector::{
    initial_view, segment_step, SegmentDetector, SegmentEvent, SegmentView,
};

verus! {

/// The detector's window, its next index and the fractals reported, after a
/// fresh fractal detector has taken `bars`.
pub open spec fn detect_run(bars: Seq<Bar>) -> (Seq<Candle>, u64, Seq<Fractal>)
    decreases bars.len(),
{
    if bars.len() == 0 {
        (Seq::empty(), 0, Seq::empty())
    } else {
        let (w, next, fs) = detect_run(bars.drop_last());
        let (w2, next2, r) = detect_step(w, next, bars.last());
        (
            w2,
            next2,
            match r {
                Some(f) => fs.push(f),
                None => fs,
            },
        )
    }
}

/// Whether a pen exists, the candidate window, and the events reported,
/// after a fresh pen detector has taken `fs`.
pub open spec fn pen_run(fs: Seq<Fractal>) -> (bool, Seq<Fractal>, Seq<PenEvent>)
    decreases fs.len(),
{
    if fs.len() == 0 {
        (false, Seq::empty(), Seq::empty())
    } else {
        let (has_pen, w, es) = pen_run(fs.drop_last());
        let (has_pen2, w2, e) = pen_step(has_pen, w, fs.last());
        (
            has_pen2,
            w2,
            match e {
                Some(x) => es.push(x),
                None => es,
            },
        )
    }
}

/// What a kept pen records: its start, its end, its direction, its status.
pub type PenRecord = (Fractal, Fractal, PenType, PenStatus);

/// The record of each pen.
pub open spec fn records_of(pens: Seq<Pen>) -> Seq<PenRecord> {
    pens.map_values(|p: Pen| (p.spec_from(), p.spec_to(), p.spec_ptype(), p.spec_status()))
}

/// The pens after one more pen event: the first pen; the last pen complete
/// and a new one from its end; or the last pen with its end moved.
pub open spec fn records_after(rs: Seq<PenRecord>, e: PenEvent) -> Seq<PenRecord> {
    match e {
        PenEvent::First(a, b) => rs.push((a, b, pen_type_from(a.ftype), PenStatus::New)),
        PenEvent::New(c) => {
            let l = rs.last();
            rs.update(rs.len() - 1, (l.0, l.1, l.2, PenStatus::Complete)).push(
                (l.1, c, pen_type_from(l.1.ftype), PenStatus::New),
            )
        },
        PenEvent::UpdateTo(c) => {
            let l = rs.last();
            rs.update(rs.len() - 1, (l.0, c, l.2, PenStatus::Continue))
        },
    }
}

/// The pens that a series of pen events makes.
pub open spec fn records_of_events(es: Seq<PenEvent>) -> Seq<PenRecord>
    decreases es.len(),
{
    if es.len() == 0 {
        Seq::empty()
    } else {
        records_after(records_of_events(es.drop_last()), es.last())
    }
}

/// A fractal of the right shape whose candles are valid bars.
pub open spec fn sound(f: Fractal) -> bool {
    f.wf() && f.candles_valid()
}

/// A valid pen between two sound fractals.
pub open spec fn pen_ok(p: Pen) -> bool {
    p.wf() && sound(p.spec_from()) && sound(p.spec_to())
}

/// Every pen but the last is complete; the last is still open.
pub open spec fn statuses_ok(pens: Seq<Pen>) -> bool {
    &&& forall|i: int| 0 <= i < pens.len() - 1 ==> #[trigger] pens[i].spec_status() == PenStatus::Complete
    &&& pens.len() > 0 ==> pens.last().spec_status() != PenStatus::Complete
}

/// The segment detector's state and the segment events reported, after a
/// fresh segment detector has taken the pen events `es`.
pub open spec fn segment_run(es: Seq<PenEvent>) -> (SegmentView, Seq<SegmentEvent>)
    decreases es.len(),
{
    if es.len() == 0 {
        (initial_view(), Seq::empty())
    } else {
        let (v, ss) = segment_run(es.drop_last());
        let (v2, r) = segment_step(v, es.last());
        (
            v2,
            match r {
                Some(x) => ss.push(x),
                None => ss,
            },
        )
    }
}

/// A step never leaves the newest candle later than the bar just taken.
proof fn lemma_step_time(w: Seq<Candle>, next: u64, bar: Bar)
    requires
        w.len() > 0 ==> w.last().bar.time <= bar.time,
    ensures
        detect_step(w, next, bar).0.len() > 0,
        detect_step(w, next, bar).0.last().bar.time <= bar.time,
        detect_step(w, next, bar).1 <= next + 1,
{
}

/// The whole pipeline: bars into fractals, fractals into pens, pens into
/// segments, with everything reported kept in order.
pub struct Analyzer {
    fd: FractalDetector,
    pd: PenDetector,
    sd: SegmentDetector,
    fractals: Vec<Fractal>,
    pens: Vec<Pen>,
    segments: Vec<SegmentEvent>,
}

impl Analyzer {
    pub closed spec fn fractal_detector(&self) -> FractalDetector {
        self.fd
    }

    pub closed spec fn pen_detector(&self) -> PenDetector {
        self.pd
    }

    pub closed spec fn segment_detector(&self) -> SegmentDetector {
        self.sd
    }

    /// Every fractal reported so far.
    pub closed spec fn spec_fractals(&self) -> Seq<Fractal> {
        self.fractals@
    }

    /// The pens so far; the last one is still open.
    pub closed spec fn spec_pens(&self) -> Seq<Pen> {
        self.pens@
    }

    /// Every segment event so far.
    pub closed spec fn spec_segments(&self) -> Seq<SegmentEvent> {
        self.segments@
    }

    /// Each detector is in a reachable state; the pen detector only holds
    /// fractals centred no later than the oldest candle of the fractal
    /// detector; the last pen kept is the pen detector's current pen.
    pub closed spec fn wf(&self) -> bool {
        &&& self.fd.wf()
        &&& self.pd.wf()
        &&& self.sd.wf()
        &&& self.pd.spec_window().len() > 0 ==> self.fd.spec_window().len() > 0
        &&& forall|i: int|
            0 <= i < self.pd.spec_window().len() ==> #[trigger] self.pd.spec_window()[i].k2.index
                <= self.fd.spec_window()[0].index
        &&& self.pd.spec_has_pen() == (self.pens@.len() > 0)
        &&& self.pd.spec_has_pen() ==> {
            &&& self.pens@.last().spec_from() == self.pd.pen_from()
            &&& self.pens@.last().spec_to() == self.pd.pen_to()
        }
        &&& forall|i: int| 0 <= i < self.pd.spec_window().len() ==> sound(#[trigger] self.pd.spec_window()[i])
        &&& forall|i: int| 0 <= i < self.pens@.len() ==> pen_ok(#[trigger] self.pens@[i])
        &&& statuses_ok(self.pens@)
    }

    /// The pens kept are valid pens between sound fractals, each pointing the
    /// way its direction says; every pen but the last is complete, and the
    /// last is the pen detector's current pen, still open.
    pub proof fn lemma_pens_follow_detector(&self)
        requires
            self.wf(),
        ensures
            self.pen_detector().spec_has_pen() == (self.spec_pens().len() > 0),
            self.pen_detector().spec_has_pen() ==> self.spec_pens().last().spec_from()
                == self.pen_detector().pen_from(),
            self.pen_detector().spec_has_pen() ==> self.spec_pens().last().spec_to()
                == self.pen_detector().pen_to(),
            forall|i: int| 0 <= i < self.spec_pens().len() ==> pen_ok(#[trigger] self.spec_pens()[i]),
            statuses_ok(self.spec_pens()),
            forall|i: int|
                0 <= i < self.spec_pens().len() ==> {
                    let p = #[trigger] self.spec_pens()[i];
                    &&& p.spec_ptype() == PenType::Up ==> p.spec_to().spec_highest()
                        > p.spec_from().spec_lowest()
                    &&& p.spec_ptype() == PenType::Down ==> p.spec_to().spec_lowest()
                        < p.spec_from().spec_highest()
                },
    {
        assert forall|i: int| 0 <= i < self.spec_pens().len() implies {
            let p = #[trigger] self.spec_pens()[i];
            &&& p.spec_ptype() == PenType::Up ==> p.spec_to().spec_highest()
                > p.spec_from().spec_lowest()
            &&& p.spec_ptype() == PenType::Down ==> p.spec_to().spec_lowest()
                < p.spec_from().spec_highest()
        } by {
            let p = self.spec_pens()[i];
            assert(pen_ok(p));
            p.lemma_pen_direction();
        }
    }

    pub fn new() -> (r: Analyzer)
        ensures
            r.wf(),
            r.spec_fractals() == Seq::<Fractal>::empty(),
            r.spec_pens() == Seq::<Pen>::empty(),
            r.spec_segments() == Seq::<SegmentEvent>::empty(),
            r.fractal_detector().spec_window() == Seq::<Candle>::empty(),
            r.fractal_detector().spec_next_index() == 0,
            !r.pen_detector().spec_has_pen(),
            r.pen_detector().spec_window() == Seq::<Fractal>::empty(),
            r.segment_detector().view_of() == initial_view(),
    {
        Analyzer {
            fd: FractalDetector::new(),
            pd: PenDetector::new(),
            sd: SegmentDetector::new(),
            fractals: Vec::new(),
            pens: Vec::new(),
            segments: Vec::new(),
        }
    }

    /// Index that the next merged candle will get; it must stay below
    /// `u64::MAX` for another bar to be taken.
    pub fn next_index(&self) -> (r: u64)
        ensures
            r == self.fractal_detector().spec_next_index(),
    {
        self.fd.next_index()
    }

    /// Time of the newest candle, which the next bar must not precede.
    pub fn last_time(&self) -> (r: Option<Time>)
        ensures
            r.is_some() == (self.fractal_detector().spec_window().len() > 0),
            r.is_some() ==> r.unwrap() == self.fractal_detector().spec_window().last().bar.time,
    {
        self.fd.last_time()
    }

    pub fn fractals(&self) -> (r: &Vec<Fractal>)
        ensures
            r@ == self.spec_fractals(),
    {
        &self.fractals
    }

    pub fn pens(&self) -> (r: &Vec<Pen>)
        ensures
            r@ == self.spec_pens(),
    {
        &self.pens
    }

    pub fn segments(&self) -> (r: &Vec<SegmentEvent>)
        ensures
            r@ == self.spec_segments(),
    {
        &self.segments
    }

    /// Keeps the pens in step with a pen event.
    fn record_pen(&mut self, event: PenEvent)
        requires
            forall|i: int| 0 <= i < old(self).pens@.len() ==> pen_ok(#[trigger] old(self).pens@[i]),
            statuses_ok(old(self).pens@),
            match event {
                PenEvent::First(a, b) => sound(a) && sound(b),
                PenEvent::New(c) => sound(c),
                PenEvent::UpdateTo(c) => sound(c),
            },
            match event {
                PenEvent::First(a, b) => old(self).pens@.len() == 0
                    && crate::pen_detector::spec_is_pen(a, b),
                PenEvent::New(c) => old(self).pens@.len() > 0
                    && crate::pen_detector::spec_is_pen(old(self).pens@.last().spec_to(), c),
                PenEvent::UpdateTo(c) => old(self).pens@.len() > 0
                    && crate::pen_detector::spec_is_pen(old(self).pens@.last().spec_from(), c),
            },
        ensures
            final(self).fd == old(self).fd,
            final(self).pd == old(self).pd,
            final(self).sd == old(self).sd,
            final(self).fractals == old(self).fractals,
            final(self).segments == old(self).segments,
            forall|i: int| 0 <= i < final(self).pens@.len() ==> pen_ok(#[trigger] final(self).pens@[i]),
            statuses_ok(final(self).pens@),
            final(self).pens@.len() > 0,
            records_of(final(self).pens@) == records_after(records_of(old(self).pens@), event),
            match event {
                PenEvent::First(a, b) => {
                    &&& final(self).pens@.len() == old(self).pens@.len() + 1
                    &&& final(self).pens@.last().spec_from() == a
                    &&& final(self).pens@.last().spec_to() == b
                },
                PenEvent::New(c) => {
                    &&& final(self).pens@.len() == old(self).pens@.len() + 1
                    &&& final(self).pens@.last().spec_from() == old(self).pens@.last().spec_to()
                    &&& final(self).pens@.last().spec_to() == c
                },
                PenEvent::UpdateTo(c) => {
                    &&& final(self).pens@.len() == old(self).pens@.len()
                    &&& final(self).pens@.last().spec_from() == old(self).pens@.last().spec_from()
                    &&& final(self).pens@.last().spec_to() == c
                },
            },
    {
        match event {
            PenEvent::First(a, b) => {
                self.pens.push(Pen::new(a, b));
            },
            PenEvent::New(c) => {
                let k = self.pens.len() - 1;
                self.pens[k].commit();
                let from = *self.pens[k].to();
                self.pens.push(Pen::new(from, c));
            },
            PenEvent::UpdateTo(c) => {
                let k = self.pens.len() - 1;
                self.pens[k].update_to(c);
            },
        }
        proof {
            assert(records_of(self.pens@) =~= records_after(records_of(old(self).pens@), event));
            assert forall|i: int| 0 <= i < self.pens@.len() implies pen_ok(#[trigger] self.pens@[i]) by {
                if i < old(self).pens@.len() {
                    assert(pen_ok(old(self).pens@[i]));
                }
            }
            assert forall|i: int| 0 <= i < self.pens@.len() - 1 implies #[trigger] self.pens@[i].spec_status()
                == PenStatus::Complete by {
                assert(records_of(self.pens@)[i] == records_after(
                    records_of(old(self).pens@),
                    event,
                )[i]);
                assert(records_of(self.pens@)[i].3 == self.pens@[i].spec_status());
                if i < old(self).pens@.len() - 1 {
                    assert(old(self).pens@[i].spec_status() == PenStatus::Complete);
                    assert(records_of(old(self).pens@)[i].3 == old(self).pens@[i].spec_status());
                }
            }
        }
    }

    /// Runs a series of valid bars, in time order, through a fresh analyzer.
    /// Everything reported (fractals, pens with their status, segments) and
    /// the state of every detector are functions of the bars alone, so two
    /// runs over the same bars report the same.
    pub fn run(bars: &Vec<Bar>) -> (r: Analyzer)
        requires
            bars@.len() < u64::MAX,
            forall|i: int, j: int| 0 <= i <= j < bars@.len() ==> bars@[i].time <= bars@[j].time,
            forall|i: int| 0 <= i < bars@.len() ==> #[trigger] bars@[i].wf(),
        ensures
            r.wf(),
            r.spec_fractals() == detect_run(bars@).2,
            r.fractal_detector().spec_window() == detect_run(bars@).0,
            r.fractal_detector().spec_next_index() == detect_run(bars@).1,
            r.pen_detector().spec_has_pen() == pen_run(detect_run(bars@).2).0,
            r.pen_detector().spec_window() == pen_run(detect_run(bars@).2).1,
            records_of(r.spec_pens()) == records_of_events(pen_run(detect_run(bars@).2).2),
            r.segment_detector().view_of() == segment_run(pen_run(detect_run(bars@).2).2).0,
            r.spec_segments() == segment_run(pen_run(detect_run(bars@).2).2).1,
    {
        let mut a = Analyzer::new();
        let mut i: usize = 0;
        assert(bars@.take(0) =~= Seq::<Bar>::empty());
        while i < bars.len()
            invariant
                a.wf(),
                i <= bars@.len() < u64::MAX,
                forall|k: int, j: int|
                    0 <= k <= j < bars@.len() ==> bars@[k].time <= bars@[j].time,
                forall|k: int| 0 <= k < bars@.len() ==> #[trigger] bars@[k].wf(),
                a.spec_fractals() == detect_run(bars@.take(i as int)).2,
                a.fractal_detector().spec_window() == detect_run(bars@.take(i as int)).0,
                a.fractal_detector().spec_next_index() == detect_run(bars@.take(i as int)).1,
                a.fractal_detector().spec_next_index() <= i,
                a.fractal_detector().spec_window().len() > 0 ==> i > 0
                    && a.fractal_detector().spec_window().last().bar.time <= bars@[i - 1].time,
                a.pen_detector().spec_has_pen() == pen_run(a.spec_fractals()).0,
                a.pen_detector().spec_window() == pen_run(a.spec_fractals()).1,
                records_of(a.spec_pens()) == records_of_events(pen_run(a.spec_fractals()).2),
                a.segment_detector().view_of() == segment_run(pen_run(a.spec_fractals()).2).0,
                a.spec_segments() == segment_run(pen_run(a.spec_fractals()).2).1,
            decreases bars@.len() - i,
        {
            let ghost before = a;
            let ghost prefix = bars@.take(i as int);
            let bar = &bars[i];
            proof {
                if before.fractal_detector().spec_window().len() > 0 {
                    assert(bars@[i - 1].time <= bars@[i as int].time);
                }
                lemma_step_time(
                    before.fractal_detector().spec_window(),
                    before.fractal_detector().spec_next_index(),
                    *bar,
                );
            }
            a.on_new_bar(bar);
            proof {
                let taken = bars@.take(i + 1);
                assert(taken.drop_last() =~= prefix);
                assert(taken.last() == *bar);
                let fs = before.spec_fractals();
                let fs2 = a.spec_fractals();
                if fs2.len() > fs.len() {
                    assert(fs2.drop_last() =~= fs);
                    let es = pen_run(fs).2;
                    let es2 = pen_run(fs2).2;
                    if es2.len() > es.len() {
                        assert(es2.drop_last() =~= es);
                        let ss = segment_run(es).1;
                        let ss2 = segment_run(es2).1;
                        if ss2.len() > ss.len() {
                            assert(ss2.drop_last() =~= ss);
                        }
                    }
                }
            }
            i = i + 1;
        }
        assert(bars@.take(bars@.len() as int) =~= bars@);
        a
    }

    /// Takes the next bar through the whole pipeline.
    pub fn on_new_bar(&mut self, bar: &Bar)
        requires
            old(self).wf(),
            old(self).fractal_detector().spec_next_index() < u64::MAX,
            old(self).fractal_detector().spec_window().len() > 0 ==> bar.time >= old(
                self,
            ).fractal_detector().spec_window().last().bar.time,
            bar.wf(),
        ensures
            final(self).wf(),
            ({
                let (w, next, emitted) = detect_step(
                    old(self).fractal_detector().spec_window(),
                    old(self).fractal_detector().spec_next_index(),
                    *bar,
                );
                &&& final(self).fractal_detector().spec_window() == w
                &&& final(self).fractal_detector().spec_next_index() == next
                &&& match emitted {
                    Some(f) => {
                        let (has_pen, pw, _) = pen_step(
                            old(self).pen_detector().spec_has_pen(),
                            old(self).pen_detector().spec_window(),
                            f,
                        );
                        &&& final(self).spec_fractals() == old(self).spec_fractals().push(f)
                        &&& final(self).pen_detector().spec_has_pen() == has_pen
                        &&& final(self).pen_detector().spec_window() == pw
                        &&& records_of(final(self).spec_pens()) == match pen_step(
                            old(self).pen_detector().spec_has_pen(),
                            old(self).pen_detector().spec_window(),
                            f,
                        ).2 {
                            Some(e) => records_after(records_of(old(self).spec_pens()), e),
                            None => records_of(old(self).spec_pens()),
                        }
                        &&& match pen_step(
                            old(self).pen_detector().spec_has_pen(),
                            old(self).pen_detector().spec_window(),
                            f,
                        ).2 {
                            Some(e) => {
                                let (v, se) = segment_step(old(self).segment_detector().view_of(), e);
                                &&& final(self).segment_detector().view_of() == v
                                &&& final(self).spec_segments() == match se {
                                    Some(x) => old(self).spec_segments().push(x),
                                    None => old(self).spec_segments(),
                                }
                            },
                            None => {
                                &&& final(self).segment_detector().view_of() == old(self).segment_detector().view_of()
                                &&& final(self).spec_segments() == old(self).spec_segments()
                            },
                        }
                    },
                    None => {
                        &&& final(self).spec_fractals() == old(self).spec_fractals()
                        &&& final(self).pen_detector() == old(self).pen_detector()
                        &&& final(self).spec_pens() == old(self).spec_pens()
                        &&& final(self).spec_segments() == old(self).spec_segments()
                        &&& final(self).segment_detector().view_of() == old(self).segment_detector().view_of()
                    },
                }
            }),
    {
        let fractal = self.fd.on_new_bar(bar);
        match fractal {
            Some(f) => {
                self.fractals.push(f);
                let ghost old_w = self.pd.spec_window();
                let pe = self.pd.on_new_fractal(f);
                proof {
                    self.pd.lemma_pen_window();
                    let w = self.pd.spec_window();
                    assert forall|i: int| 0 <= i < w.len() implies sound(#[trigger] w[i]) by {
                        if w[i] != f {
                            assert(old_w.contains(w[i]));
                            let j = choose|j: int| 0 <= j < old_w.len() && old_w[j] == w[i];
                            assert(sound(old_w[j]));
                        }
                    }
                    if w.len() > 0 {
                        assert(sound(w[0]));
                    }
                    if w.len() > 1 {
                        assert(sound(w[1]));
                    }
                }
                match pe {
                    Some(pen_event) => {
                        self.record_pen(pen_event);
                        let se = self.sd.on_pen_event(pen_event);
                        match se {
                            Some(s) => self.segments.push(s),
                            None => {},
                        }
                    },
                    None => {},
                }
            },
            None => {},
        }
    }
}

} // verus!
