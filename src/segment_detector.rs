use vstd::prelude::*;

use crate::fractal::Fractal;
use crate::pen_detector::PenEvent;
use crate::ringbuffer::RingBuffer;
use crate::sequence::{
    seq_contains, spec_high, spec_is_bottom_fractal, spec_is_top_fractal, spec_low,
    MergeDirection, Sequence,
};

verus! {

/// Why a segment ended.
#[allow(non_camel_case_types)]
#[derive(Debug, Clone, Copy, PartialEq, Eq, Structural)]
pub enum TerminationReson {
    /// The counter-trend sequence makes a fractal without a gap.
    CASE1,
    /// After a gap, the with-trend sequence makes a fractal without a gap:
    /// the next segment is confirmed as well.
    CASE21,
    /// After a gap, the with-trend sequence makes a fractal with a gap.
    CASE22,
}

#[derive(Debug, Clone, Copy)]
pub enum SegmentEvent {
    /// A segment from the first fractal to the second is confirmed.
    New(Fractal, Fractal),
    /// Two segments are confirmed at once: from the first fractal to the
    /// second, and from the second to the third.
    New2(Fractal, Fractal, Fractal),
}

#[derive(Debug, Clone, Copy, PartialEq, Eq, Structural)]
pub enum SegmentDirection {
    Up,
    Down,
}

/// Whether four consecutive pen endpoints open a segment, and in which
/// direction: each end beyond the one two places before it, the middle pen
/// overlapping both others.
pub open spec fn first_segment(p1: i64, p2: i64, p3: i64, p4: i64) -> Option<SegmentDirection> {
    if p1 < p2 && p2 > p3 && p3 > p1 && p4 > p3 && p4 > p2 {
        Some(SegmentDirection::Up)
    } else if p1 > p2 && p2 < p3 && p3 < p1 && p4 < p3 && p4 < p2 {
        Some(SegmentDirection::Down)
    } else {
        None
    }
}

/// The counter-trend sequence of a segment merges in the segment's direction.
pub open spec fn merge_direction_of(d: SegmentDirection) -> MergeDirection {
    match d {
        SegmentDirection::Up => MergeDirection::Up,
        SegmentDirection::Down => MergeDirection::Down,
    }
}

/// The with-trend sequence merges against the segment's direction.
pub open spec fn flip_merge_direction_of(d: SegmentDirection) -> MergeDirection {
    match d {
        SegmentDirection::Up => MergeDirection::Down,
        SegmentDirection::Down => MergeDirection::Up,
    }
}

pub open spec fn flipped(d: SegmentDirection) -> SegmentDirection {
    match d {
        SegmentDirection::Up => SegmentDirection::Down,
        SegmentDirection::Down => SegmentDirection::Up,
    }
}

/// The pen from endpoint `i` to endpoint `i + 1` as a sequence element.
pub open spec fn pen_sequence(f: Seq<Fractal>, i: int) -> Sequence {
    Sequence {
        from_index: i as usize,
        from_time: f[i].k2.bar.time,
        from_price: f[i].spec_price(),
        to_index: (i + 1) as usize,
        to_time: f[i + 1].k2.bar.time,
        to_price: f[i + 1].spec_price(),
    }
}

/// The three newest elements of a window make the fractal that ends a
/// segment of direction `d` (a top for an up segment).
pub open spec fn reversal_fractal(w: Seq<Sequence>, d: SegmentDirection) -> bool {
    w.len() == 3 && match d {
        SegmentDirection::Up => spec_is_top_fractal(w[0], w[1], w[2]),
        SegmentDirection::Down => spec_is_bottom_fractal(w[0], w[1], w[2]),
    }
}

/// The three newest elements of a window make the fractal of the opposite
/// polarity (a bottom for an up segment).
pub open spec fn confirming_fractal(w: Seq<Sequence>, d: SegmentDirection) -> bool {
    w.len() == 3 && match d {
        SegmentDirection::Up => spec_is_bottom_fractal(w[0], w[1], w[2]),
        SegmentDirection::Down => spec_is_top_fractal(w[0], w[1], w[2]),
    }
}

/// Between the first two elements of the counter-trend window lies a gap.
pub open spec fn window1_gap(w: Seq<Sequence>, d: SegmentDirection) -> bool {
    w.len() >= 2 && match d {
        SegmentDirection::Up => spec_high(w[0]) < spec_low(w[1]),
        SegmentDirection::Down => spec_low(w[0]) > spec_high(w[1]),
    }
}

/// Between the first two elements of the with-trend window lies a gap.
pub open spec fn window2_gap(w: Seq<Sequence>, d: SegmentDirection) -> bool {
    w.len() >= 2 && match d {
        SegmentDirection::Up => spec_low(w[0]) > spec_high(w[1]),
        SegmentDirection::Down => spec_high(w[0]) < spec_low(w[1]),
    }
}

/// The first two elements of a reversal fractal overlap.
pub open spec fn no_gap_case_1(w: Seq<Sequence>, d: SegmentDirection) -> bool {
    w.len() == 3 && match d {
        SegmentDirection::Up => spec_high(w[0]) >= spec_low(w[1]),
        SegmentDirection::Down => spec_low(w[0]) <= spec_high(w[1]),
    }
}

/// Whether, and how, the windows end a segment of direction `d`.
pub open spec fn termination(w1: Seq<Sequence>, w2: Seq<Sequence>, d: SegmentDirection) -> Option<
    TerminationReson,
> {
    if reversal_fractal(w1, d) && no_gap_case_1(w1, d) {
        Some(TerminationReson::CASE1)
    } else if window1_gap(w1, d) && confirming_fractal(w2, d) {
        if window2_gap(w2, d) {
            Some(TerminationReson::CASE22)
        } else {
            Some(TerminationReson::CASE21)
        }
    } else {
        None
    }
}

/// `s` after taking in `rhs` in direction `dir`.
pub open spec fn merged_in(s: Sequence, rhs: Sequence, dir: MergeDirection) -> Sequence {
    if dir == MergeDirection::Up {
        crate::sequence::merged_up(s, rhs)
    } else {
        crate::sequence::merged_down(s, rhs)
    }
}

/// A window after `seq` is added: merged into the newest element when one
/// of them strictly covers the other, else appended.
pub open spec fn window_added(w: Seq<Sequence>, seq: Sequence, dir: MergeDirection) -> Seq<Sequence> {
    if w.len() > 0 && seq_contains(w.last(), seq) {
        w.update(w.len() - 1, merged_in(w.last(), seq, dir))
    } else {
        crate::ringbuffer::pushed(w, 3, seq)
    }
}

/// The event that ends a segment from `start` to `current` for `reason`;
/// `w2` is the with-trend window that confirmed it.
pub open spec fn termination_event(
    f: Seq<Fractal>,
    start: int,
    current: int,
    reason: Option<TerminationReson>,
    w2: Seq<Sequence>,
) -> Option<SegmentEvent> {
    match reason {
        None => None,
        Some(TerminationReson::CASE21) => Some(
            SegmentEvent::New2(f[start], f[current], f[w2[1].from_index as int]),
        ),
        Some(_) => Some(SegmentEvent::New(f[start], f[current])),
    }
}

/// Direction of the segment in progress after `reason`: a single confirmed
/// segment turns it, two confirmed at once keep it.
pub open spec fn direction_after(d: SegmentDirection, reason: Option<TerminationReson>) -> SegmentDirection {
    match reason {
        Some(TerminationReson::CASE1) => flipped(d),
        Some(TerminationReson::CASE22) => flipped(d),
        _ => d,
    }
}

/// The newest endpoint lies beyond the assumed end in the segment's direction.
pub open spec fn new_extreme(f: Seq<Fractal>, current: int, d: SegmentDirection) -> bool {
    match d {
        SegmentDirection::Up => f.last().spec_price() > f[current].spec_price(),
        SegmentDirection::Down => f.last().spec_price() < f[current].spec_price(),
    }
}

/// The pen that closes at the newest endpoint runs with the segment.
pub open spec fn with_trend(f: Seq<Fractal>, d: SegmentDirection) -> bool {
    match d {
        SegmentDirection::Up => f.last().spec_price() > f[f.len() - 2].spec_price(),
        SegmentDirection::Down => f.last().spec_price() < f[f.len() - 2].spec_price(),
    }
}

/// The two windows after the closed pen is filed into the one it belongs to.
pub open spec fn windows_after(
    f: Seq<Fractal>,
    d: SegmentDirection,
    w1: Seq<Sequence>,
    w2: Seq<Sequence>,
) -> (Seq<Sequence>, Seq<Sequence>) {
    let seq = pen_sequence(f, f.len() - 2);
    if with_trend(f, d) {
        (w1, window_added(w2, seq, flip_merge_direction_of(d)))
    } else {
        (window_added(w1, seq, merge_direction_of(d)), w2)
    }
}

/// What analysing the newest closed pen reports while a segment of
/// direction `d` runs from `start` to the assumed end `current`.
pub open spec fn segment_step_event(
    f: Seq<Fractal>,
    start: int,
    current: int,
    d: SegmentDirection,
    w1: Seq<Sequence>,
    w2: Seq<Sequence>,
) -> Option<SegmentEvent> {
    if new_extreme(f, current, d) {
        None
    } else {
        let (w1a, w2a) = windows_after(f, d, w1, w2);
        termination_event(f, start, current, termination(w1a, w2a, d), w2a)
    }
}

/// The element of the characteristic sequence that begins with the pen at
/// `start`, once the pens at `start + 2`, ..., `start + 2 * k` have been
/// tried in turn: each merges in while one of the two strictly covers the
/// other, and the first that does not ends the element, so that later pens
/// are not taken. The flag says whether the element is still open.
pub open spec fn seq_fold(f: Seq<Fractal>, start: int, k: nat, dir: MergeDirection) -> (
    Sequence,
    bool,
)
    decreases k,
{
    if k == 0 {
        (pen_sequence(f, start), true)
    } else {
        let (acc, open) = seq_fold(f, start, (k - 1) as nat, dir);
        let next = pen_sequence(f, start + 2 * k);
        if open && seq_contains(acc, next) {
            (merged_in(acc, next, dir), true)
        } else {
            (acc, false)
        }
    }
}

/// Once the element is closed, trying further pens changes nothing.
proof fn lemma_fold_closed(f: Seq<Fractal>, start: int, k: nat, k2: nat, dir: MergeDirection)
    requires
        k <= k2,
        !seq_fold(f, start, k, dir).1,
    ensures
        seq_fold(f, start, k2, dir) == seq_fold(f, start, k, dir),
    decreases k2 - k,
{
    if k < k2 {
        lemma_fold_closed(f, start, k, (k2 - 1) as nat, dir);
    }
}

/// The counter-trend window rebuilt from the pens that start at `p2`,
/// `p2 + 2`, ... before `p4`: the element that begins at `p2`.
pub open spec fn rebuilt_window(f: Seq<Fractal>, p2: int, p4: int, dir: MergeDirection) -> Seq<
    Sequence,
> {
    if p2 < p4 {
        seq![seq_fold(f, p2, ((p4 - p2 - 1) / 2) as nat, dir).0]
    } else {
        Seq::empty()
    }
}

/// A segment event reported while a segment runs from `start` to the assumed
/// end `current` over the endpoints `f`: it confirms that segment, and the
/// next one starts where the reported segments end.
pub open spec fn continues(
    f: Seq<Fractal>,
    start: int,
    current: int,
    r: Option<SegmentEvent>,
    new_start: int,
) -> bool {
    match r {
        None => true,
        Some(SegmentEvent::New(a, b)) => a == f[start] && b == f[current] && new_start == current,
        Some(SegmentEvent::New2(a, b, c)) => a == f[start] && b == f[current] && c == f[new_start],
    }
}

/// The state of a segment detector: the pen endpoints held, the direction of
/// the segment in progress, where it starts, its assumed end, and the
/// counter-trend and with-trend windows.
pub type SegmentView = (Seq<Fractal>, Option<SegmentDirection>, int, int, Seq<Sequence>, Seq<Sequence>);

/// The state of a fresh segment detector.
pub open spec fn initial_view() -> SegmentView {
    (Seq::empty(), None, 0, 0, Seq::empty(), Seq::empty())
}

/// `v` with `p4` as the assumed end and the counter-trend window rebuilt from
/// `p2` up to it.
pub open spec fn reset_view(v: SegmentView, p2: int, p4: int, dir: MergeDirection) -> SegmentView {
    (v.0, v.1, v.2, p4, rebuilt_window(v.0, p2, p4, dir), Seq::empty())
}

/// The state after a segment of direction `v.1` ends for `reason`.
pub open spec fn terminate(v: SegmentView, reason: Option<TerminationReson>) -> SegmentView {
    let f = v.0;
    let d = v.1.unwrap();
    match reason {
        None => v,
        Some(TerminationReson::CASE1) => {
            let d2 = flipped(d);
            let last = f.len() - 1;
            let p2 = if v.3 < last {
                v.3 + 1
            } else {
                last
            };
            reset_view((f, Some(d2), v.3, v.3, v.4, v.5), p2, last, merge_direction_of(d2))
        },
        Some(TerminationReson::CASE21) => {
            let c2 = v.5[1];
            let c3 = v.5[2];
            reset_view(
                (f, v.1, c2.from_index as int, v.3, v.4, v.5),
                c2.to_index as int,
                c3.to_index as int,
                merge_direction_of(d),
            )
        },
        Some(TerminationReson::CASE22) => {
            let c1 = v.5[0];
            let c2 = v.5[1];
            let d2 = flipped(d);
            reset_view(
                (f, Some(d2), v.3, v.3, v.4, v.5),
                c1.from_index as int,
                c2.from_index as int,
                merge_direction_of(d2),
            )
        },
    }
}

/// Analysing the endpoints held, of which the newest closed the last pen:
/// the new state and the event reported. Fewer than five endpoints give
/// nothing; the first segment is tested on the four newest.
pub open spec fn process_view(v: SegmentView) -> (SegmentView, Option<SegmentEvent>) {
    let f = v.0;
    let n = f.len() as int;
    if n < 5 {
        (v, None)
    } else if v.1.is_none() {
        let d = first_segment(
            f[n - 4].spec_price(),
            f[n - 3].spec_price(),
            f[n - 2].spec_price(),
            f[n - 1].spec_price(),
        );
        match d {
            Some(dd) => (
                reset_view((f, d, n - 4, n - 1, v.4, v.5), n - 3, n - 1, merge_direction_of(dd)),
                Some(SegmentEvent::New(f[n - 4], f[n - 1])),
            ),
            None => ((f.drop_first(), None, n - 4, n - 1, Seq::empty(), Seq::empty()), None),
        }
    } else {
        let d = v.1.unwrap();
        if new_extreme(f, v.3, d) {
            (reset_view(v, v.3, n - 1, merge_direction_of(d)), None)
        } else {
            let (w1a, w2a) = windows_after(f, d, v.4, v.5);
            let reason = termination(w1a, w2a, d);
            (
                terminate((f, v.1, v.2, v.3, w1a, w2a), reason),
                termination_event(f, v.2, v.3, reason, w2a),
            )
        }
    }
}

/// One pen event: the new state and the segment event reported.
pub open spec fn segment_step(v: SegmentView, e: PenEvent) -> (SegmentView, Option<SegmentEvent>) {
    match e {
        PenEvent::First(a, b) => ((v.0.push(a).push(b), v.1, v.2, v.3, v.4, v.5), None),
        PenEvent::UpdateTo(a) => {
            let f = if v.0.len() > 0 {
                v.0.drop_last().push(a)
            } else {
                v.0.push(a)
            };
            ((f, v.1, v.2, v.3, v.4, v.5), None)
        },
        PenEvent::New(a) => {
            let (v2, r) = process_view(v);
            ((v2.0.push(a), v2.1, v2.2, v2.3, v2.4, v2.5), r)
        },
    }
}

/// Adds `seq` to a window of the characteristic sequence.
fn push_merged(window: &mut RingBuffer<Sequence>, seq: Sequence, dir: MergeDirection, n: Ghost<int>)
    requires
        old(window).cap() == 3,
        SegmentDetector::window_ok(old(window)@, n@),
        seq.from_index < n@,
        seq.to_index < n@,
    ensures
        final(window).cap() == 3,
        final(window)@ == window_added(old(window)@, seq, dir),
        SegmentDetector::window_ok(final(window)@, n@),
{
    let merged = match window.get_mut(-1) {
        Some(tail) => tail.merge(&seq, dir),
        None => false,
    };
    if !merged {
        window.push(seq);
    }
    proof {
        let w = final(window)@;
        assert forall|i: int| 0 <= i < w.len() implies #[trigger] w[i].from_index < n@
            && w[i].to_index < n@ by {
            if i < old(window)@.len() as int - 1 || !merged {
                if !merged && old(window)@.len() >= 3 && i < w.len() - 1 {
                    assert(w[i] == old(window)@[i + 1]);
                }
            }
        }
    }
}

/// Finds segments over the endpoints of the pens that the pen detector
/// reports.
pub struct SegmentDetector {
    fractals: Vec<Fractal>,
    direction: Option<SegmentDirection>,
    // where the current segment starts
    start_point: usize,
    // the assumed end of the current segment
    current: usize,
    // the counter-trend characteristic sequence
    window1: RingBuffer<Sequence>,
    // the with-trend characteristic sequence
    window2: RingBuffer<Sequence>,
}

impl SegmentDetector {
    /// The pen endpoints held, the last one still open.
    pub closed spec fn spec_fractals(&self) -> Seq<Fractal> {
        self.fractals@
    }

    pub closed spec fn spec_direction(&self) -> Option<SegmentDirection> {
        self.direction
    }

    pub closed spec fn spec_start(&self) -> int {
        self.start_point as int
    }

    pub closed spec fn spec_current(&self) -> int {
        self.current as int
    }

    pub closed spec fn spec_window1(&self) -> Seq<Sequence> {
        self.window1@
    }

    pub closed spec fn spec_window2(&self) -> Seq<Sequence> {
        self.window2@
    }

    pub open spec fn view_of(&self) -> SegmentView {
        (
            self.spec_fractals(),
            self.spec_direction(),
            self.spec_start(),
            self.spec_current(),
            self.spec_window1(),
            self.spec_window2(),
        )
    }

    pub open spec fn window_ok(w: Seq<Sequence>, n: int) -> bool {
        &&& w.len() <= 3
        &&& forall|i: int|
            0 <= i < w.len() ==> #[trigger] w[i].from_index < n && w[i].to_index < n
    }

    pub closed spec fn wf(&self) -> bool {
        &&& self.window1.cap() == 3
        &&& self.window2.cap() == 3
        &&& Self::window_ok(self.window1@, self.fractals@.len() as int)
        &&& Self::window_ok(self.window2@, self.fractals@.len() as int)
        &&& self.direction.is_some() ==> self.start_point < self.fractals@.len()
            && self.current < self.fractals@.len()
    }

    pub fn new() -> (r: SegmentDetector)
        ensures
            r.wf(),
            r.spec_fractals() == Seq::<Fractal>::empty(),
            r.spec_direction() == None::<SegmentDirection>,
            r.view_of() == initial_view(),
    {
        SegmentDetector {
            fractals: Vec::new(),
            direction: None,
            start_point: 0,
            current: 0,
            window1: RingBuffer::new(3),
            window2: RingBuffer::new(3),
        }
    }

    /// Direction of the segment in progress, once the first one is found.
    pub fn direction(&self) -> (r: Option<SegmentDirection>)
        ensures
            r == self.spec_direction(),
    {
        self.direction
    }

    /// The pen from endpoint `i` to endpoint `i + 1`.
    fn pen_seq(&self, i: usize) -> (r: Sequence)
        requires
            i + 1 < self.fractals@.len(),
        ensures
            r == pen_sequence(self.fractals@, i as int),
    {
        // the length bounds `i + 1` below usize::MAX
        let _len = self.fractals.len();
        let j = i + 1;
        let from = &self.fractals[i];
        let to = &self.fractals[j];
        Sequence::new(i, from.time(), from.price(), j, to.time(), to.price())
    }

    /// The element of the characteristic sequence that begins with the pen at
    /// `start`: the pens at `start + 2`, ... before `end` merge into it while
    /// one of the two strictly covers the other, and the first that does not
    /// ends it.
    fn merge_seq(&self, start: usize, end: usize, dir: MergeDirection) -> (r: Sequence)
        requires
            start < end < self.fractals@.len(),
        ensures
            r == seq_fold(self.fractals@, start as int, ((end - start - 1) / 2) as nat, dir).0,
            r.from_index < self.fractals@.len(),
            r.to_index < self.fractals@.len(),
    {
        let mut seq = self.pen_seq(start);
        let mut from = start;
        let mut open = true;
        let ghost mut k: nat = 0;
        while open && end - from > 2
            invariant
                start <= from < end < self.fractals@.len(),
                from == start + 2 * k,
                (seq, open) == seq_fold(self.fractals@, start as int, k, dir),
                seq.from_index < self.fractals@.len(),
                seq.to_index < self.fractals@.len(),
            decreases end - from,
        {
            proof {
                k = k + 1;
            }
            from = from + 2;
            let next = self.pen_seq(from);
            let is_merged = seq.merge(&next, dir);
            if !is_merged {
                open = false;
            }
        }
        proof {
            let last = ((end - start - 1) / 2) as nat;
            if open {
                assert(k == last);
            } else {
                lemma_fold_closed(self.fractals@, start as int, k, last, dir);
            }
        }
        seq
    }

    /// Takes `p4` as the assumed end of the segment and rebuilds the
    /// counter-trend sequence from `p2` up to it.
    fn reset_state(&mut self, p2: usize, p4: usize, dir: MergeDirection)
        requires
            old(self).wf(),
            p4 < old(self).fractals@.len(),
        ensures
            final(self).fractals == old(self).fractals,
            final(self).direction == old(self).direction,
            final(self).start_point == old(self).start_point,
            final(self).current == p4,
            final(self).window1.cap() == 3,
            final(self).window2.cap() == 3,
            Self::window_ok(final(self).window1@, final(self).fractals@.len() as int),
            final(self).window1@ == rebuilt_window(old(self).fractals@, p2 as int, p4 as int, dir),
            final(self).window2@ == Seq::<Sequence>::empty(),
            final(self).view_of() == reset_view(old(self).view_of(), p2 as int, p4 as int, dir),
    {
        self.current = p4;
        self.window1.clear();
        self.window2.clear();
        if p2 < p4 {
            let seq = self.merge_seq(p2, p4, dir);
            self.window1.push(seq);
            assert(self.window1@ =~= seq![seq]);
        }
    }

    /// Whether four consecutive pen endpoints open a segment, and which way.
    pub fn is_first_segment(p1: &Fractal, p2: &Fractal, p3: &Fractal, p4: &Fractal) -> (r: Option<
        SegmentDirection,
    >)
        ensures
            r == first_segment(p1.spec_price(), p2.spec_price(), p3.spec_price(), p4.spec_price()),
    {
        let (a, b, c, d) = (p1.price(), p2.price(), p3.price(), p4.price());
        let direction_up = a < b && b > c && c > a && d > c && d > b;
        let direction_down = a > b && b < c && c < a && d < c && d < b;
        if direction_up && !direction_down {
            Some(SegmentDirection::Up)
        } else if direction_down && !direction_up {
            Some(SegmentDirection::Down)
        } else {
            None
        }
    }

    pub fn get_merge_direction(direction: SegmentDirection) -> (r: MergeDirection)
        ensures
            r == merge_direction_of(direction),
    {
        match direction {
            SegmentDirection::Down => MergeDirection::Down,
            SegmentDirection::Up => MergeDirection::Up,
        }
    }

    pub fn get_flip_merge_direction(direction: SegmentDirection) -> (r: MergeDirection)
        ensures
            r == flip_merge_direction_of(direction),
    {
        match direction {
            SegmentDirection::Down => MergeDirection::Up,
            SegmentDirection::Up => MergeDirection::Down,
        }
    }

    fn check_window1_fractal(&self, dir: SegmentDirection) -> (r: bool)
        ensures
            r == reversal_fractal(self.window1@, dir),
    {
        if self.window1.len() != 3 {
            return false;
        }
        let s1 = self.window1.get(0).unwrap();
        let s2 = self.window1.get(1).unwrap();
        let s3 = self.window1.get(2).unwrap();
        match dir {
            SegmentDirection::Up => Sequence::is_top_fractal(s1, s2, s3),
            SegmentDirection::Down => Sequence::is_bottom_fractal(s1, s2, s3),
        }
    }

    fn check_window2_fractal(&self, dir: SegmentDirection) -> (r: bool)
        ensures
            r == confirming_fractal(self.window2@, dir),
    {
        if self.window2.len() != 3 {
            return false;
        }
        let s1 = self.window2.get(0).unwrap();
        let s2 = self.window2.get(1).unwrap();
        let s3 = self.window2.get(2).unwrap();
        match dir {
            SegmentDirection::Up => Sequence::is_bottom_fractal(s1, s2, s3),
            SegmentDirection::Down => Sequence::is_top_fractal(s1, s2, s3),
        }
    }

    fn check_window1_has_gap(&self, dir: SegmentDirection) -> (r: bool)
        ensures
            r == window1_gap(self.window1@, dir),
    {
        if self.window1.len() < 2 {
            return false;
        }
        let s1 = self.window1.get(0).unwrap();
        let s2 = self.window1.get(1).unwrap();
        match dir {
            SegmentDirection::Up => s1.high() < s2.low(),
            SegmentDirection::Down => s1.low() > s2.high(),
        }
    }

    fn check_window2_has_gap(&self, dir: SegmentDirection) -> (r: bool)
        ensures
            r == window2_gap(self.window2@, dir),
    {
        if self.window2.len() < 2 {
            return false;
        }
        let s1 = self.window2.get(0).unwrap();
        let s2 = self.window2.get(1).unwrap();
        match dir {
            SegmentDirection::Up => s1.low() > s2.high(),
            SegmentDirection::Down => s1.high() < s2.low(),
        }
    }

    fn check_termination_case_1(&self, dir: SegmentDirection) -> (r: bool)
        ensures
            r == no_gap_case_1(self.window1@, dir),
    {
        if self.window1.len() != 3 {
            return false;
        }
        let s1 = self.window1.get(0).unwrap();
        let s2 = self.window1.get(1).unwrap();
        match dir {
            SegmentDirection::Up => s1.high() >= s2.low(),
            SegmentDirection::Down => s1.low() <= s2.high(),
        }
    }

    fn check_termination(&self, dir: SegmentDirection) -> (r: Option<TerminationReson>)
        ensures
            r == termination(self.window1@, self.window2@, dir),
    {
        if self.check_window1_fractal(dir) && self.check_termination_case_1(dir) {
            return Some(TerminationReson::CASE1);
        }
        if self.check_window1_has_gap(dir) && self.check_window2_fractal(dir) {
            if self.check_window2_has_gap(dir) {
                return Some(TerminationReson::CASE22);
            } else {
                return Some(TerminationReson::CASE21);
            }
        }
        None
    }

    /// Ends the current segment for `reason`, and sets up the next one.
    fn flip(&mut self, reason: Option<TerminationReson>) -> (r: Option<SegmentEvent>)
        requires
            old(self).wf(),
            old(self).direction.is_some(),
            old(self).fractals@.len() > 0,
            reason == termination(old(self).window1@, old(self).window2@, old(self).direction.unwrap()),
        ensures
            final(self).wf(),
            final(self).fractals == old(self).fractals,
            final(self).direction.is_some(),
            reason.is_none() ==> r.is_none() && *final(self) == *old(self),
            r == termination_event(
                old(self).fractals@,
                old(self).start_point as int,
                old(self).current as int,
                reason,
                old(self).window2@,
            ),
            final(self).direction == Some(direction_after(old(self).direction.unwrap(), reason)),
            final(self).view_of() == terminate(old(self).view_of(), reason),
            continues(
                old(self).fractals@,
                old(self).start_point as int,
                old(self).current as int,
                r,
                final(self).start_point as int,
            ),
    {
        let dir = self.direction.unwrap();
        match reason {
            None => None,
            Some(TerminationReson::CASE1) => {
                let event = SegmentEvent::New(
                    self.fractals[self.start_point],
                    self.fractals[self.current],
                );
                let new_dir = match dir {
                    SegmentDirection::Up => SegmentDirection::Down,
                    SegmentDirection::Down => SegmentDirection::Up,
                };
                self.start_point = self.current;
                self.direction = Some(new_dir);
                let last = self.fractals.len() - 1;
                let p2 = if self.current < last {
                    self.current + 1
                } else {
                    last
                };
                self.reset_state(p2, last, Self::get_merge_direction(new_dir));
                Some(event)
            },
            Some(TerminationReson::CASE21) => {
                let c2 = *self.window2.get(1).unwrap();
                let c3 = *self.window2.get(2).unwrap();
                assert(self.window2@[1].from_index < self.fractals@.len());
                assert(self.window2@[2].from_index < self.fractals@.len());
                let event = SegmentEvent::New2(
                    self.fractals[self.start_point],
                    self.fractals[self.current],
                    self.fractals[c2.from_index],
                );
                self.start_point = c2.from_index;
                self.reset_state(c2.to_index, c3.to_index, Self::get_merge_direction(dir));
                Some(event)
            },
            Some(TerminationReson::CASE22) => {
                let c1 = *self.window2.get(0).unwrap();
                let c2 = *self.window2.get(1).unwrap();
                assert(self.window2@[0].from_index < self.fractals@.len());
                assert(self.window2@[1].from_index < self.fractals@.len());
                let event = SegmentEvent::New(
                    self.fractals[self.start_point],
                    self.fractals[self.current],
                );
                let new_dir = match dir {
                    SegmentDirection::Up => SegmentDirection::Down,
                    SegmentDirection::Down => SegmentDirection::Up,
                };
                self.start_point = self.current;
                self.direction = Some(new_dir);
                self.reset_state(c1.from_index, c2.from_index, Self::get_merge_direction(new_dir));
                Some(event)
            },
        }
    }

    /// Files the pen that just closed into the characteristic sequence that
    /// its direction belongs to, and checks whether the segment ends.
    fn on_new_pen(&mut self) -> (r: Option<SegmentEvent>)
        requires
            old(self).wf(),
            old(self).direction.is_some(),
            old(self).fractals@.len() >= 2,
        ensures
            final(self).wf(),
            final(self).fractals == old(self).fractals,
            final(self).direction.is_some(),
            continues(
                old(self).fractals@,
                old(self).start_point as int,
                old(self).current as int,
                r,
                final(self).start_point as int,
            ),
            ({
                let f = old(self).fractals@;
                let d = old(self).direction.unwrap();
                let (w1a, w2a) = windows_after(f, d, old(self).window1@, old(self).window2@);
                let reason = termination(w1a, w2a, d);
                &&& r == termination_event(
                    f,
                    old(self).start_point as int,
                    old(self).current as int,
                    reason,
                    w2a,
                )
                &&& final(self).direction == Some(direction_after(d, reason))
                &&& final(self).view_of() == terminate(
                    (f, old(self).direction, old(self).start_point as int, old(self).current as int, w1a, w2a),
                    reason,
                )
            }),
    {
        let dir = self.direction.unwrap();
        let len = self.fractals.len();
        let last_price = self.fractals[len - 1].price();
        let prev_price = self.fractals[len - 2].price();
        let is_same_direction = (dir == SegmentDirection::Up && last_price > prev_price) || (dir
            == SegmentDirection::Down && last_price < prev_price);
        let seq = self.pen_seq(len - 2);
        let n = Ghost(self.fractals@.len() as int);
        if is_same_direction {
            push_merged(&mut self.window2, seq, Self::get_flip_merge_direction(dir), n);
        } else {
            push_merged(&mut self.window1, seq, Self::get_merge_direction(dir), n);
        }
        let reason = self.check_termination(dir);
        self.flip(reason)
    }

    /// Tests the four newest endpoints for the first segment; where they make
    /// none, drops the oldest endpoint.
    fn find_first_segment(&mut self) -> (r: Option<SegmentEvent>)
        requires
            old(self).wf(),
            old(self).direction.is_none(),
            old(self).fractals@.len() >= 5,
        ensures
            final(self).wf(),
            ({
                let f = old(self).fractals@;
                let n = f.len() as int;
                let d = first_segment(
                    f[n - 4].spec_price(),
                    f[n - 3].spec_price(),
                    f[n - 2].spec_price(),
                    f[n - 1].spec_price(),
                );
                &&& final(self).direction == d
                &&& d.is_some() ==> {
                    &&& r == Some(SegmentEvent::New(f[n - 4], f[n - 1]))
                    &&& final(self).fractals@ == f
                    &&& final(self).start_point == n - 4
                    &&& final(self).current == n - 1
                }
                &&& d.is_none() ==> r.is_none() && final(self).fractals@ == f.drop_first()
            }),
            (final(self).view_of(), r) == process_view(old(self).view_of()),
    {
        let len = self.fractals.len();
        let direction = Self::is_first_segment(
            &self.fractals[len - 4],
            &self.fractals[len - 3],
            &self.fractals[len - 2],
            &self.fractals[len - 1],
        );
        self.start_point = len - 4;
        self.current = len - 1;
        self.direction = direction;
        match direction {
            Some(d) => {
                self.reset_state(len - 3, len - 1, Self::get_merge_direction(d));
                Some(SegmentEvent::New(self.fractals[len - 4], self.fractals[len - 1]))
            },
            None => {
                self.fractals.remove(0);
                self.window1.clear();
                self.window2.clear();
                None
            },
        }
    }

    /// With a segment running: a new extreme beyond the assumed end moves
    /// the assumed end there; otherwise the closed pen is analysed.
    fn process_normal_segment(&mut self) -> (r: Option<SegmentEvent>)
        requires
            old(self).wf(),
            old(self).direction.is_some(),
            old(self).fractals@.len() >= 5,
        ensures
            final(self).wf(),
            final(self).fractals == old(self).fractals,
            final(self).direction.is_some(),
            continues(
                old(self).fractals@,
                old(self).start_point as int,
                old(self).current as int,
                r,
                final(self).start_point as int,
            ),
            r == segment_step_event(
                old(self).fractals@,
                old(self).start_point as int,
                old(self).current as int,
                old(self).direction.unwrap(),
                old(self).window1@,
                old(self).window2@,
            ),
            (final(self).view_of(), r) == process_view(old(self).view_of()),
    {
        let dir = self.direction.unwrap();
        let len = self.fractals.len();
        let last_price = self.fractals[len - 1].price();
        let current_price = self.fractals[self.current].price();
        let new_higher = dir == SegmentDirection::Up && last_price > current_price;
        let new_lower = dir == SegmentDirection::Down && last_price < current_price;
        if new_higher || new_lower {
            let current = self.current;
            self.reset_state(current, len - 1, Self::get_merge_direction(dir));
            None
        } else {
            self.on_new_pen()
        }
    }

    /// Analyses the endpoints held, of which the newest closed the last pen.
    /// Nothing happens while fewer than five endpoints are held: the first
    /// segment is tested on the four newest once a pen leads into them.
    pub fn process(&mut self) -> (r: Option<SegmentEvent>)
        requires
            old(self).wf(),
        ensures
            final(self).wf(),
            (final(self).view_of(), r) == process_view(old(self).view_of()),
            ({
                let f = old(self).spec_fractals();
                let n = f.len() as int;
                &&& n < 5 ==> r.is_none() && final(self).spec_fractals() == f
                    && final(self).spec_direction() == old(self).spec_direction()
                &&& n >= 5 && old(self).spec_direction().is_none() ==> {
                    let d = first_segment(
                        f[n - 4].spec_price(),
                        f[n - 3].spec_price(),
                        f[n - 2].spec_price(),
                        f[n - 1].spec_price(),
                    );
                    &&& final(self).spec_direction() == d
                    &&& d.is_some() ==> r == Some(SegmentEvent::New(f[n - 4], f[n - 1]))
                        && final(self).spec_fractals() == f && final(self).spec_start() == n - 4
                        && final(self).spec_current() == n - 1
                    &&& d.is_none() ==> r.is_none() && final(self).spec_fractals()
                        == f.drop_first()
                }
                &&& n >= 5 && old(self).spec_direction().is_some() ==> {
                    &&& final(self).spec_fractals() == f
                    &&& final(self).spec_direction().is_some()
                    &&& r == segment_step_event(
                        f,
                        old(self).spec_start(),
                        old(self).spec_current(),
                        old(self).spec_direction().unwrap(),
                        old(self).spec_window1(),
                        old(self).spec_window2(),
                    )
                    &&& continues(
                        f,
                        old(self).spec_start(),
                        old(self).spec_current(),
                        r,
                        final(self).spec_start(),
                    )
                }
            }),
    {
        if self.fractals.len() < 5 {
            return None;
        }
        if self.direction.is_none() {
            self.find_first_segment()
        } else {
            self.process_normal_segment()
        }
    }

    /// Takes the next pen event. A new pen closes the one before it, which
    /// is analysed before the new endpoint is kept; a moved end replaces the
    /// newest endpoint.
    pub fn on_pen_event(&mut self, pen_event: PenEvent) -> (r: Option<SegmentEvent>)
        requires
            old(self).wf(),
        ensures
            final(self).wf(),
            (final(self).view_of(), r) == segment_step(old(self).view_of(), pen_event),
            match pen_event {
                PenEvent::First(a, b) => r.is_none() && final(self).spec_fractals() == old(
                    self,
                ).spec_fractals().push(a).push(b),
                PenEvent::UpdateTo(a) => r.is_none() && final(self).spec_fractals() == if old(
                    self,
                ).spec_fractals().len() > 0 {
                    old(self).spec_fractals().drop_last().push(a)
                } else {
                    old(self).spec_fractals().push(a)
                },
                PenEvent::New(a) => {
                    let f = old(self).spec_fractals();
                    let n = f.len() as int;
                    &&& final(self).spec_fractals().last() == a
                    &&& n < 5 ==> r.is_none() && final(self).spec_fractals() == f.push(a)
                    &&& n >= 5 && old(self).spec_direction().is_none() ==> {
                        let d = first_segment(
                            f[n - 4].spec_price(),
                            f[n - 3].spec_price(),
                            f[n - 2].spec_price(),
                            f[n - 1].spec_price(),
                        );
                        &&& final(self).spec_direction() == d
                        &&& d.is_some() ==> r == Some(SegmentEvent::New(f[n - 4], f[n - 1]))
                            && final(self).spec_fractals() == f.push(a)
                        &&& d.is_none() ==> r.is_none() && final(self).spec_fractals()
                            == f.drop_first().push(a)
                    }
                    &&& n >= 5 && old(self).spec_direction().is_some() ==> {
                        &&& final(self).spec_fractals() == f.push(a)
                        &&& r == segment_step_event(
                            f,
                            old(self).spec_start(),
                            old(self).spec_current(),
                            old(self).spec_direction().unwrap(),
                            old(self).spec_window1(),
                            old(self).spec_window2(),
                        )
                        &&& continues(
                            f,
                            old(self).spec_start(),
                            old(self).spec_current(),
                            r,
                            final(self).spec_start(),
                        )
                    }
                },
            },
    {
        match pen_event {
            PenEvent::First(a, b) => {
                self.fractals.push(a);
                self.fractals.push(b);
                None
            },
            PenEvent::New(a) => {
                let event = self.process();
                self.fractals.push(a);
                event
            },
            PenEvent::UpdateTo(a) => {
                self.fractals.pop();
                self.fractals.push(a);
                None
            },
        }
    }
}

} // verus!
