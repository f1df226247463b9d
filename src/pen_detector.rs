use vstd::prelude::*;

use crate::fractal::{Fractal, FractalType};
use crate::ringbuffer::RingBuffer;

verus! {

/// Which of two same-type fractals to keep.
#[derive(Debug, Clone, Copy, PartialEq, Eq, Structural)]
pub enum MergeAction {
    Keep,
    Replace,
}

/// The later of two same-type fractals replaces the earlier unless the
/// earlier is strictly more extreme; on a tie the later one wins.
pub open spec fn replaces(f1: Fractal, f2: Fractal) -> bool {
    if f1.ftype == FractalType::Top {
        !(f1.spec_highest() > f2.spec_highest())
    } else {
        !(f1.spec_lowest() < f2.spec_lowest())
    }
}

/// `f1` and `f2` can be the two ends of a pen: opposite types, at least four
/// candles apart, the end beyond the start in the pen's direction, and the
/// start not covering the end.
pub open spec fn spec_is_pen(f1: Fractal, f2: Fractal) -> bool {
    &&& f1.spec_has_enough_distance(&f2)
    &&& !f1.spec_is_contain(&f2)
    &&& {
        ||| f1.ftype == FractalType::Top && f2.ftype == FractalType::Bottom && f2.spec_lowest()
            < f1.spec_lowest()
        ||| f1.ftype == FractalType::Bottom && f2.ftype == FractalType::Top && f2.spec_highest()
            > f1.spec_highest()
    }
}

/// Chooses between two fractals of the same type.
pub fn merge_same_type(f1: &Fractal, f2: &Fractal) -> (r: MergeAction)
    ensures
        r == (if replaces(*f1, *f2) {
            MergeAction::Replace
        } else {
            MergeAction::Keep
        }),
{
    if f1.fractal_type() == FractalType::Top {
        if f1.highest() > f2.highest() {
            MergeAction::Keep
        } else {
            MergeAction::Replace
        }
    } else {
        if f1.lowest() < f2.lowest() {
            MergeAction::Keep
        } else {
            MergeAction::Replace
        }
    }
}

pub fn is_pen(f1: &Fractal, f2: &Fractal) -> (r: bool)
    ensures
        r == spec_is_pen(*f1, *f2),
{
    if f1.fractal_type() == FractalType::Top && f2.fractal_type() == FractalType::Bottom
        && f1.has_enough_distance(f2) && f2.lowest() < f1.lowest() && !f1.is_contain(f2) {
        return true;
    }
    if f1.fractal_type() == FractalType::Bottom && f2.fractal_type() == FractalType::Top
        && f1.has_enough_distance(f2) && f2.highest() > f1.highest() && !f1.is_contain(f2) {
        return true;
    }
    false
}

/// What the pen detector reports for one fractal.
#[derive(Debug, Clone, Copy)]
pub enum PenEvent {
    /// The first pen, from the first fractal to the second.
    First(Fractal, Fractal),
    /// The current pen is complete; a new one runs from its end to this fractal.
    New(Fractal),
    /// The current pen's end moves to this fractal.
    UpdateTo(Fractal),
}

/// One step of the pen state machine: from whether a pen exists and the
/// window of candidate fractals, and a new fractal `f`, to the new flag, the
/// new window and the event reported.
#[verifier::opaque]
pub open spec fn pen_step(has_pen: bool, w: Seq<Fractal>, f: Fractal) -> (bool, Seq<Fractal>, Option<
    PenEvent,
>) {
    if !has_pen && w.len() == 0 {
        (false, seq![f], None)
    } else if !has_pen && w.len() == 1 {
        if w[0].ftype == f.ftype {
            if replaces(w[0], f) {
                (false, seq![f], None)
            } else {
                (false, w, None)
            }
        } else if spec_is_pen(w[0], f) {
            (true, seq![w[0], f], Some(PenEvent::First(w[0], f)))
        } else {
            (false, seq![w[0], f], None)
        }
    } else if !has_pen && w.len() == 2 {
        if spec_is_pen(w[1], f) {
            (true, seq![w[1], f], Some(PenEvent::First(w[1], f)))
        } else if w[1].ftype == f.ftype {
            if replaces(w[1], f) {
                if spec_is_pen(w[0], f) {
                    (true, seq![w[0], f], Some(PenEvent::First(w[0], f)))
                } else {
                    (false, seq![w[0], f], None)
                }
            } else {
                (false, w, None)
            }
        } else if replaces(w[0], f) {
            (false, seq![f], None)
        } else {
            (false, w, None)
        }
    } else if has_pen && w.len() == 2 {
        if spec_is_pen(w[1], f) {
            (true, seq![w[1], f], Some(PenEvent::New(f)))
        } else if w[1].ftype == f.ftype {
            if replaces(w[1], f) {
                (true, seq![w[0], f], Some(PenEvent::UpdateTo(f)))
            } else {
                (true, w, None)
            }
        } else {
            (true, seq![w[0], w[1], f], None)
        }
    } else if has_pen && w.len() == 3 {
        if w[2].ftype == f.ftype {
            if replaces(w[2], f) {
                if spec_is_pen(w[1], f) {
                    (true, seq![w[1], f], Some(PenEvent::New(f)))
                } else {
                    (true, seq![w[0], w[1], f], None)
                }
            } else {
                (true, w, None)
            }
        } else if replaces(w[1], f) {
            (true, seq![w[0], f], Some(PenEvent::UpdateTo(f)))
        } else {
            (true, seq![w[0], w[1]], None)
        }
    } else {
        (has_pen, w, None)
    }
}

/// The endpoints of the pens reported so far, after one more event: the
/// first pen gives two endpoints, a new pen one more, a moved end replaces
/// the newest.
pub open spec fn chain_after(chain: Seq<Fractal>, e: Option<PenEvent>) -> Seq<Fractal> {
    match e {
        Some(PenEvent::First(a, b)) => chain.push(a).push(b),
        Some(PenEvent::New(c)) => chain.push(c),
        Some(PenEvent::UpdateTo(c)) => chain.drop_last().push(c),
        None => chain,
    }
}

/// Each two consecutive endpoints make a pen.
pub open spec fn is_pen_chain(chain: Seq<Fractal>) -> bool {
    forall|i: int|
        #![trigger spec_is_pen(chain[i], chain[i + 1])]
        0 <= i < chain.len() - 1 ==> spec_is_pen(chain[i], chain[i + 1])
}

/// Consecutive endpoints alternate between tops and bottoms.
pub open spec fn alternates(chain: Seq<Fractal>) -> bool {
    forall|i: int|
        #![trigger chain[i].ftype, chain[i + 1].ftype]
        0 <= i < chain.len() - 1 ==> chain[i].ftype != chain[i + 1].ftype
}

/// The chain ends with the detector's current pen, and is empty while there
/// is none.
pub open spec fn tracks(has_pen: bool, w: Seq<Fractal>, chain: Seq<Fractal>) -> bool {
    if has_pen {
        chain.len() >= 2 && chain[chain.len() - 2] == w[0] && chain[chain.len() - 1] == w[1]
    } else {
        chain.len() == 0
    }
}

/// Centre times increase strictly along the sequence.
pub open spec fn times_increase(s: Seq<Fractal>) -> bool {
    forall|i: int|
        #![trigger s[i].k2.bar.time, s[i + 1].k2.bar.time]
        0 <= i < s.len() - 1 ==> s[i].k2.bar.time < s[i + 1].k2.bar.time
}

/// What one step does to the current pen, for each event.
pub proof fn lemma_step_event(has_pen: bool, w: Seq<Fractal>, f: Fractal)
    requires
        PenDetector::state_ok(has_pen, w),
        forall|i: int| 0 <= i < w.len() ==> #[trigger] w[i].k2.index < f.k2.index,
    ensures
        ({
            let (has_pen2, w2, e) = pen_step(has_pen, w, f);
            &&& PenDetector::state_ok(has_pen2, w2)
            &&& match e {
                Some(PenEvent::First(a, b)) => !has_pen && has_pen2 && spec_is_pen(a, b) && w2[0]
                    == a && w2[1] == b,
                Some(PenEvent::New(c)) => has_pen && has_pen2 && spec_is_pen(w[1], c) && w2[0]
                    == w[1] && w2[1] == c,
                Some(PenEvent::UpdateTo(c)) => has_pen && has_pen2 && spec_is_pen(w[0], c)
                    && w2[0] == w[0] && w2[1] == c,
                None => has_pen2 == has_pen && (has_pen ==> w2[0] == w[0] && w2[1] == w[1]),
            }
        }),
{
    reveal(pen_step);
    if w.len() >= 2 {
        assert(w[0].k2.index < w[1].k2.index);
    }
    if w.len() == 3 {
        assert(w[1].k2.index < w[2].k2.index);
    }
    assert(w.len() > 0 ==> w[0].k2.index < f.k2.index);
    assert(w.len() > 1 ==> w[1].k2.index < f.k2.index);
    assert(w.len() > 2 ==> w[2].k2.index < f.k2.index);
}

/// Whatever fractals arrive, in order of their centres, the endpoints of the
/// reported pens stay a chain of pens: they alternate between tops and
/// bottoms, consecutive ones are at least four candles apart, and each pen
/// ends beyond its start, also after its end has moved.
pub proof fn lemma_pen_chain(has_pen: bool, w: Seq<Fractal>, chain: Seq<Fractal>, f: Fractal)
    requires
        PenDetector::state_ok(has_pen, w),
        forall|i: int| 0 <= i < w.len() ==> #[trigger] w[i].k2.index < f.k2.index,
        tracks(has_pen, w, chain),
        is_pen_chain(chain),
    ensures
        ({
            let (has_pen2, w2, e) = pen_step(has_pen, w, f);
            let chain2 = chain_after(chain, e);
            &&& tracks(has_pen2, w2, chain2)
            &&& is_pen_chain(chain2)
            &&& alternates(chain2)
            &&& forall|i: int|
                #![trigger chain2[i].spec_distance(&chain2[i + 1])]
                0 <= i < chain2.len() - 1 ==> chain2[i].spec_distance(&chain2[i + 1])
                    >= 4
        }),
{
    lemma_step_event(has_pen, w, f);
    let (has_pen2, w2, e) = pen_step(has_pen, w, f);
    match e {
        Some(PenEvent::First(a, b)) => {
            assert(chain_after(chain, e) =~= seq![a, b]);
        },
        Some(PenEvent::New(c)) => {
            lemma_chain_push(chain, c);
        },
        Some(PenEvent::UpdateTo(c)) => {
            lemma_chain_replace_last(chain, c);
        },
        None => {},
    }
    lemma_chain_facts(chain_after(chain, e));
}

proof fn lemma_chain_push(chain: Seq<Fractal>, c: Fractal)
    requires
        is_pen_chain(chain),
        chain.len() >= 1,
        spec_is_pen(chain.last(), c),
    ensures
        is_pen_chain(chain.push(c)),
{
    let c2 = chain.push(c);
    assert forall|i: int| 0 <= i < c2.len() - 1 implies #[trigger] spec_is_pen(c2[i], c2[i + 1]) by {
        if i < chain.len() - 1 {
            assert(spec_is_pen(chain[i], chain[i + 1]));
        }
    }
}

proof fn lemma_chain_replace_last(chain: Seq<Fractal>, c: Fractal)
    requires
        is_pen_chain(chain),
        chain.len() >= 2,
        spec_is_pen(chain[chain.len() - 2], c),
    ensures
        is_pen_chain(chain.drop_last().push(c)),
{
    let c2 = chain.drop_last().push(c);
    assert forall|i: int| 0 <= i < c2.len() - 1 implies #[trigger] spec_is_pen(c2[i], c2[i + 1]) by {
        if i < chain.len() - 2 {
            assert(spec_is_pen(chain[i], chain[i + 1]));
        }
    }
}

proof fn lemma_chain_facts(chain: Seq<Fractal>)
    requires
        is_pen_chain(chain),
    ensures
        alternates(chain),
        forall|i: int|
            #![trigger chain[i].spec_distance(&chain[i + 1])]
            0 <= i < chain.len() - 1 ==> chain[i].spec_distance(&chain[i + 1]) >= 4,
{
    assert forall|i: int| #![trigger chain[i].ftype, chain[i + 1].ftype]
        0 <= i < chain.len() - 1 implies chain[i].ftype != chain[i + 1].ftype by {
        assert(spec_is_pen(chain[i], chain[i + 1]));
    }
    assert forall|i: int| 0 <= i < chain.len() - 1 implies #[trigger] chain[i].spec_distance(
        &chain[i + 1],
    ) >= 4 by {
        assert(spec_is_pen(chain[i], chain[i + 1]));
    }
}

/// Where the fractals also arrive in strictly increasing time, every pen
/// ends later than it starts.
pub proof fn lemma_pen_times(has_pen: bool, w: Seq<Fractal>, chain: Seq<Fractal>, f: Fractal)
    requires
        PenDetector::state_ok(has_pen, w),
        tracks(has_pen, w, chain),
        times_increase(w),
        times_increase(chain),
        forall|i: int| 0 <= i < w.len() ==> #[trigger] w[i].k2.bar.time < f.k2.bar.time,
    ensures
        ({
            let (has_pen2, w2, e) = pen_step(has_pen, w, f);
            &&& times_increase(w2)
            &&& times_increase(chain_after(chain, e))
        }),
{
    reveal(pen_step);
    let (has_pen2, w2, e) = pen_step(has_pen, w, f);
    if w.len() >= 2 {
        assert(w[0].k2.bar.time < w[1].k2.bar.time);
        assert(w[1].k2.bar.time < f.k2.bar.time);
    }
    if w.len() == 3 {
        assert(w[1].k2.bar.time < w[2].k2.bar.time);
        assert(w[2].k2.bar.time < f.k2.bar.time);
    }
    if w.len() >= 1 {
        assert(w[0].k2.bar.time < f.k2.bar.time);
    }
    if has_pen {
        // the chain ends with the pen's start and end, both earlier than `f`
        lemma_times_push(chain, f);
        lemma_times_replace_last(chain, f);
    }
    assert(times_increase(w2));
}

proof fn lemma_times_push(chain: Seq<Fractal>, c: Fractal)
    requires
        times_increase(chain),
        chain.len() >= 1,
        chain.last().k2.bar.time < c.k2.bar.time,
    ensures
        times_increase(chain.push(c)),
{
    let c2 = chain.push(c);
    assert forall|i: int| #![trigger c2[i].k2.bar.time, c2[i + 1].k2.bar.time]
        0 <= i < c2.len() - 1 implies c2[i].k2.bar.time < c2[i + 1].k2.bar.time by {
        if i < chain.len() - 1 {
            assert(chain[i].k2.bar.time < chain[i + 1].k2.bar.time);
        }
    }
}

proof fn lemma_times_replace_last(chain: Seq<Fractal>, c: Fractal)
    requires
        times_increase(chain),
        chain.len() >= 2,
        chain[chain.len() - 2].k2.bar.time < c.k2.bar.time,
    ensures
        times_increase(chain.drop_last().push(c)),
{
    let c2 = chain.drop_last().push(c);
    assert forall|i: int| #![trigger c2[i].k2.bar.time, c2[i + 1].k2.bar.time]
        0 <= i < c2.len() - 1 implies c2[i].k2.bar.time < c2[i + 1].k2.bar.time by {
        if i < chain.len() - 2 {
            assert(chain[i].k2.bar.time < chain[i + 1].k2.bar.time);
        }
    }
}

/// Turns a stream of fractals into pens. It holds up to three candidate
/// fractals; once a pen exists, the first two are its start and its end.
pub struct PenDetector {
    window: RingBuffer<Fractal>,
    has_pen: bool,
}

impl PenDetector {
    pub closed spec fn spec_window(&self) -> Seq<Fractal> {
        self.window@
    }

    pub closed spec fn spec_has_pen(&self) -> bool {
        self.has_pen
    }

    /// Start of the current pen.
    pub open spec fn pen_from(&self) -> Fractal {
        self.spec_window()[0]
    }

    /// End of the current pen.
    pub open spec fn pen_to(&self) -> Fractal {
        self.spec_window()[1]
    }

    /// The states that the machine can be in: without a pen, at most two
    /// candidates of opposite types that make no pen; with one, the pen and at
    /// most one pending fractal of the other type than its end. Centre
    /// indices increase along the window.
    pub open spec fn state_ok(has_pen: bool, w: Seq<Fractal>) -> bool {
        &&& w.len() <= 3
        &&& forall|i: int| 0 <= i < w.len() - 1 ==> #[trigger] w[i].k2.index < w[i + 1].k2.index
        &&& !has_pen ==> w.len() <= 2
        &&& !has_pen && w.len() == 2 ==> w[0].ftype != w[1].ftype && !spec_is_pen(w[0], w[1])
        &&& has_pen ==> w.len() >= 2 && spec_is_pen(w[0], w[1])
        &&& has_pen && w.len() == 3 ==> w[1].ftype != w[2].ftype
    }

    pub closed spec fn wf(&self) -> bool {
        &&& self.window.cap() == 3
        &&& Self::state_ok(self.has_pen, self.window@)
    }

    /// `f` comes after every fractal that the detector holds.
    pub open spec fn accepts(&self, f: Fractal) -> bool {
        forall|i: int|
            0 <= i < self.spec_window().len() ==> #[trigger] self.spec_window()[i].k2.index
                < f.k2.index
    }

    /// While a pen exists, the window holds its two ends.
    pub proof fn lemma_pen_window(&self)
        requires
            self.wf(),
        ensures
            self.spec_has_pen() ==> self.spec_window().len() >= 2,
            self.spec_window().len() <= 3,
    {
    }

    pub fn new() -> (r: PenDetector)
        ensures
            r.wf(),
            r.spec_window() == Seq::<Fractal>::empty(),
            !r.spec_has_pen(),
    {
        PenDetector { window: RingBuffer::new(3), has_pen: false }
    }

    pub fn has_pen(&self) -> (r: bool)
        ensures
            r == self.spec_has_pen(),
    {
        self.has_pen
    }

    /// No pen yet, one candidate.
    fn state1(&mut self, f: Fractal) -> (r: Option<PenEvent>)
        requires
            old(self).window.cap() == 3,
            !old(self).has_pen,
            old(self).window@.len() == 1,
        ensures
            final(self).window.cap() == 3,
            (final(self).has_pen, final(self).window@, r) == pen_step(
                old(self).has_pen,
                old(self).window@,
                f,
            ),
    {
        proof {
            reveal(pen_step);
        }
        let last = *self.window.get(-1).unwrap();
        if last.is_same_type(&f) {
            let action = merge_same_type(&last, &f);
            if action == MergeAction::Replace {
                self.window.pop_back();
                self.window.push(f);
                assert(self.window@ =~= seq![f]);
            }
        } else {
            self.window.push(f);
            assert(self.window@ =~= seq![last, f]);
            if is_pen(&last, &f) {
                self.has_pen = true;
                return Some(PenEvent::First(last, f));
            }
        }
        None
    }

    /// No pen yet, two candidates of opposite types that make none.
    fn state2(&mut self, f: Fractal) -> (r: Option<PenEvent>)
        requires
            old(self).window.cap() == 3,
            !old(self).has_pen,
            old(self).window@.len() == 2,
        ensures
            final(self).window.cap() == 3,
            (final(self).has_pen, final(self).window@, r) == pen_step(
                old(self).has_pen,
                old(self).window@,
                f,
            ),
    {
        proof {
            reveal(pen_step);
        }
        let a = *self.window.get(0).unwrap();
        let b = *self.window.get(-1).unwrap();
        if is_pen(&b, &f) {
            self.window.push(f);
            self.window.pop_front();
            assert(self.window@ =~= seq![b, f]);
            self.has_pen = true;
            return Some(PenEvent::First(b, f));
        }
        if b.is_same_type(&f) {
            let action = merge_same_type(&b, &f);
            if action == MergeAction::Replace {
                self.window.pop_back();
                self.window.push(f);
                assert(self.window@ =~= seq![a, f]);
                if is_pen(&a, &f) {
                    self.has_pen = true;
                    return Some(PenEvent::First(a, f));
                }
            }
        } else {
            let action = merge_same_type(&a, &f);
            if action == MergeAction::Replace {
                self.window.clear();
                self.window.push(f);
                assert(self.window@ =~= seq![f]);
            }
        }
        None
    }

    /// A pen, nothing pending.
    fn state3(&mut self, f: Fractal) -> (r: Option<PenEvent>)
        requires
            old(self).window.cap() == 3,
            old(self).has_pen,
            old(self).window@.len() == 2,
        ensures
            final(self).window.cap() == 3,
            (final(self).has_pen, final(self).window@, r) == pen_step(
                old(self).has_pen,
                old(self).window@,
                f,
            ),
    {
        proof {
            reveal(pen_step);
        }
        let a = *self.window.get(0).unwrap();
        let b = *self.window.get(-1).unwrap();
        if is_pen(&b, &f) {
            self.window.pop_front();
            self.window.push(f);
            assert(self.window@ =~= seq![b, f]);
            return Some(PenEvent::New(f));
        }
        if b.is_same_type(&f) {
            let action = merge_same_type(&b, &f);
            if action == MergeAction::Replace {
                self.window.pop_back();
                self.window.push(f);
                assert(self.window@ =~= seq![a, f]);
                return Some(PenEvent::UpdateTo(f));
            }
        } else {
            self.window.push(f);
            assert(self.window@ =~= seq![a, b, f]);
        }
        None
    }

    /// A pen, and a pending fractal of the other type than its end.
    fn state4(&mut self, f: Fractal) -> (r: Option<PenEvent>)
        requires
            old(self).window.cap() == 3,
            old(self).has_pen,
            old(self).window@.len() == 3,
        ensures
            final(self).window.cap() == 3,
            (final(self).has_pen, final(self).window@, r) == pen_step(
                old(self).has_pen,
                old(self).window@,
                f,
            ),
    {
        proof {
            reveal(pen_step);
        }
        let a = *self.window.get(0).unwrap();
        let b = *self.window.get(1).unwrap();
        let c = *self.window.get(-1).unwrap();
        if c.is_same_type(&f) {
            let action = merge_same_type(&c, &f);
            if action == MergeAction::Replace {
                self.window.pop_back();
                self.window.push(f);
                assert(self.window@ =~= seq![a, b, f]);
                if is_pen(&b, &f) {
                    self.window.pop_front();
                    assert(self.window@ =~= seq![b, f]);
                    return Some(PenEvent::New(f));
                }
            }
        } else {
            self.window.pop_back();
            let action = merge_same_type(&b, &f);
            if action == MergeAction::Replace {
                self.window.pop_back();
                self.window.push(f);
                assert(self.window@ =~= seq![a, f]);
                return Some(PenEvent::UpdateTo(f));
            }
            assert(self.window@ =~= seq![a, b]);
        }
        None
    }

    /// Takes the next fractal and reports at most one pen event.
    pub fn on_new_fractal(&mut self, f: Fractal) -> (r: Option<PenEvent>)
        requires
            old(self).wf(),
            old(self).accepts(f),
        ensures
            final(self).wf(),
            (final(self).spec_has_pen(), final(self).spec_window(), r) == pen_step(
                old(self).spec_has_pen(),
                old(self).spec_window(),
                f,
            ),
            forall|i: int|
                0 <= i < final(self).spec_window().len()
                    ==> #[trigger] final(self).spec_window()[i].k2.index <= f.k2.index,
            forall|i: int|
                0 <= i < final(self).spec_window().len() ==> #[trigger] final(self).spec_window()[i]
                    == f || old(self).spec_window().contains(final(self).spec_window()[i]),
            match r {
                Some(PenEvent::First(a, b)) => {
                    &&& !old(self).spec_has_pen()
                    &&& final(self).spec_has_pen()
                    &&& spec_is_pen(a, b)
                    &&& final(self).pen_from() == a
                    &&& final(self).pen_to() == b
                },
                Some(PenEvent::New(c)) => {
                    &&& old(self).spec_has_pen()
                    &&& final(self).spec_has_pen()
                    &&& spec_is_pen(old(self).pen_to(), c)
                    &&& final(self).pen_from() == old(self).pen_to()
                    &&& final(self).pen_to() == c
                },
                Some(PenEvent::UpdateTo(c)) => {
                    &&& old(self).spec_has_pen()
                    &&& final(self).spec_has_pen()
                    &&& c.ftype == old(self).pen_to().ftype
                    &&& spec_is_pen(old(self).pen_from(), c)
                    &&& final(self).pen_from() == old(self).pen_from()
                    &&& final(self).pen_to() == c
                },
                None => {
                    &&& final(self).spec_has_pen() == old(self).spec_has_pen()
                    &&& old(self).spec_has_pen() ==> final(self).pen_from() == old(
                        self,
                    ).pen_from() && final(self).pen_to() == old(self).pen_to()
                },
            },
    {
        proof {
            reveal(pen_step);
        }
        let len = self.window.len();
        let has_pen = self.has_pen;
        if !has_pen && len == 0 {
            self.window.push(f);
            None
        } else if !has_pen && len == 1 {
            self.state1(f)
        } else if !has_pen && len == 2 {
            self.state2(f)
        } else if has_pen && len == 2 {
            self.state3(f)
        } else if has_pen && len == 3 {
            self.state4(f)
        } else {
            None
        }
    }
}

} // verus!
