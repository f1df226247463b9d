use vstd::prelude::*;

use crate::bar::Bar;
use crate::candle::{covers, direction_of, inclusive, merged, Candle};
use crate::fractal::{is_bottom_shape, is_top_shape, shape_type, Fractal};
use crate::ringbuffer::{pushed, RingBuffer};

verus! {

/// The candle that a bar opens when it is not merged.
pub open spec fn new_candle(index: u64, bar: Bar) -> Candle {
    Candle { index, bar }
}

/// The fractal that three consecutive candles make, if any.
pub open spec fn fractal_of(k1: Candle, k2: Candle, k3: Candle) -> Option<Fractal> {
    if is_top_shape(k1.bar, k2.bar, k3.bar) || is_bottom_shape(k1.bar, k2.bar, k3.bar) {
        Some(Fractal { k1, k2, k3, ftype: shape_type(k1.bar, k2.bar, k3.bar) })
    } else {
        None
    }
}

/// Whether `bar` opens a new candle behind the window `w`.
pub open spec fn opens_candle(w: Seq<Candle>, bar: Bar) -> bool {
    if w.len() == 0 {
        true
    } else if w.len() == 1 {
        !covers(w[0].bar, bar)
    } else {
        !inclusive(w.last().bar, bar)
    }
}

/// The candle that `bar` confirms: the window's tail, once a new candle is
/// appended behind it.
pub open spec fn confirmed_by(w: Seq<Candle>, bar: Bar) -> Option<Bar> {
    if w.len() == 1 && !covers(w[0].bar, bar) && !covers(bar, w[0].bar) {
        Some(w[0].bar)
    } else if w.len() >= 2 && !inclusive(w.last().bar, bar) {
        Some(w.last().bar)
    } else {
        None
    }
}

/// One step of the detector on window `w`, with `next` the index of the next
/// candle: the new window, the new next index, and the fractal reported.
pub open spec fn detect_step(w: Seq<Candle>, next: u64, bar: Bar) -> (Seq<Candle>, u64, Option<
    Fractal,
>) {
    let c = new_candle(next, bar);
    if w.len() == 0 {
        (seq![c], (next + 1) as u64, None)
    } else if w.len() == 1 {
        if covers(w[0].bar, bar) {
            (w, next, None)
        } else if covers(bar, w[0].bar) {
            (seq![c], (next + 1) as u64, None)
        } else {
            (w.push(c), (next + 1) as u64, None)
        }
    } else {
        let tail = w.last();
        if inclusive(tail.bar, bar) {
            (
                w.update(
                    w.len() - 1,
                    merged(direction_of(w[w.len() - 2].bar, tail.bar), tail, bar),
                ),
                next,
                None,
            )
        } else {
            (
                pushed(w, 3, c),
                (next + 1) as u64,
                if w.len() >= 3 {
                    fractal_of(w[w.len() - 3], w[w.len() - 2], tail)
                } else {
                    None
                },
            )
        }
    }
}

/// Merges inclusive bars into candles and reports each top or bottom fractal
/// once its centre candle is confirmed.
pub struct FractalDetector {
    window: RingBuffer<Candle>,
    next_index: u64,
    candles: Option<Vec<Bar>>,
}

impl FractalDetector {
    /// The current window of at most three candles, oldest first.
    pub closed spec fn spec_window(&self) -> Seq<Candle> {
        self.window@
    }

    /// The index that the next candle will get.
    pub closed spec fn spec_next_index(&self) -> u64 {
        self.next_index
    }

    /// The confirmed candles, where the detector records them.
    pub closed spec fn spec_candles(&self) -> Option<Seq<Bar>> {
        match self.candles {
            Some(v) => Some(v@),
            None => None,
        }
    }

    /// The window holds at most three valid candles; adjacent ones are never
    /// inclusive, their indices count up by one to just below `next`, and
    /// their times do not decrease.
    pub open spec fn window_ok(w: Seq<Candle>, next: u64) -> bool {
        &&& w.len() <= 3
        &&& forall|i: int| 0 <= i < w.len() ==> #[trigger] w[i].index < next && w[i].bar.wf()
        &&& w.len() > 0 ==> w.last().index + 1 == next
        &&& forall|i: int|
            0 <= i < w.len() - 1 ==> {
                &&& #[trigger] w[i].index + 1 == w[i + 1].index
                &&& w[i].bar.time <= w[i + 1].bar.time
                &&& !inclusive(w[i].bar, w[i + 1].bar)
            }
    }

    pub closed spec fn wf(&self) -> bool {
        &&& self.window.cap() == 3
        &&& Self::window_ok(self.window@, self.next_index)
    }

    /// Adjacent candles of the window never include one another, whatever
    /// bars came before.
    pub proof fn lemma_window_non_inclusive(&self)
        requires
            self.wf(),
        ensures
            forall|i: int|
                0 <= i < self.spec_window().len() - 1 ==> !inclusive(
                    #[trigger] self.spec_window()[i].bar,
                    self.spec_window()[i + 1].bar,
                ),
    {
        let w = self.window@;
        assert forall|i: int| 0 <= i < w.len() - 1 implies !inclusive(
            #[trigger] w[i].bar,
            w[i + 1].bar,
        ) by {
            assert(w[i].index < w[i + 1].index);
        }
    }

    /// A bar that the newest candle covers reports nothing, confirms no
    /// candle, opens no candle and leaves every candle but the newest as it
    /// was.
    pub proof fn lemma_covered_bar_is_quiet(&self, bar: Bar)
        requires
            self.wf(),
            self.spec_window().len() > 0,
            covers(self.spec_window().last().bar, bar),
        ensures
            ({
                let (w, next, r) = detect_step(self.spec_window(), self.spec_next_index(), bar);
                &&& r.is_none()
                &&& confirmed_by(self.spec_window(), bar).is_none()
                &&& next == self.spec_next_index()
                &&& w.len() == self.spec_window().len()
                &&& w.drop_last() == self.spec_window().drop_last()
                &&& w.last().index == self.spec_window().last().index
            }),
    {
        let w0 = self.spec_window();
        let (w, next, r) = detect_step(w0, self.spec_next_index(), bar);
        if w0.len() >= 2 {
            assert(w.drop_last() =~= w0.drop_last());
        }
    }

    pub fn new() -> (r: FractalDetector)
        ensures
            r.wf(),
            r.spec_window() == Seq::<Candle>::empty(),
            r.spec_next_index() == 0,
            r.spec_candles() == None::<Seq<Bar>>,
    {
        FractalDetector { window: RingBuffer::new(3), next_index: 0, candles: None }
    }

    /// A detector that also records every confirmed candle.
    pub fn with_candles() -> (r: FractalDetector)
        ensures
            r.wf(),
            r.spec_window() == Seq::<Candle>::empty(),
            r.spec_next_index() == 0,
            r.spec_candles() == Some(Seq::<Bar>::empty()),
    {
        FractalDetector { window: RingBuffer::new(3), next_index: 0, candles: Some(Vec::new()) }
    }

    pub fn get_candles(&self) -> (r: Option<&Vec<Bar>>)
        ensures
            r.is_some() == self.spec_candles().is_some(),
            r.is_some() ==> r.unwrap()@ == self.spec_candles().unwrap(),
    {
        self.candles.as_ref()
    }

    pub fn next_index(&self) -> (r: u64)
        ensures
            r == self.spec_next_index(),
    {
        self.next_index
    }

    /// Time of the newest candle, which the next bar must not precede.
    pub fn last_time(&self) -> (r: Option<i64>)
        ensures
            r.is_some() == (self.spec_window().len() > 0),
            r.is_some() ==> r.unwrap() == self.spec_window().last().bar.time,
    {
        match self.window.get(-1) {
            Some(c) => Some(c.bar.time),
            None => None,
        }
    }

    fn notify(&mut self)
        ensures
            final(self).window@ == old(self).window@,
            final(self).window.cap() == old(self).window.cap(),
            final(self).next_index == old(self).next_index,
            final(self).spec_candles() == match old(self).spec_candles() {
                Some(s) => if old(self).window@.len() > 0 {
                    Some(s.push(old(self).window@.last().bar))
                } else {
                    Some(s)
                },
                None => None,
            },
    {
        let last = self.window.get(-1);
        match last {
            Some(c) => {
                let bar = c.bar;
                match self.candles.as_mut() {
                    Some(container) => container.push(bar),
                    None => {},
                }
            },
            None => {},
        }
    }

    fn add_candle(&mut self, bar: &Bar)
        requires
            old(self).next_index < u64::MAX,
        ensures
            final(self).window@ == pushed(
                old(self).window@,
                old(self).window.cap(),
                new_candle(old(self).next_index, *bar),
            ),
            final(self).window.cap() == old(self).window.cap(),
            final(self).next_index == old(self).next_index + 1,
            final(self).spec_candles() == match old(self).spec_candles() {
                Some(s) => if old(self).window@.len() > 0 {
                    Some(s.push(old(self).window@.last().bar))
                } else {
                    Some(s)
                },
                None => None,
            },
    {
        self.notify();
        let c = Candle::from_bar(self.next_index, bar);
        self.next_index = self.next_index + 1;
        self.window.push(c);
    }

    fn check_fractal(&self) -> (r: Option<Fractal>)
        requires
            self.window@.len() == 3,
        ensures
            r == fractal_of(self.window@[0], self.window@[1], self.window@[2]),
    {
        let k1 = self.window.get(-3).unwrap();
        let k2 = self.window.get(-2).unwrap();
        let k3 = self.window.get(-1).unwrap();
        Fractal::check_fractal(k1, k2, k3)
    }

    /// Merges `bar` into the newest candle when they are inclusive, in the
    /// direction of the two newest candles.
    fn process_contain_relationship(&mut self, bar: &Bar) -> (r: bool)
        requires
            old(self).window@.len() >= 2,
        ensures
            ({
                let w = old(self).window@;
                let tail = w.last();
                &&& r == inclusive(tail.bar, *bar)
                &&& final(self).window@ == if r {
                    w.update(w.len() - 1, merged(direction_of(w[w.len() - 2].bar, tail.bar), tail, *bar))
                } else {
                    w
                }
            }),
            final(self).window.cap() == old(self).window.cap(),
            final(self).next_index == old(self).next_index,
            final(self).candles == old(self).candles,
    {
        let direction = {
            let k1 = self.window.get(-2).unwrap();
            let k2 = self.window.get(-1).unwrap();
            Candle::check_direction(k1, k2)
        };
        match self.window.get_mut(-1) {
            Some(current) => Candle::merge(direction, current, bar),
            None => false,
        }
    }

    /// Takes the next bar. Returns the fractal whose centre this bar confirms,
    /// if the three newest candles make one.
    pub fn on_new_bar(&mut self, bar: &Bar) -> (r: Option<Fractal>)
        requires
            old(self).wf(),
            old(self).spec_next_index() < u64::MAX,
            old(self).spec_window().len() > 0 ==> bar.time >= old(self).spec_window().last().bar.time,
            bar.wf(),
        ensures
            final(self).wf(),
            Self::window_ok(final(self).spec_window(), final(self).spec_next_index()),
            r.is_some() ==> r.unwrap().candles_valid(),
            (final(self).spec_window(), final(self).spec_next_index(), r) == detect_step(
                old(self).spec_window(),
                old(self).spec_next_index(),
                *bar,
            ),
            final(self).spec_candles() == match old(self).spec_candles() {
                Some(s) => match confirmed_by(old(self).spec_window(), *bar) {
                    Some(b) => Some(s.push(b)),
                    None => Some(s),
                },
                None => None,
            },
            r.is_some() ==> r.unwrap().wf(),
            r.is_some() ==> r.unwrap().k1.bar.time <= r.unwrap().k2.bar.time
                <= r.unwrap().k3.bar.time,
            r.is_some() ==> r.unwrap().k2 == final(self).spec_window()[0],
            r.is_some() ==> old(self).spec_window().len() == 3,
            r.is_some() ==> r.unwrap().k2 == old(self).spec_window()[1],
            r.is_some() ==> old(self).spec_window()[0].index < r.unwrap().k2.index,
            old(self).spec_window().len() > 0 ==> final(self).spec_window().len() > 0,
            old(self).spec_window().len() > 0 ==> final(self).spec_window()[0].index >= old(self).spec_window()[0].index,
    {
        let len = self.window.len();
        if len == 0 {
            self.add_candle(bar);
        } else if len == 1 {
            let last = *self.window.get(-1).unwrap();
            let k1_include_k2 = last.bar.high >= bar.high && last.bar.low <= bar.low;
            let k2_include_k1 = last.bar.high <= bar.high && last.bar.low >= bar.low;
            if k1_include_k2 {
                return None;
            }
            if k2_include_k1 {
                self.window.clear();
            }
            self.add_candle(bar);
        } else if len == 2 {
            let is_merged = self.process_contain_relationship(bar);
            if !is_merged {
                self.add_candle(bar);
            }
        } else {
            let is_merged = self.process_contain_relationship(bar);
            if !is_merged {
                proof {
                    let w = self.window@;
                    assert(w[0].index < w[1].index);
                    assert(w[1].index < w[2].index);
                }
                let result = self.check_fractal();
                self.add_candle(bar);
                return result;
            }
        }
        None
    }
}

} // verus!
