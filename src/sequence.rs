use vstd::prelude::*;

use crate::bar::Time;

verus! {

/// How two elements of a characteristic sequence merge: up keeps the higher
/// high and the higher low, down the lower of each.
#[derive(Debug, Clone, Copy, PartialEq, Eq, Structural)]
pub enum MergeDirection {
    Up,
    Down,
}

/// One end of a sequence element: the position of a pen endpoint, its time
/// and its price.
pub type End = (usize, Time, i64);

/// An element of a characteristic sequence: a pen, or several pens merged,
/// from one pen endpoint to another.
#[derive(Debug, Clone, Copy)]
pub struct Sequence {
    pub from_index: usize,
    pub from_time: Time,
    pub from_price: i64,
    pub to_index: usize,
    pub to_time: Time,
    pub to_price: i64,
}

pub open spec fn spec_high(s: Sequence) -> i64 {
    if s.from_price > s.to_price {
        s.from_price
    } else {
        s.to_price
    }
}

pub open spec fn spec_low(s: Sequence) -> i64 {
    if s.from_price < s.to_price {
        s.from_price
    } else {
        s.to_price
    }
}

/// The end that holds the high.
pub open spec fn high_end(s: Sequence) -> End {
    if s.from_price > s.to_price {
        (s.from_index, s.from_time, s.from_price)
    } else {
        (s.to_index, s.to_time, s.to_price)
    }
}

/// The end that holds the low.
pub open spec fn low_end(s: Sequence) -> End {
    if s.from_price < s.to_price {
        (s.from_index, s.from_time, s.from_price)
    } else {
        (s.to_index, s.to_time, s.to_price)
    }
}

/// `s` with its high end and its low end replaced, keeping its orientation.
pub open spec fn with_ends(s: Sequence, high: End, low: End) -> Sequence {
    let (first, second) = if s.from_price > s.to_price {
        (high, low)
    } else {
        (low, high)
    };
    Sequence {
        from_index: first.0,
        from_time: first.1,
        from_price: first.2,
        to_index: second.0,
        to_time: second.1,
        to_price: second.2,
    }
}

/// The higher of two ends, the second on a tie.
pub open spec fn higher(a: End, b: End) -> End {
    if a.2 > b.2 {
        a
    } else {
        b
    }
}

/// The lower of two ends, the second on a tie.
pub open spec fn lower(a: End, b: End) -> End {
    if a.2 < b.2 {
        a
    } else {
        b
    }
}

pub open spec fn merged_up(s: Sequence, rhs: Sequence) -> Sequence {
    with_ends(s, higher(high_end(s), high_end(rhs)), higher(low_end(s), low_end(rhs)))
}

pub open spec fn merged_down(s: Sequence, rhs: Sequence) -> Sequence {
    with_ends(s, lower(high_end(s), high_end(rhs)), lower(low_end(s), low_end(rhs)))
}

/// One element's range strictly covers the other's.
pub open spec fn seq_contains(a: Sequence, b: Sequence) -> bool {
    (spec_high(a) < spec_high(b) && spec_low(a) > spec_low(b)) || (spec_high(a) > spec_high(b)
        && spec_low(a) < spec_low(b))
}

pub open spec fn spec_is_top_fractal(s1: Sequence, s2: Sequence, s3: Sequence) -> bool {
    spec_high(s1) < spec_high(s2) && spec_high(s2) > spec_high(s3)
}

pub open spec fn spec_is_bottom_fractal(s1: Sequence, s2: Sequence, s3: Sequence) -> bool {
    spec_low(s1) > spec_low(s2) && spec_low(s2) < spec_low(s3)
}

fn higher_end(a: End, b: End) -> (r: End)
    ensures
        r == higher(a, b),
{
    if a.2 > b.2 {
        a
    } else {
        b
    }
}

fn lower_end(a: End, b: End) -> (r: End)
    ensures
        r == lower(a, b),
{
    if a.2 < b.2 {
        a
    } else {
        b
    }
}

impl Sequence {
    pub fn new(
        from_index: usize,
        from_time: Time,
        from_price: i64,
        to_index: usize,
        to_time: Time,
        to_price: i64,
    ) -> (r: Sequence)
        ensures
            r == (Sequence { from_index, from_time, from_price, to_index, to_time, to_price }),
    {
        Sequence { from_index, from_time, from_price, to_index, to_time, to_price }
    }

    pub fn from_index(&self) -> (r: usize)
        ensures
            r == self.from_index,
    {
        self.from_index
    }

    pub fn to_index(&self) -> (r: usize)
        ensures
            r == self.to_index,
    {
        self.to_index
    }

    pub fn start(&self) -> (r: (Time, i64))
        ensures
            r == (self.from_time, self.from_price),
    {
        (self.from_time, self.from_price)
    }

    pub fn end(&self) -> (r: (Time, i64))
        ensures
            r == (self.to_time, self.to_price),
    {
        (self.to_time, self.to_price)
    }

    pub fn high(&self) -> (r: i64)
        ensures
            r == spec_high(*self),
    {
        if self.from_price > self.to_price {
            self.from_price
        } else {
            self.to_price
        }
    }

    pub fn low(&self) -> (r: i64)
        ensures
            r == spec_low(*self),
    {
        if self.from_price < self.to_price {
            self.from_price
        } else {
            self.to_price
        }
    }

    fn high_end(&self) -> (r: End)
        ensures
            r == high_end(*self),
    {
        if self.from_price > self.to_price {
            (self.from_index, self.from_time, self.from_price)
        } else {
            (self.to_index, self.to_time, self.to_price)
        }
    }

    fn low_end(&self) -> (r: End)
        ensures
            r == low_end(*self),
    {
        if self.from_price < self.to_price {
            (self.from_index, self.from_time, self.from_price)
        } else {
            (self.to_index, self.to_time, self.to_price)
        }
    }

    fn set_ends(&mut self, high: End, low: End)
        ensures
            *final(self) == with_ends(*old(self), high, low),
    {
        let (first, second) = if self.from_price > self.to_price {
            (high, low)
        } else {
            (low, high)
        };
        self.from_index = first.0;
        self.from_time = first.1;
        self.from_price = first.2;
        self.to_index = second.0;
        self.to_time = second.1;
        self.to_price = second.2;
    }

    /// Takes in `rhs`, keeping the higher high and the higher low.
    pub fn merge_up(&mut self, rhs: &Sequence)
        ensures
            *final(self) == merged_up(*old(self), *rhs),
    {
        let high = higher_end(self.high_end(), rhs.high_end());
        let low = higher_end(self.low_end(), rhs.low_end());
        self.set_ends(high, low);
    }

    /// Takes in `rhs`, keeping the lower high and the lower low.
    pub fn merge_down(&mut self, rhs: &Sequence)
        ensures
            *final(self) == merged_down(*old(self), *rhs),
    {
        let high = lower_end(self.high_end(), rhs.high_end());
        let low = lower_end(self.low_end(), rhs.low_end());
        self.set_ends(high, low);
    }

    /// Merges `rhs` in when one range strictly covers the other, and says
    /// whether it did.
    pub fn merge(&mut self, rhs: &Sequence, dir: MergeDirection) -> (r: bool)
        ensures
            r == seq_contains(*old(self), *rhs),
            *final(self) == if !r {
                *old(self)
            } else if dir == MergeDirection::Up {
                merged_up(*old(self), *rhs)
            } else {
                merged_down(*old(self), *rhs)
            },
    {
        let is_contain_1 = self.high() < rhs.high() && self.low() > rhs.low();
        let is_contain_2 = self.high() > rhs.high() && self.low() < rhs.low();
        if !(is_contain_1 || is_contain_2) {
            return false;
        }
        match dir {
            MergeDirection::Up => self.merge_up(rhs),
            MergeDirection::Down => self.merge_down(rhs),
        }
        true
    }

    pub fn is_top_fractal(s1: &Sequence, s2: &Sequence, s3: &Sequence) -> (r: bool)
        ensures
            r == spec_is_top_fractal(*s1, *s2, *s3),
    {
        s1.high() < s2.high() && s2.high() > s3.high()
    }

    pub fn is_bottom_fractal(s1: &Sequence, s2: &Sequence, s3: &Sequence) -> (r: bool)
        ensures
            r == spec_is_bottom_fractal(*s1, *s2, *s3),
    {
        s1.low() > s2.low() && s2.low() < s3.low()
    }
}

} // verus!
