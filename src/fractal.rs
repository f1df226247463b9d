use vstd::prelude::*;

use crate::bar::{Bar, Time};
use crate::candle::Candle;

verus! {

#[derive(Debug, Clone, Copy, PartialEq, Eq, Structural)]
pub enum FractalType {
    Top,
    Bottom,
}

/// `k2` stands above both neighbours.
pub open spec fn is_top_shape(k1: Bar, k2: Bar, k3: Bar) -> bool {
    k1.high < k2.high && k2.high > k3.high
}

/// `k2` stands below both neighbours.
pub open spec fn is_bottom_shape(k1: Bar, k2: Bar, k3: Bar) -> bool {
    k1.low > k2.low && k2.low < k3.low
}

/// The type that three candles make: a top where they make one, else a bottom.
pub open spec fn shape_type(k1: Bar, k2: Bar, k3: Bar) -> FractalType {
    if is_top_shape(k1, k2, k3) {
        FractalType::Top
    } else {
        FractalType::Bottom
    }
}

/// A local top or bottom made by three consecutive merged candles. Its
/// identity is its centre candle `k2`.
#[derive(Debug, Clone, Copy)]
pub struct Fractal {
    pub k1: Candle,
    pub k2: Candle,
    pub k3: Candle,
    pub ftype: FractalType,
}

impl Fractal {
    /// The three candles make the shape that the cached type names.
    pub open spec fn wf(&self) -> bool {
        &&& is_top_shape(self.k1.bar, self.k2.bar, self.k3.bar) || is_bottom_shape(
            self.k1.bar,
            self.k2.bar,
            self.k3.bar,
        )
        &&& self.ftype == shape_type(self.k1.bar, self.k2.bar, self.k3.bar)
    }

    /// Each of the three candles is a valid bar.
    pub open spec fn candles_valid(&self) -> bool {
        self.k1.bar.wf() && self.k2.bar.wf() && self.k3.bar.wf()
    }

    pub open spec fn spec_index(&self) -> int {
        self.k2.index as int
    }

    pub open spec fn spec_distance(&self, other: &Fractal) -> u64 {
        if other.k2.index > self.k2.index {
            (other.k2.index - self.k2.index) as u64
        } else {
            (self.k2.index - other.k2.index) as u64
        }
    }

    pub open spec fn spec_has_enough_distance(&self, other: &Fractal) -> bool {
        self.spec_distance(other) >= 4
    }

    pub open spec fn spec_highest(&self) -> i64 {
        if self.ftype == FractalType::Top {
            self.k2.bar.high
        } else if self.k1.bar.high >= self.k3.bar.high {
            self.k1.bar.high
        } else {
            self.k3.bar.high
        }
    }

    pub open spec fn spec_lowest(&self) -> i64 {
        if self.ftype == FractalType::Bottom {
            self.k2.bar.low
        } else if self.k1.bar.low <= self.k3.bar.low {
            self.k1.bar.low
        } else {
            self.k3.bar.low
        }
    }

    pub open spec fn spec_price(&self) -> i64 {
        if self.ftype == FractalType::Bottom {
            self.k2.bar.low
        } else {
            self.k2.bar.high
        }
    }

    pub open spec fn spec_is_contain(&self, other: &Fractal) -> bool {
        self.spec_highest() >= other.spec_highest() && self.spec_lowest() <= other.spec_lowest()
    }

    pub fn new(k1: Candle, k2: Candle, k3: Candle) -> (r: Fractal)
        requires
            is_top_shape(k1.bar, k2.bar, k3.bar) || is_bottom_shape(k1.bar, k2.bar, k3.bar),
        ensures
            r.k1 == k1,
            r.k2 == k2,
            r.k3 == k3,
            r.ftype == shape_type(k1.bar, k2.bar, k3.bar),
            r.wf(),
    {
        let is_top = k1.bar.high < k2.bar.high && k2.bar.high > k3.bar.high;
        let ftype = if is_top {
            FractalType::Top
        } else {
            FractalType::Bottom
        };
        Fractal { k1, k2, k3, ftype }
    }

    /// The fractal that three consecutive candles make, if any.
    pub fn check_fractal(k1: &Candle, k2: &Candle, k3: &Candle) -> (r: Option<Fractal>)
        ensures
            r.is_some() == (is_top_shape(k1.bar, k2.bar, k3.bar) || is_bottom_shape(
                k1.bar,
                k2.bar,
                k3.bar,
            )),
            r.is_some() ==> r.unwrap() == (Fractal {
                k1: *k1,
                k2: *k2,
                k3: *k3,
                ftype: shape_type(k1.bar, k2.bar, k3.bar),
            }),
    {
        if (k1.bar.high < k2.bar.high && k2.bar.high > k3.bar.high) || (k1.bar.low > k2.bar.low
            && k2.bar.low < k3.bar.low) {
            return Some(Fractal::new(*k1, *k2, *k3));
        }
        None
    }

    /// Number of merged candles between the two centres.
    #[verifier::when_used_as_spec(spec_distance)]
    pub fn distance(&self, other: &Fractal) -> (r: u64)
        ensures
            r == self.spec_distance(other),
    {
        if other.k2.index > self.k2.index {
            other.k2.index - self.k2.index
        } else {
            self.k2.index - other.k2.index
        }
    }

    /// The centres are at least four candles apart.
    #[verifier::when_used_as_spec(spec_has_enough_distance)]
    pub fn has_enough_distance(&self, other: &Fractal) -> (r: bool)
        ensures
            r == self.spec_has_enough_distance(other),
    {
        self.distance(other) >= 4
    }

    pub fn is_same_type(&self, other: &Fractal) -> (r: bool)
        ensures
            r == (self.ftype == other.ftype),
    {
        self.ftype == other.ftype
    }

    pub fn time(&self) -> (r: Time)
        ensures
            r == self.k2.bar.time,
    {
        self.k2.bar.time
    }

    pub fn index(&self) -> (r: u64)
        ensures
            r == self.k2.index,
    {
        self.k2.index
    }

    pub fn fractal_type(&self) -> (r: FractalType)
        ensures
            r == self.ftype,
    {
        self.ftype
    }

    /// The highest price over the three candles.
    #[verifier::when_used_as_spec(spec_highest)]
    pub fn highest(&self) -> (r: i64)
        ensures
            r == self.spec_highest(),
    {
        if self.ftype == FractalType::Top {
            self.k2.bar.high
        } else if self.k1.bar.high >= self.k3.bar.high {
            self.k1.bar.high
        } else {
            self.k3.bar.high
        }
    }

    /// The lowest price over the three candles.
    #[verifier::when_used_as_spec(spec_lowest)]
    pub fn lowest(&self) -> (r: i64)
        ensures
            r == self.spec_lowest(),
    {
        if self.ftype == FractalType::Bottom {
            self.k2.bar.low
        } else if self.k1.bar.low <= self.k3.bar.low {
            self.k1.bar.low
        } else {
            self.k3.bar.low
        }
    }

    /// The centre candle's extreme in the fractal's direction.
    #[verifier::when_used_as_spec(spec_price)]
    pub fn price(&self) -> (r: i64)
        ensures
            r == self.spec_price(),
    {
        if self.ftype == FractalType::Bottom {
            self.k2.bar.low
        } else {
            self.k2.bar.high
        }
    }

    /// This fractal's price span covers `other`'s.
    #[verifier::when_used_as_spec(spec_is_contain)]
    pub fn is_contain(&self, other: &Fractal) -> (r: bool)
        ensures
            r == self.spec_is_contain(other),
    {
        self.highest() >= other.highest() && self.lowest() <= other.lowest()
    }
}

/// Two fractals are equal when their centre candles share a time.
impl PartialEq for Fractal {
    fn eq(&self, other: &Fractal) -> (r: bool)
        ensures
            r == (self.k2.bar.time == other.k2.bar.time),
    {
        self.k2.bar.time == other.k2.bar.time
    }
}

impl vstd::std_specs::cmp::PartialEqSpecImpl for Fractal {
    open spec fn obeys_eq_spec() -> bool {
        true
    }

    open spec fn eq_spec(&self, other: &Fractal) -> bool {
        self.k2.bar.time == other.k2.bar.time
    }
}

} // verus!
