use vstd::prelude::*;

verus! {

/// Milliseconds since the epoch.
pub type Time = i64;

/// One period of price data. Prices are integers in a unit that the caller
/// chooses (for example ticks of 0.00001), so that they compare exactly.
#[derive(Clone, Copy, Debug)]
pub struct Bar {
    pub time: Time,
    pub open: i64,
    pub high: i64,
    pub low: i64,
    pub close: i64,
}

impl Bar {
    /// Open and close lie between low and high.
    pub open spec fn wf(&self) -> bool {
        &&& self.low <= self.open <= self.high
        &&& self.low <= self.close <= self.high
    }

    pub fn new(time: Time, open: i64, high: i64, low: i64, close: i64) -> (r: Bar)
        ensures
            r.time == time,
            r.open == open,
            r.high == high,
            r.low == low,
            r.close == close,
    {
        Bar { time, open, high, low, close }
    }
}

} // verus!
