use vstd::prelude::*;

use crate::bar::{Bar, Time};

verus! {

/// Trend between two consecutive candles; it decides how an inclusion is
/// resolved.
#[derive(Debug, Clone, Copy, PartialEq, Eq, Structural)]
pub enum Direction {
    Up,
    Down,
}

/// A bar after inclusion merging. `index` counts the merged candles, so the
/// distance between two candles is the difference of their indices.
#[derive(Debug, Clone, Copy)]
pub struct Candle {
    pub index: u64,
    pub bar: Bar,
}

/// `a`'s range covers `b`'s.
pub open spec fn covers(a: Bar, b: Bar) -> bool {
    a.high >= b.high && a.low <= b.low
}

/// One of the two ranges covers the other.
pub open spec fn inclusive(a: Bar, b: Bar) -> bool {
    covers(a, b) || covers(b, a)
}

/// The trend from `k1` to `k2`: up unless the midpoint falls.
pub open spec fn direction_of(k1: Bar, k2: Bar) -> Direction {
    if k1.high + k1.low > k2.high + k2.low {
        Direction::Down
    } else {
        Direction::Up
    }
}

pub open spec fn max_of(a: i64, b: i64) -> i64 {
    if a >= b {
        a
    } else {
        b
    }
}

pub open spec fn min_of(a: i64, b: i64) -> i64 {
    if a <= b {
        a
    } else {
        b
    }
}

/// A one-price bar that sits on the extreme that the merge would keep: it
/// changes nothing.
pub open spec fn is_limit_bar(direction: Direction, c: Bar, b: Bar) -> bool {
    b.high == b.low && match direction {
        Direction::Down => b.low == c.low,
        Direction::Up => b.high == c.high,
    }
}

/// The candle `c` after absorbing the bar `b` that it is inclusive with.
/// Going up it keeps the higher high and the higher low, going down the lower
/// of each; its time moves to the bar's when the bar sets the extreme.
pub open spec fn merged(direction: Direction, c: Candle, b: Bar) -> Candle {
    if is_limit_bar(direction, c.bar, b) {
        c
    } else {
        match direction {
            Direction::Down => {
                let high = min_of(b.high, c.bar.high);
                let low = min_of(b.low, c.bar.low);
                Candle {
                    index: c.index,
                    bar: Bar {
                        time: if c.bar.low > b.low { b.time } else { c.bar.time },
                        open: high,
                        high,
                        low,
                        close: low,
                    },
                }
            },
            Direction::Up => {
                let high = max_of(b.high, c.bar.high);
                let low = max_of(b.low, c.bar.low);
                Candle {
                    index: c.index,
                    bar: Bar {
                        time: if c.bar.high < b.high { b.time } else { c.bar.time },
                        open: low,
                        high,
                        low,
                        close: high,
                    },
                }
            },
        }
    }
}

impl Candle {
    pub fn new(index: u64, time: Time, open: i64, high: i64, low: i64, close: i64) -> (r: Candle)
        ensures
            r.index == index,
            r.bar == (Bar { time, open, high, low, close }),
    {
        Candle { index, bar: Bar::new(time, open, high, low, close) }
    }

    pub fn from_bar(index: u64, bar: &Bar) -> (r: Candle)
        ensures
            r.index == index,
            r.bar == *bar,
    {
        Candle { index, bar: *bar }
    }

    /// The trend between two consecutive candles.
    pub fn check_direction(k1: &Candle, k2: &Candle) -> (r: Direction)
        ensures
            r == direction_of(k1.bar, k2.bar),
    {
        if (k1.bar.high as i128) + (k1.bar.low as i128) > (k2.bar.high as i128) + (
        k2.bar.low as i128) {
            Direction::Down
        } else {
            Direction::Up
        }
    }

    /// Merges `bar` into `current` when their ranges are inclusive, and says
    /// whether they were.
    pub fn merge(direction: Direction, current: &mut Candle, bar: &Bar) -> (r: bool)
        ensures
            r == inclusive(old(current).bar, *bar),
            *final(current) == if r {
                merged(direction, *old(current), *bar)
            } else {
                *old(current)
            },
    {
        if (current.bar.high >= bar.high && current.bar.low <= bar.low) || (current.bar.high
            <= bar.high && current.bar.low >= bar.low) {
            let high_eq_low = bar.high == bar.low;
            match direction {
                Direction::Down => {
                    if high_eq_low && bar.low == current.bar.low {
                        return true;
                    }
                    if current.bar.low > bar.low {
                        current.bar.time = bar.time;
                    }
                    current.bar.high = if bar.high <= current.bar.high {
                        bar.high
                    } else {
                        current.bar.high
                    };
                    current.bar.low = if bar.low <= current.bar.low {
                        bar.low
                    } else {
                        current.bar.low
                    };
                    current.bar.open = current.bar.high;
                    current.bar.close = current.bar.low;
                },
                Direction::Up => {
                    if high_eq_low && bar.high == current.bar.high {
                        return true;
                    }
                    if current.bar.high < bar.high {
                        current.bar.time = bar.time;
                    }
                    current.bar.high = if bar.high >= current.bar.high {
                        bar.high
                    } else {
                        current.bar.high
                    };
                    current.bar.low = if bar.low >= current.bar.low {
                        bar.low
                    } else {
                        current.bar.low
                    };
                    current.bar.close = current.bar.high;
                    current.bar.open = current.bar.low;
                },
            }
            true
        } else {
            false
        }
    }
}

} // verus!
