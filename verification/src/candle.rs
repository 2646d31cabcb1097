//! A single OHLC+volume sample.
//!
//! Prices and volume are fixed-point integers counting hundredths of a
//! unit, so a price of `1234` stands for `12.34`. The bounds in
//! [`Candle::wf`] keep every product the coordinate math forms inside
//! `i64`.

use vstd::prelude::*;

verus! {

/// Largest magnitude a fixed-point price may have: 10^12 hundredths.
pub const PRICE_LIMIT: i64 = 1_000_000_000_000;

/// Largest fixed-point volume: 10^13 hundredths.
pub const VOLUME_LIMIT: i64 = 10_000_000_000_000;

/// One OHLC+volume sample. `high >= low` is not assumed of the input;
/// the renderer tolerates any ordering of the four prices.
#[derive(Clone, Copy, PartialEq, Eq, Structural, Debug)]
pub struct Candle {
    /// Seconds since the Unix epoch, UTC.
    pub timestamp: i64,
    pub open: i64,
    pub high: i64,
    pub low: i64,
    pub close: i64,
    pub volume: i64,
}

impl Candle {
    /// The magnitude bounds under which the chart arithmetic cannot
    /// overflow.
    pub open spec fn wf(self) -> bool {
        &&& -PRICE_LIMIT <= self.open <= PRICE_LIMIT
        &&& -PRICE_LIMIT <= self.high <= PRICE_LIMIT
        &&& -PRICE_LIMIT <= self.low <= PRICE_LIMIT
        &&& -PRICE_LIMIT <= self.close <= PRICE_LIMIT
        &&& 0 <= self.volume <= VOLUME_LIMIT
    }

    /// Whether the bar closed at or above its open.
    pub open spec fn spec_is_bullish(self) -> bool {
        self.close >= self.open
    }

    pub fn new(timestamp: i64, open: i64, high: i64, low: i64, close: i64, volume: i64) -> (c:
        Candle)
        ensures
            c == (Candle { timestamp, open, high, low, close, volume }),
    {
        Candle { timestamp, open, high, low, close, volume }
    }

    /// A bar whose close equals its open counts as bullish.
    pub fn is_bullish(&self) -> (b: bool)
        ensures
            b == self.spec_is_bullish(),
    {
        self.close >= self.open
    }
}

} // verus!
