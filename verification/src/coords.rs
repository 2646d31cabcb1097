//! The coordinate mapper: price and bar-index transforms onto pixels.
//!
//! All transforms are pure integer arithmetic over a chart rectangle. The
//! y axis is inverted: larger prices sit higher on the surface, so a
//! price maps to `chart_y + chart_height - scaled`. Divisions keep their
//! operands non-negative, so every truncation here rounds toward zero.

use vstd::prelude::*;
use crate::candle::{Candle, PRICE_LIMIT, VOLUME_LIMIT};
use crate::window::MAX_SURFACE;

verus! {

/// Largest padded price span the mapper accepts: the raw span of two
/// in-bounds prices plus ten percent of padding on each side.
pub const SPAN_LIMIT: i64 = 3_000_000_000_000;

/// Left margin of the plot, in pixels.
pub const LEFT_MARGIN: i64 = 10;

/// Top margin of the plot, in pixels.
pub const TOP_MARGIN: i64 = 10;

/// Right margin, leaving room for the price labels.
pub const RIGHT_MARGIN: i64 = 60;

/// Bottom margin, leaving room for the date labels.
pub const BOTTOM_MARGIN: i64 = 30;

/// The plot rectangle inside the surface, in pixels.
#[derive(Clone, Copy, PartialEq, Eq, Structural, Debug)]
pub struct ChartLayout {
    pub chart_x: i64,
    pub chart_y: i64,
    pub chart_width: i64,
    pub chart_height: i64,
}

impl ChartLayout {
    /// A usable plot rectangle: positive extent, inside the pixel bounds.
    pub open spec fn wf(self) -> bool {
        &&& 0 <= self.chart_x <= MAX_SURFACE
        &&& 0 <= self.chart_y <= MAX_SURFACE
        &&& 1 <= self.chart_width <= MAX_SURFACE
        &&& 1 <= self.chart_height <= MAX_SURFACE
    }

    /// The plot rectangle a surface of the given size leaves inside the
    /// four margins, or `None` where no positive area is left.
    pub open spec fn spec_surface_layout(width: int, height: int) -> Option<ChartLayout> {
        if width > (LEFT_MARGIN + RIGHT_MARGIN) as int && height > (TOP_MARGIN
            + BOTTOM_MARGIN) as int {
            Some(
                ChartLayout {
                    chart_x: LEFT_MARGIN,
                    chart_y: TOP_MARGIN,
                    chart_width: (width - LEFT_MARGIN - RIGHT_MARGIN) as i64,
                    chart_height: (height - TOP_MARGIN - BOTTOM_MARGIN) as i64,
                },
            )
        } else {
            None
        }
    }

    /// The plot rectangle of a surface, after the four margins. `None`
    /// when the surface is too small to leave a positive plot area.
    pub fn of_surface(width: i64, height: i64) -> (r: Option<ChartLayout>)
        requires
            width <= MAX_SURFACE,
            height <= MAX_SURFACE,
        ensures
            r == Self::spec_surface_layout(width as int, height as int),
            r matches Some(l) ==> l.wf(),
    {
        if width > LEFT_MARGIN + RIGHT_MARGIN && height > TOP_MARGIN + BOTTOM_MARGIN {
            Some(
                ChartLayout {
                    chart_x: LEFT_MARGIN,
                    chart_y: TOP_MARGIN,
                    chart_width: width - LEFT_MARGIN - RIGHT_MARGIN,
                    chart_height: height - TOP_MARGIN - BOTTOM_MARGIN,
                },
            )
        } else {
            None
        }
    }
}

/// The price bounds the transforms work over: the padded minimum and a
/// span guarded to be positive.
pub open spec fn price_args_wf(price_min: int, span: int) -> bool {
    &&& -2 * PRICE_LIMIT as int <= price_min <= 2 * PRICE_LIMIT as int
    &&& 1 <= span <= SPAN_LIMIT as int
}

/// Where price `p` lands on the y axis.
pub open spec fn spec_price_to_y(p: int, price_min: int, span: int, layout: ChartLayout) -> int {
    layout.chart_y + layout.chart_height - ((p - price_min) * (layout.chart_height as int))
        / span
}

/// Which price pixel row `y` stands for.
pub open spec fn spec_y_to_price(y: int, price_min: int, span: int, layout: ChartLayout) -> int {
    price_min + ((layout.chart_y + layout.chart_height - y) * span) / (
    layout.chart_height as int)
}

/// Maps a price inside the padded range onto the plot's y axis; the top
/// of the range lands on the top edge, the bottom on the bottom edge.
pub fn price_to_y(p: i64, price_min: i64, span: i64, layout: &ChartLayout) -> (y: i64)
    requires
        layout.wf(),
        price_args_wf(price_min as int, span as int),
        price_min <= p <= price_min + span,
    ensures
        y as int == spec_price_to_y(p as int, price_min as int, span as int, *layout),
        layout.chart_y <= y <= layout.chart_y + layout.chart_height,
{
    let offset: i64 = p - price_min;
    proof {
        let o = offset as int;
        let h = layout.chart_height as int;
        let s = span as int;
        assert(0 <= o * h <= s * h && s * h <= SPAN_LIMIT as int * MAX_SURFACE as int)
            by (nonlinear_arith)
            requires
                0 <= o <= s <= SPAN_LIMIT as int,
                0 < h <= MAX_SURFACE as int,
        ;
        assert(0 <= (o * h) / s <= h) by (nonlinear_arith)
            requires
                0 <= o * h <= s * h,
                1 <= s,
                0 < h,
        ;
    }
    let scaled: i64 = offset * layout.chart_height / span;
    layout.chart_y + layout.chart_height - scaled
}

/// Maps a y pixel inside the plot back to the price whose row it is.
pub fn y_to_price(y: i64, price_min: i64, span: i64, layout: &ChartLayout) -> (p: i64)
    requires
        layout.wf(),
        price_args_wf(price_min as int, span as int),
        layout.chart_y <= y <= layout.chart_y + layout.chart_height,
    ensures
        p as int == spec_y_to_price(y as int, price_min as int, span as int, *layout),
        price_min <= p <= price_min + span,
{
    let rise: i64 = layout.chart_y + layout.chart_height - y;
    proof {
        let r = rise as int;
        let h = layout.chart_height as int;
        let s = span as int;
        assert(0 <= r * s <= h * s && h * s <= MAX_SURFACE as int * SPAN_LIMIT as int)
            by (nonlinear_arith)
            requires
                0 <= r <= h <= MAX_SURFACE as int,
                0 < s <= SPAN_LIMIT as int,
        ;
        assert(0 <= (r * s) / h <= s) by (nonlinear_arith)
            requires
                0 <= r * s <= h * s,
                1 <= h,
                0 < s,
        ;
    }
    let scaled: i64 = rise * span / layout.chart_height;
    price_min + scaled
}

/// Where the left edge of visible bar `i` of `visible` lands on the x
/// axis.
pub open spec fn spec_index_to_x(i: int, visible: int, layout: ChartLayout) -> int {
    layout.chart_x + (i * (layout.chart_width as int)) / visible
}

/// Which visible bar pixel column `x` falls into.
pub open spec fn spec_x_to_index(x: int, visible: int, layout: ChartLayout) -> int {
    ((x - layout.chart_x) * visible) / (layout.chart_width as int)
}

/// Maps a visible bar index to the x pixel of its left edge; index
/// `visible` itself gives the plot's right edge.
pub fn index_to_x(i: usize, visible: usize, layout: &ChartLayout) -> (x: i64)
    requires
        layout.wf(),
        1 <= visible <= MAX_SERIES_CAP,
        i <= visible,
    ensures
        x as int == spec_index_to_x(i as int, visible as int, *layout),
        layout.chart_x <= x <= layout.chart_x + layout.chart_width,
{
    proof {
        let ii = i as int;
        let n = visible as int;
        let w = layout.chart_width as int;
        assert(0 <= ii * w <= n * w && n * w <= MAX_SERIES_CAP as int * MAX_SURFACE as int)
            by (nonlinear_arith)
            requires
                0 <= ii <= n <= MAX_SERIES_CAP as int,
                0 < w <= MAX_SURFACE as int,
        ;
        assert(0 <= (ii * w) / n <= w) by (nonlinear_arith)
            requires
                0 <= ii * w <= n * w,
                1 <= n,
                0 < w,
        ;
    }
    let iw: i64 = (i as i64) * layout.chart_width;
    layout.chart_x + iw / (visible as i64)
}

/// Maps an x pixel inside the plot to the visible bar index whose column
/// it falls into; only the right edge itself maps to index `visible`.
pub fn x_to_index(x: i64, visible: usize, layout: &ChartLayout) -> (i: usize)
    requires
        layout.wf(),
        1 <= visible <= MAX_SERIES_CAP,
        layout.chart_x <= x <= layout.chart_x + layout.chart_width,
    ensures
        i as int == spec_x_to_index(x as int, visible as int, *layout),
        i <= visible,
        x < layout.chart_x + layout.chart_width ==> i < visible,
{
    let run: i64 = x - layout.chart_x;
    proof {
        let r = run as int;
        let n = visible as int;
        let w = layout.chart_width as int;
        assert(0 <= r * n <= w * n && w * n <= MAX_SURFACE as int * MAX_SERIES_CAP as int)
            by (nonlinear_arith)
            requires
                0 <= r <= w <= MAX_SURFACE as int,
                0 < n <= MAX_SERIES_CAP as int,
        ;
        assert(0 <= (r * n) / w <= n) by (nonlinear_arith)
            requires
                0 <= r * n <= w * n,
                1 <= w,
                0 < n,
        ;
        assert(r < w ==> (r * n) / w < n) by (nonlinear_arith)
            requires
                0 <= r,
                1 <= w,
                0 < n,
        ;
    }
    let idx: i64 = run * (visible as i64) / layout.chart_width;
    idx as usize
}

/// Most bars the x transforms accept in one window.
pub const MAX_SERIES_CAP: i64 = 1_000_000_000;

/// The least low among the bars; meaningful for a non-empty sequence.
pub open spec fn min_low(s: Seq<Candle>) -> int
    decreases s.len(),
{
    if s.len() <= 1 {
        s[0].low as int
    } else {
        let m = min_low(s.drop_last());
        if s.last().low < m {
            s.last().low as int
        } else {
            m
        }
    }
}

/// The greatest high among the bars; meaningful for a non-empty
/// sequence.
pub open spec fn max_high(s: Seq<Candle>) -> int
    decreases s.len(),
{
    if s.len() <= 1 {
        s[0].high as int
    } else {
        let m = max_high(s.drop_last());
        if s.last().high > m {
            s.last().high as int
        } else {
            m
        }
    }
}

/// The greatest volume among the bars; meaningful for a non-empty
/// sequence.
pub open spec fn max_volume(s: Seq<Candle>) -> int
    decreases s.len(),
{
    if s.len() <= 1 {
        s[0].volume as int
    } else {
        let m = max_volume(s.drop_last());
        if s.last().volume > m {
            s.last().volume as int
        } else {
            m
        }
    }
}

/// The least low is under every low, and under some bar's low.
pub proof fn lemma_min_low_le(s: Seq<Candle>, i: int)
    requires
        0 <= i < s.len(),
    ensures
        min_low(s) <= s[i].low,
    decreases s.len(),
{
    if s.len() > 1 && i < s.len() - 1 {
        lemma_min_low_le(s.drop_last(), i);
    }
}

/// The greatest high is above every high.
pub proof fn lemma_max_high_ge(s: Seq<Candle>, i: int)
    requires
        0 <= i < s.len(),
    ensures
        max_high(s) >= s[i].high,
    decreases s.len(),
{
    if s.len() > 1 && i < s.len() - 1 {
        lemma_max_high_ge(s.drop_last(), i);
    }
}

/// The greatest volume is above every volume.
pub proof fn lemma_max_volume_ge(s: Seq<Candle>, i: int)
    requires
        0 <= i < s.len(),
    ensures
        max_volume(s) >= s[i].volume,
    decreases s.len(),
{
    if s.len() > 1 && i < s.len() - 1 {
        lemma_max_volume_ge(s.drop_last(), i);
    }
}

/// For in-bounds bars the extremes stay in bounds.
pub proof fn lemma_extremes_in_bounds(s: Seq<Candle>)
    requires
        s.len() >= 1,
        forall|i: int| 0 <= i < s.len() ==> #[trigger] s[i].wf(),
    ensures
        -PRICE_LIMIT as int <= min_low(s) <= PRICE_LIMIT as int,
        -PRICE_LIMIT as int <= max_high(s) <= PRICE_LIMIT as int,
        0 <= max_volume(s) <= VOLUME_LIMIT as int,
    decreases s.len(),
{
    if s.len() > 1 {
        assert(forall|i: int| 0 <= i < s.drop_last().len() ==> #[trigger] s.drop_last()[i].wf());
        lemma_extremes_in_bounds(s.drop_last());
        assert(s[s.len() - 1].wf());
    } else {
        assert(s[0].wf());
    }
}

/// The raw extent of the visible prices, floored at zero where the
/// input's highs sit under its lows.
pub open spec fn spec_raw_span(s: Seq<Candle>) -> int {
    if max_high(s) - min_low(s) > 0 {
        max_high(s) - min_low(s)
    } else {
        0
    }
}

/// The padded lower price bound: a tenth of the raw extent below the
/// least low.
pub open spec fn spec_price_min(s: Seq<Candle>) -> int {
    min_low(s) - spec_raw_span(s) / 10
}

/// The padded upper price bound.
pub open spec fn spec_price_max(s: Seq<Candle>) -> int {
    max_high(s) + spec_raw_span(s) / 10
}

/// The padded span, guarded to be positive so it can divide.
pub open spec fn spec_span(s: Seq<Candle>) -> int {
    if spec_price_max(s) - spec_price_min(s) > 1 {
        spec_price_max(s) - spec_price_min(s)
    } else {
        1
    }
}

/// The padded price range of a non-empty window: the raw `[min low,
/// max high]` range, widened by a tenth of its extent on each side, with
/// the span floored at one price unit.
pub fn price_bounds(candles: &Vec<Candle>) -> (r: (i64, i64, i64))
    requires
        candles@.len() >= 1,
        forall|i: int| 0 <= i < candles@.len() ==> #[trigger] candles@[i].wf(),
    ensures
        r.0 as int == spec_price_min(candles@),
        r.1 as int == spec_price_max(candles@),
        r.2 as int == spec_span(candles@),
        price_args_wf(r.0 as int, r.2 as int),
        forall|i: int|
            0 <= i < candles@.len() ==> r.0 <= #[trigger] candles@[i].low && candles@[i].high
                <= r.1,
{
    proof {
        lemma_extremes_in_bounds(candles@);
    }
    let ghost s = candles@;
    let mut lo: i64 = candles[0].low;
    let mut hi: i64 = candles[0].high;
    let mut i: usize = 1;
    proof {
        assert(s[0].wf());
        assert(s.take(1).len() == 1 && s.take(1)[0] == s[0]);
    }
    while i < candles.len()
        invariant
            1 <= i <= s.len(),
            s == candles@,
            forall|j: int| 0 <= j < s.len() ==> #[trigger] s[j].wf(),
            lo == min_low(s.take(i as int)),
            hi == max_high(s.take(i as int)),
            -PRICE_LIMIT <= lo <= PRICE_LIMIT,
            -PRICE_LIMIT <= hi <= PRICE_LIMIT,
        decreases s.len() - i,
    {
        proof {
            assert(s[i as int].wf());
            assert(s.take(i + 1).drop_last() =~= s.take(i as int));
            assert(s.take(i + 1).last() == s[i as int]);
        }
        let c = candles[i];
        if c.low < lo {
            lo = c.low;
        }
        if c.high > hi {
            hi = c.high;
        }
        i += 1;
    }
    proof {
        assert(s.take(s.len() as int) =~= s);
    }
    let raw: i64 = if hi - lo > 0 {
        hi - lo
    } else {
        0
    };
    let pad: i64 = raw / 10;
    let price_min: i64 = lo - pad;
    let price_max: i64 = hi + pad;
    let span: i64 = if price_max - price_min > 1 {
        price_max - price_min
    } else {
        1
    };
    proof {
        assert forall|i: int|
            0 <= i < candles@.len() implies price_min <= #[trigger] candles@[i].low
            && candles@[i].high <= price_max by {
            lemma_min_low_le(candles@, i);
            lemma_max_high_ge(candles@, i);
        }
    }
    (price_min, price_max, span)
}

/// The greatest volume of a non-empty window.
pub fn max_visible_volume(candles: &Vec<Candle>) -> (v: i64)
    requires
        candles@.len() >= 1,
        forall|i: int| 0 <= i < candles@.len() ==> #[trigger] candles@[i].wf(),
    ensures
        v as int == max_volume(candles@),
        0 <= v <= VOLUME_LIMIT,
{
    proof {
        lemma_extremes_in_bounds(candles@);
    }
    let ghost s = candles@;
    let mut v: i64 = candles[0].volume;
    let mut i: usize = 1;
    proof {
        assert(s[0].wf());
        assert(s.take(1).len() == 1 && s.take(1)[0] == s[0]);
    }
    while i < candles.len()
        invariant
            1 <= i <= s.len(),
            s == candles@,
            forall|j: int| 0 <= j < s.len() ==> #[trigger] s[j].wf(),
            v == max_volume(s.take(i as int)),
            0 <= v <= VOLUME_LIMIT,
        decreases s.len() - i,
    {
        proof {
            assert(s[i as int].wf());
            assert(s.take(i + 1).drop_last() =~= s.take(i as int));
            assert(s.take(i + 1).last() == s[i as int]);
        }
        let c = candles[i];
        if c.volume > v {
            v = c.volume;
        }
        i += 1;
    }
    proof {
        assert(s.take(s.len() as int) =~= s);
    }
    v
}

/// `p` clamped into `[lo, hi]`.
pub open spec fn spec_clamp(p: int, lo: int, hi: int) -> int {
    if p < lo {
        lo
    } else if p > hi {
        hi
    } else {
        p
    }
}

/// Clamps a price into an inclusive range.
pub fn clamp(p: i64, lo: i64, hi: i64) -> (r: i64)
    requires
        lo <= hi,
    ensures
        r as int == spec_clamp(p as int, lo as int, hi as int),
        lo <= r <= hi,
{
    if p < lo {
        lo
    } else if p > hi {
        hi
    } else {
        p
    }
}

/// Mapping a price inside the padded range onto the y axis and back
/// recovers it up to the price width of a single pixel: the loss is
/// non-negative and under `span / chart_height + 2`.
pub proof fn lemma_price_round_trip(p: int, price_min: int, span: int, layout: ChartLayout)
    requires
        layout.wf(),
        price_args_wf(price_min, span),
        price_min <= p <= price_min + span,
    ensures
        ({
            let back = spec_y_to_price(
                spec_price_to_y(p, price_min, span, layout),
                price_min,
                span,
                layout,
            );
            &&& 0 <= p - back
            &&& (p - back) * layout.chart_height < span + layout.chart_height
        }),
{
    let h = layout.chart_height as int;
    let a = p - price_min;
    let k = (a * h) / span;
    let y = layout.chart_y + h - k;
    let q = (k * span) / h;
    let back = spec_y_to_price(spec_price_to_y(p, price_min, span, layout), price_min, span, layout);
    assert(spec_price_to_y(p, price_min, span, layout) == y);
    assert(layout.chart_y + h - y == k);
    assert(back == price_min + q);
    let r = (a * h) % span;
    let m = (k * span) % h;
    vstd::arithmetic::div_mod::lemma_fundamental_div_mod(a * h, span);
    vstd::arithmetic::div_mod::lemma_mod_bound(a * h, span);
    vstd::arithmetic::div_mod::lemma_fundamental_div_mod(k * span, h);
    vstd::arithmetic::div_mod::lemma_mod_bound(k * span, h);
    assert(a * h == span * k + r);
    assert(k * span == h * q + m);
    assert(h * (a - q) == r + m) by (nonlinear_arith)
        requires
            a * h == span * k + r,
            k * span == h * q + m,
    ;
    assert(0 <= a - q && (a - q) * h < span + h) by (nonlinear_arith)
        requires
            h * (a - q) == r + m,
            0 <= r < span,
            0 <= m < h,
            0 < h,
    ;
}

} // verus!
