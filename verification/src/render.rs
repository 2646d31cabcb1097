//! The chart renderer: turns the visible bars, the hover position and the
//! surface size into an ordered list of draw primitives.
//!
//! Later entries are drawn on top of earlier ones. The order is:
//! background, grid lines with price labels, date labels, the chart
//! border, volume bars, candle wicks and bodies, and, under a hovering
//! pointer, a crosshair with an info box. An external drawing surface
//! rasterizes the list; nothing here depends on a rendering backend.

use vstd::prelude::*;
use vstd::string::*;
use crate::candle::Candle;
use crate::controller::{ChartState, Position};
use crate::coords::{
    ChartLayout,
    max_volume,
    max_visible_volume,
    price_to_y,
    spec_clamp,
    spec_price_to_y,
    spec_index_to_x,
    spec_x_to_index,
    clamp,
    x_to_index,
    lemma_max_volume_ge,
    MAX_SERIES_CAP,
};
use crate::text::{
    fixed2_chars,
    fixed2_label,
    whole_chars,
    whole_label,
    month_day_text,
    month_day_label,
    minute_text,
    minute_label,
};
use crate::window::MAX_SURFACE;

verus! {

/// An RGBA color, one byte per channel.
#[derive(Clone, Copy, PartialEq, Eq, Structural, Debug)]
pub struct Color {
    pub red: u8,
    pub green: u8,
    pub blue: u8,
    pub alpha: u8,
}

#[derive(Clone, Copy, PartialEq, Eq, Structural, Debug)]
pub enum HAlign {
    Left,
    Center,
}

#[derive(Clone, Copy, PartialEq, Eq, Structural, Debug)]
pub enum VAlign {
    Top,
    Center,
}

/// One draw instruction for the external surface.
#[derive(Clone, Debug)]
pub enum Primitive {
    FillRect { x: i64, y: i64, width: i64, height: i64, color: Color },
    StrokeRect { x: i64, y: i64, width: i64, height: i64, stroke_width: i64, color: Color },
    Line { x1: i64, y1: i64, x2: i64, y2: i64, stroke_width: i64, color: Color },
    Label {
        x: i64,
        y: i64,
        text: String,
        size: i64,
        color: Color,
        h_align: HAlign,
        v_align: VAlign,
    },
}

pub open spec fn black() -> Color {
    Color { red: 0, green: 0, blue: 0, alpha: 255 }
}

pub open spec fn grid_color() -> Color {
    Color { red: 51, green: 51, blue: 51, alpha: 255 }
}

pub open spec fn text_color() -> Color {
    Color { red: 204, green: 204, blue: 204, alpha: 255 }
}

pub open spec fn border_color() -> Color {
    Color { red: 102, green: 102, blue: 102, alpha: 255 }
}

/// The candle color of a direction: green for bullish, red for bearish.
pub open spec fn candle_color(bullish: bool) -> Color {
    if bullish {
        Color { red: 0, green: 204, blue: 0, alpha: 255 }
    } else {
        Color { red: 204, green: 0, blue: 0, alpha: 255 }
    }
}

/// The volume bar color: the candle color at high transparency.
pub open spec fn volume_color(bullish: bool) -> Color {
    if bullish {
        Color { red: 0, green: 204, blue: 0, alpha: 51 }
    } else {
        Color { red: 204, green: 0, blue: 0, alpha: 51 }
    }
}

pub open spec fn crosshair_color() -> Color {
    Color { red: 204, green: 204, blue: 204, alpha: 128 }
}

pub open spec fn info_background_color() -> Color {
    Color { red: 0, green: 0, blue: 0, alpha: 204 }
}

pub open spec fn info_border_color() -> Color {
    Color { red: 128, green: 128, blue: 128, alpha: 255 }
}

pub open spec fn info_text_color() -> Color {
    Color { red: 230, green: 230, blue: 230, alpha: 255 }
}

/// How many horizontal grid divisions the plot has.
pub const GRID_DIVISIONS: i64 = 5;

/// The background fill over the whole surface.
pub open spec fn is_background(p: Primitive, width: int, height: int) -> bool {
    p matches Primitive::FillRect { x, y, width: w, height: h, color } && x == 0 && y == 0 && w
        == width && h == height && color == black()
}

/// The y pixel of grid line `i` of the six, bottom first.
pub open spec fn grid_y(i: int, layout: ChartLayout) -> int {
    layout.chart_y + layout.chart_height - (i * (layout.chart_height as int)) / (
    GRID_DIVISIONS as int)
}

/// The price grid line `i` marks, bottom first.
pub open spec fn grid_price(i: int, price_min: int, span: int) -> int {
    price_min + (i * span) / (GRID_DIVISIONS as int)
}

/// Grid line `i`: a thin horizontal line across the plot.
pub open spec fn is_grid_line(p: Primitive, i: int, layout: ChartLayout) -> bool {
    p matches Primitive::Line { x1, y1, x2, y2, stroke_width, color } && x1 == layout.chart_x && x2
        == layout.chart_x + layout.chart_width && y1 == grid_y(i, layout) && y2 == grid_y(i, layout)
        && stroke_width == 1 && color == grid_color()
}

/// Grid label `i`: the price of line `i`, to the right of the plot.
pub open spec fn is_grid_label(
    p: Primitive,
    i: int,
    layout: ChartLayout,
    price_min: int,
    span: int,
) -> bool {
    p matches Primitive::Label { x, y, text, size, color, h_align, v_align } && x
        == layout.chart_x + layout.chart_width + 5 && y == grid_y(i, layout) && text@
        == fixed2_chars(grid_price(i, price_min, span)) && size == 12 && color == text_color()
        && h_align == HAlign::Left && v_align == VAlign::Center
}

/// Grid pair `i` of a list: line `i` at `off + 2i`, its label after it.
pub open spec fn grid_pair_ok(
    r: Seq<Primitive>,
    off: int,
    i: int,
    layout: ChartLayout,
    price_min: int,
    span: int,
) -> bool {
    &&& is_grid_line(r[off + 2 * i], i, layout)
    &&& is_grid_label(r[off + 2 * i + 1], i, layout, price_min, span)
}

/// The six grid lines, each followed by its price label.
pub open spec fn grid_section_ok(
    r: Seq<Primitive>,
    off: int,
    layout: ChartLayout,
    price_min: int,
    span: int,
) -> bool {
    forall|i: int| 0 <= i < 6 ==> #[trigger] grid_pair_ok(r, off, i, layout, price_min, span)
}

/// The grid lines and price labels, lowest line first.
pub fn grid_primitives(layout: &ChartLayout, price_min: i64, span: i64) -> (r: Vec<Primitive>)
    requires
        layout.wf(),
        crate::coords::price_args_wf(price_min as int, span as int),
    ensures
        r@.len() == 12,
        grid_section_ok(r@, 0, *layout, price_min as int, span as int),
{
    let mut r: Vec<Primitive> = Vec::new();
    let mut i: i64 = 0;
    while i <= GRID_DIVISIONS
        invariant
            0 <= i <= GRID_DIVISIONS + 1,
            layout.wf(),
            crate::coords::price_args_wf(price_min as int, span as int),
            r@.len() == 2 * i,
            forall|j: int|
                0 <= j < i ==> #[trigger] grid_pair_ok(
                    r@,
                    0,
                    j,
                    *layout,
                    price_min as int,
                    span as int,
                ),
        decreases GRID_DIVISIONS - i + 1,
    {
        let ghost prev = r@;
        proof {
            assert(0 <= i as int * (layout.chart_height as int) <= 6 * MAX_SURFACE as int
                && i as int * (layout.chart_height as int) / 5 <= layout.chart_height as int)
                by (nonlinear_arith)
                requires
                    0 <= i as int <= 5,
                    0 < layout.chart_height as int <= MAX_SURFACE as int,
            ;
            assert(0 <= i as int * (span as int) <= 6 * crate::coords::SPAN_LIMIT as int && i as int
                * (span as int) / 5 <= span as int) by (nonlinear_arith)
                requires
                    0 <= i as int <= 5,
                    0 < span as int <= crate::coords::SPAN_LIMIT as int,
            ;
        }
        let y: i64 = layout.chart_y + layout.chart_height - (i * layout.chart_height)
            / GRID_DIVISIONS;
        let price: i64 = price_min + (i * span) / GRID_DIVISIONS;
        r.push(
            Primitive::Line {
                x1: layout.chart_x,
                y1: y,
                x2: layout.chart_x + layout.chart_width,
                y2: y,
                stroke_width: 1,
                color: Color { red: 51, green: 51, blue: 51, alpha: 255 },
            },
        );
        let text = fixed2_label(price);
        r.push(
            Primitive::Label {
                x: layout.chart_x + layout.chart_width + 5,
                y,
                text,
                size: 12,
                color: Color { red: 204, green: 204, blue: 204, alpha: 255 },
                h_align: HAlign::Left,
                v_align: VAlign::Center,
            },
        );
        proof {
            assert forall|j: int| 0 <= j < i + 1 implies #[trigger] grid_pair_ok(
                r@,
                0,
                j,
                *layout,
                price_min as int,
                span as int,
            ) by {
                if j == i as int {
                    assert(is_grid_line(r@[0 + 2 * j], j, *layout));
                    assert(is_grid_label(r@[0 + 2 * j + 1], j, *layout, price_min as int,
                        span as int));
                } else {
                    assert(grid_pair_ok(prev, 0, j, *layout, price_min as int, span as int));
                    assert(r@[2 * j] == prev[2 * j]);
                    assert(r@[2 * j + 1] == prev[2 * j + 1]);
                    assert(r@[0 + 2 * j] == prev[0 + 2 * j]);
                    assert(r@[0 + 2 * j + 1] == prev[0 + 2 * j + 1]);
                }
            }
        }
        i += 1;
    }
    r
}

/// How many date labels a window of `n` bars gets.
pub open spec fn date_count(n: int) -> int {
    if n < 5 {
        n
    } else {
        5
    }
}

/// The index stride between date labels.
pub open spec fn date_step(n: int) -> int {
    if date_count(n) > 1 {
        n / (date_count(n) - 1)
    } else {
        1
    }
}

/// The bar index date label `i` marks, clamped to the last bar.
pub open spec fn date_idx(i: int, n: int) -> int {
    if i * date_step(n) < n - 1 {
        i * date_step(n)
    } else {
        n - 1
    }
}

/// Date label `i`: the month/day of its bar, centered under the plot.
pub open spec fn is_date_label(
    p: Primitive,
    i: int,
    s: Seq<Candle>,
    layout: ChartLayout,
) -> bool {
    p matches Primitive::Label { x, y, text, size, color, h_align, v_align } && x
        == spec_index_to_x(date_idx(i, s.len() as int), s.len() as int, layout) && y
        == layout.chart_y + layout.chart_height + 15 && month_day_text(
        text@,
        s[date_idx(i, s.len() as int)].timestamp as int,
    ) && size == 12 && color == text_color() && h_align == HAlign::Center && v_align
        == VAlign::Center
}

/// The date labels, oldest bar first.
pub open spec fn date_section_ok(
    r: Seq<Primitive>,
    off: int,
    s: Seq<Candle>,
    layout: ChartLayout,
) -> bool {
    forall|i: int|
        0 <= i < date_count(s.len() as int) ==> #[trigger] is_date_label(r[off + i], i, s, layout)
}

/// Up to five evenly strided date labels along the x axis, always
/// starting at the first visible bar and never past the last.
pub fn date_primitives(candles: &Vec<Candle>, layout: &ChartLayout) -> (r: Vec<Primitive>)
    requires
        layout.wf(),
        1 <= candles@.len() <= MAX_SERIES_CAP as int,
    ensures
        r@.len() == date_count(candles@.len() as int),
        date_section_ok(r@, 0, candles@, *layout),
{
    let n = candles.len();
    let num: usize = if n < 5 {
        n
    } else {
        5
    };
    let step: usize = if num > 1 {
        n / (num - 1)
    } else {
        1
    };
    let mut r: Vec<Primitive> = Vec::new();
    let mut i: usize = 0;
    while i < num
        invariant
            0 <= i <= num,
            layout.wf(),
            1 <= candles@.len() <= MAX_SERIES_CAP as int,
            n == candles@.len(),
            num as int == date_count(n as int),
            step as int == date_step(n as int),
            r@.len() == i,
            forall|j: int| 0 <= j < i ==> #[trigger] is_date_label(r@[j], j, candles@, *layout),
        decreases num - i,
    {
        proof {
            assert((i * step) as int == i as int * step as int) by (nonlinear_arith)
                requires
                    0 <= i as int,
                    0 <= step as int,
            ;
            assert(i as int * step as int <= 4 * step as int) by (nonlinear_arith)
                requires
                    0 <= i as int <= 4,
                    0 <= step as int,
            ;
        }
        let scaled: usize = i * step;
        let idx: usize = if scaled < n - 1 {
            scaled
        } else {
            n - 1
        };
        let x = crate::coords::index_to_x(idx, n, layout);
        let text = month_day_label(candles[idx].timestamp);
        r.push(
            Primitive::Label {
                x,
                y: layout.chart_y + layout.chart_height + 15,
                text,
                size: 12,
                color: Color { red: 204, green: 204, blue: 204, alpha: 255 },
                h_align: HAlign::Center,
                v_align: VAlign::Center,
            },
        );
        i += 1;
    }
    r
}

/// The plot border rectangle.
pub open spec fn is_border(p: Primitive, layout: ChartLayout) -> bool {
    p matches Primitive::StrokeRect { x, y, width, height, stroke_width, color } && x
        == layout.chart_x && y == layout.chart_y && width == layout.chart_width && height
        == layout.chart_height && stroke_width == 1 && color == border_color()
}

/// The tallest a volume bar may be: three tenths of the plot height.
pub open spec fn vol_max_height(layout: ChartLayout) -> int {
    (3 * (layout.chart_height as int)) / 10
}

/// The left edge of the volume bar in slot `i`: a tenth of a slot in
/// from the slot's left edge.
pub open spec fn bar_slot_x(i: int, n: int, layout: ChartLayout) -> int {
    spec_index_to_x(i, n, layout) + (layout.chart_width as int) / (10 * n)
}

/// A volume bar fills eight tenths of its slot.
pub open spec fn volume_bar_width(n: int, layout: ChartLayout) -> int {
    (8 * (layout.chart_width as int)) / (10 * n)
}

/// The height of a volume bar: proportional to the window's greatest
/// volume, and zero when that is zero.
pub open spec fn volume_height(vol: int, maxv: int, layout: ChartLayout) -> int {
    if maxv <= 0 {
        0
    } else {
        (vol * vol_max_height(layout)) / maxv
    }
}

/// Volume bar `i`: rises from the plot's bottom edge, colored by the
/// bar's direction at high transparency.
pub open spec fn is_volume_bar(
    p: Primitive,
    i: int,
    s: Seq<Candle>,
    maxv: int,
    layout: ChartLayout,
) -> bool {
    p matches Primitive::FillRect { x, y, width, height, color } && x == bar_slot_x(
        i,
        s.len() as int,
        layout,
    ) && y == layout.chart_y + layout.chart_height - volume_height(s[i].volume as int, maxv, layout)
        && width == volume_bar_width(s.len() as int, layout) && height == volume_height(
        s[i].volume as int,
        maxv,
        layout,
    ) && color == volume_color(s[i].spec_is_bullish())
}

pub open spec fn volume_section_ok(
    r: Seq<Primitive>,
    off: int,
    s: Seq<Candle>,
    maxv: int,
    layout: ChartLayout,
) -> bool {
    forall|i: int| 0 <= i < s.len() ==> #[trigger] is_volume_bar(r[off + i], i, s, maxv, layout)
}

/// One volume bar per visible bar, in series order, drawn before the
/// candles so that bodies occlude them.
pub fn volume_primitives(candles: &Vec<Candle>, layout: &ChartLayout, max_vol: i64) -> (r: Vec<
    Primitive,
>)
    requires
        layout.wf(),
        1 <= candles@.len() <= MAX_SERIES_CAP as int,
        forall|i: int| 0 <= i < candles@.len() ==> #[trigger] candles@[i].wf(),
        max_vol as int == max_volume(candles@),
        0 <= max_vol <= crate::candle::VOLUME_LIMIT,
    ensures
        r@.len() == candles@.len(),
        volume_section_ok(r@, 0, candles@, max_vol as int, *layout),
{
    let n = candles.len();
    let vmax_h: i64 = 3 * layout.chart_height / 10;
    let mut r: Vec<Primitive> = Vec::new();
    let mut i: usize = 0;
    while i < n
        invariant
            0 <= i <= n,
            layout.wf(),
            1 <= n <= MAX_SERIES_CAP,
            n == candles@.len(),
            forall|j: int| 0 <= j < candles@.len() ==> #[trigger] candles@[j].wf(),
            max_vol as int == max_volume(candles@),
            0 <= max_vol <= crate::candle::VOLUME_LIMIT,
            vmax_h as int == vol_max_height(*layout),
            0 <= vmax_h <= 300_000,
            r@.len() == i,
            forall|j: int|
                0 <= j < i ==> #[trigger] is_volume_bar(
                    r@[j],
                    j,
                    candles@,
                    max_vol as int,
                    *layout,
                ),
        decreases n - i,
    {
        let c = candles[i];
        proof {
            assert(candles@[i as int].wf());
        }
        let x_left = crate::coords::index_to_x(i, n, layout);
        let inset: i64 = layout.chart_width / (10 * (n as i64));
        let bar_w: i64 = 8 * layout.chart_width / (10 * (n as i64));
        let height: i64 = if max_vol <= 0 {
            0
        } else {
            proof {
                lemma_max_volume_ge(candles@, i as int);
                assert(0 <= c.volume as int * vmax_h as int <= max_vol as int * vmax_h as int
                    && max_vol as int * vmax_h as int <= crate::candle::VOLUME_LIMIT as int
                    * 300_000) by (nonlinear_arith)
                    requires
                        0 <= c.volume as int <= max_vol as int
                            <= crate::candle::VOLUME_LIMIT as int,
                        0 <= vmax_h as int <= 300_000,
                ;
                assert((c.volume as int * vmax_h as int) / (max_vol as int) <= vmax_h as int)
                    by (nonlinear_arith)
                    requires
                        0 <= c.volume as int * vmax_h as int <= max_vol as int * vmax_h as int,
                        0 < max_vol as int,
                        0 <= vmax_h as int,
                ;
            }
            c.volume * vmax_h / max_vol
        };
        r.push(
            Primitive::FillRect {
                x: x_left + inset,
                y: layout.chart_y + layout.chart_height - height,
                width: bar_w,
                height,
                color: if c.is_bullish() {
                    Color { red: 0, green: 204, blue: 0, alpha: 51 }
                } else {
                    Color { red: 204, green: 0, blue: 0, alpha: 51 }
                },
            },
        );
        i += 1;
    }
    r
}

/// Half a slot's ideal width, for centering a wick in its slot.
pub open spec fn half_slot(n: int, layout: ChartLayout) -> int {
    (layout.chart_width as int) / (2 * n)
}

/// The x pixel of the middle of slot `i`.
pub open spec fn center_x(i: int, n: int, layout: ChartLayout) -> int {
    spec_index_to_x(i, n, layout) + half_slot(n, layout)
}

/// A candle body fills seven tenths of its slot.
pub open spec fn body_width(n: int, layout: ChartLayout) -> int {
    (7 * (layout.chart_width as int)) / (10 * n)
}

/// A wick stroke is a tenth of a slot wide.
pub open spec fn wick_width(n: int, layout: ChartLayout) -> int {
    (layout.chart_width as int) / (10 * n)
}

/// The y pixel of a price after clamping it into the padded range, so
/// that even a price outside the window's own extremes stays drawable.
pub open spec fn clamped_price_y(
    p: int,
    price_min: int,
    span: int,
    layout: ChartLayout,
) -> int {
    spec_price_to_y(spec_clamp(p, price_min, price_min + span), price_min, span, layout)
}

/// The top edge of candle `i`'s body: the higher of its open and close.
pub open spec fn body_top_y(c: Candle, price_min: int, span: int, layout: ChartLayout) -> int {
    let oy = clamped_price_y(c.open as int, price_min, span, layout);
    let cy = clamped_price_y(c.close as int, price_min, span, layout);
    if oy <= cy {
        oy
    } else {
        cy
    }
}

/// The rendered height of candle `i`'s body, floored at one pixel so a
/// doji stays visible.
pub open spec fn body_height_of(c: Candle, price_min: int, span: int, layout: ChartLayout) -> int {
    let oy = clamped_price_y(c.open as int, price_min, span, layout);
    let cy = clamped_price_y(c.close as int, price_min, span, layout);
    let d = if oy <= cy {
        cy - oy
    } else {
        oy - cy
    };
    if d < 1 {
        1
    } else {
        d
    }
}

/// Wick `i`: a vertical stroke from the bar's high to its low, in the
/// middle of its slot.
pub open spec fn is_wick(
    p: Primitive,
    i: int,
    s: Seq<Candle>,
    price_min: int,
    span: int,
    layout: ChartLayout,
) -> bool {
    p matches Primitive::Line { x1, y1, x2, y2, stroke_width, color } && x1 == center_x(
        i,
        s.len() as int,
        layout,
    ) && x2 == center_x(i, s.len() as int, layout) && y1 == clamped_price_y(
        s[i].high as int,
        price_min,
        span,
        layout,
    ) && y2 == clamped_price_y(s[i].low as int, price_min, span, layout) && stroke_width
        == wick_width(s.len() as int, layout) && color == candle_color(s[i].spec_is_bullish())
}

/// Body `i`: a rectangle from open to close, centered in its slot.
pub open spec fn is_body(
    p: Primitive,
    i: int,
    s: Seq<Candle>,
    price_min: int,
    span: int,
    layout: ChartLayout,
) -> bool {
    p matches Primitive::FillRect { x, y, width, height, color } && x == center_x(
        i,
        s.len() as int,
        layout,
    ) - body_width(s.len() as int, layout) / 2 && y == body_top_y(s[i], price_min, span, layout)
        && width == body_width(s.len() as int, layout) && height == body_height_of(
        s[i],
        price_min,
        span,
        layout,
    ) && color == candle_color(s[i].spec_is_bullish())
}

/// Candle pair `i` of a list: wick `i` at `off + 2i`, its body after
/// it.
pub open spec fn candle_pair_ok(
    r: Seq<Primitive>,
    off: int,
    i: int,
    s: Seq<Candle>,
    price_min: int,
    span: int,
    layout: ChartLayout,
) -> bool {
    &&& is_wick(r[off + 2 * i], i, s, price_min, span, layout)
    &&& is_body(r[off + 2 * i + 1], i, s, price_min, span, layout)
}

pub open spec fn candle_section_ok(
    r: Seq<Primitive>,
    off: int,
    s: Seq<Candle>,
    price_min: int,
    span: int,
    layout: ChartLayout,
) -> bool {
    forall|i: int| 0 <= i < s.len() ==> #[trigger] candle_pair_ok(r, off, i, s, price_min, span, layout)
}

/// The candles: for each bar, its wick and then its body, in series
/// order.
#[verifier::rlimit(60)]
pub fn candle_primitives(candles: &Vec<Candle>, layout: &ChartLayout, price_min: i64, span: i64)
    -> (r: Vec<Primitive>)
    requires
        layout.wf(),
        crate::coords::price_args_wf(price_min as int, span as int),
        1 <= candles@.len() <= MAX_SERIES_CAP as int,
    ensures
        r@.len() == 2 * candles@.len(),
        candle_section_ok(r@, 0, candles@, price_min as int, span as int, *layout),
{
    let n = candles.len();
    let price_max: i64 = price_min + span;
    let mut r: Vec<Primitive> = Vec::new();
    let mut i: usize = 0;
    while i < n
        invariant
            0 <= i <= n,
            layout.wf(),
            crate::coords::price_args_wf(price_min as int, span as int),
            1 <= n <= MAX_SERIES_CAP,
            n == candles@.len(),
            price_max == price_min + span,
            r@.len() == 2 * i,
            forall|j: int|
                0 <= j < i ==> #[trigger] candle_pair_ok(
                    r@,
                    0,
                    j,
                    candles@,
                    price_min as int,
                    span as int,
                    *layout,
                ),
        decreases n - i,
    {
        let ghost prev = r@;
        let c = candles[i];
        let x_left = crate::coords::index_to_x(i, n, layout);
        let half: i64 = layout.chart_width / (2 * (n as i64));
        let center: i64 = x_left + half;
        let body_w: i64 = 7 * layout.chart_width / (10 * (n as i64));
        let wick_w: i64 = layout.chart_width / (10 * (n as i64));
        let open_y = price_to_y(clamp(c.open, price_min, price_max), price_min, span, layout);
        let close_y = price_to_y(clamp(c.close, price_min, price_max), price_min, span, layout);
        let high_y = price_to_y(clamp(c.high, price_min, price_max), price_min, span, layout);
        let low_y = price_to_y(clamp(c.low, price_min, price_max), price_min, span, layout);
        let color = if c.is_bullish() {
            Color { red: 0, green: 204, blue: 0, alpha: 255 }
        } else {
            Color { red: 204, green: 0, blue: 0, alpha: 255 }
        };
        r.push(
            Primitive::Line {
                x1: center,
                y1: high_y,
                x2: center,
                y2: low_y,
                stroke_width: wick_w,
                color,
            },
        );
        let body_top: i64 = if open_y <= close_y {
            open_y
        } else {
            close_y
        };
        let diff: i64 = if open_y <= close_y {
            close_y - open_y
        } else {
            open_y - close_y
        };
        let body_h: i64 = if diff < 1 {
            1
        } else {
            diff
        };
        r.push(
            Primitive::FillRect {
                x: center - body_w / 2,
                y: body_top,
                width: body_w,
                height: body_h,
                color,
            },
        );
        proof {
            assert forall|j: int| 0 <= j < i + 1 implies #[trigger] candle_pair_ok(
                r@,
                0,
                j,
                candles@,
                price_min as int,
                span as int,
                *layout,
            ) by {
                if j == i as int {
                    assert(is_wick(r@[0 + 2 * j], j, candles@, price_min as int, span as int,
                        *layout));
                    assert(is_body(r@[0 + 2 * j + 1], j, candles@, price_min as int, span as int,
                        *layout));
                } else {
                    assert(candle_pair_ok(prev, 0, j, candles@, price_min as int, span as int,
                        *layout));
                    assert(r@[0 + 2 * j] == prev[0 + 2 * j]);
                    assert(r@[0 + 2 * j + 1] == prev[0 + 2 * j + 1]);
                }
            }
        }
        i += 1;
    }
    r
}

/// Whether the pointer hovers inside the plot rectangle.
pub open spec fn hover_in_plot(pos: Position, layout: ChartLayout) -> bool {
    &&& layout.chart_x <= pos.x <= layout.chart_x + layout.chart_width
    &&& layout.chart_y <= pos.y <= layout.chart_y + layout.chart_height
}

pub open spec fn is_crosshair_vertical(p: Primitive, pos: Position, layout: ChartLayout) -> bool {
    p matches Primitive::Line { x1, y1, x2, y2, stroke_width, color } && x1 == pos.x && y1
        == layout.chart_y && x2 == pos.x && y2 == layout.chart_y + layout.chart_height
        && stroke_width == 1 && color == crosshair_color()
}

pub open spec fn is_crosshair_horizontal(p: Primitive, pos: Position, layout: ChartLayout) -> bool {
    p matches Primitive::Line { x1, y1, x2, y2, stroke_width, color } && x1 == layout.chart_x && y1
        == pos.y && x2 == layout.chart_x + layout.chart_width && y2 == pos.y && stroke_width == 1
        && color == crosshair_color()
}

/// The left edge of the info box, toward the plot's top right corner.
pub open spec fn info_x(layout: ChartLayout) -> int {
    layout.chart_x + layout.chart_width - 250
}

pub open spec fn info_y(layout: ChartLayout) -> int {
    layout.chart_y + 10
}

pub open spec fn is_info_background(p: Primitive, layout: ChartLayout) -> bool {
    p matches Primitive::FillRect { x, y, width, height, color } && x == info_x(layout) && y
        == info_y(layout) && width == 240 && height == 110 && color == info_background_color()
}

pub open spec fn is_info_border(p: Primitive, layout: ChartLayout) -> bool {
    p matches Primitive::StrokeRect { x, y, width, height, stroke_width, color } && x == info_x(
        layout,
    ) && y == info_y(layout) && width == 240 && height == 110 && stroke_width == 1 && color
        == info_border_color()
}

/// Where info line `k` of the box starts.
pub open spec fn info_line_pos(p: Primitive, k: int, layout: ChartLayout) -> bool {
    p matches Primitive::Label { x, y, size, color, h_align, v_align, .. } && x == info_x(layout)
        + 10 && y == info_y(layout) + 10 + 16 * k && size == 12 && color == info_text_color()
        && h_align == HAlign::Left && v_align == VAlign::Top
}

/// The info box's first line: `Time: ` and the bar's minute label.
pub open spec fn is_info_time(p: Primitive, c: Candle, layout: ChartLayout) -> bool {
    &&& info_line_pos(p, 0, layout)
    &&& p matches Primitive::Label { text, .. } ==> {
        &&& text@.len() >= 6
        &&& text@.subrange(0, 6) == "Time: "@
        &&& minute_text(text@.skip(6), c.timestamp as int)
    }
}

/// An info line holding `prefix` and then the two-decimal price `v`.
pub open spec fn is_info_price_line(
    p: Primitive,
    k: int,
    prefix: Seq<char>,
    v: int,
    layout: ChartLayout,
) -> bool {
    &&& info_line_pos(p, k, layout)
    &&& p matches Primitive::Label { text, .. } ==> text@ == prefix + fixed2_chars(v)
}

/// The info box's last line: `Vol: ` and the bar's whole volume.
pub open spec fn is_info_volume(p: Primitive, c: Candle, layout: ChartLayout) -> bool {
    &&& info_line_pos(p, 5, layout)
    &&& p matches Primitive::Label { text, .. } ==> text@ == "Vol: "@ + whole_chars(
        c.volume as int,
    )
}

/// How many primitives the crosshair overlay holds: none without a
/// hover inside the plot, the two hair lines alone when the hovered
/// column is past the last bar, and the info box lines besides
/// otherwise.
pub open spec fn crosshair_len(cursor: Option<Position>, n: int, layout: ChartLayout) -> int {
    match cursor {
        Option::None => 0,
        Option::Some(pos) => if !hover_in_plot(pos, layout) {
            0
        } else if spec_x_to_index(pos.x as int, n, layout) < n {
            10
        } else {
            2
        },
    }
}

/// The crosshair overlay: the two hair lines through the pointer and,
/// when the pointer's column holds a bar, the info box describing it.
pub open spec fn crosshair_section_ok(
    r: Seq<Primitive>,
    off: int,
    cursor: Option<Position>,
    s: Seq<Candle>,
    layout: ChartLayout,
) -> bool {
    match cursor {
        Option::None => true,
        Option::Some(pos) => hover_in_plot(pos, layout) ==> {
        let idx = spec_x_to_index(pos.x as int, s.len() as int, layout);
        &&& is_crosshair_vertical(r[off], pos, layout)
        &&& is_crosshair_horizontal(r[off + 1], pos, layout)
        &&& idx < s.len() ==> {
            &&& is_info_background(r[off + 2], layout)
            &&& is_info_border(r[off + 3], layout)
            &&& is_info_time(r[off + 4], s[idx], layout)
            &&& is_info_price_line(r[off + 5], 1, "O: "@, s[idx].open as int, layout)
            &&& is_info_price_line(r[off + 6], 2, "H: "@, s[idx].high as int, layout)
            &&& is_info_price_line(r[off + 7], 3, "L: "@, s[idx].low as int, layout)
            &&& is_info_price_line(r[off + 8], 4, "C: "@, s[idx].close as int, layout)
            &&& is_info_volume(r[off + 9], s[idx], layout)
        }
        },
    }
}

/// A prefix followed by a computed label.
fn prefixed(prefix: &str, rest: String) -> (r: String)
    ensures
        r@ == prefix@ + rest@,
{
    String::from_str(prefix).concat(rest.as_str())
}

/// One line of the info box.
fn info_line(text: String, k: i64, layout: &ChartLayout) -> (p: Primitive)
    requires
        layout.wf(),
        0 <= k <= 5,
    ensures
        p matches Primitive::Label { text: t, .. } && t == text,
        info_line_pos(p, k as int, *layout),
{
    Primitive::Label {
        x: layout.chart_x + layout.chart_width - 250 + 10,
        y: layout.chart_y + 10 + 10 + 16 * k,
        text,
        size: 12,
        color: Color { red: 230, green: 230, blue: 230, alpha: 255 },
        h_align: HAlign::Left,
        v_align: VAlign::Top,
    }
}

/// The crosshair and info box under a hovering pointer; empty when the
/// pointer is absent or outside the plot.
pub fn crosshair_primitives(
    candles: &Vec<Candle>,
    cursor: Option<Position>,
    layout: &ChartLayout,
) -> (r: Vec<Primitive>)
    requires
        layout.wf(),
        1 <= candles@.len() <= MAX_SERIES_CAP as int,
        forall|i: int| 0 <= i < candles@.len() ==> #[trigger] candles@[i].wf(),
    ensures
        r@.len() == crosshair_len(cursor, candles@.len() as int, *layout),
        crosshair_section_ok(r@, 0, cursor, candles@, *layout),
{
    let mut r: Vec<Primitive> = Vec::new();
    let pos = match cursor {
        Some(pos) => pos,
        None => {
            return r;
        },
    };
    if !(pos.x >= layout.chart_x && pos.x <= layout.chart_x + layout.chart_width && pos.y
        >= layout.chart_y && pos.y <= layout.chart_y + layout.chart_height) {
        return r;
    }
    r.push(
        Primitive::Line {
            x1: pos.x,
            y1: layout.chart_y,
            x2: pos.x,
            y2: layout.chart_y + layout.chart_height,
            stroke_width: 1,
            color: Color { red: 204, green: 204, blue: 204, alpha: 128 },
        },
    );
    r.push(
        Primitive::Line {
            x1: layout.chart_x,
            y1: pos.y,
            x2: layout.chart_x + layout.chart_width,
            y2: pos.y,
            stroke_width: 1,
            color: Color { red: 204, green: 204, blue: 204, alpha: 128 },
        },
    );
    let n = candles.len();
    let idx = x_to_index(pos.x, n, layout);
    if idx < n {
        let c = candles[idx];
        proof {
            assert(candles@[idx as int].wf());
        }
        r.push(
            Primitive::FillRect {
                x: layout.chart_x + layout.chart_width - 250,
                y: layout.chart_y + 10,
                width: 240,
                height: 110,
                color: Color { red: 0, green: 0, blue: 0, alpha: 204 },
            },
        );
        r.push(
            Primitive::StrokeRect {
                x: layout.chart_x + layout.chart_width - 250,
                y: layout.chart_y + 10,
                width: 240,
                height: 110,
                stroke_width: 1,
                color: Color { red: 128, green: 128, blue: 128, alpha: 255 },
            },
        );
        let minute = minute_label(c.timestamp);
        let ghost minute_view = minute@;
        let time_text = prefixed("Time: ", minute);
        proof {
            reveal_strlit("Time: ");
            assert(time_text@.subrange(0, 6) =~= "Time: "@);
            assert(time_text@.skip(6) =~= minute_view);
        }
        r.push(info_line(time_text, 0, layout));
        r.push(info_line(prefixed("O: ", fixed2_label(c.open)), 1, layout));
        r.push(info_line(prefixed("H: ", fixed2_label(c.high)), 2, layout));
        r.push(info_line(prefixed("L: ", fixed2_label(c.low)), 3, layout));
        r.push(info_line(prefixed("C: ", fixed2_label(c.close)), 4, layout));
        r.push(info_line(prefixed("Vol: ", whole_label(c.volume)), 5, layout));
    }
    r
}

/// Moves a verified grid section from one list into another that holds
/// the same twelve entries starting at `off`.
proof fn lemma_shift_grid(
    a: Seq<Primitive>,
    r: Seq<Primitive>,
    off: int,
    layout: ChartLayout,
    pm: int,
    sp: int,
)
    requires
        grid_section_ok(a, 0, layout, pm, sp),
        forall|k: int| 0 <= k < 12 ==> a[k] == #[trigger] r[off + k],
    ensures
        grid_section_ok(r, off, layout, pm, sp),
{
    assert forall|i: int| 0 <= i < 6 implies #[trigger] grid_pair_ok(r, off, i, layout, pm, sp) by {
        assert(grid_pair_ok(a, 0, i, layout, pm, sp));
        assert(a[0 + 2 * i] == r[off + 2 * i]);
        assert(a[0 + 2 * i + 1] == r[off + (2 * i + 1)]);
        assert(r[off + (2 * i + 1)] == r[off + 2 * i + 1]);
    }
}

/// Moves a verified date section into another list holding the same
/// entries starting at `off`.
proof fn lemma_shift_dates(
    a: Seq<Primitive>,
    r: Seq<Primitive>,
    off: int,
    s: Seq<Candle>,
    layout: ChartLayout,
)
    requires
        date_section_ok(a, 0, s, layout),
        forall|k: int| 0 <= k < date_count(s.len() as int) ==> a[k] == #[trigger] r[off + k],
    ensures
        date_section_ok(r, off, s, layout),
{
    assert forall|i: int| 0 <= i < date_count(s.len() as int) implies #[trigger] is_date_label(
        r[off + i],
        i,
        s,
        layout,
    ) by {
        assert(is_date_label(a[0 + i], i, s, layout));
        assert(a[i] == r[off + i]);
    }
}

/// Moves a verified volume section into another list holding the same
/// entries starting at `off`.
proof fn lemma_shift_volumes(
    a: Seq<Primitive>,
    r: Seq<Primitive>,
    off: int,
    s: Seq<Candle>,
    maxv: int,
    layout: ChartLayout,
)
    requires
        volume_section_ok(a, 0, s, maxv, layout),
        forall|k: int| 0 <= k < s.len() ==> a[k] == #[trigger] r[off + k],
    ensures
        volume_section_ok(r, off, s, maxv, layout),
{
    assert forall|i: int| 0 <= i < s.len() implies #[trigger] is_volume_bar(
        r[off + i],
        i,
        s,
        maxv,
        layout,
    ) by {
        assert(is_volume_bar(a[0 + i], i, s, maxv, layout));
        assert(a[i] == r[off + i]);
    }
}

/// Moves a verified candle section into another list holding the same
/// entries starting at `off`.
proof fn lemma_shift_candles(
    a: Seq<Primitive>,
    r: Seq<Primitive>,
    off: int,
    s: Seq<Candle>,
    pm: int,
    sp: int,
    layout: ChartLayout,
)
    requires
        candle_section_ok(a, 0, s, pm, sp, layout),
        forall|k: int| 0 <= k < 2 * s.len() ==> a[k] == #[trigger] r[off + k],
    ensures
        candle_section_ok(r, off, s, pm, sp, layout),
{
    assert forall|i: int| 0 <= i < s.len() implies #[trigger] candle_pair_ok(
        r,
        off,
        i,
        s,
        pm,
        sp,
        layout,
    ) by {
        assert(candle_pair_ok(a, 0, i, s, pm, sp, layout));
        assert(a[0 + 2 * i] == r[off + 2 * i]);
        assert(a[0 + 2 * i + 1] == r[off + (2 * i + 1)]);
        assert(r[off + (2 * i + 1)] == r[off + 2 * i + 1]);
    }
}

/// The whole chart: one primitive list in draw order. The background
/// comes first; then the six grid lines with their price labels, the
/// date labels, the border, one volume bar per visible bar, each bar's
/// wick and body, and the crosshair overlay.
pub open spec fn chart_ok(
    r: Seq<Primitive>,
    s: Seq<Candle>,
    cursor: Option<Position>,
    layout: ChartLayout,
    width: int,
    height: int,
) -> bool {
    let n = s.len() as int;
    let dc = date_count(n);
    let pmin = crate::coords::spec_price_min(s);
    let span = crate::coords::spec_span(s);
    let maxv = max_volume(s);
    &&& r.len() == 14 + dc + 3 * n + crosshair_len(cursor, n, layout)
    &&& is_background(r[0], width, height)
    &&& grid_section_ok(r, 1, layout, pmin, span)
    &&& date_section_ok(r, 13, s, layout)
    &&& is_border(r[13 + dc], layout)
    &&& volume_section_ok(r, 14 + dc, s, maxv, layout)
    &&& candle_section_ok(r, 14 + dc + n, s, pmin, span, layout)
    &&& crosshair_section_ok(r, 14 + dc + 3 * n, cursor, s, layout)
}

/// Renders the visible bars onto a surface of the given size. An empty
/// window draws nothing; a surface too small for the margins draws only
/// the background; otherwise the full list of `chart_ok` comes back.
#[verifier::rlimit(60)]
pub fn render_chart(candles: &Vec<Candle>, cursor: Option<Position>, width: i64, height: i64)
    -> (r: Vec<Primitive>)
    requires
        candles@.len() <= MAX_SERIES_CAP as int,
        forall|i: int| 0 <= i < candles@.len() ==> #[trigger] candles@[i].wf(),
        0 <= width <= MAX_SURFACE,
        0 <= height <= MAX_SURFACE,
    ensures
        candles@.len() == 0 ==> r@.len() == 0,
        candles@.len() > 0 ==> match ChartLayout::spec_surface_layout(
            width as int,
            height as int,
        ) {
            Option::None => r@.len() == 1 && is_background(r@[0], width as int, height as int),
            Option::Some(layout) => chart_ok(
                r@,
                candles@,
                cursor,
                layout,
                width as int,
                height as int,
            ),
        },
{
    let mut r: Vec<Primitive> = Vec::new();
    if candles.len() == 0 {
        return r;
    }
    r.push(
        Primitive::FillRect {
            x: 0,
            y: 0,
            width,
            height,
            color: Color { red: 0, green: 0, blue: 0, alpha: 255 },
        },
    );
    let layout = match ChartLayout::of_surface(width, height) {
        Some(l) => l,
        None => {
            return r;
        },
    };
    let n = candles.len();
    let ghost s = candles@;
    let (price_min, _price_max, span) = crate::coords::price_bounds(candles);
    let max_vol = max_visible_volume(candles);
    let mut grid = grid_primitives(&layout, price_min, span);
    let ghost gs = grid@;
    let mut dates = date_primitives(candles, &layout);
    let ghost ds = dates@;
    let mut volumes = volume_primitives(candles, &layout, max_vol);
    let ghost vs = volumes@;
    let mut bodies = candle_primitives(candles, &layout, price_min, span);
    let ghost cs = bodies@;
    let mut cross = crosshair_primitives(candles, cursor, &layout);
    let ghost xs = cross@;
    let ghost r1 = r@;
    r.append(&mut grid);
    let ghost r2 = r@;
    r.append(&mut dates);
    let ghost r3 = r@;
    r.push(
        Primitive::StrokeRect {
            x: layout.chart_x,
            y: layout.chart_y,
            width: layout.chart_width,
            height: layout.chart_height,
            stroke_width: 1,
            color: Color { red: 102, green: 102, blue: 102, alpha: 255 },
        },
    );
    let ghost r4 = r@;
    r.append(&mut volumes);
    let ghost r5 = r@;
    r.append(&mut bodies);
    let ghost r6 = r@;
    r.append(&mut cross);
    proof {
        let ghost dc = date_count(s.len() as int);
        let ghost pmin = crate::coords::spec_price_min(s);
        let ghost spn = crate::coords::spec_span(s);
        assert(r2 == r1 + gs && r3 == r2 + ds && r4 == r3.push(r4.last()) && r5 == r4 + vs && r6
            == r5 + cs && r@ == r6 + xs);
        assert(r@.len() == 14 + dc + 3 * s.len() + crosshair_len(cursor, s.len() as int, layout));
        assert(r@[0] == r1[0]);
        assert(pmin == price_min as int && spn == span as int);
        assert forall|k: int| 0 <= k < 12 implies gs[k] == #[trigger] r@[1 + k] by {
            assert(r@[1 + k] == r2[1 + k]);
            assert(r2[1 + k] == gs[k]);
        }
        lemma_shift_grid(gs, r@, 1, layout, price_min as int, span as int);
        assert forall|k: int| 0 <= k < dc implies ds[k] == #[trigger] r@[13 + k] by {
            assert(r@[13 + k] == r3[13 + k]);
            assert(r3[13 + k] == ds[k]);
        }
        lemma_shift_dates(ds, r@, 13, s, layout);
        assert(r@[13 + dc] == r4[13 + dc]);
        assert forall|k: int| 0 <= k < s.len() implies vs[k] == #[trigger] r@[14 + dc + k] by {
            assert(r@[14 + dc + k] == r5[14 + dc + k]);
            assert(r5[14 + dc + k] == vs[k]);
        }
        lemma_shift_volumes(vs, r@, 14 + dc, s, max_vol as int, layout);
        assert forall|k: int| 0 <= k < 2 * s.len() implies cs[k] == #[trigger] r@[14 + dc + s.len()
            + k] by {
            assert(r@[14 + dc + s.len() + k] == r6[14 + dc + s.len() + k]);
            assert(r6[14 + dc + s.len() + k] == cs[k]);
        }
        lemma_shift_candles(cs, r@, 14 + dc + s.len() as int, s, price_min as int, span as int,
            layout);
        let off = 14 + dc + 3 * s.len();
        if let Some(pos) = cursor {
            if hover_in_plot(pos, layout) {
                assert(r@[off] == xs[0] && r@[off + 1] == xs[1]);
                if spec_x_to_index(pos.x as int, s.len() as int, layout) < s.len() {
                    assert(r@[off + 2] == xs[2] && r@[off + 3] == xs[3] && r@[off + 4] == xs[4]
                        && r@[off + 5] == xs[5] && r@[off + 6] == xs[6] && r@[off + 7] == xs[7]
                        && r@[off + 8] == xs[8] && r@[off + 9] == xs[9]);
                }
            }
        }
    }
    r
}

/// The candlestick chart widget: the visible bars, ready to draw.
pub struct CandlestickChart {
    pub candles: Vec<Candle>,
}

impl CandlestickChart {
    /// The chart over an owned window of visible bars.
    pub fn new(candles: Vec<Candle>) -> (c: CandlestickChart)
        ensures
            c.candles@ == candles@,
    {
        CandlestickChart { candles }
    }

    /// Draws the chart for the given interaction state and surface
    /// size: exactly the list `render_chart` describes, with the
    /// crosshair following the state's hover position.
    pub fn draw(&self, state: &ChartState, width: i64, height: i64) -> (r: Vec<Primitive>)
        requires
            self.candles@.len() <= MAX_SERIES_CAP as int,
            forall|i: int| 0 <= i < self.candles@.len() ==> #[trigger] self.candles@[i].wf(),
            0 <= width <= MAX_SURFACE,
            0 <= height <= MAX_SURFACE,
        ensures
            self.candles@.len() == 0 ==> r@.len() == 0,
            self.candles@.len() > 0 ==> match ChartLayout::spec_surface_layout(
                width as int,
                height as int,
            ) {
                Option::None => r@.len() == 1 && is_background(r@[0], width as int, height as int),
                Option::Some(layout) => chart_ok(
                    r@,
                    self.candles@,
                    state.hover_position,
                    layout,
                    width as int,
                    height as int,
                ),
            },
    {
        render_chart(&self.candles, state.hover_position, width, height)
    }
}

} // verus!
