//! The series window: the full bar sequence plus the sliding visible range.
//!
//! `visible_count` bars are shown, ending `pan_offset` bars before the most
//! recent one, so an offset of zero always shows the newest bars. Zoom and
//! pan commands move the range and re-clamp it so that it never leaves the
//! series.

use vstd::prelude::*;
use crate::candle::Candle;

verus! {

/// The zoom floor: the visible range never shrinks below this many bars,
/// or below the whole series where it is shorter.
pub const MIN_VISIBLE: usize = 10;

/// How many bars are shown before the first load.
pub const DEFAULT_VISIBLE: usize = 100;

/// The pan sensitivity multiplier: one dragged pixel counts this many
/// times when converted to bars.
pub const PAN_SENSITIVITY: i64 = 2;

/// Most bars a series may hold; keeps every pixel product inside `i64`.
pub const MAX_SERIES_LEN: usize = 1_000_000_000;

/// Widest surface and largest one-event drag the pan math accepts.
pub const MAX_SURFACE: i64 = 1_000_000;

/// The visible-count floor for a series of `len` bars.
pub open spec fn visible_floor(len: int) -> int {
    if len < MIN_VISIBLE as int {
        len
    } else {
        MIN_VISIBLE as int
    }
}

/// `pan_offset` clamped to the room left by `visible` bars of `len`.
pub open spec fn clamp_offset(offset: int, len: int, visible: int) -> int {
    if offset < 0 {
        0
    } else if offset > len - visible {
        len - visible
    } else {
        offset
    }
}

/// A full bar series with a sliding visible window over its tail.
pub struct SeriesWindow {
    pub candles: Vec<Candle>,
    pub visible_count: usize,
    pub pan_offset: usize,
}

impl SeriesWindow {
    /// The full series, oldest bar first.
    pub open spec fn series(self) -> Seq<Candle> {
        self.candles@
    }

    pub open spec fn visible(self) -> int {
        self.visible_count as int
    }

    pub open spec fn offset(self) -> int {
        self.pan_offset as int
    }

    /// The window invariant: the visible range stays inside the series,
    /// and every bar is within the arithmetic bounds.
    pub open spec fn wf(self) -> bool {
        &&& 1 <= self.visible()
        &&& self.series().len() <= MAX_SERIES_LEN as int
        &&& self.series().len() > 0 ==> {
            &&& self.visible() <= self.series().len()
            &&& 0 <= self.offset() <= self.series().len() - self.visible()
        }
        &&& self.series().len() == 0 ==> self.offset() == 0
        &&& forall|i: int| 0 <= i < self.series().len() ==> #[trigger] self.series()[i].wf()
    }

    /// First index of the visible range.
    pub open spec fn visible_start(self) -> int {
        if self.series().len() == 0 {
            0
        } else {
            self.series().len() - self.offset() - self.visible()
        }
    }

    /// One past the last index of the visible range.
    pub open spec fn visible_end(self) -> int {
        self.series().len() - self.offset()
    }

    /// An empty window, showing the default count once bars arrive.
    pub fn new() -> (w: SeriesWindow)
        ensures
            w.wf(),
            w.series().len() == 0,
            w.visible() == DEFAULT_VISIBLE as int,
            w.offset() == 0,
    {
        SeriesWindow { candles: Vec::new(), visible_count: DEFAULT_VISIBLE, pan_offset: 0 }
    }

    /// Replaces the series, shows the newest bars again, and clamps the
    /// visible count to the new length. An empty series is stored and
    /// nothing else changes.
    pub fn load(&mut self, candles: Vec<Candle>)
        requires
            old(self).wf(),
            candles@.len() <= MAX_SERIES_LEN as int,
            forall|i: int| 0 <= i < candles@.len() ==> #[trigger] candles@[i].wf(),
        ensures
            final(self).wf(),
            final(self).series() == candles@,
            final(self).offset() == 0,
            candles@.len() > 0 ==> final(self).visible() == if old(self).visible()
                <= candles@.len() {
                old(self).visible()
            } else {
                candles@.len() as int
            },
            candles@.len() == 0 ==> final(self).visible() == old(self).visible(),
    {
        let len = candles.len();
        self.candles = candles;
        self.pan_offset = 0;
        if len > 0 && self.visible_count > len {
            self.visible_count = len;
        }
    }

    /// The zoom-in transition: the visible count drops by `step`, floored
    /// at ten bars (or the whole series where shorter), and the offset is
    /// re-clamped. An empty series is left untouched.
    pub open spec fn spec_zoom_in(self, step: int) -> SeriesWindow {
        if self.series().len() == 0 {
            self
        } else {
            let lo = visible_floor(self.series().len() as int);
            let v = if self.visible() - step > lo {
                self.visible() - step
            } else {
                lo
            };
            let p = clamp_offset(self.offset(), self.series().len() as int, v);
            SeriesWindow {
                candles: self.candles,
                visible_count: v as usize,
                pan_offset: p as usize,
            }
        }
    }

    /// The zoom-out transition: the visible count grows by `step`, capped
    /// at the series length, and the offset is re-clamped. An empty series
    /// is left untouched.
    pub open spec fn spec_zoom_out(self, step: int) -> SeriesWindow {
        if self.series().len() == 0 {
            self
        } else {
            let v = if self.visible() + step < self.series().len() {
                self.visible() + step
            } else {
                self.series().len() as int
            };
            let p = clamp_offset(self.offset(), self.series().len() as int, v);
            SeriesWindow {
                candles: self.candles,
                visible_count: v as usize,
                pan_offset: p as usize,
            }
        }
    }

    /// Shows `step` fewer bars, never fewer than the floor.
    pub fn zoom_in(&mut self, step: usize)
        requires
            old(self).wf(),
        ensures
            final(self).wf(),
            *final(self) == old(self).spec_zoom_in(step as int),
    {
        if self.candles.len() == 0 {
            return ;
        }
        let len = self.candles.len();
        let lo = if len < MIN_VISIBLE {
            len
        } else {
            MIN_VISIBLE
        };
        let shrunk = if self.visible_count > step {
            self.visible_count - step
        } else {
            0
        };
        self.visible_count = if shrunk > lo {
            shrunk
        } else {
            lo
        };
        let room = len - self.visible_count;
        if self.pan_offset > room {
            self.pan_offset = room;
        }
    }

    /// Shows `step` more bars, never more than the whole series.
    pub fn zoom_out(&mut self, step: usize)
        requires
            old(self).wf(),
            step <= MAX_SERIES_LEN,
        ensures
            final(self).wf(),
            *final(self) == old(self).spec_zoom_out(step as int),
    {
        if self.candles.len() == 0 {
            return ;
        }
        let len = self.candles.len();
        let grown = self.visible_count + step;
        self.visible_count = if grown < len {
            grown
        } else {
            len
        };
        let room = len - self.visible_count;
        if self.pan_offset > room {
            self.pan_offset = room;
        }
    }

    /// A wheel notch: scrolling up (a positive delta) zooms in by five
    /// bars, anything else zooms out by five.
    pub fn wheel_zoom(&mut self, delta: i64)
        requires
            old(self).wf(),
        ensures
            final(self).wf(),
            delta > 0 ==> *final(self) == old(self).spec_zoom_in(5),
            delta <= 0 ==> *final(self) == old(self).spec_zoom_out(5),
    {
        if delta > 0 {
            self.zoom_in(5);
        } else {
            self.zoom_out(5);
        }
    }

    /// The bar delta a drag of `pixel_delta` pixels stands for:
    /// `pixel_delta * sensitivity / (width / visible)`, with the sub-bar
    /// remainder truncated toward zero.
    pub open spec fn spec_bar_delta(pixel_delta: int, visible: int, width: int) -> int {
        if pixel_delta >= 0 {
            (pixel_delta * PAN_SENSITIVITY as int * visible) / width
        } else {
            -(((-pixel_delta) * PAN_SENSITIVITY as int * visible) / width)
        }
    }

    /// The pan transition: the offset moves by the bar delta and is
    /// clamped to the range the series leaves. An empty series or a
    /// surface without width is left untouched.
    pub open spec fn spec_pan(self, pixel_delta: int, width: int) -> SeriesWindow {
        if self.series().len() == 0 || width <= 0 {
            self
        } else {
            let d = Self::spec_bar_delta(pixel_delta, self.visible(), width);
            let p = clamp_offset(self.offset() + d, self.series().len() as int, self.visible());
            SeriesWindow {
                candles: self.candles,
                visible_count: self.visible_count,
                pan_offset: p as usize,
            }
        }
    }

    /// Moves the window by a dragged pixel distance: dragging right (a
    /// positive delta) reveals older bars. Sub-bar remainders are dropped.
    pub fn pan_pixels(&mut self, pixel_delta: i64, surface_width: i64)
        requires
            old(self).wf(),
            -MAX_SURFACE <= pixel_delta <= MAX_SURFACE,
            surface_width <= MAX_SURFACE,
        ensures
            final(self).wf(),
            *final(self) == old(self).spec_pan(pixel_delta as int, surface_width as int),
    {
        if self.candles.len() == 0 || surface_width <= 0 {
            return ;
        }
        let len = self.candles.len();
        let visible = self.visible_count as i64;
        let magnitude: i64 = if pixel_delta >= 0 {
            pixel_delta
        } else {
            -pixel_delta
        };
        proof {
            assert(magnitude * PAN_SENSITIVITY * visible <= 2_000_000 * 1_000_000_000i64)
                by (nonlinear_arith)
                requires
                    0 <= magnitude <= MAX_SURFACE,
                    PAN_SENSITIVITY == 2,
                    0 <= visible <= 1_000_000_000,
            ;
            assert(0 <= magnitude * PAN_SENSITIVITY * visible) by (nonlinear_arith)
                requires
                    0 <= magnitude,
                    PAN_SENSITIVITY == 2,
                    0 <= visible,
            ;
        }
        let scaled: i64 = magnitude * PAN_SENSITIVITY * visible;
        let bar_magnitude: i64 = scaled / surface_width;
        proof {
            assert(0 <= scaled / surface_width <= scaled) by (nonlinear_arith)
                requires
                    0 <= scaled,
                    1 <= surface_width,
            ;
        }
        let bar_delta: i64 = if pixel_delta >= 0 {
            bar_magnitude
        } else {
            -bar_magnitude
        };
        let shifted: i64 = self.pan_offset as i64 + bar_delta;
        let room: i64 = (len - self.visible_count) as i64;
        let clamped: i64 = if shifted < 0 {
            0
        } else if shifted > room {
            room
        } else {
            shifted
        };
        self.pan_offset = clamped as usize;
    }

    /// The visible range as `[start, end)` indices into the series.
    pub fn visible_range(&self) -> (r: (usize, usize))
        requires
            self.wf(),
        ensures
            r.0 as int == self.visible_start(),
            r.1 as int == self.visible_end(),
            r.0 <= r.1 <= self.series().len(),
    {
        if self.candles.len() == 0 {
            (0, 0)
        } else {
            let end = self.candles.len() - self.pan_offset;
            let start = end - self.visible_count;
            (start, end)
        }
    }

    /// An owned copy of the visible bars, oldest first.
    pub fn visible_slice(&self) -> (v: Vec<Candle>)
        requires
            self.wf(),
        ensures
            v@ == self.series().subrange(self.visible_start(), self.visible_end()),
            forall|i: int| 0 <= i < v@.len() ==> #[trigger] v@[i].wf(),
    {
        let (start, end) = self.visible_range();
        let mut v: Vec<Candle> = Vec::new();
        let mut i = start;
        while i < end
            invariant
                start <= i <= end <= self.candles@.len(),
                v@ == self.series().subrange(start as int, i as int),
            decreases end - i,
        {
            v.push(self.candles[i]);
            proof {
                assert(v@ =~= self.series().subrange(start as int, i + 1));
            }
            i += 1;
        }
        v
    }

    /// How many bars the series holds.
    pub fn len(&self) -> (n: usize)
        ensures
            n as int == self.series().len(),
    {
        self.candles.len()
    }

    pub fn visible_count(&self) -> (n: usize)
        ensures
            n as int == self.visible(),
    {
        self.visible_count
    }

    pub fn pan_offset(&self) -> (n: usize)
        ensures
            n as int == self.offset(),
    {
        self.pan_offset
    }
}

/// After any sequence of operations that keeps the invariant, a non-empty
/// series has a visible count inside `(0, len]` and an offset inside
/// `[0, len - visible]`: the visible slice never leaves the series.
pub proof fn lemma_window_in_range(w: SeriesWindow)
    requires
        w.wf(),
        w.series().len() > 0,
    ensures
        0 < w.visible() <= w.series().len(),
        0 <= w.offset() <= w.series().len() - w.visible(),
        0 <= w.visible_start() < w.visible_end() <= w.series().len(),
{
}

/// Zooming in and then out by the same step restores the visible count,
/// as long as the zoom-in does not hit the ten-bar floor (the zoom-out cap
/// cannot be hit, since the count returns to a value the window held).
pub proof fn lemma_zoom_round_trip(w: SeriesWindow, step: int)
    requires
        w.wf(),
        w.series().len() > 0,
        0 <= step,
        w.visible() - step >= visible_floor(w.series().len() as int),
    ensures
        w.spec_zoom_in(step).spec_zoom_out(step).visible() == w.visible(),
{
}

/// Panning by any distance leaves the offset clamped to
/// `[0, len - visible]`: no pan can push the visible slice out of range.
pub proof fn lemma_pan_clamps(w: SeriesWindow, pixel_delta: int, width: int)
    requires
        w.wf(),
        w.series().len() > 0,
    ensures
        0 <= w.spec_pan(pixel_delta, width).offset() <= w.series().len() - w.spec_pan(
            pixel_delta,
            width,
        ).visible(),
{
}

} // verus!
