//! The application reducer: the synchronous state-transition function
//! behind the interactive chart.
//!
//! Each incoming message mutates the state and may ask the caller to
//! start a fetch. The caller owns the asynchronous work: it performs
//! the fetch this function requests and hands the completed result back
//! as a `DataFetched` message. A superseding result simply replaces the
//! loaded series.

use vstd::prelude::*;
use crate::candle::Candle;
use crate::controller::ChartMessage;
use crate::interval::Interval;
use crate::window::{SeriesWindow, DEFAULT_VISIBLE, MAX_SERIES_LEN, MAX_SURFACE};

verus! {

/// How many bars one fetch asks for.
pub const FETCH_LIMIT: u32 = 500;

/// The surface width the reducer assumes when it turns drag pixels into
/// bars.
pub const REDUCER_SURFACE_WIDTH: i64 = 800;

/// The zoom step of the zoom buttons; the wheel moves half as much.
pub const BUTTON_ZOOM_STEP: usize = 10;

/// A message for the reducer: a user action, or a completed fetch.
pub enum AppMessage {
    IntervalSelected(Interval),
    DataFetched(Result<Vec<Candle>, String>),
    RefreshData,
    ZoomIn,
    ZoomOut,
    Chart(ChartMessage),
}

/// A fetch the caller is asked to start.
#[derive(Clone, Copy, PartialEq, Eq, Structural, Debug)]
pub struct FetchCommand {
    pub interval: Interval,
    pub limit: u32,
}

/// The application state: the series window plus the shell's own
/// fields.
pub struct AppState {
    pub window: SeriesWindow,
    pub selected_interval: Interval,
    pub loading: bool,
    pub error: Option<String>,
}

/// The shell's own fields are untouched: a window-only transition.
pub open spec fn shell_fields_unchanged(a: AppState, b: AppState) -> bool {
    &&& b.loading == a.loading
    &&& b.error == a.error
    &&& b.selected_interval == a.selected_interval
}

impl AppState {
    pub open spec fn wf(self) -> bool {
        self.window.wf()
    }

    /// The starting state: an empty window and the default interval.
    /// The caller typically starts a first fetch for that interval.
    pub fn new() -> (s: AppState)
        ensures
            s.wf(),
            s.window.series().len() == 0,
            s.window.visible() == DEFAULT_VISIBLE as int,
            s.window.offset() == 0,
            s.selected_interval == Interval::OneHour,
            !s.loading,
            s.error is None,
    {
        AppState {
            window: SeriesWindow::new(),
            selected_interval: Interval::default(),
            loading: false,
            error: None,
        }
    }

    /// Feeds one message through the reducer.
    ///
    /// Choosing an interval or asking for a refresh marks the state
    /// loading and requests a fetch. A delivered series replaces the
    /// window's bars; a delivery error is kept for display and the
    /// previous chart state is retained. The zoom buttons move the
    /// visible count by ten bars, the wheel by five, and a drag pans by
    /// its pixel delta; none of these request a fetch.
    pub fn update(&mut self, msg: AppMessage) -> (cmd: Option<FetchCommand>)
        requires
            old(self).wf(),
            msg matches AppMessage::DataFetched(r) ==> (r matches Ok(c) ==> c@.len()
                <= MAX_SERIES_LEN as int && forall|i: int|
                0 <= i < c@.len() ==> #[trigger] c@[i].wf()),
        ensures
            final(self).wf(),
            match msg {
                AppMessage::IntervalSelected(iv) => {
                    &&& final(self).selected_interval == iv
                    &&& final(self).loading
                    &&& final(self).error is None
                    &&& final(self).window == old(self).window
                    &&& cmd == Some(FetchCommand { interval: iv, limit: FETCH_LIMIT })
                },
                AppMessage::DataFetched(r) => {
                    &&& !final(self).loading
                    &&& cmd is None
                    &&& final(self).selected_interval == old(self).selected_interval
                    &&& match r {
                        Ok(c) => {
                            &&& final(self).error is None
                            &&& final(self).window.series() == c@
                            &&& final(self).window.offset() == 0
                            &&& c@.len() > 0 ==> final(self).window.visible() == if old(
                                self,
                            ).window.visible() <= c@.len() {
                                old(self).window.visible()
                            } else {
                                c@.len() as int
                            }
                            &&& c@.len() == 0 ==> final(self).window.visible() == old(
                                self,
                            ).window.visible()
                        },
                        Err(e) => {
                            &&& final(self).error matches Some(m) && m@ == e@
                            &&& final(self).window == old(self).window
                        },
                    }
                },
                AppMessage::RefreshData => {
                    &&& final(self).loading
                    &&& final(self).error is None
                    &&& final(self).window == old(self).window
                    &&& cmd == Some(
                        FetchCommand {
                            interval: old(self).selected_interval,
                            limit: FETCH_LIMIT,
                        },
                    )
                },
                AppMessage::ZoomIn => {
                    &&& final(self).window == old(self).window.spec_zoom_in(
                        BUTTON_ZOOM_STEP as int,
                    )
                    &&& shell_fields_unchanged(*old(self), *final(self))
                    &&& cmd is None
                },
                AppMessage::ZoomOut => {
                    &&& final(self).window == old(self).window.spec_zoom_out(
                        BUTTON_ZOOM_STEP as int,
                    )
                    &&& shell_fields_unchanged(*old(self), *final(self))
                    &&& cmd is None
                },
                AppMessage::Chart(cm) => {
                    &&& shell_fields_unchanged(*old(self), *final(self))
                    &&& cmd is None
                    &&& match cm {
                        ChartMessage::Zoom(delta) => if delta > 0 {
                            final(self).window == old(self).window.spec_zoom_in(5)
                        } else {
                            final(self).window == old(self).window.spec_zoom_out(5)
                        },
                        ChartMessage::Pan(px) => {
                            let clamped = if px < -MAX_SURFACE as int {
                                -MAX_SURFACE as int
                            } else if px > MAX_SURFACE as int {
                                MAX_SURFACE as int
                            } else {
                                px as int
                            };
                            final(self).window == old(self).window.spec_pan(
                                clamped,
                                REDUCER_SURFACE_WIDTH as int,
                            )
                        },
                    }
                },
            },
    {
        match msg {
            AppMessage::IntervalSelected(iv) => {
                self.selected_interval = iv;
                self.loading = true;
                self.error = None;
                Some(FetchCommand { interval: iv, limit: FETCH_LIMIT })
            },
            AppMessage::DataFetched(r) => {
                self.loading = false;
                match r {
                    Ok(candles) => {
                        self.window.load(candles);
                        self.error = None;
                    },
                    Err(e) => {
                        self.error = Some(e);
                    },
                }
                None
            },
            AppMessage::RefreshData => {
                self.loading = true;
                self.error = None;
                Some(FetchCommand { interval: self.selected_interval, limit: FETCH_LIMIT })
            },
            AppMessage::ZoomIn => {
                self.window.zoom_in(BUTTON_ZOOM_STEP);
                None
            },
            AppMessage::ZoomOut => {
                self.window.zoom_out(BUTTON_ZOOM_STEP);
                None
            },
            AppMessage::Chart(cm) => {
                match cm {
                    ChartMessage::Zoom(delta) => {
                        self.window.wheel_zoom(delta);
                    },
                    ChartMessage::Pan(px) => {
                        let clamped: i64 = if px < -MAX_SURFACE {
                            -MAX_SURFACE
                        } else if px > MAX_SURFACE {
                            MAX_SURFACE
                        } else {
                            px
                        };
                        self.window.pan_pixels(clamped, REDUCER_SURFACE_WIDTH);
                    },
                }
                None
            },
        }
    }
}

} // verus!
