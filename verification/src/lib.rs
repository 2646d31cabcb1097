//! A viewport-windowed candlestick chart engine.
//!
//! A fixed, time-ordered series of OHLC+volume bars is mapped onto a 2D
//! drawing surface. The library keeps a scrollable, zoomable visible window
//! over the series, converts pointer gestures into window changes, and
//! computes the ordered list of draw primitives (grid, labels, volume bars,
//! candle bodies and wicks, crosshair, info box) for the current window.
//!
//! Prices and volumes are fixed-point integers in hundredths of a unit;
//! pixel coordinates are integers. Rasterization, networking and the
//! surrounding application shell are external collaborators.

pub mod app_state;
pub mod candle;
pub mod controller;
pub mod coords;
pub mod interval;
pub mod parse;
pub mod render;
pub mod text;
pub mod window;
