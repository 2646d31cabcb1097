use candlechart::candle::Candle;
use candlechart::controller::{ChartMessage, ChartState, EventStatus, PointerEvent, Position};
use candlechart::coords::{price_bounds, price_to_y, x_to_index, y_to_price, ChartLayout};
use candlechart::interval::Interval;
use candlechart::parse::{klines_to_candles, parse_fixed2, KlineRow};
use candlechart::render::{render_chart, CandlestickChart, Primitive};
use candlechart::text::{fixed2_label, minute_label, month_day_label, whole_label};
use candlechart::window::SeriesWindow;

fn flat_candle(timestamp: i64, price: i64, volume: i64) -> Candle {
    Candle::new(timestamp, price, price, price, price, volume)
}

fn series(n: i64) -> Vec<Candle> {
    let mut v = Vec::new();
    let mut i: i64 = 0;
    while i < n {
        v.push(Candle::new(
            1_600_000_000 + i * 3600,
            100_00 + i,
            110_00 + i,
            90_00 + i,
            105_00 + i,
            1_000_00,
        ));
        i += 1;
    }
    v
}

#[test]
fn load_sets_bounds() {
    let mut w = SeriesWindow::new();
    w.load(series(500));
    assert_eq!(w.len(), 500);
    assert_eq!(w.visible_count(), 100);
    assert_eq!(w.pan_offset(), 0);
    assert!(w.visible_count() > 0 && w.visible_count() <= w.len());
    assert!(w.pan_offset() <= w.len() - w.visible_count());
}

#[test]
fn load_short_series_clamps_visible() {
    let mut w = SeriesWindow::new();
    w.load(series(5));
    assert_eq!(w.visible_count(), 5);
    w.zoom_in(10);
    assert_eq!(w.visible_count(), 5);
    w.zoom_out(10);
    assert_eq!(w.visible_count(), 5);
}

#[test]
fn load_empty_keeps_visible() {
    let mut w = SeriesWindow::new();
    w.load(Vec::new());
    assert_eq!(w.len(), 0);
    assert_eq!(w.visible_count(), 100);
    w.zoom_in(10);
    w.zoom_out(10);
    w.pan_pixels(500, 800);
    assert_eq!(w.visible_count(), 100);
    assert_eq!(w.pan_offset(), 0);
}

#[test]
fn zoom_round_trip() {
    let mut w = SeriesWindow::new();
    w.load(series(500));
    let before = w.visible_count();
    w.zoom_in(5);
    assert_eq!(w.visible_count(), 95);
    w.zoom_out(5);
    assert_eq!(w.visible_count(), before);
}

#[test]
fn zoom_in_floors_at_ten() {
    let mut w = SeriesWindow::new();
    w.load(series(500));
    for _ in 0..40 {
        w.zoom_in(10);
    }
    assert_eq!(w.visible_count(), 10);
}

#[test]
fn zoom_out_caps_at_length() {
    let mut w = SeriesWindow::new();
    w.load(series(120));
    w.zoom_out(10);
    w.zoom_out(10);
    w.zoom_out(10);
    assert_eq!(w.visible_count(), 120);
}

#[test]
fn pan_clamps_to_history() {
    let mut w = SeriesWindow::new();
    w.load(series(500));
    w.pan_pixels(1_000_000, 800);
    assert_eq!(w.pan_offset(), 400);
    w.pan_pixels(-1_000_000, 800);
    assert_eq!(w.pan_offset(), 0);
}

#[test]
fn wheel_zoom_scenario() {
    let mut w = SeriesWindow::new();
    w.load(series(500));
    assert_eq!(w.visible_range(), (400, 500));
    w.wheel_zoom(1);
    assert_eq!(w.visible_count(), 95);
    assert_eq!(w.visible_range(), (405, 500));
}

#[test]
fn drag_scenario() {
    let mut w = SeriesWindow::new();
    w.load(series(500));
    // 100 visible bars on an 800-pixel surface: 8 pixels per bar, and a
    // sensitivity of 2, so 80 pixels move 20 bars.
    w.pan_pixels(80, 800);
    assert_eq!(w.pan_offset(), 20);
    // A drag of -50 pixels is -12.5 bars, truncated to -12.
    w.pan_pixels(-50, 800);
    assert_eq!(w.pan_offset(), 8);
    // Clamped at zero when panning past the newest bar.
    w.pan_pixels(-50, 800);
    assert_eq!(w.pan_offset(), 0);
}

#[test]
fn visible_slice_matches_range() {
    let mut w = SeriesWindow::new();
    w.load(series(500));
    let slice = w.visible_slice();
    assert_eq!(slice.len(), 100);
    assert_eq!(slice[0].timestamp, 1_600_000_000 + 400 * 3600);
    assert_eq!(slice[99].timestamp, 1_600_000_000 + 499 * 3600);
}

#[test]
fn bullish_boundary() {
    let up = Candle::new(0, 100, 110, 90, 105, 1);
    let down = Candle::new(0, 100, 110, 90, 95, 1);
    let flat = Candle::new(0, 100, 110, 90, 100, 1);
    assert!(up.is_bullish());
    assert!(!down.is_bullish());
    assert!(flat.is_bullish());
}

#[test]
fn coordinate_round_trip() {
    let layout = ChartLayout { chart_x: 10, chart_y: 10, chart_width: 730, chart_height: 560 };
    let price_min: i64 = 90_00;
    let span: i64 = 30_00;
    let p: i64 = 101_23;
    let y = price_to_y(p, price_min, span, &layout);
    assert!(layout.chart_y <= y && y <= layout.chart_y + layout.chart_height);
    let back = y_to_price(y, price_min, span, &layout);
    // The loss is at most one pixel's worth of price, plus truncation.
    assert!(back <= p);
    assert!((p - back) as i128 * (layout.chart_height as i128) < (span + 2 * layout.chart_height) as i128);
}

#[test]
fn price_to_y_edges() {
    let layout = ChartLayout { chart_x: 0, chart_y: 0, chart_width: 100, chart_height: 100 };
    assert_eq!(price_to_y(0, 0, 1000, &layout), 100);
    assert_eq!(price_to_y(1000, 0, 1000, &layout), 0);
    assert_eq!(price_to_y(500, 0, 1000, &layout), 50);
    assert_eq!(y_to_price(50, 0, 1000, &layout), 500);
}

#[test]
fn price_bounds_pads_by_tenth() {
    let candles = vec![
        Candle::new(0, 100_00, 120_00, 100_00, 110_00, 1),
        Candle::new(60, 110_00, 130_00, 105_00, 125_00, 1),
    ];
    let (min, max, span) = price_bounds(&candles);
    // Lows reach 100.00, highs 130.00: a raw span of 30.00, padded by
    // 3.00 on each side.
    assert_eq!(min, 97_00);
    assert_eq!(max, 133_00);
    assert_eq!(span, 36_00);
}

#[test]
fn price_bounds_degenerate_span() {
    let candles = vec![flat_candle(0, 100_00, 0)];
    let (min, max, span) = price_bounds(&candles);
    assert_eq!(min, 100_00);
    assert_eq!(max, 100_00);
    assert_eq!(span, 1);
}

#[test]
fn hover_index_scenario() {
    let layout = ChartLayout { chart_x: 10, chart_y: 10, chart_width: 730, chart_height: 560 };
    // Pixel column 281 on a 100-bar window: (281 - 10) * 100 / 730 = 37.
    assert_eq!(x_to_index(281, 100, &layout), 37);
}

#[test]
fn hover_info_box_shows_bar_under_cursor() {
    let candles = series(100);
    let cursor = Some(Position { x: 281, y: 100 });
    let prims = render_chart(&candles, cursor, 800, 600);
    // The expected open of bar 37 is 100.00 + 0.37.
    let wanted = format!("O: {}", "100.37");
    let found = prims.iter().any(|p| match p {
        Primitive::Label { text, .. } => text == &wanted,
        _ => false,
    });
    assert!(found);
}

#[test]
fn degenerate_bar_renders_safely() {
    let candles = vec![flat_candle(0, 100_00, 0)];
    let prims = render_chart(&candles, None, 800, 600);
    // Background, 6 grid lines and labels, 1 date label, border, 1
    // volume bar, 1 wick, 1 body.
    assert_eq!(prims.len(), 18);
    let mut wick_flat = false;
    let mut volume_zero = false;
    let mut body_floor = false;
    for p in prims.iter() {
        match p {
            Primitive::Line { x1, y1, x2, y2, .. } => {
                if x1 == x2 && y1 == y2 {
                    wick_flat = true;
                }
            }
            Primitive::FillRect { width, height, .. } => {
                if *width == 584 && *height == 0 {
                    volume_zero = true;
                }
                if *width == 511 && *height == 1 {
                    body_floor = true;
                }
            }
            _ => {}
        }
    }
    assert!(wick_flat, "wick of a flat bar has zero length");
    assert!(volume_zero, "volume bar of zero volume has zero height");
    assert!(body_floor, "doji body keeps the one-pixel floor");
}

#[test]
fn empty_series_renders_nothing() {
    let prims = render_chart(&Vec::new(), None, 800, 600);
    assert_eq!(prims.len(), 0);
}

#[test]
fn tiny_surface_renders_background_only() {
    let candles = series(10);
    let prims = render_chart(&candles, None, 50, 20);
    assert_eq!(prims.len(), 1);
    match &prims[0] {
        Primitive::FillRect { x, y, width, height, .. } => {
            assert_eq!((*x, *y, *width, *height), (0, 0, 50, 20));
        }
        other => panic!("expected a background fill, got {:?}", other),
    }
}

#[test]
fn full_chart_primitive_count() {
    let candles = series(500);
    let prims = render_chart(&candles, None, 800, 600);
    // 1 background + 12 grid + 5 dates + 1 border + 500 volumes + 1000
    // candle parts, and no crosshair.
    assert_eq!(prims.len(), 14 + 5 + 3 * 500);
    let with_cursor = render_chart(&candles, Some(Position { x: 400, y: 300 }), 800, 600);
    assert_eq!(with_cursor.len(), 14 + 5 + 3 * 500 + 10);
}

#[test]
fn grid_label_formats_price() {
    let candles = vec![
        Candle::new(0, 100_00, 120_00, 100_00, 110_00, 1),
        Candle::new(60, 110_00, 130_00, 105_00, 125_00, 1),
    ];
    // price_min is 97.00 and the span 36.00, so the lowest grid label
    // reads 97.00 and the highest 133.00.
    let prims = render_chart(&candles, None, 800, 600);
    let mut labels = Vec::new();
    for p in prims.iter() {
        if let Primitive::Label { text, .. } = p {
            labels.push(text.clone());
        }
    }
    assert!(labels.iter().any(|t| t == "97.00"));
    assert!(labels.iter().any(|t| t == "133.00"));
}

#[test]
fn fixed2_label_formats() {
    assert_eq!(fixed2_label(1234), "12.34");
    assert_eq!(fixed2_label(-350), "-3.50");
    assert_eq!(fixed2_label(0), "0.00");
    assert_eq!(fixed2_label(5), "0.05");
    assert_eq!(fixed2_label(100_00), "100.00");
}

#[test]
fn whole_label_drops_fraction() {
    assert_eq!(whole_label(123_456), "1234");
    assert_eq!(whole_label(99), "0");
    assert_eq!(whole_label(0), "0");
}

#[test]
fn calendar_labels_come_from_chrono() {
    assert_eq!(month_day_label(0), "01/01");
    assert_eq!(minute_label(0), "1970-01-01 00:00");
    // 2021-01-01 00:00:00 UTC.
    assert_eq!(month_day_label(1_609_459_200), "01/01");
    assert_eq!(minute_label(1_609_459_200), "2021-01-01 00:00");
    // 2021-03-15 09:30:00 UTC.
    assert_eq!(month_day_label(1_615_800_600), "03/15");
    assert_eq!(minute_label(1_615_800_600), "2021-03-15 09:30");
}

#[test]
fn parse_fixed2_accepts_plain_decimals() {
    assert_eq!(parse_fixed2(b"16950.12000000"), Some(16950_12));
    assert_eq!(parse_fixed2(b"0"), Some(0));
    assert_eq!(parse_fixed2(b"7"), Some(700));
    assert_eq!(parse_fixed2(b"-3.5"), Some(-350));
    assert_eq!(parse_fixed2(b"1."), Some(100));
    assert_eq!(parse_fixed2(b"12.999"), Some(12_99));
}

#[test]
fn parse_fixed2_rejects_malformed() {
    assert_eq!(parse_fixed2(b""), None);
    assert_eq!(parse_fixed2(b"-"), None);
    assert_eq!(parse_fixed2(b".5"), None);
    assert_eq!(parse_fixed2(b"abc"), None);
    assert_eq!(parse_fixed2(b"1.2.3"), None);
    assert_eq!(parse_fixed2(b"12a"), None);
    assert_eq!(parse_fixed2(b"1234567890123456"), None);
}

fn row(ms: i64, o: &str, h: &str, l: &str, c: &str, v: &str) -> KlineRow {
    KlineRow {
        open_time_ms: ms,
        open_text: o.as_bytes().to_vec(),
        high_text: h.as_bytes().to_vec(),
        low_text: l.as_bytes().to_vec(),
        close_text: c.as_bytes().to_vec(),
        volume_text: v.as_bytes().to_vec(),
    }
}

#[test]
fn klines_parse_and_drop_malformed() {
    let rows = vec![
        row(1_600_000_000_000, "100.5", "110.25", "90.75", "105.125", "12.3"),
        row(1_600_000_060_000, "bad", "110", "90", "105", "12"),
        row(1_600_000_120_000, "101", "111", "91", "106", "13"),
    ];
    let candles = klines_to_candles(&rows);
    assert_eq!(candles.len(), 2);
    assert_eq!(candles[0].timestamp, 1_600_000_000);
    assert_eq!(candles[0].open, 100_50);
    assert_eq!(candles[0].high, 110_25);
    assert_eq!(candles[0].low, 90_75);
    assert_eq!(candles[0].close, 105_12);
    assert_eq!(candles[0].volume, 12_30);
    assert_eq!(candles[1].open, 101_00);
}

#[test]
fn klines_drop_out_of_bounds() {
    let rows = vec![
        row(1_600_000_000_000, "100", "110", "90", "105", "-1"),
        row(1_600_000_000_000, "10000000000000", "110", "90", "105", "1"),
        row(1_600_000_000_000, "100", "110", "90", "105", "1"),
    ];
    let candles = klines_to_candles(&rows);
    assert_eq!(candles.len(), 1);
    assert_eq!(candles[0].volume, 100);
}

#[test]
fn klines_keep_pre_epoch_rows() {
    let rows = vec![
        row(-5, "100", "110", "90", "105", "1"),
        row(-1500, "100", "110", "90", "105", "1"),
        row(-86_400_000, "100", "110", "90", "105", "1"),
    ];
    let candles = klines_to_candles(&rows);
    assert_eq!(candles.len(), 3);
    // Milliseconds truncate toward zero, as the wire division does.
    assert_eq!(candles[0].timestamp, 0);
    assert_eq!(candles[1].timestamp, -1);
    assert_eq!(candles[2].timestamp, -86_400);
}

#[test]
fn interval_codes() {
    assert_eq!(Interval::OneMinute.as_str(), "1m");
    assert_eq!(Interval::FourHours.as_str(), "4h");
    assert_eq!(Interval::OneDay.as_str(), "1d");
    assert_eq!(Interval::OneHour.to_minutes(), 60);
    assert_eq!(Interval::OneDay.to_minutes(), 1440);
    assert_eq!(Interval::FifteenMinutes.display_name(), "15 Minutes");
    assert_eq!(Interval::default(), Interval::OneHour);
    let all = Interval::all();
    assert_eq!(all.len(), 7);
    assert_eq!(all[0], Interval::OneMinute);
    assert_eq!(all[6], Interval::OneDay);
}

#[test]
fn controller_wheel_emits_zoom() {
    let mut state = ChartState::default();
    let (status, msg) = state.update(PointerEvent::WheelScrolled { delta_y: 3 }, None);
    assert_eq!(status, EventStatus::Captured);
    assert_eq!(msg, Some(ChartMessage::Zoom(3)));
    assert!(!state.dragging);
}

#[test]
fn controller_drag_emits_incremental_pan() {
    let mut state = ChartState::default();
    let p1 = Some(Position { x: 100, y: 50 });
    let (status, msg) = state.update(PointerEvent::LeftPressed, p1);
    assert_eq!(status, EventStatus::Captured);
    assert_eq!(msg, None);
    assert!(state.dragging);

    let p2 = Some(Position { x: 130, y: 50 });
    let (status, msg) = state.update(PointerEvent::CursorMoved, p2);
    assert_eq!(status, EventStatus::Captured);
    assert_eq!(msg, Some(ChartMessage::Pan(30)));

    // The anchor moved with the pointer: the next delta is incremental.
    let p3 = Some(Position { x: 120, y: 50 });
    let (_, msg) = state.update(PointerEvent::CursorMoved, p3);
    assert_eq!(msg, Some(ChartMessage::Pan(-10)));

    let (status, msg) = state.update(PointerEvent::LeftReleased, p3);
    assert_eq!(status, EventStatus::Captured);
    assert_eq!(msg, None);
    assert!(!state.dragging);
}

#[test]
fn controller_idle_move_updates_hover_only() {
    let mut state = ChartState::default();
    let p = Some(Position { x: 40, y: 60 });
    let (status, msg) = state.update(PointerEvent::CursorMoved, p);
    assert_eq!(status, EventStatus::Ignored);
    assert_eq!(msg, None);
    assert_eq!(state.hover_position, p);
}

#[test]
fn controller_leave_clears_hover_keeps_drag() {
    let mut state = ChartState::default();
    let p = Some(Position { x: 40, y: 60 });
    state.update(PointerEvent::LeftPressed, p);
    state.update(PointerEvent::CursorMoved, p);
    let (status, msg) = state.update(PointerEvent::CursorLeft, None);
    assert_eq!(status, EventStatus::Ignored);
    assert_eq!(msg, None);
    assert_eq!(state.hover_position, None);
    assert!(state.dragging);
}

#[test]
fn controller_press_without_cursor_ignored() {
    let mut state = ChartState::default();
    let (status, msg) = state.update(PointerEvent::LeftPressed, None);
    assert_eq!(status, EventStatus::Ignored);
    assert_eq!(msg, None);
    assert!(!state.dragging);
    let (status, _) = state.update(PointerEvent::Other, None);
    assert_eq!(status, EventStatus::Ignored);
}

#[test]
fn chart_widget_draws_like_render() {
    let chart = CandlestickChart::new(series(50));
    let state = ChartState::default();
    let prims = chart.draw(&state, 800, 600);
    // 1 background + 12 grid + 5 dates + 1 border + 50 volumes + 100
    // candle parts, and no crosshair while nothing hovers.
    assert_eq!(prims.len(), 14 + 5 + 3 * 50);
}
