use candlechart::app_state::{AppMessage, AppState, FetchCommand};
use candlechart::candle::Candle;
use candlechart::controller::ChartMessage;
use candlechart::interval::Interval;

fn bars(n: i64) -> Vec<Candle> {
    let mut v = Vec::new();
    let mut i: i64 = 0;
    while i < n {
        v.push(Candle::new(1_600_000_000 + i * 60, 100_00, 110_00, 90_00, 105_00, 1_00));
        i += 1;
    }
    v
}

#[test]
fn reducer_starts_idle() {
    let app = AppState::new();
    assert_eq!(app.selected_interval, Interval::OneHour);
    assert!(!app.loading);
    assert!(app.error.is_none());
    assert_eq!(app.window.len(), 0);
    assert_eq!(app.window.visible_count(), 100);
    assert_eq!(app.window.pan_offset(), 0);
}

#[test]
fn interval_selection_requests_fetch() {
    let mut app = AppState::new();
    let cmd = app.update(AppMessage::IntervalSelected(Interval::FiveMinutes));
    assert_eq!(cmd, Some(FetchCommand { interval: Interval::FiveMinutes, limit: 500 }));
    assert_eq!(app.selected_interval, Interval::FiveMinutes);
    assert!(app.loading);
    assert!(app.error.is_none());
}

#[test]
fn refresh_requests_fetch_for_current_interval() {
    let mut app = AppState::new();
    app.update(AppMessage::IntervalSelected(Interval::OneDay));
    let cmd = app.update(AppMessage::RefreshData);
    assert_eq!(cmd, Some(FetchCommand { interval: Interval::OneDay, limit: 500 }));
    assert!(app.loading);
}

#[test]
fn delivered_series_replaces_window() {
    let mut app = AppState::new();
    app.update(AppMessage::RefreshData);
    let cmd = app.update(AppMessage::DataFetched(Ok(bars(200))));
    assert_eq!(cmd, None);
    assert!(!app.loading);
    assert!(app.error.is_none());
    assert_eq!(app.window.len(), 200);
    assert_eq!(app.window.pan_offset(), 0);
    assert_eq!(app.window.visible_count(), 100);
}

#[test]
fn delivery_error_keeps_previous_chart() {
    let mut app = AppState::new();
    app.update(AppMessage::DataFetched(Ok(bars(200))));
    let cmd = app.update(AppMessage::DataFetched(Err(String::from("boom"))));
    assert_eq!(cmd, None);
    assert!(!app.loading);
    assert_eq!(app.error.as_deref(), Some("boom"));
    // The previously loaded series is retained.
    assert_eq!(app.window.len(), 200);
}

#[test]
fn zoom_buttons_step_by_ten() {
    let mut app = AppState::new();
    app.update(AppMessage::DataFetched(Ok(bars(200))));
    app.update(AppMessage::ZoomIn);
    assert_eq!(app.window.visible_count(), 90);
    app.update(AppMessage::ZoomOut);
    assert_eq!(app.window.visible_count(), 100);
}

#[test]
fn window_commands_leave_shell_fields_alone() {
    let mut app = AppState::new();
    app.update(AppMessage::IntervalSelected(Interval::OneDay));
    app.update(AppMessage::DataFetched(Err(String::from("offline"))));
    app.update(AppMessage::DataFetched(Ok(bars(200))));
    // A delivered series clears the error but keeps the interval.
    assert_eq!(app.selected_interval, Interval::OneDay);
    app.update(AppMessage::RefreshData);
    app.update(AppMessage::ZoomIn);
    app.update(AppMessage::Chart(ChartMessage::Pan(40)));
    // Zooming and panning touch only the window.
    assert!(app.loading);
    assert!(app.error.is_none());
    assert_eq!(app.selected_interval, Interval::OneDay);
}

#[test]
fn delivered_series_clamps_visible_count() {
    let mut app = AppState::new();
    app.update(AppMessage::DataFetched(Ok(bars(30))));
    assert_eq!(app.window.visible_count(), 30);
    app.update(AppMessage::DataFetched(Ok(bars(200))));
    // The count kept from the shorter series persists, as a re-load
    // only clamps downward.
    assert_eq!(app.window.visible_count(), 30);
}

#[test]
fn chart_messages_route_to_window() {
    let mut app = AppState::new();
    app.update(AppMessage::DataFetched(Ok(bars(200))));
    app.update(AppMessage::Chart(ChartMessage::Zoom(1)));
    assert_eq!(app.window.visible_count(), 95);
    app.update(AppMessage::Chart(ChartMessage::Zoom(-1)));
    assert_eq!(app.window.visible_count(), 100);
    // 100 bars over 800 pixels with sensitivity 2: 40 pixels are 10 bars.
    app.update(AppMessage::Chart(ChartMessage::Pan(40)));
    assert_eq!(app.window.pan_offset(), 10);
}
