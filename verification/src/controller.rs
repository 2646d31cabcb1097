//! The interaction controller: a small state machine turning raw pointer
//! and wheel events into window-change commands.
//!
//! The state is `Idle` or `Dragging`, held as a flag beside the last drag
//! anchor and the hover position. While dragging, each move emits the
//! incremental pixel delta since the previous move, not the total
//! displacement.

use vstd::prelude::*;
use crate::window::MAX_SURFACE;

verus! {

/// A pointer position on the surface, in pixels.
#[derive(Clone, Copy, PartialEq, Eq, Structural, Debug)]
pub struct Position {
    pub x: i64,
    pub y: i64,
}

impl Position {
    /// Inside the pixel bounds the pan arithmetic accepts.
    pub open spec fn wf(self) -> bool {
        &&& 0 <= self.x <= MAX_SURFACE
        &&& 0 <= self.y <= MAX_SURFACE
    }
}

/// A window-change command for the owner of the series window.
#[derive(Clone, Copy, PartialEq, Eq, Structural, Debug)]
pub enum ChartMessage {
    /// A wheel notch: positive zooms in, anything else zooms out.
    Zoom(i64),
    /// A drag delta in pixels; positive reveals older bars.
    Pan(i64),
}

/// Whether the controller consumed the event.
#[derive(Clone, Copy, PartialEq, Eq, Structural, Debug)]
pub enum EventStatus {
    Captured,
    Ignored,
}

/// A raw input event, as the input source delivers it.
#[derive(Clone, Copy, PartialEq, Eq, Structural, Debug)]
pub enum PointerEvent {
    /// The wheel turned by `delta_y` notches or pixels, up positive.
    WheelScrolled { delta_y: i64 },
    LeftPressed,
    LeftReleased,
    CursorMoved,
    CursorLeft,
    /// Any event the controller does not recognize.
    Other,
}

/// The controller's transient state, reset when the pointer releases or
/// leaves.
#[derive(Clone, Copy, PartialEq, Eq, Structural, Debug)]
pub struct ChartState {
    pub dragging: bool,
    pub last_x: i64,
    pub hover_position: Option<Position>,
}

impl ChartState {
    /// The drag anchor stays inside the pixel bounds.
    pub open spec fn wf(self) -> bool {
        &&& 0 <= self.last_x <= MAX_SURFACE
        &&& self.hover_position matches Some(p) ==> p.wf()
    }
}

impl Default for ChartState {
    /// Idle, anchored at the left edge, with no hover position.
    fn default() -> (s: ChartState)
        ensures
            s == (ChartState { dragging: false, last_x: 0, hover_position: None::<Position> }),
    {
        ChartState { dragging: false, last_x: 0, hover_position: None }
    }
}

impl ChartState {
    /// Feeds one event through the state machine. `cursor` is where the
    /// pointer is, if it is over the surface.
    ///
    /// Wheel events always emit a zoom. A left press over the surface
    /// anchors a drag; a release ends it. A move while dragging emits the
    /// pixel delta since the anchor and re-anchors; a move while idle
    /// only records the hover position. A leave clears the hover position
    /// without ending a drag. Anything else is ignored unchanged.
    pub fn update(&mut self, event: PointerEvent, cursor: Option<Position>) -> (r: (
        EventStatus,
        Option<ChartMessage>,
    ))
        requires
            old(self).wf(),
            cursor matches Some(p) ==> p.wf(),
        ensures
            final(self).wf(),
            event matches PointerEvent::WheelScrolled { delta_y } ==> {
                &&& *final(self) == *old(self)
                &&& r == (EventStatus::Captured, Some(ChartMessage::Zoom(delta_y)))
            },
            event == PointerEvent::LeftPressed ==> match cursor {
                Some(p) => {
                    &&& *final(self) == (ChartState {
                        dragging: true,
                        last_x: p.x,
                        ..*old(self)
                    })
                    &&& r == (EventStatus::Captured, None::<ChartMessage>)
                },
                None => {
                    &&& *final(self) == *old(self)
                    &&& r == (EventStatus::Ignored, None::<ChartMessage>)
                },
            },
            event == PointerEvent::LeftReleased ==> {
                &&& *final(self) == (ChartState { dragging: false, ..*old(self) })
                &&& r == (EventStatus::Captured, None::<ChartMessage>)
            },
            event == PointerEvent::CursorMoved ==> match cursor {
                Some(p) => if old(self).dragging {
                    &&& *final(self) == (ChartState {
                        last_x: p.x,
                        hover_position: cursor,
                        ..*old(self)
                    })
                    &&& r == (
                        EventStatus::Captured,
                        Some(ChartMessage::Pan((p.x - old(self).last_x) as i64)),
                    )
                } else {
                    &&& *final(self) == (ChartState { hover_position: cursor, ..*old(self) })
                    &&& r == (EventStatus::Ignored, None::<ChartMessage>)
                },
                None => {
                    &&& *final(self) == (ChartState {
                        hover_position: None::<Position>,
                        ..*old(self)
                    })
                    &&& r == (EventStatus::Ignored, None::<ChartMessage>)
                },
            },
            event == PointerEvent::CursorLeft ==> {
                &&& *final(self) == (ChartState {
                    hover_position: None::<Position>,
                    ..*old(self)
                })
                &&& r == (EventStatus::Ignored, None::<ChartMessage>)
            },
            event == PointerEvent::Other ==> {
                &&& *final(self) == *old(self)
                &&& r == (EventStatus::Ignored, None::<ChartMessage>)
            },
    {
        match event {
            PointerEvent::WheelScrolled { delta_y } => (
                EventStatus::Captured,
                Some(ChartMessage::Zoom(delta_y)),
            ),
            PointerEvent::LeftPressed => {
                match cursor {
                    Some(p) => {
                        self.dragging = true;
                        self.last_x = p.x;
                        (EventStatus::Captured, None)
                    },
                    None => (EventStatus::Ignored, None),
                }
            },
            PointerEvent::LeftReleased => {
                self.dragging = false;
                (EventStatus::Captured, None)
            },
            PointerEvent::CursorMoved => {
                self.hover_position = cursor;
                match cursor {
                    Some(p) => {
                        if self.dragging {
                            let delta = p.x - self.last_x;
                            self.last_x = p.x;
                            (EventStatus::Captured, Some(ChartMessage::Pan(delta)))
                        } else {
                            (EventStatus::Ignored, None)
                        }
                    },
                    None => (EventStatus::Ignored, None),
                }
            },
            PointerEvent::CursorLeft => {
                self.hover_position = None;
                (EventStatus::Ignored, None)
            },
            PointerEvent::Other => (EventStatus::Ignored, None),
        }
    }
}

} // verus!
