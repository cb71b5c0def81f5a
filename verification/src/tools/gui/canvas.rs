//! The pointer decisions of the hex grid canvas: selecting and painting
//! tiles with the left button, clearing one with the right button, and
//! panning with the middle button.
//!
//! The host works out which tile lies under the pointer (floating-point
//! geometry) and which way to scroll; what that means for the editor is
//! decided here.

use vstd::prelude::*;
use crate::hex_grids::HexCoord;
use crate::tools::gui::types::Message;

verus! {

/// The discrete part of the canvas's pointer state.
#[derive(Debug, Clone, Copy, PartialEq, Eq, Structural)]
pub struct PaintState {
    /// The middle button is held: the pointer pans the view.
    pub dragging: bool,
    /// The left button is held: the pointer paints tiles.
    pub painting: bool,
    /// The tile painted last in the current stroke.
    pub last_painted: Option<HexCoord>,
}

/// A pointer event, with the tile under the pointer where it matters
/// (`None` when the pointer is over no tile or outside the canvas).
#[derive(Debug, Clone, Copy, PartialEq, Eq, Structural)]
pub enum PointerEvent {
    LeftPressed(Option<HexCoord>),
    LeftReleased,
    RightPressed(Option<HexCoord>),
    MiddlePressed,
    MiddleReleased,
    Moved(Option<HexCoord>),
}

/// Whether the canvas used the event (and no other widget should).
#[derive(Debug, Clone, Copy, PartialEq, Eq, Structural)]
pub enum EventStatus {
    Captured,
    Ignored,
}

/// The editor message that a tile event sends.
pub open spec fn tile_message(clear: bool, t: HexCoord) -> Message {
    if clear {
        Message::HexGridTileClear(t.x, t.y)
    } else {
        Message::HexGridTileClicked(t.x, t.y)
    }
}

impl PaintState {
    /// No button held.
    pub fn new() -> (r: PaintState)
        ensures
            r == (PaintState { dragging: false, painting: false, last_painted: None }),
    {
        PaintState { dragging: false, painting: false, last_painted: None }
    }

    /// The state after `e`.
    pub open spec fn after(self, e: PointerEvent) -> PaintState {
        match e {
            PointerEvent::LeftPressed(Some(t)) => PaintState {
                painting: true,
                last_painted: Some(t),
                ..self
            },
            PointerEvent::LeftReleased => PaintState { painting: false, last_painted: None, ..self },
            PointerEvent::MiddlePressed => PaintState { dragging: true, ..self },
            PointerEvent::MiddleReleased => PaintState { dragging: false, ..self },
            PointerEvent::Moved(Some(t)) => if !self.dragging && self.painting
                && self.last_painted != Some(t) {
                PaintState { last_painted: Some(t), ..self }
            } else {
                self
            },
            _ => self,
        }
    }

    /// What the canvas reports for `e`: whether it used the event, and the
    /// editor message it sends, if any.
    pub open spec fn outcome(self, e: PointerEvent) -> (EventStatus, Option<Message>) {
        match e {
            PointerEvent::LeftPressed(Some(t)) => (
                EventStatus::Captured,
                Some(tile_message(false, t)),
            ),
            PointerEvent::LeftPressed(None) => (EventStatus::Ignored, None),
            PointerEvent::RightPressed(Some(t)) => (
                EventStatus::Captured,
                Some(tile_message(true, t)),
            ),
            PointerEvent::RightPressed(None) => (EventStatus::Ignored, None),
            PointerEvent::Moved(hit) => if self.dragging {
                (EventStatus::Captured, None)
            } else if self.painting {
                match hit {
                    Some(t) => if self.last_painted != Some(t) {
                        (EventStatus::Captured, Some(tile_message(false, t)))
                    } else {
                        (EventStatus::Captured, None)
                    },
                    None => (EventStatus::Captured, None),
                }
            } else {
                (EventStatus::Ignored, None)
            },
            _ => (EventStatus::Captured, None),
        }
    }

    /// Decides pointer event `e`: a left press on a tile starts a stroke
    /// and paints that tile; moving on with the button held paints each
    /// tile the pointer enters (not the one painted last); a right press on
    /// a tile clears it; the middle button pans, and while it is held the
    /// pointer paints nothing.
    pub fn on_event(&mut self, e: PointerEvent) -> (r: (EventStatus, Option<Message>))
        ensures
            *final(self) == old(self).after(e),
            r == old(self).outcome(e),
    {
        match e {
            PointerEvent::LeftPressed(hit) => match hit {
                Some(t) => {
                    self.painting = true;
                    self.last_painted = Some(t);
                    (EventStatus::Captured, Some(Message::HexGridTileClicked(t.x, t.y)))
                },
                None => (EventStatus::Ignored, None),
            },
            PointerEvent::LeftReleased => {
                self.painting = false;
                self.last_painted = None;
                (EventStatus::Captured, None)
            },
            PointerEvent::RightPressed(hit) => match hit {
                Some(t) => (EventStatus::Captured, Some(Message::HexGridTileClear(t.x, t.y))),
                None => (EventStatus::Ignored, None),
            },
            PointerEvent::MiddlePressed => {
                self.dragging = true;
                (EventStatus::Captured, None)
            },
            PointerEvent::MiddleReleased => {
                self.dragging = false;
                (EventStatus::Captured, None)
            },
            PointerEvent::Moved(hit) => {
                if self.dragging {
                    return (EventStatus::Captured, None);
                }
                if !self.painting {
                    return (EventStatus::Ignored, None);
                }
                match hit {
                    Some(t) => {
                        let repeated = match self.last_painted {
                            Some(p) => p.x == t.x && p.y == t.y,
                            None => false,
                        };
                        if repeated {
                            (EventStatus::Captured, None)
                        } else {
                            self.last_painted = Some(t);
                            (EventStatus::Captured, Some(Message::HexGridTileClicked(t.x, t.y)))
                        }
                    },
                    None => (EventStatus::Captured, None),
                }
            },
        }
    }
}

/// Within a stroke, a tile is never painted twice in a row: once a move
/// has painted tile `t`, a further move over `t` paints nothing.
pub proof fn lemma_stroke_paints_a_tile_once(s: PaintState, t: HexCoord)
    ensures
        s.after(PointerEvent::Moved(Some(t))).outcome(PointerEvent::Moved(Some(t))).1 is None,
{
}

/// A stroke ends with the left button: after the release, moving the
/// pointer over tiles paints nothing until the next left press.
pub proof fn lemma_release_ends_stroke(s: PaintState, hit: Option<HexCoord>)
    ensures
        s.after(PointerEvent::LeftReleased).outcome(PointerEvent::Moved(hit)).1 is None,
{
}

} // verus!
