use tabletop::hex_grids::HexCoord;
use tabletop::tools::gui::canvas::{EventStatus, PaintState, PointerEvent};
use tabletop::tools::gui::types::Message;

fn at(x: i32, y: i32) -> Option<HexCoord> {
    Some(HexCoord { x, y })
}

fn clicked(m: &Option<Message>) -> Option<(i32, i32)> {
    match m {
        Some(Message::HexGridTileClicked(x, y)) => Some((*x, *y)),
        _ => None,
    }
}

#[test]
fn left_press_on_a_tile_starts_a_stroke_and_paints_it() {
    let mut s = PaintState::new();
    let (status, msg) = s.on_event(PointerEvent::LeftPressed(at(2, 3)));
    assert_eq!(status, EventStatus::Captured);
    assert_eq!(clicked(&msg), Some((2, 3)));
    assert!(s.painting);
    assert_eq!(s.last_painted, at(2, 3));
}

#[test]
fn a_stroke_paints_each_entered_tile_once() {
    let mut s = PaintState::new();
    s.on_event(PointerEvent::LeftPressed(at(0, 0)));
    let (_, same) = s.on_event(PointerEvent::Moved(at(0, 0)));
    assert!(same.is_none());
    let (_, next) = s.on_event(PointerEvent::Moved(at(1, 0)));
    assert_eq!(clicked(&next), Some((1, 0)));
    let (_, again) = s.on_event(PointerEvent::Moved(at(1, 0)));
    assert!(again.is_none());
    let (status, off) = s.on_event(PointerEvent::Moved(None));
    assert_eq!(status, EventStatus::Captured);
    assert!(off.is_none());
    let (_, back) = s.on_event(PointerEvent::Moved(at(0, 0)));
    assert_eq!(clicked(&back), Some((0, 0)));
}

#[test]
fn release_ends_the_stroke() {
    let mut s = PaintState::new();
    s.on_event(PointerEvent::LeftPressed(at(0, 0)));
    let (status, msg) = s.on_event(PointerEvent::LeftReleased);
    assert_eq!(status, EventStatus::Captured);
    assert!(msg.is_none());
    let (status, msg) = s.on_event(PointerEvent::Moved(at(4, 4)));
    assert_eq!(status, EventStatus::Ignored);
    assert!(msg.is_none());
    assert_eq!(s, PaintState::new());
}

#[test]
fn right_press_clears_the_tile_under_the_pointer() {
    let mut s = PaintState::new();
    let (status, msg) = s.on_event(PointerEvent::RightPressed(at(5, 1)));
    assert_eq!(status, EventStatus::Captured);
    assert!(matches!(msg, Some(Message::HexGridTileClear(5, 1))));
    let (status, msg) = s.on_event(PointerEvent::RightPressed(None));
    assert_eq!(status, EventStatus::Ignored);
    assert!(msg.is_none());
    assert_eq!(s, PaintState::new());
}

#[test]
fn panning_paints_nothing() {
    let mut s = PaintState::new();
    s.on_event(PointerEvent::LeftPressed(at(0, 0)));
    s.on_event(PointerEvent::MiddlePressed);
    let (status, msg) = s.on_event(PointerEvent::Moved(at(3, 3)));
    assert_eq!(status, EventStatus::Captured);
    assert!(msg.is_none());
    s.on_event(PointerEvent::MiddleReleased);
    let (_, msg) = s.on_event(PointerEvent::Moved(at(3, 3)));
    assert_eq!(clicked(&msg), Some((3, 3)));
}

#[test]
fn left_press_beside_the_grid_is_ignored() {
    let mut s = PaintState::new();
    let (status, msg) = s.on_event(PointerEvent::LeftPressed(None));
    assert_eq!(status, EventStatus::Ignored);
    assert!(msg.is_none());
    assert!(!s.painting);
}
