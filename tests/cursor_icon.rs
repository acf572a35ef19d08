use text_edit_core::cursor_visibility::{update_cursor_visibility, CursorVisibility};
use text_edit_core::hover::{CursorIcon, HoverCursor, SystemCursorIcon};

#[test]
fn typing_hides_pointer() {
    let mut c = CursorVisibility { visible: true };
    update_cursor_visibility(&mut c, true, false, false);
    assert!(!c.visible);
}

#[test]
fn mouse_activity_shows_pointer() {
    let mut c = CursorVisibility { visible: false };
    update_cursor_visibility(&mut c, false, true, false);
    assert!(c.visible);
    let mut c = CursorVisibility { visible: false };
    update_cursor_visibility(&mut c, false, false, true);
    assert!(c.visible);
}

#[test]
fn mouse_wins_over_typing() {
    let mut c = CursorVisibility { visible: true };
    update_cursor_visibility(&mut c, true, true, false);
    assert!(c.visible);
}

#[test]
fn quiet_frame_keeps_visibility() {
    let mut c = CursorVisibility { visible: false };
    update_cursor_visibility(&mut c, false, false, false);
    assert!(!c.visible);
    c.set_cursor_visibility(true);
    assert!(c.visible);
}

#[test]
fn hover_cursor_defaults_to_text() {
    assert_eq!(HoverCursor::default().0, CursorIcon::System(SystemCursorIcon::Text));
}
