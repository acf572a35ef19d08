//! Visibility of the OS-level mouse pointer: hidden while typing, shown
//! again when the mouse moves or clicks.
use vstd::prelude::*;

verus! {

/// Whether the primary window shows the mouse pointer.
#[derive(Clone, Copy, Debug, PartialEq, Eq, Structural)]
pub struct CursorVisibility {
    pub visible: bool,
}

/// The pointer's visibility after a frame, from `visible` before it.
pub open spec fn visibility_after(
    visible: bool,
    text_changed: bool,
    mouse_moved: bool,
    mouse_clicked: bool,
) -> bool {
    if mouse_moved || mouse_clicked {
        true
    } else if text_changed {
        false
    } else {
        visible
    }
}

impl CursorVisibility {
    pub fn set_cursor_visibility(&mut self, visible: bool)
        ensures
            final(self).visible == visible,
    {
        self.visible = visible;
    }
}

/// Updates the pointer's visibility from what happened this frame: any
/// text change hides it, and any mouse motion or click shows it, the
/// latter winning when both happened.
pub fn update_cursor_visibility(
    cursor_visibility: &mut CursorVisibility,
    text_changed_at_all: bool,
    mouse_moved_at_all: bool,
    mouse_clicked_at_all: bool,
)
    ensures
        final(cursor_visibility).visible == visibility_after(
            old(cursor_visibility).visible,
            text_changed_at_all,
            mouse_moved_at_all,
            mouse_clicked_at_all,
        ),
{
    if text_changed_at_all {
        cursor_visibility.set_cursor_visibility(false);
    }
    if mouse_moved_at_all || mouse_clicked_at_all {
        cursor_visibility.set_cursor_visibility(true);
    }
}

} // verus!
