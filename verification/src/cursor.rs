//! Grabbing and releasing the mouse cursor.

use vstd::prelude::*;

verus! {

/// Whether the cursor is confined to the window, and whether it is shown.
#[derive(Clone, Copy, Debug, PartialEq, Eq, Structural)]
pub struct Cursor {
    pub locked: bool,
    pub visible: bool,
}

impl Cursor {
    /// The cursor as a new window has it: free and shown.
    pub fn released() -> (r: Cursor)
        ensures
            r == (Cursor { locked: false, visible: true }),
    {
        Cursor { locked: false, visible: true }
    }

    /// The cursor with both its lock and its visibility switched over.
    pub open spec fn toggled(self) -> Cursor {
        Cursor { locked: !self.locked, visible: !self.visible }
    }
}

/// Grabs a free cursor, releases a grabbed one: switches over both the lock
/// and the visibility.
pub fn toggle_grab_cursor(cursor: &mut Cursor)
    ensures
        *final(cursor) == old(cursor).toggled(),
{
    cursor.locked = !cursor.locked;
    cursor.visible = !cursor.visible;
}

/// Grabs the cursor when the session starts.
pub fn initial_grab_cursor(cursor: &mut Cursor)
    ensures
        *final(cursor) == old(cursor).toggled(),
{
    toggle_grab_cursor(cursor);
}

/// Switches the grab over in a frame in which the escape key went down, and
/// leaves it alone in any other.
pub fn cursor_grab(escape_just_pressed: bool, cursor: &mut Cursor)
    ensures
        *final(cursor) == (if escape_just_pressed {
            old(cursor).toggled()
        } else {
            *old(cursor)
        }),
{
    if escape_just_pressed {
        toggle_grab_cursor(cursor);
    }
}

/// Switching the grab over twice gives back the cursor as it was.
pub proof fn toggle_twice_restores(cursor: Cursor)
    ensures
        cursor.toggled().toggled() == cursor,
{
}

/// The cursor of a new window is locked and hidden once it has been grabbed.
pub proof fn grabbed_at_start()
    ensures
        (Cursor { locked: false, visible: true }).toggled() == (Cursor {
            locked: true,
            visible: false,
        }),
{
}

} // verus!
