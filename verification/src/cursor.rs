//! Pause state and mouse cursor handling of the client.
use vstd::prelude::*;

verus! {

/// How the operating system confines the mouse cursor to the game window.
#[derive(Clone, Copy, Debug, PartialEq, Eq, Structural)]
pub enum CursorGrabMode {
    /// The cursor moves freely.
    Free,
    /// The cursor is kept inside the window.
    Confined,
    /// The cursor is locked in place.
    Locked,
}

/// The cursor settings of the primary window.
#[derive(Clone, Copy, Debug, PartialEq, Eq, Structural)]
pub struct CursorOptions {
    pub grab_mode: CursorGrabMode,
    pub visible: bool,
}

/// The grab mode that pressing escape switches to: a free cursor is locked and
/// a locked one is freed; a confined cursor is left as it is.
pub open spec fn toggled_grab_mode(mode: CursorGrabMode) -> CursorGrabMode {
    match mode {
        CursorGrabMode::Free => CursorGrabMode::Locked,
        CursorGrabMode::Locked => CursorGrabMode::Free,
        CursorGrabMode::Confined => CursorGrabMode::Confined,
    }
}

/// Cursor settings and pause flag after a frame in which escape was pressed
/// (`escape_just_pressed`) or not.
pub open spec fn after_escape(cursor: CursorOptions, paused: bool, escape_just_pressed: bool) -> (CursorOptions, bool) {
    if escape_just_pressed {
        (CursorOptions { grab_mode: toggled_grab_mode(cursor.grab_mode), visible: !cursor.visible }, !paused)
    } else {
        (cursor, paused)
    }
}

/// Cursor settings and pause flag after a frame in which the left mouse button
/// was pressed (`left_just_pressed`) or not: a click while paused resumes the
/// game and locks and hides the cursor; anything else changes nothing.
pub open spec fn after_click(cursor: CursorOptions, paused: bool, left_just_pressed: bool) -> (CursorOptions, bool) {
    if paused && left_just_pressed {
        (CursorOptions { grab_mode: CursorGrabMode::Locked, visible: false }, false)
    } else {
        (cursor, paused)
    }
}

/// Unlocks or relocks the cursor when escape was just pressed: the pause flag
/// and the cursor's visibility flip, and the grab mode toggles between free
/// and locked. Returns `true` exactly when the escape press met a cursor in a
/// grab mode that the game never sets (confined), which is left unchanged.
pub fn toggle_pause(cursor: &mut CursorOptions, paused: &mut bool, escape_just_pressed: bool) -> (unexpected_mode: bool)
    ensures
        (*final(cursor), *final(paused)) == after_escape(*old(cursor), *old(paused), escape_just_pressed),
        escape_just_pressed && old(cursor).grab_mode == CursorGrabMode::Locked ==> final(cursor).grab_mode == CursorGrabMode::Free,
        escape_just_pressed && old(cursor).grab_mode == CursorGrabMode::Free ==> final(cursor).grab_mode == CursorGrabMode::Locked,
        unexpected_mode == (escape_just_pressed && old(cursor).grab_mode == CursorGrabMode::Confined),
{
    if !escape_just_pressed {
        return false;
    }
    *paused = !*paused;
    let mut unexpected = false;
    match cursor.grab_mode {
        CursorGrabMode::Free => {
            cursor.grab_mode = CursorGrabMode::Locked;
        },
        CursorGrabMode::Locked => {
            cursor.grab_mode = CursorGrabMode::Free;
        },
        CursorGrabMode::Confined => {
            unexpected = true;
        },
    }
    cursor.visible = !cursor.visible;
    unexpected
}

/// Locks and hides the cursor and resumes the game when the left mouse button
/// was just pressed while the game is paused.
pub fn grab_on_click(cursor: &mut CursorOptions, paused: &mut bool, left_just_pressed: bool)
    ensures
        (*final(cursor), *final(paused)) == after_click(*old(cursor), *old(paused), left_just_pressed),
        !(*old(paused) && left_just_pressed) ==> *final(cursor) == *old(cursor) && *final(paused) == *old(paused),
{
    if *paused && left_just_pressed {
        *paused = false;
        cursor.grab_mode = CursorGrabMode::Locked;
        cursor.visible = false;
    }
}

/// Whether mouse motion turns the player's view this frame: only while the
/// game is not paused.
pub fn look_follows_mouse(paused: bool) -> (follows: bool)
    ensures
        follows == !paused,
{
    !paused
}

/// Escape frees a locked cursor and locks a free one, leaves a confined one
/// as it is, shows a hidden cursor and hides a shown one, and flips the pause
/// flag; the new grab mode depends on the old grab mode alone. Without escape
/// nothing changes.
pub proof fn lemma_escape_switches_grab(cursor: CursorOptions, paused: bool)
    ensures
        cursor.grab_mode == CursorGrabMode::Locked ==> after_escape(cursor, paused, true).0.grab_mode == CursorGrabMode::Free,
        cursor.grab_mode == CursorGrabMode::Free ==> after_escape(cursor, paused, true).0.grab_mode == CursorGrabMode::Locked,
        cursor.grab_mode == CursorGrabMode::Confined ==> after_escape(cursor, paused, true).0.grab_mode == CursorGrabMode::Confined,
        after_escape(cursor, paused, true).0.visible == !cursor.visible,
        after_escape(cursor, paused, true).1 == !paused,
        forall|other_visible: bool, other_paused: bool|
            after_escape(CursorOptions { visible: other_visible, ..cursor }, other_paused, true).0.grab_mode
                == #[trigger] after_escape(cursor, paused, true).0.grab_mode,
        after_escape(cursor, paused, false).0 == cursor,
        after_escape(cursor, paused, false).1 == paused,
{
}

/// A frame without a click, or a click while the game runs, changes nothing;
/// a click while paused always ends with a running game and a locked, hidden
/// cursor, whatever the cursor was.
pub proof fn lemma_click_changes_only_paused_game(cursor: CursorOptions, paused: bool, left_just_pressed: bool)
    ensures
        !left_just_pressed ==> after_click(cursor, paused, left_just_pressed).0 == cursor
            && after_click(cursor, paused, left_just_pressed).1 == paused,
        !paused ==> after_click(cursor, paused, left_just_pressed).0 == cursor
            && after_click(cursor, paused, left_just_pressed).1 == paused,
        paused && left_just_pressed ==> {
            &&& after_click(cursor, paused, left_just_pressed).0.grab_mode == CursorGrabMode::Locked
            &&& !after_click(cursor, paused, left_just_pressed).0.visible
            &&& !after_click(cursor, paused, left_just_pressed).1
        },
{
}

/// Pressing escape twice restores the cursor settings and the pause flag.
pub proof fn lemma_escape_twice_restores(cursor: CursorOptions, paused: bool)
    ensures
        ({
            let (c1, p1) = after_escape(cursor, paused, true);
            after_escape(c1, p1, true)
        }) == (cursor, paused),
{
}

/// Every escape press flips the pause flag, whatever the cursor's grab mode.
pub proof fn lemma_escape_flips_pause(cursor: CursorOptions, paused: bool)
    ensures
        after_escape(cursor, paused, true).1 == !paused,
        after_escape(cursor, paused, true).0.visible == !cursor.visible,
{
}

/// A click leaves the game unpaused, and a second click in a row changes
/// nothing more.
pub proof fn lemma_click_resumes_and_settles(cursor: CursorOptions, paused: bool)
    ensures
        !after_click(cursor, paused, true).1,
        ({
            let (c1, p1) = after_click(cursor, paused, true);
            after_click(c1, p1, true)
        }) == after_click(cursor, paused, true),
{
}

/// Resuming by a click from a pause that escape started leaves the cursor
/// locked and hidden.
pub proof fn lemma_click_after_escape_locks(cursor: CursorOptions)
    ensures
        ({
            let (c1, p1) = after_escape(cursor, false, true);
            after_click(c1, p1, true)
        }) == (CursorOptions { grab_mode: CursorGrabMode::Locked, visible: false }, false),
{
}

} // verus!
