//! The navigation mode and the cursor policy that goes with it.
use vstd::prelude::*;

verus! {

/// How mouse and keyboard input drive the active camera.
#[derive(Clone, Copy, Debug, PartialEq, Eq, Hash, Structural)]
pub enum Prank3dMode {
    /// Free look: keys move the camera, mouse motion turns it.
    Fly,
    /// Panning: mouse motion moves the camera within its view plane.
    Offset,
    /// No navigation: input is left to the rest of the application.
    Idle,
}

/// The mouse buttons that are held down during a tick.
#[derive(Clone, Copy, Debug, PartialEq, Eq, Structural)]
pub struct MouseButtons {
    pub right: bool,
    pub middle: bool,
}

/// How the cursor is confined to its window.
#[derive(Clone, Copy, Debug, PartialEq, Eq, Structural)]
pub enum CursorGrab {
    /// The cursor moves freely.
    Free,
    /// The cursor moves, but cannot leave the window.
    Confined,
    /// The cursor stays where it is.
    Locked,
}

/// Visibility and confinement of a window's cursor.
#[derive(Clone, Copy, Debug, PartialEq, Eq, Structural)]
pub struct CursorPolicy {
    pub visible: bool,
    pub grab: CursorGrab,
}

/// Whether `mode` is one of the navigation modes.
pub open spec fn is_navigating(mode: Prank3dMode) -> bool {
    mode != Prank3dMode::Idle
}

/// The cursor while navigating: hidden and locked.
pub open spec fn captured() -> CursorPolicy {
    CursorPolicy { visible: false, grab: CursorGrab::Locked }
}

/// Whether navigation holds the cursor of `window`: some navigation mode is
/// on and `window` is the one the active camera renders to.
pub open spec fn holds_window(mode: Prank3dMode, window: u64, active_window: Option<u64>) -> bool {
    is_navigating(mode) && active_window == Some(window)
}

/// The setting to keep for a window whose cursor is `current` and whose
/// setting from before navigation is `saved`, if one was kept.
pub open spec fn setting_before(current: CursorPolicy, saved: Option<CursorPolicy>) -> CursorPolicy {
    match saved {
        Some(s) => s,
        None => current,
    }
}

/// One update of a window's cursor, as a pair of the cursor to apply and the
/// setting kept from before navigation: `held` says whether navigation holds
/// the window.
pub open spec fn cursor_update(held: bool, current: CursorPolicy, saved: Option<CursorPolicy>) -> (
    CursorPolicy,
    Option<CursorPolicy>,
) {
    if held {
        (captured(), Some(setting_before(current, saved)))
    } else {
        (setting_before(current, saved), None)
    }
}

/// The cursor and kept setting after one update for each of `holds`, in
/// order, each update seeing the cursor that the one before applied.
pub open spec fn cursor_after(current: CursorPolicy, saved: Option<CursorPolicy>, holds: Seq<bool>) -> (
    CursorPolicy,
    Option<CursorPolicy>,
)
    decreases holds.len(),
{
    if holds.len() == 0 {
        (current, saved)
    } else {
        let prev = cursor_after(current, saved, holds.drop_last());
        cursor_update(holds.last(), prev.0, prev.1)
    }
}

/// Navigation gives a window's cursor back as it found it: over any run of
/// updates that starts from a cursor `start` with nothing kept, the cursor is
/// either `start` with nothing kept or captured with `start` kept, and after
/// an update in which navigation no longer holds the window it is `start`.
pub proof fn lemma_cursor_restored(start: CursorPolicy, holds: Seq<bool>)
    ensures
        cursor_after(start, None, holds) == (start, None::<CursorPolicy>) || cursor_after(
            start,
            None,
            holds,
        ) == (captured(), Some(start)),
        holds.len() > 0 && !holds.last() ==> cursor_after(start, None, holds) == (
            start,
            None::<CursorPolicy>,
        ),
    decreases holds.len(),
{
    if holds.len() > 0 {
        lemma_cursor_restored(start, holds.drop_last());
    }
}

impl Prank3dMode {
    /// The mode of the next tick.
    ///
    /// Without an active camera the mode is `Idle`, whatever the buttons.
    /// Otherwise a held right button enters `Fly` and a held middle button
    /// enters `Offset` (the right button wins when both are held); each mode
    /// lasts as long as its own button stays held and then falls back to
    /// `Idle`.
    pub fn next(self, has_active: bool, buttons: MouseButtons) -> (r: Prank3dMode)
        ensures
            !has_active ==> r == Prank3dMode::Idle,
            has_active && self == Prank3dMode::Fly ==> r == (if buttons.right {
                Prank3dMode::Fly
            } else {
                Prank3dMode::Idle
            }),
            has_active && self == Prank3dMode::Offset ==> r == (if buttons.middle {
                Prank3dMode::Offset
            } else {
                Prank3dMode::Idle
            }),
            has_active && self == Prank3dMode::Idle ==> r == (if buttons.right {
                Prank3dMode::Fly
            } else if buttons.middle {
                Prank3dMode::Offset
            } else {
                Prank3dMode::Idle
            }),
    {
        if !has_active {
            return Prank3dMode::Idle;
        }
        match self {
            Prank3dMode::Fly => {
                if buttons.right {
                    Prank3dMode::Fly
                } else {
                    Prank3dMode::Idle
                }
            },
            Prank3dMode::Offset => {
                if buttons.middle {
                    Prank3dMode::Offset
                } else {
                    Prank3dMode::Idle
                }
            },
            Prank3dMode::Idle => {
                if buttons.right {
                    Prank3dMode::Fly
                } else if buttons.middle {
                    Prank3dMode::Offset
                } else {
                    Prank3dMode::Idle
                }
            },
        }
    }

    /// The cursor while in this mode: hidden and locked while navigating;
    /// otherwise `saved`, the window's own setting from before navigation.
    pub fn cursor(self, saved: CursorPolicy) -> (r: CursorPolicy)
        ensures
            is_navigating(self) ==> r == captured(),
            !is_navigating(self) ==> r == saved,
    {
        match self {
            Prank3dMode::Idle => saved,
            _ => CursorPolicy { visible: false, grab: CursorGrab::Locked },
        }
    }
}

/// One update of the cursor of `window`, whose cursor is now `current`, while
/// the active camera renders to `active_window`. `saved` holds the window's
/// setting from before navigation took its cursor, if it has.
///
/// While navigation holds the window, the cursor is hidden and locked, and
/// the setting it had before is kept (saved on the first update). Otherwise
/// the kept setting, if any, is handed back and forgotten; a window that was
/// never taken keeps its cursor as it is. Returns the cursor to apply.
pub fn sync_window_cursor(
    mode: Prank3dMode,
    window: u64,
    active_window: Option<u64>,
    current: CursorPolicy,
    saved: &mut Option<CursorPolicy>,
) -> (r: CursorPolicy)
    ensures
        (r, *final(saved)) == cursor_update(holds_window(mode, window, active_window), current, *old(saved)),
        holds_window(mode, window, active_window) ==> r == captured() && *final(saved) == Some(
            setting_before(current, *old(saved)),
        ),
        !holds_window(mode, window, active_window) ==> r == setting_before(current, *old(saved))
            && *final(saved) == None::<CursorPolicy>,
{
    let before = match *saved {
        Some(s) => s,
        None => current,
    };
    let here = match active_window {
        Some(w) => w == window,
        None => false,
    };
    if here && mode != Prank3dMode::Idle {
        *saved = Some(before);
        mode.cursor(before)
    } else {
        *saved = None;
        Prank3dMode::Idle.cursor(before)
    }
}

impl Default for Prank3dMode {
    fn default() -> (r: Prank3dMode)
        ensures
            r == Prank3dMode::Idle,
    {
        Prank3dMode::Idle
    }
}

} // verus!
