//! Decisions of the window commands.
//!
//! A window command first asks the window for its state and then tells it
//! what to do. Asking and telling are left to the caller; which action
//! follows from which state is decided here.

use vstd::prelude::*;

verus! {

/// What a window command tells the window to do.
#[derive(Debug, Clone, Copy, PartialEq, Eq)]
pub enum WindowAction {
    /// Enter full screen (`true`) or leave it (`false`).
    SetFullscreen(bool),
    /// Enlarge the window to fill the screen.
    Maximize,
    /// Give a maximized window its former size back.
    Unmaximize,
}

/// The action that toggles full screen.
///
/// `is_fullscreen` is what the window answered when asked whether it is in
/// full screen, or the platform's error text where asking failed. The
/// action sets the opposite state; a failed question is handed back as it
/// is and nothing is done.
pub fn toggle_fullscreen(is_fullscreen: Result<bool, String>) -> (decision: Result<WindowAction, String>)
    ensures
        match is_fullscreen {
            Ok(on) => decision == Ok::<WindowAction, String>(WindowAction::SetFullscreen(!on)),
            Err(message) => decision == Err::<WindowAction, String>(message),
        },
{
    match is_fullscreen {
        Ok(on) => Ok(WindowAction::SetFullscreen(!on)),
        Err(message) => Err(message),
    }
}

/// The action that toggles between maximized and not.
///
/// `is_maximized` is what the window answered when asked whether it is
/// maximized, or the platform's error text where asking failed. A
/// maximized window is given its former size back, any other is
/// maximized; a failed question is handed back as it is and nothing is
/// done.
pub fn maximize_window(is_maximized: Result<bool, String>) -> (decision: Result<WindowAction, String>)
    ensures
        match is_maximized {
            Ok(true) => decision == Ok::<WindowAction, String>(WindowAction::Unmaximize),
            Ok(false) => decision == Ok::<WindowAction, String>(WindowAction::Maximize),
            Err(message) => decision == Err::<WindowAction, String>(message),
        },
{
    match is_maximized {
        Ok(true) => Ok(WindowAction::Unmaximize),
        Ok(false) => Ok(WindowAction::Maximize),
        Err(message) => Err(message),
    }
}

} // verus!
