//! The command dispatcher.
//!
//! The UI layer hands this surface a named command with typed arguments; the
//! dispatcher forwards it to the matching window operation and returns the
//! typed response, or the host failure as display-ready text. Every command
//! is independent: no ordering, session or shared state relates two calls.

use vstd::prelude::*;

use crate::commands::OPACITY_SCALE;
use crate::commands::Opacity;
use crate::commands::get_window_opacity;
use crate::commands::get_window_size;
use crate::commands::set_always_on_top;
use crate::commands::set_window_size;
use crate::commands::set_window_transparent;
use crate::host::HostError;
use crate::host::Window;
use crate::host::host_error_message;

verus! {

/// A named command of the surface, with its typed arguments. The target
/// window is implicit: the host supplies it with each invocation.
#[derive(Clone, Copy, PartialEq, Eq, Structural, Debug)]
pub enum Command {
    SetAlwaysOnTop(bool),
    SetWindowTransparent(bool),
    GetWindowOpacity,
    GetWindowSize,
    SetWindowSize(u32, u32),
}

/// A successful command's typed response.
#[derive(Clone, Copy, PartialEq, Eq, Structural, Debug)]
pub enum Response {
    /// The operation applied; it returns nothing.
    Done,
    /// The opacity reported by the opacity query.
    Opacity(Opacity),
    /// The outer size, in physical pixels, reported by the size query.
    Size(u32, u32),
}

impl Command {
    /// True of the commands whose outcome ignores the window reference: the
    /// two compatibility stubs, which succeed even against a dead reference.
    pub open spec fn ignores_window(self) -> bool {
        self is SetWindowTransparent || self is GetWindowOpacity
    }

    /// The window a command leaves behind when the host accepts it.
    pub open spec fn applied_to(self, w: Window) -> Window {
        match self {
            Command::SetAlwaysOnTop(v) => w.pinned(v),
            Command::SetWindowSize(width, height) => w.resized(width, height),
            _ => w,
        }
    }

    /// The response a command yields when the host accepts it.
    pub open spec fn response_from(self, w: Window) -> Response {
        match self {
            Command::GetWindowOpacity => Response::Opacity(Opacity { per_mille: OPACITY_SCALE }),
            Command::GetWindowSize => Response::Size(w.width, w.height),
            _ => Response::Done,
        }
    }
}

/// Routes one command to the matching window operation: against a live
/// window every command succeeds and leaves `Command::applied_to` behind;
/// against a dead reference the two stubs still succeed and everything else
/// returns the host failure as text, the window untouched.
pub fn dispatch(window: &mut Window, command: Command) -> (r: Result<Response, String>)
    requires
        old(window).wf(),
    ensures
        final(window).wf(),
        old(window).is_alive() || command.ignores_window() ==> r == Ok::<Response, String>(
            command.response_from(*old(window)),
        ),
        old(window).is_alive() || command.ignores_window() ==> *final(window)
            == command.applied_to(*old(window)),
        !(old(window).is_alive() || command.ignores_window()) ==> *final(window) == *old(window),
        !(old(window).is_alive() || command.ignores_window()) ==> (r matches Err(m) && m@
            == host_error_message(HostError::WindowDestroyed)),
{
    match command {
        Command::SetAlwaysOnTop(v) => {
            match set_always_on_top(window, v) {
                Ok(()) => Ok(Response::Done),
                Err(m) => Err(m),
            }
        },
        Command::SetWindowTransparent(v) => {
            match set_window_transparent(window, v) {
                Ok(()) => Ok(Response::Done),
                Err(m) => Err(m),
            }
        },
        Command::GetWindowOpacity => {
            match get_window_opacity() {
                Ok(o) => Ok(Response::Opacity(o)),
                Err(m) => Err(m),
            }
        },
        Command::GetWindowSize => {
            match get_window_size(window) {
                Ok((w, h)) => Ok(Response::Size(w, h)),
                Err(m) => Err(m),
            }
        },
        Command::SetWindowSize(w, h) => {
            match set_window_size(window, w, h) {
                Ok(()) => Ok(Response::Done),
                Err(m) => Err(m),
            }
        },
    }
}

} // verus!
