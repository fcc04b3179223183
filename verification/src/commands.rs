//! The five window operations of the command surface.
//!
//! Each operation borrows the target window for one call, asks the host for
//! exactly one thing, and reports the outcome; a host failure is converted
//! into display-ready text by [`crate::host::error_text`]. Two operations are
//! deliberate compatibility stubs: [`set_window_transparent`] ignores both
//! arguments and always succeeds (real transparency is applied by styling
//! outside this surface), and [`get_window_opacity`] always reports full
//! opacity without consulting any window.

use vstd::prelude::*;

use crate::host::HostError;
use crate::host::Window;
use crate::host::error_text;
use crate::host::host_error_message;

verus! {

/// The fixed-point scale of an opacity value: `OPACITY_SCALE` stands for a
/// fully opaque window, an opacity of one.
pub const OPACITY_SCALE: u32 = 1000;

/// An opacity, as the fraction `per_mille / OPACITY_SCALE` of full opacity.
#[derive(Clone, Copy, PartialEq, Eq, Structural, Debug)]
pub struct Opacity {
    pub per_mille: u32,
}

impl Opacity {
    /// The value lies in the conceptual range from fully transparent to
    /// fully opaque.
    pub open spec fn valid(self) -> bool {
        self.per_mille <= OPACITY_SCALE
    }

    /// The window is fully opaque: an opacity of exactly one.
    pub open spec fn is_full(self) -> bool {
        self.per_mille == OPACITY_SCALE
    }
}

/// Applies the always-on-top attribute to a live window immediately, with no
/// other observable effect; against a dead reference the host failure comes
/// back as text and the window model is untouched.
pub fn set_always_on_top(window: &mut Window, always_on_top: bool) -> (r: Result<(), String>)
    requires
        old(window).wf(),
    ensures
        final(window).wf(),
        old(window).is_alive() ==> r == Ok::<(), String>(()),
        old(window).is_alive() ==> *final(window) == old(window).pinned(always_on_top),
        old(window).is_alive() ==> final(window).is_always_on_top() == always_on_top,
        !old(window).is_alive() ==> *final(window) == *old(window),
        !old(window).is_alive() ==> (r matches Err(m) && m@ == host_error_message(
            HostError::WindowDestroyed,
        )),
{
    if window.alive {
        window.always_on_top = always_on_top;
        Ok(())
    } else {
        Err(error_text(&HostError::WindowDestroyed))
    }
}

/// Compatibility stub: ignores both arguments, changes nothing, and always
/// succeeds, whatever came before. Transparency is controlled entirely by
/// presentation styling outside this surface.
pub fn set_window_transparent(_window: &Window, _transparent: bool) -> (r: Result<(), String>)
    ensures
        r == Ok::<(), String>(()),
{
    Ok(())
}

/// Stub query: consults no window and always reports full opacity. True
/// opacity is not tracked by this surface.
pub fn get_window_opacity() -> (r: Result<Opacity, String>)
    ensures
        r == Ok::<Opacity, String>((Opacity { per_mille: OPACITY_SCALE })),
{
    Ok(Opacity { per_mille: OPACITY_SCALE })
}

/// Queries the outer size of a live window, decorations included, in
/// physical pixels; against a dead reference the host failure comes back as
/// text.
pub fn get_window_size(window: &Window) -> (r: Result<(u32, u32), String>)
    requires
        window.wf(),
    ensures
        window.is_alive() ==> r == Ok::<(u32, u32), String>(window.size()),
        !window.is_alive() ==> (r matches Err(m) && m@ == host_error_message(
            HostError::WindowDestroyed,
        )),
{
    if window.alive {
        Ok((window.width, window.height))
    } else {
        Err(error_text(&HostError::WindowDestroyed))
    }
}

/// Asks the host to resize a live window to the given outer size in physical
/// pixels. This surface validates no bounds: the host clamps each dimension
/// into its own limits. Against a dead reference the host failure comes back
/// as text and the window model is untouched.
pub fn set_window_size(window: &mut Window, width: u32, height: u32) -> (r: Result<(), String>)
    requires
        old(window).wf(),
    ensures
        final(window).wf(),
        old(window).is_alive() ==> r == Ok::<(), String>(()),
        old(window).is_alive() ==> *final(window) == old(window).resized(width, height),
        !old(window).is_alive() ==> *final(window) == *old(window),
        !old(window).is_alive() ==> (r matches Err(m) && m@ == host_error_message(
            HostError::WindowDestroyed,
        )),
{
    if window.alive {
        let w = window.limits.clamp_width(width);
        let h = window.limits.clamp_height(height);
        window.width = w;
        window.height = h;
        Ok(())
    } else {
        Err(error_text(&HostError::WindowDestroyed))
    }
}

} // verus!
