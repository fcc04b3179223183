//! A model of the host windowing subsystem.
//!
//! The command surface only ever borrows a window owned by the host, asks it
//! for one operation, and reports the outcome. What the logic reads of such a
//! window — whether the reference still names a live window, the always-on-top
//! attribute, the outer size in physical pixels, and the size limits the host
//! enforces — is held here as plain values, so that every operation can state
//! precisely what it leaves behind.

use vstd::prelude::*;

verus! {

/// Host-imposed bounds on a window's outer size, in physical pixels.
///
/// The host never rejects a resize request for being out of bounds; it clamps
/// each dimension into these limits instead.
#[derive(Clone, Copy, PartialEq, Eq, Structural, Debug)]
pub struct SizeLimits {
    pub min_width: u32,
    pub min_height: u32,
    pub max_width: u32,
    pub max_height: u32,
}

impl SizeLimits {
    /// The limits leave at least one admissible size.
    pub open spec fn wf(self) -> bool {
        self.min_width <= self.max_width && self.min_height <= self.max_height
    }

    /// The width the host applies when `w` is requested.
    pub open spec fn clamped_width(self, w: u32) -> u32 {
        if w < self.min_width {
            self.min_width
        } else if w > self.max_width {
            self.max_width
        } else {
            w
        }
    }

    /// The height the host applies when `h` is requested.
    pub open spec fn clamped_height(self, h: u32) -> u32 {
        if h < self.min_height {
            self.min_height
        } else if h > self.max_height {
            self.max_height
        } else {
            h
        }
    }

    /// True when the host would apply the pair `(w, h)` unchanged.
    pub open spec fn admits(self, w: u32, h: u32) -> bool {
        self.min_width <= w && w <= self.max_width && self.min_height <= h && h <= self.max_height
    }

    /// Limits that admit every size, for hosts that do not constrain windows.
    pub fn unconstrained() -> (r: SizeLimits)
        ensures
            r.wf(),
            forall|w: u32, h: u32| r.admits(w, h),
    {
        SizeLimits { min_width: 0, min_height: 0, max_width: u32::MAX, max_height: u32::MAX }
    }

    /// The width the host applies when `w` is requested.
    pub fn clamp_width(&self, w: u32) -> (r: u32)
        ensures
            r == self.clamped_width(w),
    {
        if w < self.min_width {
            self.min_width
        } else if w > self.max_width {
            self.max_width
        } else {
            w
        }
    }

    /// The height the host applies when `h` is requested.
    pub fn clamp_height(&self, h: u32) -> (r: u32)
        ensures
            r == self.clamped_height(h),
    {
        if h < self.min_height {
            self.min_height
        } else if h > self.max_height {
            self.max_height
        } else {
            h
        }
    }
}

/// A window reference as the host hands it to one command invocation.
///
/// `alive` is false once the window is destroyed: the host then fails every
/// operation made through the reference. The size is the outer size, window
/// decorations included, in physical pixels.
#[derive(Clone, Copy, PartialEq, Eq, Structural, Debug)]
pub struct Window {
    pub alive: bool,
    pub always_on_top: bool,
    pub width: u32,
    pub height: u32,
    pub limits: SizeLimits,
}

impl Window {
    /// The window's size sits within the limits the host enforces.
    pub open spec fn wf(self) -> bool {
        self.limits.wf() && self.limits.admits(self.width, self.height)
    }

    /// The reference still names a live window.
    pub open spec fn is_alive(self) -> bool {
        self.alive
    }

    /// The always-on-top attribute, as a later host query would report it.
    pub open spec fn is_always_on_top(self) -> bool {
        self.always_on_top
    }

    /// The outer size, as a later host query would report it.
    pub open spec fn size(self) -> (u32, u32) {
        (self.width, self.height)
    }

    /// The window as the host leaves it after an always-on-top request.
    pub open spec fn pinned(self, on_top: bool) -> Window {
        Window { always_on_top: on_top, ..self }
    }

    /// The window as the host leaves it after a resize request: each
    /// dimension clamped into the host's limits.
    pub open spec fn resized(self, width: u32, height: u32) -> Window {
        Window {
            width: self.limits.clamped_width(width),
            height: self.limits.clamped_height(height),
            ..self
        }
    }

    /// A live window as the host creates it: the requested size clamped into
    /// the limits, not on top of other windows.
    pub fn create(limits: SizeLimits, width: u32, height: u32) -> (r: Window)
        requires
            limits.wf(),
        ensures
            r.wf(),
            r.is_alive(),
            !r.is_always_on_top(),
            r.size() == (limits.clamped_width(width), limits.clamped_height(height)),
            r.limits == limits,
    {
        Window {
            alive: true,
            always_on_top: false,
            width: limits.clamp_width(width),
            height: limits.clamp_height(height),
            limits,
        }
    }

    /// The host destroys the window; the reference stays behind and every
    /// later operation through it fails.
    pub fn destroy(&mut self)
        ensures
            *final(self) == (Window { alive: false, ..*old(self) }),
    {
        self.alive = false;
    }
}

/// The one failure the host reports to this command surface: the reference
/// no longer names a live window (destroyed, or never valid).
#[derive(Clone, Copy, PartialEq, Eq, Structural, Debug)]
pub enum HostError {
    WindowDestroyed,
}

/// The display-ready text for a host failure.
pub open spec fn host_error_message(e: HostError) -> Seq<char> {
    match e {
        HostError::WindowDestroyed => "window reference is invalid or destroyed"@,
    }
}

/// The uniform error-to-string conversion applied at every command boundary:
/// every host failure becomes the same display-ready text.
pub fn error_text(e: &HostError) -> (r: String)
    ensures
        r@ == host_error_message(*e),
{
    match e {
        HostError::WindowDestroyed => String::from_str("window reference is invalid or destroyed"),
    }
}

} // verus!
