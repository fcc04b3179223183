//! A verified model of a small desktop-window command surface.
//!
//! The library exposes five window operations — an always-on-top toggle, a
//! transparency stub, an opacity query, and an outer-size query and setter —
//! together with the dispatcher that routes a named command to the matching
//! operation. The host windowing subsystem that owns the real window is
//! modelled by [`host::Window`]: a window reference with its liveness, its
//! always-on-top attribute, its outer size in physical pixels, and the size
//! limits the host enforces by clamping. Every operation's contract states
//! exactly which inputs succeed, what the window looks like afterwards, and
//! the error text returned when the reference no longer names a live window.

pub mod commands;
pub mod dispatch;
pub mod host;
pub mod laws;
