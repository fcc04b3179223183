//! Laws of the command surface.
//!
//! These relate the operations across calls: what a later query reports after
//! a successful setter, and that the two compatibility stubs are independent
//! of their arguments and of every prior call. Each law is stated over the
//! same spec functions the operations' own contracts use, so it composes
//! directly with them.

use vstd::prelude::*;

use crate::commands::OPACITY_SCALE;
use crate::commands::Opacity;
use crate::dispatch::Command;
use crate::dispatch::Response;
use crate::host::Window;

verus! {

/// After a successful always-on-top request with flag `v` against a live
/// window, the host reports the attribute as `v`, whatever it was before;
/// the window stays live and keeps its size.
pub proof fn lemma_always_on_top_applied(w: Window, v: bool)
    requires
        w.wf(),
        w.is_alive(),
    ensures
        w.pinned(v).is_always_on_top() == v,
        w.pinned(v).wf(),
        w.pinned(v).is_alive(),
        w.pinned(v).size() == w.size(),
{
}

/// Setting a live window's size to `(width, height)` and then querying it
/// round-trips: the query reports the requested pair, except where the
/// host's limits clamp a dimension, in which case it reports the clamped
/// value.
pub proof fn lemma_size_round_trip(w: Window, width: u32, height: u32)
    requires
        w.wf(),
        w.is_alive(),
        width > 0,
        height > 0,
    ensures
        w.resized(width, height).wf(),
        w.resized(width, height).is_alive(),
        w.resized(width, height).size() == (
            w.limits.clamped_width(width),
            w.limits.clamped_height(height),
        ),
        w.limits.admits(width, height) ==> w.resized(width, height).size() == (width, height),
{
}

/// The two compatibility stubs are independent of their arguments, of the
/// window, and of every prior call: the transparency setter changes nothing
/// and the opacity query always reports full opacity.
pub proof fn lemma_stubs_state_independent(w1: Window, w2: Window, v1: bool, v2: bool)
    ensures
        Command::SetWindowTransparent(v1).applied_to(w1) == w1,
        Command::SetWindowTransparent(v1).response_from(w1) == Command::SetWindowTransparent(
            v2,
        ).response_from(w2),
        Command::GetWindowOpacity.applied_to(w1) == w1,
        Command::GetWindowOpacity.response_from(w1) == Command::GetWindowOpacity.response_from(w2),
        Command::GetWindowOpacity.response_from(w1) == Response::Opacity(
            (Opacity { per_mille: OPACITY_SCALE }),
        ),
{
}

} // verus!
