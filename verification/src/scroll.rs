//! Scroll-window computation: clamping a requested scroll offset into the
//! range that keeps file content inside the viewport.

use vstd::prelude::*;

verus! {

/// The largest scroll offset ever allowed for a file of `lines` newlines in a
/// viewport of height `h`: zero when the whole file fits, and
/// `lines - h + 2` otherwise (the `+ 2` pays for the border rows that the
/// surrounding frame consumes).
pub open spec fn spec_max_scroll(lines: int, h: int) -> int {
    if lines <= h {
        0
    } else {
        lines - h + 2
    }
}

/// The offset actually used for a requested offset `req`: the request,
/// clamped into `[0, spec_max_scroll(lines, h)]`.
pub open spec fn spec_clamp(lines: int, h: int, req: int) -> int {
    if lines <= h {
        0
    } else if req <= lines - h + 2 {
        req
    } else {
        lines - h + 2
    }
}

/// Law: whatever offset is requested — in particular after any number of
/// `Down` presses — the clamped offset never exceeds the scroll bound, and
/// never exceeds `max(0, lines - h + 2)`.
pub proof fn lemma_clamp_never_exceeds_bound(lines: int, h: int, req: int)
    ensures
        spec_clamp(lines, h, req) <= spec_max_scroll(lines, h),
        spec_clamp(lines, h, req) <= vstd::math::max(0, lines - h + 2),
{
}

/// Law: when the whole file fits in the viewport, the clamped offset is zero
/// whatever was requested.
pub proof fn lemma_clamp_small_file(lines: int, h: int, req: int)
    requires
        lines <= h,
    ensures
        spec_clamp(lines, h, req) == 0,
{
}

/// Clamp a requested scroll offset against the number of newlines in the
/// content and the viewport height.
pub fn clamp_scroll(lines: usize, height: usize, requested: usize) -> (r: usize)
    ensures
        r as int == spec_clamp(lines as int, height as int, requested as int),
{
    if lines <= height {
        0
    } else {
        let room = lines - height;
        if room > usize::MAX - 2 {
            // The bound `room + 2` would not fit in a machine word, so it
            // cannot constrain any representable request.
            requested
        } else {
            let max_offset = room + 2;
            if requested <= max_offset {
                requested
            } else {
                max_offset
            }
        }
    }
}

} // verus!
