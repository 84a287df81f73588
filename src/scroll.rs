use vstd::prelude::*;

verus! {

/// Display rows taken by one core's block.
pub const ROWS_PER_CORE: usize = 5;

/// Rows moved by one scroll step.
pub const SCROLL_STEP: usize = 5;

/// First core shown for a row offset, held on the last core (0 when there
/// are no cores).
pub open spec fn window_start(offset: nat, total_cores: nat) -> nat {
    let s = offset / (ROWS_PER_CORE as nat);
    if s < total_cores {
        s
    } else if total_cores > 0 {
        (total_cores - 1) as nat
    } else {
        0
    }
}

/// One past the last core shown for a row offset and a viewport height.
pub open spec fn window_end(offset: nat, viewport_height: nat, total_cores: nat) -> nat {
    let e = window_start(offset, total_cores) + viewport_height / (ROWS_PER_CORE as nat);
    if e < total_cores {
        e
    } else {
        total_cores
    }
}

/// The offset after one step down: it moves only while the new offset
/// still starts the window on an existing core.
pub open spec fn scrolled_down(offset: nat, total_cores: nat) -> nat {
    let next = (offset + SCROLL_STEP) as nat;
    if next <= usize::MAX && next / (ROWS_PER_CORE as nat) < total_cores {
        next
    } else {
        offset
    }
}

/// The offset after one step up, held at 0.
pub open spec fn scrolled_up(offset: nat) -> nat {
    if offset >= SCROLL_STEP {
        (offset - SCROLL_STEP) as nat
    } else {
        0
    }
}

/// The range `[start, end)` of cores visible at row offset `offset` in a
/// viewport `viewport_height` rows high, out of `total_cores`.
pub fn visible_range(offset: usize, viewport_height: u16, total_cores: usize) -> (r: (usize, usize))
    ensures
        r.0 == window_start(offset as nat, total_cores as nat),
        r.1 == window_end(offset as nat, viewport_height as nat, total_cores as nat),
        r.0 <= r.1 <= total_cores,
        total_cores > 0 ==> r.0 < total_cores,
{
    let s = offset / ROWS_PER_CORE;
    let start = if s < total_cores {
        s
    } else if total_cores > 0 {
        total_cores - 1
    } else {
        0
    };
    let visible = (viewport_height as usize) / ROWS_PER_CORE;
    let end = if visible < total_cores - start { start + visible } else { total_cores };
    (start, end)
}

/// Length of the scroll content, in rows: one block per core, saturating at
/// the largest `usize`.
pub fn content_length(total_cores: usize) -> (r: usize)
    ensures
        r == if total_cores * ROWS_PER_CORE <= usize::MAX {
            (total_cores * ROWS_PER_CORE) as int
        } else {
            usize::MAX as int
        },
{
    if total_cores <= usize::MAX / ROWS_PER_CORE {
        total_cores * ROWS_PER_CORE
    } else {
        usize::MAX
    }
}

} // verus!
