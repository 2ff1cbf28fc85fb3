//! The part of a log that fits into the window.

use vstd::prelude::*;

verus! {

/// The lines of a log that the window shows: `count` lines from line `start`.
#[derive(Debug, Clone, Copy, PartialEq, Eq, Structural)]
pub struct LogWindow {
    pub start: usize,
    pub count: usize,
}

/// The last line at which a window of `height` lines can start in a log of
/// `total` lines.
pub open spec fn last_start(total: usize, height: usize) -> usize {
    if total >= height {
        (total - height) as usize
    } else {
        0
    }
}

/// The window on a log of `total` lines: while the log is followed, or the
/// offset is the largest there is, its end; else the line that the offset
/// names, but no line behind the last start.
pub open spec fn window_of(total: usize, height: usize, scroll: usize, follow: bool) -> LogWindow {
    let start = if follow || scroll == usize::MAX || scroll > last_start(total, height) {
        last_start(total, height)
    } else {
        scroll
    };
    let left = total - start;
    LogWindow {
        start,
        count: if left < height {
            left as usize
        } else {
            height
        },
    }
}

/// Which lines of the log the window shows.
pub fn log_window(total: usize, height: usize, scroll: usize, follow: bool) -> (window: LogWindow)
    ensures
        window == window_of(total, height, scroll, follow),
        window.start + window.count <= total,
        window.count <= height,
{
    let last: usize = if total >= height {
        total - height
    } else {
        0
    };
    let start: usize = if follow || scroll == usize::MAX || scroll > last {
        last
    } else {
        scroll
    };
    let left: usize = total - start;
    LogWindow {
        start,
        count: if left < height {
            left
        } else {
            height
        },
    }
}

/// How long the loop waits for a key before it fetches anew, in
/// milliseconds: shorter while a log is followed.
pub open spec fn poll_interval(follow: bool) -> u64 {
    if follow {
        200
    } else {
        500
    }
}

/// The wait for a key, in milliseconds.
pub fn poll_millis(follow: bool) -> (millis: u64)
    ensures
        millis == poll_interval(follow),
{
    if follow {
        200
    } else {
        500
    }
}

} // verus!
