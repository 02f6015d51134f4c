//! Timing decisions of the window: which frame of the loading animation
//! to show, and when the loaded save is refreshed automatically.

use vstd::prelude::*;

verus! {

/// A frame's length as the animation counts it: at least one nanosecond.
pub open spec fn frame_length(d: u128) -> int {
    if d == 0 {
        1
    } else {
        d as int
    }
}

/// The length of the first `n` frames.
pub open spec fn frames_length(frames: Seq<u128>, n: int) -> int
    decreases n,
{
    if n <= 0 {
        0
    } else {
        frames_length(frames, n - 1) + frame_length(frames[n - 1])
    }
}

/// The frame shown `elapsed` nanoseconds into the looping animation: the
/// frame during which the time within the current loop falls. A single
/// frame (or none) is always frame 0.
pub open spec fn spec_frame_index(frames: Seq<u128>, elapsed: u128) -> int {
    if frames.len() <= 1 {
        0
    } else {
        let position = elapsed as int % frames_length(frames, frames.len() as int);
        choose|i: int|
            0 <= i < frames.len() && #[trigger] frames_length(frames, i) <= position
                < frames_length(frames, i + 1)
    }
}

pub proof fn lemma_frames_length_grows(frames: Seq<u128>, i: int, j: int)
    requires
        0 <= i <= j <= frames.len(),
    ensures
        frames_length(frames, i) + (j - i) <= frames_length(frames, j),
    decreases j - i,
{
    if i < j {
        lemma_frames_length_grows(frames, i, j - 1);
    }
}

/// The frame of the loading animation to show after `elapsed`
/// nanoseconds; `frame_nanos` are the frames' lengths.
pub fn loading_frame_index(frame_nanos: &Vec<u128>, elapsed: u128) -> (r: usize)
    requires
        frames_length(frame_nanos@, frame_nanos@.len() as int) <= u128::MAX,
    ensures
        r == spec_frame_index(frame_nanos@, elapsed),
        frame_nanos@.len() > 1 ==> r < frame_nanos@.len(),
{
    let n = frame_nanos.len();
    if n <= 1 {
        return 0;
    }
    let ghost f = frame_nanos@;
    let mut total: u128 = 0;
    let mut k: usize = 0;
    while k < n
        invariant
            k <= n,
            n == f.len(),
            f == frame_nanos@,
            total == frames_length(f, k as int),
            frames_length(f, n as int) <= u128::MAX,
        decreases n - k,
    {
        proof {
            lemma_frames_length_grows(f, k + 1, n as int);
        }
        let d = if frame_nanos[k] == 0 {
            1
        } else {
            frame_nanos[k]
        };
        total = total + d;
        k = k + 1;
    }
    proof {
        lemma_frames_length_grows(f, 0, n as int);
    }
    let position = elapsed % total;
    let mut start: u128 = 0;
    let mut i: usize = 0;
    while i < n
        invariant
            i <= n,
            n == f.len(),
            f == frame_nanos@,
            total == frames_length(f, n as int),
            position == elapsed as int % total as int,
            start == frames_length(f, i as int),
            start <= position,
            total > 0,
        decreases n - i,
    {
        proof {
            lemma_frames_length_grows(f, i + 1, n as int);
        }
        let d = if frame_nanos[i] == 0 {
            1
        } else {
            frame_nanos[i]
        };
        if position < start + d {
            proof {
                let c = choose|j: int|
                    0 <= j < f.len() && #[trigger] frames_length(f, j) <= position
                        < frames_length(f, j + 1);
                assert(0 <= i < f.len() && frames_length(f, i as int) <= position
                    < frames_length(f, i + 1));
                if c < i {
                    lemma_frames_length_grows(f, c + 1, i as int);
                } else if c > i {
                    lemma_frames_length_grows(f, i + 1, c);
                }
            }
            return i;
        }
        start = start + d;
        i = i + 1;
    }
    proof {
        assert(false);
    }
    n - 1
}

/// What the window does about the automatic refresh.
#[derive(Debug, PartialEq, Eq, Structural, Clone, Copy)]
pub enum AutoRefresh {
    /// There is no save to refresh.
    NoSource,
    /// Refresh now.
    Due,
    /// Look again after this many nanoseconds.
    WaitNanos(u128),
}

pub open spec fn refresh_interval_nanos(minutes: u32) -> int {
    (if minutes < 1 {
        1
    } else {
        minutes as int
    }) * 60 * 1_000_000_000
}

/// The automatic refresh: due when a save is loaded, the interval (the
/// configured minutes, at least one) has passed and no parse or loading
/// screen is under way; otherwise, with a save loaded, look again after the
/// time left to the interval, at most a second.
pub open spec fn spec_auto_refresh(
    has_source: bool,
    minutes: u32,
    elapsed: u128,
    busy: bool,
) -> AutoRefresh {
    let interval = refresh_interval_nanos(minutes);
    if !has_source {
        AutoRefresh::NoSource
    } else if elapsed >= interval && !busy {
        AutoRefresh::Due
    } else {
        let left = if elapsed >= interval {
            0
        } else {
            interval - elapsed
        };
        AutoRefresh::WaitNanos(
            if left < 1_000_000_000 {
                left as u128
            } else {
                1_000_000_000
            },
        )
    }
}

pub fn auto_refresh(has_source: bool, minutes: u32, elapsed: u128, busy: bool) -> (r: AutoRefresh)
    ensures
        r == spec_auto_refresh(has_source, minutes, elapsed, busy),
{
    if !has_source {
        return AutoRefresh::NoSource;
    }
    let m: u128 = if minutes < 1 {
        1
    } else {
        minutes as u128
    };
    let interval: u128 = m * 60 * 1_000_000_000;
    if elapsed >= interval && !busy {
        return AutoRefresh::Due;
    }
    let left: u128 = if elapsed >= interval {
        0
    } else {
        interval - elapsed
    };
    AutoRefresh::WaitNanos(
        if left < 1_000_000_000 {
            left
        } else {
            1_000_000_000
        },
    )
}

} // verus!
