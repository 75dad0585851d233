//! Drift-free pacing: how long to wait before a frame goes out.
//!
//! All times are microseconds. Recorded times are frame timestamps; measured
//! times are offsets from the instant at which the playback began.

use vstd::prelude::*;

verus! {

/// The wait before a frame that is due `target` after the start of the
/// playback, when the previous send began `elapsed` after that start. A frame
/// that is already due goes out at once: the wait is never negative.
pub open spec fn wait_after(target: int, elapsed: int) -> int {
    if target > elapsed {
        target - elapsed
    } else {
        0
    }
}

/// The wait before the frame stamped `stamp`, in a playback whose first frame
/// was stamped `origin` and whose previous send began at `last_send`.
pub open spec fn wait_for(origin: u64, stamp: u64, last_send: u64) -> int {
    wait_after(stamp - origin, last_send as int)
}

/// Computes `wait_for`.
pub fn wait_micros(origin: u64, stamp: u64, last_send: u64) -> (wait: u64)
    ensures
        wait == wait_for(origin, stamp, last_send),
{
    if stamp < origin {
        0
    } else {
        let target: u64 = stamp - origin;
        if target > last_send {
            target - last_send
        } else {
            0
        }
    }
}

/// The offset of a send as the playback keeps it: the measured microseconds,
/// or the largest offset where they do not fit 64 bits.
pub open spec fn offset_of(micros: u128) -> u64 {
    if micros > u64::MAX {
        u64::MAX
    } else {
        micros as u64
    }
}

/// Computes `offset_of`.
pub fn offset_from_micros(micros: u128) -> (offset: u64)
    ensures
        offset == offset_of(micros),
{
    if micros > 0xffff_ffff_ffff_ffffu128 {
        u64::MAX
    } else {
        micros as u64
    }
}

/// The timestamp that frame `k` is held against, in a playback that began at
/// frame `start` with the reference timestamp `first`: the timestamp of the
/// frame before it, or `first` for the first frame played.
pub open spec fn baseline(stamps: Seq<u64>, start: int, first: u64, k: int) -> u64
    recommends
        0 <= start <= k <= stamps.len(),
{
    if k <= start {
        first
    } else {
        stamps[k - 1]
    }
}

/// Frame `k` breaks the timeline: its timestamp is less than its baseline.
pub open spec fn broken(stamps: Seq<u64>, start: int, first: u64, k: int) -> bool
    recommends
        0 <= start <= k < stamps.len(),
{
    stamps[k] < baseline(stamps, start, first, k)
}

/// Every frame in `from..to` breaks the timeline.
pub open spec fn all_broken(stamps: Seq<u64>, start: int, first: u64, from: int, to: int) -> bool {
    forall|k: int| from <= k < to ==> #[trigger] broken(stamps, start, first, k)
}

/// The timestamps never go down.
pub open spec fn non_decreasing(stamps: Seq<u64>) -> bool {
    forall|i: int, j: int| 0 <= i <= j < stamps.len() ==> stamps[i] <= stamps[j]
}

/// In a playback that begins at frame `start` of timestamps that never go
/// down, no frame breaks the timeline: every frame from `start` on goes out.
pub proof fn lemma_non_decreasing_never_broken(stamps: Seq<u64>, start: int, k: int)
    requires
        non_decreasing(stamps),
        0 <= start <= k < stamps.len(),
    ensures
        !broken(stamps, start, stamps[start], k),
{
}

/// The offset at which the send of frame `k` begins, in a playback of all of
/// `stamps` from frame 0 in which the send of frame `j` begins `delays[j]`
/// after its wait was computed from the send before it. A delay stands for
/// everything that the pacing does not control: the emission of the frame
/// before and the lateness of the timer.
pub open spec fn send_offset(stamps: Seq<u64>, delays: Seq<int>, k: int) -> int
    recommends
        0 <= k < stamps.len(),
        delays.len() == stamps.len(),
    decreases k,
{
    let before = if k <= 0 {
        0
    } else {
        send_offset(stamps, delays, k - 1)
    };
    before + wait_after(stamps[k] - stamps[0], before) + delays[k]
}

/// How late the send of frame `k` begins, against the recorded timeline.
pub open spec fn lateness(stamps: Seq<u64>, delays: Seq<int>, k: int) -> int
    recommends
        0 <= k < stamps.len(),
        delays.len() == stamps.len(),
{
    send_offset(stamps, delays, k) - (stamps[k] - stamps[0])
}

/// A wait ends exactly when the frame is due, unless the frame was due before
/// the previous send began.
pub proof fn lemma_wait_meets_target(target: int, elapsed: int)
    ensures
        wait_after(target, elapsed) >= 0,
        elapsed <= target ==> elapsed + wait_after(target, elapsed) == target,
        elapsed > target ==> wait_after(target, elapsed) == 0,
{
}

/// Lateness is not handed on: a send is late by its own delay, and by that
/// part of the lateness of the send before it which the recorded gap between
/// the two frames did not take up.
pub proof fn lemma_lateness_step(stamps: Seq<u64>, delays: Seq<int>, k: int)
    requires
        0 < k < stamps.len(),
        delays.len() == stamps.len(),
    ensures
        lateness(stamps, delays, k) == delays[k] + wait_after(
            lateness(stamps, delays, k - 1),
            stamps[k] - stamps[k - 1],
        ),
{
}

/// The delays of a playback keep pace with its frames: no delay is
/// negative, and none lasts beyond the time at which the next frame is due.
pub open spec fn keeps_pace(stamps: Seq<u64>, delays: Seq<int>) -> bool {
    &&& delays.len() == stamps.len()
    &&& forall|j: int| 0 <= j < delays.len() ==> 0 <= #[trigger] delays[j]
    &&& forall|j: int|
        0 < j < stamps.len() ==> #[trigger] delays[j - 1] <= stamps[j] - stamps[j - 1]
}

/// No cumulative drift. Where the timestamps never go down and the delays
/// keep pace, each send begins late by exactly its own delay, however many
/// frames were played before it.
pub proof fn lemma_no_cumulative_drift(stamps: Seq<u64>, delays: Seq<int>, k: int)
    requires
        non_decreasing(stamps),
        keeps_pace(stamps, delays),
        0 <= k < stamps.len(),
    ensures
        lateness(stamps, delays, k) == delays[k],
    decreases k,
{
    if k > 0 {
        lemma_no_cumulative_drift(stamps, delays, k - 1);
        lemma_lateness_step(stamps, delays, k);
        assert(delays[k - 1] <= stamps[k] - stamps[k - 1]);
    }
}

/// Where moreover every delay is at most `quantum`, the time between two
/// successive sends differs from the recorded gap between the two frames by
/// at most `quantum`.
pub proof fn lemma_gap_within_quantum(stamps: Seq<u64>, delays: Seq<int>, quantum: int, k: int)
    requires
        non_decreasing(stamps),
        keeps_pace(stamps, delays),
        forall|j: int| 0 <= j < delays.len() ==> #[trigger] delays[j] <= quantum,
        0 < k < stamps.len(),
    ensures
        ({
            let measured = send_offset(stamps, delays, k) - send_offset(stamps, delays, k - 1);
            let recorded = stamps[k] - stamps[k - 1];
            recorded - quantum <= measured <= recorded + quantum
        }),
{
    lemma_no_cumulative_drift(stamps, delays, k);
    lemma_no_cumulative_drift(stamps, delays, k - 1);
}

/// Over a whole playback the time that passed and the recorded span differ by
/// the delay of the last frame alone, which is at most `quantum`: not by a
/// sum over the frames.
pub proof fn lemma_total_elapsed(stamps: Seq<u64>, delays: Seq<int>, quantum: int)
    requires
        non_decreasing(stamps),
        keeps_pace(stamps, delays),
        forall|j: int| 0 <= j < delays.len() ==> #[trigger] delays[j] <= quantum,
        stamps.len() > 0,
    ensures
        ({
            let last = stamps.len() as int - 1;
            let span = stamps[last] - stamps[0];
            span <= send_offset(stamps, delays, last) <= span + quantum
        }),
{
    lemma_no_cumulative_drift(stamps, delays, stamps.len() as int - 1);
}

} // verus!
