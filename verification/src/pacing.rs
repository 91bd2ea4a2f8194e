//! Frame pacing: deciding when a stream's next frame is due.
//!
//! Each video instance keeps a `PlaybackTimer` holding the timestamp (in
//! milliseconds of a monotonic clock) of its last accepted frame. A frame is
//! due once at least the stream's nominal frame duration has elapsed since
//! that timestamp. Streams whose container reports no frame rate have no
//! nominal duration and are treated as always due.

use vstd::prelude::*;

verus! {

/// Whether playback is running. Read by the compositor each tick; when
/// `Paused`, no pacer is consulted and no decode call is made.
#[derive(Clone, Copy, PartialEq, Eq, Structural, Debug)]
pub enum VideoStatus {
    Playing,
    Paused,
}

/// Timestamp of the last accepted frame for one stream, in milliseconds of a
/// monotonic clock. It never decreases: it is rewritten only to the current
/// time, on frame admission and on resume from pause.
#[derive(Clone, Copy, PartialEq, Eq, Structural, Debug)]
pub struct PlaybackTimer {
    pub last_accepted: u64,
}

/// A frame is due when at least the nominal duration has elapsed since the
/// last accepted frame; a stream without a known nominal duration is always
/// due. A `now` that lies before `last_accepted` (impossible on a monotonic
/// clock) is not due.
pub open spec fn is_due_spec(timer: PlaybackTimer, nominal_ms: Option<u64>, now: u64) -> bool {
    match nominal_ms {
        Option::None => true,
        Option::Some(d) => now >= timer.last_accepted && now - timer.last_accepted >= d,
    }
}

/// Pacer gate: should a new frame be pulled now?
pub fn is_due(timer: &PlaybackTimer, nominal_ms: Option<u64>, now: u64) -> (r: bool)
    ensures
        r == is_due_spec(*timer, nominal_ms, now),
{
    match nominal_ms {
        Option::None => true,
        Option::Some(d) => now >= timer.last_accepted && now - timer.last_accepted >= d,
    }
}

/// Once a frame is accepted at `accepted_at`, the stream is not due again
/// before a full nominal duration has elapsed: `is_due` fires at most once
/// per interval of length `d` since the last accepted frame.
pub proof fn lemma_due_once_per_interval(timer: PlaybackTimer, d: u64, now: u64)
    requires
        now < timer.last_accepted + d,
    ensures
        !is_due_spec(timer, Option::Some(d), now),
{
}

/// After an acceptance, the first sample at or past one nominal duration is
/// due again: together with `lemma_due_once_per_interval` this pins `is_due`
/// to exactly one firing per elapsed interval of length `d`.
pub proof fn lemma_due_after_interval(timer: PlaybackTimer, d: u64, now: u64)
    requires
        now >= timer.last_accepted,
        now - timer.last_accepted >= d,
    ensures
        is_due_spec(timer, Option::Some(d), now),
{
}

/// Nominal frame duration in milliseconds derived from a stream's frame-rate
/// rational `numerator / denominator` (frames per second):
/// `round(1000 * denominator / numerator)`, rounding half up.
pub open spec fn nominal_duration_spec(numerator: int, denominator: int) -> int {
    (1000 * denominator + numerator / 2) / numerator
}

/// Derives the nominal frame duration (ms) from the declared frame rate.
/// A non-positive numerator or denominator means the container reported no
/// usable frame rate: the stream then has no nominal duration and is paced
/// as always due rather than rejected.
pub fn nominal_duration_ms(numerator: i32, denominator: i32) -> (r: Option<u64>)
    ensures
        (numerator > 0 && denominator > 0) <==> r is Some,
        numerator > 0 && denominator > 0 ==> r == Option::Some(
            nominal_duration_spec(numerator as int, denominator as int) as u64,
        ),
{
    if numerator > 0 && denominator > 0 {
        let num = numerator as u64;
        let den = denominator as u64;
        let ms = (1000 * den + num / 2) / num;
        Option::Some(ms)
    } else {
        Option::None
    }
}

} // verus!
