//! The progress feed: counts the samples that reached the analysis path and
//! turns the count into an elapsed playback position, published at a
//! throttled rate.

use vstd::prelude::*;

verus! {

/// Least wall-clock time, in milliseconds, between two published positions.
pub const THROTTLE_MS: u64 = 250;

/// Microseconds in one second.
pub const MICROS_PER_SECOND: u64 = 1_000_000;

/// Playback position, in microseconds, after `processed` interleaved samples
/// at `samples_per_second`, for a session that started at `offset_us`.
pub open spec fn position_us(offset_us: nat, processed: nat, samples_per_second: nat) -> nat
    recommends
        samples_per_second > 0,
{
    offset_us + processed * (MICROS_PER_SECOND as nat) / samples_per_second
}

/// `x`, or the largest `u64` where `x` does not fit.
pub open spec fn clamp_u64(x: nat) -> nat {
    if x > u64::MAX {
        u64::MAX as nat
    } else {
        x
    }
}

/// Whether a publication is due at `now_ms` after one at `last_ms`.
pub open spec fn throttle_elapsed(last_ms: nat, now_ms: nat) -> bool {
    now_ms >= last_ms + THROTTLE_MS
}

/// The state of a reporter, in plain numbers.
pub ghost struct ReporterView {
    /// Position, in microseconds, at which the session started.
    pub offset_us: nat,
    /// Interleaved samples per second of playback: rate times channels.
    pub samples_per_second: nat,
    /// Samples counted so far.
    pub processed: nat,
    /// Clock reading, in milliseconds, of the last publication (or of the
    /// start).
    pub last_publish_ms: nat,
}

/// The reporter after counting a window of `window_len` samples at `now_ms`.
pub open spec fn reporter_step(v: ReporterView, window_len: nat, now_ms: nat) -> ReporterView {
    ReporterView {
        processed: clamp_u64(v.processed + window_len),
        last_publish_ms: if throttle_elapsed(v.last_publish_ms, now_ms) {
            now_ms
        } else {
            v.last_publish_ms
        },
        ..v
    }
}

/// The position published on counting a window of `window_len` samples at
/// `now_ms`, if one is due.
pub open spec fn reporter_output(v: ReporterView, window_len: nat, now_ms: nat) -> Option<nat> {
    if throttle_elapsed(v.last_publish_ms, now_ms) && v.samples_per_second > 0 {
        Some(
            clamp_u64(
                position_us(v.offset_us, clamp_u64(v.processed + window_len), v.samples_per_second),
            ),
        )
    } else {
        None
    }
}

/// Running sample count of one playback session.
pub struct ProgressReporter {
    offset_us: u64,
    samples_per_second: u64,
    processed: u64,
    last_publish_ms: u64,
}

impl View for ProgressReporter {
    type V = ReporterView;

    closed spec fn view(&self) -> ReporterView {
        ReporterView {
            offset_us: self.offset_us as nat,
            samples_per_second: self.samples_per_second as nat,
            processed: self.processed as nat,
            last_publish_ms: self.last_publish_ms as nat,
        }
    }
}

impl ProgressReporter {
    /// A reporter for a session that starts `offset_us` into the track, with
    /// the clock reading 0 at its start.
    pub fn new(sample_rate: u32, channels: u16, offset_us: u64) -> (r: ProgressReporter)
        ensures
            r@ == (ReporterView {
                offset_us: offset_us as nat,
                samples_per_second: (sample_rate * channels) as nat,
                processed: 0,
                last_publish_ms: 0,
            }),
    {
        assert(sample_rate as u64 * channels as u64 <= u32::MAX as u64 * u16::MAX as u64)
            by (nonlinear_arith);
        ProgressReporter {
            offset_us,
            samples_per_second: sample_rate as u64 * channels as u64,
            processed: 0,
            last_publish_ms: 0,
        }
    }

    /// The current position in microseconds, `offset + processed / rate`.
    pub fn position(&self) -> (r: u64)
        requires
            self@.samples_per_second > 0,
        ensures
            r == clamp_u64(position_us(self@.offset_us, self@.processed, self@.samples_per_second)),
    {
        assert(self.processed as u128 * MICROS_PER_SECOND as u128 <= u64::MAX as u128
            * 1_000_000u128) by (nonlinear_arith);
        let scaled: u128 = self.processed as u128 * MICROS_PER_SECOND as u128;
        let elapsed: u128 = scaled / self.samples_per_second as u128;
        assert(elapsed <= scaled) by (nonlinear_arith)
            requires
                elapsed == scaled / (self.samples_per_second as u128),
                self.samples_per_second > 0,
        ;
        let total: u128 = self.offset_us as u128 + elapsed;
        if total > u64::MAX as u128 {
            u64::MAX
        } else {
            total as u64
        }
    }

    /// Counts one window of `window_len` samples received when the clock
    /// reads `now_ms`. Returns the position to publish, if one is due: at
    /// least `THROTTLE_MS` since the last publication, and a known rate.
    pub fn on_window(&mut self, window_len: u64, now_ms: u64) -> (r: Option<u64>)
        ensures
            final(self)@ == reporter_step(old(self)@, window_len as nat, now_ms as nat),
            r is Some <==> reporter_output(old(self)@, window_len as nat, now_ms as nat) is Some,
            r matches Some(p) ==> reporter_output(old(self)@, window_len as nat, now_ms as nat)
                == Some(p as nat),
    {
        self.processed = self.processed.saturating_add(window_len);
        let since = now_ms.saturating_sub(self.last_publish_ms);
        if since >= THROTTLE_MS {
            self.last_publish_ms = now_ms;
            if self.samples_per_second > 0 {
                Some(self.position())
            } else {
                None
            }
        } else {
            None
        }
    }
}

/// Progress after a seek starts from the seek position: whatever the
/// reporter has counted, the position it reports is the offset it was made
/// with plus the playback time of the counted samples, and never less than
/// that offset.
pub proof fn position_starts_at_offset(offset_us: nat, processed: nat, samples_per_second: nat)
    requires
        samples_per_second > 0,
    ensures
        position_us(offset_us, processed, samples_per_second) >= offset_us,
        position_us(offset_us, 0, samples_per_second) == offset_us,
{
    assert(processed * (MICROS_PER_SECOND as nat) / samples_per_second >= 0) by (nonlinear_arith)
        requires
            samples_per_second > 0,
    ;
}

/// Playback time of one throttle interval, in microseconds.
pub open spec fn throttle_us() -> nat {
    (THROTTLE_MS as nat) * 1000
}

/// After a seek, the position published while the samples counted so far
/// amount to less than one throttle interval of playback (the stream has not
/// run ahead of the wall clock) lies within one interval, plus the window
/// being counted, of the seek position.
pub proof fn position_after_seek_is_near_it(v: ReporterView, window_len: nat, now_ms: nat)
    requires
        v.samples_per_second > 0,
        v.offset_us <= u64::MAX,
        v.processed * 1000 < (THROTTLE_MS as nat) * v.samples_per_second,
    ensures
        reporter_output(v, window_len, now_ms) matches Some(p) ==> v.offset_us <= p && p
            <= v.offset_us + throttle_us() + window_len * (MICROS_PER_SECOND as nat)
            / v.samples_per_second + 1,
{
    let d = v.samples_per_second;
    let m = MICROS_PER_SECOND as nat;
    let a = v.processed;
    let b = window_len;
    let n = clamp_u64(a + b);
    assert(n <= a + b);
    assert(n * m / d <= (a + b) * m / d) by (nonlinear_arith)
        requires
            n <= a + b,
            d > 0,
    ;
    assert((a + b) * m / d <= a * m / d + b * m / d + 1) by (nonlinear_arith)
        requires
            d > 0,
    ;
    assert(a * m / d < throttle_us()) by (nonlinear_arith)
        requires
            a * 1000 < 250 * d,
            m == 1_000_000,
            d > 0,
    ;
    position_starts_at_offset(v.offset_us, n, d);
}

} // verus!
