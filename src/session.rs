//! One playback session's outbound events: the track duration once at the
//! start, then a spectrum frame and possibly a progress position for every
//! analysis window.

use vstd::prelude::*;
use crate::progress::{ProgressReporter, ReporterView, reporter_step, reporter_output};
use crate::spectrum::{bars_of, reduce_bars};

verus! {

/// The kinds of event a session publishes.
pub enum EventKind {
    TrackDuration,
    SpectrumUpdate,
    PlaybackProgress,
}

/// What the decoder reports of a track before any sample is pulled.
pub struct TrackInfo {
    pub sample_rate: u32,
    pub channels: u16,
    /// Length of the whole track in microseconds, where the format tells it.
    pub duration_us: Option<u64>,
}

/// The events due after one analysis window.
pub struct WindowEvents<T> {
    /// The spectrum frame, where the window could be analysed.
    pub spectrum: Option<Vec<T>>,
    /// The playback position in microseconds, where one is due.
    pub progress_us: Option<u64>,
}

/// Number of events of kind `kind` in `log`.
pub open spec fn count_of(log: Seq<EventKind>, kind: EventKind) -> nat
    decreases log.len(),
{
    if log.len() == 0 {
        0
    } else {
        count_of(log.drop_last(), kind) + if log.last() == kind {
            1nat
        } else {
            0nat
        }
    }
}

proof fn count_of_push(log: Seq<EventKind>, e: EventKind, kind: EventKind)
    ensures
        count_of(log.push(e), kind) == count_of(log, kind) + if e == kind {
            1nat
        } else {
            0nat
        },
{
    assert(log.push(e).drop_last() =~= log);
}

/// The events a session opens with: the duration, where it is known.
pub open spec fn opening_events(duration_us: Option<u64>) -> Seq<EventKind> {
    if duration_us is Some {
        seq![EventKind::TrackDuration]
    } else {
        Seq::empty()
    }
}

/// The events published for one window, in order.
pub open spec fn window_log<T>(r: WindowEvents<T>) -> Seq<EventKind> {
    (if r.spectrum is Some {
        seq![EventKind::SpectrumUpdate]
    } else {
        Seq::empty()
    }) + (if r.progress_us is Some {
        seq![EventKind::PlaybackProgress]
    } else {
        Seq::empty()
    })
}

/// The analysis side of one playback session.
pub struct Session {
    reporter: ProgressReporter,
    duration_us: Option<u64>,
    windows: Ghost<nat>,
    log: Ghost<Seq<EventKind>>,
}

impl Session {
    /// The progress count of the session.
    pub closed spec fn reporter(&self) -> ReporterView {
        self.reporter@
    }

    /// The duration the session was opened with.
    pub closed spec fn duration_us(&self) -> Option<u64> {
        self.duration_us
    }

    /// Number of windows received so far.
    pub closed spec fn windows_received(&self) -> nat {
        self.windows@
    }

    /// Every event published so far, in order.
    pub closed spec fn log(&self) -> Seq<EventKind> {
        self.log@
    }

    /// The duration comes first, where it is known, and never again; each
    /// spectrum frame stands for a window received.
    pub open spec fn wf(&self) -> bool {
        &&& (self.duration_us() is Some <==> (self.log().len() > 0 && self.log()[0]
            == EventKind::TrackDuration))
        &&& forall|i: int|
            0 < i < self.log().len() ==> self.log()[i] != EventKind::TrackDuration
        &&& count_of(self.log(), EventKind::SpectrumUpdate) <= self.windows_received()
    }

    /// Opens the session of a track whose playback starts `offset_us` into
    /// it. Returns the session and the duration to publish first: that of the
    /// whole track, whatever the offset.
    pub fn start(info: &TrackInfo, offset_us: u64) -> (r: (Session, Option<u64>))
        ensures
            r.0.wf(),
            r.1 == info.duration_us,
            r.0.duration_us() == info.duration_us,
            r.0.log() == opening_events(info.duration_us),
            r.0.windows_received() == 0,
            r.0.reporter() == (ReporterView {
                offset_us: offset_us as nat,
                samples_per_second: (info.sample_rate * info.channels) as nat,
                processed: 0,
                last_publish_ms: 0,
            }),
    {
        let reporter = ProgressReporter::new(info.sample_rate, info.channels, offset_us);
        let session = Session {
            reporter,
            duration_us: info.duration_us,
            windows: Ghost(0),
            log: Ghost(opening_events(info.duration_us)),
        };
        proof {
            let log = opening_events(info.duration_us);
            if info.duration_us is Some {
                assert(count_of(log, EventKind::SpectrumUpdate) == 0) by {
                    assert(log.drop_last() =~= Seq::<EventKind>::empty());
                    assert(log.last() == EventKind::TrackDuration);
                    assert(count_of(Seq::<EventKind>::empty(), EventKind::SpectrumUpdate) == 0);
                }
            }
        }
        (session, info.duration_us)
    }

    /// Handles one window of `window_len` samples received when the clock
    /// reads `now_ms`. `bins` holds the window's in-range magnitudes, or
    /// `None` where the analysis failed; such a window publishes no frame.
    pub fn on_window<T>(&mut self, window_len: u64, bins: Option<Vec<T>>, now_ms: u64) -> (r:
        WindowEvents<T>)
        requires
            old(self).wf(),
        ensures
            final(self).wf(),
            final(self).duration_us() == old(self).duration_us(),
            final(self).windows_received() == old(self).windows_received() + 1,
            final(self).reporter() == reporter_step(
                old(self).reporter(),
                window_len as nat,
                now_ms as nat,
            ),
            bins is None ==> r.spectrum is None,
            bins matches Some(b) ==> (r.spectrum matches Some(s) && s@ == bars_of(b@)),
            r.progress_us is Some <==> reporter_output(
                old(self).reporter(),
                window_len as nat,
                now_ms as nat,
            ) is Some,
            r.progress_us matches Some(p) ==> reporter_output(
                old(self).reporter(),
                window_len as nat,
                now_ms as nat,
            ) == Some(p as nat),
            final(self).log() == old(self).log() + window_log(r),
    {
        let spectrum = match bins {
            Some(b) => Some(reduce_bars(b)),
            None => None,
        };
        let progress_us = self.reporter.on_window(window_len, now_ms);
        let r = WindowEvents { spectrum, progress_us };
        proof {
            let old_log = self.log@;
            let new_log = old_log + window_log(r);
            let k = EventKind::SpectrumUpdate;
            if r.spectrum is Some {
                count_of_push(old_log, EventKind::SpectrumUpdate, k);
                if r.progress_us is Some {
                    count_of_push(old_log.push(EventKind::SpectrumUpdate), EventKind::PlaybackProgress, k);
                    assert(new_log =~= old_log.push(EventKind::SpectrumUpdate).push(EventKind::PlaybackProgress));
                } else {
                    assert(new_log =~= old_log.push(EventKind::SpectrumUpdate));
                }
            } else {
                if r.progress_us is Some {
                    count_of_push(old_log, EventKind::PlaybackProgress, k);
                    assert(new_log =~= old_log.push(EventKind::PlaybackProgress));
                } else {
                    assert(new_log =~= old_log);
                }
            }
            assert(forall|i: int| old_log.len() <= i < new_log.len() ==> new_log[i] != EventKind::TrackDuration);
            self.log = Ghost(new_log);
            self.windows = Ghost(self.windows@ + 1);
        }
        r
    }
}

/// A session of a track whose duration is known publishes exactly one
/// duration event, and it comes before any spectrum frame or position.
pub proof fn duration_is_published_first_and_once(s: &Session)
    requires
        s.wf(),
        s.duration_us() is Some,
    ensures
        s.log().len() > 0,
        s.log()[0] == EventKind::TrackDuration,
        forall|i: int| 0 < i < s.log().len() ==> s.log()[i] != EventKind::TrackDuration,
{
}

/// A session that receives no window publishes no spectrum frame.
pub proof fn no_window_no_frame(s: &Session)
    requires
        s.wf(),
        s.windows_received() == 0,
    ensures
        count_of(s.log(), EventKind::SpectrumUpdate) == 0,
{
}

} // verus!
