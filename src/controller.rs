//! The playback controller: the command surface of the engine, as a state
//! machine. Opening a file and driving the output device happen outside;
//! the controller decides what to open, what to tell the live sink, and
//! which session is current.

use vstd::prelude::*;

verus! {

/// Lifecycle of the current session.
#[derive(PartialEq, Eq, Structural, Clone, Copy, Debug)]
pub enum Phase {
    /// No track loaded.
    Idle,
    /// A session is bound to the sink and plays (or has run out of samples).
    Playing,
    /// A session is bound to the sink and is held.
    Paused,
}

/// Why a load or a seek failed.
#[derive(Debug)]
pub enum PlaybackError {
    /// The file could not be opened or read.
    Io(String),
    /// The file is not in a format the decoder knows, or is corrupt.
    Decode(String),
    /// The output device refused a new playback queue.
    Device(String),
}

/// The text carried by an error.
pub open spec fn error_text(e: &PlaybackError) -> Seq<char> {
    match e {
        PlaybackError::Io(m) => m@,
        PlaybackError::Decode(m) => m@,
        PlaybackError::Device(m) => m@,
    }
}

impl PlaybackError {
    /// A readable description of the failure.
    pub fn message(&self) -> (r: String)
        ensures
            r@ == error_text(self),
    {
        match self {
            PlaybackError::Io(m) => m.clone(),
            PlaybackError::Decode(m) => m.clone(),
            PlaybackError::Device(m) => m.clone(),
        }
    }
}

/// A file to open and the position, in microseconds, to start playing it
/// from.
pub struct OpenRequest {
    pub path: String,
    pub offset_us: u64,
}

/// What to do to the live sink.
#[derive(PartialEq, Eq, Structural, Clone, Copy, Debug)]
pub enum SinkAction {
    Nothing,
    Pause,
    Play,
}

/// The controller's state in plain values.
pub ghost struct ControllerView {
    /// Whether an output device was acquired at start.
    pub device_available: bool,
    pub phase: Phase,
    /// File of the current session.
    pub path: Option<Seq<char>>,
    /// Position, in microseconds, the current session started from.
    pub offset_us: nat,
    /// Number of sessions opened so far, modulo 2^64.
    pub generation: nat,
}

/// The controller after a session for `path` from `offset_us` was opened.
pub open spec fn after_open(v: ControllerView, path: Seq<char>, offset_us: nat) -> ControllerView {
    ControllerView {
        phase: Phase::Playing,
        path: Some(path),
        offset_us,
        generation: if v.generation < u64::MAX {
            v.generation + 1
        } else {
            0
        },
        ..v
    }
}

/// The controller after `pause`.
pub open spec fn after_pause(v: ControllerView) -> ControllerView {
    if v.phase == Phase::Idle {
        v
    } else {
        ControllerView { phase: Phase::Paused, ..v }
    }
}

/// The controller after `resume`.
pub open spec fn after_resume(v: ControllerView) -> ControllerView {
    if v.phase == Phase::Idle {
        v
    } else {
        ControllerView { phase: Phase::Playing, ..v }
    }
}

/// What `pause` tells the sink.
pub open spec fn pause_action(v: ControllerView) -> SinkAction {
    if v.phase == Phase::Idle {
        SinkAction::Nothing
    } else {
        SinkAction::Pause
    }
}

/// What `resume` tells the sink.
pub open spec fn resume_action(v: ControllerView) -> SinkAction {
    if v.phase == Phase::Idle {
        SinkAction::Nothing
    } else {
        SinkAction::Play
    }
}

/// The command surface of the engine.
pub struct Controller {
    device_available: bool,
    phase: Phase,
    current_path: Option<String>,
    offset_us: u64,
    generation: u64,
}

impl View for Controller {
    type V = ControllerView;

    closed spec fn view(&self) -> ControllerView {
        ControllerView {
            device_available: self.device_available,
            phase: self.phase,
            path: match self.current_path {
                Some(p) => Some(p@),
                None => None,
            },
            offset_us: self.offset_us as nat,
            generation: self.generation as nat,
        }
    }
}

impl Controller {
    /// A session is current exactly when a track is loaded.
    pub open spec fn wf(&self) -> bool {
        (self@.phase == Phase::Idle) == (self@.path is None)
    }

    /// An idle controller. Without an output device every command succeeds
    /// and does nothing.
    pub fn new(device_available: bool) -> (r: Controller)
        ensures
            r.wf(),
            r@ == (ControllerView {
                device_available,
                phase: Phase::Idle,
                path: None,
                offset_us: 0,
                generation: 0,
            }),
    {
        Controller { device_available, phase: Phase::Idle, current_path: None, offset_us: 0, generation: 0 }
    }

    /// Lifecycle of the current session.
    pub fn phase(&self) -> (r: Phase)
        ensures
            r == self@.phase,
    {
        self.phase
    }

    /// File of the current session, if any.
    pub fn current_path(&self) -> (r: Option<String>)
        ensures
            match r {
                Some(p) => self@.path == Some(p@),
                None => self@.path is None,
            },
    {
        match &self.current_path {
            Some(p) => Some(p.clone()),
            None => None,
        }
    }

    /// Position, in microseconds, the current session started from.
    pub fn offset_us(&self) -> (r: u64)
        ensures
            r == self@.offset_us,
    {
        self.offset_us
    }

    /// Number of sessions opened so far (modulo 2^64): a session's number
    /// tells whether it is still the current one.
    pub fn generation(&self) -> (r: u64)
        ensures
            r == self@.generation,
    {
        self.generation
    }

    /// What to open for `load(path)`: the file from its start, or nothing
    /// where there is no output device.
    pub fn request_load(&self, path: String) -> (r: Option<OpenRequest>)
        ensures
            r is Some <==> self@.device_available,
            r matches Some(q) ==> q.path@ == path@ && q.offset_us == 0,
    {
        if self.device_available {
            Some(OpenRequest { path, offset_us: 0 })
        } else {
            None
        }
    }

    /// What to open for `seek(offset_us)`: the current file again, from the
    /// new position. Nothing where no track is loaded or there is no device.
    pub fn request_seek(&self, offset_us: u64) -> (r: Option<OpenRequest>)
        ensures
            r is Some <==> (self@.device_available && self@.path is Some),
            r matches Some(q) ==> Some(q.path@) == self@.path && q.offset_us == offset_us,
    {
        if !self.device_available {
            return None;
        }
        match &self.current_path {
            Some(p) => Some(OpenRequest { path: p.clone(), offset_us }),
            None => None,
        }
    }

    /// Takes the outcome of opening `request`. On success the opened session
    /// replaces the current one and plays; on failure the current session is
    /// left as it was and the failure is returned.
    pub fn complete_open(&mut self, request: OpenRequest, outcome: Result<(), PlaybackError>) -> (r:
        Result<(), PlaybackError>)
        requires
            old(self).wf(),
        ensures
            final(self).wf(),
            outcome is Ok ==> r is Ok && final(self)@ == after_open(
                old(self)@,
                request.path@,
                request.offset_us as nat,
            ),
            outcome is Err ==> final(self)@ == old(self)@ && r == outcome,
    {
        match outcome {
            Ok(()) => {
                self.current_path = Some(request.path);
                self.offset_us = request.offset_us;
                self.phase = Phase::Playing;
                self.generation = self.generation.wrapping_add(1);
                Ok(())
            },
            Err(e) => Err(e),
        }
    }

    /// `pause()`: holds the current session. Does nothing when idle.
    pub fn pause(&mut self) -> (r: SinkAction)
        requires
            old(self).wf(),
        ensures
            final(self).wf(),
            final(self)@ == after_pause(old(self)@),
            r == pause_action(old(self)@),
    {
        if self.phase == Phase::Idle {
            SinkAction::Nothing
        } else {
            self.phase = Phase::Paused;
            SinkAction::Pause
        }
    }

    /// `resume()`: plays the current session on. Does nothing when idle.
    pub fn resume(&mut self) -> (r: SinkAction)
        requires
            old(self).wf(),
        ensures
            final(self).wf(),
            final(self)@ == after_resume(old(self)@),
            r == resume_action(old(self)@),
    {
        if self.phase == Phase::Idle {
            SinkAction::Nothing
        } else {
            self.phase = Phase::Playing;
            SinkAction::Play
        }
    }

    /// Whether `set_volume` reaches a sink: whenever a device was acquired,
    /// whatever the phase.
    pub fn applies_volume(&self) -> (r: bool)
        ensures
            r == self@.device_available,
    {
        self.device_available
    }
}

/// Pausing and then resuming a playing session gives back the very same
/// session: neither command reopens the file, so playback goes on at the
/// sample where it was held.
pub proof fn pause_then_resume_keeps_session(v: ControllerView)
    requires
        v.phase == Phase::Playing,
    ensures
        after_resume(after_pause(v)) == v,
        pause_action(v) == SinkAction::Pause,
        resume_action(after_pause(v)) == SinkAction::Play,
{
}

/// Pausing twice is pausing once: same state, same action on the sink, and
/// no failure either time.
pub proof fn pause_is_idempotent(v: ControllerView)
    ensures
        after_pause(after_pause(v)) == after_pause(v),
        pause_action(after_pause(v)) == pause_action(v),
{
}

} // verus!
