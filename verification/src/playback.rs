//! The playback session manager: owns the single allowed active playback
//! session, starts, supersedes and stops sessions, and reports status.
//!
//! The audio device and the decoding run in the shell's playback context;
//! this state decides. `stop` is a fire-and-forget signal: the playback
//! context observes `stop_requested` through its bounded polling loop
//! (`poll_playback`) and releases the device on its own.

use vstd::prelude::*;
use crate::synth::SynthesisError;

verus! {

/// Why a play request failed.
#[derive(Debug, Clone, PartialEq, Eq)]
pub enum PlaybackError {
    /// The audio output device could not be claimed.
    DeviceUnavailable,
    /// The target file is absent or cannot be opened.
    FileUnreadable,
    /// The target file's bytes do not decode as audio.
    DecodeError,
    /// Regeneration inside `play` finished without leaving a complete file.
    GenerationIncomplete,
    /// Regeneration inside `play` itself failed.
    GenerationFailed { error: SynthesisError },
}

/// The one in-flight playback: idle, or playing the named slot file.
#[derive(Debug, Clone, PartialEq, Eq)]
pub enum SessionStatus {
    Idle,
    Playing { file: String },
}

/// Shared playback state: a single owned value behind the shell's lock, all
/// reads and writes going through the operations below.
#[derive(Debug, Clone, PartialEq, Eq)]
pub struct PlaybackState {
    pub status: SessionStatus,
    /// The cancellation signal the playback context polls.
    pub stop_requested: bool,
}

/// The state after `stop`: an active session is signalled and the status
/// turns `Idle` at once; stopping while already idle changes nothing.
pub open spec fn spec_stopped(s: PlaybackState) -> PlaybackState {
    if s.status is Idle {
        s
    } else {
        PlaybackState { status: SessionStatus::Idle, stop_requested: true }
    }
}

/// The state after a session for `file` claims the device: it is the one
/// active session and no stale stop signal is pending.
pub open spec fn spec_started(file: String) -> PlaybackState {
    PlaybackState { status: SessionStatus::Playing { file }, stop_requested: false }
}

/// The state after the playback context reports the session for `file`
/// finished: back to `Idle` only if that session is still the recorded
/// active one — a just-superseded session must not clobber a fresh one —
/// and the stop signal is consumed either way.
pub open spec fn spec_finished(s: PlaybackState, file: Seq<char>) -> PlaybackState {
    match s.status {
        SessionStatus::Playing { file: active } => if active@ == file {
            PlaybackState { status: SessionStatus::Idle, stop_requested: false }
        } else {
            PlaybackState { status: s.status, stop_requested: false }
        },
        SessionStatus::Idle => PlaybackState { status: s.status, stop_requested: false },
    }
}

impl PlaybackState {
    pub fn new() -> (r: PlaybackState)
        ensures
            r.status is Idle,
            !r.stop_requested,
    {
        PlaybackState { status: SessionStatus::Idle, stop_requested: false }
    }

    /// Signals the active session (if any) to halt and records `Idle` at
    /// once; the device handle is released by the playback context when it
    /// observes the signal. Always succeeds, and when already idle it is a
    /// no-op.
    pub fn stop(&mut self) -> (r: Result<(), PlaybackError>)
        ensures
            *final(self) == spec_stopped(*old(self)),
            r is Ok,
    {
        if self.is_audio_playing() {
            self.status = SessionStatus::Idle;
            self.stop_requested = true;
        }
        Ok(())
    }

    /// Claims the device for a new session. Requires the prior session to be
    /// fully neutralized: a claim only ever happens from `Idle`.
    pub fn begin_session(&mut self, file: String)
        requires
            old(self).status is Idle,
        ensures
            *final(self) == spec_started(file),
    {
        self.status = SessionStatus::Playing { file };
        self.stop_requested = false;
    }

    /// Starts playback of `file`, unconditionally stopping any prior session
    /// first so two sessions never hold the output device simultaneously.
    pub fn start_session(&mut self, file: String)
        ensures
            *final(self) == spec_started(file),
    {
        let _ = self.stop();
        self.begin_session(file);
    }

    /// The playback context's own transition when the audio for `file` ends,
    /// naturally or after a stop signal.
    pub fn finish_session(&mut self, file: &str)
        ensures
            *final(self) == spec_finished(*old(self), file@),
    {
        let is_active = match &self.status {
            SessionStatus::Playing { file: active } => active.eq(&String::from_str(file)),
            SessionStatus::Idle => false,
        };
        if is_active {
            self.status = SessionStatus::Idle;
        }
        self.stop_requested = false;
    }

    pub fn is_audio_playing(&self) -> (r: bool)
        ensures
            r == (self.status is Playing),
    {
        match &self.status {
            SessionStatus::Playing { .. } => true,
            SessionStatus::Idle => false,
        }
    }

    pub fn get_current_playing_file(&self) -> (r: Option<String>)
        ensures
            match self.status {
                SessionStatus::Playing { file } => r matches Some(f) && f@ == file@,
                SessionStatus::Idle => r is None,
            },
    {
        match &self.status {
            SessionStatus::Playing { file } => Some(file.clone()),
            SessionStatus::Idle => None,
        }
    }
}

/// At most one playback session is `Playing` at any instant, and a second
/// play fully supersedes the first: between the two claims the state passes
/// through `Idle` with the stop signal raised (the first session's device is
/// released before the second claims it), and afterwards the one active
/// session is the second's.
pub proof fn lemma_single_active_session(f1: String, f2: String)
    ensures
        spec_stopped(spec_started(f1)).status is Idle,
        spec_stopped(spec_started(f1)).stop_requested,
        spec_started(f2).status == (SessionStatus::Playing { file: f2 }),
        forall|f: String| (#[trigger] spec_started(f)).status == (SessionStatus::Playing {
            file: f,
        }),
{
}

/// What the playback context does on each turn of its bounded wait loop,
/// from what it sees of the sink and of the stop signal.
#[derive(Debug, Clone, Copy, PartialEq, Eq)]
pub enum PollAction {
    /// A stop was requested: halt the sink and release the device.
    StopSink,
    /// Audio still queued and no stop requested: sleep one short interval.
    KeepWaiting,
    /// The audio drained on its own: report natural completion.
    Finished,
}

pub fn poll_playback(sink_empty: bool, stop_requested: bool) -> (r: PollAction)
    ensures
        r == PollAction::StopSink <==> stop_requested,
        r == PollAction::KeepWaiting <==> !stop_requested && !sink_empty,
        r == PollAction::Finished <==> !stop_requested && sink_empty,
{
    if stop_requested {
        PollAction::StopSink
    } else if !sink_empty {
        PollAction::KeepWaiting
    } else {
        PollAction::Finished
    }
}

} // verus!
