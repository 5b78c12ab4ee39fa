//! The play-request flow: the decisions a play request walks through, from
//! resolving the slot to claiming the audio device. The shell performs each
//! demanded action (synthesize, look at the file, open the device) and feeds
//! the outcome back; the flow decides what comes next.
//!
//! A request that must regenerate the play-mode slot passes `Generating`;
//! every request passes `Confirming`, and only a complete (existing,
//! non-empty) file lets it reach `Starting` — no reader ever opens a file
//! mid-write.

use vstd::prelude::*;
use crate::config::TtsConfig;
use crate::playback::PlaybackError;
use crate::slot::FileProbe;
use crate::slot::Slot;
use crate::slot::check_audio_file_exists;
use crate::slot::file_ready;
use crate::slot::probe_ready;
use crate::synth::SynthesisError;

verus! {

/// Where a play request stands. Each waiting state names the slot file the
/// request is about.
#[derive(Debug, PartialEq, Eq)]
pub enum PlayFlow {
    /// The play-mode slot must be regenerated; awaiting the synthesis
    /// pipeline's outcome.
    Generating { file: String },
    /// Awaiting one look at the slot file to confirm it is complete.
    /// `generated` records whether this request regenerated it first.
    Confirming { file: String, generated: bool },
    /// The file is confirmed: stop the prior session and claim the device.
    Starting { file: String },
    /// Finished; `Ok` carries the name of the slot now playing.
    Done { result: Result<String, PlaybackError> },
}

/// The slot name a play request for `name` targets: in play mode always the
/// play-mode slot, otherwise the named slot with an empty name standing for
/// the default slot.
pub open spec fn play_target_name(name: Seq<char>, play_mode: bool) -> Seq<char> {
    if play_mode {
        "play_mode_audio"@
    } else if name.len() == 0 {
        "output"@
    } else {
        name
    }
}

/// The first state of a play request: regeneration is demanded exactly when
/// play mode is active and the resolved slot's file is absent; otherwise the
/// request goes straight to confirming the file.
pub open spec fn play_start_spec(
    name: Seq<char>,
    play_mode: bool,
    exists: bool,
    r: PlayFlow,
) -> bool {
    if play_mode && !exists {
        r matches PlayFlow::Generating { file } && file@ == play_target_name(name, play_mode)
    } else {
        r matches PlayFlow::Confirming { file, generated } && file@ == play_target_name(
            name,
            play_mode,
        ) && !generated
    }
}

/// After the synthesis outcome: success moves on to confirming the freshly
/// written file; failure ends the request with the synthesis error.
pub open spec fn play_generated_spec(
    flow: PlayFlow,
    outcome: Result<(), SynthesisError>,
    r: PlayFlow,
) -> bool {
    match flow {
        PlayFlow::Generating { file } => match outcome {
            Ok(()) => r matches PlayFlow::Confirming { file: f, generated } && f == file
                && generated,
            Err(e) => r == (PlayFlow::Done {
                result: Err(PlaybackError::GenerationFailed { error: e }),
            }),
        },
        _ => false,
    }
}

/// After the confirming look: a complete file lets the request claim the
/// device; an absent or empty file ends it — with `GenerationIncomplete`
/// when this request had just regenerated, and `FileUnreadable` otherwise.
pub open spec fn play_probe_spec(flow: PlayFlow, observed: FileProbe, r: PlayFlow) -> bool {
    match flow {
        PlayFlow::Confirming { file, generated } => if probe_ready(observed) {
            r matches PlayFlow::Starting { file: f } && f == file
        } else if generated {
            r == (PlayFlow::Done { result: Err(PlaybackError::GenerationIncomplete) })
        } else {
            r == (PlayFlow::Done { result: Err(PlaybackError::FileUnreadable) })
        },
        _ => false,
    }
}

/// After the claim: the session manager recorded the new session and the
/// playback context reported whether it started.
pub open spec fn play_claim_spec(
    flow: PlayFlow,
    outcome: Result<(), PlaybackError>,
    r: PlayFlow,
) -> bool {
    match flow {
        PlayFlow::Starting { file } => match outcome {
            Ok(()) => r matches PlayFlow::Done { result } && result matches Ok(f) && f == file,
            Err(e) => r == (PlayFlow::Done { result: Err(e) }),
        },
        _ => false,
    }
}

impl PlayFlow {
    /// Opens a play request for slot `name` under the given configuration,
    /// from what the file system currently shows for the resolved slot's
    /// file.
    pub fn start(name: &str, config: &TtsConfig, observed: &FileProbe) -> (r: PlayFlow)
        ensures
            play_start_spec(name@, config.play_mode, observed.exists, r),
    {
        let slot = Slot::resolve_play_slot(name, config.play_mode);
        let file = slot.name();
        if config.play_mode && !check_audio_file_exists(observed) {
            PlayFlow::Generating { file }
        } else {
            PlayFlow::Confirming { file, generated: false }
        }
    }

    /// Feeds back the synthesis pipeline's outcome.
    pub fn on_generated(self, outcome: Result<(), SynthesisError>) -> (r: PlayFlow)
        requires
            self is Generating,
        ensures
            play_generated_spec(self, outcome, r),
    {
        match self {
            PlayFlow::Generating { file } => match outcome {
                Ok(()) => PlayFlow::Confirming { file, generated: true },
                Err(e) => PlayFlow::Done {
                    result: Err(PlaybackError::GenerationFailed { error: e }),
                },
            },
            _ => self,
        }
    }

    /// Feeds back the confirming look at the slot file.
    pub fn on_probe(self, observed: &FileProbe) -> (r: PlayFlow)
        requires
            self is Confirming,
        ensures
            play_probe_spec(self, *observed, r),
    {
        match self {
            PlayFlow::Confirming { file, generated } => if file_ready(observed) {
                PlayFlow::Starting { file }
            } else if generated {
                PlayFlow::Done { result: Err(PlaybackError::GenerationIncomplete) }
            } else {
                PlayFlow::Done { result: Err(PlaybackError::FileUnreadable) }
            },
            _ => self,
        }
    }

    /// Feeds back the device claim's outcome.
    pub fn on_claim(self, outcome: Result<(), PlaybackError>) -> (r: PlayFlow)
        requires
            self is Starting,
        ensures
            play_claim_spec(self, outcome, r),
    {
        match self {
            PlayFlow::Starting { file } => match outcome {
                Ok(()) => PlayFlow::Done { result: Ok(file) },
                Err(e) => PlayFlow::Done { result: Err(e) },
            },
            _ => self,
        }
    }
}

/// A play request reaches the device claim only through a confirming look
/// that saw a complete file: whatever the path taken, the file exists with
/// non-zero length before playback starts.
pub proof fn lemma_play_claims_only_complete_files(
    flow: PlayFlow,
    observed: FileProbe,
    next: PlayFlow,
)
    requires
        play_probe_spec(flow, observed, next),
        next is Starting,
    ensures
        probe_ready(observed),
        observed.exists,
        observed.size > 0,
{
}

/// A configuration mutation that invalidated the play-mode cache forces the
/// next play request in play mode to regenerate: with the slot file absent,
/// the request opens in `Generating` for the play-mode slot, and by
/// `lemma_play_claims_only_complete_files` it produces a complete file
/// before any playback starts.
pub proof fn lemma_invalidated_slot_forces_regeneration(name: Seq<char>, flow: PlayFlow)
    requires
        play_start_spec(name, true, false, flow),
    ensures
        flow matches PlayFlow::Generating { file } && file@ == "play_mode_audio"@,
{
}

} // verus!
