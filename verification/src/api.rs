//! The inbound speech-request contract: the decisions behind
//! `POST /tts {text}`. The HTTP layer validates nothing itself: it opens an
//! `ApiFlow` with the request's text and performs what each state demands —
//! persist the new play-mode text, run the synthesis pipeline, probe the
//! slot file, start playback — feeding every outcome back until the flow
//! answers with the response to send.
//!
//! The readiness probing exists on this path because generation runs
//! detached from the request-handling context, so its completion must be
//! observed through the file itself.

use vstd::prelude::*;
use crate::playback::PlaybackError;
use crate::playback::PlaybackState;
use crate::playback::SessionStatus;
use crate::playback::spec_started;
use crate::probe::DEFAULT_PROBE_ATTEMPTS;
use crate::slot::FileProbe;
use crate::slot::file_ready;
use crate::slot::probe_ready;
use crate::synth::SynthesisError;

verus! {

/// The body of the JSON answer: one success message or one error message.
#[derive(Debug, Clone, Copy, PartialEq, Eq)]
pub enum ApiBody {
    /// 200: the text was processed and audio is playing.
    Success,
    /// 400: the request named no text.
    TextRequired,
    /// 500: persisting the new play-mode text failed.
    ConfigError,
    /// 500: the synthesis pipeline failed.
    GenerationFailed,
    /// 500: the generated file never became ready for playback.
    NotReady,
    /// 500: starting playback failed.
    PlaybackFailed,
}

impl ApiBody {
    /// The message the shell serializes into the JSON body.
    pub fn message(&self) -> (r: &'static str)
        ensures
            *self is Success ==> r@ == "Text processed and audio playing"@,
            *self is TextRequired ==> r@ == "Text is required"@,
            *self is ConfigError ==> r@ == "Failed to update config"@,
            *self is GenerationFailed ==> r@ == "Failed to generate audio"@,
            *self is NotReady ==> r@ == "Generated file not ready for playback after multiple attempts"@,
            *self is PlaybackFailed ==> r@ == "Failed to play audio"@,
    {
        match self {
            ApiBody::Success => "Text processed and audio playing",
            ApiBody::TextRequired => "Text is required",
            ApiBody::ConfigError => "Failed to update config",
            ApiBody::GenerationFailed => "Failed to generate audio",
            ApiBody::NotReady => "Generated file not ready for playback after multiple attempts",
            ApiBody::PlaybackFailed => "Failed to play audio",
        }
    }
}

/// The HTTP status each body is sent with: 200 on success, 400 for a
/// rejected request, 500 for every failure while serving it.
pub open spec fn spec_status_of(body: ApiBody) -> u16 {
    match body {
        ApiBody::Success => 200,
        ApiBody::TextRequired => 400,
        _ => 500,
    }
}

/// A finished answer: the status code and the body it carries.
#[derive(Debug, Clone, Copy, PartialEq, Eq)]
pub struct ApiResponse {
    pub status: u16,
    pub body: ApiBody,
}

impl ApiResponse {
    /// A response is coherent when its status is the one its body calls for.
    pub open spec fn wf(self) -> bool {
        self.status == spec_status_of(self.body)
    }

    pub fn of(body: ApiBody) -> (r: ApiResponse)
        ensures
            r.body == body,
            r.wf(),
    {
        let status: u16 = match body {
            ApiBody::Success => 200,
            ApiBody::TextRequired => 400,
            ApiBody::ConfigError => 500,
            ApiBody::GenerationFailed => 500,
            ApiBody::NotReady => 500,
            ApiBody::PlaybackFailed => 500,
        };
        ApiResponse { status, body }
    }
}

/// Where a speech request stands.
#[derive(Debug, PartialEq, Eq)]
pub enum ApiFlow {
    /// The play-mode text is being replaced with the request's text and
    /// persisted (without invalidating: generation follows at once).
    UpdatingText { text: String },
    /// The synthesis pipeline is regenerating the play-mode slot.
    Generating,
    /// Probing the play-mode slot file, `attempts_used` attempts done.
    Probing { attempts_used: usize },
    /// Starting playback of the play-mode slot.
    StartingPlayback,
    /// Finished: answer with `response`.
    Done { response: ApiResponse },
}

/// The first state: an empty text is rejected at once with 400 and nothing
/// else happens; otherwise the request starts by persisting the text.
pub open spec fn api_start_spec(text: Seq<char>, r: ApiFlow) -> bool {
    if text.len() == 0 {
        r == (ApiFlow::Done { response: ApiResponse { status: 400, body: ApiBody::TextRequired } })
    } else {
        r matches ApiFlow::UpdatingText { text: t } && t@ == text
    }
}

/// After persisting the configuration: on to generation, or 500.
pub open spec fn api_saved_spec(flow: ApiFlow, ok: bool, r: ApiFlow) -> bool {
    match flow {
        ApiFlow::UpdatingText { .. } => if ok {
            r == ApiFlow::Generating
        } else {
            r == (ApiFlow::Done {
                response: ApiResponse { status: 500, body: ApiBody::ConfigError },
            })
        },
        _ => false,
    }
}

/// After the synthesis pipeline: on to probing the slot file, or 500.
pub open spec fn api_generated_spec(
    flow: ApiFlow,
    outcome: Result<(), SynthesisError>,
    r: ApiFlow,
) -> bool {
    match flow {
        ApiFlow::Generating => match outcome {
            Ok(()) => r == (ApiFlow::Probing { attempts_used: 0 }),
            Err(_) => r == (ApiFlow::Done {
                response: ApiResponse { status: 500, body: ApiBody::GenerationFailed },
            }),
        },
        _ => false,
    }
}

/// After one probe of the slot file: a complete file moves on to playback;
/// an incomplete one retries until the bounded attempts run out, then 500.
pub open spec fn api_probe_spec(flow: ApiFlow, observed: FileProbe, r: ApiFlow) -> bool {
    match flow {
        ApiFlow::Probing { attempts_used } => if probe_ready(observed) {
            r == ApiFlow::StartingPlayback
        } else if attempts_used + 1 < DEFAULT_PROBE_ATTEMPTS {
            r == (ApiFlow::Probing { attempts_used: (attempts_used + 1) as usize })
        } else {
            r == (ApiFlow::Done { response: ApiResponse { status: 500, body: ApiBody::NotReady } })
        },
        _ => false,
    }
}

/// After starting playback: 200 with the success body, or 500.
pub open spec fn api_playback_spec(
    flow: ApiFlow,
    outcome: Result<(), PlaybackError>,
    r: ApiFlow,
) -> bool {
    match flow {
        ApiFlow::StartingPlayback => match outcome {
            Ok(()) => r == (ApiFlow::Done {
                response: ApiResponse { status: 200, body: ApiBody::Success },
            }),
            Err(_) => r == (ApiFlow::Done {
                response: ApiResponse { status: 500, body: ApiBody::PlaybackFailed },
            }),
        },
        _ => false,
    }
}

impl ApiFlow {
    /// Opens the flow for one `POST /tts` request carrying `text`.
    pub fn start(text: &str) -> (r: ApiFlow)
        ensures
            api_start_spec(text@, r),
    {
        if text.unicode_len() == 0 {
            ApiFlow::Done { response: ApiResponse::of(ApiBody::TextRequired) }
        } else {
            ApiFlow::UpdatingText { text: String::from_str(text) }
        }
    }

    /// Feeds back whether the new play-mode text was persisted.
    pub fn on_config_saved(self, ok: bool) -> (r: ApiFlow)
        requires
            self is UpdatingText,
        ensures
            api_saved_spec(self, ok, r),
    {
        if ok {
            ApiFlow::Generating
        } else {
            ApiFlow::Done { response: ApiResponse::of(ApiBody::ConfigError) }
        }
    }

    /// Feeds back the synthesis pipeline's outcome.
    pub fn on_generated(self, outcome: Result<(), SynthesisError>) -> (r: ApiFlow)
        requires
            self is Generating,
        ensures
            api_generated_spec(self, outcome, r),
    {
        match outcome {
            Ok(()) => ApiFlow::Probing { attempts_used: 0 },
            Err(_) => ApiFlow::Done { response: ApiResponse::of(ApiBody::GenerationFailed) },
        }
    }

    /// Feeds back one look at the play-mode slot file.
    pub fn on_probe(self, observed: &FileProbe) -> (r: ApiFlow)
        requires
            self matches ApiFlow::Probing { attempts_used } && attempts_used
                < DEFAULT_PROBE_ATTEMPTS,
        ensures
            api_probe_spec(self, *observed, r),
    {
        match self {
            ApiFlow::Probing { attempts_used } => if file_ready(observed) {
                ApiFlow::StartingPlayback
            } else if attempts_used + 1 < DEFAULT_PROBE_ATTEMPTS {
                ApiFlow::Probing { attempts_used: attempts_used + 1 }
            } else {
                ApiFlow::Done { response: ApiResponse::of(ApiBody::NotReady) }
            },
            _ => self,
        }
    }

    /// Feeds back the outcome of starting playback.
    pub fn on_playback(self, outcome: Result<(), PlaybackError>) -> (r: ApiFlow)
        requires
            self is StartingPlayback,
        ensures
            api_playback_spec(self, outcome, r),
    {
        match outcome {
            Ok(()) => ApiFlow::Done { response: ApiResponse::of(ApiBody::Success) },
            Err(_) => ApiFlow::Done { response: ApiResponse::of(ApiBody::PlaybackFailed) },
        }
    }
}

/// A request with empty text is answered `400` with the `Text is required`
/// body at once: the flow opens already `Done`, so no configuration change,
/// no generation and no playback is ever demanded for it.
pub proof fn lemma_empty_text_rejected_without_side_effects(text: Seq<char>, flow: ApiFlow)
    requires
        text.len() == 0,
        api_start_spec(text, flow),
    ensures
        flow == (ApiFlow::Done {
            response: ApiResponse { status: 400, body: ApiBody::TextRequired },
        }),
{
}

/// The success path end to end: for any non-empty text, when every step the
/// flow demands succeeds — the text persists, synthesis succeeds, a probe
/// sees a complete file, playback starts — the request is answered `200`
/// with the success body, and the playback state the claim left behind has
/// exactly the play-mode slot's session `Playing`.
pub proof fn lemma_success_path_plays_play_mode_slot(
    text: Seq<char>,
    f0: ApiFlow,
    f1: ApiFlow,
    f2: ApiFlow,
    f3: ApiFlow,
    f4: ApiFlow,
    observed: FileProbe,
    claimed: PlaybackState,
    file: String,
)
    requires
        text.len() > 0,
        api_start_spec(text, f0),
        api_saved_spec(f0, true, f1),
        api_generated_spec(f1, Ok(()), f2),
        api_probe_spec(f2, observed, f3),
        probe_ready(observed),
        api_playback_spec(f3, Ok(()), f4),
        file@ == "play_mode_audio"@,
        claimed == spec_started(file),
    ensures
        f4 == (ApiFlow::Done { response: ApiResponse { status: 200, body: ApiBody::Success } }),
        claimed.status matches SessionStatus::Playing { file: f } && f@ == "play_mode_audio"@,
{
}

} // verus!
