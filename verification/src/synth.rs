//! The synthesis pipeline's planning side: validates a synthesis request,
//! maps the normalized parameter ranges onto the external service's native
//! numeric ranges, and names the slot file the audio bytes must land in.
//!
//! The network call itself and the disk write are performed by the shell,
//! which reports their outcome back as a `Result`.

use vstd::prelude::*;
use crate::config::TtsConfig;
use crate::slot::Slot;
use crate::slot::spec_audio_file_path;

verus! {

/// Why a synthesis request could not be served.
#[derive(Debug, Clone, PartialEq, Eq)]
pub enum SynthesisError {
    /// The request named no text; callers must reject empty text.
    EmptyText,
    /// The voice does not resolve to an identifier of the external catalog.
    VoiceNotFound,
    /// The external synthesis service failed or was unreachable.
    TransportError,
    /// Writing the synthesized bytes to the slot file failed.
    IoError,
}

/// Pitch scaling: the normalized 0..=200 hundredths (0.0 through 2.0) map
/// linearly onto the service's -50..=50, with 100 (the neutral 1.0) at 0.
pub open spec fn spec_scale_pitch(pitch: u32) -> int {
    pitch as int / 2 - 50
}

/// Rate scaling: 0..=200 hundredths map linearly onto -100..=100.
pub open spec fn spec_scale_rate(rate: u32) -> int {
    rate as int - 100
}

/// Volume scaling: 0..=100 hundredths map linearly onto 0..=100.
pub open spec fn spec_scale_volume(volume: u32) -> int {
    volume as int
}

pub fn scale_pitch(pitch: u32) -> (r: i32)
    requires
        pitch <= 200,
    ensures
        r == spec_scale_pitch(pitch),
{
    (pitch / 2) as i32 - 50
}

pub fn scale_rate(rate: u32) -> (r: i32)
    requires
        rate <= 200,
    ensures
        r == spec_scale_rate(rate),
{
    rate as i32 - 100
}

pub fn scale_volume(volume: u32) -> (r: i32)
    requires
        volume <= 100,
    ensures
        r == spec_scale_volume(volume),
{
    volume as i32
}

/// The scaled parameters always land inside the service's native ranges.
pub proof fn lemma_scaled_params_in_native_ranges(pitch: u32, rate: u32, volume: u32)
    requires
        pitch <= 200,
        rate <= 200,
        volume <= 100,
    ensures
        -50 <= spec_scale_pitch(pitch) <= 50,
        -100 <= spec_scale_rate(rate) <= 100,
        0 <= spec_scale_volume(volume) <= 100,
{
}

/// Everything the external synthesis capability needs for one call, with the
/// parameters already in the service's native ranges and the destination
/// file named.
#[derive(Debug, Clone, PartialEq, Eq)]
pub struct SynthesisRequest {
    pub text: String,
    pub voice: String,
    pub pitch_scaled: i32,
    pub rate_scaled: i32,
    pub volume_scaled: i32,
    pub output_path: String,
}

/// Whether `voice` occurs in the catalog of known voice identifiers.
pub open spec fn spec_voice_known(voices: Seq<Seq<char>>, voice: Seq<char>) -> bool {
    exists|i: int| 0 <= i < voices.len() && voices[i] == voice
}

/// Looks `voice` up in the external voice catalog, handed in as the list of
/// its short names.
pub fn voice_known(voices: &Vec<String>, voice: &String) -> (r: bool)
    ensures
        r == spec_voice_known(voices@.map_values(|v: String| v@), voice@),
{
    let ghost catalog = voices@.map_values(|v: String| v@);
    let mut i: usize = 0;
    while i < voices.len()
        invariant
            i <= voices.len(),
            catalog == voices@.map_values(|v: String| v@),
            forall|j: int| 0 <= j < i ==> catalog[j] != voice@,
        decreases voices.len() - i,
    {
        if voices[i].eq(voice) {
            assert(catalog[i as int] == voice@);
            return true;
        }
        i += 1;
    }
    false
}

/// Validates one synthesis request and maps it onto the external service:
/// empty text is rejected, the voice must be in the catalog, the normalized
/// parameters are scaled to the native ranges, and the output path is the
/// named slot's file.
pub fn build_synthesis_request(
    text: &str,
    slot: &Slot,
    voice: &str,
    pitch: u32,
    rate: u32,
    volume: u32,
    voices: &Vec<String>,
) -> (r: Result<SynthesisRequest, SynthesisError>)
    requires
        pitch <= 200,
        rate <= 200,
        volume <= 100,
    ensures
        r is Err <==> text@.len() == 0 || !spec_voice_known(
            voices@.map_values(|v: String| v@),
            voice@,
        ),
        r == Err::<SynthesisRequest, SynthesisError>(SynthesisError::EmptyText) <==> text@.len()
            == 0,
        r matches Err(e) ==> (text@.len() > 0 ==> e == SynthesisError::VoiceNotFound),
        r matches Ok(req) ==> req.text@ == text@ && req.voice@ == voice@ && req.pitch_scaled
            == spec_scale_pitch(pitch) && req.rate_scaled == spec_scale_rate(rate)
            && req.volume_scaled == spec_scale_volume(volume) && req.output_path@
            == spec_audio_file_path(slot.spec_name()),
{
    if text.unicode_len() == 0 {
        return Err(SynthesisError::EmptyText);
    }
    let voice_owned = String::from_str(voice);
    if !voice_known(voices, &voice_owned) {
        return Err(SynthesisError::VoiceNotFound);
    }
    Ok(
        SynthesisRequest {
            text: String::from_str(text),
            voice: voice_owned,
            pitch_scaled: scale_pitch(pitch),
            rate_scaled: scale_rate(rate),
            volume_scaled: scale_volume(volume),
            output_path: slot.file_path(),
        },
    )
}

/// The request that regenerates the play-mode slot from the current
/// configuration: its text, voice, pitch, rate and volume.
pub fn build_play_mode_request(config: &TtsConfig, voices: &Vec<String>) -> (r: Result<
    SynthesisRequest,
    SynthesisError,
>)
    requires
        config.wf(),
    ensures
        r is Err <==> config.play_mode_text@.len() == 0 || !spec_voice_known(
            voices@.map_values(|v: String| v@),
            config.last_voice@,
        ),
        r == Err::<SynthesisRequest, SynthesisError>(SynthesisError::EmptyText)
            <==> config.play_mode_text@.len() == 0,
        r matches Err(e) ==> (config.play_mode_text@.len() > 0 ==> e
            == SynthesisError::VoiceNotFound),
        r matches Ok(req) ==> req.text@ == config.play_mode_text@ && req.voice@
            == config.last_voice@ && req.pitch_scaled == spec_scale_pitch(config.pitch)
            && req.rate_scaled == spec_scale_rate(config.rate) && req.volume_scaled
            == spec_scale_volume(config.volume) && req.output_path@ == spec_audio_file_path(
            "play_mode_audio"@,
        ),
{
    build_synthesis_request(
        config.play_mode_text.as_str(),
        &Slot::PlayMode,
        config.last_voice.as_str(),
        config.pitch,
        config.rate,
        config.volume,
        voices,
    )
}

} // verus!
