//! Payloads of the inbound operations the UI-event collaborator sends. The
//! shell parses its wire format into these plain values; the audio payloads
//! can then be turned directly into validated synthesis requests.

use vstd::prelude::*;
use crate::config::TtsConfig;
use crate::slot::Slot;
use crate::synth::SynthesisError;
use crate::synth::SynthesisRequest;
use crate::synth::build_synthesis_request;
use crate::synth::spec_scale_pitch;
use crate::synth::spec_scale_rate;
use crate::synth::spec_scale_volume;
use crate::synth::spec_voice_known;
use crate::slot::spec_audio_file_path;

verus! {

/// `create_audio_from_text`: synthesize `text` into the slot called `name`
/// with `voice`.
#[derive(Debug, PartialEq, Eq)]
pub struct AudioText {
    pub text: String,
    pub name: String,
    pub voice: String,
}

/// `create_audio_from_file`: like `AudioText`, with the text to synthesize
/// read from the file at `file`.
#[derive(Debug, PartialEq, Eq)]
pub struct AudioFile {
    pub file: String,
    pub name: String,
    pub voice: String,
}

/// `add_script`: hand the file at `path` to the script catalog collaborator.
#[derive(Debug, PartialEq, Eq)]
pub struct AddFile {
    pub path: String,
}

/// `remove_script`: drop the named entry from the script catalog
/// collaborator, deleting its file when asked to.
#[derive(Debug, PartialEq, Eq)]
pub struct RemoveFile {
    pub name: String,
    pub path: String,
    pub remove_from_disk: bool,
}

impl AudioText {
    /// The synthesis request this payload asks for: its own text, slot and
    /// voice, with pitch, rate and volume taken from the configuration.
    pub fn request(&self, config: &TtsConfig, voices: &Vec<String>) -> (r: Result<
        SynthesisRequest,
        SynthesisError,
    >)
        requires
            config.wf(),
        ensures
            r is Err <==> self.text@.len() == 0 || !spec_voice_known(
                voices@.map_values(|v: String| v@),
                self.voice@,
            ),
            r matches Ok(req) ==> req.text@ == self.text@ && req.voice@ == self.voice@
                && req.pitch_scaled == spec_scale_pitch(config.pitch) && req.rate_scaled
                == spec_scale_rate(config.rate) && req.volume_scaled == spec_scale_volume(
                config.volume,
            ) && req.output_path@ == spec_audio_file_path(self.name@),
    {
        build_synthesis_request(
            self.text.as_str(),
            &Slot::Named { name: self.name.clone() },
            self.voice.as_str(),
            config.pitch,
            config.rate,
            config.volume,
            voices,
        )
    }
}

impl AudioFile {
    /// The synthesis request this payload asks for once the shell has read
    /// the file's text.
    pub fn request_with_text(&self, text: &str, config: &TtsConfig, voices: &Vec<String>) -> (r:
        Result<SynthesisRequest, SynthesisError>)
        requires
            config.wf(),
        ensures
            r is Err <==> text@.len() == 0 || !spec_voice_known(
                voices@.map_values(|v: String| v@),
                self.voice@,
            ),
            r matches Ok(req) ==> req.text@ == text@ && req.voice@ == self.voice@
                && req.pitch_scaled == spec_scale_pitch(config.pitch) && req.rate_scaled
                == spec_scale_rate(config.rate) && req.volume_scaled == spec_scale_volume(
                config.volume,
            ) && req.output_path@ == spec_audio_file_path(self.name@),
    {
        build_synthesis_request(
            text,
            &Slot::Named { name: self.name.clone() },
            self.voice.as_str(),
            config.pitch,
            config.rate,
            config.volume,
            voices,
        )
    }
}

} // verus!
