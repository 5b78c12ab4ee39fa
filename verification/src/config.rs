//! The configuration store: the single source of truth for voice, pitch,
//! rate, volume, the play-mode flag and the play-mode text.
//!
//! Pitch and rate are kept in hundredths of the nominal unit (0 through 200,
//! so `100` stands for the neutral 1.0) and volume in hundredths of full
//! scale (0 through 100): the scaling the synthesis pipeline applies is then
//! exact integer arithmetic.

use vstd::prelude::*;

verus! {

/// The synthesis/playback configuration, persisted as one JSON object.
#[derive(Debug, Clone, PartialEq, Eq)]
pub struct TtsConfig {
    pub use_file: bool,
    pub play_mode: bool,
    pub play_mode_text: String,
    pub last_voice: String,
    /// Hundredths of the nominal pitch; valid values are 0 through 200.
    pub pitch: u32,
    /// Hundredths of the nominal rate; valid values are 0 through 200.
    pub rate: u32,
    /// Hundredths of full volume; valid values are 0 through 100.
    pub volume: u32,
    pub api_port: u16,
}

impl TtsConfig {
    /// The numeric fields lie in their documented ranges.
    pub open spec fn wf(self) -> bool {
        self.pitch <= 200 && self.rate <= 200 && self.volume <= 100
    }

    /// Whether the numeric fields lie in their documented ranges.
    pub fn check_wf(&self) -> (r: bool)
        ensures
            r == self.wf(),
    {
        self.pitch <= 200 && self.rate <= 200 && self.volume <= 100
    }

    /// The value `Default::default` materializes.
    pub open spec fn is_default(self) -> bool {
        self.use_file == false && self.play_mode == true && self.play_mode_text@
            == Seq::<char>::empty() && self.last_voice@ == "en-US-AndrewMultilingualNeural"@
            && self.pitch == 100 && self.rate == 100 && self.volume == 100 && self.api_port == 7891
    }
}

impl Default for TtsConfig {
    fn default() -> (r: TtsConfig)
        ensures
            r.use_file == false,
            r.play_mode == true,
            r.play_mode_text@ == Seq::<char>::empty(),
            r.last_voice@ == "en-US-AndrewMultilingualNeural"@,
            r.pitch == 100,
            r.rate == 100,
            r.volume == 100,
            r.api_port == 7891,
            r.is_default(),
            r.wf(),
    {
        TtsConfig {
            use_file: false,
            play_mode: true,
            play_mode_text: String::new(),
            last_voice: String::from_str("en-US-AndrewMultilingualNeural"),
            pitch: 100,
            rate: 100,
            volume: 100,
            api_port: 7891,
        }
    }
}

/// Path of the persisted configuration file, relative to the working
/// directory.
pub fn get_config_path() -> (r: &'static str)
    ensures
        r@ == "config/tts_config.json"@,
{
    "config/tts_config.json"
}

/// Whether a mutation of the values that produced the cached play-mode
/// audio must invalidate it: exactly when play mode is active.
pub open spec fn mutation_invalidates(c: TtsConfig) -> bool {
    c.play_mode
}

/// All fields of `b` other than those listed equal those of `a`.
pub open spec fn same_but_use_file(a: TtsConfig, b: TtsConfig) -> bool {
    a.play_mode == b.play_mode && a.play_mode_text == b.play_mode_text
        && a.last_voice == b.last_voice && a.pitch == b.pitch && a.rate == b.rate
        && a.volume == b.volume && a.api_port == b.api_port
}

pub open spec fn same_but_play_mode(a: TtsConfig, b: TtsConfig) -> bool {
    a.use_file == b.use_file && a.play_mode_text == b.play_mode_text
        && a.last_voice == b.last_voice && a.pitch == b.pitch && a.rate == b.rate
        && a.volume == b.volume && a.api_port == b.api_port
}

pub open spec fn same_but_play_mode_text(a: TtsConfig, b: TtsConfig) -> bool {
    a.use_file == b.use_file && a.play_mode == b.play_mode && a.last_voice == b.last_voice
        && a.pitch == b.pitch && a.rate == b.rate && a.volume == b.volume
        && a.api_port == b.api_port
}

pub open spec fn same_but_last_voice(a: TtsConfig, b: TtsConfig) -> bool {
    a.use_file == b.use_file && a.play_mode == b.play_mode
        && a.play_mode_text == b.play_mode_text && a.pitch == b.pitch && a.rate == b.rate
        && a.volume == b.volume && a.api_port == b.api_port
}

pub open spec fn same_but_levels(a: TtsConfig, b: TtsConfig) -> bool {
    a.use_file == b.use_file && a.play_mode == b.play_mode
        && a.play_mode_text == b.play_mode_text && a.last_voice == b.last_voice
        && a.api_port == b.api_port
}

pub open spec fn same_but_api_port(a: TtsConfig, b: TtsConfig) -> bool {
    a.use_file == b.use_file && a.play_mode == b.play_mode
        && a.play_mode_text == b.play_mode_text && a.last_voice == b.last_voice
        && a.pitch == b.pitch && a.rate == b.rate && a.volume == b.volume
}

// The named mutators. Each applies one change and reports whether the cached
// play-mode audio slot must be deleted; callers delete the slot's file where
// the result is true and persist the new value.

pub fn update_use_file(config: &mut TtsConfig, use_file: bool) -> (invalidate: bool)
    ensures
        final(config).use_file == use_file,
        same_but_use_file(*old(config), *final(config)),
        !invalidate,
{
    config.use_file = use_file;
    false
}

pub fn update_play_mode(config: &mut TtsConfig, play_mode: bool) -> (invalidate: bool)
    ensures
        final(config).play_mode == play_mode,
        same_but_play_mode(*old(config), *final(config)),
        !invalidate,
{
    config.play_mode = play_mode;
    false
}

/// Changes the play-mode text. `skip_delete` suppresses the invalidation
/// directive for callers that regenerate the slot immediately afterwards.
pub fn update_play_mode_text(
    config: &mut TtsConfig,
    text: &str,
    skip_delete: bool,
) -> (invalidate: bool)
    ensures
        final(config).play_mode_text@ == text@,
        same_but_play_mode_text(*old(config), *final(config)),
        invalidate == (mutation_invalidates(*old(config)) && !skip_delete),
{
    config.play_mode_text = String::from_str(text);
    config.play_mode && !skip_delete
}

pub fn update_last_voice(config: &mut TtsConfig, voice: &str) -> (invalidate: bool)
    ensures
        final(config).last_voice@ == voice@,
        same_but_last_voice(*old(config), *final(config)),
        invalidate == mutation_invalidates(*old(config)),
{
    config.last_voice = String::from_str(voice);
    config.play_mode
}

pub fn update_pitch(config: &mut TtsConfig, pitch: u32) -> (invalidate: bool)
    requires
        pitch <= 200,
    ensures
        final(config).pitch == pitch,
        final(config).rate == old(config).rate,
        final(config).volume == old(config).volume,
        same_but_levels(*old(config), *final(config)),
        invalidate == mutation_invalidates(*old(config)),
{
    config.pitch = pitch;
    config.play_mode
}

pub fn update_rate(config: &mut TtsConfig, rate: u32) -> (invalidate: bool)
    requires
        rate <= 200,
    ensures
        final(config).rate == rate,
        final(config).pitch == old(config).pitch,
        final(config).volume == old(config).volume,
        same_but_levels(*old(config), *final(config)),
        invalidate == mutation_invalidates(*old(config)),
{
    config.rate = rate;
    config.play_mode
}

pub fn update_volume(config: &mut TtsConfig, volume: u32) -> (invalidate: bool)
    requires
        volume <= 100,
    ensures
        final(config).volume == volume,
        final(config).pitch == old(config).pitch,
        final(config).rate == old(config).rate,
        same_but_levels(*old(config), *final(config)),
        invalidate == mutation_invalidates(*old(config)),
{
    config.volume = volume;
    config.play_mode
}

pub fn update_api_port(config: &mut TtsConfig, port: u16) -> (invalidate: bool)
    ensures
        final(config).api_port == port,
        same_but_api_port(*old(config), *final(config)),
        !invalidate,
{
    config.api_port = port;
    false
}

/// What an attempt to read the persisted configuration file showed.
#[derive(Debug, Clone, PartialEq, Eq)]
pub enum ConfigLoad {
    /// No file at the configuration path.
    Missing,
    /// The file exists but could not be read or parsed.
    Unreadable,
    /// The file parsed to this value (ranges not yet checked).
    Parsed { config: TtsConfig },
}

/// The configuration the coordinator works with after a load attempt, and
/// whether freshly materialized defaults must be persisted. Loading never
/// fails the caller: an absent file materializes defaults and asks for them
/// to be saved; an unreadable, malformed or out-of-range file falls back to
/// defaults without touching the file.
pub fn resolve_loaded_config(loaded: ConfigLoad) -> (r: (TtsConfig, bool))
    ensures
        r.0.wf(),
        loaded is Missing ==> r.0.is_default() && r.1,
        loaded is Unreadable ==> r.0.is_default() && !r.1,
        loaded matches ConfigLoad::Parsed { config } ==> ({
            if config.wf() {
                r.0 == config && !r.1
            } else {
                r.0.is_default() && !r.1
            }
        }),
{
    match loaded {
        ConfigLoad::Missing => (TtsConfig::default(), true),
        ConfigLoad::Unreadable => (TtsConfig::default(), false),
        ConfigLoad::Parsed { config } => {
            if config.check_wf() {
                (config, false)
            } else {
                (TtsConfig::default(), false)
            }
        },
    }
}

} // verus!
