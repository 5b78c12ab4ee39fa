use tts_lib::config::ConfigLoad;
use tts_lib::config::TtsConfig;
use tts_lib::config::get_config_path;
use tts_lib::config::resolve_loaded_config;
use tts_lib::config::update_api_port;
use tts_lib::config::update_last_voice;
use tts_lib::config::update_pitch;
use tts_lib::config::update_play_mode;
use tts_lib::config::update_play_mode_text;
use tts_lib::config::update_rate;
use tts_lib::config::update_use_file;
use tts_lib::config::update_volume;
use tts_lib::invalidate::invalidate_play_mode_if_active;

#[test]
fn default_configuration_values() {
    let c = TtsConfig::default();
    assert!(!c.use_file);
    assert!(c.play_mode);
    assert_eq!(c.play_mode_text, "");
    assert_eq!(c.last_voice, "en-US-AndrewMultilingualNeural");
    assert_eq!(c.pitch, 100);
    assert_eq!(c.rate, 100);
    assert_eq!(c.volume, 100);
    assert_eq!(c.api_port, 7891);
}

#[test]
fn config_path_is_fixed() {
    assert_eq!(get_config_path(), "config/tts_config.json");
}

#[test]
fn update_last_voice_invalidates_in_play_mode() {
    let mut c = TtsConfig::default();
    assert!(c.play_mode);
    let invalidate = update_last_voice(&mut c, "voice-B");
    assert!(invalidate);
    assert_eq!(c.last_voice, "voice-B");
}

#[test]
fn update_last_voice_keeps_cache_outside_play_mode() {
    let mut c = TtsConfig::default();
    update_play_mode(&mut c, false);
    let invalidate = update_last_voice(&mut c, "voice-B");
    assert!(!invalidate);
    assert_eq!(c.last_voice, "voice-B");
}

#[test]
fn update_play_mode_text_invalidates_unless_skipped() {
    let mut c = TtsConfig::default();
    assert!(update_play_mode_text(&mut c, "hello", false));
    assert_eq!(c.play_mode_text, "hello");
    assert!(!update_play_mode_text(&mut c, "again", true));
    assert_eq!(c.play_mode_text, "again");
}

#[test]
fn level_mutators_invalidate_in_play_mode() {
    let mut c = TtsConfig::default();
    assert!(update_pitch(&mut c, 150));
    assert_eq!(c.pitch, 150);
    assert!(update_rate(&mut c, 0));
    assert_eq!(c.rate, 0);
    assert!(update_volume(&mut c, 55));
    assert_eq!(c.volume, 55);
}

#[test]
fn port_use_file_and_play_mode_mutators_never_invalidate() {
    let mut c = TtsConfig::default();
    assert!(!update_api_port(&mut c, 9000));
    assert_eq!(c.api_port, 9000);
    assert!(!update_use_file(&mut c, true));
    assert!(c.use_file);
    assert!(!update_play_mode(&mut c, false));
    assert!(!c.play_mode);
}

#[test]
fn mutators_leave_other_fields_alone() {
    let mut c = TtsConfig::default();
    update_play_mode_text(&mut c, "the text", false);
    update_last_voice(&mut c, "voice-B");
    update_pitch(&mut c, 25);
    assert_eq!(c.play_mode_text, "the text");
    assert_eq!(c.last_voice, "voice-B");
    assert_eq!(c.pitch, 25);
    assert_eq!(c.rate, 100);
    assert_eq!(c.volume, 100);
    assert_eq!(c.api_port, 7891);
}

#[test]
fn missing_config_materializes_and_saves_defaults() {
    let (c, save) = resolve_loaded_config(ConfigLoad::Missing);
    assert_eq!(c, TtsConfig::default());
    assert!(save);
}

#[test]
fn unreadable_config_falls_back_without_saving() {
    let (c, save) = resolve_loaded_config(ConfigLoad::Unreadable);
    assert_eq!(c, TtsConfig::default());
    assert!(!save);
}

#[test]
fn parsed_config_in_range_is_kept() {
    let mut parsed = TtsConfig::default();
    parsed.pitch = 180;
    parsed.last_voice = "voice-C".to_string();
    let (c, save) = resolve_loaded_config(ConfigLoad::Parsed { config: parsed.clone() });
    assert_eq!(c, parsed);
    assert!(!save);
}

#[test]
fn parsed_config_out_of_range_falls_back_to_defaults() {
    let mut parsed = TtsConfig::default();
    parsed.volume = 999;
    let (c, save) = resolve_loaded_config(ConfigLoad::Parsed { config: parsed });
    assert_eq!(c, TtsConfig::default());
    assert!(!save);
}

#[test]
fn invalidation_targets_the_play_mode_slot_file() {
    let c = TtsConfig::default();
    assert!(c.play_mode);
    let target = invalidate_play_mode_if_active(&c);
    assert_eq!(target.as_deref(), Some("export/play_mode_audio.mp3"));
}

#[test]
fn invalidation_is_inert_outside_play_mode() {
    let mut c = TtsConfig::default();
    update_play_mode(&mut c, false);
    assert_eq!(invalidate_play_mode_if_active(&c), None);
}
