use tts_lib::config::TtsConfig;
use tts_lib::config::update_play_mode_text;
use tts_lib::slot::Slot;
use tts_lib::synth::SynthesisError;
use tts_lib::synth::build_play_mode_request;
use tts_lib::synth::build_synthesis_request;
use tts_lib::synth::scale_pitch;
use tts_lib::synth::scale_rate;
use tts_lib::synth::scale_volume;
use tts_lib::synth::voice_known;

fn catalog() -> Vec<String> {
    vec![
        "en-US-AndrewMultilingualNeural".to_string(),
        "voice-A".to_string(),
        "voice-B".to_string(),
    ]
}

#[test]
fn pitch_scaling_boundaries() {
    assert_eq!(scale_pitch(0), -50);
    assert_eq!(scale_pitch(100), 0);
    assert_eq!(scale_pitch(200), 50);
}

#[test]
fn rate_scaling_boundaries() {
    assert_eq!(scale_rate(0), -100);
    assert_eq!(scale_rate(100), 0);
    assert_eq!(scale_rate(200), 100);
}

#[test]
fn volume_scaling_boundaries() {
    assert_eq!(scale_volume(0), 0);
    assert_eq!(scale_volume(50), 50);
    assert_eq!(scale_volume(100), 100);
}

#[test]
fn scaling_truncates_like_the_float_cast() {
    // 1.01 * 50 = 50.5, truncated to 50, minus 50.
    assert_eq!(scale_pitch(101), 0);
    assert_eq!(scale_pitch(99), -1);
    assert_eq!(scale_rate(1), -99);
}

#[test]
fn voice_lookup() {
    let voices = catalog();
    assert!(voice_known(&voices, &"voice-A".to_string()));
    assert!(!voice_known(&voices, &"voice-Z".to_string()));
    assert!(!voice_known(&Vec::new(), &"voice-A".to_string()));
}

#[test]
fn empty_text_is_rejected() {
    let r = build_synthesis_request("", &Slot::PlayMode, "voice-A", 100, 100, 100, &catalog());
    assert_eq!(r, Err(SynthesisError::EmptyText));
}

#[test]
fn unknown_voice_is_rejected() {
    let r = build_synthesis_request(
        "hello",
        &Slot::PlayMode,
        "voice-Z",
        100,
        100,
        100,
        &catalog(),
    );
    assert_eq!(r, Err(SynthesisError::VoiceNotFound));
}

#[test]
fn request_carries_scaled_parameters_and_slot_path() {
    let slot = Slot::Named { name: "greeting".to_string() };
    let req = build_synthesis_request("hello", &slot, "voice-B", 150, 50, 80, &catalog()).unwrap();
    assert_eq!(req.text, "hello");
    assert_eq!(req.voice, "voice-B");
    assert_eq!(req.pitch_scaled, 25);
    assert_eq!(req.rate_scaled, -50);
    assert_eq!(req.volume_scaled, 80);
    assert_eq!(req.output_path, "export/greeting.mp3");
}

#[test]
fn play_mode_request_uses_the_configuration() {
    let mut c = TtsConfig::default();
    update_play_mode_text(&mut c, "hello", false);
    c.pitch = 200;
    c.rate = 0;
    c.volume = 25;
    let req = build_play_mode_request(&c, &catalog()).unwrap();
    assert_eq!(req.text, "hello");
    assert_eq!(req.voice, "en-US-AndrewMultilingualNeural");
    assert_eq!(req.pitch_scaled, 50);
    assert_eq!(req.rate_scaled, -100);
    assert_eq!(req.volume_scaled, 25);
    assert_eq!(req.output_path, "export/play_mode_audio.mp3");
}

#[test]
fn play_mode_request_with_empty_text_is_rejected() {
    let c = TtsConfig::default();
    assert_eq!(c.play_mode_text, "");
    assert_eq!(build_play_mode_request(&c, &catalog()), Err(SynthesisError::EmptyText));
}
