use tts_lib::config::TtsConfig;
use tts_lib::config::update_last_voice;
use tts_lib::config::update_play_mode_text;
use tts_lib::render::config_json;
use tts_lib::render::dec_u32;
use tts_lib::render::level_text;

#[test]
fn decimal_rendering() {
    assert_eq!(dec_u32(0), "0");
    assert_eq!(dec_u32(7), "7");
    assert_eq!(dec_u32(10), "10");
    assert_eq!(dec_u32(7891), "7891");
    assert_eq!(dec_u32(u32::MAX), "4294967295");
}

#[test]
fn level_rendering() {
    assert_eq!(level_text(100), "1.0");
    assert_eq!(level_text(0), "0.0");
    assert_eq!(level_text(200), "2.0");
    assert_eq!(level_text(55), "0.55");
    assert_eq!(level_text(150), "1.5");
    assert_eq!(level_text(5), "0.05");
    assert_eq!(level_text(101), "1.01");
    assert_eq!(level_text(110), "1.1");
}

#[test]
fn default_configuration_document() {
    let expected = "{\n  \"use_file\": false,\n  \"play_mode\": true,\n  \"play_mode_text\": \"\",\n  \"last_voice\": \"en-US-AndrewMultilingualNeural\",\n  \"pitch\": 1.0,\n  \"rate\": 1.0,\n  \"volume\": 1.0,\n  \"api_port\": 7891\n}";
    assert_eq!(config_json(&TtsConfig::default()), expected);
}

#[test]
fn text_with_quotes_and_newlines_is_escaped() {
    let mut c = TtsConfig::default();
    update_play_mode_text(&mut c, "say \"hi\"\\now\nplease", true);
    let document = config_json(&c);
    assert!(document.contains("\"play_mode_text\": \"say \\\"hi\\\"\\\\now\\u000aplease\","));
}

#[test]
fn document_parses_back_to_the_same_values() {
    let mut c = TtsConfig::default();
    update_play_mode_text(&mut c, "a \"quoted\" line", true);
    update_last_voice(&mut c, "voice-B");
    c.pitch = 55;
    c.rate = 150;
    c.volume = 5;
    c.api_port = 9000;

    let document = config_json(&c);
    let value: serde_json::Value = serde_json::from_str(&document).unwrap();
    assert_eq!(value["use_file"], serde_json::Value::Bool(false));
    assert_eq!(value["play_mode"], serde_json::Value::Bool(true));
    assert_eq!(value["play_mode_text"].as_str(), Some("a \"quoted\" line"));
    assert_eq!(value["last_voice"].as_str(), Some("voice-B"));
    assert_eq!(value["pitch"].as_f64(), Some(0.55));
    assert_eq!(value["rate"].as_f64(), Some(1.5));
    assert_eq!(value["volume"].as_f64(), Some(0.05));
    assert_eq!(value["api_port"].as_u64(), Some(9000));
}
