use tts_lib::slot::FileProbe;
use tts_lib::slot::Slot;
use tts_lib::slot::check_audio_file_exists;
use tts_lib::slot::default_slot_name;
use tts_lib::slot::file_ready;
use tts_lib::slot::get_audio_file_path;
use tts_lib::slot::play_mode_slot_name;

#[test]
fn slot_names() {
    assert_eq!(play_mode_slot_name(), "play_mode_audio");
    assert_eq!(default_slot_name(), "output");
}

#[test]
fn audio_file_paths() {
    assert_eq!(get_audio_file_path("output"), "export/output.mp3");
    assert_eq!(get_audio_file_path("play_mode_audio"), "export/play_mode_audio.mp3");
    assert_eq!(Slot::PlayMode.file_path(), "export/play_mode_audio.mp3");
    let named = Slot::Named { name: "greeting".to_string() };
    assert_eq!(named.file_path(), "export/greeting.mp3");
    assert_eq!(named.name(), "greeting");
    assert!(!named.is_play_mode());
    assert!(Slot::PlayMode.is_play_mode());
}

#[test]
fn play_mode_always_resolves_to_the_reserved_slot() {
    assert_eq!(Slot::resolve_play_slot("greeting", true), Slot::PlayMode);
    assert_eq!(Slot::resolve_play_slot("", true), Slot::PlayMode);
}

#[test]
fn named_resolution_outside_play_mode() {
    assert_eq!(
        Slot::resolve_play_slot("greeting", false),
        Slot::Named { name: "greeting".to_string() }
    );
    assert_eq!(Slot::resolve_play_slot("", false), Slot::Named { name: "output".to_string() });
}

#[test]
fn readiness_needs_existence_and_content() {
    assert!(file_ready(&FileProbe { exists: true, size: 1 }));
    assert!(file_ready(&FileProbe { exists: true, size: 48_000 }));
    assert!(!file_ready(&FileProbe { exists: true, size: 0 }));
    assert!(!file_ready(&FileProbe { exists: false, size: 0 }));
}

#[test]
fn existence_check_ignores_size() {
    assert!(check_audio_file_exists(&FileProbe { exists: true, size: 0 }));
    assert!(!check_audio_file_exists(&FileProbe { exists: false, size: 0 }));
}
