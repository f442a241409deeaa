use stream_bus::event::{
    Event, SourceVisibilityRequest, StreamCharacterRequest, TransformOBSTextRequest,
    TriggerHotkeyRequest, UserMessage, UserPlatform, UserRoles,
};
use stream_bus::sound::{
    choose_character, has_file, plan_sounds, scene_change, SceneChange, SoundNames, SoundStep,
    StreamState,
};

fn names() -> SoundNames {
    SoundNames {
        staff_source: "StaffSource".to_string(),
        staff_voice: "StaffVoice".to_string(),
        moderator_voice: "ModVoice".to_string(),
        soundboard: "Soundboard-Text".to_string(),
    }
}

fn message(user: &str, contents: &str, roles: UserRoles) -> UserMessage {
    UserMessage {
        user_id: "1".to_string(),
        user_name: user.to_string(),
        roles,
        platform: UserPlatform::Twitch,
        contents: contents.to_string(),
    }
}

fn describe(steps: &[SoundStep]) -> Vec<String> {
    steps
        .iter()
        .map(|s| match s {
            SoundStep::Publish(Event::UberDuckRequest(r)) => format!(
                "speak voice={} message={:?} text={:?} user={} source={:?}",
                r.voice, r.message, r.voice_text, r.username, r.source
            ),
            SoundStep::Publish(Event::TransformOBSTextRequest(t)) => {
                format!("show {:?} in {}", t.message, t.text_source)
            }
            SoundStep::Publish(other) => format!("publish {:?}", other),
            SoundStep::Play(path) => format!("play {}", path),
        })
        .collect()
}

fn files() -> Vec<String> {
    vec!["./MP3s/wow.mp3".to_string(), "./MP3s/damn.mp3".to_string()]
}

const ALL: StreamState = StreamState { sub_only_tts: false, implicit_soundeffects: true };

#[test]
fn voices_by_role() {
    let state = StreamState { sub_only_tts: true, implicit_soundeffects: false };
    let staff = UserRoles { staff: true, moderator: true, ..UserRoles::default() };
    let c = choose_character(&staff, &state, "own", &names());
    assert_eq!(c.voice.as_deref(), Some("StaffSource"));
    assert_eq!(c.source.as_deref(), Some("StaffVoice"));
    let moderator = UserRoles { moderator: true, subscriber: true, ..UserRoles::default() };
    let c = choose_character(&moderator, &state, "own", &names());
    assert_eq!(c.voice.as_deref(), Some("ModVoice"));
    assert_eq!(c.source, None);
    let subscriber = UserRoles { subscriber: true, ..UserRoles::default() };
    let c = choose_character(&subscriber, &state, "own", &names());
    assert_eq!(c.voice.as_deref(), Some("own"));
    let c = choose_character(&UserRoles::default(), &state, "own", &names());
    assert_eq!(c.voice, None);
    assert_eq!(c.source, None);
    let open = StreamState { sub_only_tts: false, implicit_soundeffects: false };
    let c = choose_character(&UserRoles::default(), &open, "own", &names());
    assert_eq!(c.voice.as_deref(), Some("own"));
}

#[test]
fn the_bot_of_the_chat_and_single_words_are_passed_over() {
    let m = message("Nightbot", "wow what a day", UserRoles::default());
    assert!(plan_sounds(&m, &ALL, "own", &names(), &files()).is_empty());
    let m = message("bob", "wow", UserRoles::default());
    assert!(plan_sounds(&m, &ALL, "own", &names(), &files()).is_empty());
    let m = message("bob", "", UserRoles::default());
    assert!(plan_sounds(&m, &ALL, "own", &names(), &files()).is_empty());
}

#[test]
fn a_line_is_spoken_and_its_words_set_off_sounds() {
    let m = message("bob", "WOW that is Damn good", UserRoles::default());
    let steps = plan_sounds(&m, &ALL, "own", &names(), &files());
    assert_eq!(
        describe(&steps),
        vec![
            "speak voice=own message=\"WOW that is Damn good\" text=\"WOW that is Damn good\" user=bob source=None",
            "show \"wow\" in Soundboard-Text",
            "play ./MP3s/wow.mp3",
            "show \"damn\" in Soundboard-Text",
            "play ./MP3s/damn.mp3",
            "show \"\" in Soundboard-Text",
        ]
    );
}

#[test]
fn without_implicit_sound_effects_the_line_is_only_spoken() {
    let state = StreamState { sub_only_tts: false, implicit_soundeffects: false };
    let m = message("bob", "wow indeed", UserRoles::default());
    let steps = plan_sounds(&m, &state, "own", &names(), &files());
    assert_eq!(
        describe(&steps),
        vec!["speak voice=own message=\"wow indeed\" text=\"wow indeed\" user=bob source=None"]
    );
}

#[test]
fn a_user_without_a_voice_still_sets_off_sounds() {
    let state = StreamState { sub_only_tts: true, implicit_soundeffects: true };
    let m = message("bob", "oh wow", UserRoles::default());
    let steps = plan_sounds(&m, &state, "own", &names(), &files());
    assert_eq!(
        describe(&steps),
        vec!["show \"wow\" in Soundboard-Text", "play ./MP3s/wow.mp3", "show \"\" in Soundboard-Text"]
    );
    let silent = StreamState { sub_only_tts: true, implicit_soundeffects: false };
    assert!(plan_sounds(&m, &silent, "own", &names(), &files()).is_empty());
}

#[test]
fn staff_speak_with_voice_and_source_swapped() {
    let staff = UserRoles { staff: true, ..UserRoles::default() };
    let state = StreamState { sub_only_tts: true, implicit_soundeffects: false };
    let m = message("amy", "hello all", staff);
    let steps = plan_sounds(&m, &state, "own", &names(), &files());
    assert_eq!(
        describe(&steps),
        vec!["speak voice=StaffSource message=\"hello all\" text=\"hello all\" user=amy source=Some(\"StaffVoice\")"]
    );
}

#[test]
fn long_lines_are_chopped_for_the_bubble() {
    let state = StreamState { sub_only_tts: false, implicit_soundeffects: false };
    let m = message("bob", "the quick brown fox jumps over the lazy dog", UserRoles::default());
    let steps = plan_sounds(&m, &state, "own", &names(), &files());
    match &steps[..] {
        [SoundStep::Publish(Event::UberDuckRequest(r))] => {
            assert_eq!(r.message, "the quick brown fox jumps\nover the lazy dog");
            assert_eq!(r.voice_text, "the quick brown fox jumps over the lazy dog");
        }
        other => panic!("{:?}", other),
    }
}

#[test]
fn files_are_looked_up_exactly() {
    assert!(has_file(&files(), "./MP3s/wow.mp3"));
    assert!(!has_file(&files(), "./MP3s/WOW.mp3"));
    assert!(!has_file(&Vec::new(), "./MP3s/wow.mp3"));
}

#[test]
fn events_become_changes_of_the_scene() {
    let event = Event::SourceVisibilityRequest(SourceVisibilityRequest {
        scene: "Primary".to_string(),
        source: "cat".to_string(),
        enabled: true,
    });
    match scene_change(&event) {
        Some(SceneChange::SetEnabled { scene, source, enabled }) => {
            assert_eq!((scene.as_str(), source.as_str(), enabled), ("Primary", "cat", true));
        }
        other => panic!("{:?}", other),
    }
    let event = Event::StreamCharacterRequest(StreamCharacterRequest {
        source: "Seal".to_string(),
        enabled: false,
    });
    match scene_change(&event) {
        Some(SceneChange::CharacterFilters { source, enabled }) => {
            assert_eq!((source.as_str(), enabled), ("Seal", false));
        }
        other => panic!("{:?}", other),
    }
    let event = Event::TriggerHotkeyRequest(TriggerHotkeyRequest { hotkey: "OBS_KEY_L".to_string() });
    match scene_change(&event) {
        Some(SceneChange::Hotkey { hotkey }) => assert_eq!(hotkey, "OBS_KEY_L"),
        other => panic!("{:?}", other),
    }
    let event = Event::TransformOBSTextRequest(TransformOBSTextRequest {
        message: "hi".to_string(),
        text_source: "Soundboard-Text".to_string(),
    });
    match scene_change(&event) {
        Some(SceneChange::MoveText { text_source, filter_name, message }) => {
            assert_eq!(text_source, "Soundboard-Text");
            assert_eq!(filter_name, "TransformSoundboard-Text");
            assert_eq!(message, "hi");
        }
        other => panic!("{:?}", other),
    }
    let event = Event::SkyboxRequest(stream_bus::event::SkyboxRequest { msg: "x".to_string() });
    assert!(scene_change(&event).is_none());
}

#[test]
fn only_a_failed_hotkey_ends_its_handler() {
    let s = |t: &str| t.to_string();
    assert!(SceneChange::Hotkey { hotkey: s("OBS_KEY_L") }.ends_handler_on_failure());
    assert!(!SceneChange::SetEnabled { scene: s("a"), source: s("b"), enabled: true }
        .ends_handler_on_failure());
    assert!(!SceneChange::CharacterFilters { source: s("b"), enabled: true }
        .ends_handler_on_failure());
    assert!(!SceneChange::MoveText { text_source: s("a"), filter_name: s("b"), message: s("c") }
        .ends_handler_on_failure());
}
