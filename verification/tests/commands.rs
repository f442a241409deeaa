use stream_bus::event::{Event, UserMessage, UserPlatform, UserRoles};
use stream_bus::obs_commands::{
    argument_or, art_block_url, art_series, chat_line, check_ready, classify, command_defaults,
    command_events, find_music_scene, handle_obs_commands, has_needed_pieces, may_run,
    message_words, music_sources, plan_music, rest_of_line, scroll_setting_name, CommandError,
    CommandKind, CommandNames, MusicScene, Readiness,
};

fn message(user: &str, contents: &str, roles: UserRoles) -> UserMessage {
    UserMessage {
        user_id: "1".to_string(),
        user_name: user.to_string(),
        roles,
        platform: UserPlatform::Twitch,
        contents: contents.to_string(),
    }
}

fn nobody() -> UserRoles {
    UserRoles::default()
}

fn moderator() -> UserRoles {
    UserRoles { moderator: true, ..UserRoles::default() }
}

fn names() -> CommandNames {
    CommandNames {
        default_source: "begin".to_string(),
        default_voice: "ethan".to_string(),
        soundboard: "Soundboard-Text".to_string(),
    }
}

fn scenes() -> Vec<MusicScene> {
    vec![
        MusicScene {
            command: "!drama".to_string(),
            music: "DramaticBG".to_string(),
            voice: "ethan".to_string(),
            playlist_folder: None,
        },
        MusicScene {
            command: "!sigma".to_string(),
            music: "SigmaBG".to_string(),
            voice: "chad".to_string(),
            playlist_folder: Some("Sigma".to_string()),
        },
        MusicScene {
            command: "!drama".to_string(),
            music: "Other".to_string(),
            voice: "other".to_string(),
            playlist_folder: None,
        },
    ]
}

fn words(line: &str) -> Vec<String> {
    line.split(' ').map(String::from).collect()
}

#[test]
fn every_command_is_recognised() {
    let table: Vec<(&str, CommandKind)> = vec![
        ("!wide", CommandKind::Wide),
        ("!normal", CommandKind::Normal),
        ("!nerd3", CommandKind::Nerd3),
        ("!nerd", CommandKind::Nerd),
        ("!chad", CommandKind::Chad),
        ("!reload_rapper", CommandKind::ReloadRapper),
        ("!durf", CommandKind::Durf),
        ("!implicit", CommandKind::Implicit),
        ("!peace", CommandKind::Implicit),
        ("!explicit", CommandKind::Explicit),
        ("!state", CommandKind::State),
        ("!ab", CommandKind::ArtBlock),
        ("!chimera", CommandKind::Chimera),
        ("!watercolor", CommandKind::Watercolor),
        ("!pig", CommandKind::Pig),
        ("!run", CommandKind::Run),
        ("!vortex", CommandKind::Vortex),
        ("!v", CommandKind::Vortex),
        ("!memories", CommandKind::Memories),
        ("!m", CommandKind::Memories),
        ("!steviep", CommandKind::Dopamine),
        ("!dopamine", CommandKind::Dopamine),
        ("!d", CommandKind::Dopamine),
        ("!nothing", CommandKind::Nothing),
        ("!random", CommandKind::Random),
        ("!no_global_voice", CommandKind::NoGlobalVoice),
        ("!global_voice", CommandKind::GlobalVoice),
        ("!set_voice", CommandKind::SetVoice),
        ("!setvoice", CommandKind::SetVoice),
        ("!set_name", CommandKind::SetVoice),
        ("!setname", CommandKind::SetVoice),
        ("!dalle", CommandKind::Dalle),
        ("!voice", CommandKind::Voice),
        ("!scroll", CommandKind::Scroll),
        ("!blur", CommandKind::Blur),
        ("!noblur", CommandKind::Unblur),
        ("!unblur", CommandKind::Unblur),
        ("!grow", CommandKind::Scale),
        ("!scale", CommandKind::Scale),
        ("!move", CommandKind::Move),
        ("!gg", CommandKind::Grow),
        ("!tr", CommandKind::TopRight),
        ("!bl", CommandKind::BottomLeft),
        ("!memes", CommandKind::Memes),
        ("!nomemes", CommandKind::NoMemes),
        ("!nojokes", CommandKind::NoMemes),
        ("!work", CommandKind::NoMemes),
        ("!chat", CommandKind::Chat),
        ("!code", CommandKind::Code),
        ("!hide", CommandKind::Hide),
        ("!show", CommandKind::Show),
        ("!hk", CommandKind::Hotkey),
        ("!create_source", CommandKind::CreateSource),
        ("!create_3d_filters", CommandKind::Create3dFilters),
        ("!create_filters_for_source", CommandKind::CreateFiltersForSource),
        ("!source", CommandKind::SourceInfo),
        ("!filter", CommandKind::FilterInfo),
        ("!outline", CommandKind::Outline),
        ("!norm", CommandKind::Norm),
        ("!follow", CommandKind::Follow),
        ("!staff", CommandKind::Staff),
        ("!spin", CommandKind::Spin),
        ("!spinx", CommandKind::Spin),
        ("spiny", CommandKind::Spin),
        ("!3d", CommandKind::ThreeD),
        ("!previous", CommandKind::Previous),
        ("!styles", CommandKind::Styles),
        ("!skybox", CommandKind::Skybox),
        ("!remix", CommandKind::Remix),
        ("!talk", CommandKind::Talk),
        ("!soundboard_text", CommandKind::SoundboardText),
        ("!set_character", CommandKind::SetCharacter),
        ("!character", CommandKind::Character),
        ("!spiny", CommandKind::Other),
        ("hello", CommandKind::Other),
        ("", CommandKind::Other),
        ("!WIDE", CommandKind::Other),
        ("!sigma", CommandKind::Other),
    ];
    for (word, kind) in table {
        assert_eq!(classify(word), kind, "{}", word);
    }
}

#[test]
fn a_line_is_taken_apart_at_its_spaces() {
    let m = message("bob", "!move begin  10 20", nobody());
    assert_eq!(message_words(&m), vec!["!move", "begin", "", "10", "20"]);
    let event = Event::UserMessage(m);
    assert_eq!(chat_line(&event).map(|m| m.user_name.as_str()), Some("bob"));
    let other = Event::SkyboxRequest(stream_bus::event::SkyboxRequest { msg: "x".to_string() });
    assert!(chat_line(&other).is_none());
}

#[test]
fn arguments_and_their_defaults() {
    let line = words("!3d alex Rotation.Z 3600  5000 ");
    assert_eq!(argument_or(&line, 1, "begin"), "alex");
    assert_eq!(argument_or(&line, 9, "begin"), "begin");
    assert_eq!(rest_of_line(&line), "alex Rotation.Z 3600  5000 ");
    assert_eq!(rest_of_line(&words("!skybox")), "");

    let defaults = command_defaults(&words("!3d alex Rotation.Z 3600 5000"), "begin");
    assert_eq!(defaults.source, "alex");
    assert_eq!(defaults.duration, 5000);
    assert_eq!(defaults.filter_value.as_deref(), Some("3600"));

    let defaults = command_defaults(&words("!3d"), "begin");
    assert_eq!(defaults.source, "begin");
    assert_eq!(defaults.duration, 3000);
    assert_eq!(defaults.filter_value, None);

    let defaults = command_defaults(&words("!3d a b c \t70\n"), "begin");
    assert_eq!(defaults.duration, 70);
    let defaults = command_defaults(&words("!3d a b c fast"), "begin");
    assert_eq!(defaults.duration, 3000);
    let defaults = command_defaults(&words("!3d a b c -5"), "begin");
    assert_eq!(defaults.duration, 3000);
    let defaults = command_defaults(&words("!3d a b c 99999999999"), "begin");
    assert_eq!(defaults.duration, 3000);
}

#[test]
fn who_may_give_which_command() {
    let vip = UserRoles { vip: true, ..UserRoles::default() };
    assert!(!may_run(CommandKind::Nothing, &message("bob", "!nothing", nobody())));
    assert!(may_run(CommandKind::Nothing, &message("bob", "!nothing", moderator())));
    assert!(may_run(CommandKind::Nothing, &message("bob", "!nothing", vip)));
    assert!(!may_run(CommandKind::GlobalVoice, &message("bob", "!global_voice", moderator())));
    assert!(may_run(CommandKind::GlobalVoice, &message("beginbot", "!global_voice", nobody())));
    assert!(!may_run(CommandKind::NoGlobalVoice, &message("bob", "x", moderator())));
    assert!(may_run(CommandKind::NoGlobalVoice, &message("beginbot", "x", nobody())));
    assert!(may_run(CommandKind::Wide, &message("bob", "!wide", nobody())));
    assert!(may_run(CommandKind::Other, &message("bob", "hi", nobody())));
}

#[test]
fn what_a_command_needs() {
    assert!(!has_needed_pieces(CommandKind::Hotkey, &words("!hk")));
    assert!(has_needed_pieces(CommandKind::Hotkey, &words("!hk a")));
    assert!(!has_needed_pieces(CommandKind::ArtBlock, &words("!ab")));
    assert!(has_needed_pieces(CommandKind::ArtBlock, &words("!ab 5")));
    assert!(has_needed_pieces(CommandKind::Wide, &words("!wide")));
    assert_eq!(check_ready(CommandKind::ThreeD, &words("!3d begin")), Err(CommandError::MissingFilterName));
    assert_eq!(check_ready(CommandKind::Hotkey, &words("!hk")), Err(CommandError::MissingArgument));
    assert_eq!(check_ready(CommandKind::ArtBlock, &words("!ab")), Err(CommandError::MissingArgument));
    assert_eq!(check_ready(CommandKind::Hotkey, &words("!hk a")), Ok(Readiness::Ready));
    assert_eq!(check_ready(CommandKind::Other, &Vec::new()), Err(CommandError::MissingArgument));
    assert_eq!(CommandError::MissingFilterName.message(), "We don't have a filter name, can't proceed");
    assert_eq!(
        CommandError::MissingArgument.message(),
        "The command needs an argument that the line lacks"
    );
    assert_eq!(check_ready(CommandKind::ThreeD, &words("!3d begin Rotation.Z")), Ok(Readiness::Ready));
    assert_eq!(check_ready(CommandKind::Move, &words("!move begin 10")), Ok(Readiness::MissingPosition));
    assert_eq!(check_ready(CommandKind::Move, &words("!move begin 10 20")), Ok(Readiness::Ready));
    assert_eq!(check_ready(CommandKind::Wide, &words("!wide")), Ok(Readiness::Ready));
}

#[test]
fn art_series_and_addresses() {
    let chimera = art_series(CommandKind::Chimera).unwrap();
    assert_eq!(chimera.contract, "0xa7d8d9ef8d8ce8992df33d8b8cf4aebabd5bd270");
    assert_eq!((chimera.lower_bound, chimera.upper_bound), (233000000, 233000986));
    let watercolor = art_series(CommandKind::Watercolor).unwrap();
    assert_eq!((watercolor.lower_bound, watercolor.upper_bound), (59000000, 59000599));
    let pig = art_series(CommandKind::Pig).unwrap();
    assert_eq!((pig.lower_bound, pig.upper_bound), (129000000, 129001023));
    let run = art_series(CommandKind::Run).unwrap();
    assert_eq!((run.lower_bound, run.upper_bound), (138000000, 138000999));
    let vortex = art_series(CommandKind::Vortex).unwrap();
    assert_eq!((vortex.lower_bound, vortex.upper_bound), (225000000, 225000999));
    let memories = art_series(CommandKind::Memories).unwrap();
    assert_eq!(memories.contract, "0x99a9b7c1116f9ceeb1652de04d5969cce509b069");
    assert_eq!((memories.lower_bound, memories.upper_bound), (428000000, 428000449));
    let dopamine = art_series(CommandKind::Dopamine).unwrap();
    assert_eq!(dopamine.contract, "0x99a9b7c1116f9ceeb1652de04d5969cce509b069");
    assert_eq!((dopamine.lower_bound, dopamine.upper_bound), (457000000, 457000776));
    assert!(art_series(CommandKind::ArtBlock).is_none());
    assert_eq!(
        art_block_url(&words("!ab 457000123")).as_deref(),
        Some("https://generator.artblocks.io/0x99a9b7c1116f9ceeb1652de04d5969cce509b069/457000123")
    );
    assert_eq!(art_block_url(&words("!ab")), None);
}

#[test]
fn events_of_commands() {
    let m = message("bob", "!hk f1", nobody());
    let events = command_events(CommandKind::Hotkey, &words("!hk f1"), &m, "ethan", "SB");
    assert_eq!(events.len(), 1);
    match &events[0] {
        Event::TriggerHotkeyRequest(r) => assert_eq!(r.hotkey, "OBS_KEY_F1"),
        other => panic!("{:?}", other),
    }

    let m = message("bob", "!skybox a  lush castle", nobody());
    let events =
        command_events(CommandKind::Skybox, &words("!skybox a  lush castle"), &m, "ethan", "SB");
    match &events[..] {
        [Event::SkyboxRequest(r)] => assert_eq!(r.msg, "a  lush castle"),
        other => panic!("{:?}", other),
    }

    let m = message("bob", "!talk", nobody());
    let events = command_events(CommandKind::Talk, &words("!talk"), &m, "ethan", "SB");
    match &events[..] {
        [Event::TransformOBSTextRequest(r)] => {
            assert_eq!(r.message, "Hello");
            assert_eq!(r.text_source, "SB");
        }
        other => panic!("{:?}", other),
    }

    let m = message("bob", "!voice neo wake up", nobody());
    let events = command_events(CommandKind::Voice, &words("!voice neo wake up"), &m, "ethan", "SB");
    match &events[..] {
        [Event::ElevenLabsRequest(r)] => {
            assert_eq!(r.voice.as_deref(), Some("neo"));
            assert_eq!(r.voice_text, " wake up");
            assert_eq!(r.username, "bob");
        }
        other => panic!("{:?}", other),
    }

    let m = message("bob", "!voice", nobody());
    let events = command_events(CommandKind::Voice, &words("!voice"), &m, "ethan", "SB");
    match &events[..] {
        [Event::ElevenLabsRequest(r)] => {
            assert_eq!(r.voice.as_deref(), Some("ethan"));
            assert_eq!(r.voice_text, "!voice");
        }
        other => panic!("{:?}", other),
    }

    let m = message("bob", "!wide", nobody());
    assert!(command_events(CommandKind::Wide, &words("!wide"), &m, "ethan", "SB").is_empty());
    let m = message("bob", "!hk", nobody());
    assert!(command_events(CommandKind::Hotkey, &words("!hk"), &m, "ethan", "SB").is_empty());
}

#[test]
fn music_scenes() {
    let all = scenes();
    assert_eq!(find_music_scene(&all, "!drama"), Some(0));
    assert_eq!(find_music_scene(&all, "!sigma"), Some(1));
    assert_eq!(find_music_scene(&all, "!none"), None);
    assert_eq!(music_sources(&all), vec!["DramaticBG", "SigmaBG", "Other"]);

    assert!(plan_music(&all, "!sigma", &nobody()).is_none());
    assert!(plan_music(&all, "!none", &moderator()).is_none());
    let plan = plan_music(&all, "!sigma", &moderator()).unwrap();
    assert_eq!(plan.hide, vec!["DramaticBG", "SigmaBG", "Other"]);
    assert_eq!(plan.show, "SigmaBG");
    assert_eq!(plan.playlist_folder.as_deref(), Some("Sigma"));
    assert!(plan.pose);
    assert_eq!(plan.voice, "chad");
    let plan = plan_music(&all, "!drama", &UserRoles { vip: true, ..UserRoles::default() }).unwrap();
    assert_eq!(plan.show, "DramaticBG");
    assert_eq!(plan.playlist_folder, None);
    assert!(!plan.pose);
    assert_eq!(plan.voice, "ethan");
}

#[test]
fn scroll_settings() {
    assert_eq!(scroll_setting_name(&words("!scroll begin y 5")), "speed_y");
    assert_eq!(scroll_setting_name(&words("!scroll begin x 5")), "speed_x");
    assert_eq!(scroll_setting_name(&words("!scroll begin z")), "speed_x");
    assert_eq!(scroll_setting_name(&words("!scroll")), "speed_x");
}

#[test]
fn a_whole_line_is_decided() {
    let m = message("bob", "!hk f5", nobody());
    let plan = handle_obs_commands(&words("!hk f5"), &m, &names(), &scenes()).unwrap();
    assert_eq!(plan.kind, CommandKind::Hotkey);
    assert!(plan.allowed);
    assert_eq!(plan.readiness, Readiness::Ready);
    assert_eq!(plan.defaults.source, "f5");
    assert_eq!(plan.defaults.duration, 3000);
    assert_eq!(plan.publish.len(), 1);
    assert!(plan.music.is_none());

    let m = message("bob", "!nothing", nobody());
    let plan = handle_obs_commands(&words("!nothing"), &m, &names(), &scenes()).unwrap();
    assert_eq!(plan.kind, CommandKind::Nothing);
    assert!(!plan.allowed);
    assert!(plan.publish.is_empty());
    assert!(plan.music.is_none());

    let m = message("bob", "!3d begin", moderator());
    assert_eq!(
        handle_obs_commands(&words("!3d begin"), &m, &names(), &scenes()).err(),
        Some(CommandError::MissingFilterName)
    );

    let m = message("bob", "!move begin", moderator());
    let plan = handle_obs_commands(&words("!move begin"), &m, &names(), &scenes()).unwrap();
    assert_eq!(plan.readiness, Readiness::MissingPosition);

    let m = message("bob", "!sigma", moderator());
    let plan = handle_obs_commands(&words("!sigma"), &m, &names(), &scenes()).unwrap();
    assert_eq!(plan.kind, CommandKind::Other);
    assert!(plan.allowed);
    assert!(plan.publish.is_empty());
    let music = plan.music.unwrap();
    assert_eq!(music.show, "SigmaBG");
    assert!(music.pose);

    let m = message("bob", "!sigma", nobody());
    let plan = handle_obs_commands(&words("!sigma"), &m, &names(), &scenes()).unwrap();
    assert!(plan.music.is_none());
}

#[test]
fn a_command_without_its_argument_is_an_error_and_publishes_nothing() {
    for line in ["!hk", "!ab"] {
        let m = message("bob", line, nobody());
        assert_eq!(
            handle_obs_commands(&words(line), &m, &names(), &scenes()).err(),
            Some(CommandError::MissingArgument),
            "{}",
            line
        );
    }
    let m = message("bob", "!hk f2", nobody());
    let plan = handle_obs_commands(&words("!hk f2"), &m, &names(), &scenes()).unwrap();
    assert_eq!(plan.publish.len(), 1);
    let m = message("bob", "", nobody());
    assert_eq!(
        handle_obs_commands(&Vec::new(), &m, &names(), &scenes()).err(),
        Some(CommandError::MissingArgument)
    );
    let plan = handle_obs_commands(&words(""), &m, &names(), &scenes()).unwrap();
    assert_eq!(plan.kind, CommandKind::Other);
    assert!(plan.publish.is_empty());
}
