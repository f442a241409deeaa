use stream_bus::bus::EventBus;
use stream_bus::chat::{
    ai_video_path, chat_event, friend_video_path, intro_video_path, platform_message, read_chat,
    roles_of, trigger_ai_friend, user_message, ServerLine,
};
use stream_bus::event::{
    AiScenesRequest, Event, TwitchMessage, UserMessage, UserPlatform, UserRoles,
};
use stream_bus::eventsub::{
    ask_chat_gpt, find_first_text, find_scene, handle_channel_rewards_request, post_request,
    process_ai_scene, trigger_full_scene, AIScene, ChatContent, ChatError, Condition,
    EventSubRoot, Handling, Redemption, Reward, SubEvent, Subscription, Transport,
};
use stream_bus::filters::{
    camera_for, create_3d_transform_filters, create_blur_filters, create_filters_for_source,
    create_outline_filter, create_scroll_filters, create_split_3d_transform_filters,
    find_or_create_filter, get_random_mp3_file_name, move_filter_name, mp3_file_name, mp3_files,
    playlist_folder, spin, CameraType, FilterNames, FilterStep, MusicFile,
};
use stream_bus::music_video::{
    find_image_filename, handle_requests, parse_command, pictures_folder, Command, CommandError,
    FolderEntry, ImageSearchError,
};
use stream_bus::skybox::{
    archive_file, archive_path, find_style_id, has_file, order_skybox, request_url,
    response_filepath, scene_command, scene_skybox, status_url, OuterSkyboxStatusResponse,
    SkyboxStatusResponse, SkyboxTemplate,
};

fn message(user: &str, contents: &str) -> UserMessage {
    UserMessage {
        user_id: "1".to_string(),
        user_name: user.to_string(),
        roles: UserRoles::default(),
        platform: UserPlatform::Twitch,
        contents: contents.to_string(),
    }
}

fn describe(command: Result<Command, CommandError>) -> String {
    match command {
        Ok(Command::CreateMusicVideoVideo { id, image_name }) => format!("video {} {}", id, image_name),
        Ok(Command::CreateMusicVideoImage { id }) => format!("image {}", id),
        Ok(Command::CreateMusicVideoImages { id }) => format!("images {}", id),
        Ok(Command::CreateMusicVideo { id }) => format!("all {}", id),
        Ok(Command::Unknown) => "unknown".to_string(),
        Err(error) => format!("error: {}", error.message()),
    }
}

#[test]
fn music_video_commands() {
    let parse = |line: &str| describe(parse_command(&message("bob", line), "current"));
    assert_eq!(parse("!create_music_video_images abc"), "images abc");
    assert_eq!(parse("!generate_images"), "images current");
    assert_eq!(parse("  !generate_video   cover  extra"), "video current cover");
    assert_eq!(parse("!generate_video"), "error: No image name provided for video generation");
    assert_eq!(parse("!generate_image x"), "image x");
    assert_eq!(parse("!generate_image"), "image current");
    assert_eq!(parse("!create_music_video 77"), "all 77");
    assert_eq!(parse("!create_music_video"), "all current");
    assert_eq!(parse("hello"), "unknown");
    assert_eq!(parse(""), "unknown");
    assert_eq!(describe(handle_requests(&message("nightbot", "!generate_video"), "c")), "unknown");
    assert_eq!(
        describe(handle_requests(&message("Nightbot", "!generate_video"), "c")),
        "error: No image name provided for video generation"
    );
    assert_eq!(describe(handle_requests(&message("bob", "!generate_image 5"), "c")), "image 5");
    assert_eq!(pictures_folder("abc"), "./tmp/music_videos/abc/");
}

fn entry(path: &str, is_file: bool, extension: Option<&str>, stem: Option<&str>) -> FolderEntry {
    FolderEntry {
        path: path.to_string(),
        is_file,
        extension: extension.map(String::from),
        file_stem: stem.map(String::from),
    }
}

#[test]
fn pictures_are_found_by_name() {
    let entries = vec![
        entry("d/sub", false, None, Some("sub")),
        entry("d/cover.txt", true, Some("txt"), Some("cover")),
        entry("d/other.png", true, Some("png"), Some("other")),
        entry("d/cover.jpeg", true, Some("jpeg"), Some("cover")),
        entry("d/cover.png", true, Some("png"), Some("cover")),
    ];
    assert_eq!(find_image_filename(&entries, "cover"), Ok("d/cover.jpeg".to_string()));
    assert_eq!(find_image_filename(&entries, "other"), Ok("d/other.png".to_string()));
    assert_eq!(find_image_filename(&entries, "none"), Err(ImageSearchError::NotFound));
    assert_eq!(find_image_filename(&Vec::new(), "cover"), Err(ImageSearchError::NotFound));

    let broken = vec![
        entry("d/a.jpg", true, Some("jpg"), Some("a")),
        entry("d/README", true, None, Some("README")),
        entry("d/b.jpg", true, Some("jpg"), Some("b")),
    ];
    assert_eq!(find_image_filename(&broken, "a"), Ok("d/a.jpg".to_string()));
    assert_eq!(find_image_filename(&broken, "b"), Err(ImageSearchError::NoExtension));
    let nameless = vec![entry("d/.png", true, Some("png"), None)];
    assert_eq!(find_image_filename(&nameless, "x"), Err(ImageSearchError::NoFileStem));
    assert_eq!(ImageSearchError::NoExtension.message("x"), "Failed to get file extension");
    assert_eq!(ImageSearchError::NoFileStem.message("x"), "Failed to get file stem");
    assert_eq!(ImageSearchError::NotFound.message("x"), "No matching image found for: x");
}

fn root(challenge: Option<&str>, event: Option<SubEvent>, type_field: &str) -> EventSubRoot {
    EventSubRoot {
        subscription: Subscription {
            id: "s".to_string(),
            status: "enabled".to_string(),
            type_field: type_field.to_string(),
            version: "1".to_string(),
            condition: Condition { broadcaster_user_id: "b".to_string(), reward_id: "r".to_string() },
            transport: Transport { method: "webhook".to_string(), callback: None },
            created_at: "now".to_string(),
        },
        event,
        challenge: challenge.map(String::from),
    }
}

fn sub_event(reward: Option<&str>, input: Option<&str>) -> SubEvent {
    SubEvent {
        id: "e".to_string(),
        user_id: "u".to_string(),
        user_login: "bob".to_string(),
        user_name: "Bob".to_string(),
        broadcaster_user_id: "b".to_string(),
        broadcaster_user_login: "begin".to_string(),
        broadcaster_user_name: "Begin".to_string(),
        title: None,
        tier: None,
        is_gift: None,
        reward: reward.map(|title| Reward { title: title.to_string(), cost: 100, id: "r".to_string() }),
        user_input: input.map(String::from),
    }
}

const REDEEMED: &str = "channel.channel_points_custom_reward_redemption.add";

#[test]
fn notifications_are_answered() {
    let (handling, answer) = post_request(&root(Some("abc"), Some(sub_event(None, None)), REDEEMED));
    assert_eq!((handling, answer.as_str()), (Handling::Nothing, "abc"));
    let (handling, answer) = post_request(&root(None, Some(sub_event(None, None)), REDEEMED));
    assert_eq!((handling, answer.as_str()), (Handling::Redeem, ""));
    let (handling, answer) = post_request(&root(None, Some(sub_event(None, None)), "channel.follow"));
    assert_eq!((handling, answer.as_str()), (Handling::Unhandled, ""));
    let (handling, answer) = post_request(&root(None, None, REDEEMED));
    assert_eq!((handling, answer.as_str()), (Handling::Nothing, ""));
}

fn ai_scenes() -> Vec<AIScene> {
    let scene = |title: &str, voice: &str| AIScene {
        reward_title: title.to_string(),
        base_prompt: "Speak as a pirate".to_string(),
        base_dalle_prompt: "A pirate ship".to_string(),
        voice: voice.to_string(),
        music_bg: "!pirate".to_string(),
    };
    vec![scene("Pirate", "old"), scene("Wizard", "merlin"), scene("Pirate", "new")]
}

#[test]
fn rewards_set_scenes_going() {
    let scenes = ai_scenes();
    assert_eq!(find_scene(&scenes, "Pirate"), Some(2));
    assert_eq!(find_scene(&scenes, "Wizard"), Some(1));
    assert_eq!(find_scene(&scenes, "pirate"), None);

    match handle_channel_rewards_request(&sub_event(None, Some("x")), &scenes) {
        Redemption::Nothing => {}
        other => panic!("{:?}", other),
    }
    match handle_channel_rewards_request(&sub_event(Some("Set Theme"), Some("neon")), &scenes) {
        Redemption::SetTheme { theme } => assert_eq!(theme, "neon"),
        other => panic!("{:?}", other),
    }
    match handle_channel_rewards_request(&sub_event(Some("Set Theme"), None), &scenes) {
        Redemption::SetTheme { theme } => assert_eq!(theme, ""),
        other => panic!("{:?}", other),
    }
    match handle_channel_rewards_request(&sub_event(Some("Pirate"), Some("ahoy")), &scenes) {
        Redemption::PlayScene { scene, user_input } => {
            assert_eq!(scene, 2);
            assert_eq!(user_input, "ahoy");
        }
        other => panic!("{:?}", other),
    }
    match handle_channel_rewards_request(&sub_event(Some("Ninja"), Some("ahoy")), &scenes) {
        Redemption::SceneNotFound => {}
        other => panic!("{:?}", other),
    }
}

#[test]
fn a_scene_becomes_an_event() {
    let scenes = ai_scenes();
    match process_ai_scene(&scenes[1], "Abracadabra".to_string(), "a rabbit", true, false) {
        Event::AiScenesRequest(r) => {
            assert_eq!(r.voice.as_deref(), Some("merlin"));
            assert_eq!(r.message, "Abracadabra");
            assert_eq!(r.voice_text, "Abracadabra");
            assert_eq!(r.music_bg.as_deref(), Some("!pirate"));
            assert_eq!(r.prompt.as_deref(), Some("A pirate ship a rabbit"));
            assert_eq!(r.username, "");
        }
        other => panic!("{:?}", other),
    }
    match process_ai_scene(&scenes[1], "x".to_string(), "a rabbit", false, true) {
        Event::AiScenesRequest(r) => assert_eq!(r.prompt.as_deref(), Some("A pirate ship a rabbit")),
        other => panic!("{:?}", other),
    }
    match process_ai_scene(&scenes[1], "x".to_string(), "a rabbit", false, false) {
        Event::AiScenesRequest(r) => assert_eq!(r.prompt, None),
        other => panic!("{:?}", other),
    }
    match trigger_full_scene("v".to_string(), "m".to_string(), "c".to_string(), None) {
        Event::AiScenesRequest(r) => {
            assert_eq!(r.voice.as_deref(), Some("v"));
            assert_eq!(r.music_bg.as_deref(), Some("m"));
            assert_eq!(r.message, "c");
            assert_eq!(r.voice_text, "c");
        }
        other => panic!("{:?}", other),
    }
}

#[test]
fn answers_of_the_language_model() {
    assert_eq!(ask_chat_gpt(None), Err(ChatError::NoContent));
    assert_eq!(ask_chat_gpt(Some(&ChatContent::Message(Some("hi".to_string())))), Ok("hi".to_string()));
    assert_eq!(ask_chat_gpt(Some(&ChatContent::Message(None))), Ok("".to_string()));
    let parts = ChatContent::Parts(vec![None, Some("first".to_string()), Some("second".to_string())]);
    assert_eq!(ask_chat_gpt(Some(&parts)), Ok("first".to_string()));
    assert_eq!(ask_chat_gpt(Some(&ChatContent::Parts(vec![None, None]))), Err(ChatError::NoTextContent));
    assert_eq!(ask_chat_gpt(Some(&ChatContent::Parts(vec![]))), Err(ChatError::NoTextContent));
    assert_eq!(find_first_text(&vec![None, Some("a".to_string())]), Some(1));
    assert_eq!(find_first_text(&vec![None]), None);
    assert_eq!(ChatError::NoContent.message(), "No content");
    assert_eq!(ChatError::NoTextContent.message(), "No text content found");
}

#[test]
fn chat_lines_enter_the_system() {
    let line = TwitchMessage {
        sender_id: "42".to_string(),
        sender_login: "bob".to_string(),
        sender_name: "Bob".to_string(),
        text: "hello there".to_string(),
        roles: UserRoles::default(),
    };
    let roles = UserRoles { subscriber: true, ..UserRoles::default() };
    match user_message(&line, "u-1".to_string(), roles) {
        Event::UserMessage(m) => {
            assert_eq!(m.user_id, "u-1");
            assert_eq!(m.user_name, "Bob");
            assert_eq!(m.contents, "hello there");
            assert_eq!(m.roles, roles);
            assert_eq!(m.platform, UserPlatform::Twitch);
        }
        other => panic!("{:?}", other),
    }
    let event = Event::TwitchChatMessage(line);
    assert_eq!(platform_message(&event).map(|m| m.sender_login.as_str()), Some("bob"));
    assert!(platform_message(&Event::UserMessage(message("a", "b"))).is_none());
}

#[test]
fn roles_come_with_badges() {
    let badges = |names: &[&str]| names.iter().map(|n| n.to_string()).collect::<Vec<String>>();
    assert_eq!(roles_of(&badges(&[])), UserRoles::default());
    assert_eq!(
        roles_of(&badges(&["subscriber", "vip"])),
        UserRoles { subscriber: true, vip: true, ..UserRoles::default() }
    );
    assert_eq!(
        roles_of(&badges(&["moderator", "staff", "glitchcon2020"])),
        UserRoles { moderator: true, staff: true, ..UserRoles::default() }
    );
    assert_eq!(roles_of(&badges(&["Moderator", "broadcaster"])), UserRoles::default());
}

fn privmsg(n: u32, badges: &[&str]) -> ServerLine {
    ServerLine::Privmsg {
        sender_id: "42".to_string(),
        sender_login: "bob".to_string(),
        sender_name: "Bob".to_string(),
        text: format!("line {}", n),
        badges: badges.iter().map(|b| b.to_string()).collect(),
    }
}

#[test]
fn only_lines_of_users_become_events() {
    match chat_event(&privmsg(1, &["vip"])) {
        Some(Event::TwitchChatMessage(m)) => {
            assert_eq!(m.sender_id, "42");
            assert_eq!(m.sender_login, "bob");
            assert_eq!(m.sender_name, "Bob");
            assert_eq!(m.text, "line 1");
            assert_eq!(m.roles, UserRoles { vip: true, ..UserRoles::default() });
        }
        other => panic!("{:?}", other),
    }
    assert!(chat_event(&ServerLine::Other).is_none());
}

#[test]
fn ten_thousand_chat_lines_with_a_subscriber_that_never_reads() {
    let mut bus: EventBus<Event> = EventBus::create(4);
    let mut idle = bus.subscribe();
    let mut lines = Vec::new();
    for n in 0..10_000u32 {
        lines.push(privmsg(n, &[]));
        if n % 100 == 0 {
            lines.push(ServerLine::Other);
        }
    }
    assert_eq!(read_chat(&lines, &mut bus), Ok(10_000));
    assert_eq!(bus.published(), 10_000);
    assert_eq!(read_chat(&vec![ServerLine::Other], &mut bus), Ok(0));
    assert_eq!(bus.published(), 10_000);
    assert_eq!(idle.receive(&bus).err(), Some(stream_bus::bus::RecvError::Lagged(9_996)));
    for n in 9_996..10_000u32 {
        match idle.receive(&bus) {
            Ok(Event::TwitchChatMessage(m)) => assert_eq!(m.text, format!("line {}", n)),
            other => panic!("{:?}", other),
        }
    }
}

#[test]
fn a_closed_bus_takes_no_chat_line() {
    let mut bus: EventBus<Event> = EventBus::create(4);
    bus.close();
    assert_eq!(read_chat(&vec![ServerLine::Other], &mut bus), Ok(0));
    assert_eq!(
        read_chat(&vec![privmsg(1, &[])], &mut bus),
        Err(stream_bus::bus::PublishError::Closed)
    );
    assert_eq!(bus.published(), 0);
}

#[test]
fn talking_pictures() {
    assert_eq!(friend_video_path("prime", 1700109062), "./ai_assets/prime-1700109062.mp4");
    assert_eq!(intro_video_path("prime"), "./ai_assets/prime_intro.mp4");
    assert_eq!(ai_video_path("./videos", 5), "./videos/5.mp4");
    let request = AiScenesRequest {
        voice: None,
        message: "m".to_string(),
        voice_text: "m".to_string(),
        music_bg: Some("!drama".to_string()),
        prompt: None,
        username: "bob".to_string(),
    };
    assert_eq!(trigger_ai_friend(&request, true).as_deref(), Some("!drama"));
    assert_eq!(trigger_ai_friend(&request, false), None);
    let silent = AiScenesRequest { music_bg: None, ..request };
    assert_eq!(trigger_ai_friend(&silent, true), None);
}

fn filter_names() -> FilterNames {
    FilterNames {
        default_source: "begin".to_string(),
        default_scene: "Primary".to_string(),
        transform: "3D-Transform".to_string(),
        transform_kind: "streamfx-filter-transform".to_string(),
        mover_kind: "move_value_filter".to_string(),
        transform_mover: "Default_Stream_FX".to_string(),
        scroll_mover: "Default_Scroll".to_string(),
        blur: "Blur".to_string(),
        blur_mover: "Default_Blur".to_string(),
        outline: "Outline".to_string(),
        outline_mover: "Default_SDF_Effects".to_string(),
    }
}

fn describe_step(step: &FilterStep) -> String {
    match step {
        FilterStep::Remove { name } => format!("remove {}", name),
        FilterStep::MoveSource { scene, name } => format!("move source {} in {}", name, scene),
        FilterStep::Create { name, kind, settings } => {
            format!("create {} ({}) {:?}", name, kind, settings)
        }
        FilterStep::Mover { name, kind, target, value_type, duration, setup } => format!(
            "mover {} ({}) of {} type {} in {} {:?}",
            name, kind, target, value_type, duration, setup
        ),
    }
}

fn described(steps: Vec<FilterStep>) -> Vec<String> {
    steps.iter().map(describe_step).collect()
}

#[test]
fn filters_one_by_one() {
    let names = filter_names();
    assert_eq!(
        described(create_3d_transform_filters(&names)),
        vec![
            "create 3D-Transform (streamfx-filter-transform) Default",
            "mover Move_Stream_FX (move_value_filter) of 3D-Transform type 0 in 7000 Plain",
        ]
    );
    assert_eq!(
        described(create_scroll_filters()),
        vec![
            "create Scroll (scroll_filter) Default",
            "mover Move_Scroll (move_value_filter) of Scroll type 0 in 7000 Plain",
        ]
    );
    assert_eq!(
        described(create_blur_filters(&names)),
        vec![
            "create Blur (streamfx-filter-blur) Default",
            "mover Move_Blur (move_value_filter) of Blur type 0 in 7000 Plain",
        ]
    );
    assert_eq!(
        described(create_outline_filter(&names, true)),
        vec![
            "create Outline (streamfx-filter-sdf-effects) LikeDefaultSource",
            "mover Move_Outline (move_value_filter) of Outline type 1 in 7000 Plain",
        ]
    );
    assert!(create_outline_filter(&names, false).is_empty());
    assert_eq!(
        described(create_split_3d_transform_filters(&names)),
        vec![
            "create 3D_Orthographic (streamfx-filter-transform) Camera(0)",
            "mover Move_3D_Orthographic (move_value_filter) of 3D_Orthographic type 0 in 7000 Plain",
            "mover Move_3D_Orthographic (move_value_filter) of 3D_Orthographic type 0 in 3000 Plain",
            "create 3D_Perspective (streamfx-filter-transform) Camera(1)",
            "mover Move_3D_Perspective (move_value_filter) of 3D_Perspective type 0 in 7000 Plain",
            "mover Move_3D_Perspective (move_value_filter) of 3D_Perspective type 0 in 3000 Plain",
            "create 3D_CornerPin (streamfx-filter-transform) Camera(2)",
            "mover Move_3D_CornerPin (move_value_filter) of 3D_CornerPin type 0 in 7000 Plain",
            "mover Move_3D_CornerPin (move_value_filter) of 3D_CornerPin type 0 in 3000 Plain",
        ]
    );
}

#[test]
fn filters_of_a_source() {
    let existing = vec!["Old".to_string(), "Older".to_string()];
    assert!(create_filters_for_source("begin", &filter_names(), &existing, true).is_empty());
    assert_eq!(
        described(create_filters_for_source("alex", &filter_names(), &existing, true)),
        vec![
            "remove Old",
            "remove Older",
            "move source Move_Source_Home_alex in Primary",
            "create 3D-Transform (streamfx-filter-transform) Default",
            "mover Move_Stream_FX (move_value_filter) of 3D-Transform type 0 in 7000 Plain",
            "create Scroll (scroll_filter) Default",
            "mover Move_Scroll (move_value_filter) of Scroll type 0 in 7000 Plain",
            "create Blur (streamfx-filter-blur) Default",
            "mover Move_Blur (move_value_filter) of Blur type 0 in 7000 Plain",
            "create Outline (streamfx-filter-sdf-effects) LikeDefaultSource",
            "mover Move_Outline (move_value_filter) of Outline type 1 in 7000 Plain",
            "mover Default_Stream_FX (move_value_filter) of 3D-Transform type 1 in 7000 Plain",
            "mover Default_Scroll (move_value_filter) of Scroll type 1 in 7000 Plain",
            "mover Default_Blur (move_value_filter) of Blur type 1 in 7000 Blur",
            "mover Default_SDF_Effects (move_value_filter) of Outline type 1 in 7000 Outline",
            "move source Move_Source_alex in Primary",
        ]
    );
    assert_eq!(create_filters_for_source("alex", &filter_names(), &Vec::new(), false).len(), 12);
}

#[test]
fn names_of_filters_and_settings() {
    assert_eq!(move_filter_name("3D-Transform-Perspective"), "Move_3D-Transform-Perspective");
    assert_eq!(spin("spin"), "Rotation.Z");
    assert_eq!(spin("z"), "Rotation.Z");
    assert_eq!(spin("spinx"), "Rotation.X");
    assert_eq!(spin("x"), "Rotation.X");
    assert_eq!(spin("spiny"), "Rotation.Y");
    assert_eq!(spin("y"), "Rotation.Y");
    assert_eq!(spin("else"), "Rotation.Z");
    let filters = vec!["Move_cat".to_string()];
    assert!(!find_or_create_filter(&filters, "Move_cat"));
    assert!(find_or_create_filter(&filters, "Move_dog"));
    assert!(find_or_create_filter(&Vec::new(), "Move_cat"));
    let cameras = vec![
        CameraType { setting: "Rotation.Z".to_string(), camera: 1 },
        CameraType { setting: "Corners.TopLeft.X".to_string(), camera: 2 },
        CameraType { setting: "Rotation.Z".to_string(), camera: 9 },
    ];
    assert_eq!(camera_for(&cameras, "Rotation.Z"), Some(1));
    assert_eq!(camera_for(&cameras, "Corners.TopLeft.X"), Some(2));
    assert_eq!(camera_for(&cameras, "Scale.X"), None);
}

#[test]
fn music_is_drawn_from_a_playlist() {
    let file = |name: &str, extension: Option<&str>| MusicFile {
        name: name.to_string(),
        extension: extension.map(String::from),
    };
    let files = vec![
        file("a.mp3", Some("mp3")),
        file("cover.png", Some("png")),
        file("notes", None),
        file("b.mp3", Some("mp3")),
        file("c.MP3", Some("MP3")),
    ];
    assert_eq!(mp3_files(&files), vec!["a.mp3", "b.mp3"]);
    assert_eq!(playlist_folder("Sigma"), "/home/begin/stream/Stream/BackgroundMusic/Sigma");
    assert_eq!(
        mp3_file_name("Sigma", &files, 1).as_deref(),
        Some("/home/begin/stream/Stream/BackgroundMusic/Sigma/b.mp3")
    );
    assert_eq!(mp3_file_name("Sigma", &files, 2), None);
    for _ in 0..20 {
        let path = get_random_mp3_file_name("Sigma", &files).unwrap();
        assert!(
            path == "/home/begin/stream/Stream/BackgroundMusic/Sigma/a.mp3"
                || path == "/home/begin/stream/Stream/BackgroundMusic/Sigma/b.mp3"
        );
    }
    assert_eq!(get_random_mp3_file_name("Sigma", &vec![file("x.png", Some("png"))]), None);
    assert_eq!(get_random_mp3_file_name("Sigma", &Vec::new()), None);
}

#[test]
fn skybox_requests() {
    assert_eq!(
        status_url(9612607, "KEY"),
        "https://backend.blockadelabs.com/api/v1/imagine/requests/9612607?api_key=KEY"
    );
    assert_eq!(status_url(-1, ""), "https://backend.blockadelabs.com/api/v1/imagine/requests/-1?api_key=");
    assert_eq!(request_url("KEY"), "https://backend.blockadelabs.com/api/v1/skybox?api_key=KEY");
    assert_eq!(find_style_id(vec!["a", "lush", "castle"]), 1);
    assert_eq!(find_style_id(vec![]), 1);
    let order = order_skybox("  \ta lush magical castle ");
    assert_eq!(order.prompt, "a lush magical castle ");
    assert_eq!(order.skybox_style_id, 1);
    assert_eq!(response_filepath("2024-01-01 00:00:00 UTC"), "./tmp/skybox_2024-01-01 00:00:00 UTC.json");
    assert_eq!(archive_file("20240101120000", 77), "./archive/skybox/20240101120000_77.png");
}

#[test]
fn skybox_status() {
    let mut status = SkyboxStatusResponse::default();
    assert_eq!(status.id, 0);
    assert!(!has_file(&status));
    status.file_url = "https://x/y.png".to_string();
    assert!(has_file(&status));
    let outer = OuterSkyboxStatusResponse { request: status };
    assert_eq!(outer.request.file_url, "https://x/y.png");
    let template = SkyboxTemplate { url: &outer.request.file_url };
    assert_eq!(template.url, "https://x/y.png");
}

#[test]
fn scenes_and_their_skyboxes() {
    assert_eq!(scene_skybox("office"), Some("2443168"));
    assert_eq!(scene_skybox("office1"), Some("2443168"));
    assert_eq!(scene_skybox("bar1"), Some("2451051"));
    assert_eq!(scene_skybox("bar"), Some("2449796"));
    assert_eq!(scene_skybox("beach"), None);
    assert_eq!(
        archive_path("bar", "").as_deref(),
        Some("/home/begin/code/BeginGPT/GoBeginGPT/skybox_archive/2449796.txt")
    );
    assert_eq!(
        archive_path("bar", "555").as_deref(),
        Some("/home/begin/code/BeginGPT/GoBeginGPT/skybox_archive/555.txt")
    );
    assert_eq!(
        archive_path("beach", "123").as_deref(),
        Some("/home/begin/code/BeginGPT/GoBeginGPT/skybox_archive/123.txt")
    );
    assert_eq!(archive_path("beach", ""), None);
    assert_eq!(scene_command("bar", Some("https://x")), "bar https://x");
    assert_eq!(scene_command("bar", None), "bar");
}

#[test]
fn test_lip_syncing() {
    // Test here
}

#[test]
fn test_music_video_path() {
    println!();
}
