use stream_bus::event::Event;
use stream_bus::songs::{
    cdn_url, download_and_play, information_url, parse_suno_response_download_and_play, queued_message,
    response_file, response_folder, song_file, song_number, song_record, AfterFetch,
    AudioGenerationData, Fetch, SongData, SongError,
};
use uuid::Uuid;

fn song(id: Option<&str>) -> SongData {
    SongData {
        id: id.map(String::from),
        lyric: Some("la la".to_string()),
        title: Some("Song".to_string()),
        prompt: None,
        tags: Some("pop".to_string()),
        audio_url: None,
        gpt_description_prompt: Some("a happy song".to_string()),
    }
}

#[test]
fn test_uuid_parsing() {
    let uuid_str = "ba11ad0f-dad5-c001-c001-700bac001e57";
    assert!(Uuid::parse_str(uuid_str).is_ok());
    assert!(song_number(uuid_str).is_ok());
}

#[test]
fn identifiers_are_read_as_numbers() {
    assert_eq!(
        song_number("ba11ad0f-dad5-c001-c001-700bac001e57"),
        Ok(0xba11ad0f_dad5_c001_c001_700bac001e57)
    );
    assert_eq!(
        song_number("BA11AD0FDAD5C001C001700BAC001E57"),
        Ok(0xba11ad0f_dad5_c001_c001_700bac001e57)
    );
    assert_eq!(song_number("00000000-0000-0000-0000-000000000001"), Ok(1));
    assert!(song_number("not-a-uuid").is_err());
    assert!(song_number("").is_err());
    assert_eq!(
        song_number("1").err(),
        Uuid::parse_str("1").err().map(|e| e.to_string())
    );
}

#[test]
fn an_order_starts_empty() {
    let data = AudioGenerationData::default();
    assert_eq!(data.prompt, "");
    assert!(!data.make_instrumental);
    assert!(!data.wait_audio);
}

#[test]
fn a_song_is_put_on_record() {
    let songs = vec![song(Some("not a uuid")), song(Some("00000000-0000-0000-0000-00000000002a"))];
    let plan = parse_suno_response_download_and_play(&songs, 1, "carol").unwrap();
    assert_eq!(plan.id, "00000000-0000-0000-0000-00000000002a");
    assert_eq!(plan.folder, "tmp/suno_responses/00000000-0000-0000-0000-00000000002a");
    assert_eq!(plan.file, "tmp/suno_responses/00000000-0000-0000-0000-00000000002a.json");
    assert_eq!(plan.url, "https://cdn1.suno.ai/00000000-0000-0000-0000-00000000002a.mp3");
    let model = plan.song;
    assert_eq!(model.get_song_id(), 42);
    assert_eq!(model.get_title(), "Song");
    assert_eq!(model.get_tags(), "pop");
    assert_eq!(model.get_prompt(), "");
    assert_eq!(model.get_username(), "carol");
    assert_eq!(model.get_audio_url(), "");
    assert_eq!(model.get_gpt_description_prompt(), "a happy song");
    assert_eq!(model.lyric.as_deref(), Some("la la"));
    assert!(!model.downloaded);
}

#[test]
fn missing_words_are_recorded_as_empty() {
    let mut s = song(Some("00000000-0000-0000-0000-00000000002a"));
    s.lyric = None;
    let model = song_record(Some(&s), 0, Ok(42), "carol").unwrap();
    assert_eq!(model.lyric.as_deref(), Some(""));
}

#[test]
fn what_cannot_be_put_on_record() {
    let songs = vec![song(Some("not a uuid")), song(None)];
    let kind = |index: usize| {
        parse_suno_response_download_and_play(&songs, index, "carol").err().map(|f| f.kind)
    };
    assert_eq!(kind(2), Some(SongError::NoSongData));
    assert_eq!(kind(1), Some(SongError::MissingId));
    assert_eq!(kind(0), Some(SongError::InvalidUuid));
    assert_eq!(
        parse_suno_response_download_and_play(&Vec::new(), 0, "carol").err().map(|f| f.kind),
        Some(SongError::NoSongData)
    );
    let failure = song_record(None, 7, Ok(1), "carol").err().unwrap();
    assert_eq!(failure.kind, SongError::NoSongData);
    let failure = song_record(Some(&song(None)), 0, Ok(1), "carol").err().unwrap();
    assert_eq!(failure.kind, SongError::MissingId);
    let failure =
        song_record(Some(&song(Some("x"))), 0, Err("too short".to_string()), "carol").err().unwrap();
    assert_eq!(failure.kind, SongError::InvalidUuid);
    assert_eq!(failure.message(), "Invalid UUID x: too short");
}

#[test]
fn what_is_said_of_an_answer_that_cannot_be_put_on_record() {
    let songs = vec![song(Some("not a uuid")), song(None)];
    let message = |index: usize| {
        parse_suno_response_download_and_play(&songs, index, "carol").err().map(|f| f.message())
    };
    assert_eq!(message(12).as_deref(), Some("No song data at index 12"));
    assert_eq!(message(1).as_deref(), Some("Missing 'id' in song data"));
    let reason = Uuid::parse_str("not a uuid").err().unwrap().to_string();
    assert_eq!(message(0), Some(format!("Invalid UUID not a uuid: {}", reason)));
}

#[test]
fn paths_and_addresses() {
    assert_eq!(response_folder("abc"), "tmp/suno_responses/abc");
    assert_eq!(response_file("abc"), "tmp/suno_responses/abc.json");
    assert_eq!(song_file("abc"), "ai_songs/abc.mp3");
    assert_eq!(cdn_url("abc"), "https://cdn1.suno.ai/abc.mp3");
    assert_eq!(information_url("abc"), "http://localhost:3000/api/get?ids=abc");
    assert_eq!(queued_message("carol", "abc"), "@carol added abc to Queue");
}

#[test]
fn a_recording_is_waited_for() {
    match download_and_play(Fetch::NotReady, "carol", "abc") {
        AfterFetch::RetryAfter(seconds) => assert_eq!(seconds, 5),
        other => panic!("{:?}", other),
    }
    match download_and_play(Fetch::Failed, "carol", "abc") {
        AfterFetch::RetryAfter(seconds) => assert_eq!(seconds, 5),
        other => panic!("{:?}", other),
    }
    match download_and_play(Fetch::Ready, "carol", "abc") {
        AfterFetch::Finished { announce, play: Event::UserMessage(m) } => {
            assert_eq!(announce, "@carol's song abc added to the Queue.");
            assert_eq!(m.user_name, "beginbot");
            assert_eq!(m.contents, "!play abc");
            assert_eq!(m.user_id, "");
            assert!(!m.roles.moderator && !m.roles.staff && !m.roles.subscriber && !m.roles.vip);
        }
        other => panic!("{:?}", other),
    }
}
