//! Generated songs: how one is ordered, what is kept of the answer, and what is
//! announced once it can be played.

use crate::event::{Event, EventView, UserMessage, UserMessageView, UserPlatform, UserRoles};
use crate::text::{digits, digits_of};
use vstd::prelude::*;

verus! {

/// What is sent to the service to order a song.
#[derive(Debug, Clone)]
pub struct AudioGenerationData {
    pub prompt: String,
    pub make_instrumental: bool,
    pub wait_audio: bool,
}

impl Default for AudioGenerationData {
    fn default() -> (data: Self)
        ensures
            data.prompt@ == Seq::<char>::empty(),
            !data.make_instrumental,
            !data.wait_audio,
    {
        AudioGenerationData { prompt: String::new(), make_instrumental: false, wait_audio: false }
    }
}

/// The number that `text` stands for as a universally unique identifier, if it
/// stands for one.
pub uninterp spec fn uuid_value(text: Seq<char>) -> Option<u128>;

/// The error of the crate `uuid` for a text that is no identifier.
#[verifier::external_type_specification]
#[verifier::external_body]
pub struct ExUuidError(uuid::Error);

/// The number that `text` stands for as a universally unique identifier.
///
/// Trusted: this is `Uuid::parse_str` of the crate `uuid`, followed by
/// `Uuid::as_u128`. What comes back depends on the text alone; the forms of
/// writing that are accepted are not restated here, the contract only gives the
/// result its name.
#[verifier::external_body]
fn parse_uuid(text: &str) -> (parsed: Result<u128, uuid::Error>)
    ensures
        match parsed {
            Ok(value) => uuid_value(text@) == Some(value),
            Err(_) => uuid_value(text@) is None,
        },
{
    match uuid::Uuid::parse_str(text) {
        Ok(id) => Ok(id.as_u128()),
        Err(error) => Err(error),
    }
}

/// What an error of the crate `uuid` says, in its own words.
///
/// Trusted: this formats the error with its `Display`. Nothing is claimed of the
/// text.
#[verifier::external_body]
fn uuid_error_text(error: &uuid::Error) -> String {
    format!("{}", error)
}

/// The number of the song that `id` names; where it names none, what the crate
/// that read it says about it.
pub fn song_number(id: &str) -> (number: Result<u128, String>)
    ensures
        match number {
            Ok(value) => uuid_value(id@) == Some(value),
            Err(_) => uuid_value(id@) is None,
        },
{
    match parse_uuid(id) {
        Ok(value) => Ok(value),
        Err(error) => Err(uuid_error_text(&error)),
    }
}

/// One song of the answer of the service, as far as it is read. A field that is
/// missing or is no text is absent.
#[derive(Debug, Clone)]
pub struct SongData {
    pub id: Option<String>,
    pub lyric: Option<String>,
    pub title: Option<String>,
    pub prompt: Option<String>,
    pub tags: Option<String>,
    pub audio_url: Option<String>,
    pub gpt_description_prompt: Option<String>,
}

/// A song as it is put on record.
#[derive(Debug, Clone)]
pub struct Model {
    pub song_id: u128,
    pub title: String,
    pub tags: String,
    pub prompt: String,
    pub username: String,
    pub audio_url: String,
    pub gpt_description_prompt: String,
    pub lyric: Option<String>,
    pub downloaded: bool,
}

impl Model {
    /// The number of the song.
    pub fn get_song_id(&self) -> (id: u128)
        ensures
            id == self.song_id,
    {
        self.song_id
    }

    /// The title of the song.
    pub fn get_title(&self) -> (title: &str)
        ensures
            title@ == self.title@,
    {
        self.title.as_str()
    }

    /// The tags of the song.
    pub fn get_tags(&self) -> (tags: &str)
        ensures
            tags@ == self.tags@,
    {
        self.tags.as_str()
    }

    /// The prompt that the song was made from.
    pub fn get_prompt(&self) -> (prompt: &str)
        ensures
            prompt@ == self.prompt@,
    {
        self.prompt.as_str()
    }

    /// The user who ordered the song.
    pub fn get_username(&self) -> (username: &str)
        ensures
            username@ == self.username@,
    {
        self.username.as_str()
    }

    /// The address of the recording.
    pub fn get_audio_url(&self) -> (url: &str)
        ensures
            url@ == self.audio_url@,
    {
        self.audio_url.as_str()
    }

    /// The description that the song was made from.
    pub fn get_gpt_description_prompt(&self) -> (prompt: &str)
        ensures
            prompt@ == self.gpt_description_prompt@,
    {
        self.gpt_description_prompt.as_str()
    }
}

/// Why the answer of the service cannot be put on record.
#[derive(Debug, Clone, Copy, PartialEq, Eq, Structural)]
pub enum SongError {
    /// The answer holds no song at the position that was asked for.
    NoSongData,
    /// The song has no identifier.
    MissingId,
    /// The identifier of the song is no universally unique identifier.
    InvalidUuid,
}

/// An answer that cannot be put on record: why, and what is said about it.
#[derive(Debug, Clone, PartialEq, Eq)]
pub struct SongFailure {
    pub kind: SongError,
    /// What the failure says, in words.
    pub message: String,
}

impl SongFailure {
    /// What the failure says, in words.
    pub fn message(&self) -> (message: String)
        ensures
            message@ == self.message@,
    {
        self.message.clone()
    }
}

/// What is said of an answer that cannot be put on record: the position at which
/// no song was found; that the identifier is missing; or the identifier that
/// stands for nothing, with the reason that was given for it.
pub open spec fn song_error_text(
    kind: SongError,
    index: nat,
    id: Seq<char>,
    reason: Seq<char>,
) -> Seq<char> {
    match kind {
        SongError::NoSongData => "No song data at index "@ + digits(index),
        SongError::MissingId => "Missing 'id' in song data"@,
        SongError::InvalidUuid => "Invalid UUID "@ + id + ": "@ + reason,
    }
}

/// The text of a field, or the empty text for a field that is absent.
pub open spec fn field_or_empty(field: Option<String>) -> Seq<char> {
    match field {
        Some(text) => text@,
        None => Seq::<char>::empty(),
    }
}

fn text_or_empty(field: &Option<String>) -> (text: String)
    ensures
        text@ == field_or_empty(*field),
{
    match field {
        Some(text) => text.clone(),
        None => String::new(),
    }
}

fn no_song_data(index: usize) -> (failure: SongFailure)
    ensures
        failure.kind == SongError::NoSongData,
        failure.message@ == "No song data at index "@ + digits(index as nat),
{
    let mut message = String::from_str("No song data at index ");
    let position = digits_of(index as u64);
    message.append(position.as_str());
    SongFailure { kind: SongError::NoSongData, message }
}

fn missing_id() -> (failure: SongFailure)
    ensures
        failure.kind == SongError::MissingId,
        failure.message@ == "Missing 'id' in song data"@,
{
    SongFailure {
        kind: SongError::MissingId,
        message: String::from_str("Missing 'id' in song data"),
    }
}

/// The reason for which an identifier was found to stand for nothing.
pub open spec fn reason_of(number: Result<u128, String>) -> Seq<char> {
    match number {
        Ok(_) => Seq::<char>::empty(),
        Err(reason) => reason@,
    }
}

/// The record of the song `song`, found at `index` of an answer and ordered by
/// `user_name`, once its identifier is known to stand for a number or for
/// nothing. A song without an identifier, or with one that stands for nothing,
/// is an error. Fields that are absent are empty in the record, and the words of
/// the song are always present.
pub fn song_record(
    song: Option<&SongData>,
    index: usize,
    number: Result<u128, String>,
    user_name: &str,
) -> (record: Result<Model, SongFailure>)
    ensures
        match record {
            Ok(model) => {
                &&& song is Some
                &&& song->0.id is Some
                &&& number == Ok::<u128, String>(model.song_id)
                &&& model.title@ == field_or_empty(song->0.title)
                &&& model.tags@ == field_or_empty(song->0.tags)
                &&& model.prompt@ == field_or_empty(song->0.prompt)
                &&& model.username@ == user_name@
                &&& model.audio_url@ == field_or_empty(song->0.audio_url)
                &&& model.gpt_description_prompt@ == field_or_empty(
                    song->0.gpt_description_prompt,
                )
                &&& model.lyric is Some
                &&& model.lyric->0@ == field_or_empty(song->0.lyric)
                &&& !model.downloaded
            },
            Err(failure) => {
                &&& failure.kind == (if song is None {
                    SongError::NoSongData
                } else if song->0.id is None {
                    SongError::MissingId
                } else {
                    SongError::InvalidUuid
                })
                &&& failure.kind is InvalidUuid ==> number is Err
                &&& failure.message@ == song_error_text(
                    failure.kind,
                    index as nat,
                    field_or_empty(if song is Some {
                        song->0.id
                    } else {
                        None
                    }),
                    reason_of(number),
                )
            },
        },
{
    let song = match song {
        Some(song) => song,
        None => {
            return Err(no_song_data(index));
        },
    };
    let id = match &song.id {
        Some(id) => id,
        None => {
            return Err(missing_id());
        },
    };
    let song_id = match number {
        Ok(value) => value,
        Err(reason) => {
            let mut message = String::from_str("Invalid UUID ");
            message.append(id.as_str());
            message.append(": ");
            message.append(reason.as_str());
            return Err(SongFailure { kind: SongError::InvalidUuid, message });
        },
    };
    Ok(
        Model {
            song_id,
            title: text_or_empty(&song.title),
            tags: text_or_empty(&song.tags),
            prompt: text_or_empty(&song.prompt),
            username: String::from_str(user_name),
            audio_url: text_or_empty(&song.audio_url),
            gpt_description_prompt: text_or_empty(&song.gpt_description_prompt),
            lyric: Some(text_or_empty(&song.lyric)),
            downloaded: false,
        },
    )
}

/// What is done with a song of an answer: the record that is kept of it, and
/// where its files are.
#[derive(Debug, Clone)]
pub struct SongPlan {
    /// The record of the song.
    pub song: Model,
    /// The identifier of the song, as it was written.
    pub id: String,
    /// The folder that is made for the song.
    pub folder: String,
    /// The file that keeps the whole answer.
    pub file: String,
    /// The address from which the recording is fetched until it is there.
    pub url: String,
}

/// Decides what is done with the song at `index` of the answer `songs`, ordered
/// by `user_name`: its record is kept, a folder and a file are written for it,
/// and its recording is fetched and played. The errors are those of
/// `song_record`, where the identifier of the song stands for what `uuid_value`
/// says.
pub fn parse_suno_response_download_and_play(
    songs: &Vec<SongData>,
    index: usize,
    user_name: &str,
) -> (plan: Result<SongPlan, SongFailure>)
    ensures
        match plan {
            Ok(SongPlan { song: model, id, folder, file, url }) => {
                &&& index < songs@.len()
                &&& songs@[index as int].id is Some
                &&& id@ == songs@[index as int].id->0@
                &&& folder@ == "tmp/suno_responses/"@ + id@
                &&& file@ == "tmp/suno_responses/"@ + id@ + ".json"@
                &&& url@ == "https://cdn1.suno.ai/"@ + id@ + ".mp3"@
                &&& uuid_value(id@) == Some(model.song_id)
                &&& model.title@ == field_or_empty(songs@[index as int].title)
                &&& model.tags@ == field_or_empty(songs@[index as int].tags)
                &&& model.prompt@ == field_or_empty(songs@[index as int].prompt)
                &&& model.username@ == user_name@
                &&& model.audio_url@ == field_or_empty(songs@[index as int].audio_url)
                &&& model.gpt_description_prompt@ == field_or_empty(
                    songs@[index as int].gpt_description_prompt,
                )
                &&& model.lyric is Some
                &&& model.lyric->0@ == field_or_empty(songs@[index as int].lyric)
                &&& !model.downloaded
            },
            Err(failure) => match failure.kind {
                SongError::NoSongData => index >= songs@.len() && failure.message@
                    == "No song data at index "@ + digits(index as nat),
                SongError::MissingId => index < songs@.len() && songs@[index as int].id is None
                    && failure.message@ == "Missing 'id' in song data"@,
                SongError::InvalidUuid => index < songs@.len() && songs@[index as int].id is Some
                    && uuid_value(songs@[index as int].id->0@) is None && exists|
                    reason: Seq<char>,
                |
                    failure.message@ == #[trigger] song_error_text(
                        SongError::InvalidUuid,
                        index as nat,
                        songs@[index as int].id->0@,
                        reason,
                    ),
            },
        },
{
    if index >= songs.len() {
        return Err(no_song_data(index));
    }
    let song = &songs[index];
    let id = match &song.id {
        Some(id) => id.clone(),
        None => {
            return Err(missing_id());
        },
    };
    let number = song_number(id.as_str());
    match song_record(Some(song), index, number, user_name) {
        Ok(model) => {
            let folder = response_folder(id.as_str());
            let file = response_file(id.as_str());
            let url = cdn_url(id.as_str());
            Ok(SongPlan { song: model, id, folder, file, url })
        },
        Err(failure) => Err(failure),
    }
}

/// The folder that holds what belongs to the answer about the song `id`.
pub fn response_folder(id: &str) -> (path: String)
    ensures
        path@ == "tmp/suno_responses/"@ + id@,
{
    let mut path = String::from_str("tmp/suno_responses/");
    path.append(id);
    path
}

/// The file that keeps the answer about the song `id`.
pub fn response_file(id: &str) -> (path: String)
    ensures
        path@ == "tmp/suno_responses/"@ + id@ + ".json"@,
{
    let mut path = String::from_str("tmp/suno_responses/");
    path.append(id);
    path.append(".json");
    path
}

/// The file that holds the recording of the song `id`.
pub fn song_file(id: &str) -> (path: String)
    ensures
        path@ == "ai_songs/"@ + id@ + ".mp3"@,
{
    let mut path = String::from_str("ai_songs/");
    path.append(id);
    path.append(".mp3");
    path
}

/// The address from which the recording of the song `id` is fetched.
pub fn cdn_url(id: &str) -> (url: String)
    ensures
        url@ == "https://cdn1.suno.ai/"@ + id@ + ".mp3"@,
{
    let mut url = String::from_str("https://cdn1.suno.ai/");
    url.append(id);
    url.append(".mp3");
    url
}

/// The address that tells what is known of the song `id`.
pub fn information_url(id: &str) -> (url: String)
    ensures
        url@ == "http://localhost:3000"@ + "/api/get?ids="@ + id@,
{
    let mut url = String::from_str("http://localhost:3000");
    url.append("/api/get?ids=");
    url.append(id);
    url
}

/// What the chat is told when a song is put into the queue by name.
pub fn queued_message(user_name: &str, id: &str) -> (line: String)
    ensures
        line@ == "@"@ + user_name@ + " added "@ + id@ + " to Queue"@,
{
    let mut line = String::from_str("@");
    line.append(user_name);
    line.append(" added ");
    line.append(id);
    line.append(" to Queue");
    line
}

/// How an attempt to fetch a recording went.
#[derive(Debug, Clone, Copy, PartialEq, Eq, Structural)]
pub enum Fetch {
    /// The recording is there.
    Ready,
    /// The service answered, but the recording is not there yet.
    NotReady,
    /// The service could not be reached.
    Failed,
}

/// What follows an attempt to fetch the recording of a song.
#[derive(Debug, Clone)]
pub enum AfterFetch {
    /// Wait this many seconds and try again.
    RetryAfter(u64),
    /// The recording is kept; the chat is told, and the song is asked to be played.
    Finished { announce: String, play: Event },
}

/// What the chat is told once the recording of a song is there.
pub open spec fn ready_message(user_name: Seq<char>, id: Seq<char>) -> Seq<char> {
    "@"@ + user_name + "'s song "@ + id + " added to the Queue."@
}

/// The chat line by which the bot asks for the song `id` to be played.
pub open spec fn play_request(id: Seq<char>) -> EventView {
    EventView::UserMessage(
        UserMessageView {
            user_id: Seq::<char>::empty(),
            user_name: "beginbot"@,
            roles: UserRoles { staff: false, moderator: false, subscriber: false, vip: false },
            platform: UserPlatform::Twitch,
            contents: "!play "@ + id,
        },
    )
}

/// What follows an attempt to fetch the recording of the song `id`, ordered by
/// `user_name`: a recording that is there ends the waiting, with a word to the
/// chat and a request to play it; anything else is tried again five seconds
/// later.
pub fn download_and_play(fetch: Fetch, user_name: &str, id: &str) -> (next: AfterFetch)
    ensures
        match next {
            AfterFetch::RetryAfter(seconds) => !(fetch is Ready) && seconds == 5,
            AfterFetch::Finished { announce, play } => fetch is Ready && announce@ == ready_message(
                user_name@,
                id@,
            ) && play@ == play_request(id@),
        },
{
    match fetch {
        Fetch::Ready => {
            let mut announce = String::from_str("@");
            announce.append(user_name);
            announce.append("'s song ");
            announce.append(id);
            announce.append(" added to the Queue.");
            let mut contents = String::from_str("!play ");
            contents.append(id);
            let play = Event::UserMessage(
                UserMessage {
                    user_id: String::new(),
                    user_name: String::from_str("beginbot"),
                    roles: UserRoles {
                        staff: false,
                        moderator: false,
                        subscriber: false,
                        vip: false,
                    },
                    platform: UserPlatform::Twitch,
                    contents,
                },
            );
            AfterFetch::Finished { announce, play }
        },
        _ => AfterFetch::RetryAfter(5),
    }
}

} // verus!
