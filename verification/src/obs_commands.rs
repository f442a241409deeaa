//! The chat commands that drive the scene: which command a chat line is, what it
//! is about, who may give it, and which events it publishes.
//!
//! A chat line is taken apart at its spaces. The first piece names the command;
//! the pieces behind it are its arguments, with defaults that most commands share.

use crate::event::{
    event_views, Event, EventView, SkyboxRequest, TransformOBSTextRequest,
    TransformOBSTextRequestView, TriggerHotkeyRequest, UserMessage, UserRoles,
};
use crate::text::{
    chars_of, join, join_from, parse_u32, parsed_u32, same, split, split_on, tail, to_upper, trim,
    trimmed, uppercase, views,
};
use crate::voice::{talk_in_voice, voice_command_event};
use vstd::prelude::*;

verus! {

/// The commands.
#[derive(Debug, Clone, Copy, PartialEq, Eq, Structural)]
pub enum CommandKind {
    /// Stretch the main source to three times its width.
    Wide,
    /// Switch the three default transforms of the main source back on.
    Normal,
    /// Tilt the main source by one setting.
    Nerd3,
    /// Move the main source into the `nerd` pose.
    Nerd,
    /// Move the main source into the `chad` pose.
    Chad,
    /// Hide the speech bubble and show it again.
    ReloadRapper,
    /// A place for experiments: does nothing.
    Durf,
    /// Switch to sound effects that chat lines set off by their words.
    Implicit,
    /// Switch to sound effects that have to be asked for.
    Explicit,
    /// Tell the chat the state of the stream.
    State,
    /// Show the generated artwork with the given number.
    ArtBlock,
    /// Show an artwork of the series `chimera`.
    Chimera,
    /// Show an artwork of the series `watercolor`.
    Watercolor,
    /// Show an artwork of the series `pig`.
    Pig,
    /// Show an artwork of the series `run`.
    Run,
    /// Show an artwork of the series `vortex`.
    Vortex,
    /// Show an artwork of the series `memories`.
    Memories,
    /// Show an artwork of the series `dopamine`.
    Dopamine,
    /// Stop the music and the voice for everybody.
    Nothing,
    /// Once spoke in a voice drawn at random: does nothing.
    Random,
    /// Give every user their own voice again.
    NoGlobalVoice,
    /// Set one voice for everybody.
    GlobalVoice,
    /// Put a voice on record for the user.
    SetVoice,
    /// Generate a picture from the rest of the line.
    Dalle,
    /// Speak the rest of the line in the voice that is named.
    Voice,
    /// Once scrolled a source: does nothing.
    Scroll,
    /// Once blurred a source: does nothing.
    Blur,
    /// Once took the blur off a source: does nothing.
    Unblur,
    /// Scale a source.
    Scale,
    /// Move a source to a position.
    Move,
    /// Scale a source the old way.
    Grow,
    /// Move a source to the top right corner.
    TopRight,
    /// Move a source to the corner at the bottom.
    BottomLeft,
    /// Show the scene with the memes.
    Memes,
    /// Hide the scene with the memes.
    NoMemes,
    /// Switch to the view of the chat.
    Chat,
    /// Switch to the view of the code.
    Code,
    /// Hide every source of the scene with the memes.
    Hide,
    /// Show a source of the scene with the memes.
    Show,
    /// Trigger the hotkey that is named.
    Hotkey,
    /// Put a source into the default scene.
    CreateSource,
    /// Create the transform filters of a source.
    Create3dFilters,
    /// Create every filter that a source needs.
    CreateFiltersForSource,
    /// Print what is known of a source.
    SourceInfo,
    /// Print the settings of a filter of the main source.
    FilterInfo,
    /// Draw an outline round a source.
    Outline,
    /// Bring a source back to normal.
    Norm,
    /// Make the sources follow a leader.
    Follow,
    /// Dress the main source as staff.
    Staff,
    /// Spin the main source.
    Spin,
    /// Change one setting of the transform of a source.
    ThreeD,
    /// Go back to an earlier skybox.
    Previous,
    /// List the styles of the skybox generator.
    Styles,
    /// Generate a skybox from the rest of the line.
    Skybox,
    /// Remix the skybox as the rest of the line says.
    Remix,
    /// Show a greeting on the soundboard.
    Talk,
    /// Create the text source of the soundboard.
    SoundboardText,
    /// Once set a character: does nothing.
    SetCharacter,
    /// Create a character for a source.
    Character,
    /// Anything else: no command of this list.
    Other,
}

/// The command that a chat line with the first piece `word` gives.
pub open spec fn command_kind(word: Seq<char>) -> CommandKind {
    if word == "!wide"@ {
        CommandKind::Wide
    }     else if word == "!normal"@ {
        CommandKind::Normal
    }     else if word == "!nerd3"@ {
        CommandKind::Nerd3
    }     else if word == "!nerd"@ {
        CommandKind::Nerd
    }     else if word == "!chad"@ {
        CommandKind::Chad
    }     else if word == "!reload_rapper"@ {
        CommandKind::ReloadRapper
    }     else if word == "!durf"@ {
        CommandKind::Durf
    }     else if word == "!implicit"@ || word == "!peace"@ {
        CommandKind::Implicit
    }     else if word == "!explicit"@ {
        CommandKind::Explicit
    }     else if word == "!state"@ {
        CommandKind::State
    }     else if word == "!ab"@ {
        CommandKind::ArtBlock
    }     else if word == "!chimera"@ {
        CommandKind::Chimera
    }     else if word == "!watercolor"@ {
        CommandKind::Watercolor
    }     else if word == "!pig"@ {
        CommandKind::Pig
    }     else if word == "!run"@ {
        CommandKind::Run
    }     else if word == "!vortex"@ || word == "!v"@ {
        CommandKind::Vortex
    }     else if word == "!memories"@ || word == "!m"@ {
        CommandKind::Memories
    }     else if word == "!steviep"@ || word == "!dopamine"@ || word == "!d"@ {
        CommandKind::Dopamine
    }     else if word == "!nothing"@ {
        CommandKind::Nothing
    }     else if word == "!random"@ {
        CommandKind::Random
    }     else if word == "!no_global_voice"@ {
        CommandKind::NoGlobalVoice
    }     else if word == "!global_voice"@ {
        CommandKind::GlobalVoice
    }     else if word == "!set_voice"@ || word == "!setvoice"@ || word == "!set_name"@ || word == "!setname"@ {
        CommandKind::SetVoice
    }     else if word == "!dalle"@ {
        CommandKind::Dalle
    }     else if word == "!voice"@ {
        CommandKind::Voice
    }     else if word == "!scroll"@ {
        CommandKind::Scroll
    }     else if word == "!blur"@ {
        CommandKind::Blur
    }     else if word == "!noblur"@ || word == "!unblur"@ {
        CommandKind::Unblur
    }     else if word == "!grow"@ || word == "!scale"@ {
        CommandKind::Scale
    }     else if word == "!move"@ {
        CommandKind::Move
    }     else if word == "!gg"@ {
        CommandKind::Grow
    }     else if word == "!tr"@ {
        CommandKind::TopRight
    }     else if word == "!bl"@ {
        CommandKind::BottomLeft
    }     else if word == "!memes"@ {
        CommandKind::Memes
    }     else if word == "!nomemes"@ || word == "!nojokes"@ || word == "!work"@ {
        CommandKind::NoMemes
    }     else if word == "!chat"@ {
        CommandKind::Chat
    }     else if word == "!code"@ {
        CommandKind::Code
    }     else if word == "!hide"@ {
        CommandKind::Hide
    }     else if word == "!show"@ {
        CommandKind::Show
    }     else if word == "!hk"@ {
        CommandKind::Hotkey
    }     else if word == "!create_source"@ {
        CommandKind::CreateSource
    }     else if word == "!create_3d_filters"@ {
        CommandKind::Create3dFilters
    }     else if word == "!create_filters_for_source"@ {
        CommandKind::CreateFiltersForSource
    }     else if word == "!source"@ {
        CommandKind::SourceInfo
    }     else if word == "!filter"@ {
        CommandKind::FilterInfo
    }     else if word == "!outline"@ {
        CommandKind::Outline
    }     else if word == "!norm"@ {
        CommandKind::Norm
    }     else if word == "!follow"@ {
        CommandKind::Follow
    }     else if word == "!staff"@ {
        CommandKind::Staff
    }     else if word == "!spin"@ || word == "!spinx"@ || word == "spiny"@ {
        CommandKind::Spin
    }     else if word == "!3d"@ {
        CommandKind::ThreeD
    }     else if word == "!previous"@ {
        CommandKind::Previous
    }     else if word == "!styles"@ {
        CommandKind::Styles
    }     else if word == "!skybox"@ {
        CommandKind::Skybox
    }     else if word == "!remix"@ {
        CommandKind::Remix
    }     else if word == "!talk"@ {
        CommandKind::Talk
    }     else if word == "!soundboard_text"@ {
        CommandKind::SoundboardText
    }     else if word == "!set_character"@ {
        CommandKind::SetCharacter
    }     else if word == "!character"@ {
        CommandKind::Character
    } else {
        CommandKind::Other
    }
}

/// The command that a chat line with the first piece `word` gives.
pub fn classify(word: &str) -> (kind: CommandKind)
    ensures
        kind == command_kind(word@),
{
    if same(word, "!wide") {
        CommandKind::Wide
    }     else if same(word, "!normal") {
        CommandKind::Normal
    }     else if same(word, "!nerd3") {
        CommandKind::Nerd3
    }     else if same(word, "!nerd") {
        CommandKind::Nerd
    }     else if same(word, "!chad") {
        CommandKind::Chad
    }     else if same(word, "!reload_rapper") {
        CommandKind::ReloadRapper
    }     else if same(word, "!durf") {
        CommandKind::Durf
    }     else if same(word, "!implicit") || same(word, "!peace") {
        CommandKind::Implicit
    }     else if same(word, "!explicit") {
        CommandKind::Explicit
    }     else if same(word, "!state") {
        CommandKind::State
    }     else if same(word, "!ab") {
        CommandKind::ArtBlock
    }     else if same(word, "!chimera") {
        CommandKind::Chimera
    }     else if same(word, "!watercolor") {
        CommandKind::Watercolor
    }     else if same(word, "!pig") {
        CommandKind::Pig
    }     else if same(word, "!run") {
        CommandKind::Run
    }     else if same(word, "!vortex") || same(word, "!v") {
        CommandKind::Vortex
    }     else if same(word, "!memories") || same(word, "!m") {
        CommandKind::Memories
    }     else if same(word, "!steviep") || same(word, "!dopamine") || same(word, "!d") {
        CommandKind::Dopamine
    }     else if same(word, "!nothing") {
        CommandKind::Nothing
    }     else if same(word, "!random") {
        CommandKind::Random
    }     else if same(word, "!no_global_voice") {
        CommandKind::NoGlobalVoice
    }     else if same(word, "!global_voice") {
        CommandKind::GlobalVoice
    }     else if same(word, "!set_voice") || same(word, "!setvoice") || same(word, "!set_name") || same(word, "!setname") {
        CommandKind::SetVoice
    }     else if same(word, "!dalle") {
        CommandKind::Dalle
    }     else if same(word, "!voice") {
        CommandKind::Voice
    }     else if same(word, "!scroll") {
        CommandKind::Scroll
    }     else if same(word, "!blur") {
        CommandKind::Blur
    }     else if same(word, "!noblur") || same(word, "!unblur") {
        CommandKind::Unblur
    }     else if same(word, "!grow") || same(word, "!scale") {
        CommandKind::Scale
    }     else if same(word, "!move") {
        CommandKind::Move
    }     else if same(word, "!gg") {
        CommandKind::Grow
    }     else if same(word, "!tr") {
        CommandKind::TopRight
    }     else if same(word, "!bl") {
        CommandKind::BottomLeft
    }     else if same(word, "!memes") {
        CommandKind::Memes
    }     else if same(word, "!nomemes") || same(word, "!nojokes") || same(word, "!work") {
        CommandKind::NoMemes
    }     else if same(word, "!chat") {
        CommandKind::Chat
    }     else if same(word, "!code") {
        CommandKind::Code
    }     else if same(word, "!hide") {
        CommandKind::Hide
    }     else if same(word, "!show") {
        CommandKind::Show
    }     else if same(word, "!hk") {
        CommandKind::Hotkey
    }     else if same(word, "!create_source") {
        CommandKind::CreateSource
    }     else if same(word, "!create_3d_filters") {
        CommandKind::Create3dFilters
    }     else if same(word, "!create_filters_for_source") {
        CommandKind::CreateFiltersForSource
    }     else if same(word, "!source") {
        CommandKind::SourceInfo
    }     else if same(word, "!filter") {
        CommandKind::FilterInfo
    }     else if same(word, "!outline") {
        CommandKind::Outline
    }     else if same(word, "!norm") {
        CommandKind::Norm
    }     else if same(word, "!follow") {
        CommandKind::Follow
    }     else if same(word, "!staff") {
        CommandKind::Staff
    }     else if same(word, "!spin") || same(word, "!spinx") || same(word, "spiny") {
        CommandKind::Spin
    }     else if same(word, "!3d") {
        CommandKind::ThreeD
    }     else if same(word, "!previous") {
        CommandKind::Previous
    }     else if same(word, "!styles") {
        CommandKind::Styles
    }     else if same(word, "!skybox") {
        CommandKind::Skybox
    }     else if same(word, "!remix") {
        CommandKind::Remix
    }     else if same(word, "!talk") {
        CommandKind::Talk
    }     else if same(word, "!soundboard_text") {
        CommandKind::SoundboardText
    }     else if same(word, "!set_character") {
        CommandKind::SetCharacter
    }     else if same(word, "!character") {
        CommandKind::Character
    } else {
        CommandKind::Other
    }
}

/// The pieces of a chat line: what stands between its spaces.
pub fn message_words(message: &UserMessage) -> (pieces: Vec<String>)
    ensures
        views(pieces@) == split(message.contents@, ' '),
        pieces@.len() >= 1,
{
    split_on(message.contents.as_str(), ' ')
}

/// The chat line behind an event, if `event` is one.
pub fn chat_line(event: &Event) -> (message: Option<&UserMessage>)
    ensures
        match message {
            Some(m) => *event == Event::UserMessage(*m),
            None => !(event is UserMessage),
        },
{
    match event {
        Event::UserMessage(message) => Some(message),
        _ => None,
    }
}

/// The piece at `index`, or `fallback` when the line has no such piece.
pub open spec fn piece_or(words: Seq<Seq<char>>, index: int, fallback: Seq<char>) -> Seq<char> {
    if 0 <= index < words.len() {
        words[index]
    } else {
        fallback
    }
}

/// The piece at `index`, or `fallback` when the line has no such piece.
pub fn argument_or(words: &Vec<String>, index: usize, fallback: &str) -> (piece: String)
    ensures
        piece@ == piece_or(views(words@), index as int, fallback@),
{
    if index < words.len() {
        words[index].clone()
    } else {
        String::from_str(fallback)
    }
}

/// The pieces behind the command, put together again with one space between each
/// two of them.
pub open spec fn rest(words: Seq<Seq<char>>) -> Seq<char> {
    join(tail(words, 1), " "@)
}

/// The pieces behind the command, put together again.
pub fn rest_of_line(words: &Vec<String>) -> (line: String)
    ensures
        line@ == rest(views(words@)),
{
    join_from(words, 1, " ")
}

/// What most commands take from the line when it says nothing else.
#[derive(Debug, Clone)]
pub struct CommandDefaults {
    /// The source that the command is about.
    pub source: String,
    /// How long a movement takes, in milliseconds.
    pub duration: u32,
    /// The value of a setting, as it was written.
    pub filter_value: Option<String>,
}

/// How long a movement takes when the line does not say: three seconds.
pub open spec fn default_duration() -> u32 {
    3000
}

/// How long a movement takes: the fifth piece of the line as a number, or three
/// seconds when there is none or it is no number.
pub open spec fn duration_of(words: Seq<Seq<char>>) -> u32 {
    if words.len() > 4 {
        match parsed_u32(trimmed(words[4])) {
            Some(duration) => duration,
            None => default_duration(),
        }
    } else {
        default_duration()
    }
}

/// What the command takes from the line: its second piece as the source, or
/// `default_source`; its fifth piece as the duration; its fourth piece as the
/// value of a setting.
pub fn command_defaults(words: &Vec<String>, default_source: &str) -> (defaults: CommandDefaults)
    ensures
        defaults.source@ == piece_or(views(words@), 1, default_source@),
        defaults.duration == duration_of(views(words@)),
        defaults.filter_value is Some == (words@.len() > 3),
        words@.len() > 3 ==> defaults.filter_value->0@ == words@[3]@,
{
    let source = argument_or(words, 1, default_source);
    let duration = if words.len() > 4 {
        let piece = chars_of(words[4].as_str());
        match parse_u32(&trim(&piece)) {
            Some(duration) => duration,
            None => 3000,
        }
    } else {
        3000
    };
    let filter_value = if words.len() > 3 {
        Some(words[3].clone())
    } else {
        None
    };
    CommandDefaults { source, duration, filter_value }
}

/// Whether a user may give a command: stopping the music takes a moderator or a
/// guest of honour, the voice for everybody is the broadcaster's to set, and
/// everything else is open to all.
pub open spec fn permitted(kind: CommandKind, roles: UserRoles, user_name: Seq<char>) -> bool {
    match kind {
        CommandKind::Nothing => roles.moderator || roles.vip,
        CommandKind::NoGlobalVoice => user_name == "beginbot"@,
        CommandKind::GlobalVoice => user_name == "beginbot"@,
        _ => true,
    }
}

/// Whether `message` comes from a user who may give the command `kind`.
pub fn may_run(kind: CommandKind, message: &UserMessage) -> (allowed: bool)
    ensures
        allowed == permitted(kind, message.roles, message.user_name@),
{
    match kind {
        CommandKind::Nothing => message.roles.is_twitch_mod() || message.roles.is_twitch_vip(),
        CommandKind::NoGlobalVoice => same(message.user_name.as_str(), "beginbot"),
        CommandKind::GlobalVoice => same(message.user_name.as_str(), "beginbot"),
        _ => true,
    }
}

/// How many pieces a line must have for its command to make sense: the number of
/// an artwork and the name of a hotkey cannot be left out.
pub open spec fn pieces_needed(kind: CommandKind) -> nat {
    match kind {
        CommandKind::ArtBlock => 2,
        CommandKind::Hotkey => 2,
        _ => 1,
    }
}

/// Whether the line has the pieces that its command cannot do without.
pub fn has_needed_pieces(kind: CommandKind, words: &Vec<String>) -> (enough: bool)
    ensures
        enough == (words@.len() >= pieces_needed(kind)),
{
    match kind {
        CommandKind::ArtBlock => words.len() >= 2,
        CommandKind::Hotkey => words.len() >= 2,
        _ => words.len() >= 1,
    }
}

/// Why a command cannot be carried out.
#[derive(Debug, Clone, Copy, PartialEq, Eq, Structural)]
pub enum CommandError {
    /// A setting of the transform was to be changed, and the line does not name it.
    MissingFilterName,
    /// The line lacks a piece that its command cannot do without.
    MissingArgument,
}

impl CommandError {
    /// What the error says, in words.
    pub open spec fn text(self) -> Seq<char> {
        match self {
            CommandError::MissingFilterName => "We don't have a filter name, can't proceed"@,
            CommandError::MissingArgument => "The command needs an argument that the line lacks"@,
        }
    }

    /// What the error says, in words.
    pub fn message(&self) -> (message: String)
        ensures
            message@ == self.text(),
    {
        match self {
            CommandError::MissingFilterName => String::from_str(
                "We don't have a filter name, can't proceed",
            ),
            CommandError::MissingArgument => String::from_str(
                "The command needs an argument that the line lacks",
            ),
        }
    }
}

/// What a command still needs from the line before anything is done.
#[derive(Debug, Clone, Copy, PartialEq, Eq, Structural)]
pub enum Readiness {
    /// Everything is there.
    Ready,
    /// A source was to be moved, and the line gives no position: the chat is told
    /// that X and Y are missing.
    MissingPosition,
}

/// Whether a command can be carried out on a line of `count` pieces. A line that
/// lacks a piece that its command cannot do without is an error, and so is a
/// change of a transform that names no setting; a move without a position is
/// answered with a word to the chat.
pub open spec fn readiness(kind: CommandKind, count: nat) -> Result<Readiness, CommandError> {
    if count < pieces_needed(kind) {
        Err(CommandError::MissingArgument)
    } else {
        match kind {
            CommandKind::ThreeD => if count < 3 {
                Err(CommandError::MissingFilterName)
            } else {
                Ok(Readiness::Ready)
            },
            CommandKind::Move => if count > 3 {
                Ok(Readiness::Ready)
            } else {
                Ok(Readiness::MissingPosition)
            },
            _ => Ok(Readiness::Ready),
        }
    }
}

/// Whether the command `kind` can be carried out on the line `words`.
pub fn check_ready(kind: CommandKind, words: &Vec<String>) -> (ready: Result<
    Readiness,
    CommandError,
>)
    ensures
        ready == readiness(kind, words@.len()),
{
    if !has_needed_pieces(kind, words) {
        return Err(CommandError::MissingArgument);
    }
    match kind {
        CommandKind::ThreeD => {
            if words.len() < 3 {
                Err(CommandError::MissingFilterName)
            } else {
                Ok(Readiness::Ready)
            }
        },
        CommandKind::Move => {
            if words.len() > 3 {
                Ok(Readiness::Ready)
            } else {
                Ok(Readiness::MissingPosition)
            }
        },
        _ => Ok(Readiness::Ready),
    }
}

/// A series of generated artworks: the contract that holds it and the numbers of
/// its first and last piece.
#[derive(Debug, Clone)]
pub struct ArtSeries {
    pub contract: String,
    pub lower_bound: u32,
    pub upper_bound: u32,
}

/// The contract of the older series.
pub open spec fn older_contract() -> Seq<char> {
    "0xa7d8d9ef8d8ce8992df33d8b8cf4aebabd5bd270"@
}

/// The contract of the newer series.
pub open spec fn newer_contract() -> Seq<char> {
    "0x99a9b7c1116f9ceeb1652de04d5969cce509b069"@
}

/// The series that a command shows a piece of: its contract and its bounds.
pub open spec fn art_series_of(kind: CommandKind) -> Option<(Seq<char>, u32, u32)> {
    match kind {
        CommandKind::Chimera => Some((older_contract(), 233000000u32, 233000986u32)),
        CommandKind::Watercolor => Some((older_contract(), 59000000u32, 59000599u32)),
        CommandKind::Pig => Some((older_contract(), 129000000u32, 129001023u32)),
        CommandKind::Run => Some((older_contract(), 138000000u32, 138000999u32)),
        CommandKind::Vortex => Some((older_contract(), 225000000u32, 225000999u32)),
        CommandKind::Memories => Some((newer_contract(), 428000000u32, 428000449u32)),
        CommandKind::Dopamine => Some((newer_contract(), 457000000u32, 457000776u32)),
        _ => None,
    }
}

/// The series that the command `kind` shows a piece of, if it shows one.
pub fn art_series(kind: CommandKind) -> (series: Option<ArtSeries>)
    ensures
        match series {
            Some(s) => art_series_of(kind) == Some((s.contract@, s.lower_bound, s.upper_bound)),
            None => art_series_of(kind) is None,
        },
{
    let older = "0xa7d8d9ef8d8ce8992df33d8b8cf4aebabd5bd270";
    let newer = "0x99a9b7c1116f9ceeb1652de04d5969cce509b069";
    match kind {
        CommandKind::Chimera => Some(
            ArtSeries {
                contract: String::from_str(older),
                lower_bound: 233000000,
                upper_bound: 233000986,
            },
        ),
        CommandKind::Watercolor => Some(
            ArtSeries {
                contract: String::from_str(older),
                lower_bound: 59000000,
                upper_bound: 59000599,
            },
        ),
        CommandKind::Pig => Some(
            ArtSeries {
                contract: String::from_str(older),
                lower_bound: 129000000,
                upper_bound: 129001023,
            },
        ),
        CommandKind::Run => Some(
            ArtSeries {
                contract: String::from_str(older),
                lower_bound: 138000000,
                upper_bound: 138000999,
            },
        ),
        CommandKind::Vortex => Some(
            ArtSeries {
                contract: String::from_str(older),
                lower_bound: 225000000,
                upper_bound: 225000999,
            },
        ),
        CommandKind::Memories => Some(
            ArtSeries {
                contract: String::from_str(newer),
                lower_bound: 428000000,
                upper_bound: 428000449,
            },
        ),
        CommandKind::Dopamine => Some(
            ArtSeries {
                contract: String::from_str(newer),
                lower_bound: 457000000,
                upper_bound: 457000776,
            },
        ),
        _ => None,
    }
}

/// The address of the artwork with the number `id`.
pub open spec fn art_block_address(id: Seq<char>) -> Seq<char> {
    "https://generator.artblocks.io/0x99a9b7c1116f9ceeb1652de04d5969cce509b069/"@ + id
}

/// The address of the artwork that the line names; none for a line that names
/// no artwork.
pub fn art_block_url(words: &Vec<String>) -> (url: Option<String>)
    ensures
        url is Some == (words@.len() >= 2),
        url is Some ==> url->0@ == art_block_address(words@[1]@),
{
    if words.len() < 2 {
        return None;
    }
    let mut url = String::from_str(
        "https://generator.artblocks.io/0x99a9b7c1116f9ceeb1652de04d5969cce509b069/",
    );
    url.append(words[1].as_str());
    Some(url)
}

/// The name of the hotkey that a key stands for.
pub open spec fn hotkey_name(key: Seq<char>) -> Seq<char> {
    "OBS_KEY_"@ + uppercase(key)
}

/// The events that a command publishes: a hotkey to trigger, a skybox to
/// generate, a greeting on the soundboard, or a text to speak in a voice. No other
/// command publishes anything, and neither does a hotkey command that names no
/// key.
pub open spec fn published_by(
    kind: CommandKind,
    words: Seq<Seq<char>>,
    contents: Seq<char>,
    user_name: Seq<char>,
    default_voice: Seq<char>,
    soundboard: Seq<char>,
) -> Seq<EventView> {
    match kind {
        CommandKind::Hotkey => if words.len() >= 2 {
            seq![EventView::TriggerHotkeyRequest(hotkey_name(words[1]))]
        } else {
            Seq::<EventView>::empty()
        },
        CommandKind::Skybox => seq![EventView::SkyboxRequest(rest(words))],
        CommandKind::Talk => seq![
            EventView::TransformOBSTextRequest(
                TransformOBSTextRequestView { message: "Hello"@, text_source: soundboard },
            ),
        ],
        CommandKind::Voice => match voice_command_event(
            contents,
            piece_or(words, 1, default_voice),
            user_name,
        ) {
            Some(event) => seq![event],
            None => Seq::<EventView>::empty(),
        },
        _ => Seq::<EventView>::empty(),
    }
}

/// The events that the command `kind` publishes for the line `words` of `message`.
/// `default_voice` speaks where `!voice` names no voice, and `soundboard` is the
/// text source of the soundboard.
pub fn command_events(
    kind: CommandKind,
    words: &Vec<String>,
    message: &UserMessage,
    default_voice: &str,
    soundboard: &str,
) -> (events: Vec<Event>)
    ensures
        event_views(events@) == published_by(
            kind,
            views(words@),
            message.contents@,
            message.user_name@,
            default_voice@,
            soundboard@,
        ),
{
    let mut events: Vec<Event> = Vec::new();
    match kind {
        CommandKind::Hotkey => {
            if words.len() >= 2 {
                let mut hotkey = String::from_str("OBS_KEY_");
                let key = to_upper(words[1].as_str());
                hotkey.append(key.as_str());
                events.push(Event::TriggerHotkeyRequest(TriggerHotkeyRequest { hotkey }));
            }
        },
        CommandKind::Skybox => {
            events.push(Event::SkyboxRequest(SkyboxRequest { msg: rest_of_line(words) }));
        },
        CommandKind::Talk => {
            events.push(
                Event::TransformOBSTextRequest(
                    TransformOBSTextRequest {
                        message: String::from_str("Hello"),
                        text_source: String::from_str(soundboard),
                    },
                ),
            );
        },
        CommandKind::Voice => {
            let voice = argument_or(words, 1, default_voice);
            match talk_in_voice(message.contents.clone(), voice, message.user_name.clone()) {
                Some(event) => {
                    events.push(event);
                },
                None => {},
            }
        },
        _ => {},
    }
    assert(event_views(events@) =~= published_by(
        kind,
        views(words@),
        message.contents@,
        message.user_name@,
        default_voice@,
        soundboard@,
    ));
    events
}

/// The music and the voice that belong to a command.
#[derive(Debug, Clone)]
pub struct MusicScene {
    /// The command that starts the scene.
    pub command: String,
    /// The source that plays the music.
    pub music: String,
    /// The voice that speaks for everybody during the scene.
    pub voice: String,
    /// The folder from which a piece of music is drawn, if any.
    pub playlist_folder: Option<String>,
}

/// The position of the first scene that `command` starts, if there is one.
pub open spec fn scene_position(commands: Seq<Seq<char>>, command: Seq<char>) -> Option<int>
    decreases commands.len(),
{
    if commands.len() == 0 {
        None
    } else if commands[0] == command {
        Some(0)
    } else {
        match scene_position(commands.skip(1), command) {
            Some(at) => Some(at + 1),
            None => None,
        }
    }
}

/// The commands of a list of scenes.
pub open spec fn scene_commands(scenes: Seq<MusicScene>) -> Seq<Seq<char>> {
    Seq::new(scenes.len(), |i: int| scenes[i].command@)
}

/// The sources that play the music of a list of scenes.
pub open spec fn scene_sources(scenes: Seq<MusicScene>) -> Seq<Seq<char>> {
    Seq::new(scenes.len(), |i: int| scenes[i].music@)
}

/// The position of the first scene that `command` starts, if there is one.
pub fn find_music_scene(scenes: &Vec<MusicScene>, command: &str) -> (found: Option<usize>)
    ensures
        match found {
            Some(at) => scene_position(scene_commands(scenes@), command@) == Some(at as int)
                && at < scenes@.len(),
            None => scene_position(scene_commands(scenes@), command@) is None,
        },
{
    let ghost commands = scene_commands(scenes@);
    let mut i: usize = 0;
    assert(commands.skip(0) =~= commands);
    while i < scenes.len()
        invariant
            i <= scenes@.len(),
            commands == scene_commands(scenes@),
            scene_position(commands, command@) == match scene_position(
                commands.skip(i as int),
                command@,
            ) {
                Some(at) => Some(at + i),
                None => None,
            },
        decreases scenes@.len() - i,
    {
        proof {
            assert(commands.skip(i as int)[0] == scenes@[i as int].command@);
            assert(commands.skip(i as int).skip(1) =~= commands.skip(i + 1));
        }
        if same(scenes[i].command.as_str(), command) {
            return Some(i);
        }
        i = i + 1;
    }
    assert(commands.skip(i as int).len() == 0);
    None
}

/// The sources that play the music of `scenes`: all of them are hidden before one
/// is shown.
pub fn music_sources(scenes: &Vec<MusicScene>) -> (sources: Vec<String>)
    ensures
        views(sources@) == scene_sources(scenes@),
{
    let mut sources: Vec<String> = Vec::new();
    let mut i: usize = 0;
    while i < scenes.len()
        invariant
            i <= scenes@.len(),
            views(sources@) == scene_sources(scenes@).take(i as int),
        decreases scenes@.len() - i,
    {
        let ghost before = views(sources@);
        sources.push(scenes[i].music.clone());
        assert(views(sources@) =~= before.push(scenes@[i as int].music@));
        assert(views(sources@) =~= scene_sources(scenes@).take(i + 1));
        i = i + 1;
    }
    assert(scene_sources(scenes@).take(i as int) =~= scene_sources(scenes@));
    sources
}

/// What starting a scene of music comes to.
#[derive(Debug, Clone)]
pub struct MusicPlan {
    /// The sources to hide first.
    pub hide: Vec<String>,
    /// The source to show then.
    pub show: String,
    /// The folder from which a piece of music is drawn, if any.
    pub playlist_folder: Option<String>,
    /// Whether the main source strikes the pose that goes with the scene.
    pub pose: bool,
    /// The voice that speaks for everybody from now on.
    pub voice: String,
}

/// What the command `command` of a user with `roles` sets going: nothing unless it
/// starts a scene and the user is a moderator or a guest of honour; else every
/// music source is hidden, the scene's is shown, and its voice speaks for
/// everybody. The pose goes with `!sigma`.
pub fn plan_music(scenes: &Vec<MusicScene>, command: &str, roles: &UserRoles) -> (plan: Option<
    MusicPlan,
>)
    ensures
        plan is Some == (scene_position(scene_commands(scenes@), command@) is Some && (
        roles.moderator || roles.vip)),
        plan is Some ==> {
            let at = scene_position(scene_commands(scenes@), command@)->0;
            &&& 0 <= at < scenes@.len()
            &&& views(plan->0.hide@) == scene_sources(scenes@)
            &&& plan->0.show@ == scenes@[at].music@
            &&& crate::event::text_view(plan->0.playlist_folder) == crate::event::text_view(
                scenes@[at].playlist_folder,
            )
            &&& plan->0.pose == (command@ == "!sigma"@)
            &&& plan->0.voice@ == scenes@[at].voice@
        },
{
    match find_music_scene(scenes, command) {
        Some(at) => {
            if !roles.is_twitch_mod() && !roles.is_twitch_vip() {
                return None;
            }
            Some(
                MusicPlan {
                    hide: music_sources(scenes),
                    show: scenes[at].music.clone(),
                    playlist_folder: crate::voice::clone_text(&scenes[at].playlist_folder),
                    pose: same(command, "!sigma"),
                    voice: scenes[at].voice.clone(),
                },
            )
        },
        None => None,
    }
}

/// The setting that `!scroll` changes: the speed along the axis that is named, or
/// along `x` when none or another is.
pub open spec fn scroll_setting(words: Seq<Seq<char>>) -> Seq<char> {
    if words.len() > 2 && words[2] == "y"@ {
        "speed_y"@
    } else {
        "speed_x"@
    }
}

/// The setting that `!scroll` changes.
pub fn scroll_setting_name(words: &Vec<String>) -> (name: String)
    ensures
        name@ == scroll_setting(views(words@)),
{
    if words.len() > 2 && same(words[2].as_str(), "y") {
        String::from_str("speed_y")
    } else {
        String::from_str("speed_x")
    }
}

/// The names that the commands need and that differ from one setup to another.
#[derive(Debug, Clone)]
pub struct CommandNames {
    /// The source that a command is about when it names none.
    pub default_source: String,
    /// The voice that speaks when `!voice` names none.
    pub default_voice: String,
    /// The text source of the soundboard.
    pub soundboard: String,
}

/// Everything that is decided about a chat line before anything is done.
#[derive(Debug, Clone)]
pub struct CommandPlan {
    /// The command.
    pub kind: CommandKind,
    /// Whether the user may give it. If not, nothing at all is done.
    pub allowed: bool,
    /// Whether the line has what the command needs.
    pub readiness: Readiness,
    /// The source, the duration and the value that the line gives or leaves out.
    pub defaults: CommandDefaults,
    /// The events to publish, in order.
    pub publish: Vec<Event>,
    /// The scene of music to start, if the command starts one.
    pub music: Option<MusicPlan>,
}

/// The piece that names the command: the first, or nothing for a line without
/// pieces.
pub open spec fn command_word(words: Seq<Seq<char>>) -> Seq<char> {
    piece_or(words, 0, ""@)
}

/// Decides what a chat line asks for: which command it is, whether its user may
/// give it, what it is about, which events it publishes and which music it
/// starts. A command that its user may not give does nothing, publishes nothing
/// and starts no music. A command that cannot be carried out is an error, and
/// nothing is published for it: a line that lacks a piece that its command cannot
/// do without, and a change of a transform that names no setting. Every line is
/// taken; one without any piece names no command.
pub fn handle_obs_commands(
    splitmsg: &Vec<String>,
    msg: &UserMessage,
    names: &CommandNames,
    scenes: &Vec<MusicScene>,
) -> (plan: Result<CommandPlan, CommandError>)
    ensures
        ({
            let command = command_word(views(splitmsg@));
            let kind = command_kind(command);
            let allowed = permitted(kind, msg.roles, msg.user_name@);
            match plan {
                Err(error) => allowed && readiness(kind, splitmsg@.len()) == Err::<
                    Readiness,
                    CommandError,
                >(error),
                Ok(p) => {
                    &&& p.kind == kind
                    &&& p.allowed == allowed
                    &&& p.defaults.source@ == piece_or(views(splitmsg@), 1, names.default_source@)
                    &&& p.defaults.duration == duration_of(views(splitmsg@))
                    &&& p.defaults.filter_value is Some == (splitmsg@.len() > 3)
                    &&& splitmsg@.len() > 3 ==> p.defaults.filter_value->0@ == splitmsg@[3]@
                    &&& !allowed ==> p.publish@.len() == 0 && p.music is None && p.readiness
                        == Readiness::Ready
                    &&& allowed ==> {
                        &&& readiness(kind, splitmsg@.len()) == Ok::<Readiness, CommandError>(
                            p.readiness,
                        )
                        &&& event_views(p.publish@) == published_by(
                            kind,
                            views(splitmsg@),
                            msg.contents@,
                            msg.user_name@,
                            names.default_voice@,
                            names.soundboard@,
                        )
                        &&& p.music is Some == (scene_position(
                            scene_commands(scenes@),
                            command,
                        ) is Some && (msg.roles.moderator || msg.roles.vip))
                        &&& p.music is Some ==> {
                            let at = scene_position(scene_commands(scenes@), command)->0;
                            &&& 0 <= at < scenes@.len()
                            &&& views(p.music->0.hide@) == scene_sources(scenes@)
                            &&& p.music->0.show@ == scenes@[at].music@
                            &&& crate::event::text_view(p.music->0.playlist_folder)
                                == crate::event::text_view(scenes@[at].playlist_folder)
                            &&& p.music->0.pose == (command == "!sigma"@)
                            &&& p.music->0.voice@ == scenes@[at].voice@
                        }
                    }
                },
            }
        }),
{
    let command = argument_or(splitmsg, 0, "");
    let kind = classify(command.as_str());
    let defaults = command_defaults(splitmsg, names.default_source.as_str());
    if !may_run(kind, msg) {
        return Ok(
            CommandPlan {
                kind,
                allowed: false,
                readiness: Readiness::Ready,
                defaults,
                publish: Vec::new(),
                music: None,
            },
        );
    }
    let ready = match check_ready(kind, splitmsg) {
        Ok(ready) => ready,
        Err(error) => {
            return Err(error);
        },
    };
    let publish = command_events(
        kind,
        splitmsg,
        msg,
        names.default_voice.as_str(),
        names.soundboard.as_str(),
    );
    let music = plan_music(scenes, command.as_str(), &msg.roles);
    Ok(CommandPlan { kind, allowed: true, readiness: ready, defaults, publish, music })
}

} // verus!
