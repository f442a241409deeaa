//! Chat lines that are spoken by a stream character and that set off sound
//! effects by the words they hold, and the small handlers that turn one kind of
//! event into one change of the scene.

use crate::event::{
    text_view, Event, EventView, SourceVisibilityRequest, StreamCharacterRequest,
    TransformOBSTextRequest, TransformOBSTextRequestView, TriggerHotkeyRequest, UberDuckRequest,
    UberDuckRequestView, UserMessage, UserMessageView, UserRoles,
};
use crate::text::{lowercase, same, split, split_on, to_lower, views};
use crate::voice::{chop_text, chopped};
use vstd::prelude::*;

verus! {

/// A voice and a source that may both be missing.
#[derive(Debug, Clone)]
pub struct Character {
    pub voice: Option<String>,
    pub source: Option<String>,
}

/// What the stream is set to.
#[derive(Debug, Clone, Copy, PartialEq, Eq, Structural)]
pub struct StreamState {
    /// Whether only subscribers are spoken aloud.
    pub sub_only_tts: bool,
    /// Whether the words of a chat line set off sound effects.
    pub implicit_soundeffects: bool,
}

/// The names that speaking needs and that differ from one setup to another.
#[derive(Debug, Clone)]
pub struct SoundNames {
    /// The source that shows staff of the platform.
    pub staff_source: String,
    /// The voice of staff of the platform.
    pub staff_voice: String,
    /// The voice of moderators.
    pub moderator_voice: String,
    /// The text source of the soundboard.
    pub soundboard: String,
}

pub struct SoundNamesView {
    pub staff_source: Seq<char>,
    pub staff_voice: Seq<char>,
    pub moderator_voice: Seq<char>,
    pub soundboard: Seq<char>,
}

impl View for SoundNames {
    type V = SoundNamesView;

    open spec fn view(&self) -> SoundNamesView {
        SoundNamesView {
            staff_source: self.staff_source@,
            staff_voice: self.staff_voice@,
            moderator_voice: self.moderator_voice@,
            soundboard: self.soundboard@,
        }
    }
}

/// The voice and the source of a user's line. Staff of the platform speak as the
/// name of the staff source, shown by the name of the staff voice; moderators
/// speak in the moderators' voice; subscribers speak in their character's voice,
/// and so does everybody else unless only subscribers are spoken aloud. Whoever
/// is left has no voice.
pub open spec fn character_of(
    roles: UserRoles,
    state: StreamState,
    character_voice: Seq<char>,
    names: SoundNamesView,
) -> (Option<Seq<char>>, Option<Seq<char>>) {
    if roles.staff {
        (Some(names.staff_source), Some(names.staff_voice))
    } else if roles.moderator {
        (Some(names.moderator_voice), None)
    } else if roles.subscriber {
        (Some(character_voice), None)
    } else if !state.sub_only_tts {
        (Some(character_voice), None)
    } else {
        (None, None)
    }
}

/// The voice and the source of a line written by a user with `roles`.
pub fn choose_character(
    roles: &UserRoles,
    state: &StreamState,
    character_voice: &str,
    names: &SoundNames,
) -> (character: Character)
    ensures
        (text_view(character.voice), text_view(character.source)) == character_of(
            *roles,
            *state,
            character_voice@,
            names@,
        ),
{
    if roles.is_twitch_staff() {
        Character {
            voice: Some(names.staff_source.clone()),
            source: Some(names.staff_voice.clone()),
        }
    } else if roles.is_twitch_mod() {
        Character { voice: Some(names.moderator_voice.clone()), source: None }
    } else if roles.is_twitch_sub() {
        Character { voice: Some(String::from_str(character_voice)), source: None }
    } else if !state.sub_only_tts {
        Character { voice: Some(String::from_str(character_voice)), source: None }
    } else {
        Character { voice: None, source: None }
    }
}

/// Whether a chat line is looked at: one of a user other than the bot of the
/// chat, with at least one space in it.
pub open spec fn is_heard(message: UserMessageView) -> bool {
    message.user_name != "Nightbot"@ && split(message.contents, ' ').len() >= 2
}

/// Whether the chat line `message` is looked at.
pub fn heard(message: &UserMessage) -> (looked_at: bool)
    ensures
        looked_at == is_heard(message@),
{
    if same(message.user_name.as_str(), "Nightbot") {
        return false;
    }
    split_on(message.contents.as_str(), ' ').len() >= 2
}

/// One thing to do for a chat line, in the order in which it is done.
#[derive(Debug, Clone)]
pub enum SoundStep {
    /// Publish an event.
    Publish(Event),
    /// Play the sound file at this path to its end.
    Play(String),
}

pub enum SoundStepView {
    Publish(EventView),
    Play(Seq<char>),
}

impl View for SoundStep {
    type V = SoundStepView;

    open spec fn view(&self) -> SoundStepView {
        match *self {
            SoundStep::Publish(event) => SoundStepView::Publish(event@),
            SoundStep::Play(path) => SoundStepView::Play(path@),
        }
    }
}

/// The views of a list of steps.
pub open spec fn sound_step_views(steps: Seq<SoundStep>) -> Seq<SoundStepView> {
    Seq::new(steps.len(), |i: int| steps[i]@)
}

/// The sound file that a word sets off.
pub open spec fn sound_file(word: Seq<char>) -> Seq<char> {
    "./MP3s/"@ + lowercase(word) + ".mp3"@
}

/// Showing `message` in the text source `text_source`.
pub open spec fn show_text(message: Seq<char>, text_source: Seq<char>) -> SoundStepView {
    SoundStepView::Publish(
        EventView::TransformOBSTextRequest(TransformOBSTextRequestView { message, text_source }),
    )
}

/// The sound effects of the pieces of a line: for each piece whose sound file is
/// among `files`, the piece is shown in lower case and the file is played.
pub open spec fn word_effects(
    pieces: Seq<Seq<char>>,
    files: Seq<Seq<char>>,
    text_source: Seq<char>,
) -> Seq<SoundStepView>
    decreases pieces.len(),
{
    if pieces.len() == 0 {
        Seq::<SoundStepView>::empty()
    } else {
        let before = word_effects(pieces.drop_last(), files, text_source);
        let word = pieces.last();
        if files.contains(sound_file(word)) {
            before + seq![
                show_text(lowercase(word), text_source),
                SoundStepView::Play(sound_file(word)),
            ]
        } else {
            before
        }
    }
}

/// The request to speak `message` in the voice and from the source of its user.
pub open spec fn speak_step(
    message: UserMessageView,
    voice: Seq<char>,
    source: Option<Seq<char>>,
) -> SoundStepView {
    SoundStepView::Publish(
        EventView::UberDuckRequest(
            UberDuckRequestView {
                voice,
                message: chopped(message.contents),
                voice_text: message.contents,
                username: message.user_name,
                source,
            },
        ),
    )
}

/// Everything that is done for a chat line, in order: the line is spoken if its
/// user has a voice; then, if words set off sound effects, those of its pieces
/// are played one after the other and the text source is cleared. A line that is
/// not looked at comes to nothing.
pub open spec fn sound_steps(
    message: UserMessageView,
    state: StreamState,
    character_voice: Seq<char>,
    names: SoundNamesView,
    files: Seq<Seq<char>>,
) -> Seq<SoundStepView> {
    if !is_heard(message) {
        Seq::<SoundStepView>::empty()
    } else {
        let character = character_of(message.roles, state, character_voice, names);
        let spoken = match character.0 {
            Some(voice) => seq![speak_step(message, voice, character.1)],
            None => Seq::<SoundStepView>::empty(),
        };
        if state.implicit_soundeffects {
            spoken + word_effects(split(message.contents, ' '), files, names.soundboard) + seq![
                show_text(Seq::<char>::empty(), names.soundboard),
            ]
        } else {
            spoken
        }
    }
}

/// Whether `path` is among `files`.
pub fn has_file(files: &Vec<String>, path: &str) -> (found: bool)
    ensures
        found == views(files@).contains(path@),
{
    let mut i: usize = 0;
    while i < files.len()
        invariant
            i <= files@.len(),
            forall|k: int| 0 <= k < i ==> views(files@)[k] != path@,
        decreases files@.len() - i,
    {
        if same(files[i].as_str(), path) {
            assert(views(files@)[i as int] == path@);
            return true;
        }
        i = i + 1;
    }
    false
}

/// The event that shows `message` in the text source `text_source`.
fn text_event(message: String, text_source: &str) -> (step: SoundStep)
    ensures
        step@ == show_text(message@, text_source@),
{
    SoundStep::Publish(
        Event::TransformOBSTextRequest(
            TransformOBSTextRequest { message, text_source: String::from_str(text_source) },
        ),
    )
}

/// Everything that is done for the chat line `message`, in order. `state` is what
/// the stream is set to, `character_voice` the voice of the user's character, and
/// `files` the sound files that there are.
pub fn plan_sounds(
    message: &UserMessage,
    state: &StreamState,
    character_voice: &str,
    names: &SoundNames,
    files: &Vec<String>,
) -> (steps: Vec<SoundStep>)
    ensures
        sound_step_views(steps@) == sound_steps(
            message@,
            *state,
            character_voice@,
            names@,
            views(files@),
        ),
{
    let mut steps: Vec<SoundStep> = Vec::new();
    if same(message.user_name.as_str(), "Nightbot") {
        assert(sound_step_views(steps@) =~= Seq::<SoundStepView>::empty());
        return steps;
    }
    let pieces = split_on(message.contents.as_str(), ' ');
    if pieces.len() < 2 {
        assert(sound_step_views(steps@) =~= Seq::<SoundStepView>::empty());
        return steps;
    }
    let character = choose_character(&message.roles, state, character_voice, names);
    let ghost spoken;
    match character.voice {
        Some(voice) => {
            let request = UberDuckRequest {
                voice,
                message: chop_text(message.contents.clone()),
                voice_text: message.contents.clone(),
                username: message.user_name.clone(),
                source: character.source,
            };
            steps.push(SoundStep::Publish(Event::UberDuckRequest(request)));
            proof {
                spoken = seq![speak_step(message@, voice@, text_view(character.source))];
            }
        },
        None => {
            proof {
                spoken = Seq::<SoundStepView>::empty();
            }
        },
    }
    assert(sound_step_views(steps@) =~= spoken);
    if !state.implicit_soundeffects {
        return steps;
    }
    let ghost words = views(pieces@);
    let ghost all_files = views(files@);
    let ghost soundboard = names.soundboard@;
    let mut i: usize = 0;
    assert(words.take(0) =~= Seq::<Seq<char>>::empty());
    assert(sound_step_views(steps@) =~= spoken + word_effects(
        words.take(0),
        all_files,
        soundboard,
    ));
    while i < pieces.len()
        invariant
            i <= pieces@.len(),
            words == views(pieces@),
            all_files == views(files@),
            soundboard == names.soundboard@,
            sound_step_views(steps@) == spoken + word_effects(
                words.take(i as int),
                all_files,
                soundboard,
            ),
        decreases pieces@.len() - i,
    {
        let word = to_lower(pieces[i].as_str());
        let mut path = String::from_str("./MP3s/");
        path.append(word.as_str());
        path.append(".mp3");
        let ghost before = sound_step_views(steps@);
        proof {
            assert(words.take(i + 1).drop_last() =~= words.take(i as int));
            assert(words.take(i + 1).last() == pieces@[i as int]@);
        }
        if has_file(files, path.as_str()) {
            steps.push(text_event(word, names.soundboard.as_str()));
            steps.push(SoundStep::Play(path));
            assert(sound_step_views(steps@) =~= before + seq![
                show_text(lowercase(pieces@[i as int]@), soundboard),
                SoundStepView::Play(sound_file(pieces@[i as int]@)),
            ]);
        }
        assert(sound_step_views(steps@) =~= spoken + word_effects(
            words.take(i + 1),
            all_files,
            soundboard,
        ));
        i = i + 1;
    }
    assert(words.take(i as int) =~= words);
    let ghost before = sound_step_views(steps@);
    steps.push(text_event(String::new(), names.soundboard.as_str()));
    assert(sound_step_views(steps@) =~= before + seq![
        show_text(Seq::<char>::empty(), soundboard),
    ]);
    steps
}

/// The name of the filter that moves the text of a text source.
pub open spec fn text_filter(text_source: Seq<char>) -> Seq<char> {
    "Transform"@ + text_source
}

/// One change of the scene.
#[derive(Debug, Clone)]
pub enum SceneChange {
    /// Show or hide a source of a scene.
    SetEnabled { scene: String, source: String, enabled: bool },
    /// Switch the filters of a character on or off.
    CharacterFilters { source: String, enabled: bool },
    /// Trigger a hotkey.
    Hotkey { hotkey: String },
    /// Put a text into a text source and move it in.
    MoveText { text_source: String, filter_name: String, message: String },
}

pub enum SceneChangeView {
    SetEnabled { scene: Seq<char>, source: Seq<char>, enabled: bool },
    CharacterFilters { source: Seq<char>, enabled: bool },
    Hotkey { hotkey: Seq<char> },
    MoveText { text_source: Seq<char>, filter_name: Seq<char>, message: Seq<char> },
}

impl View for SceneChange {
    type V = SceneChangeView;

    open spec fn view(&self) -> SceneChangeView {
        match *self {
            SceneChange::SetEnabled { scene, source, enabled } => SceneChangeView::SetEnabled {
                scene: scene@,
                source: source@,
                enabled,
            },
            SceneChange::CharacterFilters { source, enabled } => SceneChangeView::CharacterFilters {
                source: source@,
                enabled,
            },
            SceneChange::Hotkey { hotkey } => SceneChangeView::Hotkey { hotkey: hotkey@ },
            SceneChange::MoveText {
                text_source,
                filter_name,
                message,
            } => SceneChangeView::MoveText {
                text_source: text_source@,
                filter_name: filter_name@,
                message: message@,
            },
        }
    }
}

impl SceneChange {
    /// Whether a failure of this change ends the handler that asked for it: a
    /// hotkey that cannot be triggered does; every other failure is passed over.
    pub fn ends_handler_on_failure(&self) -> (ends: bool)
        ensures
            ends == (self is Hotkey),
    {
        match self {
            SceneChange::Hotkey { .. } => true,
            _ => false,
        }
    }
}

/// The change of the scene that an event asks for: a request about the
/// visibility of a source, about the filters of a character, about a hotkey or
/// about a text is carried out as it stands; every other event asks for nothing.
pub open spec fn change_for(event: EventView) -> Option<SceneChangeView> {
    match event {
        EventView::SourceVisibilityRequest(request) => Some(
            SceneChangeView::SetEnabled {
                scene: request.scene,
                source: request.source,
                enabled: request.enabled,
            },
        ),
        EventView::StreamCharacterRequest(request) => Some(
            SceneChangeView::CharacterFilters { source: request.source, enabled: request.enabled },
        ),
        EventView::TriggerHotkeyRequest(hotkey) => Some(SceneChangeView::Hotkey { hotkey }),
        EventView::TransformOBSTextRequest(request) => Some(
            SceneChangeView::MoveText {
                text_source: request.text_source,
                filter_name: text_filter(request.text_source),
                message: request.message,
            },
        ),
        _ => None,
    }
}

/// The change of the scene that `event` asks for, if it asks for one.
pub fn scene_change(event: &Event) -> (change: Option<SceneChange>)
    ensures
        match change {
            Some(c) => change_for(event@) == Some(c@),
            None => change_for(event@) is None,
        },
{
    match event {
        Event::SourceVisibilityRequest(request) => Some(
            SceneChange::SetEnabled {
                scene: request.scene.clone(),
                source: request.source.clone(),
                enabled: request.enabled,
            },
        ),
        Event::StreamCharacterRequest(request) => Some(
            SceneChange::CharacterFilters {
                source: request.source.clone(),
                enabled: request.enabled,
            },
        ),
        Event::TriggerHotkeyRequest(request) => Some(
            SceneChange::Hotkey { hotkey: request.hotkey.clone() },
        ),
        Event::TransformOBSTextRequest(request) => {
            let mut filter_name = String::from_str("Transform");
            filter_name.append(request.text_source.as_str());
            Some(
                SceneChange::MoveText {
                    text_source: request.text_source.clone(),
                    filter_name,
                    message: request.message.clone(),
                },
            )
        },
        _ => None,
    }
}

} // verus!
