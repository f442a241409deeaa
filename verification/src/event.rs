//! The events that flow over the bus: one closed set of message kinds, each with
//! the plain values that its consumers need.

use vstd::prelude::*;

verus! {

/// The view of a text that may be absent.
pub open spec fn text_view(text: Option<String>) -> Option<Seq<char>> {
    match text {
        Some(t) => Some(t@),
        None => None,
    }
}

/// What a chat user is allowed to do.
#[derive(Debug, Clone, Copy, PartialEq, Eq, Structural, Default)]
pub struct UserRoles {
    pub staff: bool,
    pub moderator: bool,
    pub subscriber: bool,
    pub vip: bool,
}

impl UserRoles {
    pub fn is_twitch_staff(&self) -> (yes: bool)
        ensures
            yes == self.staff,
    {
        self.staff
    }

    pub fn is_twitch_mod(&self) -> (yes: bool)
        ensures
            yes == self.moderator,
    {
        self.moderator
    }

    pub fn is_twitch_sub(&self) -> (yes: bool)
        ensures
            yes == self.subscriber,
    {
        self.subscriber
    }

    pub fn is_twitch_vip(&self) -> (yes: bool)
        ensures
            yes == self.vip,
    {
        self.vip
    }
}

/// A chat line as it came from the chat platform.
#[derive(Debug, Clone)]
pub struct TwitchMessage {
    pub sender_id: String,
    pub sender_login: String,
    pub sender_name: String,
    pub text: String,
    pub roles: UserRoles,
}

pub struct TwitchMessageView {
    pub sender_id: Seq<char>,
    pub sender_login: Seq<char>,
    pub sender_name: Seq<char>,
    pub text: Seq<char>,
    pub roles: UserRoles,
}

impl View for TwitchMessage {
    type V = TwitchMessageView;

    open spec fn view(&self) -> TwitchMessageView {
        TwitchMessageView {
            sender_id: self.sender_id@,
            sender_login: self.sender_login@,
            sender_name: self.sender_name@,
            text: self.text@,
            roles: self.roles,
        }
    }
}

/// Where a chat line was written.
#[derive(Debug, Clone, Copy, PartialEq, Eq, Structural, Default)]
pub enum UserPlatform {
    #[default]
    Twitch,
    Youtube,
}

/// A chat line of a known user.
#[derive(Debug, Clone)]
pub struct UserMessage {
    pub user_id: String,
    pub user_name: String,
    pub roles: UserRoles,
    pub platform: UserPlatform,
    pub contents: String,
}

pub struct UserMessageView {
    pub user_id: Seq<char>,
    pub user_name: Seq<char>,
    pub roles: UserRoles,
    pub platform: UserPlatform,
    pub contents: Seq<char>,
}

impl View for UserMessage {
    type V = UserMessageView;

    open spec fn view(&self) -> UserMessageView {
        UserMessageView {
            user_id: self.user_id@,
            user_name: self.user_name@,
            roles: self.roles,
            platform: self.platform,
            contents: self.contents@,
        }
    }
}

/// A request to speak a text in a voice of the text-to-speech service.
#[derive(Debug, Clone)]
pub struct ElevenLabsRequest {
    pub voice: Option<String>,
    pub message: String,
    pub voice_text: String,
    pub username: String,
    pub reverb: bool,
    pub stretch: Option<String>,
    pub pitch: Option<String>,
}

pub struct ElevenLabsRequestView {
    pub voice: Option<Seq<char>>,
    pub message: Seq<char>,
    pub voice_text: Seq<char>,
    pub username: Seq<char>,
    pub reverb: bool,
    pub stretch: Option<Seq<char>>,
    pub pitch: Option<Seq<char>>,
}

impl View for ElevenLabsRequest {
    type V = ElevenLabsRequestView;

    open spec fn view(&self) -> ElevenLabsRequestView {
        ElevenLabsRequestView {
            voice: text_view(self.voice),
            message: self.message@,
            voice_text: self.voice_text@,
            username: self.username@,
            reverb: self.reverb,
            stretch: text_view(self.stretch),
            pitch: text_view(self.pitch),
        }
    }
}

/// A request to speak a text in the voice of a stream character.
#[derive(Debug, Clone)]
pub struct UberDuckRequest {
    pub voice: String,
    pub message: String,
    pub voice_text: String,
    pub username: String,
    pub source: Option<String>,
}

pub struct UberDuckRequestView {
    pub voice: Seq<char>,
    pub message: Seq<char>,
    pub voice_text: Seq<char>,
    pub username: Seq<char>,
    pub source: Option<Seq<char>>,
}

impl View for UberDuckRequest {
    type V = UberDuckRequestView;

    open spec fn view(&self) -> UberDuckRequestView {
        UberDuckRequestView {
            voice: self.voice@,
            message: self.message@,
            voice_text: self.voice_text@,
            username: self.username@,
            source: text_view(self.source),
        }
    }
}

/// A request to show a text in a text source of the scene.
#[derive(Debug, Clone)]
pub struct TransformOBSTextRequest {
    pub message: String,
    pub text_source: String,
}

pub struct TransformOBSTextRequestView {
    pub message: Seq<char>,
    pub text_source: Seq<char>,
}

impl View for TransformOBSTextRequest {
    type V = TransformOBSTextRequestView;

    open spec fn view(&self) -> TransformOBSTextRequestView {
        TransformOBSTextRequestView { message: self.message@, text_source: self.text_source@ }
    }
}

/// A request to show or hide a source in a scene.
#[derive(Debug, Clone)]
pub struct SourceVisibilityRequest {
    pub scene: String,
    pub source: String,
    pub enabled: bool,
}

pub struct SourceVisibilityRequestView {
    pub scene: Seq<char>,
    pub source: Seq<char>,
    pub enabled: bool,
}

impl View for SourceVisibilityRequest {
    type V = SourceVisibilityRequestView;

    open spec fn view(&self) -> SourceVisibilityRequestView {
        SourceVisibilityRequestView {
            scene: self.scene@,
            source: self.source@,
            enabled: self.enabled,
        }
    }
}

/// A request to switch the filters of a stream character on or off.
#[derive(Debug, Clone)]
pub struct StreamCharacterRequest {
    pub source: String,
    pub enabled: bool,
}

pub struct StreamCharacterRequestView {
    pub source: Seq<char>,
    pub enabled: bool,
}

impl View for StreamCharacterRequest {
    type V = StreamCharacterRequestView;

    open spec fn view(&self) -> StreamCharacterRequestView {
        StreamCharacterRequestView { source: self.source@, enabled: self.enabled }
    }
}

/// A request to trigger a hotkey of the production tool.
#[derive(Debug, Clone)]
pub struct TriggerHotkeyRequest {
    pub hotkey: String,
}

/// A request to generate a skybox from a prompt.
#[derive(Debug, Clone)]
pub struct SkyboxRequest {
    pub msg: String,
}

/// A request to play a whole scene: a voice, a text, music and a picture.
#[derive(Debug, Clone)]
pub struct AiScenesRequest {
    pub voice: Option<String>,
    pub message: String,
    pub voice_text: String,
    pub music_bg: Option<String>,
    pub prompt: Option<String>,
    pub username: String,
}

pub struct AiScenesRequestView {
    pub voice: Option<Seq<char>>,
    pub message: Seq<char>,
    pub voice_text: Seq<char>,
    pub music_bg: Option<Seq<char>>,
    pub prompt: Option<Seq<char>>,
    pub username: Seq<char>,
}

impl View for AiScenesRequest {
    type V = AiScenesRequestView;

    open spec fn view(&self) -> AiScenesRequestView {
        AiScenesRequestView {
            voice: text_view(self.voice),
            message: self.message@,
            voice_text: self.voice_text@,
            music_bg: text_view(self.music_bg),
            prompt: text_view(self.prompt),
            username: self.username@,
        }
    }
}

/// Everything that can be published on the bus.
#[derive(Debug, Clone)]
pub enum Event {
    TwitchChatMessage(TwitchMessage),
    UserMessage(UserMessage),
    ElevenLabsRequest(ElevenLabsRequest),
    UberDuckRequest(UberDuckRequest),
    TransformOBSTextRequest(TransformOBSTextRequest),
    SourceVisibilityRequest(SourceVisibilityRequest),
    StreamCharacterRequest(StreamCharacterRequest),
    TriggerHotkeyRequest(TriggerHotkeyRequest),
    SkyboxRequest(SkyboxRequest),
    AiScenesRequest(AiScenesRequest),
}

/// An event as a mathematical value.
pub enum EventView {
    TwitchChatMessage(TwitchMessageView),
    UserMessage(UserMessageView),
    ElevenLabsRequest(ElevenLabsRequestView),
    UberDuckRequest(UberDuckRequestView),
    TransformOBSTextRequest(TransformOBSTextRequestView),
    SourceVisibilityRequest(SourceVisibilityRequestView),
    StreamCharacterRequest(StreamCharacterRequestView),
    TriggerHotkeyRequest(Seq<char>),
    SkyboxRequest(Seq<char>),
    AiScenesRequest(AiScenesRequestView),
}

impl View for Event {
    type V = EventView;

    open spec fn view(&self) -> EventView {
        match *self {
            Event::TwitchChatMessage(m) => EventView::TwitchChatMessage(m@),
            Event::UserMessage(m) => EventView::UserMessage(m@),
            Event::ElevenLabsRequest(m) => EventView::ElevenLabsRequest(m@),
            Event::UberDuckRequest(m) => EventView::UberDuckRequest(m@),
            Event::TransformOBSTextRequest(m) => EventView::TransformOBSTextRequest(m@),
            Event::SourceVisibilityRequest(m) => EventView::SourceVisibilityRequest(m@),
            Event::StreamCharacterRequest(m) => EventView::StreamCharacterRequest(m@),
            Event::TriggerHotkeyRequest(m) => EventView::TriggerHotkeyRequest(m.hotkey@),
            Event::SkyboxRequest(m) => EventView::SkyboxRequest(m.msg@),
            Event::AiScenesRequest(m) => EventView::AiScenesRequest(m@),
        }
    }
}

/// The views of a list of events.
pub open spec fn event_views(events: Seq<Event>) -> Seq<EventView> {
    Seq::new(events.len(), |i: int| events[i]@)
}

} // verus!
