//! Notifications of the platform about what viewers redeem: what is answered,
//! and which scene a redeemed reward sets going.

use crate::event::{text_view, AiScenesRequest, AiScenesRequestView, Event, EventView};
use crate::text::same;
use crate::voice::clone_text;
use vstd::prelude::*;

verus! {

/// What a notification says about itself.
#[derive(Debug, Clone)]
pub struct Subscription {
    pub id: String,
    pub status: String,
    pub type_field: String,
    pub version: String,
    pub condition: Condition,
    pub transport: Transport,
    pub created_at: String,
}

/// Whom a notification is about.
#[derive(Debug, Clone)]
pub struct Condition {
    pub broadcaster_user_id: String,
    pub reward_id: String,
}

/// The reward that was redeemed.
#[derive(Debug, Clone)]
pub struct Reward {
    pub title: String,
    pub cost: i32,
    pub id: String,
}

/// How a notification was delivered.
#[derive(Debug, Clone)]
pub struct Transport {
    pub method: String,
    pub callback: Option<String>,
}

/// What happened.
#[derive(Debug, Clone)]
pub struct SubEvent {
    pub id: String,
    pub user_id: String,
    pub user_login: String,
    pub user_name: String,
    pub broadcaster_user_id: String,
    pub broadcaster_user_login: String,
    pub broadcaster_user_name: String,
    pub title: Option<String>,
    pub tier: Option<String>,
    pub is_gift: Option<bool>,
    pub reward: Option<Reward>,
    pub user_input: Option<String>,
}

/// A notification.
#[derive(Debug, Clone)]
pub struct EventSubRoot {
    pub subscription: Subscription,
    pub event: Option<SubEvent>,
    pub challenge: Option<String>,
}

/// What is done with a notification before it is answered.
#[derive(Debug, Clone, Copy, PartialEq, Eq, Structural)]
pub enum Handling {
    /// Nothing.
    Nothing,
    /// The redeemed reward is carried out.
    Redeem,
    /// The kind of event is not known: it is noted and passed over.
    Unhandled,
}

/// The kind of event that tells of a redeemed reward.
pub open spec fn redemption_type() -> Seq<char> {
    "channel.channel_points_custom_reward_redemption.add"@
}

/// What is done with a notification: a challenge is only answered; an event of a
/// redeemed reward is carried out; any other event is passed over; a
/// notification without an event comes to nothing.
pub open spec fn handling_of(
    challenge: Option<Seq<char>>,
    has_event: bool,
    type_field: Seq<char>,
) -> Handling {
    if challenge is Some {
        Handling::Nothing
    } else if !has_event {
        Handling::Nothing
    } else if type_field == redemption_type() {
        Handling::Redeem
    } else {
        Handling::Unhandled
    }
}

/// What is answered to a notification: the challenge if there is one, else
/// nothing; always with success.
pub open spec fn answer_to(challenge: Option<Seq<char>>) -> Seq<char> {
    match challenge {
        Some(text) => text,
        None => Seq::<char>::empty(),
    }
}

/// What is done with the notification `body`, and the text that is answered with
/// the status of success.
pub fn post_request(body: &EventSubRoot) -> (outcome: (Handling, String))
    ensures
        outcome.0 == handling_of(
            text_view(body.challenge),
            body.event is Some,
            body.subscription.type_field@,
        ),
        outcome.1@ == answer_to(text_view(body.challenge)),
{
    match &body.challenge {
        Some(challenge) => (Handling::Nothing, challenge.clone()),
        None => {
            if body.event.is_none() {
                (Handling::Nothing, String::new())
            } else if same(
                body.subscription.type_field.as_str(),
                "channel.channel_points_custom_reward_redemption.add",
            ) {
                (Handling::Redeem, String::new())
            } else {
                (Handling::Unhandled, String::new())
            }
        },
    }
}

/// A scene that a reward sets going.
#[derive(Debug, Clone)]
pub struct AIScene {
    pub reward_title: String,
    pub base_prompt: String,
    pub base_dalle_prompt: String,
    pub voice: String,
    pub music_bg: String,
}

/// The position of the last scene that the reward called `title` sets going, if
/// there is one: of two scenes of one title, the later one counts.
pub open spec fn scene_for(scenes: Seq<AIScene>, title: Seq<char>) -> Option<int>
    decreases scenes.len(),
{
    if scenes.len() == 0 {
        None
    } else if scenes.last().reward_title@ == title {
        Some(scenes.len() - 1)
    } else {
        scene_for(scenes.drop_last(), title)
    }
}

/// The position of the last scene that the reward called `title` sets going.
pub fn find_scene(scenes: &Vec<AIScene>, title: &str) -> (found: Option<usize>)
    ensures
        match found {
            Some(at) => scene_for(scenes@, title@) == Some(at as int) && at < scenes@.len(),
            None => scene_for(scenes@, title@) is None,
        },
{
    let mut i: usize = scenes.len();
    assert(scenes@.take(i as int) =~= scenes@);
    while i > 0
        invariant
            i <= scenes@.len(),
            scene_for(scenes@, title@) == scene_for(scenes@.take(i as int), title@),
        decreases i,
    {
        if same(scenes[i - 1].reward_title.as_str(), title) {
            return Some(i - 1);
        }
        assert(scenes@.take(i as int).drop_last() =~= scenes@.take(i - 1));
        i = i - 1;
    }
    None
}

/// What a redeemed reward sets going.
#[derive(Debug, Clone)]
pub enum Redemption {
    /// The event names no reward: nothing.
    Nothing,
    /// The theme of the backgrounds is set to what the viewer wrote.
    SetTheme { theme: String },
    /// The scene at this position is played with what the viewer wrote.
    PlayScene { scene: usize, user_input: String },
    /// No scene belongs to the reward.
    SceneNotFound,
}

/// What the event `event` sets going, given the scenes there are. What the viewer
/// wrote is the empty text where nothing was written.
pub fn handle_channel_rewards_request(event: &SubEvent, scenes: &Vec<AIScene>) -> (redemption:
    Redemption)
    ensures
        match redemption {
            Redemption::Nothing => event.reward is None,
            Redemption::SetTheme { theme } => event.reward is Some && event.reward->0.title@
                == "Set Theme"@ && theme@ == crate::songs::field_or_empty(event.user_input),
            Redemption::PlayScene { scene, user_input } => event.reward is Some
                && event.reward->0.title@ != "Set Theme"@ && scene_for(
                scenes@,
                event.reward->0.title@,
            ) == Some(scene as int) && scene < scenes@.len() && user_input@
                == crate::songs::field_or_empty(event.user_input),
            Redemption::SceneNotFound => event.reward is Some && event.reward->0.title@
                != "Set Theme"@ && scene_for(scenes@, event.reward->0.title@) is None,
        },
{
    let reward = match &event.reward {
        Some(reward) => reward,
        None => {
            return Redemption::Nothing;
        },
    };
    let user_input = match &event.user_input {
        Some(text) => text.clone(),
        None => String::new(),
    };
    if same(reward.title.as_str(), "Set Theme") {
        return Redemption::SetTheme { theme: user_input };
    }
    match find_scene(scenes, reward.title.as_str()) {
        Some(scene) => Redemption::PlayScene { scene, user_input },
        None => Redemption::SceneNotFound,
    }
}

/// What the picture generators are asked to paint for a scene: the scene's own
/// words and what the viewer wrote, if one of the generators is switched on.
pub open spec fn picture_prompt(
    base: Seq<char>,
    user_input: Seq<char>,
    enable_dalle: bool,
    enable_stable_diffusion: bool,
) -> Option<Seq<char>> {
    if enable_dalle || enable_stable_diffusion {
        Some(base + " "@ + user_input)
    } else {
        None
    }
}

/// The event that plays `scene` with `content` as its text.
pub open spec fn scene_request(
    scene: AIScene,
    content: Seq<char>,
    user_input: Seq<char>,
    enable_dalle: bool,
    enable_stable_diffusion: bool,
) -> EventView {
    EventView::AiScenesRequest(
        AiScenesRequestView {
            voice: Some(scene.voice@),
            message: content,
            voice_text: content,
            music_bg: Some(scene.music_bg@),
            prompt: picture_prompt(
                scene.base_dalle_prompt@,
                user_input,
                enable_dalle,
                enable_stable_diffusion,
            ),
            username: Seq::<char>::empty(),
        },
    )
}

/// The event that sets a whole scene going.
pub fn trigger_full_scene(
    voice: String,
    music_bg: String,
    content: String,
    dalle_prompt: Option<String>,
) -> (event: Event)
    ensures
        event@ == EventView::AiScenesRequest(
            AiScenesRequestView {
                voice: Some(voice@),
                message: content@,
                voice_text: content@,
                music_bg: Some(music_bg@),
                prompt: text_view(dalle_prompt),
                username: Seq::<char>::empty(),
            },
        ),
{
    Event::AiScenesRequest(
        AiScenesRequest {
            voice: Some(voice),
            message: content.clone(),
            voice_text: content,
            music_bg: Some(music_bg),
            prompt: dalle_prompt,
            username: String::new(),
        },
    )
}

/// The event that plays `scene` with `content`, the text that was written for
/// it, once the viewer's words `user_input` have been answered.
pub fn process_ai_scene(
    scene: &AIScene,
    content: String,
    user_input: &str,
    enable_dalle: bool,
    enable_stable_diffusion: bool,
) -> (event: Event)
    ensures
        event@ == scene_request(
            *scene,
            content@,
            user_input@,
            enable_dalle,
            enable_stable_diffusion,
        ),
{
    let dalle_prompt = if enable_dalle || enable_stable_diffusion {
        let mut prompt = scene.base_dalle_prompt.clone();
        prompt.append(" ");
        prompt.append(user_input);
        Some(prompt)
    } else {
        None
    };
    trigger_full_scene(scene.voice.clone(), scene.music_bg.clone(), content, dalle_prompt)
}

/// What a language model answered, as far as it is read.
#[derive(Debug, Clone)]
pub enum ChatContent {
    /// A plain answer, which may be missing.
    Message(Option<String>),
    /// An answer in parts, of which some are text.
    Parts(Vec<Option<String>>),
}

/// Why an answer of a language model cannot be used.
#[derive(Debug, Clone, Copy, PartialEq, Eq, Structural)]
pub enum ChatError {
    /// The answer has no content.
    NoContent,
    /// The answer is in parts, and none of them is text.
    NoTextContent,
}

impl ChatError {
    /// What the error says, in words.
    pub open spec fn text(self) -> Seq<char> {
        match self {
            ChatError::NoContent => "No content"@,
            ChatError::NoTextContent => "No text content found"@,
        }
    }

    /// What the error says, in words.
    pub fn message(&self) -> (message: String)
        ensures
            message@ == self.text(),
    {
        match self {
            ChatError::NoContent => String::from_str("No content"),
            ChatError::NoTextContent => String::from_str("No text content found"),
        }
    }
}

/// The position of the first part that is text, if there is one.
pub open spec fn first_text(parts: Seq<Option<String>>) -> Option<int>
    decreases parts.len(),
{
    if parts.len() == 0 {
        None
    } else if parts[0] is Some {
        Some(0)
    } else {
        match first_text(parts.skip(1)) {
            Some(at) => Some(at + 1),
            None => None,
        }
    }
}

/// The position of the first part that is text, if there is one.
pub fn find_first_text(parts: &Vec<Option<String>>) -> (found: Option<usize>)
    ensures
        match found {
            Some(at) => first_text(parts@) == Some(at as int) && at < parts@.len()
                && parts@[at as int] is Some,
            None => first_text(parts@) is None,
        },
{
    let mut i: usize = 0;
    assert(parts@.skip(0) =~= parts@);
    while i < parts.len()
        invariant
            i <= parts@.len(),
            first_text(parts@) == match first_text(parts@.skip(i as int)) {
                Some(at) => Some(at + i),
                None => None,
            },
        decreases parts@.len() - i,
    {
        proof {
            assert(parts@.skip(i as int)[0] == parts@[i as int]);
            assert(parts@.skip(i as int).skip(1) =~= parts@.skip(i + 1));
        }
        if parts[i].is_some() {
            return Some(i);
        }
        i = i + 1;
    }
    assert(parts@.skip(i as int).len() == 0);
    None
}

/// The text of an answer: a plain answer as it is, or empty if it is missing; of
/// an answer in parts, the first part that is text.
pub fn ask_chat_gpt(content: Option<&ChatContent>) -> (text: Result<String, ChatError>)
    ensures
        match text {
            Ok(t) => content is Some && match *content->0 {
                ChatContent::Message(message) => t@ == crate::songs::field_or_empty(message),
                ChatContent::Parts(parts) => first_text(parts@) is Some && 0 <= first_text(
                    parts@,
                )->0 < parts@.len() && t@ == crate::songs::field_or_empty(
                    parts@[first_text(parts@)->0],
                ),
            },
            Err(ChatError::NoContent) => content is None,
            Err(ChatError::NoTextContent) => content is Some && match *content->0 {
                ChatContent::Message(_) => false,
                ChatContent::Parts(parts) => first_text(parts@) is None,
            },
        },
{
    let content = match content {
        Some(content) => content,
        None => {
            return Err(ChatError::NoContent);
        },
    };
    match content {
        ChatContent::Message(message) => match message {
            Some(text) => Ok(text.clone()),
            None => Ok(String::new()),
        },
        ChatContent::Parts(parts) => match find_first_text(parts) {
            Some(at) => match &parts[at] {
                Some(text) => Ok(text.clone()),
                None => Ok(String::new()),
            },
            None => Err(ChatError::NoTextContent),
        },
    }
}

} // verus!
