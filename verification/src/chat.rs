//! Chat lines on their way into the system, and the talking pictures of the
//! friends of the stream.

use crate::bus::{EventBus, PublishError};
use crate::event::{
    event_views, text_view, AiScenesRequest, Event, EventView, TwitchMessage, TwitchMessageView,
    UserMessage, UserMessageView, UserPlatform, UserRoles,
};
use crate::text::{decimal, decimal_of, same, views};
use crate::voice::clone_text;
use vstd::prelude::*;

verus! {

/// One message of the chat server, as far as it is read.
#[derive(Debug, Clone)]
pub enum ServerLine {
    /// A line that a user wrote, with the badges next to the name.
    Privmsg {
        sender_id: String,
        sender_login: String,
        sender_name: String,
        text: String,
        badges: Vec<String>,
    },
    /// Anything else the server says.
    Other,
}

/// The event that a message of the chat server becomes: a line that a user wrote
/// is passed on with the roles that the badges give; nothing else is.
pub open spec fn line_event(line: ServerLine) -> Option<EventView> {
    match line {
        ServerLine::Privmsg { sender_id, sender_login, sender_name, text, badges } => Some(
            EventView::TwitchChatMessage(
                TwitchMessageView {
                    sender_id: sender_id@,
                    sender_login: sender_login@,
                    sender_name: sender_name@,
                    text: text@,
                    roles: roles_by_badges(views(badges@)),
                },
            ),
        ),
        ServerLine::Other => None,
    }
}

/// The event that the message `line` of the chat server becomes, if it becomes one.
pub fn chat_event(line: &ServerLine) -> (event: Option<Event>)
    ensures
        match event {
            Some(e) => line_event(*line) == Some(e@),
            None => line_event(*line) is None,
        },
{
    match line {
        ServerLine::Privmsg { sender_id, sender_login, sender_name, text, badges } => Some(
            Event::TwitchChatMessage(
                TwitchMessage {
                    sender_id: sender_id.clone(),
                    sender_login: sender_login.clone(),
                    sender_name: sender_name.clone(),
                    text: text.clone(),
                    roles: roles_of(badges),
                },
            ),
        ),
        ServerLine::Other => None,
    }
}

/// The events that a run of messages of the chat server becomes: one for each
/// line that a user wrote, in the order in which the lines came.
pub open spec fn line_events(lines: Seq<ServerLine>) -> Seq<EventView>
    decreases lines.len(),
{
    if lines.len() == 0 {
        Seq::<EventView>::empty()
    } else {
        match line_event(lines.last()) {
            Some(event) => line_events(lines.drop_last()).push(event),
            None => line_events(lines.drop_last()),
        }
    }
}

/// Publishes what a run of messages of the chat server becomes: one event for
/// each line that a user wrote, in the order in which the lines came, and
/// nothing for anything else. No subscription is read or waited for. Returns the
/// number of events; the only failure is a bus whose handles have all been
/// dropped, when there is something to publish.
pub fn read_chat(lines: &Vec<ServerLine>, bus: &mut EventBus<Event>) -> (sent: Result<
    usize,
    PublishError,
>)
    requires
        old(bus)@.log.len() + lines@.len() <= u64::MAX,
    ensures
        final(bus)@.capacity == old(bus)@.capacity,
        final(bus)@.subscribers == old(bus)@.subscribers,
        final(bus)@.own_sender == old(bus)@.own_sender,
        final(bus)@.handed_out == old(bus)@.handed_out,
        match sent {
            Ok(count) => {
                &&& count == line_events(lines@).len()
                &&& count > 0 ==> !old(bus)@.fully_closed()
                &&& final(bus)@.log.len() == old(bus)@.log.len() + count
                &&& event_views(final(bus)@.log) == event_views(old(bus)@.log) + line_events(
                    lines@,
                )
            },
            Err(PublishError::Closed) => {
                &&& old(bus)@.fully_closed()
                &&& line_events(lines@).len() > 0
                &&& final(bus)@.log == old(bus)@.log
            },
        },
{
    let mut events: Vec<Event> = Vec::new();
    let mut i: usize = 0;
    assert(lines@.take(0) =~= Seq::<ServerLine>::empty());
    assert(event_views(events@) =~= line_events(lines@.take(0)));
    while i < lines.len()
        invariant
            i <= lines@.len(),
            events@.len() <= i,
            event_views(events@) == line_events(lines@.take(i as int)),
        decreases lines@.len() - i,
    {
        proof {
            assert(lines@.take(i + 1).drop_last() =~= lines@.take(i as int));
            assert(lines@.take(i + 1).last() == lines@[i as int]);
        }
        match chat_event(&lines[i]) {
            Some(event) => {
                let ghost before = event_views(events@);
                events.push(event);
                assert(event_views(events@) =~= before.push(event@));
            },
            None => {},
        }
        i = i + 1;
    }
    assert(lines@.take(i as int) =~= lines@);
    let count = events.len();
    if count == 0 {
        assert(event_views(bus@.log) + line_events(lines@) =~= event_views(bus@.log));
        return Ok(0);
    }
    let ghost published = events@;
    let ghost before = bus@;
    match bus.publish_all(events) {
        Ok(_) => {
            assert(event_views(before.log + published) =~= event_views(before.log) + event_views(
                published,
            ));
            Ok(count)
        },
        Err(error) => Err(error),
    }
}

/// The chat line of the platform behind an event, if `event` is one.
pub fn platform_message(event: &Event) -> (message: Option<&TwitchMessage>)
    ensures
        match message {
            Some(m) => *event == Event::TwitchChatMessage(*m),
            None => !(event is TwitchChatMessage),
        },
{
    match event {
        Event::TwitchChatMessage(message) => Some(message),
        _ => None,
    }
}

/// What a chat user is allowed to do, by the badges next to the name: each role is
/// held by whoever wears the badge of its name.
pub open spec fn roles_by_badges(badges: Seq<Seq<char>>) -> UserRoles {
    UserRoles {
        staff: badges.contains("staff"@),
        moderator: badges.contains("moderator"@),
        subscriber: badges.contains("subscriber"@),
        vip: badges.contains("vip"@),
    }
}

fn wears(badges: &Vec<String>, badge: &str) -> (worn: bool)
    ensures
        worn == views(badges@).contains(badge@),
{
    let mut i: usize = 0;
    while i < badges.len()
        invariant
            i <= badges@.len(),
            forall|k: int| 0 <= k < i ==> views(badges@)[k] != badge@,
        decreases badges@.len() - i,
    {
        if same(badges[i].as_str(), badge) {
            assert(views(badges@)[i as int] == badge@);
            return true;
        }
        i = i + 1;
    }
    false
}

/// What the wearer of `badges` is allowed to do.
pub fn roles_of(badges: &Vec<String>) -> (roles: UserRoles)
    ensures
        roles == roles_by_badges(views(badges@)),
{
    UserRoles {
        staff: wears(badges, "staff"),
        moderator: wears(badges, "moderator"),
        subscriber: wears(badges, "subscriber"),
        vip: wears(badges, "vip"),
    }
}

/// The chat line of a known user that a chat line of the platform becomes, once
/// its writer is on record as `user_id` with `roles`.
pub open spec fn known_user_message(
    message: crate::event::TwitchMessageView,
    user_id: Seq<char>,
    roles: UserRoles,
) -> EventView {
    EventView::UserMessage(
        UserMessageView {
            user_id,
            user_name: message.sender_name,
            roles,
            platform: UserPlatform::Twitch,
            contents: message.text,
        },
    )
}

/// The event that passes the chat line `message` on to the rest of the system,
/// once its writer is on record as `user_id` with `roles`.
pub fn user_message(message: &TwitchMessage, user_id: String, roles: UserRoles) -> (event: Event)
    ensures
        event@ == known_user_message(message@, user_id@, roles),
{
    Event::UserMessage(
        UserMessage {
            user_id,
            user_name: message.sender_name.clone(),
            roles,
            platform: UserPlatform::Twitch,
            contents: message.text.clone(),
        },
    )
}

/// Where the talking picture of `friend_name`, made at `timestamp`, is kept.
pub fn friend_video_path(friend_name: &str, timestamp: i64) -> (path: String)
    ensures
        path@ == "./ai_assets/"@ + friend_name@ + "-"@ + decimal(timestamp as int) + ".mp4"@,
{
    let mut path = String::from_str("./ai_assets/");
    path.append(friend_name);
    path.append("-");
    let number = decimal_of(timestamp);
    path.append(number.as_str());
    path.append(".mp4");
    path
}

/// Where the opening picture of `friend_name` is kept.
pub fn intro_video_path(friend_name: &str) -> (path: String)
    ensures
        path@ == "./ai_assets/"@ + friend_name@ + "_intro.mp4"@,
{
    let mut path = String::from_str("./ai_assets/");
    path.append(friend_name);
    path.append("_intro.mp4");
    path
}

/// Where a talking picture made at `timestamp` is kept in `folder`.
pub fn ai_video_path(folder: &str, timestamp: i64) -> (path: String)
    ensures
        path@ == folder@ + "/"@ + decimal(timestamp as int) + ".mp4"@,
{
    let mut path = String::from_str(folder);
    path.append("/");
    let number = decimal_of(timestamp);
    path.append(number.as_str());
    path.append(".mp4");
    path
}

/// What the chat is told once a friend's picture talks: the music of the scene,
/// if the scene has any. Nothing is said when the picture could not be made.
pub fn trigger_ai_friend(request: &AiScenesRequest, synced: bool) -> (line: Option<String>)
    ensures
        text_view(line) == if synced {
            text_view(request.music_bg)
        } else {
            None
        },
{
    if synced {
        clone_text(&request.music_bg)
    } else {
        None
    }
}

} // verus!
