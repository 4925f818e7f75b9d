//! The inbound processor: what the hub does with each thing that arrives on a
//! connection, as a function from the event to the step to take.
//!
//! The caller owns the transport, the bus and the persistent store. It hands
//! in what arrived, performs the step that comes back, and for a chat message
//! resolves the two roles before it asks for the verdict.

use crate::access::access_decision;
use crate::access::can_user_access_room_cached;
use crate::frame::{frame_kind, kind_of, FrameKind, WsMessage};
use crate::fresh::{fresh_id, timestamp_now};
use crate::gate::SessionIdentity;
use crate::messages::Message;
use crate::presence::OnlineUsers;
use crate::text::{all_white_space, is_blank, opt_str_view, str_eq};
use vstd::prelude::*;

verus! {

/// Something to publish on the bus.
#[derive(Debug)]
pub enum Outgoing {
    /// The text of the inbound frame, as it came.
    Verbatim(String),
    /// An envelope, to be encoded as the inbound frames are.
    Frame(WsMessage),
    /// The notice that a user went offline: an envelope of kind `leave` that
    /// holds this user id and nothing else.
    Offline(String),
}

/// What arrived on the transport.
#[derive(Debug)]
pub enum Received {
    /// A text frame, with the envelope that it decodes to where it does.
    Text { raw: String, frame: Option<WsMessage> },
    /// A close frame.
    Close,
    /// Any other kind of frame.
    Other,
}

/// The step that the caller takes next.
#[derive(Debug)]
pub enum Step {
    /// Nothing; go on reading.
    Ignore,
    /// Publish, and go on reading.
    Publish(Outgoing),
    /// Publish, and stop reading.
    PublishAndStop(Outgoing),
    /// Stop reading.
    Stop,
    /// A chat message of the connection's own user: resolve the room's
    /// required role and the user's role, then hand the envelope to
    /// `accept_message`.
    CheckAccess(WsMessage),
}

/// Whether a chat message names room, sender and sender name, and the
/// sender is `user_id`. Whether it has content is not asked here.
pub open spec fn is_own_message(frame: WsMessage, user_id: Seq<char>) -> bool {
    &&& frame.room_id is Some
    &&& frame.username is Some
    &&& frame.user_id is Some
    &&& frame.user_id->0@ == user_id
}

/// Whether a chat message has something to say: content that is not blank,
/// or an image.
pub open spec fn has_payload(frame: WsMessage) -> bool {
    ||| frame.content is Some && !all_white_space(frame.content->0@)
    ||| frame.image_url is Some && frame.image_url->0@.len() > 0
}

/// Whether the hub accepts a chat message from the connection of `user_id`,
/// given the outcome of the two role lookups.
pub open spec fn message_accepted(
    frame: WsMessage,
    user_id: Seq<char>,
    room_required_role: Option<Seq<char>>,
    user_role: Option<Seq<char>>,
) -> bool {
    &&& is_own_message(frame, user_id)
    &&& access_decision(room_required_role, user_role)
    &&& has_payload(frame)
}

/// `out` is `frame` with the sender replaced by `user_id`.
pub open spec fn is_resigned(out: WsMessage, frame: WsMessage, user_id: Seq<char>) -> bool {
    &&& out.user_id is Some
    &&& out.user_id->0@ == user_id
    &&& out == (WsMessage { user_id: out.user_id, ..frame })
}

/// The registry after a `join` with this marker.
pub open spec fn users_after_join(
    users: Map<Seq<char>, i32>,
    user_id: Seq<char>,
    marker: Option<i32>,
) -> Map<Seq<char>, i32> {
    match marker {
        Some(color) => users.insert(user_id, color),
        None => users,
    }
}

/// The content of a chat message as it is stored: the content that the
/// envelope carries, and the empty text where it carries none.
pub open spec fn stored_content(frame: WsMessage) -> Seq<char> {
    match frame.content {
        Some(content) => content@,
        None => Seq::<char>::empty(),
    }
}

/// `record` and `event` are the stored message and the published envelope
/// of `frame`, both with this id and time. The envelope is the frame with id
/// and time filled in. The record takes room, sender, sender name, reply and
/// image from the frame, the content as `stored_content` gives it, and has
/// neither pin nor avatar.
pub open spec fn is_stamped(
    frame: WsMessage,
    id: String,
    created_at: String,
    record: Message,
    event: WsMessage,
) -> bool {
    &&& event == (WsMessage { id: id, created_at: created_at, ..frame })
    &&& record.id == id
    &&& record.room_id == frame.room_id->0
    &&& record.user_id == frame.user_id->0
    &&& record.username == frame.username->0
    &&& record.content@ == stored_content(frame)
    &&& record.reply_to_id == frame.reply_to_id
    &&& record.created_at == created_at
    &&& record.image_url == frame.image_url
    &&& record.pinned_at is None
    &&& record.pinned_by is None
    &&& record.avatar_url is None
}

/// Whether `step` is the step for a decoded envelope that came as `raw` on
/// the connection of `user_id`, and `after` the registry that the step
/// leaves of the registry `before`.
///
/// - `join`: the sender becomes the connection's own user, a marker that the
///   envelope carries goes into the registry, and the envelope is published.
/// - `leave`: the user leaves the registry, the text is published as it
///   came, and reading stops.
/// - `message`: an envelope that lacks room, sender or sender name, or whose
///   sender is not the connection's user, is dropped; any other goes on to
///   the access check, with or without content.
/// - typing, presence and voice signalling: the text is published as it came.
/// - any other kind: nothing.
pub open spec fn is_frame_step(
    user_id: Seq<char>,
    before: Map<Seq<char>, i32>,
    after: Map<Seq<char>, i32>,
    raw: String,
    frame: WsMessage,
    step: Step,
) -> bool {
    match kind_of(frame.msg_type@) {
        FrameKind::Join => {
            &&& step is Publish
            &&& step->Publish_0 is Frame
            &&& is_resigned(step->Publish_0->Frame_0, frame, user_id)
            &&& after == users_after_join(before, user_id, frame.avatar_color)
        },
        FrameKind::Leave => {
            &&& step == Step::PublishAndStop(Outgoing::Verbatim(raw))
            &&& after == before.remove(user_id)
        },
        FrameKind::Message => {
            &&& step == (if is_own_message(frame, user_id) {
                Step::CheckAccess(frame)
            } else {
                Step::Ignore
            })
            &&& after == before
        },
        FrameKind::Unknown => step == Step::Ignore && after == before,
        _ => step == Step::Publish(Outgoing::Verbatim(raw)) && after == before,
    }
}

fn same_user(sender: &Option<String>, user_id: &str) -> (same: bool)
    ensures
        same == (*sender is Some && sender->0@ == user_id@),
{
    match sender {
        Some(id) => str_eq(id.as_str(), user_id),
        None => false,
    }
}

fn copy_of(text: &Option<String>) -> (copy: Option<String>)
    ensures
        copy == *text,
{
    match text {
        Some(inner) => Some(inner.clone()),
        None => None,
    }
}

/// Handles one decoded envelope; `raw` is the text that it was decoded
/// from. What is done for each kind is said at `is_frame_step`.
pub fn on_frame(identity: &SessionIdentity, users: &mut OnlineUsers, raw: String, frame: WsMessage) -> (step:
    Step)
    ensures
        is_frame_step(identity@.user_id, old(users)@, final(users)@, raw, frame, step),
{
    match frame_kind(frame.msg_type.as_str()) {
        FrameKind::Join => {
            match frame.avatar_color {
                Some(color) => {
                    users.set(identity.user_id(), color);
                },
                None => {},
            }
            let mut out = frame;
            out.user_id = Some(identity.user_id().to_owned());
            Step::Publish(Outgoing::Frame(out))
        },
        FrameKind::Leave => {
            users.remove(identity.user_id());
            Step::PublishAndStop(Outgoing::Verbatim(raw))
        },
        FrameKind::Message => {
            if frame.room_id.is_some() && frame.username.is_some() && same_user(
                &frame.user_id,
                identity.user_id(),
            ) {
                Step::CheckAccess(frame)
            } else {
                Step::Ignore
            }
        },
        FrameKind::Unknown => Step::Ignore,
        _ => Step::Publish(Outgoing::Verbatim(raw)),
    }
}

/// Handles whatever arrived: a text frame that decodes is handled as
/// `is_frame_step` says, one that does not decode is ignored, a close frame
/// stops the reading, and every other frame is ignored.
pub fn on_received(identity: &SessionIdentity, users: &mut OnlineUsers, received: Received) -> (step: Step)
    ensures
        match received {
            Received::Text { raw, frame: Some(frame) } => is_frame_step(
                identity@.user_id,
                old(users)@,
                final(users)@,
                raw,
                frame,
                step,
            ),
            Received::Text { raw, frame: None } => step == Step::Ignore && final(users)@ == old(users)@,
            Received::Close => step == Step::Stop && final(users)@ == old(users)@,
            Received::Other => step == Step::Ignore && final(users)@ == old(users)@,
        },
{
    match received {
        Received::Text { raw, frame } => match frame {
            Some(envelope) => on_frame(identity, users, raw, envelope),
            None => Step::Ignore,
        },
        Received::Close => Step::Stop,
        Received::Other => Step::Ignore,
    }
}

/// The verdict on a chat message once the two roles are resolved: the
/// message must be the connection's own, the user must be allowed into the
/// room, and there must be content that is not blank, or an image.
pub fn message_verdict(
    identity: &SessionIdentity,
    frame: &WsMessage,
    room_required_role: Option<&str>,
    user_role: Option<&str>,
) -> (accepted: bool)
    ensures
        accepted == message_accepted(
            *frame,
            identity@.user_id,
            opt_str_view(room_required_role),
            opt_str_view(user_role),
        ),
{
    if !(frame.room_id.is_some() && frame.username.is_some() && same_user(
        &frame.user_id,
        identity.user_id(),
    )) {
        return false;
    }
    if !can_user_access_room_cached(room_required_role, user_role) {
        return false;
    }
    let has_content = match &frame.content {
        Some(content) => !is_blank(content.as_str()),
        None => false,
    };
    let has_image = match &frame.image_url {
        Some(url) => !url.as_str().is_empty(),
        None => false,
    };
    has_content || has_image
}

/// Gives a chat message its id and its time: the message to store, and the
/// envelope to publish. A message without content is stored with the empty
/// text as its content. There is neither record nor envelope where the
/// envelope lacks room, sender or sender name.
pub fn stamp_message(frame: WsMessage, id: String, created_at: String) -> (stamped: Option<(Message, WsMessage)>)
    ensures
        stamped is Some <==> frame.room_id is Some && frame.username is Some && frame.user_id is Some,
        stamped matches Some((record, event)) ==> is_stamped(frame, id, created_at, record, event),
{
    let content = match &frame.content {
        Some(content) => content.clone(),
        None => String::new(),
    };
    let record = match (&frame.room_id, &frame.user_id, &frame.username) {
        (Some(room_id), Some(user_id), Some(username)) => Message {
            id: id.clone(),
            room_id: room_id.clone(),
            user_id: user_id.clone(),
            username: username.clone(),
            content,
            reply_to_id: copy_of(&frame.reply_to_id),
            created_at: created_at.clone(),
            image_url: copy_of(&frame.image_url),
            pinned_at: None,
            pinned_by: None,
            avatar_url: None,
        },
        _ => {
            return None;
        },
    };
    let mut event = frame;
    event.id = id;
    event.created_at = created_at;
    Some((record, event))
}

/// Decides on a chat message once the two roles are resolved, and stamps an
/// accepted one with a fresh id and the time of the call. An accepted message
/// comes back as the message to store and the envelope to publish; the
/// envelope's sender is the connection's user. A rejected one gives nothing:
/// nothing is stored and nothing is published.
pub fn accept_message(
    identity: &SessionIdentity,
    frame: WsMessage,
    room_required_role: Option<&str>,
    user_role: Option<&str>,
) -> (accepted: Option<(Message, WsMessage)>)
    ensures
        accepted is Some <==> message_accepted(
            frame,
            identity@.user_id,
            opt_str_view(room_required_role),
            opt_str_view(user_role),
        ),
        accepted matches Some((record, event)) ==> {
            &&& is_stamped(frame, event.id, event.created_at, record, event)
            &&& event.user_id is Some
            &&& event.user_id->0@ == identity@.user_id
            &&& record.user_id@ == identity@.user_id
        },
{
    if !message_verdict(identity, &frame, room_required_role, user_role) {
        return None;
    }
    stamp_message(frame, fresh_id(), timestamp_now())
}

/// Ends a connection, however it ended: the user leaves the registry, and
/// the notice that the user went offline is to be published. The identity is
/// used up, so a connection is ended once. The registry knows users, not
/// connections: the entry goes even where the same user has another
/// connection open.
pub fn disconnect(identity: SessionIdentity, users: &mut OnlineUsers) -> (notice: Outgoing)
    ensures
        notice is Offline,
        notice->Offline_0@ == identity@.user_id,
        final(users)@ == old(users)@.remove(identity@.user_id),
{
    users.remove(identity.user_id());
    Outgoing::Offline(identity.user_id().to_owned())
}

/// Identity integrity: whatever sender an inbound chat message names, the
/// envelope that is published for it, and the message that is stored, carry
/// the connection's own user; and a message that names any other sender is
/// not accepted at all.
pub proof fn lemma_identity_integrity(
    frame: WsMessage,
    user_id: Seq<char>,
    room_required_role: Option<Seq<char>>,
    user_role: Option<Seq<char>>,
    id: String,
    created_at: String,
    record: Message,
    event: WsMessage,
)
    ensures
        message_accepted(frame, user_id, room_required_role, user_role) && is_stamped(
            frame,
            id,
            created_at,
            record,
            event,
        ) ==> event.user_id is Some && event.user_id->0@ == user_id && record.user_id@ == user_id,
        frame.user_id is Some && frame.user_id->0@ != user_id ==> !message_accepted(
            frame,
            user_id,
            room_required_role,
            user_role,
        ),
        frame.user_id is None ==> !message_accepted(frame, user_id, room_required_role, user_role),
{
}

/// A `join` is published under the connection's own user, whatever sender it names.
pub proof fn lemma_join_is_resigned(out: WsMessage, frame: WsMessage, user_id: Seq<char>)
    requires
        is_resigned(out, frame, user_id),
    ensures
        out.user_id is Some,
        out.user_id->0@ == user_id,
        out.msg_type == frame.msg_type,
        out.room_id == frame.room_id,
        out.avatar_color == frame.avatar_color,
{
}

/// A chat message whose content is blank, or absent, and that has no image,
/// or an empty one, is never accepted: whoever sent it and whatever the roles.
pub proof fn lemma_blank_message_dropped(
    frame: WsMessage,
    user_id: Seq<char>,
    room_required_role: Option<Seq<char>>,
    user_role: Option<Seq<char>>,
)
    requires
        frame.content is Some ==> all_white_space(frame.content->0@),
        frame.image_url is Some ==> frame.image_url->0@.len() == 0,
    ensures
        !message_accepted(frame, user_id, room_required_role, user_role),
{
}

/// An image is enough: a chat message of the connection's own user, to a
/// room that the user may enter, is accepted with an image that is not empty,
/// whether it has content, blank content, or no content at all.
pub proof fn lemma_image_alone_is_enough(
    frame: WsMessage,
    user_id: Seq<char>,
    room_required_role: Option<Seq<char>>,
    user_role: Option<Seq<char>>,
)
    requires
        is_own_message(frame, user_id),
        access_decision(room_required_role, user_role),
        frame.image_url is Some,
        frame.image_url->0@.len() > 0,
    ensures
        message_accepted(frame, user_id, room_required_role, user_role),
{
}

/// Content that is not blank is enough too, with or without an image.
pub proof fn lemma_content_alone_is_enough(
    frame: WsMessage,
    user_id: Seq<char>,
    room_required_role: Option<Seq<char>>,
    user_role: Option<Seq<char>>,
)
    requires
        is_own_message(frame, user_id),
        access_decision(room_required_role, user_role),
        frame.content is Some,
        !all_white_space(frame.content->0@),
    ensures
        message_accepted(frame, user_id, room_required_role, user_role),
{
}

/// A chat message is accepted only where the access rule lets the user into
/// the room: an unknown room, an unknown user and a role that the room does
/// not take all lead to a drop.
pub proof fn lemma_denied_message_dropped(
    frame: WsMessage,
    user_id: Seq<char>,
    room_required_role: Option<Seq<char>>,
    user_role: Option<Seq<char>>,
)
    requires
        !access_decision(room_required_role, user_role),
    ensures
        !message_accepted(frame, user_id, room_required_role, user_role),
{
}

/// The life of a presence entry: a `join` with a marker puts the user into
/// the registry with that marker, over any earlier one; a `join` without a
/// marker leaves the registry as it is; and after the disconnect the user is
/// not in the registry, while every other user is as before.
pub proof fn lemma_presence_lifecycle(
    users: Map<Seq<char>, i32>,
    user_id: Seq<char>,
    marker: i32,
    other: Seq<char>,
)
    ensures
        users_after_join(users, user_id, Some(marker)).contains_key(user_id),
        users_after_join(users, user_id, Some(marker))[user_id] == marker,
        users_after_join(users, user_id, None) == users,
        !users_after_join(users, user_id, Some(marker)).remove(user_id).contains_key(user_id),
        other != user_id ==> users_after_join(users, user_id, Some(marker)).remove(user_id).contains_key(
            other,
        ) == users.contains_key(other),
        other != user_id && users.contains_key(other) ==> users_after_join(
            users,
            user_id,
            Some(marker),
        ).remove(user_id)[other] == users[other],
{
}

} // verus!
