//! The envelope that travels over a connection and over the bus, and the
//! closed set of kinds that the hub tells apart.

use crate::text::str_eq;
use vstd::prelude::*;

verus! {

/// One envelope: the kind in `msg_type`, and the fields that the kind uses.
/// `id` and `created_at` are assigned by the hub when it accepts a chat
/// message; what a client sends in them is never read.
#[derive(Debug, Clone)]
pub struct WsMessage {
    pub msg_type: String,
    pub room_id: Option<String>,
    pub user_id: Option<String>,
    pub username: Option<String>,
    pub content: Option<String>,
    pub reply_to_id: Option<String>,
    pub avatar_color: Option<i32>,
    pub image_url: Option<String>,
    pub avatar_url: Option<String>,
    pub banner_url: Option<String>,
    pub status: Option<String>,
    pub role: Option<String>,
    pub about: Option<String>,
    pub target_user_id: Option<String>,
    pub muted: Option<bool>,
    pub deafened: Option<bool>,
    pub sdp: Option<serde_json::Value>,
    pub candidate: Option<serde_json::Value>,
    pub id: String,
    pub created_at: String,
}

/// The kinds of envelope that the hub acts on; every other kind is `Unknown`.
#[derive(Clone, Copy, Debug, PartialEq, Eq, Structural)]
pub enum FrameKind {
    Join,
    Leave,
    Message,
    Typing,
    Presence,
    VoiceJoin,
    VoiceLeave,
    VoiceState,
    VoiceSignal,
    Unknown,
}

/// The kind that a `type` tag names.
pub open spec fn kind_of(tag: Seq<char>) -> FrameKind {
    if tag == "join"@ {
        FrameKind::Join
    } else if tag == "leave"@ {
        FrameKind::Leave
    } else if tag == "message"@ {
        FrameKind::Message
    } else if tag == "typing"@ {
        FrameKind::Typing
    } else if tag == "presence"@ {
        FrameKind::Presence
    } else if tag == "voice_join"@ {
        FrameKind::VoiceJoin
    } else if tag == "voice_leave"@ {
        FrameKind::VoiceLeave
    } else if tag == "voice_state"@ {
        FrameKind::VoiceState
    } else if tag == "voice_signal"@ {
        FrameKind::VoiceSignal
    } else {
        FrameKind::Unknown
    }
}

/// Reads a `type` tag: one of the nine known kinds, or `Unknown`.
pub fn frame_kind(tag: &str) -> (kind: FrameKind)
    ensures
        kind == kind_of(tag@),
{
    if str_eq(tag, "join") {
        FrameKind::Join
    } else if str_eq(tag, "leave") {
        FrameKind::Leave
    } else if str_eq(tag, "message") {
        FrameKind::Message
    } else if str_eq(tag, "typing") {
        FrameKind::Typing
    } else if str_eq(tag, "presence") {
        FrameKind::Presence
    } else if str_eq(tag, "voice_join") {
        FrameKind::VoiceJoin
    } else if str_eq(tag, "voice_leave") {
        FrameKind::VoiceLeave
    } else if str_eq(tag, "voice_state") {
        FrameKind::VoiceState
    } else if str_eq(tag, "voice_signal") {
        FrameKind::VoiceSignal
    } else {
        FrameKind::Unknown
    }
}

impl FrameKind {
    /// Whether envelopes of this kind are passed on to the bus as they came:
    /// typing and presence signals, and the four kinds of voice signalling.
    pub open spec fn is_relayed(self) -> bool {
        self is Typing || self is Presence || self is VoiceJoin || self is VoiceLeave
            || self is VoiceState || self is VoiceSignal
    }
}

} // verus!
