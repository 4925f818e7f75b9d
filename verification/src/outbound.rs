//! The outbound filter: which events of the bus a connection is sent.

use crate::json::{json_text_member, text_member};
use crate::rooms::{accessible_room_ids, AllowedRooms, AllowedRoomsView, Room};
use crate::text::{opt_str_view, opt_view};
use vstd::prelude::*;

verus! {

/// The room that an event on the bus belongs to: its `room_id` member, where
/// the event is a JSON object that has one and it is a string.
pub fn extract_room_id(payload: &str) -> (room_id: Option<String>)
    ensures
        opt_view(room_id) == json_text_member(payload@, "room_id"@),
{
    text_member(payload, "room_id")
}

/// Whether an event with this room passes the filter: an event of no room is
/// for everyone, an event of a room only for those whom the snapshot admits.
pub open spec fn passes_filter(allowed: AllowedRoomsView, room_id: Option<Seq<char>>) -> bool {
    match room_id {
        Some(id) => allowed.admits(id),
        None => true,
    }
}

/// Decides for an event whose room is already known.
pub fn delivers_to(allowed: &AllowedRooms, room_id: Option<&str>) -> (deliver: bool)
    ensures
        deliver == passes_filter(allowed@, opt_str_view(room_id)),
{
    match room_id {
        Some(id) => allowed.allows(id),
        None => true,
    }
}

/// Decides whether the connection is sent `payload`, an event taken from the bus.
pub fn should_deliver(allowed: &AllowedRooms, payload: &str) -> (deliver: bool)
    ensures
        deliver == passes_filter(allowed@, json_text_member(payload@, "room_id"@)),
{
    match extract_room_id(payload) {
        Some(id) => delivers_to(allowed, Some(id.as_str())),
        None => delivers_to(allowed, None),
    }
}

/// How many events the bus keeps for a subscriber that reads slowly.
pub const BUS_CAPACITY: usize = 256;

/// What a subscription to the bus gave.
#[derive(Debug)]
pub enum BusEvent {
    /// The next event.
    Event(String),
    /// The subscriber read too slowly and this many events were lost to it;
    /// the subscription goes on with the oldest event still kept.
    Lagged(u64),
    /// The bus is closed.
    Closed,
}

/// What the outbound task does next.
#[derive(Debug)]
pub enum Forward {
    /// Send the event over the transport, then read on; stop if sending fails.
    Send(String),
    /// Read on.
    Skip,
    /// Stop.
    Stop,
}

/// Handles what the subscription gave: an event goes through the filter; a
/// gap is passed over without a word to anyone; and a closed bus ends the task.
pub fn on_bus_event(allowed: &AllowedRooms, event: BusEvent) -> (next: Forward)
    ensures
        next == (match event {
            BusEvent::Event(payload) => if passes_filter(allowed@, json_text_member(payload@, "room_id"@)) {
                Forward::Send(payload)
            } else {
                Forward::Skip
            },
            BusEvent::Lagged(_) => Forward::Skip,
            BusEvent::Closed => Forward::Stop,
        }),
{
    match event {
        BusEvent::Event(payload) => if should_deliver(allowed, payload.as_str()) {
            Forward::Send(payload)
        } else {
            Forward::Skip
        },
        BusEvent::Lagged(_) => Forward::Skip,
        BusEvent::Closed => Forward::Stop,
    }
}

/// The filter, case by case: an event of no room always passes; an
/// administrator is sent every event; anyone else is sent an event of a room
/// exactly when the room is in the snapshot.
pub proof fn lemma_filter_rule(allowed: AllowedRoomsView, room_id: Seq<char>)
    ensures
        passes_filter(allowed, None),
        allowed.admin ==> passes_filter(allowed, Some(room_id)),
        !allowed.admin ==> passes_filter(allowed, Some(room_id)) == allowed.rooms.contains(room_id),
{
}

/// The snapshot is taken at connect time and is all that the filter reads:
/// for a connection made with role `role_at_connect` over the rooms `rooms`,
/// an event of a room passes exactly when that role is `admin` or could enter
/// a room of that id then. No later role, and no later state of the role
/// cache, is part of the decision.
pub proof fn lemma_filter_reads_snapshot_only(
    allowed: AllowedRoomsView,
    rooms: Seq<Room>,
    role_at_connect: Seq<char>,
    room_id: Seq<char>,
)
    requires
        allowed.admin == (role_at_connect == "admin"@),
        allowed.rooms == accessible_room_ids(rooms, role_at_connect),
    ensures
        passes_filter(allowed, Some(room_id)) == (role_at_connect == "admin"@ || accessible_room_ids(
            rooms,
            role_at_connect,
        ).contains(room_id)),
{
}

} // verus!
