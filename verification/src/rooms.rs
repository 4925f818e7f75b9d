//! Rooms, and the snapshot of the rooms that one connection may hear from.

use crate::access::{access_allowed, can_access};
use crate::text::{all_white_space, is_blank, lemma_trimmed_empty, normalize, normalized, str_eq, trim, trimmed};
use vstd::hash_set::StringHashSet;
use vstd::prelude::*;

verus! {

/// A room as the persistent store holds it.
#[derive(Debug)]
pub struct Room {
    pub id: String,
    pub name: String,
    pub kind: String,
    pub required_role: String,
    pub created_at: String,
}

/// What a client sends to create a room.
#[derive(Debug)]
pub struct CreateRoom {
    pub name: String,
    pub kind: Option<String>,
    pub required_role: Option<String>,
}

/// What an administrator sends to change a room.
#[derive(Debug)]
pub struct UpdateRoomSettings {
    pub name: String,
    pub kind: String,
    pub required_role: String,
}

/// Why the settings of a room are refused.
#[derive(Clone, Copy, Debug, PartialEq, Eq, Structural)]
pub enum RoomError {
    /// The name is empty or blank.
    NameRequired,
    /// The kind is neither `text` nor `voice`.
    InvalidKind,
}

/// The settings that a room is stored with: the name trimmed, kind and
/// required role trimmed and in lower case.
#[derive(Debug)]
pub struct RoomSettings {
    pub name: String,
    pub kind: String,
    pub required_role: String,
}

/// Whether `settings` are the stored form of these three texts.
pub open spec fn is_stored_form(
    settings: RoomSettings,
    name: Seq<char>,
    kind: Seq<char>,
    required_role: Seq<char>,
) -> bool {
    &&& settings.name@ == trimmed(name)
    &&& settings.kind@ == normalized(kind)
    &&& settings.required_role@ == normalized(required_role)
}

/// What is wrong with a name and a kind, the name being looked at first.
pub open spec fn settings_fault(name: Seq<char>, kind: Seq<char>) -> Option<RoomError> {
    if all_white_space(name) {
        Some(RoomError::NameRequired)
    } else if normalized(kind) != "text"@ && normalized(kind) != "voice"@ {
        Some(RoomError::InvalidKind)
    } else {
        None
    }
}

/// Checks a name, a kind and a required role, and gives their stored form.
pub fn check_room_settings(name: &str, kind: &str, required_role: &str) -> (checked: Result<
    RoomSettings,
    RoomError,
>)
    ensures
        match checked {
            Ok(settings) => settings_fault(name@, kind@) is None && is_stored_form(
                settings,
                name@,
                kind@,
                required_role@,
            ),
            Err(fault) => settings_fault(name@, kind@) == Some(fault),
        },
{
    if is_blank(name) {
        return Err(RoomError::NameRequired);
    }
    let stored_kind = normalize(kind);
    if !str_eq(stored_kind.as_str(), "text") && !str_eq(stored_kind.as_str(), "voice") {
        return Err(RoomError::InvalidKind);
    }
    Ok(
        RoomSettings {
            name: trim(name).to_owned(),
            kind: stored_kind,
            required_role: normalize(required_role),
        },
    )
}

/// The kind that a new room has where none is given.
pub open spec fn kind_or_default(kind: Option<String>) -> Seq<char> {
    match kind {
        Some(given) => given@,
        None => "text"@,
    }
}

/// The role that a new room asks for where none is given.
pub open spec fn required_role_or_default(required_role: Option<String>) -> Seq<char> {
    match required_role {
        Some(given) => given@,
        None => "user"@,
    }
}

/// Checks what a client sends to create a room: the name must not be blank,
/// the kind must be `text` or `voice` and is `text` where none is given, and
/// the required role is `user` where none is given.
pub fn check_new_room(body: &CreateRoom) -> (checked: Result<RoomSettings, RoomError>)
    ensures
        match checked {
            Ok(settings) => settings_fault(body.name@, kind_or_default(body.kind)) is None
                && is_stored_form(
                settings,
                body.name@,
                kind_or_default(body.kind),
                required_role_or_default(body.required_role),
            ),
            Err(fault) => settings_fault(body.name@, kind_or_default(body.kind)) == Some(fault),
        },
{
    let kind = match &body.kind {
        Some(given) => given.as_str(),
        None => "text",
    };
    let required_role = match &body.required_role {
        Some(given) => given.as_str(),
        None => "user",
    };
    check_room_settings(body.name.as_str(), kind, required_role)
}

/// Checks what an administrator sends to change a room, by the same rules.
pub fn check_room_update(body: &UpdateRoomSettings) -> (checked: Result<RoomSettings, RoomError>)
    ensures
        match checked {
            Ok(settings) => settings_fault(body.name@, body.kind@) is None && is_stored_form(
                settings,
                body.name@,
                body.kind@,
                body.required_role@,
            ),
            Err(fault) => settings_fault(body.name@, body.kind@) == Some(fault),
        },
{
    check_room_settings(body.name.as_str(), body.kind.as_str(), body.required_role.as_str())
}

/// Whether a user with `user_role` may create a room that asks for
/// `required_role`: anyone may create a room for `user`, only an
/// administrator a restricted one.
pub fn may_create_room(required_role: &str, user_role: &str) -> (allowed: bool)
    ensures
        allowed == (required_role@ == "user"@ || user_role@ == "admin"@),
{
    str_eq(required_role, "user") || str_eq(user_role, "admin")
}

/// A room name that passes the check is not empty once it is trimmed.
pub proof fn lemma_checked_name_not_empty(name: Seq<char>, kind: Seq<char>)
    requires
        settings_fault(name, kind) is None,
    ensures
        trimmed(name).len() > 0,
        normalized(kind) == "text"@ || normalized(kind) == "voice"@,
{
    lemma_trimmed_empty(name);
}

/// The ids of the rooms among `rooms` that `role` may enter.
pub open spec fn accessible_room_ids(rooms: Seq<Room>, role: Seq<char>) -> Set<Seq<char>> {
    Set::new(
        |id: Seq<char>|
            exists|i: int|
                0 <= i < rooms.len() && (#[trigger] rooms[i]).id@ == id && access_allowed(
                    role,
                    rooms[i].required_role@,
                ),
    )
}

/// The rooms that a connection may hear from, fixed when the connection is
/// made: every room for an administrator, else the rooms of the snapshot.
/// Nothing changes a snapshot once it is made: a role that changes later, or
/// a room that is made or changed later, shows only after a new connection.
pub struct AllowedRooms {
    admin: bool,
    rooms: StringHashSet,
}

/// A snapshot as a value: whether it is an administrator's, and the room ids in it.
pub ghost struct AllowedRoomsView {
    pub admin: bool,
    pub rooms: Set<Seq<char>>,
}

impl AllowedRoomsView {
    /// Whether an event of room `room_id` passes.
    pub open spec fn admits(self, room_id: Seq<char>) -> bool {
        self.admin || self.rooms.contains(room_id)
    }
}

impl View for AllowedRooms {
    type V = AllowedRoomsView;

    closed spec fn view(&self) -> AllowedRoomsView {
        AllowedRoomsView { admin: self.admin, rooms: self.rooms@ }
    }
}

impl AllowedRooms {
    /// Whether the snapshot is an administrator's.
    pub fn is_admin(&self) -> (admin: bool)
        ensures
            admin == self@.admin,
    {
        self.admin
    }

    /// Whether the snapshot holds room `room_id`.
    pub fn contains(&self, room_id: &str) -> (held: bool)
        ensures
            held == self@.rooms.contains(room_id@),
    {
        self.rooms.contains(room_id)
    }

    /// How many rooms the snapshot holds.
    pub fn len(&self) -> (count: usize)
        ensures
            count == self@.rooms.len(),
    {
        self.rooms.len()
    }

    /// Whether an event of room `room_id` passes.
    pub fn allows(&self, room_id: &str) -> (allowed: bool)
        ensures
            allowed == self@.admits(room_id@),
    {
        self.admin || self.rooms.contains(room_id)
    }
}

/// Picks from the persisted rooms the ones that `role` may enter: those that
/// ask for `user` or for `role` itself, and all of them for `admin`.
pub fn fetch_accessible_rooms(rooms: &Vec<Room>, role: &str) -> (ids: StringHashSet)
    ensures
        ids@ == accessible_room_ids(rooms@, role@),
{
    let mut ids = StringHashSet::new();
    let mut i: usize = 0;
    while i < rooms.len()
        invariant
            i <= rooms.len(),
            ids@ == accessible_room_ids(rooms@.take(i as int), role@),
        decreases rooms.len() - i,
    {
        let room = &rooms[i];
        let ghost before = ids@;
        if can_access(role, room.required_role.as_str()) {
            ids.insert(room.id.clone());
        }
        proof {
            let prefix = rooms@.take(i as int);
            let longer = rooms@.take(i + 1);
            assert forall|id: Seq<char>| ids@.contains(id) == accessible_room_ids(
                longer,
                role@,
            ).contains(id) by {
                if accessible_room_ids(longer, role@).contains(id) {
                    let j = choose|j: int|
                        0 <= j < longer.len() && (#[trigger] longer[j]).id@ == id && access_allowed(
                            role@,
                            longer[j].required_role@,
                        );
                    if j < i {
                        assert(prefix[j] == longer[j]);
                    }
                }
                if before.contains(id) {
                    let j = choose|j: int|
                        0 <= j < prefix.len() && (#[trigger] prefix[j]).id@ == id && access_allowed(
                            role@,
                            prefix[j].required_role@,
                        );
                    assert(longer[j] == prefix[j]);
                }
                if id == room.id@ && access_allowed(role@, room.required_role@) {
                    assert(longer[i as int] == *room);
                }
            }
            assert(ids@ =~= accessible_room_ids(longer, role@));
        }
        i = i + 1;
    }
    proof {
        assert(rooms@.take(rooms.len() as int) =~= rooms@);
    }
    ids
}

/// Fixes the snapshot for a connection whose user has `role`.
pub fn snapshot_rooms(rooms: &Vec<Room>, role: &str) -> (snapshot: AllowedRooms)
    ensures
        snapshot@.admin == (role@ == "admin"@),
        snapshot@.rooms == accessible_room_ids(rooms@, role@),
{
    AllowedRooms { admin: str_eq(role, "admin"), rooms: fetch_accessible_rooms(rooms, role) }
}

/// What a snapshot holds: a room's id is in it exactly when some persisted
/// room has that id and asks for a role that lets `role` in. For `admin`
/// that is every room, and a room that asks for `user` is in every snapshot.
pub proof fn lemma_snapshot_rule(rooms: Seq<Room>, role: Seq<char>, i: int)
    requires
        0 <= i < rooms.len(),
    ensures
        access_allowed(role, rooms[i].required_role@) ==> accessible_room_ids(rooms, role).contains(
            rooms[i].id@,
        ),
        accessible_room_ids(rooms, "admin"@).contains(rooms[i].id@),
        rooms[i].required_role@ == "user"@ ==> accessible_room_ids(rooms, role).contains(rooms[i].id@),
        (forall|j: int|
            0 <= j < rooms.len() && (#[trigger] rooms[j]).id@ == rooms[i].id@ ==> !access_allowed(
                role,
                rooms[j].required_role@,
            )) ==> !accessible_room_ids(rooms, role).contains(rooms[i].id@),
{
}

} // verus!
