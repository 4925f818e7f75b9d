//! The access control cache: who has which role, which room asks for which
//! role, and the rule that decides from the two whether a user may enter.
//!
//! The cache is read-through. A lookup that finds nothing reports a miss, the
//! caller asks the persistent store, and hands the answer back to be kept.
//! Entries leave the cache only through the invalidation functions.

use crate::text::{opt_str_view, opt_view, str_eq};
use vstd::hash_map::StringHashMap;
use vstd::prelude::*;

verus! {

/// The two cached tables: user id to role, and room id to required role.
pub struct AccessCacheState {
    pub user_roles: StringHashMap<String>,
    pub room_required_roles: StringHashMap<String>,
}

/// A table of roles as text: the same keys, each role by its characters.
pub open spec fn role_table(m: Map<Seq<char>, String>) -> Map<Seq<char>, Seq<char>> {
    Map::new(|k: Seq<char>| m.contains_key(k), |k: Seq<char>| m[k]@)
}

impl AccessCacheState {
    /// The cached roles of users, by user id.
    pub open spec fn user_role_map(&self) -> Map<Seq<char>, Seq<char>> {
        role_table(self.user_roles@)
    }

    /// The cached required roles of rooms, by room id.
    pub open spec fn room_role_map(&self) -> Map<Seq<char>, Seq<char>> {
        role_table(self.room_required_roles@)
    }
}

/// What a lookup in the cache found.
#[derive(Debug)]
pub enum RoleLookup {
    /// The role was in the cache; the persistent store is not asked.
    Cached(String),
    /// The cache holds no entry: the persistent store is to be asked once.
    Miss,
}

impl RoleLookup {
    /// The role that the lookup found, if it found one.
    pub open spec fn role(self) -> Option<Seq<char>> {
        match self {
            RoleLookup::Cached(role) => Some(role@),
            RoleLookup::Miss => None,
        }
    }
}

/// What a lookup of `key` in a table finds.
pub open spec fn cached_role(table: Map<Seq<char>, Seq<char>>, key: Seq<char>) -> Option<Seq<char>> {
    if table.contains_key(key) {
        Some(table[key])
    } else {
        None
    }
}

/// How many questions a lookup of `key` puts to the persistent store: none
/// where the key is cached, and one where it is not.
pub open spec fn store_queries(table: Map<Seq<char>, Seq<char>>, key: Seq<char>) -> nat {
    if table.contains_key(key) {
        0
    } else {
        1
    }
}

/// The table after the persistent store has answered a miss on `key`: a role
/// that was found is kept, an absent one leaves the table as it was.
pub open spec fn table_after_fetch(
    table: Map<Seq<char>, Seq<char>>,
    key: Seq<char>,
    fetched: Option<Seq<char>>,
) -> Map<Seq<char>, Seq<char>> {
    match fetched {
        Some(role) => table.insert(key, role),
        None => table,
    }
}

/// The access rule: a room that asks for `user` is open to every role, an
/// `admin` enters every room, and anyone else needs exactly the role asked for.
pub open spec fn access_allowed(user_role: Seq<char>, room_required_role: Seq<char>) -> bool {
    room_required_role == "user"@ || user_role == "admin"@ || user_role == room_required_role
}

/// The access rule on the outcome of the two lookups: both roles must be
/// known, and then `access_allowed` decides.
pub open spec fn access_decision(
    room_required_role: Option<Seq<char>>,
    user_role: Option<Seq<char>>,
) -> bool {
    match (room_required_role, user_role) {
        (Some(required), Some(role)) => access_allowed(role, required),
        _ => false,
    }
}

proof fn lemma_role_table_insert(m: Map<Seq<char>, String>, key: Seq<char>, role: String)
    ensures
        role_table(m.insert(key, role)) == role_table(m).insert(key, role@),
{
    assert(role_table(m.insert(key, role)) =~= role_table(m).insert(key, role@));
}

proof fn lemma_role_table_remove(m: Map<Seq<char>, String>, key: Seq<char>)
    ensures
        role_table(m.remove(key)) == role_table(m).remove(key),
{
    assert(role_table(m.remove(key)) =~= role_table(m).remove(key));
}

proof fn lemma_role_table_empty()
    ensures
        role_table(Map::<Seq<char>, String>::empty()) == Map::<Seq<char>, Seq<char>>::empty(),
{
    assert(role_table(Map::<Seq<char>, String>::empty()) =~= Map::<Seq<char>, Seq<char>>::empty());
}

/// An empty cache.
pub fn create_access_cache() -> (cache: AccessCacheState)
    ensures
        cache.user_role_map() == Map::<Seq<char>, Seq<char>>::empty(),
        cache.room_role_map() == Map::<Seq<char>, Seq<char>>::empty(),
{
    proof {
        lemma_role_table_empty();
    }
    AccessCacheState { user_roles: StringHashMap::new(), room_required_roles: StringHashMap::new() }
}

impl Default for AccessCacheState {
    fn default() -> (cache: AccessCacheState)
        ensures
            cache.user_role_map() == Map::<Seq<char>, Seq<char>>::empty(),
            cache.room_role_map() == Map::<Seq<char>, Seq<char>>::empty(),
    {
        create_access_cache()
    }
}

/// Records that `user_id` now has `role`, over whatever was cached for that user.
pub fn cache_set_user_role(cache: &mut AccessCacheState, user_id: &str, role: &str)
    ensures
        final(cache).user_role_map() == old(cache).user_role_map().insert(user_id@, role@),
        final(cache).room_role_map() == old(cache).room_role_map(),
{
    let key = user_id.to_owned();
    let value = role.to_owned();
    proof {
        lemma_role_table_insert(cache.user_roles@, key@, value);
    }
    cache.user_roles.insert(key, value);
}

/// Forgets every cached user role, so that each user's next lookup misses.
pub fn cache_clear_user_roles(cache: &mut AccessCacheState)
    ensures
        final(cache).user_role_map() == Map::<Seq<char>, Seq<char>>::empty(),
        final(cache).room_role_map() == old(cache).room_role_map(),
{
    proof {
        lemma_role_table_empty();
    }
    cache.user_roles.clear();
}

/// Records that `room_id` now asks for `required_role`, over whatever was cached for that room.
pub fn cache_set_room_required_role(cache: &mut AccessCacheState, room_id: &str, required_role: &str)
    ensures
        final(cache).room_role_map() == old(cache).room_role_map().insert(room_id@, required_role@),
        final(cache).user_role_map() == old(cache).user_role_map(),
{
    let key = room_id.to_owned();
    let value = required_role.to_owned();
    proof {
        lemma_role_table_insert(cache.room_required_roles@, key@, value);
    }
    cache.room_required_roles.insert(key, value);
}

/// Forgets what `room_id` asks for, so that the room's next lookup misses.
pub fn cache_remove_room(cache: &mut AccessCacheState, room_id: &str)
    ensures
        final(cache).room_role_map() == old(cache).room_role_map().remove(room_id@),
        final(cache).user_role_map() == old(cache).user_role_map(),
{
    proof {
        lemma_role_table_remove(cache.room_required_roles@, room_id@);
    }
    cache.room_required_roles.remove(room_id);
}

fn lookup(table: &StringHashMap<String>, key: &str) -> (found: RoleLookup)
    ensures
        found.role() == cached_role(role_table(table@), key@),
{
    match table.get(key) {
        Some(role) => RoleLookup::Cached(role.clone()),
        None => RoleLookup::Miss,
    }
}

/// Looks `user_id` up in the cache, without asking the persistent store.
/// A miss tells the caller to ask the store and to report its answer to
/// `user_role_fetched`.
pub fn get_user_role_cached(cache: &AccessCacheState, user_id: &str) -> (found: RoleLookup)
    ensures
        found.role() == cached_role(cache.user_role_map(), user_id@),
        found is Miss == (store_queries(cache.user_role_map(), user_id@) == 1),
{
    lookup(&cache.user_roles, user_id)
}

/// Takes the persistent store's answer to a miss on `user_id`: a role that
/// the store knows is cached, an unknown user leaves the cache as it was. The
/// answer is handed back as the outcome of the read-through.
pub fn user_role_fetched(cache: &mut AccessCacheState, user_id: &str, fetched: Option<String>) -> (role:
    Option<String>)
    ensures
        role == fetched,
        final(cache).user_role_map() == table_after_fetch(
            old(cache).user_role_map(),
            user_id@,
            opt_view(fetched),
        ),
        final(cache).room_role_map() == old(cache).room_role_map(),
{
    match &fetched {
        Some(role) => {
            cache_set_user_role(cache, user_id, role.as_str());
        },
        None => {},
    }
    fetched
}

/// Looks `room_id` up in the cache, without asking the persistent store.
/// A miss tells the caller to ask the store and to report its answer to
/// `room_required_role_fetched`.
pub fn get_room_required_role_cached(cache: &AccessCacheState, room_id: &str) -> (found: RoleLookup)
    ensures
        found.role() == cached_role(cache.room_role_map(), room_id@),
        found is Miss == (store_queries(cache.room_role_map(), room_id@) == 1),
{
    lookup(&cache.room_required_roles, room_id)
}

/// Takes the persistent store's answer to a miss on `room_id`: a required
/// role that the store knows is cached, an unknown room leaves the cache as it
/// was. The answer is handed back as the outcome of the read-through.
pub fn room_required_role_fetched(
    cache: &mut AccessCacheState,
    room_id: &str,
    fetched: Option<String>,
) -> (required_role: Option<String>)
    ensures
        required_role == fetched,
        final(cache).room_role_map() == table_after_fetch(
            old(cache).room_role_map(),
            room_id@,
            opt_view(fetched),
        ),
        final(cache).user_role_map() == old(cache).user_role_map(),
{
    match &fetched {
        Some(role) => {
            cache_set_room_required_role(cache, room_id, role.as_str());
        },
        None => {},
    }
    fetched
}

/// Whether `user_role` may enter a room that asks for `room_required_role`.
pub fn can_access(user_role: &str, room_required_role: &str) -> (allowed: bool)
    ensures
        allowed == access_allowed(user_role@, room_required_role@),
{
    str_eq(room_required_role, "user") || str_eq(user_role, "admin") || str_eq(
        user_role,
        room_required_role,
    )
}

/// Decides from the outcome of the two read-throughs whether the user may
/// enter the room: never while either role is unknown.
pub fn can_user_access_room_cached(room_required_role: Option<&str>, user_role: Option<&str>) -> (allowed:
    bool)
    ensures
        allowed == access_decision(opt_str_view(room_required_role), opt_str_view(user_role)),
{
    match (room_required_role, user_role) {
        (Some(required), Some(role)) => can_access(role, required),
        _ => false,
    }
}

/// The access rule, case by case: a room that asks for `user` admits every
/// role; `admin` is admitted everywhere; a role is admitted where it is the
/// one asked for; and nobody else is admitted.
pub proof fn lemma_access_rule(user_role: Seq<char>, room_required_role: Seq<char>)
    ensures
        access_allowed(user_role, "user"@),
        access_allowed("admin"@, room_required_role),
        access_allowed(user_role, user_role),
        room_required_role != "user"@ && user_role != "admin"@ && user_role != room_required_role
            ==> !access_allowed(user_role, room_required_role),
{
}

/// Read-through: a key that is not cached misses, which costs one question
/// to the persistent store; once the store's answer is kept the same key is
/// served from the cache at no further question.
pub proof fn lemma_read_through(table: Map<Seq<char>, Seq<char>>, key: Seq<char>, stored: Seq<char>)
    requires
        !table.contains_key(key),
    ensures
        cached_role(table, key) is None,
        store_queries(table, key) == 1,
        cached_role(table_after_fetch(table, key, Some(stored)), key) == Some(stored),
        store_queries(table_after_fetch(table, key, Some(stored)), key) == 0,
{
}

/// A cached key stays cached while the cache is only added to: setting any
/// key, keeping any answer of the store, or removing another key does not
/// bring back a miss; setting another key or removing another key leaves the
/// cached role as it was.
pub proof fn lemma_cached_until_invalidated(
    table: Map<Seq<char>, Seq<char>>,
    key: Seq<char>,
    other: Seq<char>,
    role: Seq<char>,
    fetched: Option<Seq<char>>,
)
    requires
        table.contains_key(key),
    ensures
        cached_role(table.insert(other, role), key) is Some,
        store_queries(table.insert(other, role), key) == 0,
        cached_role(table_after_fetch(table, other, fetched), key) is Some,
        store_queries(table_after_fetch(table, other, fetched), key) == 0,
        other != key ==> cached_role(table.insert(other, role), key) == cached_role(table, key),
        other != key ==> cached_role(table.remove(other), key) == cached_role(table, key),
{
}

/// Invalidation: in a cleared table every key misses, and a removed key
/// misses, until the store's answer is kept again.
pub proof fn lemma_invalidated_key_misses(table: Map<Seq<char>, Seq<char>>, key: Seq<char>)
    ensures
        cached_role(Map::<Seq<char>, Seq<char>>::empty(), key) is None,
        store_queries(Map::<Seq<char>, Seq<char>>::empty(), key) == 1,
        cached_role(table.remove(key), key) is None,
        store_queries(table.remove(key), key) == 1,
{
}

} // verus!
