//! The presence registry: who is connected, each with a presence marker.

use vstd::hash_map::StringHashMap;
use vstd::prelude::*;

verus! {

/// The users that are online, each with a presence marker (the colour code of
/// the user's avatar). A user id has at most one entry: the last writer wins.
pub struct OnlineUsers {
    users: StringHashMap<i32>,
}

impl View for OnlineUsers {
    type V = Map<Seq<char>, i32>;

    closed spec fn view(&self) -> Map<Seq<char>, i32> {
        self.users@
    }
}

/// A registry with nobody online.
pub fn create_online_users() -> (registry: OnlineUsers)
    ensures
        registry@ == Map::<Seq<char>, i32>::empty(),
{
    OnlineUsers { users: StringHashMap::new() }
}

impl OnlineUsers {
    /// Marks `user_id` as online with `marker`, over any marker the user had.
    pub fn set(&mut self, user_id: &str, marker: i32)
        ensures
            final(self)@ == old(self)@.insert(user_id@, marker),
    {
        self.users.insert(user_id.to_owned(), marker);
    }

    /// Takes `user_id` out of the registry; a user who is not in it changes nothing.
    pub fn remove(&mut self, user_id: &str)
        ensures
            final(self)@ == old(self)@.remove(user_id@),
    {
        self.users.remove(user_id);
    }

    /// The marker of `user_id`, if the user is online.
    pub fn marker(&self, user_id: &str) -> (marker: Option<i32>)
        ensures
            marker == (if self@.contains_key(user_id@) {
                Some(self@[user_id@])
            } else {
                None
            }),
    {
        match self.users.get(user_id) {
            Some(marker) => Some(*marker),
            None => None,
        }
    }

    /// How many users are online.
    pub fn len(&self) -> (count: usize)
        ensures
            count == self@.len(),
    {
        self.users.len()
    }
}

} // verus!
