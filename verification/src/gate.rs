//! The connection gate: finds the bearer token of an upgrade request, turns
//! the validator's answer into admission or refusal, and sets up what a
//! connection keeps for its lifetime.

use crate::auth::Claims;
use crate::presence::OnlineUsers;
use crate::rooms::{accessible_room_ids, snapshot_rooms, AllowedRooms, Room};
use crate::text::{opt_str_view, opt_view, str_eq, strip_prefix};
use vstd::prelude::*;

verus! {

/// The pairs of name and value that `serde_urlencoded` reads from a query
/// string, in the order in which the string holds them; none where it rejects
/// the string.
pub uninterp spec fn urlencoded_pairs(query: Seq<char>) -> Option<Seq<(Seq<char>, Seq<char>)>>;

/// Pairs of strings by their characters.
pub open spec fn pair_views(pairs: Seq<(String, String)>) -> Seq<(Seq<char>, Seq<char>)> {
    Seq::new(pairs.len(), |i: int| (pairs[i].0@, pairs[i].1@))
}

/// `serde_urlencoded::from_str` to a list of pairs: the pairs of the query
/// string in order, or nothing where the crate reports an error.
#[verifier::external_body]
fn parse_query(query: &str) -> (pairs: Option<Vec<(String, String)>>)
    ensures
        match pairs {
            Some(list) => urlencoded_pairs(query@) == Some(pair_views(list@)),
            None => urlencoded_pairs(query@) is None,
        },
{
    serde_urlencoded::from_str::<Vec<(String, String)>>(query).ok()
}

/// The value of the last pair named `key`: where a name occurs twice, the
/// later value stands.
pub open spec fn last_value(pairs: Seq<(Seq<char>, Seq<char>)>, key: Seq<char>) -> Option<Seq<char>>
    decreases pairs.len(),
{
    if pairs.len() == 0 {
        None
    } else if pairs.last().0 == key {
        Some(pairs.last().1)
    } else {
        last_value(pairs.drop_last(), key)
    }
}

/// The token that a query string carries in its `access_token` parameter.
pub open spec fn query_token(query: Seq<char>) -> Option<Seq<char>> {
    match urlencoded_pairs(query) {
        Some(pairs) => last_value(pairs, "access_token"@),
        None => None,
    }
}

/// The token of an `Authorization` header: what follows `Bearer `.
pub open spec fn bearer_token(header: Seq<char>) -> Option<Seq<char>> {
    if "Bearer "@.is_prefix_of(header) {
        Some(header.skip("Bearer "@.len() as int))
    } else {
        None
    }
}

/// The token of an upgrade request: the query parameter where there is one,
/// else the header's.
pub open spec fn request_token(query: Seq<char>, authorization: Option<Seq<char>>) -> Option<Seq<char>> {
    match query_token(query) {
        Some(token) => Some(token),
        None => match authorization {
            Some(header) => bearer_token(header),
            None => None,
        },
    }
}

/// Finds the value of the last pair named `key`.
pub fn find_last(pairs: &Vec<(String, String)>, key: &str) -> (value: Option<String>)
    ensures
        opt_view(value) == last_value(pair_views(pairs@), key@),
{
    let ghost all = pair_views(pairs@);
    let mut i: usize = pairs.len();
    proof {
        assert(all.take(i as int) =~= all);
    }
    while i > 0
        invariant
            i <= pairs.len(),
            all == pair_views(pairs@),
            last_value(all, key@) == last_value(all.take(i as int), key@),
        decreases i,
    {
        let pair = &pairs[i - 1];
        proof {
            let upto = all.take(i as int);
            assert(upto.last() == all[i - 1]);
            assert(upto.drop_last() =~= all.take(i - 1));
        }
        if str_eq(pair.0.as_str(), key) {
            return Some(pair.1.clone());
        }
        i = i - 1;
    }
    None
}

/// The token that the `access_token` parameter of `query` carries.
pub fn token_from_query(query: &str) -> (token: Option<String>)
    ensures
        opt_view(token) == query_token(query@),
{
    match parse_query(query) {
        Some(pairs) => find_last(&pairs, "access_token"),
        None => None,
    }
}

/// The token that an `Authorization` header carries after `Bearer `.
pub fn token_from_header(header: &str) -> (token: Option<String>)
    ensures
        opt_view(token) == bearer_token(header@),
{
    match strip_prefix(header, "Bearer ") {
        Some(rest) => {
            proof {
                assert(rest@ =~= header@.skip("Bearer "@.len() as int));
                assert("Bearer "@.is_prefix_of(header@));
            }
            Some(rest.to_owned())
        },
        None => None,
    }
}

/// The bearer token of an upgrade request: the `access_token` parameter of
/// the query string is looked at first, the `Authorization` header only where
/// the query has no such parameter.
pub fn resolve_token(query: &str, authorization: Option<&str>) -> (token: Option<String>)
    ensures
        opt_view(token) == request_token(query@, opt_str_view(authorization)),
{
    match token_from_query(query) {
        Some(token) => Some(token),
        None => match authorization {
            Some(header) => token_from_header(header),
            None => None,
        },
    }
}

/// Why an upgrade request is refused.
#[derive(Clone, Copy, Debug, PartialEq, Eq, Structural)]
pub enum GateError {
    /// The request carries no token.
    MissingToken,
    /// The validator does not accept the token.
    InvalidToken,
}

impl GateError {
    /// The words that the refusal is answered with.
    pub fn message(&self) -> (text: String)
        ensures
            text@ == (match *self {
                GateError::MissingToken => "No token provided"@,
                GateError::InvalidToken => "Invalid token"@,
            }),
    {
        match self {
            GateError::MissingToken => "No token provided".to_owned(),
            GateError::InvalidToken => "Invalid token".to_owned(),
        }
    }
}

/// Admits or refuses an upgrade request: `token` is the token found in the
/// request, `claims` what the validator made of it. A request without a token
/// is refused as such, whatever is handed in as claims.
pub fn authorize(token: &Option<String>, claims: Option<Claims>) -> (outcome: Result<Claims, GateError>)
    ensures
        outcome == (match (*token, claims) {
            (None, _) => Err::<Claims, GateError>(GateError::MissingToken),
            (Some(_), None) => Err::<Claims, GateError>(GateError::InvalidToken),
            (Some(_), Some(valid)) => Ok::<Claims, GateError>(valid),
        }),
{
    match token {
        None => Err(GateError::MissingToken),
        Some(_) => match claims {
            None => Err(GateError::InvalidToken),
            Some(valid) => Ok(valid),
        },
    }
}

/// Who a connection speaks for: fixed when the connection is made.
pub struct SessionIdentity {
    user_id: String,
    role: String,
}

/// A session identity by its characters.
pub ghost struct SessionView {
    pub user_id: Seq<char>,
    pub role: Seq<char>,
}

impl View for SessionIdentity {
    type V = SessionView;

    closed spec fn view(&self) -> SessionView {
        SessionView { user_id: self.user_id@, role: self.role@ }
    }
}

impl SessionIdentity {
    /// The id of the user that the connection speaks for.
    pub fn user_id(&self) -> (id: &str)
        ensures
            id@ == self@.user_id,
    {
        self.user_id.as_str()
    }

    /// The role that the user had when the connection was made.
    pub fn role(&self) -> (role: &str)
        ensures
            role@ == self@.role,
    {
        self.role.as_str()
    }
}

/// The role of a session: the one that the lookup gave, `user` where it gave none.
pub open spec fn session_role(looked_up: Option<Seq<char>>) -> Seq<char> {
    match looked_up {
        Some(role) => role,
        None => "user"@,
    }
}

/// Sets up an admitted connection. `looked_up_role` is the outcome of the
/// read-through of the user's role, `rooms` the rooms that the persistent
/// store holds. The identity is the token's subject with that role; the
/// snapshot holds the rooms that the role may enter; and the user goes into
/// the presence registry with marker 0.
pub fn open_connection(
    claims: &Claims,
    looked_up_role: Option<String>,
    rooms: &Vec<Room>,
    users: &mut OnlineUsers,
) -> (session: (SessionIdentity, AllowedRooms))
    ensures
        session.0@.user_id == claims.sub@,
        session.0@.role == session_role(opt_view(looked_up_role)),
        session.1@.admin == (session.0@.role == "admin"@),
        session.1@.rooms == accessible_room_ids(rooms@, session.0@.role),
        final(users)@ == old(users)@.insert(claims.sub@, 0),
{
    let role = match looked_up_role {
        Some(role) => role,
        None => "user".to_owned(),
    };
    let allowed = snapshot_rooms(rooms, role.as_str());
    users.set(claims.sub.as_str(), 0);
    (SessionIdentity { user_id: claims.sub.clone(), role }, allowed)
}

} // verus!
