//! Chat messages as the persistent store keeps them.

use crate::auth::Claims;
use crate::text::{
    chars_of, is_blank, is_filled, opt_view, str_eq, string_of, texts, trim, trimmed,
};
use vstd::prelude::*;
use vstd::string::StringExecFns;

verus! {

/// One stored chat message. The hub assigns `id` and `created_at` when it
/// accepts the message; the pin and the sender's avatar belong to the store.
#[derive(Debug)]
pub struct Message {
    pub id: String,
    pub room_id: String,
    pub user_id: String,
    pub username: String,
    pub content: String,
    pub reply_to_id: Option<String>,
    pub created_at: String,
    pub image_url: Option<String>,
    pub pinned_at: Option<String>,
    pub pinned_by: Option<String>,
    pub avatar_url: Option<String>,
}

/// The filters of a search over stored messages.
#[derive(Debug)]
pub struct SearchQuery {
    pub q: Option<String>,
    pub author: Option<String>,
    pub room_id: Option<String>,
    pub from: Option<String>,
    pub to: Option<String>,
    pub limit: Option<i64>,
}

/// How many messages a search gives where the query names no limit.
pub const DEFAULT_SEARCH_LIMIT: i64 = 80;

/// The most messages that a search gives.
pub const MAX_SEARCH_LIMIT: i64 = 200;

/// The limit of a search: 80 where none is asked for, and never under 1 nor over 200.
pub open spec fn limit_of(asked: Option<i64>) -> int {
    let wanted = match asked {
        Some(limit) => limit as int,
        None => DEFAULT_SEARCH_LIMIT as int,
    };
    if wanted < 1 {
        1
    } else if wanted > MAX_SEARCH_LIMIT {
        MAX_SEARCH_LIMIT as int
    } else {
        wanted
    }
}

/// The limit of a search: 80 where none is asked for, and never under 1 nor over 200.
pub fn search_limit(asked: Option<i64>) -> (limit: i64)
    ensures
        limit == limit_of(asked),
{
    let wanted = match asked {
        Some(limit) => limit,
        None => DEFAULT_SEARCH_LIMIT,
    };
    if wanted < 1 {
        1
    } else if wanted > MAX_SEARCH_LIMIT {
        MAX_SEARCH_LIMIT
    } else {
        wanted
    }
}

/// Whether the bearer of `claims` may delete a message of `author_id`: its
/// author may, and an administrator.
pub fn may_delete_message(author_id: &str, claims: &Claims) -> (allowed: bool)
    ensures
        allowed == (author_id@ == claims.sub@ || claims.role@ == "admin"@),
{
    str_eq(author_id, claims.sub.as_str()) || str_eq(claims.role.as_str(), "admin")
}

/// A text without the `/` at its start, however many there are.
pub open spec fn without_leading_slashes(text: Seq<char>) -> Seq<char>
    decreases text.len(),
{
    if text.len() > 0 && text.first() == '/' {
        without_leading_slashes(text.drop_first())
    } else {
        text
    }
}

/// Where the image of a message is kept, relative to the directory that the
/// server runs in: the image's address without the `/` at its start.
pub fn stored_image_path(image_url: &str) -> (path: String)
    ensures
        path@ == without_leading_slashes(image_url@),
{
    let chars = chars_of(image_url);
    let mut start: usize = 0;
    proof {
        assert(chars@.subrange(0, chars@.len() as int) =~= chars@);
    }
    while start < chars.len() && chars[start] == '/'
        invariant
            start <= chars.len(),
            without_leading_slashes(chars@) == without_leading_slashes(
                chars@.subrange(start as int, chars@.len() as int),
            ),
        decreases chars.len() - start,
    {
        proof {
            let rest = chars@.subrange(start as int, chars@.len() as int);
            assert(rest.first() == chars@[start as int]);
            assert(rest.drop_first() =~= chars@.subrange(start + 1, chars@.len() as int));
        }
        start = start + 1;
    }
    proof {
        let rest = chars@.subrange(start as int, chars@.len() as int);
        if rest.len() > 0 {
            assert(rest.first() == chars@[start as int]);
        }
    }
    string_of(&chars, start, chars.len())
}

/// A search as a statement for the store: the text with one `?` for each
/// value to bind, the textual values in the order of their `?`, and the value
/// of the last `?`, the limit.
#[derive(Debug)]
pub struct SearchStatement {
    pub sql: String,
    pub binds: Vec<String>,
    pub limit: i64,
}

/// A statement as a value: its text, its textual values, and its limit.
pub ghost struct StatementView {
    pub sql: Seq<char>,
    pub binds: Seq<Seq<char>>,
    pub limit: int,
}

impl SearchStatement {
    /// The statement's text and textual values by their characters, and its limit.
    pub open spec fn parts(&self) -> StatementView {
        StatementView { sql: self.sql@, binds: texts(self.binds@), limit: self.limit as int }
    }
}

/// The statement with one more condition and its value, where the condition applies.
pub open spec fn with_clause(
    statement: StatementView,
    applies: bool,
    clause: Seq<char>,
    bind: Seq<char>,
) -> StatementView {
    if applies {
        StatementView {
            sql: statement.sql + clause,
            binds: statement.binds.push(bind),
            limit: statement.limit,
        }
    } else {
        statement
    }
}

/// The start of every search: the columns of a message, the joined tables,
/// and a condition that always holds, for the others to follow.
pub const SEARCH_SELECT: &'static str =
    "SELECT m.id, m.room_id, m.user_id, m.username, m.content, m.reply_to_id, m.created_at, m.image_url, m.pinned_at, m.pinned_by, u.avatar_url FROM messages m LEFT JOIN users u ON m.user_id = u.id LEFT JOIN rooms r ON m.room_id = r.id WHERE 1=1";

/// Holds a search to the rooms that a role may enter.
pub const SEARCH_BY_ROLE: &'static str = " AND (r.required_role = 'user' OR r.required_role = ?)";

/// Holds a search to one room.
pub const SEARCH_BY_ROOM: &'static str = " AND m.room_id = ?";

/// Holds a search to the messages whose content matches.
pub const SEARCH_BY_CONTENT: &'static str = " AND m.content LIKE ?";

/// Holds a search to the messages whose sender name matches.
pub const SEARCH_BY_AUTHOR: &'static str = " AND m.username LIKE ?";

/// Holds a search to the messages from a time on.
pub const SEARCH_FROM: &'static str = " AND m.created_at >= ?";

/// Holds a search to the messages up to a time.
pub const SEARCH_TO: &'static str = " AND m.created_at <= ?";

/// The end of every search: the newest messages first, and the limit.
pub const SEARCH_ORDER: &'static str = " ORDER BY m.created_at DESC LIMIT ?";

/// The trimmed text of a filter; for an absent filter, the empty text.
pub open spec fn filter_text(filter: Option<Seq<char>>) -> Seq<char> {
    match filter {
        Some(text) => trimmed(text),
        None => Seq::<char>::empty(),
    }
}

/// The statement of a search by `role`. Anyone but an administrator is held
/// to the rooms that the role may enter. Then come, each only where the query
/// has it: the room, the content and the author, both matched anywhere in the
/// text, and the first and the last day. The limit is `limit_of` what is
/// asked for.
pub open spec fn search_parts(
    role: Seq<char>,
    room_id: Option<Seq<char>>,
    q: Option<Seq<char>>,
    author: Option<Seq<char>>,
    from: Option<Seq<char>>,
    to: Option<Seq<char>>,
    limit: Option<i64>,
) -> StatementView {
    let select = StatementView {
        sql: SEARCH_SELECT@,
        binds: Seq::<Seq<char>>::empty(),
        limit: limit_of(limit),
    };
    let by_role = with_clause(select, role != "admin"@, SEARCH_BY_ROLE@, role);
    let by_room = with_clause(
        by_role,
        room_id is Some,
        SEARCH_BY_ROOM@,
        match room_id {
            Some(id) => id,
            None => Seq::<char>::empty(),
        },
    );
    let by_content = with_clause(
        by_room,
        is_filled(q),
        SEARCH_BY_CONTENT@,
        "%"@ + filter_text(q) + "%"@,
    );
    let by_author = with_clause(
        by_content,
        is_filled(author),
        SEARCH_BY_AUTHOR@,
        "%"@ + filter_text(author) + "%"@,
    );
    let since = with_clause(by_author, is_filled(from), SEARCH_FROM@, filter_text(from) + "T00:00:00"@);
    let until = with_clause(since, is_filled(to), SEARCH_TO@, filter_text(to) + "T23:59:59"@);
    StatementView { sql: until.sql + SEARCH_ORDER@, binds: until.binds, limit: until.limit }
}

fn add_clause(statement: &mut SearchStatement, clause: &str, bind: String)
    ensures
        final(statement).parts() == with_clause(old(statement).parts(), true, clause@, bind@),
{
    proof {
        assert(texts(statement.binds@.push(bind)) =~= texts(statement.binds@).push(bind@));
    }
    statement.sql.append(clause);
    statement.binds.push(bind);
}

fn filled(filter: &Option<String>) -> (text: Option<&str>)
    ensures
        text is Some == is_filled(opt_view(*filter)),
        text is Some ==> text->0@ == filter_text(opt_view(*filter)),
{
    match filter {
        Some(given) => if is_blank(given.as_str()) {
            None
        } else {
            Some(trim(given.as_str()))
        },
        None => None,
    }
}

fn wrapped(before: &str, text: &str, after: &str) -> (whole: String)
    ensures
        whole@ == before@ + text@ + after@,
{
    let mut whole = before.to_owned();
    whole.append(text);
    whole.append(after);
    whole
}

fn joined(text: &str, after: &str) -> (whole: String)
    ensures
        whole@ == text@ + after@,
{
    let mut whole = text.to_owned();
    whole.append(after);
    whole
}

/// Builds the statement of a search by a user with `role`.
pub fn search_statement(query: &SearchQuery, role: &str) -> (statement: SearchStatement)
    ensures
        statement.parts() == search_parts(
            role@,
            opt_view(query.room_id),
            opt_view(query.q),
            opt_view(query.author),
            opt_view(query.from),
            opt_view(query.to),
            query.limit,
        ),
{
    let mut statement = SearchStatement {
        sql: SEARCH_SELECT.to_owned(),
        binds: Vec::new(),
        limit: search_limit(query.limit),
    };
    proof {
        assert(texts(statement.binds@) =~= Seq::<Seq<char>>::empty());
    }
    if !str_eq(role, "admin") {
        add_clause(&mut statement, SEARCH_BY_ROLE, role.to_owned());
    }
    match &query.room_id {
        Some(id) => {
            add_clause(&mut statement, SEARCH_BY_ROOM, id.clone());
        },
        None => {},
    }
    match filled(&query.q) {
        Some(text) => {
            add_clause(&mut statement, SEARCH_BY_CONTENT, wrapped("%", text, "%"));
        },
        None => {},
    }
    match filled(&query.author) {
        Some(text) => {
            add_clause(&mut statement, SEARCH_BY_AUTHOR, wrapped("%", text, "%"));
        },
        None => {},
    }
    match filled(&query.from) {
        Some(text) => {
            add_clause(&mut statement, SEARCH_FROM, joined(text, "T00:00:00"));
        },
        None => {},
    }
    match filled(&query.to) {
        Some(text) => {
            add_clause(&mut statement, SEARCH_TO, joined(text, "T23:59:59"));
        },
        None => {},
    }
    statement.sql.append(SEARCH_ORDER);
    statement
}

} // verus!
