//! Accounts and roles: the claims of a token, what clients send to register,
//! to sign in and to manage roles, and the rules that these are held to.

use crate::fresh::{fresh_id, fresh_simple_id, salted_hash};
use crate::text::{
    all_white_space, byte_len, chars_of, is_blank, lemma_trimmed_empty, normalize, normalized, opt_str_view,
    push_char, str_eq, strip_prefix, to_uppercase, trim, trimmed, uppercase_of,
};
use vstd::prelude::*;
use vstd::string::StringExecFns;
use vstd::utf8::encode_utf8;

verus! {

/// What a valid token says of its bearer: the user's id in `sub`, the name,
/// the role at the time of issue, and the expiry as seconds since the epoch.
#[derive(Debug)]
pub struct Claims {
    pub sub: String,
    pub username: String,
    pub role: String,
    pub exp: usize,
}

/// What a client sends to register or to sign in.
#[derive(Debug)]
pub struct AuthPayload {
    pub username: String,
    pub password: String,
}

/// What a client gets back once it is signed in.
#[derive(Debug)]
pub struct AuthResponse {
    pub token: String,
    pub user_id: String,
    pub username: String,
    pub role: String,
    pub avatar_color: i32,
    pub about: String,
    pub avatar_url: Option<String>,
    pub banner_url: Option<String>,
}

/// What a user sends to change the own profile; an absent field stays as it is.
#[derive(Debug)]
pub struct UpdateProfile {
    pub username: Option<String>,
    pub about: Option<String>,
    pub avatar_color: Option<i32>,
    pub password: Option<String>,
    pub avatar_url: Option<String>,
    pub banner_url: Option<String>,
}

/// What a client sends to sign in through Discord.
#[derive(Debug)]
pub struct DiscordExchangePayload {
    pub code: String,
    pub redirect_uri: Option<String>,
}

/// A request to be passed on to Discord in the user's name.
#[derive(Debug)]
pub struct DiscordProxyPayload {
    pub method: Option<String>,
    pub path: String,
    pub body: Option<serde_json::Value>,
}

/// What a client needs to know to start signing in through Discord.
#[derive(Debug)]
pub struct DiscordPublicOAuthConfig {
    pub authorize_base_url: String,
    pub client_id: String,
    pub redirect_uri: String,
    pub scope: String,
    pub response_type: String,
    pub prompt: String,
}

/// A user as Discord describes it.
#[derive(Debug)]
pub struct DiscordUser {
    pub id: String,
    pub username: String,
    pub global_name: Option<String>,
    pub avatar: Option<String>,
}

/// What an administrator sends to give a user a role.
#[derive(Debug)]
pub struct UpdateRole {
    pub role: String,
}

/// A role and the colour it is shown in.
#[derive(Debug)]
pub struct ServerRole {
    pub name: String,
    pub color: String,
}

/// What an administrator sends to create a role.
#[derive(Debug)]
pub struct CreateServerRole {
    pub name: String,
    pub color: Option<String>,
}

/// A user as the list of users shows it.
#[derive(Debug)]
pub struct ServerUser {
    pub id: String,
    pub username: String,
    pub role: String,
}

/// How long a token is valid, in seconds: seven days.
pub const TOKEN_LIFETIME_SECONDS: i64 = 604800;

/// When a token issued at `issued_at` expires: seven days later. There is no
/// expiry for a time before the epoch, nor where the sum does not fit.
pub fn token_expiry(issued_at: i64) -> (expiry: Option<usize>)
    ensures
        expiry == (if 0 <= issued_at && issued_at + TOKEN_LIFETIME_SECONDS <= usize::MAX && issued_at
            + TOKEN_LIFETIME_SECONDS <= i64::MAX {
            Some((issued_at + TOKEN_LIFETIME_SECONDS) as usize)
        } else {
            None
        }),
{
    if issued_at < 0 || issued_at > i64::MAX - TOKEN_LIFETIME_SECONDS {
        return None;
    }
    let at: i64 = issued_at + TOKEN_LIFETIME_SECONDS;
    if at as u64 > usize::MAX as u64 {
        return None;
    }
    Some(at as usize)
}

/// The claims of a token for this user, issued at `issued_at`.
pub fn claims_for(user_id: &str, username: &str, role: &str, issued_at: i64) -> (claims: Option<Claims>)
    ensures
        claims is Some == (0 <= issued_at && issued_at + TOKEN_LIFETIME_SECONDS <= usize::MAX
            && issued_at + TOKEN_LIFETIME_SECONDS <= i64::MAX),
        claims matches Some(made) ==> {
            &&& made.sub@ == user_id@
            &&& made.username@ == username@
            &&& made.role@ == role@
            &&& made.exp == issued_at + TOKEN_LIFETIME_SECONDS
        },
{
    match token_expiry(issued_at) {
        Some(exp) => Some(
            Claims {
                sub: user_id.to_owned(),
                username: username.to_owned(),
                role: role.to_owned(),
                exp,
            },
        ),
        None => None,
    }
}

/// Whether the bearer of `claims` is an administrator.
pub fn is_admin(claims: &Claims) -> (admin: bool)
    ensures
        admin == (claims.role@ == "admin"@),
{
    str_eq(claims.role.as_str(), "admin")
}

/// The shortest password that is taken, in bytes.
pub const MIN_PASSWORD_BYTES: usize = 4;

/// Whether a registration is acceptable: the name is not blank, and the
/// password has at least four bytes.
pub open spec fn registration_ok(username: Seq<char>, password: Seq<char>) -> bool {
    !all_white_space(username) && encode_utf8(password).len() >= MIN_PASSWORD_BYTES
}

/// Checks a registration, and gives the name under which the account is
/// made: the name that was sent, trimmed.
pub fn check_registration(payload: &AuthPayload) -> (username: Option<String>)
    ensures
        username is Some == registration_ok(payload.username@, payload.password@),
        username is Some ==> username->0@ == trimmed(payload.username@) && username->0@.len() > 0,
{
    if is_blank(payload.username.as_str()) || byte_len(payload.password.as_str()) < MIN_PASSWORD_BYTES {
        return None;
    }
    proof {
        lemma_trimmed_empty(payload.username@);
    }
    Some(trim(payload.username.as_str()).to_owned())
}

/// An account that is about to be stored.
#[derive(Debug)]
pub struct NewAccount {
    pub id: String,
    pub username: String,
    pub password_hash: String,
    pub role: String,
}

/// Makes the account for a checked registration: a fresh id, the password
/// under a salted hash, and the role `user`. There is none where the hash
/// cannot be made.
pub fn new_account(username: String, password: &str) -> (account: Option<NewAccount>)
    ensures
        account matches Some(made) ==> made.username == username && made.role@ == "user"@,
{
    account_with(username, fresh_id(), salted_hash(password))
}

/// The account for a checked registration, with the id and the password
/// hash that were made for it: the name and the id as they are given, the
/// hash, and the role `user`. There is none where no hash could be made.
pub fn account_with(username: String, id: String, password_hash: Option<String>) -> (account: Option<
    NewAccount,
>)
    ensures
        account is Some == password_hash is Some,
        account matches Some(made) ==> {
            &&& made.id == id
            &&& made.username == username
            &&& made.password_hash == password_hash->0
            &&& made.role@ == "user"@
        },
{
    match password_hash {
        Some(hash) => Some(NewAccount { id, username, password_hash: hash, role: "user".to_owned() }),
        None => None,
    }
}

/// Whether `bcrypt::verify` accepts the password for the stored hash; it
/// does not where the hash is malformed.
pub uninterp spec fn bcrypt_accepts(password: Seq<char>, hash: Seq<char>) -> bool;

/// `bcrypt::verify`: whether the password gives the stored hash. An error of
/// the crate, which a malformed hash gives, counts as no.
#[verifier::external_body]
fn password_matches(password: &str, hash: &str) -> (matches: bool)
    ensures
        matches == bcrypt_accepts(password@, hash@),
{
    bcrypt::verify(password, hash).unwrap_or(false)
}

/// Why a sign-in is refused.
#[derive(Clone, Copy, Debug, PartialEq, Eq, Structural)]
pub enum LoginError {
    /// No account has the name.
    UserNotFound,
    /// The password does not give the stored hash.
    InvalidPassword,
}

/// Decides on a sign-in: `stored_hash` is the password hash of the account
/// with the name that was sent, where there is one.
pub fn check_login(password: &str, stored_hash: Option<&str>) -> (outcome: Result<(), LoginError>)
    ensures
        outcome == (match opt_str_view(stored_hash) {
            None => Err::<(), LoginError>(LoginError::UserNotFound),
            Some(hash) => if bcrypt_accepts(password@, hash) {
                Ok::<(), LoginError>(())
            } else {
                Err::<(), LoginError>(LoginError::InvalidPassword)
            },
        }),
{
    match stored_hash {
        None => Err(LoginError::UserNotFound),
        Some(hash) => if password_matches(password, hash) {
            Ok(())
        } else {
            Err(LoginError::InvalidPassword)
        },
    }
}

/// Whether a character is an ASCII letter or digit.
pub open spec fn is_ascii_alphanumeric(c: char) -> bool {
    ('a' <= c && c <= 'z') || ('A' <= c && c <= 'Z') || ('0' <= c && c <= '9')
}

/// Whether a character is a hexadecimal digit.
pub open spec fn is_ascii_hexdigit(c: char) -> bool {
    ('a' <= c && c <= 'f') || ('A' <= c && c <= 'F') || ('0' <= c && c <= '9')
}

/// Whether a character may stand in a role name.
pub open spec fn is_role_name_char(c: char) -> bool {
    is_ascii_alphanumeric(c) || c == '_' || c == '-'
}

/// Whether a text is a colour as `#RRGGBB`.
pub open spec fn is_color(text: Seq<char>) -> bool {
    &&& encode_utf8(text).len() == 7
    &&& text.len() > 0
    &&& text[0] == '#'
    &&& forall|i: int| 1 <= i < text.len() ==> is_ascii_hexdigit(#[trigger] text[i])
}

/// Why a new role is refused.
#[derive(Clone, Copy, Debug, PartialEq, Eq, Structural)]
pub enum RoleError {
    /// The name has under 2 or over 24 bytes.
    NameLength,
    /// The name holds something other than ASCII letters, digits, `_` and `-`.
    NameCharacters,
    /// The colour is not of the form `#RRGGBB`.
    Color,
}

/// The colour of a role where none is given.
pub open spec fn color_or_default(color: Option<String>) -> Seq<char> {
    match color {
        Some(given) => given@,
        None => "#99aab5"@,
    }
}

/// What is wrong with a new role: the length of the name is looked at
/// first, then its characters, then the colour.
pub open spec fn role_fault(name: Seq<char>, color: Seq<char>) -> Option<RoleError> {
    let stored = normalized(name);
    if encode_utf8(stored).len() < 2 || encode_utf8(stored).len() > 24 {
        Some(RoleError::NameLength)
    } else if !(forall|i: int| 0 <= i < stored.len() ==> is_role_name_char(#[trigger] stored[i])) {
        Some(RoleError::NameCharacters)
    } else if !is_color(trimmed(color)) {
        Some(RoleError::Color)
    } else {
        None
    }
}

fn is_alphanumeric(c: char) -> (r: bool)
    ensures
        r == is_ascii_alphanumeric(c),
{
    ('a' <= c && c <= 'z') || ('A' <= c && c <= 'Z') || ('0' <= c && c <= '9')
}

fn is_hexdigit(c: char) -> (r: bool)
    ensures
        r == is_ascii_hexdigit(c),
{
    ('a' <= c && c <= 'f') || ('A' <= c && c <= 'F') || ('0' <= c && c <= '9')
}

fn all_role_name_chars(name: &str) -> (r: bool)
    ensures
        r == (forall|i: int| 0 <= i < name@.len() ==> is_role_name_char(#[trigger] name@[i])),
{
    let chars = chars_of(name);
    let mut i: usize = 0;
    while i < chars.len()
        invariant
            i <= chars.len(),
            chars@ == name@,
            forall|j: int| 0 <= j < i ==> is_role_name_char(#[trigger] name@[j]),
        decreases chars.len() - i,
    {
        let c = chars[i];
        if !(is_alphanumeric(c) || c == '_' || c == '-') {
            return false;
        }
        i = i + 1;
    }
    true
}

fn color_is_valid(color: &str) -> (r: bool)
    ensures
        r == is_color(color@),
{
    if byte_len(color) != 7 {
        return false;
    }
    let chars = chars_of(color);
    if chars.len() == 0 || chars[0] != '#' {
        return false;
    }
    let mut i: usize = 1;
    while i < chars.len()
        invariant
            1 <= i <= chars.len(),
            chars@ == color@,
            forall|j: int| 1 <= j < i ==> is_ascii_hexdigit(#[trigger] color@[j]),
        decreases chars.len() - i,
    {
        if !is_hexdigit(chars[i]) {
            return false;
        }
        i = i + 1;
    }
    true
}

/// Checks a new role and gives it as it is stored: the name trimmed and in
/// lower case, the colour trimmed, `#99aab5` where none was sent.
pub fn check_new_role(body: &CreateServerRole) -> (checked: Result<ServerRole, RoleError>)
    ensures
        match checked {
            Ok(role) => {
                &&& role_fault(body.name@, color_or_default(body.color)) is None
                &&& role.name@ == normalized(body.name@)
                &&& role.color@ == trimmed(color_or_default(body.color))
            },
            Err(fault) => role_fault(body.name@, color_or_default(body.color)) == Some(fault),
        },
{
    let name = normalize(body.name.as_str());
    if byte_len(name.as_str()) < 2 || byte_len(name.as_str()) > 24 {
        return Err(RoleError::NameLength);
    }
    if !all_role_name_chars(name.as_str()) {
        return Err(RoleError::NameCharacters);
    }
    let given = match &body.color {
        Some(color) => color.as_str(),
        None => "#99aab5",
    };
    let color = trim(given);
    if !color_is_valid(color) {
        return Err(RoleError::Color);
    }
    Ok(ServerRole { name, color: color.to_owned() })
}

/// The name of the role to delete, trimmed and in lower case; none for the
/// two roles that cannot be deleted, `admin` and `user`.
pub fn deletable_role(name: &str) -> (role: Option<String>)
    ensures
        role is Some == (normalized(name@) != "admin"@ && normalized(name@) != "user"@),
        role is Some ==> role->0@ == normalized(name@),
{
    let stored = normalize(name);
    if str_eq(stored.as_str(), "admin") || str_eq(stored.as_str(), "user") {
        None
    } else {
        Some(stored)
    }
}

/// The name that a Discord user is known by: the global name where there is
/// one, else the user name; trimmed; and `discord-user` where that is empty.
pub open spec fn preferred_name(user: DiscordUser) -> Seq<char> {
    let shown = match user.global_name {
        Some(name) => name@,
        None => user.username@,
    };
    if all_white_space(shown) {
        "discord-user"@
    } else {
        trimmed(shown)
    }
}

/// The name that a Discord user is known by.
pub fn preferred_discord_username(discord_user: &DiscordUser) -> (name: String)
    ensures
        name@ == preferred_name(*discord_user),
{
    let shown = match &discord_user.global_name {
        Some(name) => name.as_str(),
        None => discord_user.username.as_str(),
    };
    if is_blank(shown) {
        "discord-user".to_owned()
    } else {
        trim(shown).to_owned()
    }
}

/// The address of a Discord user's avatar on the content network at
/// `cdn_base`; none for a user without an avatar.
pub fn discord_avatar_url(cdn_base: &str, discord_user: &DiscordUser) -> (url: Option<String>)
    ensures
        url is Some == discord_user.avatar is Some,
        url is Some ==> url->0@ == cdn_base@ + "/avatars/"@ + discord_user.id@ + "/"@
            + discord_user.avatar->0@ + ".png?size=256"@,
{
    match &discord_user.avatar {
        Some(hash) => {
            let mut url = cdn_base.to_owned();
            url.append("/avatars/");
            url.append(discord_user.id.as_str());
            url.append("/");
            url.append(hash.as_str());
            url.append(".png?size=256");
            Some(url)
        },
        None => None,
    }
}

/// The character of a decimal digit.
pub open spec fn digit_char(digit: nat) -> char {
    if digit == 0 {
        '0'
    } else if digit == 1 {
        '1'
    } else if digit == 2 {
        '2'
    } else if digit == 3 {
        '3'
    } else if digit == 4 {
        '4'
    } else if digit == 5 {
        '5'
    } else if digit == 6 {
        '6'
    } else if digit == 7 {
        '7'
    } else if digit == 8 {
        '8'
    } else {
        '9'
    }
}

/// A number in decimal digits, without leading zeros.
pub open spec fn decimal_text(n: nat) -> Seq<char>
    decreases n,
{
    if n < 10 {
        seq![digit_char(n)]
    } else {
        decimal_text(n / 10).push(digit_char(n % 10))
    }
}

fn digit(d: u32) -> (c: char)
    requires
        d < 10,
    ensures
        c == digit_char(d as nat),
{
    if d == 0 {
        '0'
    } else if d == 1 {
        '1'
    } else if d == 2 {
        '2'
    } else if d == 3 {
        '3'
    } else if d == 4 {
        '4'
    } else if d == 5 {
        '5'
    } else if d == 6 {
        '6'
    } else if d == 7 {
        '7'
    } else if d == 8 {
        '8'
    } else {
        '9'
    }
}

fn push_decimal(out: &mut String, n: u32)
    ensures
        final(out)@ == old(out)@ + decimal_text(n as nat),
    decreases n,
{
    if n >= 10 {
        push_decimal(out, n / 10);
    }
    push_char(out, digit(n % 10));
    proof {
        if n >= 10 {
            assert((old(out)@ + decimal_text((n / 10) as nat)).push(digit_char((n % 10) as nat)) =~= old(
                out,
            )@ + decimal_text(n as nat));
        } else {
            assert(old(out)@.push(digit_char(n as nat)) =~= old(out)@ + decimal_text(n as nat));
        }
    }
}

/// How many names are tried for a new Discord user before a random one is taken.
pub const USERNAME_ATTEMPTS: u32 = 150;

/// The name that every candidate starts with: the preferred name, trimmed;
/// `discord-user` where that is blank.
pub open spec fn candidate_base(preferred: Seq<char>) -> Seq<char> {
    if all_white_space(preferred) {
        "discord-user"@
    } else {
        trimmed(preferred)
    }
}

/// The candidate with this index: the base itself first, then the base with
/// `-1`, `-2` and so on.
pub open spec fn candidate_name(preferred: Seq<char>, index: nat) -> Seq<char> {
    if index == 0 {
        candidate_base(preferred)
    } else {
        candidate_base(preferred) + "-"@ + decimal_text(index)
    }
}

/// The name to try next for a new user who prefers `preferred`; none once
/// 150 names have been tried.
pub fn username_candidate(preferred: &str, index: u32) -> (candidate: Option<String>)
    ensures
        candidate is Some == (index < USERNAME_ATTEMPTS),
        candidate is Some ==> candidate->0@ == candidate_name(preferred@, index as nat),
{
    if index >= USERNAME_ATTEMPTS {
        return None;
    }
    let mut name = if is_blank(preferred) {
        "discord-user".to_owned()
    } else {
        trim(preferred).to_owned()
    };
    if index > 0 {
        name.append("-");
        push_decimal(&mut name, index);
    }
    Some(name)
}

/// The name that is taken once every candidate is in use: `discord-` and a random id.
pub fn fallback_username() -> (name: String)
    ensures
        "discord-"@.is_prefix_of(name@),
{
    let mut name = "discord-".to_owned();
    let id = fresh_simple_id();
    name.append(id.as_str());
    name
}

/// A configured text, or `fallback` where none is configured.
pub fn configured_or(value: Option<String>, fallback: &str) -> (text: String)
    ensures
        text@ == (match value {
            Some(given) => given@,
            None => fallback@,
        }),
{
    match value {
        Some(given) => given,
        None => fallback.to_owned(),
    }
}

/// A setting that must be there: the configured text, unless none is
/// configured or it is blank.
pub fn required_setting(value: Option<String>) -> (text: Option<String>)
    ensures
        text == (match value {
            Some(given) => if all_white_space(given@) {
                None
            } else {
                Some(given)
            },
            None => None,
        }),
{
    match value {
        Some(given) => if is_blank(given.as_str()) {
            None
        } else {
            Some(given)
        },
        None => None,
    }
}

/// What clients are told of the Discord sign-in. There is nothing to tell
/// while the client id or the return address is not configured, or blank.
/// The other four settings have defaults.
pub fn public_oauth_config(
    client_id: Option<String>,
    redirect_uri: Option<String>,
    authorize_base_url: Option<String>,
    scope: Option<String>,
    response_type: Option<String>,
    prompt: Option<String>,
) -> (config: Option<DiscordPublicOAuthConfig>)
    ensures
        config is Some == (client_id is Some && !all_white_space(client_id->0@) && redirect_uri is Some
            && !all_white_space(redirect_uri->0@)),
        config matches Some(told) ==> {
            &&& told.client_id == client_id->0
            &&& told.redirect_uri == redirect_uri->0
            &&& told.authorize_base_url@ == (match authorize_base_url {
                Some(given) => given@,
                None => "https://discord.com/oauth2/authorize"@,
            })
            &&& told.scope@ == (match scope {
                Some(given) => given@,
                None => "identify email guilds"@,
            })
            &&& told.response_type@ == (match response_type {
                Some(given) => given@,
                None => "code"@,
            })
            &&& told.prompt@ == (match prompt {
                Some(given) => given@,
                None => "consent"@,
            })
        },
{
    let client_id = match required_setting(client_id) {
        Some(given) => given,
        None => {
            return None;
        },
    };
    let redirect_uri = match required_setting(redirect_uri) {
        Some(given) => given,
        None => {
            return None;
        },
    };
    Some(
        DiscordPublicOAuthConfig {
            authorize_base_url: configured_or(authorize_base_url, "https://discord.com/oauth2/authorize"),
            client_id,
            redirect_uri,
            scope: configured_or(scope, "identify email guilds"),
            response_type: configured_or(response_type, "code"),
            prompt: configured_or(prompt, "consent"),
        },
    )
}

/// The avatar of a user who signs in through Discord again: the one that
/// Discord names, else the one that the account had.
pub fn merged_avatar(from_discord: Option<String>, stored: Option<String>) -> (avatar: Option<String>)
    ensures
        avatar == (match from_discord {
            Some(url) => Some(url),
            None => stored,
        }),
{
    match from_discord {
        Some(url) => Some(url),
        None => stored,
    }
}

/// A value that a statement binds.
#[derive(Debug)]
pub enum ProfileValue {
    Text(String),
    Number(i32),
}

/// A bound value by its content.
pub ghost enum ProfileValueView {
    Text(Seq<char>),
    Number(i32),
}

impl View for ProfileValue {
    type V = ProfileValueView;

    open spec fn view(&self) -> ProfileValueView {
        match *self {
            ProfileValue::Text(text) => ProfileValueView::Text(text@),
            ProfileValue::Number(number) => ProfileValueView::Number(number),
        }
    }
}

/// The statement that changes a profile: the text with one `?` for each
/// value, and the values in the order of their `?`.
#[derive(Debug)]
pub struct ProfileStatement {
    pub sql: String,
    pub binds: Vec<ProfileValue>,
}

/// The assignments of a statement as they are joined, and the values so far.
pub ghost struct ProfileChanges {
    pub sets: Seq<char>,
    pub binds: Seq<ProfileValueView>,
}

/// The changes with one more column, where the column applies.
pub open spec fn with_column(
    changes: ProfileChanges,
    applies: bool,
    assignment: Seq<char>,
    bind: ProfileValueView,
) -> ProfileChanges {
    if !applies {
        changes
    } else if changes.binds.len() == 0 {
        ProfileChanges { sets: assignment, binds: changes.binds.push(bind) }
    } else {
        ProfileChanges { sets: changes.sets + ", "@ + assignment, binds: changes.binds.push(bind) }
    }
}

/// The view of an optional text, and the empty text where there is none.
pub open spec fn text_or_empty(text: Option<String>) -> Seq<char> {
    match text {
        Some(given) => given@,
        None => Seq::<char>::empty(),
    }
}

/// The columns that a profile update changes, in the order in which the
/// statement names them: the name where one is sent and it is not blank,
/// trimmed; the text about the user; the avatar's colour; the password's
/// hash, where a hash is handed in; the avatar; and the banner.
pub open spec fn profile_changes(body: UpdateProfile, password_hash: Option<Seq<char>>) -> ProfileChanges {
    let none = ProfileChanges { sets: Seq::<char>::empty(), binds: Seq::<ProfileValueView>::empty() };
    let name = with_column(
        none,
        body.username is Some && !all_white_space(body.username->0@),
        "username = ?"@,
        ProfileValueView::Text(trimmed(text_or_empty(body.username))),
    );
    let about = with_column(
        name,
        body.about is Some,
        "about = ?"@,
        ProfileValueView::Text(text_or_empty(body.about)),
    );
    let color = with_column(
        about,
        body.avatar_color is Some,
        "avatar_color = ?"@,
        ProfileValueView::Number(
            match body.avatar_color {
                Some(number) => number,
                None => 0i32,
            },
        ),
    );
    let password = with_column(
        color,
        password_hash is Some,
        "password_hash = ?"@,
        ProfileValueView::Text(
            match password_hash {
                Some(hash) => hash,
                None => Seq::<char>::empty(),
            },
        ),
    );
    let avatar = with_column(
        password,
        body.avatar_url is Some,
        "avatar_url = ?"@,
        ProfileValueView::Text(text_or_empty(body.avatar_url)),
    );
    with_column(
        avatar,
        body.banner_url is Some,
        "banner_url = ?"@,
        ProfileValueView::Text(text_or_empty(body.banner_url)),
    )
}

/// Bound values by their content.
pub open spec fn bound_values(binds: Seq<ProfileValue>) -> Seq<ProfileValueView> {
    Seq::new(binds.len(), |i: int| binds[i]@)
}

/// Whether `statement` is the statement for these changes to the profile
/// of `user_id`: the assignments between `UPDATE users SET ` and
/// ` WHERE id = ?`, and the user's id as the last value.
pub open spec fn is_profile_statement(statement: ProfileStatement, changes: ProfileChanges, user_id: Seq<char>) -> bool {
    &&& statement.sql@ == "UPDATE users SET "@ + changes.sets + " WHERE id = ?"@
    &&& bound_values(statement.binds@) == changes.binds.push(ProfileValueView::Text(user_id))
}

/// Whether a profile update asks for a new password that is taken: one of
/// at least four bytes.
pub open spec fn changes_password(body: UpdateProfile) -> bool {
    body.password is Some && encode_utf8(body.password->0@).len() >= MIN_PASSWORD_BYTES
}

fn add_column(sets: &mut String, binds: &mut Vec<ProfileValue>, assignment: &str, bind: ProfileValue)
    ensures
        (ProfileChanges { sets: final(sets)@, binds: bound_values(final(binds)@) }) == with_column(
            ProfileChanges { sets: old(sets)@, binds: bound_values(old(binds)@) },
            true,
            assignment@,
            bind@,
        ),
{
    proof {
        assert(bound_values(binds@.push(bind)) =~= bound_values(binds@).push(bind@));
    }
    if binds.len() == 0 {
        *sets = assignment.to_owned();
    } else {
        sets.append(", ");
        sets.append(assignment);
    }
    binds.push(bind);
}

/// Builds the statement for a profile update of `user_id`. `password_hash`
/// is the hash of the new password and is used as it is handed in. Where
/// nothing changes there is no statement.
pub fn profile_statement_with(body: &UpdateProfile, user_id: &str, password_hash: Option<String>) -> (statement:
    Option<ProfileStatement>)
    ensures
        statement is Some == (profile_changes(*body, crate::text::opt_view(password_hash)).binds.len()
            > 0),
        statement matches Some(built) ==> is_profile_statement(
            built,
            profile_changes(*body, crate::text::opt_view(password_hash)),
            user_id@,
        ),
{
    let mut sets = String::new();
    let mut binds: Vec<ProfileValue> = Vec::new();
    proof {
        assert(bound_values(binds@) =~= Seq::<ProfileValueView>::empty());
    }
    match &body.username {
        Some(name) => {
            if !is_blank(name.as_str()) {
                add_column(&mut sets, &mut binds, "username = ?", ProfileValue::Text(trim(name.as_str()).to_owned()));
            }
        },
        None => {},
    }
    match &body.about {
        Some(about) => {
            add_column(&mut sets, &mut binds, "about = ?", ProfileValue::Text(about.clone()));
        },
        None => {},
    }
    match body.avatar_color {
        Some(color) => {
            add_column(&mut sets, &mut binds, "avatar_color = ?", ProfileValue::Number(color));
        },
        None => {},
    }
    match password_hash {
        Some(hash) => {
            add_column(&mut sets, &mut binds, "password_hash = ?", ProfileValue::Text(hash));
        },
        None => {},
    }
    match &body.avatar_url {
        Some(url) => {
            add_column(&mut sets, &mut binds, "avatar_url = ?", ProfileValue::Text(url.clone()));
        },
        None => {},
    }
    match &body.banner_url {
        Some(url) => {
            add_column(&mut sets, &mut binds, "banner_url = ?", ProfileValue::Text(url.clone()));
        },
        None => {},
    }
    if binds.len() == 0 {
        return None;
    }
    let mut sql = "UPDATE users SET ".to_owned();
    sql.append(sets.as_str());
    sql.append(" WHERE id = ?");
    let id = user_id.to_owned();
    proof {
        assert(bound_values(binds@.push(ProfileValue::Text(id))) =~= bound_values(binds@).push(
            ProfileValueView::Text(user_id@),
        ));
    }
    binds.push(ProfileValue::Text(id));
    Some(ProfileStatement { sql, binds })
}

/// Why a profile update cannot be carried out.
#[derive(Clone, Copy, Debug, PartialEq, Eq, Structural)]
pub enum ProfileError {
    /// The hash of the new password could not be made.
    HashFailed,
}

/// Builds the statement for a profile update of `user_id`. A new password
/// of at least four bytes is stored under a salted hash made for this call; a
/// shorter one is passed over. Where nothing changes there is no statement.
pub fn profile_statement(body: &UpdateProfile, user_id: &str) -> (statement: Result<
    Option<ProfileStatement>,
    ProfileError,
>)
    ensures
        !changes_password(*body) ==> statement is Ok && (statement->Ok_0 is Some == (profile_changes(
            *body,
            None,
        ).binds.len() > 0)) && (statement->Ok_0 matches Some(built) ==> is_profile_statement(
            built,
            profile_changes(*body, None),
            user_id@,
        )),
        changes_password(*body) ==> (statement matches Ok(made) ==> made matches Some(built) && exists|
            hash: Seq<char>,
        |
            is_profile_statement(built, profile_changes(*body, Some(hash)), user_id@)),
{
    let qualifies = match &body.password {
        Some(password) => byte_len(password.as_str()) >= MIN_PASSWORD_BYTES,
        None => false,
    };
    if !qualifies {
        return Ok(profile_statement_with(body, user_id, None));
    }
    let hash = match &body.password {
        Some(password) => salted_hash(password.as_str()),
        None => None,
    };
    match hash {
        Some(made) => {
            let built = profile_statement_with(body, user_id, Some(made));
            proof {
                let changes = profile_changes(*body, Some(made@));
                assert(changes.binds.len() > 0);
                if built is Some {
                    assert(is_profile_statement(built->0, profile_changes(*body, Some(made@)), user_id@));
                }
            }
            Ok(built)
        },
        None => Err(ProfileError::HashFailed),
    }
}

/// How many seconds before its expiry a Discord token is renewed.
pub const REFRESH_MARGIN_SECONDS: i64 = 30;

/// Whether a user's Discord token is to be renewed at `now`: there is a
/// token and a refresh token, the token expires within 30 seconds or its
/// expiry is unknown, and the client id and secret are configured.
pub open spec fn refresh_due(
    has_access_token: bool,
    refresh_token: Option<Seq<char>>,
    expires_at: Option<i64>,
    now: i64,
    client_id: Seq<char>,
    client_secret: Seq<char>,
) -> bool {
    &&& has_access_token
    &&& (match expires_at {
        Some(at) => at as int,
        None => 0,
    }) <= now + REFRESH_MARGIN_SECONDS
    &&& client_id.len() > 0
    &&& client_secret.len() > 0
    &&& refresh_token is Some
}

/// Whether a user's Discord token is to be renewed at `now`.
pub fn needs_refresh(
    has_access_token: bool,
    refresh_token: Option<&str>,
    expires_at: Option<i64>,
    now: i64,
    client_id: &str,
    client_secret: &str,
) -> (due: bool)
    ensures
        due == refresh_due(
            has_access_token,
            opt_str_view(refresh_token),
            expires_at,
            now,
            client_id@,
            client_secret@,
        ),
{
    let at: i64 = match expires_at {
        Some(at) => at,
        None => 0,
    };
    let expiring = now > i64::MAX - REFRESH_MARGIN_SECONDS || at <= now + REFRESH_MARGIN_SECONDS;
    has_access_token && expiring && !client_id.is_empty() && !client_secret.is_empty()
        && refresh_token.is_some()
}

/// When a Discord token that is valid for `expires_in` seconds from `now`
/// expires; none where the sum does not fit.
pub fn discord_expiry(now: i64, expires_in: i64) -> (at: Option<i64>)
    ensures
        at == (if i64::MIN <= now + expires_in <= i64::MAX {
            Some((now + expires_in) as i64)
        } else {
            None
        }),
{
    now.checked_add(expires_in)
}

/// The methods that a request passed on to Discord may have.
#[derive(Clone, Copy, Debug, PartialEq, Eq, Structural)]
pub enum ProxyMethod {
    Get,
    Post,
    Put,
    Patch,
    Delete,
}

/// Why a request is not passed on to Discord.
#[derive(Clone, Copy, Debug, PartialEq, Eq, Structural)]
pub enum ProxyError {
    /// The path is empty, does not start with `/`, or starts with `//` or `/http`.
    InvalidPath,
    /// The method is not one of the five that are passed on.
    MethodNotAllowed,
}

/// Whether a trimmed path may be passed on: it is a path on Discord's own
/// host, so it starts with one `/`, and not with `/http`.
pub open spec fn is_proxy_path(path: Seq<char>) -> bool {
    &&& "/"@.is_prefix_of(path)
    &&& !"//"@.is_prefix_of(path)
    &&& !"/http"@.is_prefix_of(path)
}

/// The method that an upper-case name stands for.
pub open spec fn method_named(name: Seq<char>) -> Option<ProxyMethod> {
    if name == "GET"@ {
        Some(ProxyMethod::Get)
    } else if name == "POST"@ {
        Some(ProxyMethod::Post)
    } else if name == "PUT"@ {
        Some(ProxyMethod::Put)
    } else if name == "PATCH"@ {
        Some(ProxyMethod::Patch)
    } else if name == "DELETE"@ {
        Some(ProxyMethod::Delete)
    } else {
        None
    }
}

/// The method's name where none is given.
pub open spec fn method_or_default(method: Option<String>) -> Seq<char> {
    match method {
        Some(given) => given@,
        None => "GET"@,
    }
}

/// A request that may be passed on: the trimmed path and the method.
#[derive(Debug)]
pub struct ProxyRequest {
    pub path: String,
    pub method: ProxyMethod,
}

/// Checks a request that is to be passed on to Discord: the path first, then
/// the method, which is `GET` where none is given and is read trimmed and
/// without regard to case.
pub fn check_proxy_request(body: &DiscordProxyPayload) -> (checked: Result<ProxyRequest, ProxyError>)
    ensures
        match checked {
            Ok(request) => {
                &&& is_proxy_path(trimmed(body.path@))
                &&& request.path@ == trimmed(body.path@)
                &&& method_named(uppercase_of(trimmed(method_or_default(body.method)))) == Some(
                    request.method,
                )
            },
            Err(ProxyError::InvalidPath) => !is_proxy_path(trimmed(body.path@)),
            Err(ProxyError::MethodNotAllowed) => is_proxy_path(trimmed(body.path@)) && method_named(
                uppercase_of(trimmed(method_or_default(body.method))),
            ) is None,
        },
{
    let path = trim(body.path.as_str());
    if strip_prefix(path, "/").is_none() || strip_prefix(path, "//").is_some() || strip_prefix(
        path,
        "/http",
    ).is_some() {
        return Err(ProxyError::InvalidPath);
    }
    let given = match &body.method {
        Some(method) => method.as_str(),
        None => "GET",
    };
    let name = to_uppercase(trim(given));
    let method = if str_eq(name.as_str(), "GET") {
        ProxyMethod::Get
    } else if str_eq(name.as_str(), "POST") {
        ProxyMethod::Post
    } else if str_eq(name.as_str(), "PUT") {
        ProxyMethod::Put
    } else if str_eq(name.as_str(), "PATCH") {
        ProxyMethod::Patch
    } else if str_eq(name.as_str(), "DELETE") {
        ProxyMethod::Delete
    } else {
        return Err(ProxyError::MethodNotAllowed);
    };
    Ok(ProxyRequest { path: path.to_owned(), method })
}

/// Why the address to return to after a Discord sign-in is refused.
#[derive(Clone, Copy, Debug, PartialEq, Eq, Structural)]
pub enum RedirectError {
    /// Neither the request nor the configuration names an address.
    Missing,
    /// The request names another address than the configured one.
    Mismatch,
}

/// The address that a sign-in asks to return to: the one of the request,
/// else the configured one, else the empty text.
pub open spec fn asked_redirect(requested: Option<Seq<char>>, configured: Option<Seq<char>>) -> Seq<char> {
    match requested {
        Some(uri) => uri,
        None => match configured {
            Some(uri) => uri,
            None => Seq::<char>::empty(),
        },
    }
}

/// What is wrong with the address to return to.
pub open spec fn redirect_fault(requested: Option<Seq<char>>, configured: Option<Seq<char>>) -> Option<
    RedirectError,
> {
    let asked = asked_redirect(requested, configured);
    if all_white_space(asked) {
        Some(RedirectError::Missing)
    } else if configured is Some && trimmed(configured->0) != trimmed(asked) {
        Some(RedirectError::Mismatch)
    } else {
        None
    }
}

/// Settles the address to return to after a Discord sign-in. The request's
/// own address stands before the configured one; it must not be blank; and
/// where an address is configured, the two must be the same once trimmed. The
/// result is the address, trimmed.
pub fn resolve_redirect_uri(requested: Option<&str>, configured: Option<&str>) -> (resolved: Result<
    String,
    RedirectError,
>)
    ensures
        match resolved {
            Ok(uri) => redirect_fault(opt_str_view(requested), opt_str_view(configured)) is None
                && uri@ == trimmed(asked_redirect(opt_str_view(requested), opt_str_view(configured))),
            Err(fault) => redirect_fault(opt_str_view(requested), opt_str_view(configured)) == Some(
                fault,
            ),
        },
{
    let asked: &str = match requested {
        Some(uri) => uri,
        None => match configured {
            Some(uri) => uri,
            None => {
                proof {
                    assert(all_white_space(Seq::<char>::empty()));
                }
                return Err(RedirectError::Missing);
            },
        },
    };
    if is_blank(asked) {
        return Err(RedirectError::Missing);
    }
    match configured {
        Some(expected) => {
            if !str_eq(trim(expected), trim(asked)) {
                return Err(RedirectError::Mismatch);
            }
        },
        None => {},
    }
    Ok(trim(asked).to_owned())
}

} // verus!
