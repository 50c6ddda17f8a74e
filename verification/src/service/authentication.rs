//! Who a request belongs to, and where a request is sent that comes from
//! the wrong side of the sign-in.
use vstd::prelude::*;
use vstd::string::StringExecFns;

use crate::error::KeyError;
use crate::model::user::{User, UserView};

use crate::persistence::session_store::{resolved, user_in, SessionStore};
use crate::persistence::user_repository::UserRepository;
use crate::primitives::{parse_token, url_encode, url_encoded, uuid_parsed};

verus! {

/// What becomes of a request at a gate.
#[derive(Debug)]
pub enum Gate {
    /// The request goes on.
    Proceed,
    /// The request is sent to another address.
    Redirect(String),
}

/// The address a gate sends to, if it sends anywhere.
pub open spec fn sent_to(gate: Gate) -> Option<Seq<char>> {
    match gate {
        Gate::Proceed => None,
        Gate::Redirect(address) => Some(address@),
    }
}

/// The address of the sign-in page that leads back to `target`.
pub open spec fn login_address(target: Seq<char>) -> Seq<char> {
    "/login?next="@ + url_encoded(target)
}

/// The target of a request that may name none.
pub open spec fn target_or_root(target: Option<&str>) -> Seq<char> {
    match target {
        Some(t) => t@,
        None => "/"@,
    }
}

/// Lets only visitors pass who are not signed in; the others are sent home.
pub fn require_logged_out(user: &Option<User>) -> (gate: Gate)
    ensures
        sent_to(gate) == if user is None {
            None
        } else {
            Some("/"@)
        },
{
    if user.is_none() {
        Gate::Proceed
    } else {
        Gate::Redirect(String::from_str("/"))
    }
}

/// Lets only signed-in users pass; the others are sent to the sign-in
/// page, which leads back to the path and query they asked for.
pub fn require_logged_in(user: &Option<User>, target: Option<&str>) -> (gate: Gate)
    ensures
        sent_to(gate) == if user is Some {
            None
        } else {
            Some(login_address(target_or_root(target)))
        },
{
    if user.is_some() {
        Gate::Proceed
    } else {
        let target = match target {
            Some(t) => t,
            None => "/",
        };
        let encoded = url_encode(target);
        Gate::Redirect(String::from_str("/login?next=").concat(encoded.as_str()))
    }
}

/// Reads a token from the text a cookie carries; `InvalidCredentials`
/// where the text spells none.
pub fn read_token(text: &str) -> (token: Result<[u8; 16], KeyError>)
    ensures
        match uuid_parsed(text@) {
            Some(t) => token matches Ok(bytes) && bytes@ == t,
            None => token == Err::<[u8; 16], KeyError>(KeyError::InvalidCredentials),
        },
{
    match parse_token(text) {
        Some(t) => Ok(t),
        None => Err(KeyError::InvalidCredentials),
    }
}

/// Writes a token as the text a cookie carries. Reading the text gives
/// the token back.
pub fn write_token(token: &[u8; 16]) -> (text: String)
    ensures
        text@ == crate::primitives::uuid_text(token@),
        uuid_parsed(text@) == Some(token@),
{
    crate::primitives::format_token(token)
}

/// Whom the token of a request stands for at the moment `now`.
pub open spec fn principal(
    sessions: crate::persistence::session_store::StoreView,
    users: crate::persistence::user_repository::UsersView,
    token: Option<Seq<char>>,
    now: i64,
) -> Result<Option<UserView>, KeyError> {
    match token {
        None => Ok(None),
        Some(text) => match uuid_parsed(text) {
            None => Err(KeyError::InvalidCredentials),
            Some(t) => Ok(user_in(sessions.resolve(users, t, now).0)),
        },
    }
}

/// The value of a principal that may be absent or refused.
pub open spec fn principal_of(r: Result<Option<User>, KeyError>) -> Result<
    Option<UserView>,
    KeyError,
> {
    match r {
        Ok(u) => Ok(resolved(u)),
        Err(e) => Err(e),
    }
}

/// The text of a token that may be absent.
pub open spec fn text_given(token: Option<&str>) -> Option<Seq<char>> {
    match token {
        Some(t) => Some(t@),
        None => None,
    }
}

/// Finds the user a request belongs to.
///
/// A request without a token belongs to nobody. A token that is not
/// well formed is refused with `InvalidCredentials`. A well-formed token
/// resolves to its user, or to nobody where no valid session stands
/// behind it. The persisted sessions are not changed.
pub fn authenticate_user(
    sessions: &mut SessionStore,
    users: &UserRepository,
    token: Option<&str>,
    now: i64,
) -> (user: Result<Option<User>, KeyError>)
    ensures
        principal_of(user) == principal(old(sessions)@, users@, text_given(token), now),
        final(sessions)@.rows == old(sessions)@.rows,
        final(sessions)@.limit == old(sessions)@.limit,
        user is Err || token is None ==> final(sessions)@ == old(sessions)@,
{
    match token {
        None => Ok(None),
        Some(text) => match parse_token(text) {
            None => Err(KeyError::InvalidCredentials),
            Some(t) => Ok(sessions.get_user(users, &t, now)),
        },
    }
}

} // verus!
