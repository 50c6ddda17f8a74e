//! What signing in, signing up, signing out and changing the password
//! decide, apart from how the answer is sent.
use vstd::prelude::*;
use vstd::string::StringExecFns;

use crate::error::KeyError;
use crate::model::user::{User, UserRole, UserView};
use crate::persistence::session_store::{addable, session_added, SessionStore, StoreView};
use crate::persistence::user_repository::{
    password_changed, user_added, LoginCredentials, UserRepository, UsersView,
};
use crate::primitives::{format_token, parse_token, uuid_parsed};
use crate::service::authentication::text_given;
use crate::templates::authentication_templates::{
    ChangePassTemplate, CredentialStatusMessage, LoginTemplate, SignupTemplate,
};

verus! {

/// What the sign-in and sign-up forms send.
pub struct LoginForm {
    pub username: String,
    pub password: String,
}

impl Clone for LoginForm {
    fn clone(&self) -> (copy: Self)
        ensures
            copy == *self,
    {
        LoginForm { username: self.username.clone(), password: self.password.clone() }
    }
}

impl LoginForm {
    /// The credentials the form carries.
    pub fn into_credentials(self) -> (creds: LoginCredentials)
        ensures
            creds.username == self.username,
            creds.password == self.password,
    {
        LoginCredentials { username: self.username, password: self.password }
    }
}

/// What the change-password form sends.
pub struct ChangePasswordForm {
    pub old_password: String,
    pub new_password: String,
}

impl Clone for ChangePasswordForm {
    fn clone(&self) -> (copy: Self)
        ensures
            copy == *self,
    {
        ChangePasswordForm {
            old_password: self.old_password.clone(),
            new_password: self.new_password.clone(),
        }
    }
}

/// How an attempt to sign in ended.
pub enum LoginOutcome {
    /// The user is signed in: the token goes into a cookie and the
    /// request goes on to the target.
    Entered { token: String, target: String },
    /// The credentials were refused; the page says why.
    Refused { error: KeyError, page: LoginTemplate },
    /// The credentials were right, but no session could be added.
    Failed,
}

/// How an attempt to sign up ended.
pub enum SignupOutcome {
    /// The account exists and its user is signed in.
    Entered { user: User, token: String, target: String },
    /// No account was made; the page says why.
    Refused { error: KeyError, page: SignupTemplate },
    /// The account exists, but no session could be added.
    Failed { user: User },
}

/// How an attempt to change the password ended.
pub enum ChangePassOutcome {
    /// The password is changed and the session expired.
    Changed,
    /// The password is not changed and the session expired; the page
    /// says why.
    Refused { error: KeyError, page: ChangePassTemplate },
    /// The request carried no well-formed token; `changed` says what
    /// became of the password all the same.
    BadRequest { changed: Result<(), KeyError> },
}

/// Where a request goes on after signing in: to the address it was
/// heading for, or home.
pub open spec fn target_of(next: Option<String>) -> Seq<char> {
    match next {
        Some(n) => n@,
        None => "/"@,
    }
}

/// Whether a page shows `error` and the credentials that were tried.
pub open spec fn shows(
    status_message: Option<CredentialStatusMessage>,
    error: KeyError,
    username: Seq<char>,
    password: Seq<char>,
) -> bool {
    status_message matches Some(m) && m.message@ == error.text() && m.creds.username@ == username
        && m.creds.password@ == password
}

/// Whether a session was opened for `user` under a token with the text
/// `token`, and the request goes on to `target`.
pub open spec fn entered(
    before: StoreView,
    after: StoreView,
    user: UserView,
    password: Seq<char>,
    next: Option<String>,
    now: i64,
    token: Seq<char>,
    target: Seq<char>,
) -> bool {
    &&& target == target_of(next)
    &&& uuid_parsed(token) is Some
    &&& session_added(
        before,
        after,
        Ok(uuid_parsed(token)->0),
        user,
        password,
        now,
    )
}

/// What an attempt to sign in leaves behind.
pub open spec fn logged_in(
    users: UsersView,
    before: StoreView,
    after: StoreView,
    outcome: LoginOutcome,
    username: Seq<char>,
    password: Seq<char>,
    next: Option<String>,
    now: i64,
) -> bool {
    match users.authenticate(username, password) {
        Err(e) => after == before && (outcome matches LoginOutcome::Refused { error, page }
            && error == e && shows(page.status_message, e, username, password)),
        Ok(user) => if addable(user, password, now) {
            outcome matches LoginOutcome::Entered { token, target } && entered(
                before,
                after,
                user,
                password,
                next,
                now,
                token@,
                target@,
            )
        } else {
            after == before && outcome is Failed
        },
    }
}

/// What an attempt to sign up leaves behind.
pub open spec fn signed_up(
    users_before: UsersView,
    users_after: UsersView,
    before: StoreView,
    after: StoreView,
    outcome: SignupOutcome,
    username: Seq<char>,
    password: Seq<char>,
    next: Option<String>,
    now: i64,
) -> bool {
    match outcome {
        SignupOutcome::Refused { error, page } => {
            &&& after == before
            &&& user_added(
                users_before,
                users_after,
                Err(error),
                username,
                password,
                UserRole::MEMBER,
            )
            &&& shows(page.status_message, error, username, password)
        },
        SignupOutcome::Entered { user, token, target } => {
            &&& user_added(
                users_before,
                users_after,
                Ok(user@),
                username,
                password,
                UserRole::MEMBER,
            )
            &&& addable(user@, password, now)
            &&& entered(before, after, user@, password, next, now, token@, target@)
        },
        SignupOutcome::Failed { user } => {
            &&& user_added(
                users_before,
                users_after,
                Ok(user@),
                username,
                password,
                UserRole::MEMBER,
            )
            &&& !addable(user@, password, now)
            &&& after == before
        },
    }
}

/// What an attempt to change the password leaves behind.
pub open spec fn pass_changed(
    users_before: UsersView,
    users_after: UsersView,
    before: StoreView,
    after: StoreView,
    outcome: ChangePassOutcome,
    user_id: i32,
    old_password: Seq<char>,
    new_password: Seq<char>,
    token: Option<Seq<char>>,
    now: i64,
) -> bool {
    let well_formed = token is Some && uuid_parsed(token->0) is Some;
    match outcome {
        ChangePassOutcome::BadRequest { changed } => {
            &&& !well_formed
            &&& after == before
            &&& password_changed(
                users_before,
                users_after,
                changed,
                user_id,
                old_password,
                new_password,
            )
        },
        ChangePassOutcome::Changed => {
            &&& well_formed
            &&& before.expired(after, uuid_parsed(token->0)->0, now)
            &&& password_changed(
                users_before,
                users_after,
                Ok(()),
                user_id,
                old_password,
                new_password,
            )
        },
        ChangePassOutcome::Refused { error, page } => {
            &&& well_formed
            &&& before.expired(after, uuid_parsed(token->0)->0, now)
            &&& password_changed(
                users_before,
                users_after,
                Err(error),
                user_id,
                old_password,
                new_password,
            )
            &&& page.status_message matches Some(m) && m@ == error.text()
        },
    }
}

/// Opens a session for `user` and says where the request goes on.
fn enter(sessions: &mut SessionStore, user: User, password: &str, next: Option<String>, now: i64) -> (
    opened: Option<(String, String)>)
    ensures
        opened is Some == addable(user@, password@, now),
        opened matches Some(pair) ==> entered(
            old(sessions)@,
            final(sessions)@,
            user@,
            password@,
            next,
            now,
            pair.0@,
            pair.1@,
        ),
        opened is None ==> final(sessions)@ == old(sessions)@,
{
    match sessions.add_user(user, password, now) {
        Err(_) => None,
        Ok(token) => {
            let target = match next {
                Some(n) => n,
                None => String::from_str("/"),
            };
            Some((format_token(&token), target))
        },
    }
}

/// Signs a user in.
///
/// Right credentials open a session, whose token is handed out as text,
/// and lead on to `next`, or home. Wrong ones are refused on the sign-in
/// page, which shows why and what was tried.
pub fn login_post(
    users: &UserRepository,
    sessions: &mut SessionStore,
    login: LoginForm,
    next: Option<String>,
    now: i64,
) -> (outcome: LoginOutcome)
    ensures
        logged_in(
            users@,
            old(sessions)@,
            final(sessions)@,
            outcome,
            login.username@,
            login.password@,
            next,
            now,
        ),
{
    let credentials = login.clone().into_credentials();
    match users.authenticate_user(&credentials) {
        Ok(user) => match enter(sessions, user, login.password.as_str(), next, now) {
            Some((token, target)) => LoginOutcome::Entered { token, target },
            None => LoginOutcome::Failed,
        },
        Err(error) => LoginOutcome::Refused {
            error,
            page: LoginTemplate::with_message(String::from_str(error.as_str()), credentials),
        },
    }
}

/// Signs a new user up, as a member, and in.
pub fn signup_post(
    users: &mut UserRepository,
    sessions: &mut SessionStore,
    login: LoginForm,
    next: Option<String>,
    now: i64,
) -> (outcome: SignupOutcome)
    ensures
        signed_up(
            old(users)@,
            final(users)@,
            old(sessions)@,
            final(sessions)@,
            outcome,
            login.username@,
            login.password@,
            next,
            now,
        ),
{
    let credentials = login.clone().into_credentials();
    match users.add_user(&credentials, UserRole::MEMBER) {
        Ok(user) => {
            let holder = user.clone();
            match enter(sessions, user, login.password.as_str(), next, now) {
                Some((token, target)) => SignupOutcome::Entered { user: holder, token, target },
                None => SignupOutcome::Failed { user: holder },
            }
        },
        Err(error) => SignupOutcome::Refused {
            error,
            page: SignupTemplate::with_message(String::from_str(error.as_str()), credentials),
        },
    }
}

/// Signs out: expires the session of the request's token.
///
/// `InvalidCredentials` where the request carries no well-formed token;
/// nothing changes then.
pub fn logout_get(sessions: &mut SessionStore, token: Option<&str>, now: i64) -> (outcome: Result<
    (),
    KeyError,
>)
    ensures
        match text_given(token) {
            Some(text) => match uuid_parsed(text) {
                Some(t) => outcome is Ok && old(sessions)@.expired(final(sessions)@, t, now),
                None => outcome == Err::<(), KeyError>(KeyError::InvalidCredentials) && final(sessions)@ == old(sessions)@,
            },
            None => outcome == Err::<(), KeyError>(KeyError::InvalidCredentials) && final(sessions)@ == old(sessions)@,
        },
{
    let text = match token {
        Some(t) => t,
        None => {
            return Err(KeyError::InvalidCredentials);
        },
    };
    match parse_token(text) {
        None => Err(KeyError::InvalidCredentials),
        Some(t) => {
            sessions.expire_session(&t, now);
            Ok(())
        },
    }
}

/// Changes the password of `user` and expires the session of the
/// request's token, whether or not the password was changed: every
/// session opened under the old password is stale.
pub fn change_pass_post(
    users: &mut UserRepository,
    sessions: &mut SessionStore,
    user: &User,
    form: ChangePasswordForm,
    token: Option<&str>,
    now: i64,
) -> (outcome: ChangePassOutcome)
    ensures
        pass_changed(
            old(users)@,
            final(users)@,
            old(sessions)@,
            final(sessions)@,
            outcome,
            user.id,
            form.old_password@,
            form.new_password@,
            text_given(token),
            now,
        ),
{
    let changed = users.change_password(
        user,
        form.old_password.as_str(),
        form.new_password.as_str(),
    );
    match logout_get(sessions, token, now) {
        Err(_) => ChangePassOutcome::BadRequest { changed },
        Ok(()) => match changed {
            Ok(()) => ChangePassOutcome::Changed,
            Err(error) => ChangePassOutcome::Refused {
                error,
                page: ChangePassTemplate::with_message(String::from_str(error.as_str())),
            },
        },
    }
}

} // verus!
