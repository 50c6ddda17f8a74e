//! The accounts, and the keys each account keeps.
//!
//! An account's password yields its master key, and the master key wraps
//! the content key, which is drawn once when the account is made and
//! stays the same when the password changes.
use vstd::prelude::*;

use crate::derivation::{master_key, master_key_derivation, master_key_result};
use crate::envelope::{unwrap, unwrap_spec, wrap_spec, wrap_with, wraps, Sealed, WrappedKey};
use crate::error::KeyError;
use crate::model::calendar::KeyHandler;
use crate::model::user::{User, UserRole, UserView};
use crate::persistence::rows::{
    first_index, first_match, lemma_first_index_is, lemma_first_index_none,
    lemma_first_index_push,
};
use crate::primitives::{
    check_verifier, make_verifier, random_bytes, verifier_accepts, KEY_LEN, NONCE_LEN,
};

verus! {

/// Length in bytes of the salt drawn for a master key.
pub const MASTER_SALT_LEN: usize = 12;

/// A name and the password offered for it.
pub struct LoginCredentials {
    pub username: String,
    pub password: String,
}

/// What is persisted of an account.
#[derive(Debug)]
pub struct UserRow {
    pub id: i32,
    pub username: String,
    pub role: UserRole,
    pub password_hash: String,
    pub master_key_salt: Vec<u8>,
    pub content_key: WrappedKey,
}

/// The mathematical value of an account's row.
pub struct UserRowView {
    pub id: i32,
    pub username: Seq<char>,
    pub role: UserRole,
    pub password_hash: Seq<char>,
    pub master_key_salt: Seq<u8>,
    pub content_key: Sealed,
}

impl View for UserRow {
    type V = UserRowView;

    open spec fn view(&self) -> UserRowView {
        UserRowView {
            id: self.id,
            username: self.username@,
            role: self.role,
            password_hash: self.password_hash@,
            master_key_salt: self.master_key_salt@,
            content_key: self.content_key@,
        }
    }
}

/// The random material an account consumes when it is made or its
/// password changes, and the verifier made for the password.
#[derive(Debug)]
pub struct AccountFresh {
    pub master_key_salt: Vec<u8>,
    pub content_key: Vec<u8>,
    pub content_key_nonce: Vec<u8>,
    pub verifier: String,
}

/// The mathematical value of an account's random material.
pub struct AccountFreshView {
    pub master_key_salt: Seq<u8>,
    pub content_key: Seq<u8>,
    pub content_key_nonce: Seq<u8>,
    pub verifier: Seq<char>,
}

impl View for AccountFresh {
    type V = AccountFreshView;

    open spec fn view(&self) -> AccountFreshView {
        AccountFreshView {
            master_key_salt: self.master_key_salt@,
            content_key: self.content_key@,
            content_key_nonce: self.content_key_nonce@,
            verifier: self.verifier@,
        }
    }
}

/// Whether a password is short enough for the password hash.
pub open spec fn hashable(password: Seq<char>) -> bool {
    vstd::utf8::encode_utf8(password).len() <= crate::primitives::MAX_HASH_INPUT_LEN
}

impl AccountFreshView {
    /// Salt, key and nonce have their lengths, and the verifier accepts
    /// `password`.
    pub open spec fn wf(self, password: Seq<char>) -> bool {
        &&& self.master_key_salt.len() == MASTER_SALT_LEN
        &&& self.content_key.len() == KEY_LEN
        &&& self.content_key_nonce.len() == NONCE_LEN
        &&& verifier_accepts(vstd::utf8::encode_utf8(password), self.verifier)
    }
}

impl AccountFresh {
    /// Draws new material and makes a verifier for `password`. Nothing is
    /// drawn where the password is too long for the password hash.
    pub fn draw(password: &str) -> (fresh: Option<AccountFresh>)
        ensures
            fresh.is_some() == hashable(password@),
            fresh matches Some(f) ==> f@.wf(password@),
    {
        match make_verifier(password.as_bytes()) {
            None => None,
            Some(verifier) => Some(
                AccountFresh {
                    master_key_salt: random_bytes(MASTER_SALT_LEN),
                    content_key: random_bytes(KEY_LEN),
                    content_key_nonce: random_bytes(NONCE_LEN),
                    verifier,
                },
            ),
        }
    }
}

/// The user that a row stands for once `content_key` is opened.
pub open spec fn user_of(row: UserRowView, content_key: Seq<u8>) -> UserView {
    UserView {
        id: row.id,
        username: row.username,
        role: row.role,
        content_key: Some(content_key),
        master_key_salt: row.master_key_salt,
    }
}

/// The row of a new account.
pub open spec fn enroll_spec(
    id: i32,
    username: Seq<char>,
    password: Seq<char>,
    role: UserRole,
    fresh: AccountFreshView,
) -> Result<UserRowView, KeyError> {
    match master_key_result(password, fresh.master_key_salt) {
        Err(e) => Err(e),
        Ok(key) => match wrap_spec(Some(key), fresh.content_key_nonce, fresh.content_key) {
            Err(e) => Err(e),
            Ok(content_key) => Ok(
                UserRowView {
                    id,
                    username,
                    role,
                    password_hash: fresh.verifier,
                    master_key_salt: fresh.master_key_salt,
                    content_key,
                },
            ),
        },
    }
}

/// The content key that `password` opens in a row: `InvalidCredentials`
/// where the stored verifier refuses the password, `StaleKey` where the
/// master key does not open the sealed content key.
pub open spec fn content_key_spec(row: UserRowView, password: Seq<char>) -> Result<
    Seq<u8>,
    KeyError,
> {
    if !verifier_accepts(vstd::utf8::encode_utf8(password), row.password_hash) {
        Err(KeyError::InvalidCredentials)
    } else {
        match master_key_result(password, row.master_key_salt) {
            Err(e) => Err(e),
            Ok(key) => unwrap_spec(Some(key), row.content_key),
        }
    }
}

/// The user that `password` signs in on a row.
pub open spec fn authenticate_spec(row: UserRowView, password: Seq<char>) -> Result<
    UserView,
    KeyError,
> {
    match content_key_spec(row, password) {
        Ok(key) => Ok(user_of(row, key)),
        Err(e) => Err(e),
    }
}

/// The row after its content key, already opened, was sealed again for
/// `new_password`: new verifier, new salt, and the content key under the
/// new master key.
pub open spec fn reseal_spec(
    row: UserRowView,
    content_key: Seq<u8>,
    new_password: Seq<char>,
    fresh: AccountFreshView,
) -> Result<UserRowView, KeyError> {
    match master_key_result(new_password, fresh.master_key_salt) {
        Err(e) => Err(e),
        Ok(key) => match wrap_spec(Some(key), fresh.content_key_nonce, content_key) {
            Err(e) => Err(e),
            Ok(rewrapped) => Ok(
                UserRowView {
                    password_hash: fresh.verifier,
                    master_key_salt: fresh.master_key_salt,
                    content_key: rewrapped,
                    ..row
                },
            ),
        },
    }
}

/// The row after its password changed from `old_password` to
/// `new_password`: the old password opens the content key, which is
/// sealed again, unchanged, for the new one.
pub open spec fn change_password_spec(
    row: UserRowView,
    old_password: Seq<char>,
    new_password: Seq<char>,
    fresh: AccountFreshView,
) -> Result<UserRowView, KeyError> {
    match content_key_spec(row, old_password) {
        Err(e) => Err(e),
        Ok(content_key) => reseal_spec(row, content_key, new_password, fresh),
    }
}

/// The value of a row that may not have been made.
pub open spec fn row_of(r: Result<UserRow, KeyError>) -> Result<UserRowView, KeyError> {
    match r {
        Ok(row) => Ok(row@),
        Err(e) => Err(e),
    }
}

/// The value of a user that may not have been signed in.
pub open spec fn signed_in(r: Result<User, KeyError>) -> Result<UserView, KeyError> {
    match r {
        Ok(u) => Ok(u@),
        Err(e) => Err(e),
    }
}

impl UserRow {
    /// Makes the row of a new account from the given material.
    ///
    /// The master key is derived from the password and the fresh salt and
    /// wraps the fresh content key. The row that is made opens again to
    /// that content key under the same master key.
    pub fn enroll_with(id: i32, user: &LoginCredentials, role: UserRole, fresh: &AccountFresh) -> (row:
        Result<UserRow, KeyError>)
        ensures
            row_of(row) == enroll_spec(id, user.username@, user.password@, role, fresh@),
            row matches Ok(r) ==> wraps(
                master_key(user.password@, r@.master_key_salt),
                r@.content_key,
                fresh@.content_key,
            ),
            master_key(user.password@, fresh@.master_key_salt) matches Some(k) ==> k.len()
                == KEY_LEN,
    {
        let key = master_key_derivation(user.password.as_str(), fresh.master_key_salt.as_slice())?;
        let content_key = wrap_with(
            &KeyHandler::from_key(key),
            fresh.content_key_nonce.as_slice(),
            fresh.content_key.as_slice(),
        )?;
        Ok(
            UserRow {
                id,
                username: user.username.clone(),
                role,
                password_hash: fresh.verifier.clone(),
                master_key_salt: fresh.master_key_salt.clone(),
                content_key,
            },
        )
    }

    /// Opens the content key of the account with `password`.
    pub fn open_content_key(&self, password: &str) -> (key: Result<Vec<u8>, KeyError>)
        ensures
            crate::model::calendar::bytes_of(key) == content_key_spec(self@, password@),
    {
        if !check_verifier(password.as_bytes(), self.password_hash.as_str()) {
            return Err(KeyError::InvalidCredentials);
        }
        let key = master_key_derivation(password, self.master_key_salt.as_slice())?;
        unwrap(&KeyHandler::from_key(key), &self.content_key)
    }

    /// Signs the account's user in with `password`.
    ///
    /// The password is checked against the stored verifier, then yields
    /// the master key, which opens the content key the user will hold.
    pub fn authenticate(&self, password: &str) -> (user: Result<User, KeyError>)
        ensures
            signed_in(user) == authenticate_spec(self@, password@),
    {
        let content_key = self.open_content_key(password)?;
        Ok(
            User::new(
                self.id,
                self.username.clone(),
                self.role,
                content_key,
                self.master_key_salt.clone(),
            ),
        )
    }

    /// Changes the account's password, with the given material.
    ///
    /// The old password is checked and opens the content key, which is
    /// sealed again under the master key of the new password and the
    /// fresh salt. On failure the row stays as it was.
    pub fn change_password_with(
        &mut self,
        old_password: &str,
        new_password: &str,
        fresh: &AccountFresh,
    ) -> (outcome: Result<(), KeyError>)
        ensures
            match change_password_spec(old(self)@, old_password@, new_password@, fresh@) {
                Ok(row) => outcome is Ok && final(self)@ == row && wraps(
                    master_key(new_password@, row.master_key_salt),
                    row.content_key,
                    content_key_spec(old(self)@, old_password@)->Ok_0,
                ),
                Err(e) => outcome == Err::<(), KeyError>(e) && final(self)@ == old(self)@,
            },
            content_key_spec(old(self)@, old_password@) is Ok ==> (master_key(
                new_password@,
                fresh@.master_key_salt,
            ) matches Some(k) ==> k.len() == KEY_LEN),
    {
        let content_key = self.open_content_key(old_password)?;
        self.reseal_with(content_key.as_slice(), new_password, fresh)
    }

    /// Seals an opened content key again for `new_password`, with the
    /// given material: the master key of the new password and the fresh
    /// salt wraps the content key, and the row takes the new verifier. On
    /// failure the row stays as it was.
    pub fn reseal_with(&mut self, content_key: &[u8], new_password: &str, fresh: &AccountFresh) -> (
        outcome: Result<(), KeyError>)
        ensures
            match reseal_spec(old(self)@, content_key@, new_password@, fresh@) {
                Ok(row) => outcome is Ok && final(self)@ == row && wraps(
                    master_key(new_password@, row.master_key_salt),
                    row.content_key,
                    content_key@,
                ),
                Err(e) => outcome == Err::<(), KeyError>(e) && final(self)@ == old(self)@,
            },
            master_key(new_password@, fresh@.master_key_salt) matches Some(k) ==> k.len()
                == KEY_LEN,
    {
        let key = master_key_derivation(new_password, fresh.master_key_salt.as_slice())?;
        let rewrapped = wrap_with(
            &KeyHandler::from_key(key),
            fresh.content_key_nonce.as_slice(),
            content_key,
        )?;
        self.password_hash = fresh.verifier.clone();
        self.master_key_salt = fresh.master_key_salt.clone();
        self.content_key = rewrapped;
        Ok(())
    }
}

/// A password that was just set on a row signs in again and opens the
/// same content key: the one the account was made with, or the one the
/// old password opened.
pub proof fn lemma_password_opens_what_it_sealed(
    row: UserRowView,
    password: Seq<char>,
    content_key: Seq<u8>,
)
    requires
        verifier_accepts(vstd::utf8::encode_utf8(password), row.password_hash),
        wraps(master_key(password, row.master_key_salt), row.content_key, content_key),
    ensures
        authenticate_spec(row, password) == Ok::<UserView, KeyError>(user_of(row, content_key)),
{
}

/// The table of accounts. Row numbers are handed out one after another.
#[derive(Debug)]
pub struct UserRepository {
    pub rows: Vec<UserRow>,
    pub next_id: i32,
}

/// The mathematical value of the table of accounts.
pub struct UsersView {
    pub rows: Seq<UserRowView>,
    pub next_id: i32,
}

/// The values of a run of account rows.
pub open spec fn user_rows_view(rows: Seq<UserRow>) -> Seq<UserRowView> {
    Seq::new(rows.len(), |i: int| rows[i]@)
}

impl View for UserRepository {
    type V = UsersView;

    open spec fn view(&self) -> UsersView {
        UsersView { rows: user_rows_view(self.rows@), next_id: self.next_id }
    }
}

impl UsersView {
    /// The account with the given name.
    pub open spec fn named(self, username: Seq<char>) -> Option<UserRowView> {
        first_match(self.rows, |row: UserRowView| row.username == username)
    }

    /// The position of the account with the given number.
    pub open spec fn index_of(self, id: i32) -> Option<int> {
        first_index(self.rows, |row: UserRowView| row.id == id)
    }

    /// The account with the given number.
    pub open spec fn numbered(self, id: i32) -> Option<UserRowView> {
        first_match(self.rows, |row: UserRowView| row.id == id)
    }

    /// Who `password` signs in under `username`: `NotFound` where no
    /// account has the name.
    pub open spec fn authenticate(self, username: Seq<char>, password: Seq<char>) -> Result<
        UserView,
        KeyError,
    > {
        match self.named(username) {
            None => Err(KeyError::NotFound),
            Some(row) => authenticate_spec(row, password),
        }
    }

    /// The table after an account was added: `Conflict` where the name is
    /// taken, `LimitExceeded` where the row numbers are used up.
    pub open spec fn add(
        self,
        username: Seq<char>,
        password: Seq<char>,
        role: UserRole,
        fresh: AccountFreshView,
    ) -> Result<UsersView, KeyError> {
        if self.named(username) is Some {
            Err(KeyError::Conflict)
        } else if self.next_id == i32::MAX {
            Err(KeyError::LimitExceeded)
        } else {
            match enroll_spec(self.next_id, username, password, role, fresh) {
                Err(e) => Err(e),
                Ok(row) => Ok(
                    UsersView { rows: self.rows.push(row), next_id: (self.next_id + 1) as i32 },
                ),
            }
        }
    }

    /// The table after the account numbered `id` changed its password:
    /// `NotFound` where there is no such account.
    pub open spec fn change_password(
        self,
        id: i32,
        old_password: Seq<char>,
        new_password: Seq<char>,
        fresh: AccountFreshView,
    ) -> Result<UsersView, KeyError> {
        match self.index_of(id) {
            None => Err(KeyError::NotFound),
            Some(i) => match change_password_spec(self.rows[i], old_password, new_password, fresh) {
                Err(e) => Err(e),
                Ok(row) => Ok(UsersView { rows: self.rows.update(i, row), ..self }),
            },
        }
    }
}

/// What adding an account leaves behind, whatever random material was
/// drawn: `Conflict` where the name is taken; `LimitExceeded` where the
/// row numbers are used up or the password is too long; else the table
/// with the new row, whose user signs in again with the same password.
pub open spec fn user_added(
    before: UsersView,
    after: UsersView,
    added: Result<UserView, KeyError>,
    username: Seq<char>,
    password: Seq<char>,
    role: UserRole,
) -> bool {
    if before.named(username) is Some {
        added == Err::<UserView, KeyError>(KeyError::Conflict) && after == before
    } else if before.next_id == i32::MAX || !hashable(password) {
        added == Err::<UserView, KeyError>(KeyError::LimitExceeded) && after == before
    } else {
        added is Ok && match added {
            Ok(user) => exists|fresh: AccountFreshView|
                {
                    &&& fresh.wf(password)
                    &&& #[trigger] before.add(username, password, role, fresh) == Ok::<
                        UsersView,
                        KeyError,
                    >(after)
                    &&& user == user_of(after.rows.last(), fresh.content_key)
                    &&& authenticate_spec(after.rows.last(), password) == Ok::<
                        UserView,
                        KeyError,
                    >(user)
                },
            Err(e) => after == before && e == KeyError::LimitExceeded,
        }
    }
}

/// What changing a password leaves behind, whatever random material was
/// drawn: `NotFound` where the account is gone; the error of the old
/// password where it does not open the account; `LimitExceeded` where the
/// new password is too long for the hash or the content key for the
/// cipher; else the table with the row changed.
pub open spec fn password_changed(
    before: UsersView,
    after: UsersView,
    outcome: Result<(), KeyError>,
    id: i32,
    old_password: Seq<char>,
    new_password: Seq<char>,
) -> bool {
    match before.index_of(id) {
        None => outcome == Err::<(), KeyError>(KeyError::NotFound) && after == before,
        Some(i) => match content_key_spec(before.rows[i], old_password) {
            Err(e) => outcome == Err::<(), KeyError>(e) && after == before,
            Ok(content_key) => outcome is Ok == (hashable(new_password)
                && crate::primitives::sealable_len(content_key.len())) && match outcome {
                Ok(_) => exists|fresh: AccountFreshView|
                    {
                        &&& fresh.wf(new_password)
                        &&& #[trigger] before.change_password(
                            id,
                            old_password,
                            new_password,
                            fresh,
                        ) == Ok::<UsersView, KeyError>(after)
                        &&& authenticate_spec(after.rows[i], new_password) == Ok::<
                            UserView,
                            KeyError,
                        >(user_of(after.rows[i], content_key))
                    },
                Err(e) => after == before && e == KeyError::LimitExceeded,
            },
        },
    }
}

impl UserRepository {
    /// A table without accounts.
    pub fn new() -> (repository: Self)
        ensures
            repository@.rows == Seq::<UserRowView>::empty(),
            repository@.next_id == 1,
    {
        let repository = UserRepository { rows: Vec::new(), next_id: 1 };
        assert(repository@.rows =~= Seq::<UserRowView>::empty());
        repository
    }

    /// The position of the account with the given name.
    pub fn position_named(&self, username: &String) -> (position: Option<usize>)
        ensures
            match position {
                Some(i) => i < self.rows@.len() && self@.named(username@) == Some(
                    self.rows@[i as int]@,
                ),
                None => self@.named(username@) is None,
            },
    {
        let ghost wanted = |row: UserRowView| row.username == username@;
        let mut i: usize = 0;
        while i < self.rows.len()
            invariant
                i <= self.rows@.len(),
                wanted == (|row: UserRowView| row.username == username@),
                forall|j: int| 0 <= j < i ==> !wanted(#[trigger] self@.rows[j]),
            decreases self.rows@.len() - i,
        {
            if self.rows[i].username == *username {
                proof {
                    lemma_first_index_is(self@.rows, wanted, i as int);
                }
                return Some(i);
            }
            i = i + 1;
        }
        proof {
            lemma_first_index_none(self@.rows, wanted);
        }
        None
    }

    /// The position of the account with the given number.
    pub fn position_numbered(&self, id: i32) -> (position: Option<usize>)
        ensures
            match position {
                Some(i) => i < self.rows@.len() && self@.index_of(id) == Some(i as int),
                None => self@.index_of(id) is None,
            },
    {
        let ghost wanted = |row: UserRowView| row.id == id;
        let mut i: usize = 0;
        while i < self.rows.len()
            invariant
                i <= self.rows@.len(),
                wanted == (|row: UserRowView| row.id == id),
                forall|j: int| 0 <= j < i ==> !wanted(#[trigger] self@.rows[j]),
            decreases self.rows@.len() - i,
        {
            if self.rows[i].id == id {
                proof {
                    lemma_first_index_is(self@.rows, wanted, i as int);
                }
                return Some(i);
            }
            i = i + 1;
        }
        proof {
            lemma_first_index_none(self@.rows, wanted);
        }
        None
    }

    /// The account that has the name of `user`, as a user who holds no
    /// key.
    pub fn get_user(&self, user: &User) -> (found: Option<User>)
        ensures
            match self@.named(user.username@) {
                Some(row) => found matches Some(u) && u@ == (UserView {
                    content_key: None,
                    ..user_of(row, Seq::empty())
                }),
                None => found is None,
            },
    {
        match self.position_named(&user.username) {
            None => None,
            Some(i) => Some(
                User {
                    id: self.rows[i].id,
                    username: self.rows[i].username.clone(),
                    role: self.rows[i].role,
                    content_key_handler: KeyHandler::empty(),
                    master_key_salt: self.rows[i].master_key_salt.clone(),
                },
            ),
        }
    }

    /// Signs in the user that the credentials name.
    ///
    /// `NotFound` where no account has the name, `InvalidCredentials`
    /// where the password is not the account's, `StaleKey` where the
    /// account's keys do not open.
    pub fn authenticate_user(&self, user: &LoginCredentials) -> (signed: Result<User, KeyError>)
        ensures
            signed_in(signed) == self@.authenticate(user.username@, user.password@),
    {
        match self.position_named(&user.username) {
            None => Err(KeyError::NotFound),
            Some(i) => self.rows[i].authenticate(user.password.as_str()),
        }
    }

    /// Adds an account, with the given material, and hands out its user,
    /// who holds the fresh content key.
    pub fn add_user_with(&mut self, user: &LoginCredentials, role: UserRole, fresh: &AccountFresh) -> (
        added: Result<User, KeyError>)
        ensures
            match old(self)@.add(user.username@, user.password@, role, fresh@) {
                Ok(table) => {
                    &&& final(self)@ == table
                    &&& signed_in(added) == Ok::<UserView, KeyError>(
                        user_of(table.rows.last(), fresh@.content_key),
                    )
                    &&& wraps(
                        master_key(user.password@, fresh@.master_key_salt),
                        table.rows.last().content_key,
                        fresh@.content_key,
                    )
                },
                Err(e) => final(self)@ == old(self)@ && signed_in(added) == Err::<
                    UserView,
                    KeyError,
                >(e),
            },
            old(self)@.named(user.username@) is None && old(self)@.next_id != i32::MAX ==> (
            master_key(user.password@, fresh@.master_key_salt) matches Some(k) ==> k.len()
                == KEY_LEN),
    {
        if self.position_named(&user.username).is_some() {
            return Err(KeyError::Conflict);
        }
        if self.next_id == i32::MAX {
            return Err(KeyError::LimitExceeded);
        }
        let id = self.next_id;
        let row = UserRow::enroll_with(id, user, role, fresh)?;
        let added = User::new(
            id,
            user.username.clone(),
            role,
            fresh.content_key.clone(),
            fresh.master_key_salt.clone(),
        );
        self.rows.push(row);
        self.next_id = id + 1;
        assert(final(self)@.rows =~= old(self)@.rows.push(row@));
        Ok(added)
    }

    /// Adds an account, drawing the material. Whoever was added signs in
    /// again with the same credentials.
    pub fn add_user(&mut self, user: &LoginCredentials, role: UserRole) -> (added: Result<
        User,
        KeyError,
    >)
        ensures
            user_added(
                old(self)@,
                final(self)@,
                signed_in(added),
                user.username@,
                user.password@,
                role,
            ),
    {
        if self.position_named(&user.username).is_some() {
            return Err(KeyError::Conflict);
        }
        match AccountFresh::draw(user.password.as_str()) {
            None => Err(KeyError::LimitExceeded),
            Some(fresh) => {
                let ghost before = self@;
                let added = self.add_user_with(user, role, &fresh);
                proof {
                    if added is Ok {
                        assert(before.add(user.username@, user.password@, role, fresh@) == Ok::<
                            UsersView,
                            KeyError,
                        >(self@));
                    }
                }
                added
            },
        }
    }

    /// Changes the password of `user`'s account, with the given material.
    ///
    /// `NotFound` where the account is gone, `InvalidCredentials` where
    /// `old_password` is not the account's. Every session that was opened
    /// under the old password wraps the old master key and has to be
    /// expired by the caller.
    pub fn change_password_with(
        &mut self,
        user: &User,
        old_password: &str,
        new_password: &str,
        fresh: &AccountFresh,
    ) -> (outcome: Result<(), KeyError>)
        ensures
            match old(self)@.change_password(user.id, old_password@, new_password@, fresh@) {
                Ok(table) => outcome is Ok && final(self)@ == table,
                Err(e) => outcome == Err::<(), KeyError>(e) && final(self)@ == old(self)@,
            },
            outcome is Ok ==> {
                let i = old(self)@.index_of(user.id)->0;
                wraps(
                    master_key(new_password@, fresh@.master_key_salt),
                    final(self)@.rows[i].content_key,
                    content_key_spec(old(self)@.rows[i], old_password@)->Ok_0,
                )
            },
            old(self)@.index_of(user.id) matches Some(i) ==> (content_key_spec(
                old(self)@.rows[i],
                old_password@,
            ) is Ok ==> (master_key(new_password@, fresh@.master_key_salt) matches Some(k)
                ==> k.len() == KEY_LEN)),
    {
        match self.position_numbered(user.id) {
            None => Err(KeyError::NotFound),
            Some(i) => {
                let ghost before = self@;
                assert(before.rows[i as int] == self.rows@[i as int]@);
                let outcome = self.rows[i].change_password_with(old_password, new_password, fresh);
                proof {
                    assert(self@.rows[i as int] == self.rows@[i as int]@);
                    assert(self@.rows =~= before.rows.update(i as int, self@.rows[i as int]));
                    if outcome is Err {
                        assert(self@.rows =~= before.rows);
                    }
                }
                outcome
            },
        }
    }

    /// Changes the password of `user`'s account, drawing the material.
    pub fn change_password(&mut self, user: &User, old_password: &str, new_password: &str) -> (outcome:
        Result<(), KeyError>)
        ensures
            password_changed(
                old(self)@,
                final(self)@,
                outcome,
                user.id,
                old_password@,
                new_password@,
            ),
    {
        let i = match self.position_numbered(user.id) {
            None => {
                return Err(KeyError::NotFound);
            },
            Some(i) => i,
        };
        assert(self@.rows[i as int] == self.rows@[i as int]@);
        let content_key = self.rows[i].open_content_key(old_password)?;
        match AccountFresh::draw(new_password) {
            None => Err(KeyError::LimitExceeded),
            Some(fresh) => {
                let ghost before = self@;
                let outcome = self.rows[i].reseal_with(
                    content_key.as_slice(),
                    new_password,
                    &fresh,
                );
                proof {
                    assert(self@.rows[i as int] == self.rows@[i as int]@);
                    assert(self@.rows =~= before.rows.update(i as int, self@.rows[i as int]));
                    if outcome is Ok {
                        assert(before.change_password(
                            user.id,
                            old_password@,
                            new_password@,
                            fresh@,
                        ) == Ok::<UsersView, KeyError>(self@));
                    } else {
                        assert(self@.rows =~= before.rows);
                    }
                }
                outcome
            },
        }
    }
}

/// Who was added to the table signs in with the same name and password
/// and is the same user, holding the same content key.
pub proof fn lemma_added_user_signs_in(
    before: UsersView,
    after: UsersView,
    user: UserView,
    username: Seq<char>,
    password: Seq<char>,
    role: UserRole,
)
    requires
        user_added(before, after, Ok(user), username, password, role),
    ensures
        after.authenticate(username, password) == Ok::<UserView, KeyError>(user),
        user.username == username,
        user.role == role,
        user.id == before.next_id,
{
    let fresh = choose|fresh: AccountFreshView|
        {
            &&& fresh.wf(password)
            &&& #[trigger] before.add(username, password, role, fresh) == Ok::<
                UsersView,
                KeyError,
            >(after)
            &&& user == user_of(after.rows.last(), fresh.content_key)
            &&& authenticate_spec(after.rows.last(), password) == Ok::<UserView, KeyError>(user)
        };
    let row = after.rows.last();
    lemma_first_index_push(before.rows, row, |r: UserRowView| r.username == username);
}

/// A change of password leaves every other account as it was, and the
/// changed account signs in with the new password to the content key it
/// had before.
pub proof fn lemma_changed_password_signs_in(
    before: UsersView,
    after: UsersView,
    id: i32,
    old_password: Seq<char>,
    new_password: Seq<char>,
)
    requires
        password_changed(before, after, Ok(()), id, old_password, new_password),
    ensures
        before.index_of(id) matches Some(i) && after.rows.len() == before.rows.len()
            && authenticate_spec(after.rows[i], new_password) == Ok::<UserView, KeyError>(
            user_of(after.rows[i], content_key_spec(before.rows[i], old_password)->Ok_0),
        ) && after.rows[i].id == id && after.rows[i].username == before.rows[i].username
            && forall|j: int|
            0 <= j < before.rows.len() && j != i ==> after.rows[j] == before.rows[j],
{
    crate::persistence::rows::lemma_first_index(before.rows, |row: UserRowView| row.id == id);
}

} // verus!
