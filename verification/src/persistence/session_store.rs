//! Sessions: a token stands in for a password.
//!
//! Only the hash of a token is persisted. Beside it lies the user's master
//! key, sealed under a key that the token alone yields: whoever presents
//! the token opens the master key, and with it the user's content key.
use vstd::prelude::*;

use lru::LruCache;

use crate::derivation::{
    context_key_derivation, master_key_derivation, master_key_result, token_key,
};
use crate::envelope::{unwrap_spec, wrap_spec, wrap_with, wraps, Sealed, WrappedKey};
use crate::error::KeyError;
use crate::model::calendar::{bytes_of, KeyHandler, SESSION_LABEL};
use crate::model::user::{User, UserView};
use crate::persistence::rows::{first_match, lemma_first_index_is, lemma_first_index_none};
use crate::persistence::session_cache::{
    after_pop, after_put, cache_entries, cache_get, cache_limit, cache_new, cache_pop, cache_put,
    index_of, live_at, used, Entry, Session, SessionView,
};
use crate::persistence::user_repository::{user_of, UserRepository, UsersView};
use crate::primitives::{
    digest, hex_encode, hex_text, random_bytes, random_token, sha256, NONCE_LEN,
};

verus! {

/// Number of resolved sessions the cache holds at most.
pub const SESSION_CACHE_LIMIT: usize = 100;

/// How long a session is valid from its creation, in microseconds: a day.
pub const SESSION_LIFETIME: i64 = 86_400_000_000;

/// What is persisted of a session: never the token, only its hash.
#[derive(Debug)]
pub struct SessionRow {
    pub token_hash: String,
    pub user_id: i32,
    pub created_at: i64,
    pub expires_at: i64,
    pub master_key: WrappedKey,
}

/// The mathematical value of a session's row.
pub struct SessionRowView {
    pub token_hash: Seq<char>,
    pub user_id: i32,
    pub created_at: i64,
    pub expires_at: i64,
    pub master_key: Sealed,
}

impl View for SessionRow {
    type V = SessionRowView;

    open spec fn view(&self) -> SessionRowView {
        SessionRowView {
            token_hash: self.token_hash@,
            user_id: self.user_id,
            created_at: self.created_at,
            expires_at: self.expires_at,
            master_key: self.master_key@,
        }
    }
}

/// The persisted sessions and the cache in front of them.
pub struct SessionStore {
    pub rows: Vec<SessionRow>,
    cached_sessions: LruCache<[u8; 32], Session>,
}

/// The mathematical value of a session store.
pub struct StoreView {
    pub rows: Seq<SessionRowView>,
    pub cache: Seq<Entry>,
    pub limit: nat,
}

/// The values of a run of session rows.
pub open spec fn session_rows_view(rows: Seq<SessionRow>) -> Seq<SessionRowView> {
    Seq::new(rows.len(), |i: int| rows[i]@)
}

impl View for SessionStore {
    type V = StoreView;

    closed spec fn view(&self) -> StoreView {
        StoreView {
            rows: session_rows_view(self.rows@),
            cache: cache_entries(self.cached_sessions),
            limit: cache_limit(self.cached_sessions),
        }
    }
}

/// The name under which a token's session is persisted.
pub open spec fn row_name(token: Seq<u8>) -> Seq<char> {
    hex_text(sha256(token))
}

/// The content key a token opens: the token's key opens the master key,
/// and the master key opens the content key.
pub open spec fn content_key_of(token: Seq<u8>, master_key: Sealed, content_key: Sealed) -> Result<
    Seq<u8>,
    KeyError,
> {
    match unwrap_spec(Some(token_key(token)), master_key) {
        Ok(key) => unwrap_spec(Some(key), content_key),
        Err(e) => Err(e),
    }
}

/// The row persisted for a token that is still valid at `now`.
pub open spec fn live_row(rows: Seq<SessionRowView>, token: Seq<u8>, now: i64) -> Option<
    SessionRowView,
> {
    first_match(
        rows,
        |row: SessionRowView| row.token_hash == row_name(token) && live_at(row.expires_at, now),
    )
}

/// The session that the persisted rows give a token at `now`: none
/// where the row is missing or expired, the user is gone, or the keys do
/// not open.
pub open spec fn persisted_session(
    rows: Seq<SessionRowView>,
    users: UsersView,
    token: Seq<u8>,
    now: i64,
) -> Option<SessionView> {
    match live_row(rows, token, now) {
        None => None,
        Some(row) => match users.numbered(row.user_id) {
            None => None,
            Some(account) => match content_key_of(token, row.master_key, account.content_key) {
                Err(_) => None,
                Ok(key) => Some(
                    SessionView {
                        id: sha256(token),
                        user: user_of(account, key),
                        created_at: row.created_at,
                        expires_at: row.expires_at,
                    },
                ),
            },
        },
    }
}

/// The rows after the sessions of a token were expired at `now`.
pub open spec fn expired_rows(rows: Seq<SessionRowView>, token: Seq<u8>, now: i64) -> Seq<
    SessionRowView,
> {
    Seq::new(
        rows.len(),
        |i: int|
            if rows[i].token_hash == row_name(token) {
                SessionRowView { expires_at: now, ..rows[i] }
            } else {
                rows[i]
            },
    )
}

impl StoreView {
    /// What the cache answers for a token whose entry is at position
    /// `i`, and the cache afterwards.
    pub open spec fn resolve_cached(self, token: Seq<u8>, now: i64, i: int) -> (
        Option<SessionView>,
        Seq<Entry>,
    ) {
        if live_at(self.cache[i].session.expires_at, now) {
            (Some(self.cache[i].session), used(self.cache, i))
        } else {
            (None, after_pop(used(self.cache, i), sha256(token)))
        }
    }

    /// Whom a token resolves to at `now`, and the cache afterwards.
    ///
    /// A cached session answers while it is valid and becomes the most
    /// recently used; an expired one is evicted. On a miss the persisted
    /// rows answer, and what they give is cached.
    pub open spec fn resolve(self, users: UsersView, token: Seq<u8>, now: i64) -> (
        Option<SessionView>,
        Seq<Entry>,
    ) {
        match index_of(self.cache, sha256(token)) {
            Some(i) => self.resolve_cached(token, now, i),
            None => match persisted_session(self.rows, users, token, now) {
                None => (None, self.cache),
                Some(session) => (
                    Some(session),
                    after_put(self.cache, self.limit, Entry { key: sha256(token), session }),
                ),
            },
        }
    }

    /// The store after a session was added for `user`.
    pub open spec fn add(
        self,
        user: UserView,
        password: Seq<char>,
        now: i64,
        token: Seq<u8>,
        nonce: Seq<u8>,
    ) -> Result<StoreView, KeyError> {
        match master_key_result(password, user.master_key_salt) {
            Err(e) => Err(e),
            Ok(key) => match wrap_spec(Some(token_key(token)), nonce, key) {
                Err(e) => Err(e),
                Ok(master_key) => if now > i64::MAX - SESSION_LIFETIME {
                    Err(KeyError::LimitExceeded)
                } else {
                    Ok(
                        StoreView {
                            rows: self.rows.push(
                                SessionRowView {
                                    token_hash: row_name(token),
                                    user_id: user.id,
                                    created_at: now,
                                    expires_at: (now + SESSION_LIFETIME) as i64,
                                    master_key,
                                },
                            ),
                            cache: after_put(
                                self.cache,
                                self.limit,
                                Entry {
                                    key: sha256(token),
                                    session: SessionView {
                                        id: sha256(token),
                                        user,
                                        created_at: now,
                                        expires_at: (now + SESSION_LIFETIME) as i64,
                                    },
                                },
                            ),
                            limit: self.limit,
                        },
                    )
                },
            },
        }
    }

    /// Whether `after` is the store once the sessions of a token were
    /// expired at `now`: their rows expire at that moment, and the cache
    /// holds the token no longer.
    pub open spec fn expired(self, after: StoreView, token: Seq<u8>, now: i64) -> bool {
        &&& after.rows == expired_rows(self.rows, token, now)
        &&& after.cache == after_pop(self.cache, sha256(token))
        &&& index_of(after.cache, sha256(token)) is None
        &&& after.limit == self.limit
    }
}

/// Whether a session can be added for a user with this password at
/// `now`: the password hash accepts password and salt, and the moment the
/// session expires can still be counted.
pub open spec fn addable(user: UserView, password: Seq<char>, now: i64) -> bool {
    master_key_result(password, user.master_key_salt) is Ok && now <= i64::MAX - SESSION_LIFETIME
}

/// What adding a session leaves behind, whatever token and nonce were
/// drawn: on success the store with the new session, on failure the store
/// as it was.
pub open spec fn session_added(
    before: StoreView,
    after: StoreView,
    added: Result<Seq<u8>, KeyError>,
    user: UserView,
    password: Seq<char>,
    now: i64,
) -> bool {
    &&& added is Ok == addable(user, password, now)
    &&& match added {
        Ok(token) => exists|nonce: Seq<u8>|
            nonce.len() == NONCE_LEN && #[trigger] before.add(user, password, now, token, nonce)
                == Ok::<StoreView, KeyError>(after),
        Err(e) => after == before && e == KeyError::LimitExceeded,
    }
}

/// The bytes of a token that may not have been handed out.
pub open spec fn token_of(r: Result<[u8; 16], KeyError>) -> Result<Seq<u8>, KeyError> {
    match r {
        Ok(t) => Ok(t@),
        Err(e) => Err(e),
    }
}

/// The value of a session that may be absent.
pub open spec fn session_of(s: Option<Session>) -> Option<SessionView> {
    match s {
        Some(session) => Some(session@),
        None => None,
    }
}

/// The user of a session that may be absent.
pub open spec fn user_in(s: Option<SessionView>) -> Option<UserView> {
    match s {
        Some(session) => Some(session.user),
        None => None,
    }
}

/// The value of a user who may be absent.
pub open spec fn resolved(u: Option<User>) -> Option<UserView> {
    match u {
        Some(user) => Some(user@),
        None => None,
    }
}

impl SessionStore {
    /// A store without sessions, with an empty cache.
    pub fn new() -> (store: Self)
        ensures
            store@.rows == Seq::<SessionRowView>::empty(),
            store@.cache == Seq::<Entry>::empty(),
            store@.limit == SESSION_CACHE_LIMIT,
    {
        let store = SessionStore {
            rows: Vec::new(),
            cached_sessions: cache_new(SESSION_CACHE_LIMIT),
        };
        assert(store@.rows =~= Seq::<SessionRowView>::empty());
        store
    }

    /// A store with the given persisted rows, with an empty cache.
    pub fn with_rows(rows: Vec<SessionRow>) -> (store: Self)
        ensures
            store@.rows == session_rows_view(rows@),
            store@.cache == Seq::<Entry>::empty(),
            store@.limit == SESSION_CACHE_LIMIT,
    {
        SessionStore { rows, cached_sessions: cache_new(SESSION_CACHE_LIMIT) }
    }

    /// The position of the row persisted for a token that is still valid.
    fn position_live(&self, token: Ghost<Seq<u8>>, name: &String, now: i64) -> (position: Option<
        usize,
    >)
        requires
            name@ == row_name(token@),
        ensures
            match position {
                Some(i) => i < self.rows@.len() && live_row(self@.rows, token@, now) == Some(
                    self.rows@[i as int]@,
                ),
                None => live_row(self@.rows, token@, now) is None,
            },
    {
        let ghost wanted = |row: SessionRowView|
            row.token_hash == row_name(token@) && live_at(row.expires_at, now);
        let mut i: usize = 0;
        while i < self.rows.len()
            invariant
                i <= self.rows@.len(),
                name@ == row_name(token@),
                wanted == (|row: SessionRowView|
                    row.token_hash == row_name(token@) && live_at(row.expires_at, now)),
                forall|j: int| 0 <= j < i ==> !wanted(#[trigger] self@.rows[j]),
            decreases self.rows@.len() - i,
        {
            if self.rows[i].token_hash == *name && self.rows[i].expires_at > now {
                proof {
                    lemma_first_index_is(self@.rows, wanted, i as int);
                }
                return Some(i);
            }
            i = i + 1;
        }
        proof {
            lemma_first_index_none(self@.rows, wanted);
        }
        None
    }

    /// Opens the content key that a token gives access to.
    ///
    /// The token's key opens the sealed master key, the master key the
    /// sealed content key; `StaleKey` where either does not open.
    pub fn get_content_key(
        token: &[u8; 16],
        master_key_encr: &[u8],
        master_key_salt: &[u8],
        content_key_encr: &[u8],
        content_key_salt: &[u8],
    ) -> (key: Result<Vec<u8>, KeyError>)
        ensures
            bytes_of(key) == content_key_of(
                token@,
                Sealed { nonce: master_key_salt@, bytes: master_key_encr@ },
                Sealed { nonce: content_key_salt@, bytes: content_key_encr@ },
            ),
    {
        let token_key = KeyHandler::from_key(
            context_key_derivation(token.as_slice(), SESSION_LABEL),
        );
        let master_key = token_key.decrypt(master_key_encr, master_key_salt)?;
        KeyHandler::from_key(master_key).decrypt(content_key_encr, content_key_salt)
    }

    /// Seals the master key of `password` and `master_key_salt` under the
    /// key of `token`, with the given nonce.
    pub fn get_encrypted_master_key(
        token: &[u8; 16],
        password: &str,
        master_key_salt: &[u8],
        nonce: &[u8],
    ) -> (sealed: Result<WrappedKey, KeyError>)
        ensures
            match master_key_result(password@, master_key_salt@) {
                Err(e) => crate::envelope::sealed_of(sealed) == Err::<Sealed, KeyError>(e),
                Ok(key) => crate::envelope::sealed_of(sealed) == wrap_spec(
                    Some(token_key(token@)),
                    nonce@,
                    key,
                ) && (sealed matches Ok(w) ==> wraps(Some(token_key(token@)), w@, key))
                    && key.len() == crate::primitives::KEY_LEN && token_key(token@).len()
                    == crate::primitives::KEY_LEN,
            },
    {
        let master_key = master_key_derivation(password, master_key_salt)?;
        let token_key = KeyHandler::from_key(
            context_key_derivation(token.as_slice(), SESSION_LABEL),
        );
        wrap_with(&token_key, nonce, master_key.as_slice())
    }

    /// The session that the persisted rows give a token at `now`.
    pub fn load_session(&self, users: &UserRepository, token: &[u8; 16], now: i64) -> (session:
        Option<Session>)
        ensures
            session_of(session) == persisted_session(self@.rows, users@, token@, now),
    {
        let token_hash = digest(token.as_slice());
        let name = hex_encode(token_hash.as_slice());
        let i = self.position_live(Ghost(token@), &name, now)?;
        let row = &self.rows[i];
        let j = users.position_numbered(row.user_id)?;
        let account = &users.rows[j];
        match Self::get_content_key(
            token,
            row.master_key.ciphertext.as_slice(),
            row.master_key.nonce.as_slice(),
            account.content_key.ciphertext.as_slice(),
            account.content_key.nonce.as_slice(),
        ) {
            Err(_) => None,
            Ok(content_key) => {
                let user = User::new(
                    account.id,
                    account.username.clone(),
                    account.role,
                    content_key,
                    account.master_key_salt.clone(),
                );
                Some(
                    Session {
                        id: token_hash,
                        user,
                        created_at: row.created_at,
                        expires_at: row.expires_at,
                    },
                )
            },
        }
    }

    /// The name under which the session of a token is persisted: the
    /// hash of the token in hexadecimal.
    pub fn row_name(token: &[u8; 16]) -> (name: String)
        ensures
            name@ == row_name(token@),
    {
        let token_hash = digest(token.as_slice());
        hex_encode(token_hash.as_slice())
    }

    /// Asks the cache alone for the session of a token.
    ///
    /// A cached session that is still valid is the answer and becomes the
    /// most recently used; an expired one is evicted and the answer is
    /// that there is no session. Where the cache does not know the token,
    /// there is no answer and nothing changes: the persisted rows decide.
    pub fn lookup(&mut self, token: &[u8; 16], now: i64) -> (answer: Option<Option<Session>>)
        ensures
            final(self)@.rows == old(self)@.rows,
            final(self)@.limit == old(self)@.limit,
            match index_of(old(self)@.cache, sha256(token@)) {
                Some(i) => answer matches Some(session) && session_of(session) == old(
                    self,
                )@.resolve_cached(token@, now, i).0 && final(self)@.cache == old(
                    self,
                )@.resolve_cached(token@, now, i).1,
                None => answer is None && final(self)@ == old(self)@,
            },
    {
        let token_hash = digest(token.as_slice());
        match cache_get(&mut self.cached_sessions, &token_hash) {
            Some(session) => {
                if session.is_expired(now) {
                    cache_pop(&mut self.cached_sessions, &token_hash);
                    Some(None)
                } else {
                    Some(Some(session))
                }
            },
            None => None,
        }
    }

    /// Resolves a token to its session at the moment `now`.
    ///
    /// The cache is asked first. On a miss the persisted rows are read,
    /// and what they give is cached. The persisted rows are never changed.
    pub fn get_session(&mut self, users: &UserRepository, token: &[u8; 16], now: i64) -> (session:
        Option<Session>)
        ensures
            session_of(session) == old(self)@.resolve(users@, token@, now).0,
            final(self)@.cache == old(self)@.resolve(users@, token@, now).1,
            final(self)@.rows == old(self)@.rows,
            final(self)@.limit == old(self)@.limit,
    {
        match self.lookup(token, now) {
            Some(answer) => answer,
            None => {
                match self.load_session(users, token, now) {
                    None => None,
                    Some(session) => {
                        cache_put(&mut self.cached_sessions, session.id, session.clone());
                        Some(session)
                    },
                }
            },
        }
    }

    /// Resolves a token to its user at the moment `now`: nobody where the
    /// session is missing or expired.
    pub fn get_user(&mut self, users: &UserRepository, token: &[u8; 16], now: i64) -> (user: Option<
        User,
    >)
        ensures
            resolved(user) == user_in(old(self)@.resolve(users@, token@, now).0),
            final(self)@.cache == old(self)@.resolve(users@, token@, now).1,
            final(self)@.rows == old(self)@.rows,
            final(self)@.limit == old(self)@.limit,
    {
        match self.get_session(users, token, now) {
            Some(session) => Some(session.user),
            None => None,
        }
    }

    /// Adds a session for `user` under the given token and nonce.
    ///
    /// The user's master key, derived from `password`, is sealed under the
    /// token's key and persisted beside the hash of the token; the session
    /// is cached. On failure nothing changes.
    pub fn add_user_with(
        &mut self,
        user: User,
        password: &str,
        now: i64,
        token: [u8; 16],
        nonce: &[u8],
    ) -> (added: Result<[u8; 16], KeyError>)
        ensures
            match old(self)@.add(user@, password@, now, token@, nonce@) {
                Ok(store) => added == Ok::<[u8; 16], KeyError>(token) && final(self)@ == store
                    && wraps(
                    Some(token_key(token@)),
                    store.rows.last().master_key,
                    master_key_result(password@, user@.master_key_salt)->Ok_0,
                ),
                Err(e) => added == Err::<[u8; 16], KeyError>(e) && final(self)@ == old(self)@,
            },
            master_key_result(password@, user@.master_key_salt) matches Ok(key) ==> key.len()
                == crate::primitives::KEY_LEN && token_key(token@).len()
                == crate::primitives::KEY_LEN,
    {
        let master_key = Self::get_encrypted_master_key(
            &token,
            password,
            user.master_key_salt.as_slice(),
            nonce,
        )?;
        if now > i64::MAX - SESSION_LIFETIME {
            return Err(KeyError::LimitExceeded);
        }
        let token_hash = digest(token.as_slice());
        let row = SessionRow {
            token_hash: hex_encode(token_hash.as_slice()),
            user_id: user.id,
            created_at: now,
            expires_at: now + SESSION_LIFETIME,
            master_key,
        };
        let session = Session {
            id: token_hash,
            user,
            created_at: now,
            expires_at: now + SESSION_LIFETIME,
        };
        self.rows.push(row);
        cache_put(&mut self.cached_sessions, token_hash, session);
        assert(final(self)@.rows =~= old(self)@.rows.push(row@));
        Ok(token)
    }

    /// Adds a session for `user` and hands out its token, which is drawn
    /// afresh and persisted nowhere.
    pub fn add_user(&mut self, user: User, password: &str, now: i64) -> (added: Result<
        [u8; 16],
        KeyError,
    >)
        ensures
            session_added(old(self)@, final(self)@, token_of(added), user@, password@, now),
    {
        let token = random_token();
        let nonce = random_bytes(NONCE_LEN);
        let ghost before = self@;
        let ghost holder = user@;
        let added = self.add_user_with(user, password, now, token, nonce.as_slice());
        proof {
            if added is Ok {
                assert(before.add(holder, password@, now, token@, nonce@) == Ok::<
                    StoreView,
                    KeyError,
                >(self@));
            }
        }
        added
    }

    /// Expires the sessions of a token at the moment `now`.
    ///
    /// Their rows expire at that moment and the cache forgets the token at
    /// once.
    pub fn expire_session(&mut self, session_id: &[u8; 16], now: i64)
        ensures
            old(self)@.expired(final(self)@, session_id@, now),
    {
        let token_hash = digest(session_id.as_slice());
        let name = hex_encode(token_hash.as_slice());
        let mut i: usize = 0;
        while i < self.rows.len()
            invariant
                i <= self.rows@.len(),
                self.rows@.len() == old(self).rows@.len(),
                name@ == row_name(session_id@),
                self.cached_sessions == old(self).cached_sessions,
                forall|j: int|
                    0 <= j < i ==> (#[trigger] self.rows@[j])@ == expired_rows(
                        old(self)@.rows,
                        session_id@,
                        now,
                    )[j],
                forall|j: int| i <= j < self.rows@.len() ==> self.rows@[j] == old(self).rows@[j],
            decreases self.rows@.len() - i,
        {
            if self.rows[i].token_hash == name {
                self.rows[i].expires_at = now;
            }
            i = i + 1;
        }
        cache_pop(&mut self.cached_sessions, &token_hash);
        assert(final(self)@.rows =~= expired_rows(old(self)@.rows, session_id@, now));
    }
}

} // verus!
