//! The operations that move a day between unprotected and protected, and
//! that let users unlock it.
//!
//! Each operation either succeeds and changes the record as its contract
//! says, or fails and leaves the record as it was: what belongs together
//! is written together or not at all.
use vstd::prelude::*;

use crate::envelope::{unwrap, unwrap_spec, wrap_spec, wrap_with, wraps, Sealed, WrappedKey};
use crate::error::KeyError;
use crate::model::calendar::{context_key, KeyHandler, UserDay, DAY_KEY_LABEL};
use crate::model::user::{User, UserView};
use crate::persistence::day_record::{
    first_row, lemma_first_row, rows_view, DayRecord, DayState, DayStateView, DayView, UnlockView, UserDayRow,
};
use crate::primitives::{random_bytes, KEY_LEN, NONCE_LEN};

verus! {

/// The random material an operation consumes: a nonce for each blob it
/// seals and, where a day becomes protected, the new decryption key.
#[derive(Debug)]
pub struct Fresh {
    pub day_key_nonce: Vec<u8>,
    pub decryption_key: Vec<u8>,
    pub decryption_key_nonce: Vec<u8>,
    pub content_nonce: Vec<u8>,
}

/// The mathematical value of the random material.
pub struct FreshView {
    pub day_key_nonce: Seq<u8>,
    pub decryption_key: Seq<u8>,
    pub decryption_key_nonce: Seq<u8>,
    pub content_nonce: Seq<u8>,
}

impl View for Fresh {
    type V = FreshView;

    open spec fn view(&self) -> FreshView {
        FreshView {
            day_key_nonce: self.day_key_nonce@,
            decryption_key: self.decryption_key@,
            decryption_key_nonce: self.decryption_key_nonce@,
            content_nonce: self.content_nonce@,
        }
    }
}

impl FreshView {
    /// Every nonce and the key have the length the cipher works with.
    pub open spec fn wf(self) -> bool {
        &&& self.day_key_nonce.len() == NONCE_LEN
        &&& self.decryption_key.len() == KEY_LEN
        &&& self.decryption_key_nonce.len() == NONCE_LEN
        &&& self.content_nonce.len() == NONCE_LEN
    }
}

impl Fresh {
    /// Draws new material from the system's random source.
    pub fn draw() -> (fresh: Fresh)
        ensures
            fresh@.wf(),
    {
        Fresh {
            day_key_nonce: random_bytes(NONCE_LEN),
            decryption_key: random_bytes(KEY_LEN),
            decryption_key_nonce: random_bytes(NONCE_LEN),
            content_nonce: random_bytes(NONCE_LEN),
        }
    }
}

/// The day key a password yields.
pub open spec fn day_key(password: Seq<char>) -> Seq<u8> {
    context_key(password, DAY_KEY_LABEL@)
}

/// The unlock records after a password was set or changed by `user_id`:
/// that user's record, now carrying `key`, if the user had one, and nobody
/// else's.
pub open spec fn keep_only(rows: Seq<UnlockView>, user_id: i32, key: Sealed) -> Seq<UnlockView> {
    match first_row(rows, user_id) {
        Some(row) => seq![
            UnlockView { user_id: row.user_id, unlocked_at: row.unlocked_at, day_key: Some(key) },
        ],
        None => Seq::empty(),
    }
}

/// The unlock records after the password was removed: everybody's record
/// stays, without a day key.
pub open spec fn without_keys(rows: Seq<UnlockView>) -> Seq<UnlockView> {
    Seq::new(
        rows.len(),
        |i: int| UnlockView { user_id: rows[i].user_id, unlocked_at: rows[i].unlocked_at, day_key: None },
    )
}

/// The record of a day that `owner` creates at the moment `now`.
pub open spec fn create_spec(
    id: i32,
    calendar_id: i32,
    unlocks_at: i64,
    owner: UserView,
    password: Option<Seq<char>>,
    content: Seq<u8>,
    now: i64,
    fresh: FreshView,
) -> Result<DayView, KeyError> {
    match password {
        None => Ok(
            DayView {
                id,
                calendar_id,
                unlocks_at,
                state: DayStateView::Unprotected { content },
                unlocks: seq![UnlockView { user_id: owner.id, unlocked_at: now, day_key: None }],
            },
        ),
        Some(pw) => match wrap_spec(owner.content_key, fresh.day_key_nonce, day_key(pw)) {
            Err(e) => Err(e),
            Ok(wrapped_day_key) => match wrap_spec(
                Some(day_key(pw)),
                fresh.decryption_key_nonce,
                fresh.decryption_key,
            ) {
                Err(e) => Err(e),
                Ok(decryption_key) => match wrap_spec(
                    Some(fresh.decryption_key),
                    fresh.content_nonce,
                    content,
                ) {
                    Err(e) => Err(e),
                    Ok(sealed_content) => Ok(
                        DayView {
                            id,
                            calendar_id,
                            unlocks_at,
                            state: DayStateView::Protected { sealed_content, decryption_key },
                            unlocks: seq![
                                UnlockView {
                                    user_id: owner.id,
                                    unlocked_at: now,
                                    day_key: Some(wrapped_day_key),
                                },
                            ],
                        },
                    ),
                },
            },
        },
    }
}

/// The record after `user` set `password` on an unprotected day.
pub open spec fn set_password_spec(
    day: DayView,
    user: UserView,
    password: Seq<char>,
    fresh: FreshView,
) -> Result<DayView, KeyError>
    recommends
        !day.is_protected(),
{
    match wrap_spec(user.content_key, fresh.day_key_nonce, day_key(password)) {
        Err(e) => Err(e),
        Ok(wrapped_day_key) => match wrap_spec(
            Some(day_key(password)),
            fresh.decryption_key_nonce,
            fresh.decryption_key,
        ) {
            Err(e) => Err(e),
            Ok(decryption_key) => match wrap_spec(
                Some(fresh.decryption_key),
                fresh.content_nonce,
                day.state->Unprotected_content,
            ) {
                Err(e) => Err(e),
                Ok(sealed_content) => Ok(
                    DayView {
                        state: DayStateView::Protected { sealed_content, decryption_key },
                        unlocks: keep_only(day.unlocks, user.id, wrapped_day_key),
                        ..day
                    },
                ),
            },
        },
    }
}

/// The record after `user`, who holds `held_day_key`, changed the
/// password of a protected day to `password`.
pub open spec fn update_password_spec(
    day: DayView,
    held_day_key: Option<Seq<u8>>,
    user: UserView,
    password: Seq<char>,
    fresh: FreshView,
) -> Result<DayView, KeyError> {
    match wrap_spec(user.content_key, fresh.day_key_nonce, day_key(password)) {
        Err(e) => Err(e),
        Ok(wrapped_day_key) => match day.state {
            DayStateView::Unprotected { .. } => Err(KeyError::NotFound),
            DayStateView::Protected { sealed_content, decryption_key } => match unwrap_spec(
                held_day_key,
                decryption_key,
            ) {
                Err(e) => Err(e),
                Ok(key) => match wrap_spec(
                    Some(day_key(password)),
                    fresh.decryption_key_nonce,
                    key,
                ) {
                    Err(e) => Err(e),
                    Ok(rewrapped) => Ok(
                        DayView {
                            state: DayStateView::Protected {
                                sealed_content,
                                decryption_key: rewrapped,
                            },
                            unlocks: keep_only(day.unlocks, user.id, wrapped_day_key),
                            ..day
                        },
                    ),
                },
            },
        },
    }
}

/// The record after a holder of `held_day_key` removed the password.
pub open spec fn remove_password_spec(day: DayView, held_day_key: Option<Seq<u8>>) -> Result<
    DayView,
    KeyError,
> {
    match day.state {
        DayStateView::Unprotected { .. } => Err(KeyError::NotFound),
        DayStateView::Protected { sealed_content, decryption_key } => match unwrap_spec(
            held_day_key,
            decryption_key,
        ) {
            Err(e) => Err(e),
            Ok(key) => match unwrap_spec(Some(key), sealed_content) {
                Err(e) => Err(e),
                Ok(content) => Ok(
                    DayView {
                        state: DayStateView::Unprotected { content },
                        unlocks: without_keys(day.unlocks),
                        ..day
                    },
                ),
            },
        },
    }
}

/// The record after `user` unlocked the day at the moment `now`, offering
/// `code` as the password.
pub open spec fn unlock_spec(
    day: DayView,
    user: UserView,
    code: Option<Seq<char>>,
    now: i64,
    nonce: Seq<u8>,
) -> Result<DayView, KeyError> {
    if day.unlocks_at > now {
        Err(KeyError::NotYetAvailable)
    } else if day.row_of(user.id) is Some {
        Err(KeyError::AlreadyUnlocked)
    } else {
        match day.state {
            DayStateView::Unprotected { .. } => Ok(
                DayView {
                    unlocks: day.unlocks.push(
                        UnlockView { user_id: user.id, unlocked_at: now, day_key: None },
                    ),
                    ..day
                },
            ),
            DayStateView::Protected { decryption_key, .. } => match code {
                None => Err(KeyError::InvalidCredentials),
                Some(c) => if unwrap_spec(Some(day_key(c)), decryption_key) is Err {
                    Err(KeyError::InvalidCredentials)
                } else {
                    match wrap_spec(user.content_key, nonce, day_key(c)) {
                        Err(e) => Err(e),
                        Ok(wrapped_day_key) => Ok(
                            DayView {
                                unlocks: day.unlocks.push(
                                    UnlockView {
                                        user_id: user.id,
                                        unlocked_at: now,
                                        day_key: Some(wrapped_day_key),
                                    },
                                ),
                                ..day
                            },
                        ),
                    }
                },
            },
        }
    }
}

/// The record after a holder of `held_day_key` replaced the content.
pub open spec fn edit_content_spec(
    day: DayView,
    held_day_key: Option<Seq<u8>>,
    content: Seq<u8>,
    nonce: Seq<u8>,
) -> Result<DayView, KeyError> {
    match day.state {
        DayStateView::Unprotected { .. } => Ok(
            DayView { state: DayStateView::Unprotected { content }, ..day },
        ),
        DayStateView::Protected { decryption_key, .. } => match unwrap_spec(
            held_day_key,
            decryption_key,
        ) {
            Err(e) => Err(e),
            Ok(key) => match wrap_spec(Some(key), nonce, content) {
                Err(e) => Err(e),
                Ok(sealed_content) => Ok(
                    DayView {
                        state: DayStateView::Protected { sealed_content, decryption_key },
                        ..day
                    },
                ),
            },
        },
    }
}

/// Whether `after` is what an operation described by `expected` leaves of
/// `before`: on success the described record, on failure the record
/// untouched and the described error.
pub open spec fn applied(
    before: DayView,
    after: DayView,
    outcome: Result<(), KeyError>,
    expected: Result<DayView, KeyError>,
) -> bool {
    match expected {
        Ok(day) => outcome is Ok && after == day,
        Err(e) => outcome == Err::<(), KeyError>(e) && after == before,
    }
}

/// What holds of a day once `password` guards `content`: whoever derives
/// the day key from the password reads the content, the day key can be
/// sealed, and the setter's own unlock record, if there is one, opens to
/// that day key.
pub open spec fn guarded(day: DayView, user: UserView, password: Seq<char>, content: Result<
    Seq<u8>,
    KeyError,
>) -> bool {
    &&& day.is_protected()
    &&& day.content_with(true, Some(day_key(password))) == content
    &&& day.password_opens(password)
    &&& crate::primitives::sealable_len(day_key(password).len())
    &&& forall|i: int|
        0 <= i < day.unlocks.len() ==> (#[trigger] day.unlocks[i]).user_id == user.id
            && day.unlocks[i].day_key is Some && wraps(
            user.content_key,
            day.unlocks[i].day_key->0,
            day_key(password),
        )
}

/// What setting a password leaves behind.
pub open spec fn set_password_post(
    before: DayView,
    after: DayView,
    outcome: Result<(), KeyError>,
    user: UserView,
    password: Seq<char>,
    fresh: FreshView,
) -> bool {
    &&& applied(before, after, outcome, set_password_spec(before, user, password, fresh))
    &&& outcome is Ok ==> guarded(
        after,
        user,
        password,
        Ok(before.state->Unprotected_content),
    )
}

/// What changing a password leaves behind.
pub open spec fn update_password_post(
    before: DayView,
    after: DayView,
    outcome: Result<(), KeyError>,
    held_day_key: Option<Seq<u8>>,
    user: UserView,
    password: Seq<char>,
    fresh: FreshView,
) -> bool {
    &&& applied(
        before,
        after,
        outcome,
        update_password_spec(before, held_day_key, user, password, fresh),
    )
    &&& outcome is Ok ==> guarded(after, user, password, before.content_with(true, held_day_key))
}

/// What unlocking a day leaves behind.
pub open spec fn unlock_post(
    before: DayView,
    after: DayView,
    outcome: Result<(), KeyError>,
    user: UserView,
    code: Option<Seq<char>>,
    now: i64,
    nonce: Seq<u8>,
) -> bool {
    &&& applied(before, after, outcome, unlock_spec(before, user, code, now, nonce))
    &&& outcome is Ok && before.is_protected() ==> wraps(
        user.content_key,
        after.unlocks.last().day_key->0,
        day_key(code->0),
    )
}

/// What replacing the content leaves behind.
pub open spec fn edit_content_post(
    before: DayView,
    after: DayView,
    outcome: Result<(), KeyError>,
    held_day_key: Option<Seq<u8>>,
    content: Seq<u8>,
    nonce: Seq<u8>,
) -> bool {
    &&& applied(before, after, outcome, edit_content_spec(before, held_day_key, content, nonce))
    &&& outcome is Ok ==> after.content_with(true, held_day_key) == Ok::<Seq<u8>, KeyError>(
        content,
    )
}

/// What setting a password leaves behind, whatever random material was
/// drawn for it.
pub open spec fn password_set(
    before: DayView,
    after: DayView,
    outcome: Result<(), KeyError>,
    user: UserView,
    password: Seq<char>,
) -> bool {
    exists|fresh: FreshView|
        fresh.wf() && #[trigger] set_password_post(before, after, outcome, user, password, fresh)
}

/// What changing a password leaves behind, whatever random material was
/// drawn for it.
pub open spec fn password_updated(
    before: DayView,
    after: DayView,
    outcome: Result<(), KeyError>,
    held_day_key: Option<Seq<u8>>,
    user: UserView,
    password: Seq<char>,
) -> bool {
    exists|fresh: FreshView|
        fresh.wf() && #[trigger] update_password_post(
            before,
            after,
            outcome,
            held_day_key,
            user,
            password,
            fresh,
        )
}

/// What unlocking a day leaves behind, whatever nonce was drawn for it.
pub open spec fn day_unlocked(
    before: DayView,
    after: DayView,
    outcome: Result<(), KeyError>,
    user: UserView,
    code: Option<Seq<char>>,
    now: i64,
) -> bool {
    exists|nonce: Seq<u8>|
        nonce.len() == NONCE_LEN && #[trigger] unlock_post(
            before,
            after,
            outcome,
            user,
            code,
            now,
            nonce,
        )
}

/// What replacing the content leaves behind, whatever nonce was drawn for
/// it.
pub open spec fn content_edited(
    before: DayView,
    after: DayView,
    outcome: Result<(), KeyError>,
    held_day_key: Option<Seq<u8>>,
    content: Seq<u8>,
) -> bool {
    exists|nonce: Seq<u8>|
        nonce.len() == NONCE_LEN && #[trigger] edit_content_post(
            before,
            after,
            outcome,
            held_day_key,
            content,
            nonce,
        )
}

/// Whether `created` is the record of a new day, whatever random material
/// was drawn for it.
pub open spec fn day_created(
    created: Result<DayView, KeyError>,
    id: i32,
    calendar_id: i32,
    unlocks_at: i64,
    owner: UserView,
    password: Option<Seq<char>>,
    content: Seq<u8>,
    now: i64,
) -> bool {
    exists|fresh: FreshView|
        fresh.wf() && created == #[trigger] create_spec(
            id,
            calendar_id,
            unlocks_at,
            owner,
            password,
            content,
            now,
            fresh,
        )
}

/// The characters of a password that may be absent.
pub open spec fn chars_of(password: Option<&str>) -> Option<Seq<char>> {
    match password {
        Some(p) => Some(p@),
        None => None,
    }
}

/// The value of a record that may not have been made.
pub open spec fn record_of(r: Result<DayRecord, KeyError>) -> Result<DayView, KeyError> {
    match r {
        Ok(d) => Ok(d@),
        Err(e) => Err(e),
    }
}

impl DayRecord {
    fn rows_of_one(row: UserDayRow) -> (rows: Vec<UserDayRow>)
        ensures
            rows_view(rows@) == seq![row@],
    {
        let mut rows: Vec<UserDayRow> = Vec::new();
        rows.push(row);
        assert(rows_view(rows@) =~= seq![row@]);
        rows
    }

    /// The unlock records that survive a change of password by `user_id`.
    fn kept_rows(&self, user_id: i32, key: WrappedKey) -> (rows: Vec<UserDayRow>)
        ensures
            rows_view(rows@) == keep_only(self@.unlocks, user_id, key@),
    {
        match self.position_of(user_id) {
            Some(i) => {
                let row = UserDayRow {
                    user_id: self.unlocks[i].user_id,
                    unlocked_at: self.unlocks[i].unlocked_at,
                    day_key: Some(key),
                };
                Self::rows_of_one(row)
            },
            None => {
                let rows: Vec<UserDayRow> = Vec::new();
                assert(rows_view(rows@) =~= Seq::<UnlockView>::empty());
                rows
            },
        }
    }

    /// The unlock records with every sealed day key dropped.
    fn rows_without_keys(&self) -> (rows: Vec<UserDayRow>)
        ensures
            rows_view(rows@) == without_keys(self@.unlocks),
    {
        let mut rows: Vec<UserDayRow> = Vec::new();
        let mut i: usize = 0;
        while i < self.unlocks.len()
            invariant
                i <= self.unlocks@.len(),
                rows@.len() == i,
                forall|j: int|
                    0 <= j < i ==> (#[trigger] rows@[j])@ == without_keys(self@.unlocks)[j],
            decreases self.unlocks@.len() - i,
        {
            rows.push(
                UserDayRow {
                    user_id: self.unlocks[i].user_id,
                    unlocked_at: self.unlocks[i].unlocked_at,
                    day_key: None,
                },
            );
            i = i + 1;
        }
        assert(rows_view(rows@) =~= without_keys(self@.unlocks));
        rows
    }

    /// Creates the record of a new day with the given random material.
    ///
    /// Without a password the content is stored as it is. With one, the
    /// content is sealed under the fresh decryption key, that key under
    /// the password's day key, and the day key under the owner's content
    /// key. Either way the owner counts as having unlocked the day at `now`.
    pub fn create_with(
        id: i32,
        calendar_id: i32,
        unlocks_at: i64,
        owner: &User,
        password: Option<&str>,
        content: &[u8],
        now: i64,
        fresh: &Fresh,
    ) -> (created: Result<DayRecord, KeyError>)
        ensures
            record_of(created) == create_spec(
                id,
                calendar_id,
                unlocks_at,
                owner@,
                chars_of(password),
                content@,
                now,
                fresh@,
            ),
            created matches Ok(d) ==> (password matches Some(pw) ==> guarded(
                d@,
                owner@,
                pw@,
                Ok(content@),
            )),
    {
        match password {
            None => {
                let row = UserDayRow { user_id: owner.id, unlocked_at: now, day_key: None };
                Ok(
                    DayRecord {
                        id,
                        calendar_id,
                        unlocks_at,
                        state: DayState::Unprotected {
                            content: vstd::slice::slice_to_vec(content),
                        },
                        unlocks: Self::rows_of_one(row),
                    },
                )
            },
            Some(pw) => {
                let day_key_handler = KeyHandler::from_pass(pw, DAY_KEY_LABEL);
                let day_key_bytes = day_key_handler.get_key()?;
                let wrapped_day_key = wrap_with(
                    &owner.content_key_handler,
                    fresh.day_key_nonce.as_slice(),
                    day_key_bytes.as_slice(),
                )?;
                let decryption_key = wrap_with(
                    &day_key_handler,
                    fresh.decryption_key_nonce.as_slice(),
                    fresh.decryption_key.as_slice(),
                )?;
                let decryption_key_handler = KeyHandler::from_key(fresh.decryption_key.clone());
                let sealed_content = wrap_with(
                    &decryption_key_handler,
                    fresh.content_nonce.as_slice(),
                    content,
                )?;
                let row = UserDayRow {
                    user_id: owner.id,
                    unlocked_at: now,
                    day_key: Some(wrapped_day_key),
                };
                Ok(
                    DayRecord {
                        id,
                        calendar_id,
                        unlocks_at,
                        state: DayState::Protected { sealed_content, decryption_key },
                        unlocks: Self::rows_of_one(row),
                    },
                )
            },
        }
    }

    /// Creates the record of a new day, drawing the random material.
    pub fn create(
        id: i32,
        calendar_id: i32,
        unlocks_at: i64,
        owner: &User,
        password: Option<&str>,
        content: &[u8],
        now: i64,
    ) -> (created: Result<DayRecord, KeyError>)
        ensures
            day_created(
                record_of(created),
                id,
                calendar_id,
                unlocks_at,
                owner@,
                chars_of(password),
                content@,
                now,
            ),
            created matches Ok(d) ==> (password matches Some(pw) ==> guarded(
                d@,
                owner@,
                pw@,
                Ok(content@),
            )),
    {
        let fresh = Fresh::draw();
        Self::create_with(id, calendar_id, unlocks_at, owner, password, content, now, &fresh)
    }

    /// Puts an unprotected day under `password`, with the given random
    /// material.
    ///
    /// The stored content is sealed under the fresh decryption key, that
    /// key under the password's day key, and the day key under the
    /// caller's content key, where it replaces the key in the caller's
    /// unlock record. Every other user's unlock record is purged.
    pub fn set_password_with(&mut self, user: &User, password: &str, fresh: &Fresh) -> (outcome:
        Result<(), KeyError>)
        requires
            !old(self)@.is_protected(),
        ensures
            set_password_post(old(self)@, final(self)@, outcome, user@, password@, fresh@),
    {
        let day_key_handler = KeyHandler::from_pass(password, DAY_KEY_LABEL);
        let day_key_bytes = day_key_handler.get_key()?;
        let wrapped_day_key = wrap_with(
            &user.content_key_handler,
            fresh.day_key_nonce.as_slice(),
            day_key_bytes.as_slice(),
        )?;
        let decryption_key = wrap_with(
            &day_key_handler,
            fresh.decryption_key_nonce.as_slice(),
            fresh.decryption_key.as_slice(),
        )?;
        let decryption_key_handler = KeyHandler::from_key(fresh.decryption_key.clone());
        let sealed_content = match &self.state {
            DayState::Unprotected { content } => wrap_with(
                &decryption_key_handler,
                fresh.content_nonce.as_slice(),
                content.as_slice(),
            )?,
            DayState::Protected { .. } => vstd::pervasive::unreached(),
        };
        let rows = self.kept_rows(user.id, wrapped_day_key);
        proof {
            lemma_first_row(self@.unlocks, user.id);
        }
        self.state = DayState::Protected { sealed_content, decryption_key };
        self.unlocks = rows;
        Ok(())
    }

    /// Puts an unprotected day under `password`, drawing the random
    /// material.
    pub fn set_password(&mut self, user: &User, password: &str) -> (outcome: Result<(), KeyError>)
        requires
            !old(self)@.is_protected(),
        ensures
            password_set(old(self)@, final(self)@, outcome, user@, password@),
    {
        let fresh = Fresh::draw();
        self.set_password_with(user, password, &fresh)
    }

    /// Changes the password of a protected day, with the given random
    /// material.
    ///
    /// The caller's day key opens the decryption key, which is sealed
    /// again, unchanged, under the new password's day key; the sealed
    /// content is not touched. The new day key replaces the key in the
    /// caller's unlock record, and every other user's record is purged.
    pub fn update_password_with(
        &mut self,
        user_day: &UserDay,
        user: &User,
        password: &str,
        fresh: &Fresh,
    ) -> (outcome: Result<(), KeyError>)
        ensures
            update_password_post(
                old(self)@,
                final(self)@,
                outcome,
                user_day.day_key_handler@,
                user@,
                password@,
                fresh@,
            ),
    {
        let day_key_handler = KeyHandler::from_pass(password, DAY_KEY_LABEL);
        let day_key_bytes = day_key_handler.get_key()?;
        let wrapped_day_key = wrap_with(
            &user.content_key_handler,
            fresh.day_key_nonce.as_slice(),
            day_key_bytes.as_slice(),
        )?;
        let rewrapped = match &self.state {
            DayState::Unprotected { .. } => {
                return Err(KeyError::NotFound);
            },
            DayState::Protected { decryption_key, .. } => {
                let key = unwrap(&user_day.day_key_handler, decryption_key)?;
                wrap_with(&day_key_handler, fresh.decryption_key_nonce.as_slice(), key.as_slice())?
            },
        };
        let rows = self.kept_rows(user.id, wrapped_day_key);
        proof {
            lemma_first_row(self@.unlocks, user.id);
        }
        match &mut self.state {
            DayState::Unprotected { .. } => {},
            DayState::Protected { decryption_key, .. } => {
                *decryption_key = rewrapped;
            },
        }
        self.unlocks = rows;
        Ok(())
    }

    /// Changes the password of a protected day, drawing the random
    /// material.
    pub fn update_password(&mut self, user_day: &UserDay, user: &User, password: &str) -> (outcome:
        Result<(), KeyError>)
        ensures
            password_updated(
                old(self)@,
                final(self)@,
                outcome,
                user_day.day_key_handler@,
                user@,
                password@,
            ),
    {
        let fresh = Fresh::draw();
        self.update_password_with(user_day, user, password, &fresh)
    }

    /// Removes the password of a protected day.
    ///
    /// The caller's day key opens the decryption key and that the
    /// content, which is stored as it is from then on. Every unlock record
    /// stays and loses its sealed day key.
    pub fn remove_password(&mut self, user_day: &UserDay) -> (outcome: Result<(), KeyError>)
        ensures
            applied(
                old(self)@,
                final(self)@,
                outcome,
                remove_password_spec(old(self)@, user_day.day_key_handler@),
            ),
    {
        let content = match &self.state {
            DayState::Unprotected { .. } => {
                return Err(KeyError::NotFound);
            },
            DayState::Protected { sealed_content, decryption_key } => {
                let key = unwrap(&user_day.day_key_handler, decryption_key)?;
                unwrap(&KeyHandler::from_key(key), sealed_content)?
            },
        };
        let rows = self.rows_without_keys();
        self.state = DayState::Unprotected { content };
        self.unlocks = rows;
        Ok(())
    }

    /// Lets `user` unlock the day at the moment `now`, sealing the day key
    /// with the given nonce.
    ///
    /// Refused with `NotYetAvailable` before the day unlocks, whatever the
    /// code, else with `AlreadyUnlocked` when the user has an unlock
    /// record. A protected day asks for the code that opens its decryption
    /// key: `InvalidCredentials` when none is given or it does not open.
    /// On success the user gets an unlock record, which for a protected
    /// day carries the day key sealed under the user's content key.
    pub fn unlock_day_with(&mut self, user: &User, code: Option<&str>, now: i64, nonce: &[u8]) -> (
        outcome: Result<(), KeyError>)
        ensures
            unlock_post(old(self)@, final(self)@, outcome, user@, chars_of(code), now, nonce@),
    {
        if self.unlocks_at > now {
            return Err(KeyError::NotYetAvailable);
        }
        if self.position_of(user.id).is_some() {
            return Err(KeyError::AlreadyUnlocked);
        }
        let wrapped = match &self.state {
            DayState::Unprotected { .. } => None,
            DayState::Protected { decryption_key, .. } => {
                match code {
                    None => {
                        return Err(KeyError::InvalidCredentials);
                    },
                    Some(c) => {
                        let day_key_handler = KeyHandler::from_pass(c, DAY_KEY_LABEL);
                        if unwrap(&day_key_handler, decryption_key).is_err() {
                            return Err(KeyError::InvalidCredentials);
                        }
                        let day_key_bytes = day_key_handler.get_key()?;
                        Some(
                            wrap_with(&user.content_key_handler, nonce, day_key_bytes.as_slice())?,
                        )
                    },
                }
            },
        };
        let row = UserDayRow { user_id: user.id, unlocked_at: now, day_key: wrapped };
        self.unlocks.push(row);
        assert(final(self)@.unlocks =~= old(self)@.unlocks.push(row@));
        Ok(())
    }

    /// Lets `user` unlock the day at the moment `now`, drawing the nonce.
    pub fn unlock_day(&mut self, user: &User, code: Option<&str>, now: i64) -> (outcome: Result<
        (),
        KeyError,
    >)
        ensures
            day_unlocked(old(self)@, final(self)@, outcome, user@, chars_of(code), now),
    {
        let nonce = random_bytes(NONCE_LEN);
        self.unlock_day_with(user, code, now, nonce.as_slice())
    }

    /// Replaces the content, sealing it with the given nonce where the day
    /// is protected.
    pub fn edit_content_with(&mut self, user_day: &UserDay, content: &[u8], nonce: &[u8]) -> (
        outcome: Result<(), KeyError>)
        ensures
            edit_content_post(
                old(self)@,
                final(self)@,
                outcome,
                user_day.day_key_handler@,
                content@,
                nonce@,
            ),
    {
        let state = match &self.state {
            DayState::Unprotected { .. } => DayState::Unprotected {
                content: vstd::slice::slice_to_vec(content),
            },
            DayState::Protected { decryption_key, .. } => {
                let key = unwrap(&user_day.day_key_handler, decryption_key)?;
                let sealed_content = wrap_with(&KeyHandler::from_key(key), nonce, content)?;
                DayState::Protected { sealed_content, decryption_key: decryption_key.clone() }
            },
        };
        self.state = state;
        Ok(())
    }

    /// Replaces the content, drawing the nonce.
    pub fn edit_content(&mut self, user_day: &UserDay, content: &[u8]) -> (outcome: Result<
        (),
        KeyError,
    >)
        ensures
            content_edited(
                old(self)@,
                final(self)@,
                outcome,
                user_day.day_key_handler@,
                content@,
            ),
    {
        let nonce = random_bytes(NONCE_LEN);
        self.edit_content_with(user_day, content, nonce.as_slice())
    }
}

} // verus!
