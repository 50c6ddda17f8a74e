//! One day as it is persisted, and the chain of keys that guards it.
//!
//! A protected day keeps its content sealed under a decryption key, the
//! decryption key sealed under the day key, and for each user who unlocked
//! the day, the day key sealed under that user's content key.
use vstd::prelude::*;

use crate::envelope::{unwrap_spec, Sealed, WrappedKey};
use crate::error::KeyError;
use crate::model::calendar::{
    bytes_of, context_key, CalendarDay, KeyHandler, UserDay, UserDayView, DAY_KEY_LABEL,
};
use crate::model::user::User;

verus! {

/// How a day's content is stored.
#[derive(Debug)]
pub enum DayState {
    /// The content is stored as it is.
    Unprotected { content: Vec<u8> },
    /// The content is sealed under the decryption key, which is itself
    /// sealed under the day key.
    Protected { sealed_content: WrappedKey, decryption_key: WrappedKey },
}

/// The mathematical value of a day's stored content.
pub enum DayStateView {
    Unprotected { content: Seq<u8> },
    Protected { sealed_content: Sealed, decryption_key: Sealed },
}

impl View for DayState {
    type V = DayStateView;

    open spec fn view(&self) -> DayStateView {
        match self {
            DayState::Unprotected { content } => DayStateView::Unprotected { content: content@ },
            DayState::Protected { sealed_content, decryption_key } => DayStateView::Protected {
                sealed_content: sealed_content@,
                decryption_key: decryption_key@,
            },
        }
    }
}

/// The record that one user has unlocked one day.
#[derive(Debug)]
pub struct UserDayRow {
    pub user_id: i32,
    pub unlocked_at: i64,
    pub day_key: Option<WrappedKey>,
}

/// The mathematical value of an unlock record.
pub struct UnlockView {
    pub user_id: i32,
    pub unlocked_at: i64,
    pub day_key: Option<Sealed>,
}

impl View for UserDayRow {
    type V = UnlockView;

    open spec fn view(&self) -> UnlockView {
        UnlockView {
            user_id: self.user_id,
            unlocked_at: self.unlocked_at,
            day_key: match self.day_key {
                Some(w) => Some(w@),
                None => None,
            },
        }
    }
}

/// Everything that is persisted about one day.
#[derive(Debug)]
pub struct DayRecord {
    pub id: i32,
    pub calendar_id: i32,
    pub unlocks_at: i64,
    pub state: DayState,
    pub unlocks: Vec<UserDayRow>,
}

/// The mathematical value of a day record.
pub struct DayView {
    pub id: i32,
    pub calendar_id: i32,
    pub unlocks_at: i64,
    pub state: DayStateView,
    pub unlocks: Seq<UnlockView>,
}

/// The values of a run of unlock records.
pub open spec fn rows_view(rows: Seq<UserDayRow>) -> Seq<UnlockView> {
    Seq::new(rows.len(), |i: int| rows[i]@)
}

impl View for DayRecord {
    type V = DayView;

    open spec fn view(&self) -> DayView {
        DayView {
            id: self.id,
            calendar_id: self.calendar_id,
            unlocks_at: self.unlocks_at,
            state: self.state@,
            unlocks: rows_view(self.unlocks@),
        }
    }
}

/// The first record among `rows` that belongs to `user_id`.
pub open spec fn first_row(rows: Seq<UnlockView>, user_id: i32) -> Option<UnlockView>
    decreases rows.len(),
{
    if rows.len() == 0 {
        None
    } else if rows[0].user_id == user_id {
        Some(rows[0])
    } else {
        first_row(rows.subrange(1, rows.len() as int), user_id)
    }
}

/// The record found for a user belongs to that user and is one of the rows;
/// where none is found, no row belongs to the user.
pub proof fn lemma_first_row(rows: Seq<UnlockView>, user_id: i32)
    ensures
        first_row(rows, user_id) matches Some(row) ==> row.user_id == user_id && rows.contains(row),
        first_row(rows, user_id) is None ==> forall|i: int|
            0 <= i < rows.len() ==> (#[trigger] rows[i]).user_id != user_id,
    decreases rows.len(),
{
    if rows.len() > 0 && rows[0].user_id != user_id {
        let rest = rows.subrange(1, rows.len() as int);
        lemma_first_row(rest, user_id);
        if first_row(rest, user_id) is Some {
            let row = first_row(rest, user_id)->0;
            let k = choose|k: int| 0 <= k < rest.len() && rest[k] == row;
            assert(rows[k + 1] == row);
        } else {
            assert forall|i: int| 0 <= i < rows.len() implies (#[trigger] rows[i]).user_id
                != user_id by {
                if i > 0 {
                    assert(rest[i - 1] == rows[i]);
                }
            }
        }
    } else if rows.len() > 0 {
        assert(rows[0] == rows[0]);
    }
}

impl DayView {
    /// Whether a password guards the day.
    pub open spec fn is_protected(self) -> bool {
        self.state is Protected
    }

    /// The day as callers outside the store see it.
    pub open spec fn day(self) -> CalendarDay {
        CalendarDay {
            id: self.id,
            calendar_id: self.calendar_id,
            unlocks_at: self.unlocks_at,
            protected: self.is_protected(),
        }
    }

    /// The unlock record of `user_id`, if that user has unlocked the day.
    pub open spec fn row_of(self, user_id: i32) -> Option<UnlockView> {
        first_row(self.unlocks, user_id)
    }

    /// Each user has at most one unlock record, and the records carry a
    /// sealed day key exactly when the day is protected.
    pub open spec fn wf(self) -> bool {
        &&& forall|i: int, j: int|
            0 <= i < j < self.unlocks.len() ==> self.unlocks[i].user_id != self.unlocks[j].user_id
        &&& forall|i: int|
            0 <= i < self.unlocks.len() ==> (#[trigger] self.unlocks[i].day_key is Some
                <==> self.is_protected())
    }

    /// Whether `password` yields a day key that opens the day's sealed
    /// decryption key.
    pub open spec fn password_opens(self, password: Seq<char>) -> bool {
        match self.state {
            DayStateView::Unprotected { .. } => false,
            DayStateView::Protected { decryption_key, .. } => unwrap_spec(
                Some(context_key(password, DAY_KEY_LABEL@)),
                decryption_key,
            ) is Ok,
        }
    }

    /// What a holder of `day_key` reads: the stored content of an
    /// unprotected day; of a protected one, the content opened through the
    /// decryption key, provided the holder has unlocked the day.
    pub open spec fn content_with(self, unlocked: bool, day_key: Option<Seq<u8>>) -> Result<
        Seq<u8>,
        KeyError,
    > {
        match self.state {
            DayStateView::Unprotected { content } => Ok(content),
            DayStateView::Protected { sealed_content, decryption_key } => if !unlocked {
                Err(KeyError::NotFound)
            } else {
                match unwrap_spec(day_key, decryption_key) {
                    Ok(k) => unwrap_spec(Some(k), sealed_content),
                    Err(e) => Err(e),
                }
            },
        }
    }

    /// The day as `user` sees it: the moment of that user's unlock record
    /// and, for a protected day that the user has unlocked, the day key
    /// opened with the user's content key.
    pub open spec fn seen_by(self, user_id: i32, content_key: Option<Seq<u8>>) -> Result<
        UserDayView,
        KeyError,
    > {
        match self.row_of(user_id) {
            None => Ok(UserDayView { day: self.day(), unlocked_at: None, day_key: None }),
            Some(row) => if !self.is_protected() {
                Ok(
                    UserDayView {
                        day: self.day(),
                        unlocked_at: Some(row.unlocked_at),
                        day_key: None,
                    },
                )
            } else {
                match row.day_key {
                    None => Err(KeyError::NotFound),
                    Some(w) => match unwrap_spec(content_key, w) {
                        Ok(k) => Ok(
                            UserDayView {
                                day: self.day(),
                                unlocked_at: Some(row.unlocked_at),
                                day_key: Some(k),
                            },
                        ),
                        Err(e) => Err(e),
                    },
                }
            },
        }
    }

    /// What `user` reads of the day with nothing but the own content key.
    pub open spec fn content_for(self, user_id: i32, content_key: Option<Seq<u8>>) -> Result<
        Seq<u8>,
        KeyError,
    > {
        match self.seen_by(user_id, content_key) {
            Ok(seen) => self.content_with(seen.unlocked_at is Some, seen.day_key),
            Err(e) => Err(e),
        }
    }
}

/// Whether what `user_day` holds is the view in `seen`.
pub open spec fn sees(user_day: Result<UserDay, KeyError>, seen: Result<UserDayView, KeyError>)
    -> bool {
    match user_day {
        Ok(u) => seen == Ok::<UserDayView, KeyError>(u@),
        Err(e) => seen == Err::<UserDayView, KeyError>(e),
    }
}

impl DayRecord {
    /// Whether a password guards the day.
    pub fn is_protected(&self) -> (protected: bool)
        ensures
            protected == self@.is_protected(),
    {
        match &self.state {
            DayState::Unprotected { .. } => false,
            DayState::Protected { .. } => true,
        }
    }

    /// The day as callers outside the store see it. Its `protected` flag
    /// is set exactly when the record carries a sealed decryption key.
    pub fn day(&self) -> (day: CalendarDay)
        ensures
            day == self@.day(),
    {
        CalendarDay {
            id: self.id,
            calendar_id: self.calendar_id,
            unlocks_at: self.unlocks_at,
            protected: self.is_protected(),
        }
    }

    /// The position of the unlock record of `user_id`, if there is one.
    pub fn position_of(&self, user_id: i32) -> (position: Option<usize>)
        ensures
            match position {
                Some(i) => i < self.unlocks@.len() && self@.row_of(user_id) == Some(
                    self.unlocks@[i as int]@,
                ) && self.unlocks@[i as int].user_id == user_id,
                None => self@.row_of(user_id) is None,
            },
    {
        let mut i: usize = 0;
        assert(self@.unlocks.subrange(0, self@.unlocks.len() as int) =~= self@.unlocks);
        while i < self.unlocks.len()
            invariant
                i <= self.unlocks@.len(),
                self@.row_of(user_id) == first_row(
                    self@.unlocks.subrange(i as int, self@.unlocks.len() as int),
                    user_id,
                ),
            decreases self.unlocks@.len() - i,
        {
            let ghost rest = self@.unlocks.subrange(i as int, self@.unlocks.len() as int);
            assert(rest[0] == self.unlocks@[i as int]@);
            if self.unlocks[i].user_id == user_id {
                return Some(i);
            }
            assert(rest.subrange(1, rest.len() as int) =~= self@.unlocks.subrange(
                i as int + 1,
                self@.unlocks.len() as int,
            ));
            i = i + 1;
        }
        None
    }

    /// The day as `user` sees it, with the day key that user holds.
    ///
    /// A user without an unlock record sees the day locked and holds no
    /// key. For a protected day the user's sealed day key is opened with
    /// the user's content key: `NotFound` when the record carries none,
    /// `StaleKey` when it does not open.
    pub fn get_user_day_with_key(&self, user: &User) -> (user_day: Result<UserDay, KeyError>)
        ensures
            sees(user_day, self@.seen_by(user@.id, user@.content_key)),
    {
        let day = self.day();
        match self.position_of(user.id) {
            None => Ok(UserDay::new(day, None, KeyHandler::empty())),
            Some(i) => {
                let row = &self.unlocks[i];
                if !day.protected {
                    return Ok(UserDay::new(day, Some(row.unlocked_at), KeyHandler::empty()));
                }
                match &row.day_key {
                    None => Err(KeyError::NotFound),
                    Some(w) => {
                        let key = user.content_key_handler.decrypt(
                            w.ciphertext.as_slice(),
                            w.nonce.as_slice(),
                        )?;
                        Ok(UserDay::new(day, Some(row.unlocked_at), KeyHandler::from_key(key)))
                    },
                }
            },
        }
    }

    /// The content as the holder of `user_day` reads it.
    ///
    /// An unprotected day hands out its stored content. A protected day
    /// asks for an unlocked `user_day` (`NotFound` otherwise) and opens the
    /// decryption key with the day key, then the content with the
    /// decryption key; either failure is `StaleKey`.
    pub fn get_content(&self, user_day: &UserDay) -> (content: Result<Vec<u8>, KeyError>)
        ensures
            bytes_of(content) == self@.content_with(
                user_day.unlocked_at is Some,
                user_day.day_key_handler@,
            ),
    {
        match &self.state {
            DayState::Unprotected { content } => Ok(content.clone()),
            DayState::Protected { sealed_content, decryption_key } => {
                if user_day.unlocked_at.is_none() {
                    return Err(KeyError::NotFound);
                }
                let key = user_day.day_key_handler.decrypt(
                    decryption_key.ciphertext.as_slice(),
                    decryption_key.nonce.as_slice(),
                )?;
                KeyHandler::from_key(key).decrypt(
                    sealed_content.ciphertext.as_slice(),
                    sealed_content.nonce.as_slice(),
                )
            },
        }
    }
}

} // verus!
