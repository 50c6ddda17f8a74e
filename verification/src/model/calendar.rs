//! Calendars, their days, and the handle through which a key is used.
use vstd::prelude::*;

use crate::envelope::{open_spec, seal_spec};
use crate::error::KeyError;
use crate::primitives::{expand, hkdf_sha256, open, random_bytes, seal};

verus! {

/// Label under which a day's unlock password becomes its day key.
pub const DAY_KEY_LABEL: &'static str = "day key";

/// Label under which a session token becomes its token key.
pub const SESSION_LABEL: &'static str = "session";

/// The key a secret text yields under a label: the HKDF expansion of the
/// text's UTF-8 bytes, separated from other uses by the label's bytes.
pub open spec fn context_key(secret: Seq<char>, label: Seq<char>) -> Seq<u8> {
    hkdf_sha256(vstd::utf8::encode_utf8(secret), vstd::utf8::encode_utf8(label))
}

/// The views of the bytes inside a result.
pub open spec fn bytes_of(r: Result<Vec<u8>, KeyError>) -> Result<Seq<u8>, KeyError> {
    match r {
        Ok(v) => Ok(v@),
        Err(e) => Err(e),
    }
}

/// Where a day stands for one user.
#[derive(Clone, Copy, Debug, PartialEq, Eq, Structural)]
pub enum Status {
    /// The day cannot be unlocked yet.
    Future,
    /// The day can be unlocked and this user has not done so.
    Locked,
    /// This user has unlocked the day.
    Unlocked,
}

impl Status {
    /// The status as the word shown to users.
    pub fn as_str(&self) -> (word: &'static str)
        ensures
            word@ == self.word(),
    {
        match self {
            Status::Future => "future",
            Status::Locked => "locked",
            Status::Unlocked => "unlocked",
        }
    }

    /// The word for each status.
    pub open spec fn word(&self) -> Seq<char> {
        match self {
            Status::Future => "future"@,
            Status::Locked => "locked"@,
            Status::Unlocked => "unlocked"@,
        }
    }
}

/// A calendar and who owns it. Moments are counted in microseconds since
/// the Unix epoch.
#[derive(Debug)]
pub struct Calendar {
    pub id: i32,
    pub owner_id: i32,
    pub title: String,
    pub created_at: i64,
}

/// The mathematical value of a calendar.
pub struct CalendarView {
    pub id: i32,
    pub owner_id: i32,
    pub title: Seq<char>,
    pub created_at: i64,
}

impl View for Calendar {
    type V = CalendarView;

    open spec fn view(&self) -> CalendarView {
        CalendarView {
            id: self.id,
            owner_id: self.owner_id,
            title: self.title@,
            created_at: self.created_at,
        }
    }
}

impl Clone for Calendar {
    fn clone(&self) -> (copy: Self)
        ensures
            copy == *self,
    {
        Calendar {
            id: self.id,
            owner_id: self.owner_id,
            title: self.title.clone(),
            created_at: self.created_at,
        }
    }
}

/// One day of a calendar: when it unlocks and whether a password guards it.
#[derive(Clone, Copy, Debug, PartialEq, Eq, Structural)]
pub struct CalendarDay {
    pub id: i32,
    pub calendar_id: i32,
    pub unlocks_at: i64,
    pub protected: bool,
}

/// A calendar as one user sees it: subscribed since some moment, or not.
#[derive(Debug)]
pub struct UserCalendar {
    pub calendar: Calendar,
    pub subscribed_at: Option<i64>,
}

/// The mathematical value of a calendar as one user sees it.
pub struct UserCalendarView {
    pub calendar: CalendarView,
    pub subscribed_at: Option<i64>,
}

impl View for UserCalendar {
    type V = UserCalendarView;

    open spec fn view(&self) -> UserCalendarView {
        UserCalendarView { calendar: self.calendar@, subscribed_at: self.subscribed_at }
    }
}

impl Clone for UserCalendar {
    fn clone(&self) -> (copy: Self)
        ensures
            copy == *self,
    {
        UserCalendar { calendar: self.calendar.clone(), subscribed_at: self.subscribed_at }
    }
}

/// A calendar as one user sees it, with its days.
pub struct RichUserCalendar {
    pub calendar: UserCalendar,
    pub days: Vec<UserDay>,
}

/// The mathematical value of a calendar with its days.
pub struct RichUserCalendarView {
    pub calendar: UserCalendarView,
    pub days: Seq<UserDayView>,
}

/// The values of a run of days as one user sees them.
pub open spec fn user_days_view(days: Seq<UserDay>) -> Seq<UserDayView> {
    Seq::new(days.len(), |i: int| days[i]@)
}

impl View for RichUserCalendar {
    type V = RichUserCalendarView;

    open spec fn view(&self) -> RichUserCalendarView {
        RichUserCalendarView { calendar: self.calendar@, days: user_days_view(self.days@) }
    }
}

/// A day as one user sees it: when that user unlocked it, if ever, and the
/// day key that user holds for it.
#[derive(Debug)]
pub struct UserDay {
    pub day: CalendarDay,
    pub unlocked_at: Option<i64>,
    pub day_key_handler: KeyHandler,
}

/// The mathematical value of a day as one user sees it.
pub struct UserDayView {
    pub day: CalendarDay,
    pub unlocked_at: Option<i64>,
    pub day_key: Option<Seq<u8>>,
}

impl View for UserDay {
    type V = UserDayView;

    open spec fn view(&self) -> UserDayView {
        UserDayView {
            day: self.day,
            unlocked_at: self.unlocked_at,
            day_key: self.day_key_handler@,
        }
    }
}

impl Clone for UserDay {
    fn clone(&self) -> (copy: Self)
        ensures
            copy@ == self@,
    {
        UserDay {
            day: self.day,
            unlocked_at: self.unlocked_at,
            day_key_handler: self.day_key_handler.clone(),
        }
    }
}

/// The status a day has at the moment `now` for a user who unlocked it at
/// `unlocked_at`, if ever.
pub open spec fn status_at(unlocks_at: i64, unlocked_at: Option<i64>, now: i64) -> Status {
    if unlocked_at is Some {
        Status::Unlocked
    } else if unlocks_at < now {
        Status::Locked
    } else {
        Status::Future
    }
}

impl UserDay {
    /// Puts a day, the moment it was unlocked and the day key together.
    pub fn new(day: CalendarDay, unlocked_at: Option<i64>, key_handler: KeyHandler) -> (user_day:
        Self)
        ensures
            user_day.day == day,
            user_day.unlocked_at == unlocked_at,
            user_day.day_key_handler == key_handler,
    {
        UserDay { unlocked_at, day_key_handler: key_handler, day }
    }

    /// Whether this user has unlocked the day.
    pub fn is_unlocked(&self) -> (unlocked: bool)
        ensures
            unlocked == self.unlocked_at.is_some(),
    {
        self.unlocked_at.is_some()
    }

    /// Whether the moment the day unlocks lies before `now`.
    pub fn is_available(&self, now: i64) -> (available: bool)
        ensures
            available == (self.day.unlocks_at < now),
    {
        self.day.unlocks_at < now
    }

    /// Where the day stands for this user at the moment `now`.
    pub fn get_status(&self, now: i64) -> (status: Status)
        ensures
            status == status_at(self.day.unlocks_at, self.unlocked_at, now),
    {
        if self.is_unlocked() {
            Status::Unlocked
        } else if self.is_available(now) {
            Status::Locked
        } else {
            Status::Future
        }
    }
}

/// A key held in memory for the length of a request, or the absence of one.
#[derive(Debug)]
pub struct KeyHandler {
    key: Option<Vec<u8>>,
}

impl View for KeyHandler {
    type V = Option<Seq<u8>>;

    closed spec fn view(&self) -> Option<Seq<u8>> {
        match self.key {
            Some(k) => Some(k@),
            None => None,
        }
    }
}

impl Clone for KeyHandler {
    fn clone(&self) -> (copy: Self)
        ensures
            copy@ == self@,
    {
        match &self.key {
            Some(k) => KeyHandler { key: Some(k.clone()) },
            None => KeyHandler { key: None },
        }
    }
}

impl KeyHandler {
    /// A handle that holds no key.
    pub fn empty() -> (handler: Self)
        ensures
            handler@ is None,
    {
        KeyHandler { key: None }
    }

    /// A handle on the given key bytes.
    pub fn from_key(key: Vec<u8>) -> (handler: KeyHandler)
        ensures
            handler@ == Some(key@),
    {
        KeyHandler { key: Some(key) }
    }

    /// A handle on `size` freshly drawn random bytes.
    pub fn from_random(size: usize) -> (handler: KeyHandler)
        ensures
            handler@ is Some,
            handler@->0.len() == size,
    {
        KeyHandler { key: Some(random_bytes(size)) }
    }

    /// A handle on the given key, if there is one.
    pub fn from_optional_key(key: Option<Vec<u8>>) -> (handler: KeyHandler)
        ensures
            key matches Some(k) ==> handler@ == Some(k@),
            key is None ==> handler@ is None,
    {
        KeyHandler { key }
    }

    /// A handle on the key that `password` yields under `context`.
    pub fn from_pass(password: &str, context: &str) -> (handler: KeyHandler)
        ensures
            handler@ == Some(context_key(password@, context@)),
    {
        KeyHandler { key: Some(Self::get_key_from_string(password, context)) }
    }

    fn get_key_from_string(string: &str, context: &str) -> (key: Vec<u8>)
        ensures
            key@ == context_key(string@, context@),
            key@.len() == crate::primitives::KEY_LEN,
    {
        expand(string.as_bytes(), context.as_bytes())
    }

    /// A copy of the key bytes, or `StaleKey` when the handle is empty.
    pub fn get_key(&self) -> (key: Result<Vec<u8>, KeyError>)
        ensures
            self@ matches Some(k) ==> bytes_of(key) == Ok::<Seq<u8>, KeyError>(k),
            self@ is None ==> key == Err::<Vec<u8>, KeyError>(KeyError::StaleKey),
    {
        match &self.key {
            Some(k) => Ok(k.clone()),
            None => Err(KeyError::StaleKey),
        }
    }

    /// Opens `cypher` under this key and the nonce `salt`.
    ///
    /// Fails with `StaleKey`, and hands out no bytes at all, when the
    /// handle is empty, when key or nonce have the wrong length, or when
    /// authentication fails.
    pub fn decrypt(&self, cypher: &[u8], salt: &[u8]) -> (plain: Result<Vec<u8>, KeyError>)
        ensures
            bytes_of(plain) == open_spec(self@, salt@, cypher@),
    {
        match &self.key {
            Some(k) => {
                if k.len() != crate::primitives::KEY_LEN || salt.len()
                    != crate::primitives::NONCE_LEN {
                    return Err(KeyError::StaleKey);
                }
                match open(k.as_slice(), salt, cypher) {
                    Some(p) => Ok(p),
                    None => Err(KeyError::StaleKey),
                }
            },
            None => Err(KeyError::StaleKey),
        }
    }

    /// Seals `secret` under this key and the nonce `salt`.
    ///
    /// Fails with `StaleKey` when the handle is empty or key or nonce have
    /// the wrong length, and with `LimitExceeded` when the secret is longer
    /// than the cipher takes. What was sealed opens again under the same
    /// key and nonce.
    pub fn encrypt(&self, secret: &[u8], salt: &[u8]) -> (sealed: Result<Vec<u8>, KeyError>)
        ensures
            bytes_of(sealed) == seal_spec(self@, salt@, secret@),
            sealed matches Ok(c) ==> open_spec(self@, salt@, c@) == Ok::<Seq<u8>, KeyError>(
                secret@,
            ),
    {
        match &self.key {
            Some(k) => {
                if k.len() != crate::primitives::KEY_LEN || salt.len()
                    != crate::primitives::NONCE_LEN {
                    return Err(KeyError::StaleKey);
                }
                match seal(k.as_slice(), salt, secret) {
                    Some(c) => Ok(c),
                    None => Err(KeyError::LimitExceeded),
                }
            },
            None => Err(KeyError::StaleKey),
        }
    }

    /// Seals this key under `encryption_key` and the nonce `salt`.
    pub fn get_encrypted_key(&self, encryption_key: &Self, salt: &[u8]) -> (sealed: Result<
        Vec<u8>,
        KeyError,
    >)
        ensures
            bytes_of(sealed) == wrap_key_spec(self@, encryption_key@, salt@),
            sealed matches Ok(c) ==> open_spec(encryption_key@, salt@, c@) == Ok::<
                Seq<u8>,
                KeyError,
            >(self@->0),
    {
        let key = self.get_key()?;
        encryption_key.encrypt(key.as_slice(), salt)
    }
}

/// What sealing the key `inner` under the key `outer` gives.
pub open spec fn wrap_key_spec(inner: Option<Seq<u8>>, outer: Option<Seq<u8>>, nonce: Seq<u8>)
    -> Result<Seq<u8>, KeyError> {
    match inner {
        Some(k) => seal_spec(outer, nonce, k),
        None => Err(KeyError::StaleKey),
    }
}

} // verus!
