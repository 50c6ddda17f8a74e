//! The table of calendars, subscriptions and days.
//!
//! The repository finds the day an operation is meant for and lets the
//! day's record do the work. An operation changes the one day it names
//! and nothing else; one that fails changes nothing.
use vstd::prelude::*;

use crate::error::KeyError;
use crate::model::calendar::{
    user_days_view, Calendar, CalendarView, KeyHandler, RichUserCalendar, RichUserCalendarView,
    UserCalendar, UserCalendarView, UserDay, UserDayView,
};
use crate::model::user::{User, UserView};
use crate::persistence::day_protection::{
    applied, chars_of, content_edited, day_created, day_unlocked, guarded, password_set,
    password_updated, remove_password_spec,
};
use crate::persistence::day_record::{sees, DayRecord, DayView};
use crate::persistence::rows::{
    first_index, first_match, lemma_first_index_is, lemma_first_index_none,
};
use crate::primitives::text_of;

verus! {

/// The record that a user follows a calendar.
#[derive(Clone, Copy, Debug, PartialEq, Eq, Structural)]
pub struct Subscription {
    pub user_id: i32,
    pub calendar_id: i32,
    pub subscribed_at: i64,
}

/// Everything that is persisted about calendars. Row numbers are handed
/// out one after another.
#[derive(Debug)]
pub struct CalendarRepository {
    pub calendars: Vec<Calendar>,
    pub subscriptions: Vec<Subscription>,
    pub days: Vec<DayRecord>,
    pub next_calendar_id: i32,
    pub next_day_id: i32,
}

/// The mathematical value of the repository.
pub struct RepositoryView {
    pub calendars: Seq<CalendarView>,
    pub subscriptions: Seq<Subscription>,
    pub days: Seq<DayView>,
    pub next_calendar_id: i32,
    pub next_day_id: i32,
}

/// The values of a run of calendars.
pub open spec fn calendars_view(calendars: Seq<Calendar>) -> Seq<CalendarView> {
    Seq::new(calendars.len(), |i: int| calendars[i]@)
}

/// The values of a run of day records.
pub open spec fn days_view(days: Seq<DayRecord>) -> Seq<DayView> {
    Seq::new(days.len(), |i: int| days[i]@)
}

impl View for CalendarRepository {
    type V = RepositoryView;

    open spec fn view(&self) -> RepositoryView {
        RepositoryView {
            calendars: calendars_view(self.calendars@),
            subscriptions: self.subscriptions@,
            days: days_view(self.days@),
            next_calendar_id: self.next_calendar_id,
            next_day_id: self.next_day_id,
        }
    }
}

/// The text that bytes spell, where they are well-formed UTF-8.
pub open spec fn text_spec(bytes: Result<Seq<u8>, KeyError>) -> Result<Seq<char>, KeyError> {
    match bytes {
        Err(e) => Err(e),
        Ok(b) => if vstd::utf8::valid_utf8(b) {
            Ok(vstd::utf8::decode_utf8(b))
        } else {
            Err(KeyError::Corrupted)
        },
    }
}

/// The characters inside a result.
pub open spec fn chars_in(r: Result<String, KeyError>) -> Result<Seq<char>, KeyError> {
    match r {
        Ok(s) => Ok(s@),
        Err(e) => Err(e),
    }
}

/// The characters of a password that may be absent.
pub open spec fn chars_of_owned(password: Option<String>) -> Option<Seq<char>> {
    match password {
        Some(p) => Some(p@),
        None => None,
    }
}

impl RepositoryView {
    /// The position of the day with the given number.
    pub open spec fn day_index(self, id: i32) -> Option<int> {
        first_index(self.days, |day: DayView| day.id == id)
    }

    /// The position of the day with the given number in the given calendar.
    pub open spec fn day_index_in(self, id: i32, calendar_id: i32) -> Option<int> {
        first_index(self.days, |day: DayView| day.id == id && day.calendar_id == calendar_id)
    }

    /// Whether `after` differs from this repository in the day at
    /// position `i` at most.
    pub open spec fn differs_at(self, after: RepositoryView, i: int) -> bool {
        &&& 0 <= i < self.days.len()
        &&& after == RepositoryView { days: self.days.update(i, after.days[i]), ..self }
    }

    /// Every day has a number below the next one to be handed out, no two
    /// days share a number, and every record is well formed.
    pub open spec fn wf(self) -> bool {
        &&& forall|i: int| 0 <= i < self.days.len() ==> (#[trigger] self.days[i]).id
            < self.next_day_id
        &&& forall|i: int, j: int|
            0 <= i < j < self.days.len() ==> self.days[i].id != self.days[j].id
        &&& forall|i: int| 0 <= i < self.days.len() ==> (#[trigger] self.days[i]).wf()
    }

    /// Whether `after` is this repository once an operation on the day
    /// numbered `id` ended with `outcome`: where there is no such day,
    /// `NotFound` and nothing changed; else that day changed at most.
    pub open spec fn touched(self, after: RepositoryView, outcome: Result<(), KeyError>, id: i32)
        -> bool {
        match self.day_index(id) {
            None => outcome == Err::<(), KeyError>(KeyError::NotFound) && after == self,
            Some(i) => self.differs_at(after, i),
        }
    }

    /// The day numbered `id` before an operation, where there is one.
    pub open spec fn day_before(self, id: i32) -> DayView {
        self.days[self.day_index(id)->0]
    }

    /// The day that was numbered `id` before an operation, after it.
    pub open spec fn day_after(self, after: RepositoryView, id: i32) -> DayView {
        after.days[self.day_index(id)->0]
    }

    /// Whether `after` is this repository once a day was added with the
    /// result `added`: `LimitExceeded` where the day numbers are used up;
    /// else what making the day's record gave, and on success the new
    /// number and the record at the end of the table, whose password, if
    /// it has one, guards the content.
    pub open spec fn day_added(
        self,
        after: RepositoryView,
        added: Result<i32, KeyError>,
        calendar_id: i32,
        unlocks_at: i64,
        owner: UserView,
        password: Option<Seq<char>>,
        content: Seq<u8>,
        now: i64,
    ) -> bool {
        if self.next_day_id == i32::MAX {
            added == Err::<i32, KeyError>(KeyError::LimitExceeded) && after == self
        } else {
            match added {
                Ok(id) => {
                    &&& id == self.next_day_id
                    &&& after == self.with_day(after.days.last())
                    &&& day_created(
                        Ok(after.days.last()),
                        id,
                        calendar_id,
                        unlocks_at,
                        owner,
                        password,
                        content,
                        now,
                    )
                    &&& password matches Some(pw) ==> guarded(
                        after.days.last(),
                        owner,
                        pw,
                        Ok(content),
                    )
                },
                Err(e) => {
                    &&& after == self
                    &&& day_created(
                        Err(e),
                        self.next_day_id,
                        calendar_id,
                        unlocks_at,
                        owner,
                        password,
                        content,
                        now,
                    )
                },
            }
        }
    }

    /// The repository after a day was added.
    pub open spec fn with_day(self, day: DayView) -> RepositoryView {
        RepositoryView {
            days: self.days.push(day),
            next_day_id: (self.next_day_id + 1) as i32,
            ..self
        }
    }
}

impl CalendarRepository {
    /// A repository that holds nothing.
    pub fn new() -> (repository: Self)
        ensures
            repository@.calendars.len() == 0,
            repository@.subscriptions.len() == 0,
            repository@.days.len() == 0,
            repository@.next_calendar_id == 1,
            repository@.next_day_id == 1,
    {
        CalendarRepository {
            calendars: Vec::new(),
            subscriptions: Vec::new(),
            days: Vec::new(),
            next_calendar_id: 1,
            next_day_id: 1,
        }
    }

    /// The position of the day with the given number.
    pub fn position_of_day(&self, id: i32) -> (position: Option<usize>)
        ensures
            match position {
                Some(i) => i < self.days@.len() && self@.day_index(id) == Some(i as int),
                None => self@.day_index(id) is None,
            },
    {
        let ghost wanted = |day: DayView| day.id == id;
        let mut i: usize = 0;
        while i < self.days.len()
            invariant
                i <= self.days@.len(),
                wanted == (|day: DayView| day.id == id),
                forall|j: int| 0 <= j < i ==> !wanted(#[trigger] self@.days[j]),
            decreases self.days@.len() - i,
        {
            if self.days[i].id == id {
                proof {
                    lemma_first_index_is(self@.days, wanted, i as int);
                }
                return Some(i);
            }
            i = i + 1;
        }
        proof {
            lemma_first_index_none(self@.days, wanted);
        }
        None
    }

    /// The position of the day with the given number in the given calendar.
    pub fn position_of_day_in(&self, id: i32, calendar_id: i32) -> (position: Option<usize>)
        ensures
            match position {
                Some(i) => i < self.days@.len() && self@.day_index_in(id, calendar_id) == Some(
                    i as int,
                ),
                None => self@.day_index_in(id, calendar_id) is None,
            },
    {
        let ghost wanted = |day: DayView| day.id == id && day.calendar_id == calendar_id;
        let mut i: usize = 0;
        while i < self.days.len()
            invariant
                i <= self.days@.len(),
                wanted == (|day: DayView| day.id == id && day.calendar_id == calendar_id),
                forall|j: int| 0 <= j < i ==> !wanted(#[trigger] self@.days[j]),
            decreases self.days@.len() - i,
        {
            if self.days[i].id == id && self.days[i].calendar_id == calendar_id {
                proof {
                    lemma_first_index_is(self@.days, wanted, i as int);
                }
                return Some(i);
            }
            i = i + 1;
        }
        proof {
            lemma_first_index_none(self@.days, wanted);
        }
        None
    }

    /// The day numbered `day_id` of the calendar as `user` sees it, with
    /// the day key that user holds. `NotFound` where the calendar has no
    /// such day.
    pub fn get_user_day_with_key(&self, user_calendar: &UserCalendar, day_id: i32, user: &User) -> (
        user_day: Result<UserDay, KeyError>)
        ensures
            match self@.day_index_in(day_id, user_calendar.calendar.id) {
                None => sees(user_day, Err(KeyError::NotFound)),
                Some(i) => sees(user_day, self@.days[i].seen_by(user@.id, user@.content_key)),
            },
    {
        match self.position_of_day_in(day_id, user_calendar.calendar.id) {
            None => Err(KeyError::NotFound),
            Some(i) => {
                assert(self@.days[i as int] == self.days@[i as int]@);
                self.days[i].get_user_day_with_key(user)
            },
        }
    }

    /// The content of the day that `user_day` stands for, as text.
    ///
    /// `NotFound` where the day is gone; for a protected day, what the
    /// chain of keys from the held day key gives; `Corrupted` where the
    /// content is not well-formed text.
    pub fn get_content(&self, user_day: &UserDay) -> (content: Result<String, KeyError>)
        ensures
            match self@.day_index(user_day.day.id) {
                None => chars_in(content) == Err::<Seq<char>, KeyError>(KeyError::NotFound),
                Some(i) => chars_in(content) == text_spec(
                    self@.days[i].content_with(
                        user_day.unlocked_at is Some,
                        user_day.day_key_handler@,
                    ),
                ),
            },
    {
        let i = match self.position_of_day(user_day.day.id) {
            None => {
                return Err(KeyError::NotFound);
            },
            Some(i) => i,
        };
        let bytes = self.days[i].get_content(user_day)?;
        match text_of(bytes) {
            Some(text) => Ok(text),
            None => Err(KeyError::Corrupted),
        }
    }

    /// Adds a day to the calendar, unlocked for its creator from the start.
    ///
    /// With a password the day is protected and guards its content;
    /// `LimitExceeded` where the day numbers are used up.
    pub fn add_day(
        &mut self,
        user: &User,
        user_calendar: &UserCalendar,
        unlocks_at: i64,
        password: Option<String>,
        content: String,
        now: i64,
    ) -> (added: Result<i32, KeyError>)
        ensures
            old(self)@.day_added(
                final(self)@,
                added,
                user_calendar.calendar.id,
                unlocks_at,
                user@,
                chars_of_owned(password),
                vstd::utf8::encode_utf8(content@),
                now,
            ),
    {
        if self.next_day_id == i32::MAX {
            return Err(KeyError::LimitExceeded);
        }
        let id = self.next_day_id;
        let offered: Option<&str> = match &password {
            Some(p) => Some(p.as_str()),
            None => None,
        };
        let bytes = content.as_str().as_bytes();
        assert(chars_of(offered) == chars_of_owned(password));
        assert(bytes@ == vstd::utf8::encode_utf8(content@));
        let created = DayRecord::create(
            id,
            user_calendar.calendar.id,
            unlocks_at,
            user,
            offered,
            bytes,
            now,
        );
        let day = match created {
            Ok(day) => day,
            Err(e) => {
                return Err(e);
            },
        };
        self.days.push(day);
        self.next_day_id = id + 1;
        assert(final(self)@.days =~= old(self)@.days.push(day@));
        assert(final(self)@.days.last() == day@);
        assert(final(self)@ == old(self)@.with_day(final(self)@.days.last()));
        Ok(id)
    }

    /// Lets `user` unlock the day that `user_day` stands for.
    pub fn unlock_day(&mut self, user: &User, user_day: &UserDay, code: Option<String>, now: i64) -> (
        outcome: Result<(), KeyError>)
        ensures
            old(self)@.touched(final(self)@, outcome, user_day.day.id),
            old(self)@.day_index(user_day.day.id) is Some ==> day_unlocked(
                old(self)@.day_before(user_day.day.id),
                old(self)@.day_after(final(self)@, user_day.day.id),
                outcome,
                user@,
                chars_of_owned(code),
                now,
            ),
    {
        let i = match self.position_of_day(user_day.day.id) {
            None => {
                return Err(KeyError::NotFound);
            },
            Some(i) => i,
        };
        let offered: Option<&str> = match &code {
            Some(c) => Some(c.as_str()),
            None => None,
        };
        assert(chars_of(offered) == chars_of_owned(code));
        let ghost before = self@;
        assert(before.days[i as int] == self.days@[i as int]@);
        let outcome = self.days[i].unlock_day(user, offered, now);
        proof {
            assert(self@.days[i as int] == self.days@[i as int]@);
            assert(self@.days =~= before.days.update(i as int, self@.days[i as int]));
            assert(before.differs_at(self@, i as int));
        }
        outcome
    }

    /// Removes the day that `user_day` stands for, with its content and
    /// every unlock record. `NotFound` where the day is gone already.
    pub fn delete_day(&mut self, user_day: &UserDay) -> (outcome: Result<(), KeyError>)
        ensures
            match old(self)@.day_index(user_day.day.id) {
                None => outcome == Err::<(), KeyError>(KeyError::NotFound) && final(self)@ == old(
                    self,
                )@,
                Some(i) => outcome is Ok && final(self)@ == (RepositoryView {
                    days: old(self)@.days.remove(i),
                    ..old(self)@
                }),
            },
    {
        let i = match self.position_of_day(user_day.day.id) {
            None => {
                return Err(KeyError::NotFound);
            },
            Some(i) => i,
        };
        self.days.remove(i);
        assert(final(self)@.days =~= old(self)@.days.remove(i as int));
        Ok(())
    }

    /// Replaces the content of the day that `user_day` stands for.
    pub fn edit_content(&mut self, user_day: &UserDay, content: String) -> (outcome: Result<
        (),
        KeyError,
    >)
        ensures
            old(self)@.touched(final(self)@, outcome, user_day.day.id),
            old(self)@.day_index(user_day.day.id) is Some ==> content_edited(
                old(self)@.day_before(user_day.day.id),
                old(self)@.day_after(final(self)@, user_day.day.id),
                outcome,
                user_day.day_key_handler@,
                vstd::utf8::encode_utf8(content@),
            ),
    {
        let i = match self.position_of_day(user_day.day.id) {
            None => {
                return Err(KeyError::NotFound);
            },
            Some(i) => i,
        };
        let bytes = content.as_str().as_bytes();
        assert(bytes@ == vstd::utf8::encode_utf8(content@));
        let ghost before = self@;
        assert(before.days[i as int] == self.days@[i as int]@);
        let outcome = self.days[i].edit_content(user_day, bytes);
        proof {
            assert(self@.days[i as int] == self.days@[i as int]@);
            assert(self@.days =~= before.days.update(i as int, self@.days[i as int]));
            assert(before.differs_at(self@, i as int));
        }
        outcome
    }

    /// Changes the password of the protected day that `user_day` stands
    /// for, and revokes every other user's unlock.
    pub fn update_password(&mut self, user_day: &UserDay, user: &User, password: &str) -> (outcome:
        Result<(), KeyError>)
        ensures
            old(self)@.touched(final(self)@, outcome, user_day.day.id),
            old(self)@.day_index(user_day.day.id) is Some ==> password_updated(
                old(self)@.day_before(user_day.day.id),
                old(self)@.day_after(final(self)@, user_day.day.id),
                outcome,
                user_day.day_key_handler@,
                user@,
                password@,
            ),
    {
        let i = match self.position_of_day(user_day.day.id) {
            None => {
                return Err(KeyError::NotFound);
            },
            Some(i) => i,
        };
        let ghost before = self@;
        assert(before.days[i as int] == self.days@[i as int]@);
        let outcome = self.days[i].update_password(user_day, user, password);
        proof {
            assert(self@.days[i as int] == self.days@[i as int]@);
            assert(self@.days =~= before.days.update(i as int, self@.days[i as int]));
            assert(before.differs_at(self@, i as int));
        }
        outcome
    }

    /// Puts the unprotected day that `user_day` stands for under
    /// `password`, and revokes every other user's unlock.
    pub fn set_password(&mut self, user_day: &UserDay, user: &User, password: &str) -> (outcome:
        Result<(), KeyError>)
        requires
            old(self)@.day_index(user_day.day.id) matches Some(i) ==> !old(
                self,
            )@.days[i].is_protected(),
        ensures
            old(self)@.touched(final(self)@, outcome, user_day.day.id),
            old(self)@.day_index(user_day.day.id) is Some ==> password_set(
                old(self)@.day_before(user_day.day.id),
                old(self)@.day_after(final(self)@, user_day.day.id),
                outcome,
                user@,
                password@,
            ),
    {
        let i = match self.position_of_day(user_day.day.id) {
            None => {
                return Err(KeyError::NotFound);
            },
            Some(i) => i,
        };
        let ghost before = self@;
        assert(before.days[i as int] == self.days@[i as int]@);
        let outcome = self.days[i].set_password(user, password);
        proof {
            assert(self@.days[i as int] == self.days@[i as int]@);
            assert(self@.days =~= before.days.update(i as int, self@.days[i as int]));
            assert(before.differs_at(self@, i as int));
        }
        outcome
    }

    /// Removes the password of the protected day that `user_day` stands
    /// for. The content is stored as it is from then on.
    pub fn remove_password(&mut self, user_day: &UserDay) -> (outcome: Result<(), KeyError>)
        ensures
            old(self)@.touched(final(self)@, outcome, user_day.day.id),
            old(self)@.day_index(user_day.day.id) is Some ==> applied(
                old(self)@.day_before(user_day.day.id),
                old(self)@.day_after(final(self)@, user_day.day.id),
                outcome,
                remove_password_spec(
                    old(self)@.day_before(user_day.day.id),
                    user_day.day_key_handler@,
                ),
            ),
    {
        let i = match self.position_of_day(user_day.day.id) {
            None => {
                return Err(KeyError::NotFound);
            },
            Some(i) => i,
        };
        let ghost before = self@;
        assert(before.days[i as int] == self.days@[i as int]@);
        let outcome = self.days[i].remove_password(user_day);
        proof {
            assert(self@.days[i as int] == self.days@[i as int]@);
            assert(self@.days =~= before.days.update(i as int, self@.days[i as int]));
            assert(before.differs_at(self@, i as int));
        }
        outcome
    }
}

/// The values of a run of calendars as one user sees them.
pub open spec fn user_calendars_view(calendars: Seq<UserCalendar>) -> Seq<UserCalendarView> {
    Seq::new(calendars.len(), |i: int| calendars[i]@)
}

/// The values of a run of calendars with their days.
pub open spec fn rich_view(calendars: Seq<RichUserCalendar>) -> Seq<RichUserCalendarView> {
    Seq::new(calendars.len(), |i: int| calendars[i]@)
}

/// The value of a calendar that may not have been found.
pub open spec fn found_calendar(r: Result<UserCalendar, KeyError>) -> Result<
    UserCalendarView,
    KeyError,
> {
    match r {
        Ok(c) => Ok(c@),
        Err(e) => Err(e),
    }
}

/// The value of a calendar that may not have been made.
pub open spec fn made_calendar(r: Result<Calendar, KeyError>) -> Result<CalendarView, KeyError> {
    match r {
        Ok(c) => Ok(c@),
        Err(e) => Err(e),
    }
}

/// A day as a user sees it in a list: when the user unlocked it, if ever,
/// and no key.
pub open spec fn listed(day: DayView, user_id: i32) -> UserDayView {
    UserDayView {
        day: day.day(),
        unlocked_at: match day.row_of(user_id) {
            Some(row) => Some(row.unlocked_at),
            None => None,
        },
        day_key: None,
    }
}

/// Where a day that unlocks at `unlocks_at` goes in a list ordered by
/// that moment: behind every day that unlocks no later.
pub open spec fn slot(sorted: Seq<UserDayView>, unlocks_at: i64) -> int
    decreases sorted.len(),
{
    if sorted.len() == 0 {
        0
    } else if sorted.last().day.unlocks_at <= unlocks_at {
        sorted.len() as int
    } else {
        slot(sorted.drop_last(), unlocks_at)
    }
}

/// The days of the given calendars as `user_id` sees them, ordered by the
/// moment they unlock; days that unlock together stay in stored order.
pub open spec fn days_listed(days: Seq<DayView>, calendar_ids: Seq<i32>, user_id: i32) -> Seq<
    UserDayView,
>
    decreases days.len(),
{
    if days.len() == 0 {
        Seq::empty()
    } else {
        let rest = days_listed(days.drop_last(), calendar_ids, user_id);
        if calendar_ids.contains(days.last().calendar_id) {
            rest.insert(slot(rest, days.last().unlocks_at), listed(days.last(), user_id))
        } else {
            rest
        }
    }
}

/// Whether a list of days is ordered by the moment they unlock.
pub open spec fn ordered(days: Seq<UserDayView>) -> bool {
    forall|i: int, j: int|
        0 <= i <= j < days.len() ==> days[i].day.unlocks_at <= days[j].day.unlocks_at
}

/// The days among `days` that belong to the calendar, in their order.
pub open spec fn days_in(days: Seq<UserDayView>, calendar_id: i32) -> Seq<UserDayView>
    decreases days.len(),
{
    if days.len() == 0 {
        Seq::empty()
    } else if days.last().day.calendar_id == calendar_id {
        days_in(days.drop_last(), calendar_id).push(days.last())
    } else {
        days_in(days.drop_last(), calendar_id)
    }
}

/// Whether the calendar at position `i` occurs earlier in the list.
pub open spec fn repeated(calendars: Seq<UserCalendarView>, i: int) -> bool {
    exists|j: int| 0 <= j < i && calendars[j].calendar.id == calendars[i].calendar.id
}

/// Each calendar with its days. A calendar that occurs a second time in
/// the list comes without days.
pub open spec fn grouped(calendars: Seq<UserCalendarView>, days: Seq<UserDayView>) -> Seq<
    RichUserCalendarView,
> {
    Seq::new(
        calendars.len(),
        |i: int|
            RichUserCalendarView {
                calendar: calendars[i],
                days: if repeated(calendars, i) {
                    Seq::empty()
                } else {
                    days_in(days, calendars[i].calendar.id)
                },
            },
    )
}

/// The numbers of the calendars in a list.
pub open spec fn ids_of(calendars: Seq<UserCalendarView>) -> Seq<i32> {
    Seq::new(calendars.len(), |i: int| calendars[i].calendar.id)
}

impl RepositoryView {
    /// The calendar with the given number.
    pub open spec fn calendar(self, id: i32) -> Option<CalendarView> {
        first_match(self.calendars, |c: CalendarView| c.id == id)
    }

    /// Since when `user_id` follows the calendar, if at all.
    pub open spec fn subscribed_at(self, user_id: i32, calendar_id: i32) -> Option<i64> {
        match first_match(
            self.subscriptions,
            |s: Subscription| s.user_id == user_id && s.calendar_id == calendar_id,
        ) {
            Some(s) => Some(s.subscribed_at),
            None => None,
        }
    }

    /// The calendar numbered `id` as `user_id` sees it.
    pub open spec fn user_calendar(self, id: i32, user_id: i32) -> Result<
        UserCalendarView,
        KeyError,
    > {
        match self.calendar(id) {
            None => Err(KeyError::NotFound),
            Some(calendar) => Ok(
                UserCalendarView { calendar, subscribed_at: self.subscribed_at(user_id, id) },
            ),
        }
    }

    /// The calendars that the first `n` subscriptions make `user_id`
    /// follow, in the order of the subscriptions.
    pub open spec fn followed(self, user_id: i32, n: int) -> Seq<UserCalendarView>
        decreases n,
    {
        if n <= 0 {
            Seq::empty()
        } else {
            let rest = self.followed(user_id, n - 1);
            let s = self.subscriptions[n - 1];
            if s.user_id == user_id && self.calendar(s.calendar_id) is Some {
                rest.push(
                    UserCalendarView {
                        calendar: self.calendar(s.calendar_id)->0,
                        subscribed_at: Some(s.subscribed_at),
                    },
                )
            } else {
                rest
            }
        }
    }

    /// The calendars `user_id` follows.
    pub open spec fn subscriptions_of(self, user_id: i32) -> Seq<UserCalendarView> {
        self.followed(user_id, self.subscriptions.len() as int)
    }

    /// What a user's landing page shows: the followed calendars, each with
    /// its days in the order they unlock.
    pub open spec fn dashboard(self, user_id: i32) -> Seq<RichUserCalendarView> {
        grouped(
            self.subscriptions_of(user_id),
            days_listed(self.days, ids_of(self.subscriptions_of(user_id)), user_id),
        )
    }

    /// The repository after `owner_id` made a calendar at `now`:
    /// `LimitExceeded` where the calendar numbers are used up.
    pub open spec fn with_calendar(self, owner_id: i32, title: Seq<char>, now: i64) -> Result<
        RepositoryView,
        KeyError,
    > {
        if self.next_calendar_id == i32::MAX {
            Err(KeyError::LimitExceeded)
        } else {
            Ok(
                RepositoryView {
                    calendars: self.calendars.push(
                        CalendarView {
                            id: self.next_calendar_id,
                            owner_id,
                            title,
                            created_at: now,
                        },
                    ),
                    next_calendar_id: (self.next_calendar_id + 1) as i32,
                    ..self
                },
            )
        }
    }

    /// The repository after `user_id` began to follow a calendar at
    /// `now`: `Conflict` where the user follows it already.
    pub open spec fn with_subscription(self, user_id: i32, calendar_id: i32, now: i64) -> Result<
        RepositoryView,
        KeyError,
    > {
        if self.subscribed_at(user_id, calendar_id) is Some {
            Err(KeyError::Conflict)
        } else {
            Ok(
                RepositoryView {
                    subscriptions: self.subscriptions.push(
                        Subscription { user_id, calendar_id, subscribed_at: now },
                    ),
                    ..self
                },
            )
        }
    }
}

/// Putting a day into its slot keeps a list ordered that was ordered.
pub proof fn lemma_slot_keeps_order(sorted: Seq<UserDayView>, day: UserDayView)
    requires
        ordered(sorted),
    ensures
        0 <= slot(sorted, day.day.unlocks_at) <= sorted.len(),
        ordered(sorted.insert(slot(sorted, day.day.unlocks_at), day)),
        forall|i: int|
            0 <= i < slot(sorted, day.day.unlocks_at) ==> (#[trigger] sorted[i]).day.unlocks_at
                <= day.day.unlocks_at,
        forall|i: int|
            slot(sorted, day.day.unlocks_at) <= i < sorted.len() ==> (
            #[trigger] sorted[i]).day.unlocks_at > day.day.unlocks_at,
    decreases sorted.len(),
{
    let t = day.day.unlocks_at;
    if sorted.len() > 0 && sorted.last().day.unlocks_at > t {
        let shorter = sorted.drop_last();
        assert forall|i: int, j: int| 0 <= i <= j < shorter.len() implies shorter[i].day.unlocks_at
            <= shorter[j].day.unlocks_at by {
            assert(shorter[i] == sorted[i] && shorter[j] == sorted[j]);
        }
        lemma_slot_keeps_order(shorter, day);
        assert forall|i: int| slot(sorted, t) <= i < sorted.len() implies (
        #[trigger] sorted[i]).day.unlocks_at > t by {
            if i < shorter.len() {
                assert(shorter[i] == sorted[i]);
            }
        }
        assert forall|i: int| 0 <= i < slot(sorted, t) implies (#[trigger] sorted[i]).day.unlocks_at
            <= t by {
            assert(shorter[i] == sorted[i]);
        }
    }
    let k = slot(sorted, t);
    let longer = sorted.insert(k, day);
    assert forall|i: int, j: int| 0 <= i <= j < longer.len() implies longer[i].day.unlocks_at
        <= longer[j].day.unlocks_at by {
        if i < k && j > k {
            assert(longer[i] == sorted[i] && longer[j] == sorted[j - 1]);
        } else if i < k && j < k {
            assert(longer[i] == sorted[i] && longer[j] == sorted[j]);
        } else if i > k {
            assert(longer[i] == sorted[i - 1] && longer[j] == sorted[j - 1]);
        } else if i == k && j > k {
            assert(longer[j] == sorted[j - 1]);
        } else if i < k && j == k {
            assert(longer[i] == sorted[i]);
        }
    }
}

/// A list of days comes out in the order in which the days unlock.
pub proof fn lemma_days_listed_in_order(days: Seq<DayView>, calendar_ids: Seq<i32>, user_id: i32)
    ensures
        ordered(days_listed(days, calendar_ids, user_id)),
    decreases days.len(),
{
    if days.len() > 0 {
        lemma_days_listed_in_order(days.drop_last(), calendar_ids, user_id);
        let rest = days_listed(days.drop_last(), calendar_ids, user_id);
        lemma_slot_keeps_order(rest, listed(days.last(), user_id));
    }
}

impl CalendarRepository {
    /// The position of the calendar with the given number.
    pub fn position_of_calendar(&self, id: i32) -> (position: Option<usize>)
        ensures
            match position {
                Some(i) => i < self.calendars@.len() && self@.calendar(id) == Some(
                    self.calendars@[i as int]@,
                ),
                None => self@.calendar(id) is None,
            },
    {
        let ghost wanted = |c: CalendarView| c.id == id;
        let mut i: usize = 0;
        while i < self.calendars.len()
            invariant
                i <= self.calendars@.len(),
                wanted == (|c: CalendarView| c.id == id),
                forall|j: int| 0 <= j < i ==> !wanted(#[trigger] self@.calendars[j]),
            decreases self.calendars@.len() - i,
        {
            if self.calendars[i].id == id {
                proof {
                    lemma_first_index_is(self@.calendars, wanted, i as int);
                }
                return Some(i);
            }
            i = i + 1;
        }
        proof {
            lemma_first_index_none(self@.calendars, wanted);
        }
        None
    }

    /// Since when `user_id` follows the calendar, if at all.
    pub fn subscription_of(&self, user_id: i32, calendar_id: i32) -> (since: Option<i64>)
        ensures
            since == self@.subscribed_at(user_id, calendar_id),
    {
        let ghost wanted = |s: Subscription| s.user_id == user_id && s.calendar_id == calendar_id;
        let mut i: usize = 0;
        while i < self.subscriptions.len()
            invariant
                i <= self.subscriptions@.len(),
                wanted == (|s: Subscription| s.user_id == user_id && s.calendar_id == calendar_id),
                forall|j: int| 0 <= j < i ==> !wanted(#[trigger] self@.subscriptions[j]),
            decreases self.subscriptions@.len() - i,
        {
            if self.subscriptions[i].user_id == user_id && self.subscriptions[i].calendar_id
                == calendar_id {
                proof {
                    lemma_first_index_is(self@.subscriptions, wanted, i as int);
                }
                return Some(self.subscriptions[i].subscribed_at);
            }
            i = i + 1;
        }
        proof {
            lemma_first_index_none(self@.subscriptions, wanted);
        }
        None
    }

    /// Makes a calendar that `owner` owns.
    pub fn create_calendar(&mut self, owner: &User, title: &str, now: i64) -> (created: Result<
        Calendar,
        KeyError,
    >)
        ensures
            match old(self)@.with_calendar(owner.id, title@, now) {
                Ok(after) => final(self)@ == after && made_calendar(created) == Ok::<
                    CalendarView,
                    KeyError,
                >(after.calendars.last()),
                Err(e) => final(self)@ == old(self)@ && made_calendar(created) == Err::<
                    CalendarView,
                    KeyError,
                >(e),
            },
    {
        if self.next_calendar_id == i32::MAX {
            return Err(KeyError::LimitExceeded);
        }
        let id = self.next_calendar_id;
        let calendar = Calendar { id, owner_id: owner.id, title: title.to_owned(), created_at: now };
        let copy = calendar.clone();
        self.calendars.push(calendar);
        self.next_calendar_id = id + 1;
        assert(final(self)@.calendars =~= old(self)@.calendars.push(calendar@));
        Ok(copy)
    }

    /// Lets `user` follow `calendar` from `now` on.
    pub fn subscribe(&mut self, user: &User, calendar: &Calendar, now: i64) -> (outcome: Result<
        (),
        KeyError,
    >)
        ensures
            match old(self)@.with_subscription(user.id, calendar.id, now) {
                Ok(after) => final(self)@ == after && outcome is Ok,
                Err(e) => final(self)@ == old(self)@ && outcome == Err::<(), KeyError>(e),
            },
    {
        if self.subscription_of(user.id, calendar.id).is_some() {
            return Err(KeyError::Conflict);
        }
        self.subscriptions.push(
            Subscription { user_id: user.id, calendar_id: calendar.id, subscribed_at: now },
        );
        Ok(())
    }

    /// The calendar numbered `cal_id` as `user` sees it; `NotFound` where
    /// there is none.
    pub fn get_user_calendar(&self, cal_id: i32, user: &User) -> (found: Result<
        UserCalendar,
        KeyError,
    >)
        ensures
            found_calendar(found) == self@.user_calendar(cal_id, user.id),
    {
        match self.position_of_calendar(cal_id) {
            None => Err(KeyError::NotFound),
            Some(i) => Ok(
                UserCalendar {
                    calendar: self.calendars[i].clone(),
                    subscribed_at: self.subscription_of(user.id, cal_id),
                },
            ),
        }
    }

    /// The calendars `user` follows, in the order in which they were
    /// subscribed to.
    pub fn get_subscriptions(&self, user: &User) -> (followed: Vec<UserCalendar>)
        ensures
            user_calendars_view(followed@) == self@.subscriptions_of(user.id),
    {
        let mut followed: Vec<UserCalendar> = Vec::new();
        let mut n: usize = 0;
        assert(user_calendars_view(followed@) =~= self@.followed(user.id, 0));
        while n < self.subscriptions.len()
            invariant
                n <= self.subscriptions@.len(),
                user_calendars_view(followed@) == self@.followed(user.id, n as int),
            decreases self.subscriptions@.len() - n,
        {
            let s = self.subscriptions[n];
            if s.user_id == user.id {
                match self.position_of_calendar(s.calendar_id) {
                    Some(i) => {
                        let ghost before = user_calendars_view(followed@);
                        let entry = UserCalendar {
                            calendar: self.calendars[i].clone(),
                            subscribed_at: Some(s.subscribed_at),
                        };
                        followed.push(entry);
                        assert(user_calendars_view(followed@) =~= before.push(entry@));
                    },
                    None => {},
                }
            }
            n = n + 1;
        }
        followed
    }

    /// Whether `id` is among `ids`.
    pub fn contains_id(ids: &[i32], id: i32) -> (found: bool)
        ensures
            found == ids@.contains(id),
    {
        let mut i: usize = 0;
        while i < ids.len()
            invariant
                i <= ids@.len(),
                forall|j: int| 0 <= j < i ==> ids@[j] != id,
            decreases ids@.len() - i,
        {
            if ids[i] == id {
                return true;
            }
            i = i + 1;
        }
        false
    }

    /// The days of the given calendars as `user` sees them, without keys,
    /// in the order in which they unlock.
    pub fn get_user_days_without_key(&self, calendar_ids: &[i32], user: &User) -> (days: Vec<
        UserDay,
    >)
        ensures
            user_days_view(days@) == days_listed(self@.days, calendar_ids@, user.id),
            ordered(user_days_view(days@)),
    {
        let mut days: Vec<UserDay> = Vec::new();
        let mut n: usize = 0;
        assert(self@.days.take(0) =~= Seq::<DayView>::empty());
        assert(user_days_view(days@) =~= days_listed(self@.days.take(0), calendar_ids@, user.id));
        while n < self.days.len()
            invariant
                n <= self.days@.len(),
                user_days_view(days@) == days_listed(
                    self@.days.take(n as int),
                    calendar_ids@,
                    user.id,
                ),
            decreases self.days@.len() - n,
        {
            let record = &self.days[n];
            proof {
                let upto = self@.days.take(n as int + 1);
                assert(upto.drop_last() =~= self@.days.take(n as int));
                assert(upto.last() == record@);
            }
            if Self::contains_id(calendar_ids, record.calendar_id) {
                let unlocked_at = match record.position_of(user.id) {
                    Some(i) => Some(record.unlocks[i].unlocked_at),
                    None => None,
                };
                let entry = UserDay::new(record.day(), unlocked_at, KeyHandler::empty());
                assert(entry@ == listed(record@, user.id));
                let ghost before = user_days_view(days@);
                let mut k: usize = days.len();
                assert(before.take(k as int) =~= before);
                while k > 0 && days[k - 1].day.unlocks_at > record.unlocks_at
                    invariant
                        k <= days@.len(),
                        before == user_days_view(days@),
                        slot(before, record.unlocks_at) == slot(
                            before.take(k as int),
                            record.unlocks_at,
                        ),
                    decreases k,
                {
                    proof {
                        assert(before.take(k as int).drop_last() =~= before.take(k as int - 1));
                        assert(before.take(k as int).last() == before[k as int - 1]);
                    }
                    k = k - 1;
                }
                proof {
                    if k > 0 {
                        assert(before.take(k as int).last() == before[k as int - 1]);
                    }
                    assert(slot(before, record.unlocks_at) == k as int);
                }
                days.insert(k, entry);
                assert(user_days_view(days@) =~= before.insert(k as int, entry@));
            }
            n = n + 1;
        }
        proof {
            assert(self@.days.take(n as int) =~= self@.days);
            lemma_days_listed_in_order(self@.days, calendar_ids@, user.id);
        }
        days
    }

    /// The days of one calendar as `user` sees them, in the order in which
    /// they unlock.
    pub fn get_calendar_user_days(&self, user_calendar: &UserCalendar, user: &User) -> (days: Vec<
        UserDay,
    >)
        ensures
            user_days_view(days@) == days_listed(
                self@.days,
                seq![user_calendar.calendar.id],
                user.id,
            ),
            ordered(user_days_view(days@)),
    {
        let ids: [i32; 1] = [user_calendar.calendar.id];
        assert(ids@ =~= seq![user_calendar.calendar.id]);
        self.get_user_days_without_key(ids.as_slice(), user)
    }

    /// The days among `days` that belong to the calendar, in their order.
    pub fn days_of_calendar(days: &Vec<UserDay>, calendar_id: i32) -> (chosen: Vec<UserDay>)
        ensures
            user_days_view(chosen@) == days_in(user_days_view(days@), calendar_id),
    {
        let mut chosen: Vec<UserDay> = Vec::new();
        let mut n: usize = 0;
        let ghost all = user_days_view(days@);
        assert(all.take(0) =~= Seq::<UserDayView>::empty());
        assert(user_days_view(chosen@) =~= days_in(all.take(0), calendar_id));
        while n < days.len()
            invariant
                n <= days@.len(),
                all == user_days_view(days@),
                user_days_view(chosen@) == days_in(all.take(n as int), calendar_id),
            decreases days@.len() - n,
        {
            proof {
                let upto = all.take(n as int + 1);
                assert(upto.drop_last() =~= all.take(n as int));
                assert(upto.last() == days@[n as int]@);
            }
            if days[n].day.calendar_id == calendar_id {
                let ghost before = user_days_view(chosen@);
                let entry = days[n].clone();
                chosen.push(entry);
                assert(user_days_view(chosen@) =~= before.push(entry@));
            }
            n = n + 1;
        }
        assert(all.take(n as int) =~= all);
        chosen
    }

    /// Puts each calendar together with its days. A calendar that occurs
    /// a second time in the list comes without days.
    pub fn group(calendars: &Vec<UserCalendar>, days: &Vec<UserDay>) -> (rich: Vec<
        RichUserCalendar,
    >)
        ensures
            rich_view(rich@) == grouped(user_calendars_view(calendars@), user_days_view(days@)),
    {
        let mut rich: Vec<RichUserCalendar> = Vec::new();
        let mut i: usize = 0;
        let ghost all = user_calendars_view(calendars@);
        while i < calendars.len()
            invariant
                i <= calendars@.len(),
                all == user_calendars_view(calendars@),
                rich@.len() == i,
                forall|k: int|
                    0 <= k < i ==> (#[trigger] rich@[k])@ == grouped(all, user_days_view(days@))[k],
            decreases calendars@.len() - i,
        {
            let id = calendars[i].calendar.id;
            let mut seen = false;
            let mut j: usize = 0;
            while j < i
                invariant
                    j <= i,
                    i < calendars@.len(),
                    all == user_calendars_view(calendars@),
                    id == all[i as int].calendar.id,
                    seen == (exists|k: int| 0 <= k < j && all[k].calendar.id == id),
                decreases i - j,
            {
                if calendars[j].calendar.id == id {
                    seen = true;
                    assert(all[j as int].calendar.id == id);
                }
                j = j + 1;
            }
            let chosen = if seen {
                let none: Vec<UserDay> = Vec::new();
                assert(user_days_view(none@) =~= Seq::<UserDayView>::empty());
                none
            } else {
                Self::days_of_calendar(days, id)
            };
            rich.push(RichUserCalendar { calendar: calendars[i].clone(), days: chosen });
            i = i + 1;
        }
        assert(rich_view(rich@) =~= grouped(all, user_days_view(days@)));
        rich
    }

    /// What the landing page of `user` shows: the calendars the user
    /// follows, each with its days in the order in which they unlock.
    pub fn get_dashboard_data(&self, user: &User) -> (data: Vec<RichUserCalendar>)
        ensures
            rich_view(data@) == self@.dashboard(user.id),
    {
        let calendars = self.get_subscriptions(user);
        let mut ids: Vec<i32> = Vec::new();
        let mut i: usize = 0;
        while i < calendars.len()
            invariant
                i <= calendars@.len(),
                ids@.len() == i,
                forall|k: int| 0 <= k < i ==> ids@[k] == calendars@[k].calendar.id,
            decreases calendars@.len() - i,
        {
            ids.push(calendars[i].calendar.id);
            i = i + 1;
        }
        assert(ids@ =~= ids_of(user_calendars_view(calendars@)));
        let user_days = self.get_user_days_without_key(ids.as_slice(), user);
        Self::group(&calendars, &user_days)
    }
}

} // verus!
