//! The rules on who may do what to a calendar and its days.
//!
//! Only the owner of a calendar adds, edits, protects or deletes its
//! days; everybody who follows it may unlock a day once it is due.
use vstd::prelude::*;

use crate::error::KeyError;
use crate::model::calendar::{
    user_days_view, Calendar, CalendarView, RichUserCalendar, UserCalendar, UserDay,
};
use crate::model::user::User;
use crate::persistence::calendar_repository::{
    chars_in, chars_of_owned, days_listed, found_calendar, made_calendar, ordered, rich_view,
    text_spec, CalendarRepository, RepositoryView,
};
use crate::persistence::day_protection::{
    applied, content_edited, day_unlocked, password_set, password_updated, remove_password_spec,
};
use crate::persistence::day_record::{sees, DayView};

verus! {

/// The calendar a request addresses.
pub struct CalendarPath {
    pub calendar_id: i32,
}

/// The day a request addresses.
pub struct CalendarDayPath {
    pub day_id: i32,
}

/// The rules in front of the repository.
pub struct CalendarService {
    pub repo: CalendarRepository,
}

/// A password as it is stored: an empty one counts as none.
pub open spec fn given_password(password: Option<Seq<char>>) -> Option<Seq<char>> {
    match password {
        Some(p) => if p.len() == 0 {
            None
        } else {
            Some(p)
        },
        None => None,
    }
}

/// What a change of a day's password leaves behind. A password for a
/// protected day replaces the old one, a password for an unprotected day
/// protects it, no password for a protected day removes the protection,
/// and no password for an unprotected day changes nothing.
pub open spec fn password_edited(
    before: DayView,
    after: DayView,
    outcome: Result<(), KeyError>,
    held_day_key: Option<Seq<u8>>,
    user: crate::model::user::UserView,
    password: Option<Seq<char>>,
) -> bool {
    match password {
        Some(p) => if before.is_protected() {
            password_updated(before, after, outcome, held_day_key, user, p)
        } else {
            password_set(before, after, outcome, user, p)
        },
        None => if before.is_protected() {
            applied(before, after, outcome, remove_password_spec(before, held_day_key))
        } else {
            outcome is Ok && after == before
        },
    }
}

impl CalendarService {
    /// The rules in front of the given repository.
    pub fn new(repo: CalendarRepository) -> (service: Self)
        ensures
            service.repo == repo,
    {
        Self { repo }
    }

    /// The calendar numbered `cal_id` as `user` sees it.
    pub fn get_user_calendar(&self, cal_id: i32, user: &User) -> (found: Result<
        UserCalendar,
        KeyError,
    >)
        ensures
            found_calendar(found) == self.repo@.user_calendar(cal_id, user.id),
    {
        self.repo.get_user_calendar(cal_id, user)
    }

    /// The day numbered `day_id` of the calendar as `user` sees it, with
    /// the day key that user holds.
    pub fn get_user_day(&self, user_calendar: &UserCalendar, day_id: i32, user: &User) -> (user_day:
        Result<UserDay, KeyError>)
        ensures
            match self.repo@.day_index_in(day_id, user_calendar.calendar.id) {
                None => sees(user_day, Err(KeyError::NotFound)),
                Some(i) => sees(user_day, self.repo@.days[i].seen_by(user@.id, user@.content_key)),
            },
    {
        self.repo.get_user_day_with_key(user_calendar, day_id, user)
    }

    /// Replaces the content of a day. Only the calendar's owner may.
    pub fn edit_content(
        &mut self,
        user_calendar: &UserCalendar,
        user_day: &UserDay,
        user: &User,
        content: String,
    ) -> (outcome: Result<(), KeyError>)
        ensures
            user.id != user_calendar.calendar.owner_id ==> outcome == Err::<(), KeyError>(
                KeyError::Unauthorized,
            ) && final(self).repo@ == old(self).repo@,
            user.id == user_calendar.calendar.owner_id ==> old(self).repo@.touched(
                final(self).repo@,
                outcome,
                user_day.day.id,
            ),
            user.id == user_calendar.calendar.owner_id && old(self).repo@.day_index(
                user_day.day.id,
            ) is Some ==> content_edited(
                old(self).repo@.day_before(user_day.day.id),
                old(self).repo@.day_after(final(self).repo@, user_day.day.id),
                outcome,
                user_day.day_key_handler@,
                vstd::utf8::encode_utf8(content@),
            ),
    {
        if user.id != user_calendar.calendar.owner_id {
            return Err(KeyError::Unauthorized);
        }
        self.repo.edit_content(user_day, content)
    }

    /// Sets, changes or removes the password of a day. Only the
    /// calendar's owner may.
    pub fn edit_password(
        &mut self,
        user_calendar: &UserCalendar,
        user_day: &UserDay,
        user: &User,
        password: Option<String>,
    ) -> (outcome: Result<(), KeyError>)
        ensures
            user.id != user_calendar.calendar.owner_id ==> outcome == Err::<(), KeyError>(
                KeyError::Unauthorized,
            ) && final(self).repo@ == old(self).repo@,
            user.id == user_calendar.calendar.owner_id ==> old(self).repo@.touched(
                final(self).repo@,
                outcome,
                user_day.day.id,
            ),
            user.id == user_calendar.calendar.owner_id && old(self).repo@.day_index(
                user_day.day.id,
            ) is Some ==> password_edited(
                old(self).repo@.day_before(user_day.day.id),
                old(self).repo@.day_after(final(self).repo@, user_day.day.id),
                outcome,
                user_day.day_key_handler@,
                user@,
                chars_of_owned(password),
            ),
    {
        if user.id != user_calendar.calendar.owner_id {
            return Err(KeyError::Unauthorized);
        }
        let i = match self.repo.position_of_day(user_day.day.id) {
            None => {
                return Err(KeyError::NotFound);
            },
            Some(i) => i,
        };
        let protected = self.repo.days[i].is_protected();
        assert(self.repo@.days[i as int] == self.repo.days@[i as int]@);
        match password {
            Some(password) => {
                if protected {
                    self.repo.update_password(user_day, user, password.as_str())
                } else {
                    self.repo.set_password(user_day, user, password.as_str())
                }
            },
            None => {
                if protected {
                    self.repo.remove_password(user_day)
                } else {
                    assert(self.repo@.days =~= self.repo@.days.update(
                        i as int,
                        self.repo@.days[i as int],
                    ));
                    Ok(())
                }
            },
        }
    }

    /// Lets `user` unlock a day at the moment `now`.
    ///
    /// Refused with `NotYetAvailable` before the day unlocks, whatever the
    /// code, else with `AlreadyUnlocked` where `user_day` shows an unlock;
    /// else the repository decides.
    pub fn unlock_day(&mut self, user_day: &UserDay, user: &User, code: Option<String>, now: i64) -> (
        outcome: Result<(), KeyError>)
        ensures
            user_day.day.unlocks_at > now ==> outcome == Err::<(), KeyError>(
                KeyError::NotYetAvailable,
            ) && final(self).repo@ == old(self).repo@,
            user_day.unlocked_at is Some && user_day.day.unlocks_at <= now ==> outcome == Err::<
                (),
                KeyError,
            >(KeyError::AlreadyUnlocked) && final(self).repo@ == old(self).repo@,
            user_day.unlocked_at is None && user_day.day.unlocks_at <= now ==> old(
                self,
            ).repo@.touched(final(self).repo@, outcome, user_day.day.id),
            user_day.unlocked_at is None && user_day.day.unlocks_at <= now && old(
                self,
            ).repo@.day_index(user_day.day.id) is Some ==> day_unlocked(
                old(self).repo@.day_before(user_day.day.id),
                old(self).repo@.day_after(final(self).repo@, user_day.day.id),
                outcome,
                user@,
                chars_of_owned(code),
                now,
            ),
    {
        if user_day.day.unlocks_at > now {
            return Err(KeyError::NotYetAvailable);
        }
        if user_day.is_unlocked() {
            return Err(KeyError::AlreadyUnlocked);
        }
        self.repo.unlock_day(user, user_day, code, now)
    }

    /// The content of a day that `user` has unlocked, as text; `NotFound`
    /// where `user_day` shows no unlock.
    pub fn get_rich_content(&self, user_day: &UserDay, user: &User) -> (content: Result<
        String,
        KeyError,
    >)
        ensures
            user_day.unlocked_at is None ==> chars_in(content) == Err::<Seq<char>, KeyError>(
                KeyError::NotFound,
            ),
            user_day.unlocked_at is Some ==> match self.repo@.day_index(user_day.day.id) {
                None => chars_in(content) == Err::<Seq<char>, KeyError>(KeyError::NotFound),
                Some(i) => chars_in(content) == text_spec(
                    self.repo@.days[i].content_with(true, user_day.day_key_handler@),
                ),
            },
    {
        if user_day.unlocked_at.is_some() {
            self.repo.get_content(user_day)
        } else {
            Err(KeyError::NotFound)
        }
    }

    /// Removes a day. Only the calendar's owner may.
    pub fn delete_day(&mut self, user_calendar: &UserCalendar, user_day: &UserDay, user: &User) -> (
        outcome: Result<(), KeyError>)
        ensures
            user.id != user_calendar.calendar.owner_id ==> outcome == Err::<(), KeyError>(
                KeyError::Unauthorized,
            ) && final(self).repo@ == old(self).repo@,
            user.id == user_calendar.calendar.owner_id ==> match old(self).repo@.day_index(
                user_day.day.id,
            ) {
                None => outcome == Err::<(), KeyError>(KeyError::NotFound) && final(self).repo@
                    == old(self).repo@,
                Some(i) => outcome is Ok && final(self).repo@ == (RepositoryView {
                    days: old(self).repo@.days.remove(i),
                    ..old(self).repo@
                }),
            },
    {
        if user_calendar.calendar.owner_id == user.id {
            self.repo.delete_day(user_day)
        } else {
            Err(KeyError::Unauthorized)
        }
    }

    /// Makes a calendar that `user` owns and follows from the start.
    pub fn create_calendar(&mut self, user: &User, title: &str, now: i64) -> (created: Result<
        Calendar,
        KeyError,
    >)
        ensures
            match old(self).repo@.with_calendar(user.id, title@, now) {
                Err(e) => final(self).repo@ == old(self).repo@ && made_calendar(created) == Err::<
                    CalendarView,
                    KeyError,
                >(e),
                Ok(made) => match made.with_subscription(
                    user.id,
                    old(self).repo@.next_calendar_id,
                    now,
                ) {
                    Err(e) => final(self).repo@ == made && made_calendar(created) == Err::<
                        CalendarView,
                        KeyError,
                    >(e),
                    Ok(followed) => final(self).repo@ == followed && made_calendar(created) == Ok::<
                        CalendarView,
                        KeyError,
                    >(made.calendars.last()),
                },
            },
    {
        let calendar = self.repo.create_calendar(user, title, now)?;
        self.repo.subscribe(user, &calendar, now)?;
        Ok(calendar)
    }

    /// Lets `user` follow a calendar; `Conflict` where `user_calendar`
    /// shows that the user does already.
    pub fn subscribe(&mut self, user: &User, user_calendar: &UserCalendar, now: i64) -> (outcome:
        Result<(), KeyError>)
        ensures
            user_calendar.subscribed_at is Some ==> outcome == Err::<(), KeyError>(
                KeyError::Conflict,
            ) && final(self).repo@ == old(self).repo@,
            user_calendar.subscribed_at is None ==> match old(self).repo@.with_subscription(
                user.id,
                user_calendar.calendar.id,
                now,
            ) {
                Ok(after) => final(self).repo@ == after && outcome is Ok,
                Err(e) => final(self).repo@ == old(self).repo@ && outcome == Err::<(), KeyError>(e),
            },
    {
        if user_calendar.subscribed_at.is_some() {
            return Err(KeyError::Conflict);
        }
        self.repo.subscribe(user, &user_calendar.calendar, now)
    }

    /// What the landing page of `user` shows.
    pub fn get_dashboard_data(&self, user: &User) -> (data: Vec<RichUserCalendar>)
        ensures
            rich_view(data@) == self.repo@.dashboard(user.id),
    {
        self.repo.get_dashboard_data(user)
    }

    /// The days of one calendar as `user` sees them, in the order in which
    /// they unlock.
    pub fn get_calendar_user_days(&self, user_calendar: &UserCalendar, user: &User) -> (days: Vec<
        UserDay,
    >)
        ensures
            user_days_view(days@) == days_listed(
                self.repo@.days,
                seq![user_calendar.calendar.id],
                user.id,
            ),
            ordered(user_days_view(days@)),
    {
        self.repo.get_calendar_user_days(user_calendar, user)
    }

    /// Adds a day to a calendar. Only the calendar's owner may. An empty
    /// password counts as none.
    pub fn add_day(
        &mut self,
        user: &User,
        user_calendar: &UserCalendar,
        unlocks_at: i64,
        password: Option<String>,
        content: String,
        now: i64,
    ) -> (added: Result<i32, KeyError>)
        ensures
            user.id != user_calendar.calendar.owner_id ==> added == Err::<i32, KeyError>(
                KeyError::Unauthorized,
            ) && final(self).repo@ == old(self).repo@,
            user.id == user_calendar.calendar.owner_id ==> old(self).repo@.day_added(
                final(self).repo@,
                added,
                user_calendar.calendar.id,
                unlocks_at,
                user@,
                given_password(chars_of_owned(password)),
                vstd::utf8::encode_utf8(content@),
                now,
            ),
    {
        if user.id != user_calendar.calendar.owner_id {
            return Err(KeyError::Unauthorized);
        }
        let given = match password {
            Some(p) => if p.as_str().is_empty() {
                None
            } else {
                Some(p)
            },
            None => None,
        };
        self.repo.add_day(user, user_calendar, unlocks_at, given, content, now)
    }
}

} // verus!
