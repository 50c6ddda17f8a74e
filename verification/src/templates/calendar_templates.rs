//! What the calendar and day pages show.
use vstd::prelude::*;

use crate::model::calendar::{UserCalendar, UserDay};
use crate::model::user::User;

verus! {

/// The page on which a calendar is created.
pub struct CreateCalendarTemplate {
    pub message: Option<String>,
}

impl CreateCalendarTemplate {
    /// The page, with the message of a failed attempt if there was one.
    pub fn new(message: Option<String>) -> (page: CreateCalendarTemplate)
        ensures
            page.message == message,
    {
        CreateCalendarTemplate { message }
    }
}

/// The page that shows a calendar with its days.
pub struct ShowCalendarTemplate {
    pub user_calendar: UserCalendar,
    pub days: Vec<UserDay>,
    pub user: User,
}

impl ShowCalendarTemplate {
    /// The page for `user` looking at `user_calendar`.
    pub fn new(user_calendar: UserCalendar, days: Vec<UserDay>, user: User) -> (page:
        ShowCalendarTemplate)
        ensures
            page.user_calendar == user_calendar,
            page.days == days,
            page.user == user,
    {
        ShowCalendarTemplate { user_calendar, days, user }
    }
}

/// The page that shows the content of a day.
pub struct ShowDayTemplate {
    pub user_day: UserDay,
    pub user_calendar: UserCalendar,
    pub content: String,
    pub user: User,
}

impl ShowDayTemplate {
    /// The page for `user` reading `content`.
    pub fn new(user_day: UserDay, user_calendar: UserCalendar, content: String, user: User) -> (page:
        ShowDayTemplate)
        ensures
            page.user_day == user_day,
            page.user_calendar == user_calendar,
            page.content == content,
            page.user == user,
    {
        ShowDayTemplate { user_day, user_calendar, content, user }
    }
}

/// The page on which a day is unlocked.
pub struct UnlockDayTemplate {
    pub code: Option<String>,
    pub day: UserDay,
    pub message: Option<String>,
}

impl UnlockDayTemplate {
    /// The page as it is first shown, with the code filled in if one was
    /// handed over.
    pub fn new(code: Option<String>, day: UserDay) -> (page: UnlockDayTemplate)
        ensures
            page.code == code,
            page.day == day,
            page.message is None,
    {
        UnlockDayTemplate { code, day, message: None }
    }

    /// The same page with the message replaced.
    pub fn with_message(self, message: Option<String>) -> (page: UnlockDayTemplate)
        ensures
            page.code == self.code,
            page.day == self.day,
            page.message == message,
    {
        let mut page = self;
        page.message = message;
        page
    }
}

} // verus!
