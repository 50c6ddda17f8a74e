//! What the landing pages show.
use vstd::prelude::*;

use crate::model::calendar::RichUserCalendar;
use crate::model::user::User;

verus! {

/// The page a signed-in user lands on: their calendars with their days.
pub struct HelloTemplate {
    pub user: User,
    pub user_calendars: Vec<RichUserCalendar>,
}

impl HelloTemplate {
    /// The page for `user`.
    pub fn new(user: User, user_calendars: Vec<RichUserCalendar>) -> (page: Self)
        ensures
            page.user == user,
            page.user_calendars == user_calendars,
    {
        HelloTemplate { user, user_calendars }
    }
}

/// The page everybody lands on, signed in or not.
pub struct HomeTemplate {
    pub user: Option<User>,
}

impl HomeTemplate {
    /// The page for the visitor, who may be a signed-in user.
    pub fn with_user(maybe_user: Option<User>) -> (page: Self)
        ensures
            page.user == maybe_user,
    {
        Self { user: maybe_user }
    }
}

} // verus!
