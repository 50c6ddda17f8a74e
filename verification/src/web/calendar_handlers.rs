//! What the calendar forms carry.
use vstd::prelude::*;

verus! {

/// What the form that creates a calendar sends.
pub struct CalendarCreationRequest {
    pub title: String,
}

/// What the form that adds a day sends. The moment is counted in
/// microseconds since the Unix epoch.
pub struct AddDayForm {
    pub unlocks_at: i64,
    pub password: Option<String>,
    pub content: String,
}

/// What the form that unlocks a day sends.
pub struct UnlockDayForm {
    pub code: Option<String>,
}

} // verus!
