//! What the operations on a day guarantee when they follow one another.
use vstd::prelude::*;

use crate::envelope::{usable, wrap_spec};
use crate::error::KeyError;
use crate::model::user::UserView;
use crate::persistence::calendar_repository::RepositoryView;
use crate::persistence::day_protection::{
    applied, create_spec, day_key, edit_content_spec, guarded, remove_password_spec,
    set_password_post, set_password_spec, unlock_post, unlock_spec, update_password_post,
    update_password_spec, FreshView,
};
use crate::persistence::day_record::{first_row, lemma_first_row, DayView, UnlockView};
use crate::persistence::rows::lemma_first_index_push;

verus! {

/// A record appended for a user who had none is the record found for that
/// user afterwards; everybody else's record is found as before.
pub proof fn lemma_first_row_push(rows: Seq<UnlockView>, row: UnlockView, user_id: i32)
    ensures
        first_row(rows, user_id) is Some ==> first_row(rows.push(row), user_id) == first_row(
            rows,
            user_id,
        ),
        first_row(rows, user_id) is None && row.user_id == user_id ==> first_row(
            rows.push(row),
            user_id,
        ) == Some(row),
        first_row(rows, user_id) is None && row.user_id != user_id ==> first_row(
            rows.push(row),
            user_id,
        ) is None,
    decreases rows.len(),
{
    let pushed = rows.push(row);
    if rows.len() == 0 {
        assert(pushed.subrange(1, pushed.len() as int) =~= Seq::<UnlockView>::empty());
    } else {
        let rest = rows.subrange(1, rows.len() as int);
        assert(pushed.subrange(1, pushed.len() as int) =~= rest.push(row));
        if rows[0].user_id != user_id {
            lemma_first_row_push(rest, row, user_id);
        }
    }
}

/// Whoever unlocks a day with the password that was just set on it
/// succeeds and then reads the content the day had before.
///
/// This holds for every user who has no unlock record once the password is
/// set: the setter, if the setter had none, and everybody else, whose
/// records the operation purged.
pub proof fn lemma_set_then_unlock_reads_content(
    before: DayView,
    protected: DayView,
    unlocked: DayView,
    setter: UserView,
    reader: UserView,
    password: Seq<char>,
    fresh: FreshView,
    now: i64,
    nonce: Seq<u8>,
    outcome: Result<(), KeyError>,
)
    requires
        !before.is_protected(),
        set_password_post(before, protected, Ok(()), setter, password, fresh),
        protected.row_of(reader.id) is None,
        protected.unlocks_at <= now,
        usable(reader.content_key, nonce),
        unlock_post(protected, unlocked, outcome, reader, Some(password), now, nonce),
    ensures
        outcome is Ok,
        unlocked.content_for(reader.id, reader.content_key) == Ok::<Seq<u8>, KeyError>(
            before.state->Unprotected_content,
        ),
{
    let key = day_key(password);
    assert(wrap_spec(setter.content_key, fresh.day_key_nonce, key) is Ok);
    assert(wrap_spec(reader.content_key, nonce, key) is Ok);
    let row = unlocked.unlocks.last();
    lemma_first_row_push(protected.unlocks, row, reader.id);
}

/// Who sets a password on a day that they had unlocked reads the content
/// afterwards as before, with no further step.
pub proof fn lemma_setter_keeps_reading(
    before: DayView,
    protected: DayView,
    setter: UserView,
    password: Seq<char>,
    fresh: FreshView,
)
    requires
        !before.is_protected(),
        before.row_of(setter.id) is Some,
        set_password_post(before, protected, Ok(()), setter, password, fresh),
    ensures
        protected.content_for(setter.id, setter.content_key) == Ok::<Seq<u8>, KeyError>(
            before.state->Unprotected_content,
        ),
{
    lemma_first_row(before.unlocks, setter.id);
    assert(protected.unlocks.len() == 1);
    assert(protected.unlocks[0].user_id == setter.id);
    assert(protected.unlocks.subrange(1, 1) =~= Seq::<UnlockView>::empty());
}

/// An unlock with a password that does not open the day fails with
/// `InvalidCredentials` and creates no unlock record, for a user who could
/// otherwise unlock the day.
pub proof fn lemma_wrong_password_is_refused(
    day: DayView,
    after: DayView,
    user: UserView,
    code: Option<Seq<char>>,
    now: i64,
    nonce: Seq<u8>,
    outcome: Result<(), KeyError>,
)
    requires
        day.is_protected(),
        day.row_of(user.id) is None,
        day.unlocks_at <= now,
        code matches Some(c) ==> !day.password_opens(c),
        unlock_post(day, after, outcome, user, code, now, nonce),
    ensures
        outcome == Err::<(), KeyError>(KeyError::InvalidCredentials),
        after == day,
        after.row_of(user.id) is None,
{
}

/// A change of password revokes every other user's unlock: they read
/// nothing until they unlock the day again, and with the new password
/// they do, and read what the changer could read before.
pub proof fn lemma_update_revokes_others(
    before: DayView,
    changed: DayView,
    unlocked: DayView,
    held_day_key: Option<Seq<u8>>,
    changer: UserView,
    other: UserView,
    password: Seq<char>,
    fresh: FreshView,
    now: i64,
    nonce: Seq<u8>,
    outcome: Result<(), KeyError>,
)
    requires
        update_password_post(before, changed, Ok(()), held_day_key, changer, password, fresh),
        other.id != changer.id,
        changed.unlocks_at <= now,
        usable(other.content_key, nonce),
        unlock_post(changed, unlocked, outcome, other, Some(password), now, nonce),
    ensures
        changed.row_of(other.id) is None,
        changed.content_for(other.id, other.content_key) == Err::<Seq<u8>, KeyError>(
            KeyError::NotFound,
        ),
        outcome is Ok,
        unlocked.content_for(other.id, other.content_key) == before.content_with(
            true,
            held_day_key,
        ),
{
    lemma_first_row(before.unlocks, changer.id);
    lemma_first_row(changed.unlocks, other.id);
    let key = day_key(password);
    assert(wrap_spec(changer.content_key, fresh.day_key_nonce, key) is Ok);
    assert(wrap_spec(other.content_key, nonce, key) is Ok);
    let row = unlocked.unlocks.last();
    lemma_first_row_push(changed.unlocks, row, other.id);
}

/// Once the password is removed, every user reads the content without any
/// password or key: it is what the remover could read before.
pub proof fn lemma_remove_opens_day_to_all(
    before: DayView,
    after: DayView,
    held_day_key: Option<Seq<u8>>,
    reader_id: i32,
    reader_key: Option<Seq<u8>>,
)
    requires
        applied(before, after, Ok(()), remove_password_spec(before, held_day_key)),
    ensures
        !after.is_protected(),
        before.content_with(true, held_day_key) is Ok,
        after.content_for(reader_id, reader_key) == before.content_with(true, held_day_key),
{
}

/// Before the moment a day unlocks, every unlock is refused with
/// `NotYetAvailable`, whoever asks and whatever code is offered, and
/// leaves the record as it was.
pub proof fn lemma_unlock_waits_for_the_day(
    day: DayView,
    after: DayView,
    user: UserView,
    code: Option<Seq<char>>,
    now: i64,
    nonce: Seq<u8>,
    outcome: Result<(), KeyError>,
)
    requires
        now < day.unlocks_at,
        unlock_post(day, after, outcome, user, code, now, nonce),
    ensures
        outcome == Err::<(), KeyError>(KeyError::NotYetAvailable),
        after == day,
{
}

/// Once a day is due, an unlock by a user who already has an unlock
/// record is refused with `AlreadyUnlocked`: it is never silently
/// accepted.
pub proof fn lemma_second_unlock_is_refused(
    day: DayView,
    user: UserView,
    code: Option<Seq<char>>,
    now: i64,
    nonce: Seq<u8>,
)
    requires
        day.unlocks_at <= now,
        day.row_of(user.id) is Some,
    ensures
        unlock_spec(day, user, code, now, nonce) == Err::<DayView, KeyError>(
            KeyError::AlreadyUnlocked,
        ),
{
}

/// Every operation keeps a record well formed: one unlock record per user
/// at most, carrying a sealed day key exactly while the day is protected.
pub proof fn lemma_operations_keep_records_well_formed(
    day: DayView,
    held_day_key: Option<Seq<u8>>,
    user: UserView,
    password: Seq<char>,
    code: Option<Seq<char>>,
    content: Seq<u8>,
    now: i64,
    fresh: FreshView,
)
    requires
        day.wf(),
    ensures
        !day.is_protected() ==> (set_password_spec(day, user, password, fresh) matches Ok(d)
            ==> d.wf() && d.is_protected()),
        update_password_spec(day, held_day_key, user, password, fresh) matches Ok(d) ==> d.wf()
            && d.is_protected(),
        remove_password_spec(day, held_day_key) matches Ok(d) ==> d.wf() && !d.is_protected(),
        unlock_spec(day, user, code, now, fresh.day_key_nonce) matches Ok(d) ==> d.wf()
            && d.is_protected() == day.is_protected(),
        edit_content_spec(day, held_day_key, content, fresh.content_nonce) matches Ok(d) ==> d.wf()
            && d.is_protected() == day.is_protected(),
{
    lemma_first_row(day.unlocks, user.id);
}

/// A newly created record is well formed, and protected exactly when it
/// was given a password.
pub proof fn lemma_created_record_is_well_formed(
    id: i32,
    calendar_id: i32,
    unlocks_at: i64,
    owner: UserView,
    password: Option<Seq<char>>,
    content: Seq<u8>,
    now: i64,
    fresh: FreshView,
)
    ensures
        create_spec(id, calendar_id, unlocks_at, owner, password, content, now, fresh) matches Ok(
            d,
        ) ==> d.wf() && d.is_protected() == password.is_some() && d.row_of(owner.id) is Some,
{
    let r = create_spec(id, calendar_id, unlocks_at, owner, password, content, now, fresh);
    if r is Ok {
        let d = r->Ok_0;
        assert(d.unlocks.len() == 1);
    }
}

/// Whoever unlocks a day with the password that guards it succeeds and
/// then reads what the password guards, provided the day is due and the
/// user has no unlock record yet.
pub proof fn lemma_unlock_reads_what_is_guarded(
    day: DayView,
    unlocked: DayView,
    holder: UserView,
    reader: UserView,
    password: Seq<char>,
    content: Seq<u8>,
    now: i64,
    nonce: Seq<u8>,
    outcome: Result<(), KeyError>,
)
    requires
        guarded(day, holder, password, Ok(content)),
        day.row_of(reader.id) is None,
        day.unlocks_at <= now,
        usable(reader.content_key, nonce),
        unlock_post(day, unlocked, outcome, reader, Some(password), now, nonce),
    ensures
        outcome is Ok,
        unlocked.content_for(reader.id, reader.content_key) == Ok::<Seq<u8>, KeyError>(content),
{
    assert(wrap_spec(reader.content_key, nonce, day_key(password)) is Ok);
    let row = unlocked.unlocks.last();
    lemma_first_row_push(day.unlocks, row, reader.id);
}

/// Who added a day reads its content at once, with or without a
/// password; the new day is found under its number, and the repository
/// stays well formed.
pub proof fn lemma_added_day_is_read(
    before: RepositoryView,
    after: RepositoryView,
    id: i32,
    calendar_id: i32,
    unlocks_at: i64,
    owner: UserView,
    password: Option<Seq<char>>,
    content: Seq<u8>,
    now: i64,
)
    requires
        before.wf(),
        before.day_added(
            after,
            Ok(id),
            calendar_id,
            unlocks_at,
            owner,
            password,
            content,
            now,
        ),
    ensures
        after.wf(),
        after.day_index(id) == Some(before.days.len() as int),
        after.days.last().is_protected() == password.is_some(),
        after.days.last().content_for(owner.id, owner.content_key) == Ok::<Seq<u8>, KeyError>(
            content,
        ),
{
    let day = after.days.last();
    let fresh = choose|fresh: FreshView|
        fresh.wf() && Ok::<DayView, KeyError>(day) == #[trigger] create_spec(
            id,
            calendar_id,
            unlocks_at,
            owner,
            password,
            content,
            now,
            fresh,
        );
    lemma_created_record_is_well_formed(
        id,
        calendar_id,
        unlocks_at,
        owner,
        password,
        content,
        now,
        fresh,
    );
    let wanted = |d: DayView| d.id == id;
    assert forall|j: int| 0 <= j < before.days.len() implies !wanted(
        #[trigger] before.days[j],
    ) by {}
    crate::persistence::rows::lemma_first_index_none(before.days, wanted);
    lemma_first_index_push(before.days, day, wanted);
    assert(day.unlocks.len() == 1);
    assert(day.unlocks.subrange(1, 1) =~= Seq::<UnlockView>::empty());
    assert forall|i: int| 0 <= i < after.days.len() implies (#[trigger] after.days[i]).wf()
        && after.days[i].id < after.next_day_id by {
        if i < before.days.len() {
            assert(after.days[i] == before.days[i]);
        }
    }
    assert forall|i: int, j: int| 0 <= i < j < after.days.len() implies after.days[i].id
        != after.days[j].id by {
        assert(after.days[i] == before.days[i]);
        if j < before.days.len() {
            assert(after.days[j] == before.days[j]);
        }
    }
}

} // verus!
