//! What the session store guarantees when its operations follow one another.
use vstd::prelude::*;

use crate::error::KeyError;
use crate::model::user::UserView;
use crate::persistence::rows::lemma_first_index_none;
use crate::persistence::session_cache::{after_pop, after_put, index_of, live_at, used, Entry};
use crate::persistence::session_store::{
    expired_rows, live_row, persisted_session, row_name, SessionRowView, StoreView,
    SESSION_LIFETIME,
};
use crate::persistence::user_repository::UsersView;
use crate::primitives::sha256;

verus! {

/// Once a token was expired, no row persisted for it is valid at that
/// moment or later.
pub proof fn lemma_expired_rows_are_dead(
    rows: Seq<SessionRowView>,
    token: Seq<u8>,
    expired_at: i64,
    now: i64,
)
    requires
        expired_at <= now,
    ensures
        live_row(expired_rows(rows, token, expired_at), token, now) is None,
{
    let after = expired_rows(rows, token, expired_at);
    let wanted = |row: SessionRowView|
        row.token_hash == row_name(token) && live_at(row.expires_at, now);
    assert forall|j: int| 0 <= j < after.len() implies !wanted(#[trigger] after[j]) by {
        if rows[j].token_hash == row_name(token) {
            assert(after[j].expires_at == expired_at);
        }
    }
    lemma_first_index_none(after, wanted);
}

/// A token that was expired resolves to nobody from that moment on:
/// neither the cache nor the persisted rows answer for it, whoever the
/// users are and however soon after the expiry it is asked for.
pub proof fn lemma_expired_token_resolves_to_nobody(
    before: StoreView,
    after: StoreView,
    users: UsersView,
    token: Seq<u8>,
    expired_at: i64,
    now: i64,
)
    requires
        before.expired(after, token, expired_at),
        expired_at <= now,
    ensures
        after.resolve(users, token, now).0 is None,
        after.resolve(users, token, now).1 == after.cache,
{
    lemma_expired_rows_are_dead(before.rows, token, expired_at, now);
}

/// A session that was just added resolves to its user while it is valid,
/// and is answered from the cache.
pub proof fn lemma_added_session_resolves(
    before: StoreView,
    after: StoreView,
    users: UsersView,
    user: UserView,
    password: Seq<char>,
    created_at: i64,
    token: Seq<u8>,
    nonce: Seq<u8>,
    now: i64,
)
    requires
        before.add(user, password, created_at, token, nonce) == Ok::<StoreView, KeyError>(after),
        now < created_at + SESSION_LIFETIME,
    ensures
        after.resolve(users, token, now).0 matches Some(session) && session.user == user,
{
    assert(after.cache[0].key == sha256(token));
    assert(index_of(after.cache, sha256(token)) == Some(0int));
}

/// What is answered for a token that the cache does not know is what the
/// persisted rows say.
pub proof fn lemma_cache_only_reads(store: StoreView, users: UsersView, token: Seq<u8>, now: i64)
    requires
        index_of(store.cache, sha256(token)) is None,
    ensures
        store.resolve(users, token, now).0 == persisted_session(store.rows, users, token, now),
{
}

/// The position found for a key is that of an entry.
pub proof fn lemma_index_of_in_range(entries: Seq<Entry>, key: Seq<u8>)
    ensures
        index_of(entries, key) matches Some(i) ==> 0 <= i < entries.len() && entries[i].key == key,
    decreases entries.len(),
{
    if entries.len() > 0 && entries[0].key != key {
        let rest = entries.subrange(1, entries.len() as int);
        lemma_index_of_in_range(rest, key);
        if index_of(rest, key) is Some {
            let i = index_of(rest, key)->0;
            assert(rest[i] == entries[i + 1]);
        }
    }
}

/// No step of the cache makes it hold more than its limit: using an entry
/// keeps the number of entries, taking one out does not raise it, and
/// putting one in evicts where the cache is full.
pub proof fn lemma_cache_steps_stay_bounded(entries: Seq<Entry>, limit: nat, entry: Entry, i: int)
    requires
        limit > 0,
        entries.len() <= limit,
    ensures
        0 <= i < entries.len() ==> used(entries, i).len() == entries.len(),
        after_pop(entries, entry.key).len() <= entries.len(),
        after_put(entries, limit, entry).len() <= limit,
        after_put(entries, limit, entry)[0] == entry,
{
    lemma_index_of_in_range(entries, entry.key);
}

/// Resolving a token never makes the cache hold more than its limit.
pub proof fn lemma_resolve_keeps_cache_bounded(
    store: StoreView,
    users: UsersView,
    token: Seq<u8>,
    now: i64,
)
    requires
        store.limit > 0,
        store.cache.len() <= store.limit,
    ensures
        store.resolve(users, token, now).1.len() <= store.limit,
{
    let key = sha256(token);
    lemma_index_of_in_range(store.cache, key);
    match index_of(store.cache, key) {
        Some(i) => {
            let moved = used(store.cache, i);
            assert(moved.len() == store.cache.len());
            lemma_index_of_in_range(moved, key);
        },
        None => {
            match persisted_session(store.rows, users, token, now) {
                Some(session) => {
                    lemma_cache_steps_stay_bounded(
                        store.cache,
                        store.limit,
                        Entry { key, session },
                        0,
                    );
                },
                None => {},
            }
        },
    }
}

/// Adding a session never makes the cache hold more than its limit.
pub proof fn lemma_add_keeps_cache_bounded(
    before: StoreView,
    after: StoreView,
    user: UserView,
    password: Seq<char>,
    now: i64,
    token: Seq<u8>,
    nonce: Seq<u8>,
)
    requires
        before.limit > 0,
        before.cache.len() <= before.limit,
        before.add(user, password, now, token, nonce) == Ok::<StoreView, KeyError>(after),
    ensures
        after.limit == before.limit,
        after.cache.len() <= after.limit,
        after.rows.len() == before.rows.len() + 1,
{
    lemma_cache_steps_stay_bounded(before.cache, before.limit, after.cache[0], 0);
}

} // verus!
