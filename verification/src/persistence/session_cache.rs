//! The bounded cache of resolved sessions.
//!
//! The cache is an `lru::LruCache`. Verus does not look inside it: what it
//! holds is named here, and each method the session store calls gets a
//! contract over that name, taken on trust from the cache's source.
use vstd::prelude::*;

use lru::LruCache;
use std::num::NonZeroUsize;

use crate::model::user::{User, UserView};

verus! {

/// A resolved session: the hash of its token, the user it stands for, and
/// the moments between which it is valid.
#[derive(Debug)]
pub struct Session {
    pub id: [u8; 32],
    pub user: User,
    pub created_at: i64,
    pub expires_at: i64,
}

/// The mathematical value of a resolved session.
pub struct SessionView {
    pub id: Seq<u8>,
    pub user: UserView,
    pub created_at: i64,
    pub expires_at: i64,
}

impl View for Session {
    type V = SessionView;

    open spec fn view(&self) -> SessionView {
        SessionView {
            id: self.id@,
            user: self.user@,
            created_at: self.created_at,
            expires_at: self.expires_at,
        }
    }
}

impl Clone for Session {
    fn clone(&self) -> (copy: Self)
        ensures
            copy@ == self@,
    {
        Session {
            id: self.id,
            user: self.user.clone(),
            created_at: self.created_at,
            expires_at: self.expires_at,
        }
    }
}

impl Session {
    /// Whether the session is no longer valid at the moment `now`.
    pub fn is_expired(&self, now: i64) -> (expired: bool)
        ensures
            expired == !live_at(self.expires_at, now),
    {
        now >= self.expires_at
    }
}

/// Whether something that expires at `expires_at` is still valid at `now`.
pub open spec fn live_at(expires_at: i64, now: i64) -> bool {
    expires_at > now
}

/// Makes `lru::LruCache` known to the verifier as a type it cannot look
/// into.
#[verifier::external_type_specification]
#[verifier::external_body]
#[verifier::reject_recursive_types(K)]
#[verifier::reject_recursive_types(V)]
#[verifier::reject_recursive_types(S)]
pub struct ExLruCache<K, V, S>(LruCache<K, V, S>);

/// Makes the cache's default hasher, `lru::DefaultHasher`, known to the
/// verifier as a type it cannot look into.
#[verifier::external_type_specification]
#[verifier::external_body]
pub struct ExCacheHasher(lru::DefaultHasher);

/// One cache entry: the token hash and the session resolved for it.
pub struct Entry {
    pub key: Seq<u8>,
    pub session: SessionView,
}

/// The entries a cache holds, the most recently used first.
pub uninterp spec fn cache_entries(cache: LruCache<[u8; 32], Session>) -> Seq<Entry>;

/// The number of entries a cache was made to hold at most.
pub uninterp spec fn cache_limit(cache: LruCache<[u8; 32], Session>) -> nat;

/// The position of the first entry with the given key.
pub open spec fn index_of(entries: Seq<Entry>, key: Seq<u8>) -> Option<int>
    decreases entries.len(),
{
    if entries.len() == 0 {
        None
    } else if entries[0].key == key {
        Some(0)
    } else {
        match index_of(entries.subrange(1, entries.len() as int), key) {
            Some(i) => Some(i + 1),
            None => None,
        }
    }
}

/// The entries after the one at `i` was used: it moves to the front.
pub open spec fn used(entries: Seq<Entry>, i: int) -> Seq<Entry> {
    seq![entries[i]] + entries.remove(i)
}

/// The entries after `entry` was put into a cache of the given limit: it
/// takes the front; an older entry with its key leaves, else, where the
/// cache is full, the least recently used one.
pub open spec fn after_put(entries: Seq<Entry>, limit: nat, entry: Entry) -> Seq<Entry> {
    match index_of(entries, entry.key) {
        Some(i) => seq![entry] + entries.remove(i),
        None => if entries.len() >= limit {
            seq![entry] + entries.drop_last()
        } else {
            seq![entry] + entries
        },
    }
}

/// The entries after the one with the given key was taken out.
pub open spec fn after_pop(entries: Seq<Entry>, key: Seq<u8>) -> Seq<Entry> {
    match index_of(entries, key) {
        Some(i) => entries.remove(i),
        None => entries,
    }
}

/// Makes an empty cache with `LruCache::new`.
///
/// Trusted: the new cache holds nothing and keeps the limit it was given.
#[verifier::external_body]
pub(crate) fn cache_new(limit: usize) -> (cache: LruCache<[u8; 32], Session>)
    requires
        limit > 0,
    ensures
        cache_entries(cache) == Seq::<Entry>::empty(),
        cache_limit(cache) == limit,
{
    LruCache::new(NonZeroUsize::new(limit).unwrap())
}

/// Looks a key up with `LruCache::get` and copies the session found.
///
/// Trusted: the entry with the key, if there is one, is handed out and
/// becomes the most recently used; else nothing changes.
#[verifier::external_body]
pub(crate) fn cache_get(cache: &mut LruCache<[u8; 32], Session>, key: &[u8; 32]) -> (found: Option<
    Session,
>)
    ensures
        cache_limit(*final(cache)) == cache_limit(*old(cache)),
        match index_of(cache_entries(*old(cache)), key@) {
            Some(i) => found matches Some(s) && s@ == cache_entries(*old(cache))[i].session
                && cache_entries(*final(cache)) == used(cache_entries(*old(cache)), i),
            None => found is None && cache_entries(*final(cache)) == cache_entries(*old(cache)),
        },
{
    cache.get(key).cloned()
}

/// Stores a session under a key with `LruCache::put`.
///
/// Trusted: the entry becomes the most recently used; it replaces an entry
/// with the same key, else, in a full cache, the least recently used one.
#[verifier::external_body]
pub(crate) fn cache_put(cache: &mut LruCache<[u8; 32], Session>, key: [u8; 32], session: Session)
    ensures
        cache_limit(*final(cache)) == cache_limit(*old(cache)),
        cache_entries(*final(cache)) == after_put(
            cache_entries(*old(cache)),
            cache_limit(*old(cache)),
            Entry { key: key@, session: session@ },
        ),
{
    cache.put(key, session);
}

/// Takes the entry with a key out with `LruCache::pop`.
///
/// Trusted: the entry with the key leaves, the others stay in their order,
/// and no entry with the key is left.
#[verifier::external_body]
pub(crate) fn cache_pop(cache: &mut LruCache<[u8; 32], Session>, key: &[u8; 32])
    ensures
        cache_limit(*final(cache)) == cache_limit(*old(cache)),
        cache_entries(*final(cache)) == after_pop(cache_entries(*old(cache)), key@),
        index_of(cache_entries(*final(cache)), key@) is None,
{
    cache.pop(key);
}

} // verus!
