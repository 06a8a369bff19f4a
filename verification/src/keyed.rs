//! Keyed collections.
//!
//! Every domain collection is a vector of records, each carrying a
//! primary key (a string id or title).  This module gives the
//! specification vocabulary for such vectors — key uniqueness, key
//! membership, and the record stored under a key — together with the
//! lemmas that the handlers use when they append or replace a record.

use vstd::prelude::*;

verus! {

/// A record stored in one of the engine's keyed collections.
pub trait Keyed {
    /// The record's primary key.
    spec fn key(&self) -> Seq<char>;
}

/// No two records carry the same key.
pub open spec fn keys_unique<T: Keyed>(s: Seq<T>) -> bool {
    forall|i: int, j: int|
        0 <= i < s.len() && 0 <= j < s.len() && #[trigger] s[i].key() == #[trigger] s[j].key()
            ==> i == j
}

/// Some record carries the key `k`.
pub open spec fn has_key<T: Keyed>(s: Seq<T>, k: Seq<char>) -> bool {
    exists|i: int| 0 <= i < s.len() && #[trigger] s[i].key() == k
}

/// The index of the record carrying `k` (meaningful when `has_key` holds).
pub open spec fn key_idx<T: Keyed>(s: Seq<T>, k: Seq<char>) -> int {
    choose|i: int| 0 <= i < s.len() && #[trigger] s[i].key() == k
}

/// The record stored under `k` (meaningful when `has_key` holds).
pub open spec fn entry_of<T: Keyed>(s: Seq<T>, k: Seq<char>) -> T {
    s[key_idx(s, k)]
}

/// In a collection with unique keys, the record found at index `i` is
/// exactly the record stored under its own key.
pub proof fn lemma_key_at_index<T: Keyed>(s: Seq<T>, i: int)
    requires
        keys_unique(s),
        0 <= i < s.len(),
    ensures
        has_key(s, s[i].key()),
        key_idx(s, s[i].key()) == i,
        entry_of(s, s[i].key()) == s[i],
{
    assert(has_key(s, s[i].key()));
}

/// Appending a record under a fresh key keeps keys unique, stores the
/// record under its key, and leaves every other key untouched.
pub proof fn lemma_push_fresh<T: Keyed>(s: Seq<T>, v: T)
    requires
        keys_unique(s),
        !has_key(s, v.key()),
    ensures
        keys_unique(s.push(v)),
        has_key(s.push(v), v.key()),
        entry_of(s.push(v), v.key()) == v,
        forall|k: Seq<char>| k != v.key() ==> #[trigger] has_key(s.push(v), k) == has_key(s, k),
        forall|k: Seq<char>|
            k != v.key() && has_key(s, k) ==> #[trigger] entry_of(s.push(v), k) == entry_of(s, k),
{
    let t = s.push(v);
    assert(t[s.len() as int] == v);
    assert forall|k: Seq<char>| k != v.key() implies #[trigger] has_key(t, k) == has_key(
        s,
        k,
    ) by {
        if has_key(s, k) {
            let i = key_idx(s, k);
            assert(t[i].key() == k);
        }
        if has_key(t, k) {
            let i = key_idx(t, k);
            assert(s[i].key() == k);
        }
    }
    assert forall|k: Seq<char>| k != v.key() && has_key(s, k) implies #[trigger] entry_of(t, k)
        == entry_of(s, k) by {
        let i = key_idx(s, k);
        assert(t[i].key() == k);
        assert(has_key(t, k));
        let j = key_idx(t, k);
        assert(t[j].key() == k);
        assert(j != s.len() as int);
        assert(s[j].key() == k);
        assert(j == i);
    }
    assert(has_key(t, v.key()));
    let j = key_idx(t, v.key());
    assert(t[j].key() == v.key());
    if j < s.len() {
        assert(s[j].key() == v.key());
        assert(false);
    }
}

/// Replacing the record at index `i` by one carrying the same key keeps
/// keys unique, stores the new record under that key, and leaves every
/// other key untouched.
pub proof fn lemma_update_at<T: Keyed>(s: Seq<T>, i: int, v: T)
    requires
        keys_unique(s),
        0 <= i < s.len(),
        v.key() == s[i].key(),
    ensures
        keys_unique(s.update(i, v)),
        has_key(s.update(i, v), v.key()),
        entry_of(s.update(i, v), v.key()) == v,
        forall|k: Seq<char>| #[trigger] has_key(s.update(i, v), k) == has_key(s, k),
        forall|k: Seq<char>|
            k != v.key() && has_key(s, k) ==> #[trigger] entry_of(s.update(i, v), k) == entry_of(
                s,
                k,
            ),
{
    let t = s.update(i, v);
    assert(t[i] == v);
    assert forall|k: Seq<char>| #[trigger] has_key(t, k) == has_key(s, k) by {
        if has_key(s, k) {
            let a = key_idx(s, k);
            if a == i {
                assert(t[i].key() == k);
            } else {
                assert(t[a].key() == k);
            }
            assert(has_key(t, k));
        }
        if has_key(t, k) {
            let a = key_idx(t, k);
            if a == i {
                assert(s[i].key() == k);
            } else {
                assert(s[a].key() == k);
            }
            assert(has_key(s, k));
        }
    }
    assert(keys_unique(t)) by {
        assert forall|a: int, b: int|
            0 <= a < t.len() && 0 <= b < t.len() && #[trigger] t[a].key() == #[trigger] t[b].key()
            implies a == b by {
            assert(s[a].key() == t[a].key());
            assert(s[b].key() == t[b].key());
        }
    }
    let j = key_idx(t, v.key());
    assert(t[j].key() == v.key());
    assert(s[j].key() == s[i].key());
    assert(entry_of(t, v.key()) == v);
    assert forall|k: Seq<char>| k != v.key() && has_key(s, k) implies #[trigger] entry_of(t, k)
        == entry_of(s, k) by {
        let a = key_idx(s, k);
        assert(has_key(t, k));
        let b = key_idx(t, k);
        assert(t[b].key() == k);
        assert(s[b].key() == t[b].key());
        assert(b == a);
        assert(a != i);
    }
}

} // verus!
