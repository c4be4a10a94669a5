//! The mathematical model of a keyed collection.
//!
//! Every store holds its entities as a sequence whose elements carry their
//! own key, with no two elements carrying the same one. The spec functions
//! here say what a lookup, an insert-or-replace and a removal mean on such a
//! sequence; the proof functions state the laws that the store operations
//! obey. The key is given as a spec-level function so that one model serves
//! every entity kind.

use vstd::prelude::*;

verus! {

/// The one error a store operation can signal: the addressed identifier is
/// absent from the collection. Malformed payloads are rejected by the HTTP
/// layer before any store is reached, and nothing else can fail.
#[derive(Clone, Copy, Debug, PartialEq, Eq, Structural)]
pub enum StoreError {
    NotFound,
}

/// Whether some element of `s` carries the key `id`.
pub open spec fn has_key<T>(s: Seq<T>, key: spec_fn(T) -> u128, id: u128) -> bool {
    exists|i: int| 0 <= i < s.len() && #[trigger] key(s[i]) == id
}

/// The index of the element of `s` carrying the key `id`, provided one does.
pub open spec fn key_index<T>(s: Seq<T>, key: spec_fn(T) -> u128, id: u128) -> int {
    choose|i: int| 0 <= i < s.len() && #[trigger] key(s[i]) == id
}

/// The element of `s` carrying the key `id`, if any.
pub open spec fn lookup<T>(s: Seq<T>, key: spec_fn(T) -> u128, id: u128) -> Option<T> {
    if has_key(s, key, id) {
        Some(s[key_index(s, key, id)])
    } else {
        None
    }
}

/// No two elements of `s` carry the same key.
pub open spec fn unique_keys<T>(s: Seq<T>, key: spec_fn(T) -> u128) -> bool {
    forall|i: int, j: int|
        0 <= i < s.len() && 0 <= j < s.len() && i != j ==> #[trigger] key(s[i]) != #[trigger] key(
            s[j],
        )
}

/// `s` with `v` stored under its own key: the element already carrying that
/// key is replaced wholesale, or `v` is appended when none does.
pub open spec fn put<T>(s: Seq<T>, key: spec_fn(T) -> u128, v: T) -> Seq<T> {
    if has_key(s, key, key(v)) {
        s.update(key_index(s, key, key(v)), v)
    } else {
        s.push(v)
    }
}

/// `s` without the element carrying the key `id`; `s` itself when none does.
pub open spec fn remove_key<T>(s: Seq<T>, key: spec_fn(T) -> u128, id: u128) -> Seq<T> {
    if has_key(s, key, id) {
        s.remove(key_index(s, key, id))
    } else {
        s
    }
}

/// An element of `s` found at index `i` is exactly the one that `lookup`
/// returns for its key, when keys are unique.
pub proof fn lemma_key_index_is<T>(s: Seq<T>, key: spec_fn(T) -> u128, i: int)
    requires
        unique_keys(s, key),
        0 <= i < s.len(),
    ensures
        has_key(s, key, key(s[i])),
        key_index(s, key, key(s[i])) == i,
        lookup(s, key, key(s[i])) == Some(s[i]),
{
    let id = key(s[i]);
    assert(has_key(s, key, id));
    let j = key_index(s, key, id);
    assert(0 <= j < s.len() && key(s[j]) == id);
    if i != j {
        assert(key(s[i]) != key(s[j]));
    }
}

/// Storing keeps keys unique.
pub proof fn lemma_put_unique<T>(s: Seq<T>, key: spec_fn(T) -> u128, v: T)
    requires
        unique_keys(s, key),
    ensures
        unique_keys(put(s, key, v), key),
{
    let t = put(s, key, v);
    if has_key(s, key, key(v)) {
        let w = key_index(s, key, key(v));
        assert(0 <= w < s.len() && key(s[w]) == key(v));
        assert forall|i: int, j: int|
            0 <= i < t.len() && 0 <= j < t.len() && i != j implies #[trigger] key(t[i])
            != #[trigger] key(t[j]) by {
            if i != w && j != w {
                assert(t[i] == s[i] && t[j] == s[j]);
            } else if i == w {
                assert(t[j] == s[j] && key(t[i]) == key(s[w]));
            } else {
                assert(t[i] == s[i] && key(t[j]) == key(s[w]));
            }
        }
    } else {
        assert forall|i: int, j: int|
            0 <= i < t.len() && 0 <= j < t.len() && i != j implies #[trigger] key(t[i])
            != #[trigger] key(t[j]) by {
            if i < s.len() && j < s.len() {
                assert(t[i] == s[i] && t[j] == s[j]);
            } else if i == s.len() {
                assert(t[j] == s[j] && key(t[i]) == key(v));
            } else {
                assert(t[i] == s[i] && key(t[j]) == key(v));
            }
        }
    }
}

/// Removing keeps keys unique.
pub proof fn lemma_remove_unique<T>(s: Seq<T>, key: spec_fn(T) -> u128, id: u128)
    requires
        unique_keys(s, key),
    ensures
        unique_keys(remove_key(s, key, id), key),
{
    let t = remove_key(s, key, id);
    if has_key(s, key, id) {
        let w = key_index(s, key, id);
        assert forall|i: int, j: int|
            0 <= i < t.len() && 0 <= j < t.len() && i != j implies #[trigger] key(t[i])
            != #[trigger] key(t[j]) by {
            let io: int = if i < w {
                i
            } else {
                i + 1
            };
            let jo: int = if j < w {
                j
            } else {
                j + 1
            };
            assert(t[i] == s[io] && t[j] == s[jo]);
            assert(key(s[io]) != key(s[jo]));
        }
    }
}

/// A fresh key stays unique: storing an entity under a key that no element
/// of the collection carries appends it, keeps every element already there,
/// and leaves its key distinct from every previously stored one.
pub proof fn lemma_put_fresh<T>(s: Seq<T>, key: spec_fn(T) -> u128, v: T)
    requires
        unique_keys(s, key),
        !has_key(s, key, key(v)),
    ensures
        put(s, key, v) == s.push(v),
        unique_keys(put(s, key, v), key),
        forall|i: int| 0 <= i < s.len() ==> #[trigger] key(s[i]) != key(v),
{
    lemma_put_unique(s, key, v);
}

/// An entity just stored is exactly what a lookup of its key then returns:
/// a read right after a create or an update sees the created or updated
/// entity, field for field.
pub proof fn lemma_lookup_put<T>(s: Seq<T>, key: spec_fn(T) -> u128, v: T)
    requires
        unique_keys(s, key),
    ensures
        lookup(put(s, key, v), key, key(v)) == Some(v),
{
    let t = put(s, key, v);
    lemma_put_unique(s, key, v);
    if has_key(s, key, key(v)) {
        let w = key_index(s, key, key(v));
        assert(t[w] == v);
        lemma_key_index_is(t, key, w);
    } else {
        assert(t[s.len() as int] == v);
        lemma_key_index_is(t, key, s.len() as int);
    }
}

/// Storing under one key leaves what any other key maps to untouched.
pub proof fn lemma_put_frame<T>(s: Seq<T>, key: spec_fn(T) -> u128, v: T, id: u128)
    requires
        unique_keys(s, key),
        id != key(v),
    ensures
        lookup(put(s, key, v), key, id) == lookup(s, key, id),
{
    let t = put(s, key, v);
    lemma_put_unique(s, key, v);
    if has_key(s, key, id) {
        let w = key_index(s, key, id);
        if has_key(s, key, key(v)) {
            let u = key_index(s, key, key(v));
            assert(w != u);
            assert(t[w] == s[w]);
        } else {
            assert(t[w] == s[w]);
        }
        lemma_key_index_is(t, key, w);
        lemma_key_index_is(s, key, w);
    } else {
        if has_key(t, key, id) {
            let w = key_index(t, key, id);
            if w < s.len() {
                assert(key(s[w]) == id);
            }
            assert(false);
        }
    }
}

/// A removed key is gone: a read right after a delete of the same
/// identifier finds nothing, so it signals `NotFound`.
pub proof fn lemma_lookup_remove<T>(s: Seq<T>, key: spec_fn(T) -> u128, id: u128)
    requires
        unique_keys(s, key),
    ensures
        lookup(remove_key(s, key, id), key, id) == None::<T>,
{
    let t = remove_key(s, key, id);
    if has_key(s, key, id) {
        let w = key_index(s, key, id);
        if has_key(t, key, id) {
            let j = key_index(t, key, id);
            let jo: int = if j < w {
                j
            } else {
                j + 1
            };
            assert(t[j] == s[jo]);
            assert(jo != w);
            assert(key(s[jo]) != key(s[w]));
            assert(false);
        }
    }
}

/// Removing one key leaves what any other key maps to untouched.
pub proof fn lemma_remove_frame<T>(s: Seq<T>, key: spec_fn(T) -> u128, id: u128, other: u128)
    requires
        unique_keys(s, key),
        other != id,
    ensures
        lookup(remove_key(s, key, id), key, other) == lookup(s, key, other),
{
    let t = remove_key(s, key, id);
    lemma_remove_unique(s, key, id);
    if has_key(s, key, id) {
        let w = key_index(s, key, id);
        if has_key(s, key, other) {
            let u = key_index(s, key, other);
            assert(u != w);
            let un: int = if u < w {
                u
            } else {
                u - 1
            };
            assert(t[un] == s[u]);
            lemma_key_index_is(t, key, un);
            lemma_key_index_is(s, key, u);
        } else {
            if has_key(t, key, other) {
                let j = key_index(t, key, other);
                let jo: int = if j < w {
                    j
                } else {
                    j + 1
                };
                assert(t[j] == s[jo]);
                assert(key(s[jo]) == other);
                assert(false);
            }
        }
    }
}

} // verus!
