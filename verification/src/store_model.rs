//! A model of a conforming store, and the laws the client obeys on one.
//!
//! The wire protocol is simple enough to state in full: a get or delete
//! for a key the store holds is answered with a non-404 status, one for a
//! missing key with 404; a set inserts or overwrites the key; a listing
//! is answered with the matching keys joined by newlines, in whatever
//! order the store chooses. The lemmas here compose those answers with
//! the client's classification, stated by the contracts in
//! [`crate::protocol`], and prove the end-to-end behaviour a caller
//! relies on: set-then-get round-trips, a deleted or missing key reads
//! back as not found, and a listing yields exactly the matching keys.

use vstd::prelude::*;
use crate::db_error::DBErrorKind;
use crate::lines::join_lines;
use crate::protocol::{classify_delete, classify_get, list_keys_spec};

verus! {

/// The status a conforming store answers to a get or delete for `key`:
/// 404 exactly when the key is not held.
pub open spec fn lookup_status(store: Map<Seq<char>, Seq<char>>, key: Seq<char>) -> u16 {
    if store.contains_key(key) {
        200u16
    } else {
        404u16
    }
}

/// The body a conforming store answers to a get for `key`: the stored
/// value, verbatim; a missing key gets no meaningful body.
pub open spec fn lookup_body(store: Map<Seq<char>, Seq<char>>, key: Seq<char>) -> Seq<char> {
    if store.contains_key(key) {
        store[key]
    } else {
        Seq::<char>::empty()
    }
}

/// What a completed set does to the store: the key is created or
/// overwritten with the value.
pub open spec fn set_transition(
    store: Map<Seq<char>, Seq<char>>,
    key: Seq<char>,
    value: Seq<char>,
) -> Map<Seq<char>, Seq<char>> {
    store.insert(key, value)
}

/// What a successful delete does to the store: the key leaves it.
pub open spec fn delete_transition(
    store: Map<Seq<char>, Seq<char>>,
    key: Seq<char>,
) -> Map<Seq<char>, Seq<char>> {
    store.remove(key)
}

/// What a get concludes to on a conforming store: the store's answer,
/// read by the very classification that the contract of
/// [`crate::protocol::conclude_get`] states.
pub open spec fn get_outcome(store: Map<Seq<char>, Seq<char>>, key: Seq<char>) -> Result<
    Seq<char>,
    DBErrorKind,
> {
    classify_get(lookup_status(store, key), Some(lookup_body(store, key)))
}

/// What a delete concludes to on a conforming store: the store's answer,
/// read by the very classification that the contract of
/// [`crate::protocol::conclude_delete`] states.
pub open spec fn delete_outcome(store: Map<Seq<char>, Seq<char>>, key: Seq<char>) -> Result<
    bool,
    DBErrorKind,
> {
    classify_delete(lookup_status(store, key))
}

/// The held keys whose names start with `prefix`, in the store's order.
pub open spec fn matching_keys(keys: Seq<Seq<char>>, prefix: Seq<char>) -> Seq<Seq<char>> {
    keys.filter(|k: Seq<char>| prefix.is_prefix_of(k))
}

/// The body a conforming store answers to a listing for `prefix`.
pub open spec fn listing_body(keys: Seq<Seq<char>>, prefix: Seq<char>) -> Seq<char> {
    join_lines(matching_keys(keys, prefix))
}

/// What a listing concludes to on a conforming store, per the contract
/// of [`crate::protocol::conclude_list`].
pub open spec fn list_outcome(keys: Seq<Seq<char>>, prefix: Seq<char>) -> Seq<Seq<char>> {
    list_keys_spec(listing_body(keys, prefix))
}

/// Round trip: setting a key and then getting it yields exactly the
/// value just stored, for every key and every value.
pub proof fn lemma_set_then_get(
    store: Map<Seq<char>, Seq<char>>,
    key: Seq<char>,
    value: Seq<char>,
)
    ensures
        get_outcome(set_transition(store, key, value), key) == Ok::<Seq<char>, DBErrorKind>(value),
{
}

/// After a delete succeeds, getting the same key concludes not found.
pub proof fn lemma_delete_then_get(store: Map<Seq<char>, Seq<char>>, key: Seq<char>)
    ensures
        get_outcome(delete_transition(store, key), key) == Err::<Seq<char>, DBErrorKind>(
            DBErrorKind::NotFound,
        ),
{
}

/// Getting a key the store does not hold concludes not found — not a
/// transport error, and not an empty value.
pub proof fn lemma_get_missing(store: Map<Seq<char>, Seq<char>>, key: Seq<char>)
    requires
        !store.contains_key(key),
    ensures
        get_outcome(store, key) == Err::<Seq<char>, DBErrorKind>(DBErrorKind::NotFound),
{
}

/// Deleting a key the store does not hold concludes not found.
pub proof fn lemma_delete_missing(store: Map<Seq<char>, Seq<char>>, key: Seq<char>)
    requires
        !store.contains_key(key),
    ensures
        delete_outcome(store, key) == Err::<bool, DBErrorKind>(DBErrorKind::NotFound),
{
}

/// Every key of a filtered listing comes from the held keys.
proof fn lemma_filter_from(s: Seq<Seq<char>>, pred: spec_fn(Seq<char>) -> bool, i: int)
    requires
        0 <= i < s.filter(pred).len(),
    ensures
        exists|j: int| 0 <= j < s.len() && s[j] == s.filter(pred)[i],
    decreases s.len(),
{
    reveal(Seq::filter);
    if s.len() == 0 {
    } else {
        let sub = s.drop_last().filter(pred);
        if i < sub.len() {
            lemma_filter_from(s.drop_last(), pred, i);
            let j = choose|j: int|
                0 <= j < s.drop_last().len() && s.drop_last()[j] == s.drop_last().filter(pred)[i];
            assert(s[j] == s.filter(pred)[i]);
        } else {
            assert(pred(s.last()) && s.filter(pred)[i] == s.last());
            assert(s[s.len() - 1] == s.filter(pred)[i]);
        }
    }
}

/// A listing with an empty prefix is unfiltered: it yields every held
/// key, so an absent prefix and an empty one ask for the same thing.
pub proof fn lemma_empty_prefix_matches_all(keys: Seq<Seq<char>>)
    ensures
        matching_keys(keys, Seq::<char>::empty()) == keys,
    decreases keys.len(),
{
    reveal(Seq::filter);
    let pred = |k: Seq<char>| Seq::<char>::empty().is_prefix_of(k);
    if keys.len() == 0 {
        assert(keys.filter(pred) =~= keys);
    } else {
        lemma_empty_prefix_matches_all(keys.drop_last());
        assert(Seq::<char>::empty().is_prefix_of(keys.last()));
        assert(keys.drop_last().push(keys.last()) =~= keys);
        assert(keys.filter(pred) =~= keys);
    }
}

/// A listing whose prefix matches no held key concludes with no keys at
/// all — an empty sequence, not an error.
pub proof fn lemma_list_no_match(keys: Seq<Seq<char>>, prefix: Seq<char>)
    requires
        matching_keys(keys, prefix).len() == 0,
    ensures
        list_outcome(keys, prefix) == Seq::<Seq<char>>::empty(),
{
}

/// A listing concludes with exactly the held keys whose names start with
/// the prefix, in the store's order — provided the keys are newline-free
/// (they could not ride a line-delimited listing otherwise) and the
/// answered body is longer than the one-character threshold under which
/// the client reads it as empty.
pub proof fn lemma_list_matches(keys: Seq<Seq<char>>, prefix: Seq<char>)
    requires
        forall|k: int, j: int| 0 <= k < keys.len() && 0 <= j < keys[k].len() ==> keys[k][j] != '\n',
        matching_keys(keys, prefix).len() >= 1,
        listing_body(keys, prefix).len() > 1,
    ensures
        list_outcome(keys, prefix) == matching_keys(keys, prefix),
{
    let matching = matching_keys(keys, prefix);
    assert forall|k: int, j: int|
        0 <= k < matching.len() && 0 <= j < matching[k].len() implies matching[k][j]
        != '\n' by {
        lemma_filter_from(keys, |k: Seq<char>| prefix.is_prefix_of(k), k);
        let o = choose|o: int| 0 <= o < keys.len() && keys[o] == matching[k];
        assert(keys[o][j] != '\n');
    }
    crate::lines::lemma_split_join(matching);
}

} // verus!
