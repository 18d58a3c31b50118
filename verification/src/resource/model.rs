//! The store as a sequence of entries, oldest first, and what each operation
//! does to that sequence.
//!
//! An entry's place in the sequence is its insertion stamp: a new entry goes to
//! the end, so the sequence is always in order of insertion.

use crate::erased::{erased_tag, erases, holds_a, Erased};
use std::any::Any;
use vstd::prelude::*;

verus! {

/// One entry of the store.
pub struct Entry {
    /// Its key, unique among the entries of its type.
    pub key: Seq<char>,
    /// The boxed value.
    pub value: Erased,
}

/// No two entries of one type share a key.
pub open spec fn well_formed(s: Seq<Entry>) -> bool {
    forall|i: int, j: int|
        0 <= i < j < s.len() && erased_tag(s[i].value) == erased_tag(s[j].value) ==> s[i].key
            != s[j].key
}

/// `e` is the entry of type `T` under `key`.
pub open spec fn is_entry_for<T: Any>(e: Entry, key: Seq<char>) -> bool {
    holds_a::<T>(e.value) && e.key == key
}

/// The value of `e` is `v`.
pub open spec fn stores<T: Any>(e: Entry, v: T) -> bool {
    erases(e.value, v)
}

/// `i` is the place of the oldest entry of type `T` under `key`.
pub open spec fn is_first<T: Any>(s: Seq<Entry>, key: Seq<char>, i: int) -> bool {
    &&& 0 <= i < s.len()
    &&& is_entry_for::<T>(s[i], key)
    &&& forall|j: int| 0 <= j < i ==> !is_entry_for::<T>(#[trigger] s[j], key)
}

/// The place of the entry of type `T` under `key`, if there is one.
pub open spec fn position<T: Any>(s: Seq<Entry>, key: Seq<char>) -> Option<int> {
    if exists|i: int| is_first::<T>(s, key, i) {
        Some(choose|i: int| is_first::<T>(s, key, i))
    } else {
        None
    }
}

/// The entry of type `T` under `key`, if there is one.
pub open spec fn lookup<T: Any>(s: Seq<Entry>, key: Seq<char>) -> Option<Entry> {
    match position::<T>(s, key) {
        Some(i) => Some(s[i]),
        None => None,
    }
}

/// The entry of type `T` under `key` is there, and its value is `v`.
pub open spec fn reads<T: Any>(s: Seq<Entry>, key: Seq<char>, v: T) -> bool {
    lookup::<T>(s, key) matches Some(e) && stores(e, v)
}

/// `s` without the entries of type `T` under `key`, the others in their order.
pub open spec fn without<T: Any>(s: Seq<Entry>, key: Seq<char>) -> Seq<Entry>
    decreases s.len(),
{
    if s.len() == 0 {
        s
    } else if is_entry_for::<T>(s.last(), key) {
        without::<T>(s.drop_last(), key)
    } else {
        without::<T>(s.drop_last(), key).push(s.last())
    }
}

/// The entries of type `T`, in their order.
pub open spec fn bucket<T: Any>(s: Seq<Entry>) -> Seq<Entry>
    decreases s.len(),
{
    if s.len() == 0 {
        s
    } else if holds_a::<T>(s.last().value) {
        bucket::<T>(s.drop_last()).push(s.last())
    } else {
        bucket::<T>(s.drop_last())
    }
}

/// There is an entry of type `T`.
pub open spec fn has_any<T: Any>(s: Seq<Entry>) -> bool {
    exists|i: int| 0 <= i < s.len() && holds_a::<T>(#[trigger] s[i].value)
}

/// `post` is `pre` after `value` was added as type `T` under `key`: the entry
/// that was there is gone, and the new one stands at the end.
pub open spec fn added<T: Any>(pre: Seq<Entry>, post: Seq<Entry>, key: Seq<char>, value: T) -> bool {
    &&& post.len() > 0
    &&& post.drop_last() == without::<T>(pre, key)
    &&& post.last().key == key
    &&& stores(post.last(), value)
}

/// `post` is `pre` after the values of type `T` were open to change, and no
/// other: every entry is in its place under its key and of its type, and an
/// entry of another type is as it was.
pub open spec fn rewritten<T: Any>(pre: Seq<Entry>, post: Seq<Entry>) -> bool {
    &&& post.len() == pre.len()
    &&& forall|i: int|
        0 <= i < pre.len() ==> (#[trigger] post[i]).key == pre[i].key && erased_tag(post[i].value)
            == erased_tag(pre[i].value) && (holds_a::<T>(post[i].value) <==> holds_a::<T>(
            pre[i].value,
        )) && (!holds_a::<T>(pre[i].value) ==> post[i] == pre[i])
}

/// The oldest entry of type `T` under `key` is the one that `position` names.
pub proof fn lemma_position_is<T: Any>(s: Seq<Entry>, key: Seq<char>, i: int)
    requires
        is_first::<T>(s, key, i),
    ensures
        position::<T>(s, key) == Some(i),
        lookup::<T>(s, key) == Some(s[i]),
{
    let k = choose|k: int| is_first::<T>(s, key, k);
    if k < i {
        assert(!is_entry_for::<T>(s[k], key));
    } else if i < k {
        assert(!is_entry_for::<T>(s[i], key));
    }
}

/// Where no entry is of type `T` under `key`, `position` names none.
pub proof fn lemma_position_none<T: Any>(s: Seq<Entry>, key: Seq<char>)
    requires
        forall|j: int| 0 <= j < s.len() ==> !is_entry_for::<T>(#[trigger] s[j], key),
    ensures
        position::<T>(s, key) is None,
        lookup::<T>(s, key) is None,
{
}

/// What `position` names is the oldest entry of type `T` under `key`.
pub proof fn lemma_position_some<T: Any>(s: Seq<Entry>, key: Seq<char>)
    requires
        position::<T>(s, key) is Some,
    ensures
        is_first::<T>(s, key, position::<T>(s, key)->Some_0),
{
}

/// Where some entry is of type `T` under `key`, `position` names one.
pub proof fn lemma_position_exists<T: Any>(s: Seq<Entry>, key: Seq<char>, i: int)
    requires
        0 <= i < s.len(),
        is_entry_for::<T>(s[i], key),
    ensures
        position::<T>(s, key) is Some,
        position::<T>(s, key)->Some_0 <= i,
    decreases i,
{
    if forall|j: int| 0 <= j < i ==> !is_entry_for::<T>(#[trigger] s[j], key) {
        lemma_position_is::<T>(s, key, i);
    } else {
        let j = choose|j: int| 0 <= j < i && is_entry_for::<T>(#[trigger] s[j], key);
        lemma_position_exists::<T>(s, key, j);
    }
}

/// `without` leaves no entry of type `T` under `key`, and keeps a sequence
/// that has none as it is.
pub proof fn lemma_without<T: Any>(s: Seq<Entry>, key: Seq<char>)
    ensures
        forall|j: int|
            0 <= j < without::<T>(s, key).len() ==> !is_entry_for::<T>(
                #[trigger] without::<T>(s, key)[j],
                key,
            ),
        position::<T>(s, key) is None ==> without::<T>(s, key) == s,
    decreases s.len(),
{
    if s.len() > 0 {
        lemma_without::<T>(s.drop_last(), key);
        let w = without::<T>(s.drop_last(), key);
        assert forall|j: int| 0 <= j < without::<T>(s, key).len() implies !is_entry_for::<T>(
            #[trigger] without::<T>(s, key)[j],
            key,
        ) by {
            if j < w.len() {
                assert(without::<T>(s, key)[j] == w[j]);
            }
        }
        if position::<T>(s, key) is None {
            if is_entry_for::<T>(s.last(), key) {
                lemma_position_exists::<T>(s, key, s.len() - 1);
            }
            if position::<T>(s.drop_last(), key) is Some {
                let i = position::<T>(s.drop_last(), key)->Some_0;
                lemma_position_exists::<T>(s, key, i);
            }
            assert(s.drop_last().push(s.last()) =~= s);
        }
    }
}

/// There are entries of type `T` exactly when `bucket` is not empty.
pub proof fn lemma_bucket_has_any<T: Any>(s: Seq<Entry>)
    ensures
        bucket::<T>(s).len() > 0 <==> has_any::<T>(s),
    decreases s.len(),
{
    if s.len() > 0 {
        lemma_bucket_has_any::<T>(s.drop_last());
        if holds_a::<T>(s.last().value) {
            assert(holds_a::<T>(s[s.len() - 1].value));
        } else if has_any::<T>(s) {
            let i = choose|i: int| 0 <= i < s.len() && holds_a::<T>(#[trigger] s[i].value);
            assert(s.drop_last()[i] == s[i]);
        } else if has_any::<T>(s.drop_last()) {
            let i = choose|i: int|
                0 <= i < s.drop_last().len() && holds_a::<T>(#[trigger] s.drop_last()[i].value);
            assert(s.drop_last()[i] == s[i]);
        }
    }
}

/// Taking the entries of type `T` and dropping the one under `key` can be done
/// in either order.
pub proof fn lemma_bucket_without<T: Any>(s: Seq<Entry>, key: Seq<char>)
    ensures
        bucket::<T>(without::<T>(s, key)) == without::<T>(bucket::<T>(s), key),
    decreases s.len(),
{
    if s.len() > 0 {
        lemma_bucket_without::<T>(s.drop_last(), key);
        let w = without::<T>(s.drop_last(), key);
        let b = bucket::<T>(s.drop_last());
        if is_entry_for::<T>(s.last(), key) {
            assert(b.push(s.last()).drop_last() =~= b);
        } else if holds_a::<T>(s.last().value) {
            assert(w.push(s.last()).drop_last() =~= w);
            assert(b.push(s.last()).drop_last() =~= b);
        } else {
            assert(w.push(s.last()).drop_last() =~= w);
        }
    }
}

/// What was added is what is read: after `add(key, value)`, `get_ref` under
/// the same type and key shows `value`.
pub proof fn lemma_add_then_get<T: Any>(pre: Seq<Entry>, post: Seq<Entry>, key: Seq<char>, value: T)
    requires
        added::<T>(pre, post, key, value),
    ensures
        reads::<T>(post, key, value),
{
    lemma_without::<T>(pre, key);
    assert forall|j: int| 0 <= j < post.len() - 1 implies !is_entry_for::<T>(
        #[trigger] post[j],
        key,
    ) by {
        assert(post[j] == post.drop_last()[j]);
    }
    lemma_position_is::<T>(post, key, post.len() - 1);
}

/// Adding moves to the end: after `add(key, value)` the entries of type `T`
/// are those from before without the one under `key`, in their order, and then
/// the new one. So the new or replaced entry is the most recent in what
/// `query` lists, and the others keep their places among themselves.
pub proof fn lemma_add_moves_to_end<T: Any>(
    pre: Seq<Entry>,
    post: Seq<Entry>,
    key: Seq<char>,
    value: T,
)
    requires
        added::<T>(pre, post, key, value),
    ensures
        bucket::<T>(post) == without::<T>(bucket::<T>(pre), key).push(post.last()),
{
    lemma_bucket_without::<T>(pre, key);
}

/// Entries come out in the order they were added: after `add` under a key
/// that type `T` did not have, the entries of type `T` are those from before,
/// in their order, and then the new one.
pub proof fn lemma_add_new_key_appends<T: Any>(
    pre: Seq<Entry>,
    post: Seq<Entry>,
    key: Seq<char>,
    value: T,
)
    requires
        added::<T>(pre, post, key, value),
        lookup::<T>(pre, key) is None,
    ensures
        bucket::<T>(post) == bucket::<T>(pre).push(post.last()),
{
    lemma_without::<T>(pre, key);
    assert(post.drop_last().push(post.last()) =~= post);
}

/// After an exclusive borrow the entries are found where they were: what
/// `position` names under any key, for the type that was open to change, is
/// what it named before.
pub proof fn lemma_rewritten_keeps_places<T: Any>(pre: Seq<Entry>, post: Seq<Entry>, key: Seq<char>)
    requires
        rewritten::<T>(pre, post),
    ensures
        position::<T>(post, key) == position::<T>(pre, key),
{
    if position::<T>(pre, key) is Some {
        lemma_position_some::<T>(pre, key);
        let i = position::<T>(pre, key)->Some_0;
        assert forall|j: int| 0 <= j < i implies !is_entry_for::<T>(#[trigger] post[j], key) by {
            assert(!is_entry_for::<T>(pre[j], key));
        }
        assert(is_entry_for::<T>(post[i], key));
        lemma_position_is::<T>(post, key, i);
    } else {
        assert forall|j: int| 0 <= j < post.len() implies !is_entry_for::<T>(
            #[trigger] post[j],
            key,
        ) by {
            if is_entry_for::<T>(pre[j], key) {
                lemma_position_exists::<T>(pre, key, j);
            }
        }
        lemma_position_none::<T>(post, key);
    }
}

/// An exclusive borrow moves nothing: the entries of type `T` after it are, one
/// for one, the entries of type `T` before it, each under its key.
pub proof fn lemma_rewritten_bucket<T: Any>(pre: Seq<Entry>, post: Seq<Entry>)
    requires
        rewritten::<T>(pre, post),
    ensures
        bucket::<T>(post).len() == bucket::<T>(pre).len(),
        forall|k: int|
            0 <= k < bucket::<T>(pre).len() ==> (#[trigger] bucket::<T>(post)[k]).key
                == bucket::<T>(pre)[k].key,
    decreases pre.len(),
{
    if pre.len() > 0 {
        assert(rewritten::<T>(pre.drop_last(), post.drop_last())) by {
            assert forall|i: int| 0 <= i < pre.len() - 1 implies (#[trigger] post.drop_last()[i]).key
                == pre.drop_last()[i].key && erased_tag(post.drop_last()[i].value) == erased_tag(
                pre.drop_last()[i].value,
            ) && (holds_a::<T>(post.drop_last()[i].value) <==> holds_a::<T>(
                pre.drop_last()[i].value,
            )) && (!holds_a::<T>(pre.drop_last()[i].value) ==> post.drop_last()[i]
                == pre.drop_last()[i]) by {
                assert(post[i].key == pre[i].key);
            }
        }
        lemma_rewritten_bucket::<T>(pre.drop_last(), post.drop_last());
        assert(post[pre.len() - 1].key == pre[pre.len() - 1].key);
    }
}

/// An exclusive borrow keeps the store well formed.
pub proof fn lemma_rewritten_well_formed<T: Any>(pre: Seq<Entry>, post: Seq<Entry>)
    requires
        rewritten::<T>(pre, post),
        well_formed(pre),
    ensures
        well_formed(post),
{
    assert forall|i: int, j: int|
        0 <= i < j < post.len() && erased_tag(post[i].value) == erased_tag(
            post[j].value,
        ) implies post[i].key != post[j].key by {
        assert(post[i].key == pre[i].key && post[j].key == pre[j].key);
    }
}

/// How many entries of type `T` stand before place `i`: the place, among the
/// entries of type `T`, of the entry at place `i`.
pub open spec fn rank<T: Any>(s: Seq<Entry>, i: int) -> int {
    bucket::<T>(s.take(i)).len() as int
}

/// An entry of type `T` is listed at its rank.
pub proof fn lemma_bucket_at<T: Any>(s: Seq<Entry>, i: int)
    requires
        0 <= i < s.len(),
        holds_a::<T>(s[i].value),
    ensures
        0 <= rank::<T>(s, i) < bucket::<T>(s).len(),
        bucket::<T>(s)[rank::<T>(s, i)] == s[i],
    decreases s.len(),
{
    if i == s.len() - 1 {
        assert(s.take(i) =~= s.drop_last());
    } else {
        assert(s.drop_last().take(i) =~= s.take(i));
        lemma_bucket_at::<T>(s.drop_last(), i);
    }
}

/// An exclusive borrow changes no rank.
pub proof fn lemma_rewritten_keeps_ranks<T: Any>(pre: Seq<Entry>, post: Seq<Entry>, i: int)
    requires
        rewritten::<T>(pre, post),
        0 <= i <= pre.len(),
    ensures
        rank::<T>(post, i) == rank::<T>(pre, i),
{
    assert(rewritten::<T>(pre.take(i), post.take(i))) by {
        assert forall|k: int| 0 <= k < i implies (#[trigger] post.take(i)[k]).key == pre.take(
            i,
        )[k].key && erased_tag(post.take(i)[k].value) == erased_tag(pre.take(i)[k].value) && (
        holds_a::<T>(post.take(i)[k].value) <==> holds_a::<T>(pre.take(i)[k].value)) && (
        !holds_a::<T>(pre.take(i)[k].value) ==> post.take(i)[k] == pre.take(i)[k]) by {
            assert(post[k].key == pre[k].key);
        }
    }
    lemma_rewritten_bucket::<T>(pre.take(i), post.take(i));
}

/// What was written is what is read: when an exclusive borrow has ended, the
/// entry of type `T` under `key` is found as before, and `get_ref` shows what
/// its place among the entries of type `T` then holds, which is what was last
/// written through its borrow.
pub proof fn lemma_borrow_then_get<T: Any>(
    pre: Seq<Entry>,
    post: Seq<Entry>,
    key: Seq<char>,
    value: T,
)
    requires
        rewritten::<T>(pre, post),
        position::<T>(pre, key) is Some,
        stores(bucket::<T>(post)[rank::<T>(pre, position::<T>(pre, key)->Some_0)], value),
    ensures
        reads::<T>(post, key, value),
{
    lemma_rewritten_keeps_places::<T>(pre, post, key);
    lemma_position_some::<T>(post, key);
    let i = position::<T>(pre, key)->Some_0;
    lemma_rewritten_keeps_ranks::<T>(pre, post, i);
    lemma_bucket_at::<T>(post, i);
}

/// What `lookup` finds after one more entry was put at the end: what it found
/// before, if anything, and else the new entry, if it is of type `T` under
/// `key`.
pub proof fn lemma_lookup_push<T: Any>(s: Seq<Entry>, e: Entry, key: Seq<char>)
    ensures
        lookup::<T>(s.push(e), key) == (if lookup::<T>(s, key) is Some {
            lookup::<T>(s, key)
        } else if is_entry_for::<T>(e, key) {
            Some(e)
        } else {
            None
        }),
{
    let t = s.push(e);
    if position::<T>(s, key) is Some {
        lemma_position_some::<T>(s, key);
        let i = position::<T>(s, key)->Some_0;
        assert forall|j: int| 0 <= j < i implies !is_entry_for::<T>(#[trigger] t[j], key) by {
            assert(t[j] == s[j]);
        }
        assert(t[i] == s[i]);
        lemma_position_is::<T>(t, key, i);
    } else {
        assert forall|j: int| 0 <= j < s.len() implies !is_entry_for::<T>(#[trigger] t[j], key) by {
            assert(t[j] == s[j]);
            if is_entry_for::<T>(s[j], key) {
                lemma_position_exists::<T>(s, key, j);
            }
        }
        if is_entry_for::<T>(e, key) {
            lemma_position_is::<T>(t, key, s.len() as int);
        } else {
            lemma_position_none::<T>(t, key);
        }
    }
}

/// Dropping the entries of type `T` under `key` leaves what `lookup` finds
/// under any other key, for any type.
pub proof fn lemma_without_keeps_other_keys<T: Any, U: Any>(
    s: Seq<Entry>,
    key: Seq<char>,
    other: Seq<char>,
)
    requires
        other != key,
    ensures
        lookup::<U>(without::<T>(s, key), other) == lookup::<U>(s, other),
    decreases s.len(),
{
    if s.len() > 0 {
        let front = s.drop_last();
        lemma_without_keeps_other_keys::<T, U>(front, key, other);
        lemma_lookup_push::<U>(front, s.last(), other);
        assert(front.push(s.last()) =~= s);
        if !is_entry_for::<T>(s.last(), key) {
            lemma_lookup_push::<U>(without::<T>(front, key), s.last(), other);
        }
    }
}

/// Adding leaves the other keys alone: after `add` under `key`, what is found
/// under any other key, for any type, is what was found before.
pub proof fn lemma_add_keeps_other_keys<T: Any, U: Any>(
    pre: Seq<Entry>,
    post: Seq<Entry>,
    key: Seq<char>,
    value: T,
    other: Seq<char>,
)
    requires
        added::<T>(pre, post, key, value),
        other != key,
    ensures
        lookup::<U>(post, other) == lookup::<U>(pre, other),
{
    lemma_without_keeps_other_keys::<T, U>(pre, key, other);
    lemma_lookup_push::<U>(post.drop_last(), post.last(), other);
    assert(post.drop_last().push(post.last()) =~= post);
}

/// The store before the add number `i` of a run of adds that starts from
/// `start` and leaves the stores `states`, one after each add.
pub open spec fn state_before(start: Seq<Entry>, states: Seq<Seq<Entry>>, i: int) -> Seq<Entry> {
    if i == 0 {
        start
    } else {
        states[i - 1]
    }
}

/// `states` are the stores after each add of a run that starts from `start`
/// and adds `values[i]` as type `T` under `keys[i]`, for each `i` in turn.
pub open spec fn is_run_of_adds<T: Any>(
    start: Seq<Entry>,
    keys: Seq<Seq<char>>,
    values: Seq<T>,
    states: Seq<Seq<Entry>>,
) -> bool {
    &&& keys.len() == values.len()
    &&& keys.len() == states.len()
    &&& forall|i: int|
        0 <= i < keys.len() ==> added::<T>(
            state_before(start, states, i),
            #[trigger] states[i],
            keys[i],
            values[i],
        )
}

/// The entries that a run of adds put at the end of the store, one for each
/// add, in the order of the adds.
pub open spec fn added_entries(states: Seq<Seq<Entry>>) -> Seq<Entry> {
    Seq::new(states.len(), |i: int| states[i].last())
}

/// Entries are listed in the order they were added: after a run of adds of
/// type `T` under keys that differ from each other and that the type did not
/// have before, the entries of type `T` are those from before the run, in their
/// order, and then the added ones, in the order of the adds, each with its
/// value.
pub proof fn lemma_adds_are_listed_in_order<T: Any>(
    start: Seq<Entry>,
    keys: Seq<Seq<char>>,
    values: Seq<T>,
    states: Seq<Seq<Entry>>,
)
    requires
        is_run_of_adds::<T>(start, keys, values, states),
        forall|i: int, j: int| 0 <= i < j < keys.len() ==> keys[i] != keys[j],
        forall|i: int| 0 <= i < keys.len() ==> lookup::<T>(start, #[trigger] keys[i]) is None,
    ensures
        bucket::<T>(state_before(start, states, states.len() as int)) == bucket::<T>(start)
            + added_entries(states),
        forall|i: int|
            0 <= i < keys.len() ==> is_entry_for::<T>(#[trigger] added_entries(states)[i], keys[i])
                && stores(added_entries(states)[i], values[i]),
    decreases keys.len(),
{
    let n = keys.len() as int;
    if n == 0 {
        assert(added_entries(states) =~= Seq::<Entry>::empty());
        assert(bucket::<T>(start) + Seq::<Entry>::empty() =~= bucket::<T>(start));
    } else {
        let front_keys = keys.drop_last();
        let front_values = values.drop_last();
        let front_states = states.drop_last();
        assert forall|i: int| 0 <= i < front_keys.len() implies added::<T>(
            state_before(start, front_states, i),
            #[trigger] front_states[i],
            front_keys[i],
            front_values[i],
        ) by {
            assert(added::<T>(state_before(start, states, i), states[i], keys[i], values[i]));
        }
        assert forall|i: int| 0 <= i < front_keys.len() implies lookup::<T>(
            start,
            #[trigger] front_keys[i],
        ) is None by {
            assert(lookup::<T>(start, keys[i]) is None);
        }
        lemma_adds_are_listed_in_order::<T>(start, front_keys, front_values, front_states);
        let pre = state_before(start, states, n - 1);
        assert(pre == state_before(start, front_states, n - 1));
        let post = states[n - 1];
        assert(added::<T>(pre, post, keys[n - 1], values[n - 1]));
        lemma_new_key_stays_new::<T>(start, keys, values, states, n - 1, n - 1);
        lemma_add_new_key_appends::<T>(pre, post, keys[n - 1], values[n - 1]);
        assert(added_entries(states) =~= added_entries(front_states).push(post.last()));
        assert(bucket::<T>(post) =~= bucket::<T>(start) + added_entries(states));
        assert forall|i: int| 0 <= i < keys.len() implies is_entry_for::<T>(
            #[trigger] added_entries(states)[i],
            keys[i],
        ) && stores(added_entries(states)[i], values[i]) by {
            assert(added::<T>(state_before(start, states, i), states[i], keys[i], values[i]));
        }
    }
}

/// In a run of adds under keys that differ from each other and that the type
/// did not have before, the key of a later add is still new when `done` adds
/// are done.
pub proof fn lemma_new_key_stays_new<T: Any>(
    start: Seq<Entry>,
    keys: Seq<Seq<char>>,
    values: Seq<T>,
    states: Seq<Seq<Entry>>,
    done: int,
    later: int,
)
    requires
        is_run_of_adds::<T>(start, keys, values, states),
        forall|i: int, j: int| 0 <= i < j < keys.len() ==> keys[i] != keys[j],
        forall|i: int| 0 <= i < keys.len() ==> lookup::<T>(start, #[trigger] keys[i]) is None,
        0 <= done <= later < keys.len(),
    ensures
        lookup::<T>(state_before(start, states, done), keys[later]) is None,
    decreases done,
{
    if done > 0 {
        lemma_new_key_stays_new::<T>(start, keys, values, states, done - 1, later);
        let pre = state_before(start, states, done - 1);
        let post = states[done - 1];
        assert(added::<T>(pre, post, keys[done - 1], values[done - 1]));
        lemma_add_keeps_other_keys::<T, T>(pre, post, keys[done - 1], values[done - 1], keys[later]);
    }
}

} // verus!
