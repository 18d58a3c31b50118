//! The resource store: values of any type, each under a string key, found
//! again by type and key, and listed by type in the order they were added.
//!
//! Borrows are plain references into the store, shared from `get_ref` and
//! `query`, exclusive from `query_mut`: the compiler ends each of them with
//! the last use of what was handed out, and it admits no call on the store
//! while an exclusive borrow is in use.

pub mod model;

use crate::erased::{erase, erased_tag, holds_a, peek, peek_mut, Erased};
use crate::resource::model::{
    added, bucket, has_any, is_entry_for, is_first, lemma_bucket_has_any, lemma_position_is,
    lemma_position_none, lemma_rewritten_well_formed, lookup, reads, rewritten, stores,
    well_formed, without, Entry,
};
use std::any::Any;
use vstd::prelude::*;

verus! {

/// One stored resource: its key and its boxed value. The entries of a store
/// stand in the order they were added.
pub struct ResourceInfo {
    key: String,
    value: Erased,
}

impl View for ResourceInfo {
    type V = Entry;

    closed spec fn view(&self) -> Entry {
        Entry { key: self.key@, value: self.value }
    }
}

/// The entries of `d` as the model sees them.
spec fn view_of(d: Seq<ResourceInfo>) -> Seq<Entry> {
    d.map_values(|i: ResourceInfo| i@)
}

/// `v` shows the values of the entries `b`, one for one and in their order.
pub open spec fn shows<T: Any>(b: Seq<Entry>, v: Seq<&T>) -> bool {
    &&& v.len() == b.len()
    &&& forall|k: int| 0 <= k < b.len() ==> stores(#[trigger] b[k], *v[k])
    &&& forall|k: int, x: T| 0 <= k < b.len() && #[trigger] stores(b[k], x) ==> *v[k] == x
}

/// `v` lends the values of the entries `b`, one for one and in their order.
pub open spec fn lends<T: Any>(b: Seq<Entry>, v: Seq<&mut T>) -> bool {
    &&& v.len() == b.len()
    &&& forall|k: int| 0 <= k < b.len() ==> stores(#[trigger] b[k], *v[k])
    &&& forall|k: int, x: T| 0 <= k < b.len() && #[trigger] stores(b[k], x) ==> *v[k] == x
}

proof fn lemma_remove_keeps_well_formed(s: Seq<Entry>, i: int)
    requires
        well_formed(s),
        0 <= i < s.len(),
    ensures
        well_formed(s.remove(i)),
{
    let r = s.remove(i);
    assert forall|a: int, b: int|
        0 <= a < b < r.len() && erased_tag(r[a].value) == erased_tag(r[b].value) implies r[a].key
        != r[b].key by {
        let a0 = if a < i { a } else { a + 1 };
        let b0 = if b < i { b } else { b + 1 };
        assert(r[a] == s[a0] && r[b] == s[b0]);
    }
}

/// Whether `info` is the entry of type `T` under `key`.
fn is_for<T: Any>(info: &ResourceInfo, key: &String) -> (r: bool)
    ensures
        r == is_entry_for::<T>(info@, key@),
{
    info.key == *key && peek::<T>(&info.value).is_some()
}

/// The place of the oldest entry of type `T` under `key` in `data`.
fn find_in<T: Any>(data: &Vec<ResourceInfo>, key: &String) -> (r: Option<usize>)
    ensures
        match r {
            Some(i) => is_first::<T>(view_of(data@), key@, i as int),
            None => forall|j: int|
                0 <= j < data@.len() ==> !is_entry_for::<T>(#[trigger] view_of(data@)[j], key@),
        },
{
    let mut i: usize = 0;
    while i < data.len()
        invariant
            i <= data.len(),
            forall|j: int| 0 <= j < i ==> !is_entry_for::<T>(#[trigger] view_of(data@)[j], key@),
        decreases data.len() - i,
    {
        if is_for::<T>(&data[i], key) {
            return Some(i);
        }
        i += 1;
    }
    None
}

/// Takes every entry of type `T` under `key` out of `data`.
fn remove_all_in<T: Any>(data: &mut Vec<ResourceInfo>, key: &String)
    ensures
        view_of(final(data)@) == without::<T>(view_of(old(data)@), key@),
        well_formed(view_of(old(data)@)) ==> well_formed(view_of(final(data)@)),
        forall|j: int|
            0 <= j < final(data)@.len() ==> !is_entry_for::<T>(
                #[trigger] view_of(final(data)@)[j],
                key@,
            ),
{
    let ghost before = view_of(data@);
    let ghost mut k: int = 0;
    let mut i: usize = 0;
    proof {
        assert(before.take(0) =~= Seq::empty());
        assert(view_of(data@).take(0) =~= Seq::empty());
        assert(view_of(data@).skip(0) =~= before.skip(0));
    }
    while i < data.len()
        invariant
            i <= data.len(),
            i <= k <= before.len(),
            data@.len() - i == before.len() - k,
            view_of(data@).take(i as int) == without::<T>(before.take(k), key@),
            view_of(data@).skip(i as int) == before.skip(k),
            well_formed(before) ==> well_formed(view_of(data@)),
            forall|j: int| 0 <= j < i ==> !is_entry_for::<T>(#[trigger] view_of(data@)[j], key@),
        decreases data.len() - i,
    {
        let ghost now = view_of(data@);
        proof {
            assert(now[i as int] == now.skip(i as int)[0]);
            assert(before[k] == before.skip(k)[0]);
            assert(before.take(k + 1).drop_last() =~= before.take(k));
            assert(before.take(k + 1).last() == before[k]);
        }
        if is_for::<T>(&data[i], key) {
            data.remove(i);
            proof {
                assert(view_of(data@) =~= now.remove(i as int));
                if well_formed(before) {
                    lemma_remove_keeps_well_formed(now, i as int);
                }
                assert(view_of(data@).take(i as int) =~= now.take(i as int));
                let rest = view_of(data@).skip(i as int);
                assert forall|j: int| 0 <= j < before.len() - k - 1 implies #[trigger] rest[j]
                    == before.skip(k + 1)[j] by {
                    assert(now.skip(i as int)[j + 1] == before.skip(k)[j + 1]);
                }
                assert(rest =~= before.skip(k + 1));
                k = k + 1;
            }
        } else {
            proof {
                assert(now.take(i + 1) =~= now.take(i as int).push(now[i as int]));
                let rest = now.skip(i + 1);
                assert forall|j: int| 0 <= j < before.len() - k - 1 implies #[trigger] rest[j]
                    == before.skip(k + 1)[j] by {
                    assert(now.skip(i as int)[j + 1] == before.skip(k)[j + 1]);
                }
                assert(rest =~= before.skip(k + 1));
                k = k + 1;
            }
            i += 1;
        }
    }
    proof {
        assert(view_of(data@).take(i as int) =~= view_of(data@));
        assert(before.take(k) =~= before);
    }
}

/// Exclusive borrows of the values of type `T` in `data`, oldest entry first.
/// Every entry stays in its place; what is written through a borrow is what
/// its entry holds when the borrow ends.
fn values_mut<'a, T: Any>(data: &'a mut Vec<ResourceInfo>) -> (out: Vec<&'a mut T>)
    ensures
        lends::<T>(bucket::<T>(view_of(old(data)@)), out@),
        rewritten::<T>(view_of(old(data)@), view_of(final(data)@)),
        well_formed(view_of(old(data)@)) ==> well_formed(view_of(final(data)@)),
        bucket::<T>(view_of(final(data)@)).len() == out@.len(),
        forall|k: int|
            0 <= k < out@.len() ==> stores(
                #[trigger] bucket::<T>(view_of(final(data)@))[k],
                *final(out@[k]),
            ),
{
    let ghost before = view_of(data@);
    let ghost mut i: int = 0;
    let mut rest: &mut [ResourceInfo] = data.as_mut_slice();
    let mut out: Vec<&mut T> = Vec::new();
    proof {
        assert(before.take(0) =~= Seq::<Entry>::empty());
        assert(view_of(rest@) =~= before.skip(0));
        assert(view_of(after_borrow(data)@).take(0) =~= Seq::<Entry>::empty());
    }
    while rest.len() > 0
        invariant
            before == view_of(old(data)@),
            0 <= i,
            i + rest@.len() == before.len(),
            view_of(rest@) == before.skip(i),
            lends::<T>(bucket::<T>(before.take(i)), out@),
            after_borrow(data)@.len() == i + final(rest)@.len(),
            forall|k: int|
                0 <= k < final(rest)@.len() ==> after_borrow(data)@[i + k] == final(rest)@[k],
            rewritten::<T>(before.take(i), view_of(after_borrow(data)@).take(i)),
            bucket::<T>(view_of(after_borrow(data)@).take(i)).len() == out@.len(),
            forall|k: int|
                0 <= k < out@.len() ==> stores(
                    #[trigger] bucket::<T>(view_of(after_borrow(data)@).take(i))[k],
                    *final(out@[k]),
                ),
        decreases rest@.len(),
    {
        let ghost fin = view_of(after_borrow(data)@);
        let ghost done = fin.take(i);
        let ghost rest_fin = final(rest)@;
        let ghost entry = before[i];
        let ghost rest_now = view_of(rest@);
        proof {
            assert(rest_now[0] == before.skip(i)[0]);
            assert(before.take(i + 1).drop_last() =~= before.take(i));
            assert(before.take(i + 1).last() == entry);
        }
        let (head, tail) = rest.split_at_mut(1);
        let ghost head_fin = final(head)@;
        let ghost tail_fin = final(tail)@;
        proof {
            assert(rest_fin == head_fin + tail_fin);
            assert(view_of(tail@) =~= before.skip(i + 1)) by {
                assert forall|k: int| 0 <= k < tail@.len() implies view_of(tail@)[k] == before.skip(
                    i + 1,
                )[k] by {
                    assert(rest_now[k + 1] == before.skip(i)[k + 1]);
                }
            }
        }
        rest = tail;
        match head.first_mut() {
            Some(info) => {
                let ghost info_fin = *final(info);
                proof {
                    assert(head_fin.len() == 1);
                    assert(head_fin[0] == info_fin);
                    assert(info@ == entry);
                    assert(after_borrow(data)@[i + 0] == rest_fin[0]);
                    assert(fin[i] == info_fin@);
                    assert(fin.take(i + 1) =~= done.push(info_fin@));
                    assert(done.push(info_fin@).drop_last() =~= done);
                }
                let cell = &mut info.value;
                match peek_mut::<T>(cell) {
                    Some(x) => {
                        proof {
                            assert(stores(info_fin@, *final(x)));
                            assert(holds_a::<T>(info_fin@.value));
                            assert(bucket::<T>(fin.take(i + 1)) =~= bucket::<T>(done).push(
                                info_fin@,
                            ));
                        }
                        out.push(x);
                    },
                    None => {
                        proof {
                            assert(info_fin@ == entry);
                            assert(bucket::<T>(fin.take(i + 1)) =~= bucket::<T>(done));
                        }
                    },
                }
                proof {
                    let next = fin.take(i + 1);
                    assert forall|k: int| 0 <= k < i + 1 implies (#[trigger] next[k]).key
                        == before.take(i + 1)[k].key && erased_tag(next[k].value) == erased_tag(
                        before.take(i + 1)[k].value,
                    ) && (holds_a::<T>(next[k].value) <==> holds_a::<T>(
                        before.take(i + 1)[k].value,
                    )) && (!holds_a::<T>(before.take(i + 1)[k].value) ==> next[k]
                        == before.take(i + 1)[k]) by {
                        if k < i {
                            assert(next[k] == done[k]);
                            assert(before.take(i + 1)[k] == before.take(i)[k]);
                        }
                    }
                    assert forall|k: int| 0 <= k < tail_fin.len() implies after_borrow(data)@[i + 1
                        + k] == tail_fin[k] by {
                        assert(rest_fin[k + 1] == tail_fin[k]);
                    }
                    i = i + 1;
                }
            },
            None => {
                assert(false);
            },
        }
    }
    // Nothing is left, and nothing will be: the look at the empty rest says
    // that it stays empty.
    let ghost last = final(rest)@;
    let nothing = rest.first_mut();
    proof {
        assert(last.len() == 0);
        assert(before.take(i) =~= before);
        assert(view_of(after_borrow(data)@).take(i) =~= view_of(after_borrow(data)@));
        if well_formed(before) {
            lemma_rewritten_well_formed::<T>(before, view_of(after_borrow(data)@));
        }
    }
    out
}

/// The store.
pub struct Resource {
    data: Vec<ResourceInfo>,
}

impl View for Resource {
    type V = Seq<Entry>;

    closed spec fn view(&self) -> Seq<Entry> {
        view_of(self.data@)
    }
}

impl Resource {
    /// An empty store.
    pub fn new() -> (r: Self)
        ensures
            r@ == Seq::<Entry>::empty(),
            well_formed(r@),
    {
        let r = Self { data: Vec::new() };
        assert(r@ =~= Seq::<Entry>::empty());
        r
    }

    /// Stores `value` as type `T` under `unique_id`, as the newest entry. An
    /// entry that was there under the same type and key is replaced.
    pub fn add<T: Any>(&mut self, unique_id: &str, value: T)
        ensures
            added::<T>(old(self)@, final(self)@, unique_id@, value),
            well_formed(old(self)@) ==> well_formed(final(self)@),
    {
        let key = unique_id.to_owned();
        let ghost before = self@;
        remove_all_in::<T>(&mut self.data, &key);
        let ghost kept = view_of(self.data@);
        let cell = erase(value);
        let info = ResourceInfo { key, value: cell };
        self.data.push(info);
        proof {
            let after = view_of(self.data@);
            assert(after =~= kept.push(info@));
            assert(after.drop_last() =~= kept);
            if well_formed(before) {
                assert forall|a: int, b: int|
                    0 <= a < b < after.len() && erased_tag(after[a].value) == erased_tag(
                        after[b].value,
                    ) implies after[a].key != after[b].key by {
                    if b == after.len() - 1 {
                        assert(after[a] == kept[a]);
                        assert(holds_a::<T>(kept[a].value));
                        assert(!is_entry_for::<T>(kept[a], unique_id@));
                    } else {
                        assert(after[a] == kept[a] && after[b] == kept[b]);
                    }
                }
            }
        }
    }

    /// A shared borrow of the value of type `T` under `unique_id`: `None` if
    /// there is no such entry.
    pub fn get_ref<T: Any>(&self, unique_id: &str) -> (r: Option<&T>)
        ensures
            r is Some <==> lookup::<T>(self@, unique_id@) is Some,
            r matches Some(x) ==> reads::<T>(self@, unique_id@, *x),
            forall|v: T| reads::<T>(self@, unique_id@, v) ==> r == Some(&v),
    {
        let key = unique_id.to_owned();
        match find_in::<T>(&self.data, &key) {
            Some(i) => {
                proof {
                    lemma_position_is::<T>(self@, key@, i as int);
                }
                let info = &self.data[i];
                assert(info@ == self@[i as int]);
                peek::<T>(&info.value)
            },
            None => {
                proof {
                    lemma_position_none::<T>(self@, key@);
                }
                None
            },
        }
    }

    /// Shared borrows of all the values of type `T`, oldest entry first:
    /// `None` if there is no entry of that type.
    pub fn query<T: Any>(&self) -> (r: Option<Vec<&T>>)
        ensures
            r is Some <==> has_any::<T>(self@),
            r matches Some(v) ==> shows::<T>(bucket::<T>(self@), v@),
    {
        let ghost s = self@;
        let mut out: Vec<&T> = Vec::new();
        let mut i: usize = 0;
        assert(s.take(0) =~= Seq::<Entry>::empty());
        while i < self.data.len()
            invariant
                i <= self.data.len(),
                s == self@,
                s.len() == self.data@.len(),
                shows::<T>(bucket::<T>(s.take(i as int)), out@),
            decreases self.data.len() - i,
        {
            let info = &self.data[i];
            proof {
                assert(info@ == s[i as int]);
                assert(s.take(i + 1).drop_last() =~= s.take(i as int));
                assert(s.take(i + 1).last() == s[i as int]);
            }
            match peek::<T>(&info.value) {
                Some(x) => {
                    out.push(x);
                },
                None => {},
            }
            i += 1;
        }
        proof {
            assert(s.take(i as int) =~= s);
            lemma_bucket_has_any::<T>(s);
        }
        if out.len() == 0 {
            None
        } else {
            Some(out)
        }
    }

    /// Whether there is an entry of type `T`.
    fn has<T: Any>(&self) -> (r: bool)
        ensures
            r == has_any::<T>(self@),
    {
        let ghost s = self@;
        let mut i: usize = 0;
        while i < self.data.len()
            invariant
                i <= self.data.len(),
                s == self@,
                s.len() == self.data@.len(),
                forall|j: int| 0 <= j < i ==> !holds_a::<T>(#[trigger] s[j].value),
            decreases self.data.len() - i,
        {
            let info = &self.data[i];
            assert(info@ == s[i as int]);
            if peek::<T>(&info.value).is_some() {
                assert(holds_a::<T>(s[i as int].value));
                return true;
            }
            i += 1;
        }
        false
    }

    /// Exclusive borrows of all the values of type `T`, oldest entry first:
    /// `None`, and nothing changed, if there is no entry of that type. The
    /// borrows end with the last use of what is handed out. Every entry is
    /// then in its place under its key, those of other types are as they
    /// were, and each entry of type `T` holds what was last written through
    /// its borrow.
    pub fn query_mut<T: Any>(&mut self) -> (r: Option<Vec<&mut T>>)
        ensures
            r is Some <==> has_any::<T>(old(self)@),
            r is None ==> final(self)@ == old(self)@,
            r matches Some(v) ==> lends::<T>(bucket::<T>(old(self)@), v@),
            r is Some ==> rewritten::<T>(old(self)@, final(self)@),
            r is Some ==> bucket::<T>(final(self)@).len() == r->Some_0@.len(),
            r is Some ==> forall|k: int|
                0 <= k < r->Some_0@.len() ==> stores(
                    #[trigger] bucket::<T>(final(self)@)[k],
                    *final(r->Some_0@[k]),
                ),
            well_formed(old(self)@) ==> well_formed(final(self)@),
    {
        if !self.has::<T>() {
            return None;
        }
        Some(values_mut::<T>(&mut self.data))
    }
}

} // verus!
