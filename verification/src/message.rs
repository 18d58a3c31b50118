//! The message dispatcher: handlers registered under string ids, each with a
//! queue of pending payloads that `execute` hands to the handler, oldest first,
//! and then empties.
//!
//! The dispatcher is generic in the render state `R` that every handler
//! receives beside the resource store. Channels are visited in the order of
//! their registration; handlers are meant to be independent of each other, and
//! nothing should rely on that order.

use crate::resource::Resource;
use crate::types::UserData;
use vstd::prelude::*;

verus! {

/// A registered handler. The field is a boxed `FnMut` trait object, which the
/// verifier cannot look into: the struct is opaque to it.
#[verifier::external_body]
#[verifier::reject_recursive_types(R)]
pub struct Handler<'a, R> {
    call: Box<dyn FnMut(&mut R, &mut Resource, &mut UserData) + 'a>,
}

/// Boxes the closure by `Box::new`. Nothing is claimed here: what it returns
/// is what `keeps` holds of.
#[verifier::external_body]
fn wrap<'a, R, F: FnMut(&mut R, &mut Resource, &mut UserData) + 'a>(c: F) -> (h: Handler<'a, R>) {
    Handler { call: Box::new(c) }
}

/// Calls the boxed closure `call.0` once, by `FnMut::call_mut`, on `call.1`,
/// `call.2` and `call.3`. The closure is the caller's code: nothing is claimed
/// of what it leaves behind. The call is what `called` holds of.
#[verifier::external_body]
fn invoke<'b, 'a, R>(call: Call<'b, 'a, R>) {
    (call.0.call)(call.1, call.2, call.3)
}

/// `h` is the handler that keeps the closure `c`: what boxing `c` returns.
pub closed spec fn keeps<'a, R, F: FnMut(&mut R, &mut Resource, &mut UserData) + 'a>(
    h: Handler<'a, R>,
    c: F,
) -> bool {
    call_ensures(wrap::<R, F>, (c,), h)
}

/// One call of a handler: the handler, the render state, the store and the
/// payload that it was given. Each is a mutable reference: it stands for what
/// the call found and for what the call left.
pub type Call<'b, 'a, R> = (&'b mut Handler<'a, R>, &'b mut R, &'b mut Resource, &'b mut UserData);

/// `c` is a call that was made: the handler `c.0` ran once, on `c.1`, `c.2`
/// and `c.3`.
pub closed spec fn called<'b, 'a, R>(c: Call<'b, 'a, R>) -> bool {
    call_ensures(invoke::<R>, (c,), ())
}

/// One registration as contracts see it: the id, the handler, and the
/// payloads that wait.
#[verifier::reject_recursive_types(R)]
pub struct Line<'a, R> {
    pub id: Seq<char>,
    pub handler: Handler<'a, R>,
    pub pending: Seq<UserData>,
}

/// `i` is the place of the registration under `id`.
pub open spec fn is_line<'a, R>(s: Seq<Line<'a, R>>, id: Seq<char>, i: int) -> bool {
    0 <= i < s.len() && s[i].id == id
}

/// A handler is registered under `id`.
pub open spec fn registered<'a, R>(s: Seq<Line<'a, R>>, id: Seq<char>) -> bool {
    exists|i: int| is_line(s, id, i)
}

/// The place of the registration under `id`, where there is one.
pub open spec fn line_of<'a, R>(s: Seq<Line<'a, R>>, id: Seq<char>) -> int {
    choose|i: int| is_line(s, id, i)
}

/// No two registrations share an id.
pub open spec fn distinct_ids<'a, R>(s: Seq<Line<'a, R>>) -> bool {
    forall|i: int, j: int| 0 <= i < j < s.len() ==> s[i].id != s[j].id
}

/// `s` after the handler `h` was registered under `id`: the registration
/// stands where the one it replaces stood, or at the end, and nothing waits
/// for it.
pub open spec fn with_handler<'a, R>(s: Seq<Line<'a, R>>, id: Seq<char>, h: Handler<'a, R>) -> Seq<
    Line<'a, R>,
> {
    let fresh = Line { id, handler: h, pending: Seq::empty() };
    if registered(s, id) {
        s.update(line_of(s, id), fresh)
    } else {
        s.push(fresh)
    }
}

/// `s` after `payload` was queued for the handler under `id`.
pub open spec fn with_message<'a, R>(s: Seq<Line<'a, R>>, id: Seq<char>, payload: UserData) -> Seq<
    Line<'a, R>,
> {
    let i = line_of(s, id);
    s.update(i, Line { id, handler: s[i].handler, pending: s[i].pending.push(payload) })
}

/// How many payloads wait in the registrations before place `i`: the number
/// of calls that `execute` makes before it comes to the registration at `i`.
pub open spec fn waiting_before<'a, R>(s: Seq<Line<'a, R>>, i: int) -> int
    decreases i,
{
    if i <= 0 {
        0
    } else {
        waiting_before(s, i - 1) + s[i - 1].pending.len()
    }
}

/// No payload waits for any handler.
pub open spec fn nothing_waits<'a, R>(s: Seq<Line<'a, R>>) -> bool {
    forall|i: int| 0 <= i < s.len() ==> (#[trigger] s[i]).pending.len() == 0
}

/// The call number `j` of the registration at place `i`, in a run of
/// `execute` on the registrations `s` that made the calls `calls`.
pub open spec fn call_at<'b, 'a, R>(
    calls: Seq<Call<'b, 'a, R>>,
    s: Seq<Line<'a, R>>,
    i: int,
    j: int,
) -> Call<'b, 'a, R> {
    calls[waiting_before(s, i) + j]
}

/// The first call of the registration at place `i`.
pub open spec fn first_call<'b, 'a, R>(
    calls: Seq<Call<'b, 'a, R>>,
    s: Seq<Line<'a, R>>,
    i: int,
) -> Call<'b, 'a, R> {
    call_at(calls, s, i, 0)
}

/// The last call of the registration at place `i`.
pub open spec fn last_call<'b, 'a, R>(
    calls: Seq<Call<'b, 'a, R>>,
    s: Seq<Line<'a, R>>,
    i: int,
) -> Call<'b, 'a, R> {
    call_at(calls, s, i, s[i].pending.len() - 1)
}

/// The calls `calls` hand out the payloads of `s`: for each registration in
/// turn one call for each payload that waits, oldest first, and no other.
pub open spec fn hands_out<'b, 'a, R>(calls: Seq<Call<'b, 'a, R>>, s: Seq<Line<'a, R>>) -> bool {
    &&& calls.len() == waiting_before(s, s.len() as int)
    &&& forall|k: int| 0 <= k < calls.len() ==> called(#[trigger] calls[k])
    &&& forall|i: int, j: int|
        0 <= i < s.len() && 0 <= j < s[i].pending.len() ==> *(#[trigger] call_at(calls, s, i, j)).3
            == s[i].pending[j]
}

#[verifier::reject_recursive_types(R)]
struct Channel<'a, R> {
    id: String,
    handler: Handler<'a, R>,
    queue: Vec<UserData>,
}

impl<'a, R> Channel<'a, R> {
    spec fn line(self) -> Line<'a, R> {
        Line { id: self.id@, handler: self.handler, pending: self.queue@ }
    }
}

spec fn lines_of<'a, R>(d: Seq<Channel<'a, R>>) -> Seq<Line<'a, R>> {
    d.map_values(|c: Channel<'a, R>| c.line())
}

/// The dispatcher.
#[verifier::reject_recursive_types(R)]
pub struct MessageCaller<'a, R> {
    messages: Vec<Channel<'a, R>>,
}

impl<'a, R> View for MessageCaller<'a, R> {
    type V = Seq<Line<'a, R>>;

    closed spec fn view(&self) -> Seq<Line<'a, R>> {
        lines_of(self.messages@)
    }
}

/// The place of the registration under `id` in `data`.
fn find_line<'a, R>(data: &Vec<Channel<'a, R>>, id: &String) -> (r: Option<usize>)
    requires
        distinct_ids(lines_of(data@)),
    ensures
        match r {
            Some(i) => is_line(lines_of(data@), id@, i as int) && line_of(lines_of(data@), id@) == i,
            None => !registered(lines_of(data@), id@),
        },
{
    let mut i: usize = 0;
    while i < data.len()
        invariant
            i <= data.len(),
            distinct_ids(lines_of(data@)),
            forall|j: int| 0 <= j < i ==> (#[trigger] lines_of(data@)[j]).id != id@,
        decreases data.len() - i,
    {
        if data[i].id == *id {
            proof {
                let s = lines_of(data@);
                assert(is_line(s, id@, i as int));
                let k = line_of(s, id@);
                assert(is_line(s, id@, k));
                if k < i {
                    assert(s[k].id != s[i as int].id);
                } else if i < k {
                    assert(s[i as int].id != s[k].id);
                }
            }
            return Some(i);
        }
        i += 1;
    }
    None
}

impl<'a, R> MessageCaller<'a, R> {
    #[verifier::type_invariant]
    spec fn inv(self) -> bool {
        distinct_ids(lines_of(self.messages@))
    }

    /// A dispatcher with no handler.
    pub fn new() -> (r: Self)
        ensures
            r@ == Seq::<Line<'a, R>>::empty(),
    {
        let r = Self { messages: Vec::new() };
        assert(r@ =~= Seq::<Line<'a, R>>::empty());
        r
    }

    /// Registers `c` under `unique_id`, with an empty queue. A handler that
    /// was registered under that id is dropped, and its queue with it. The
    /// handler is called on whatever `execute` is given: it has to take it.
    pub fn register_message<F: FnMut(&mut R, &mut Resource, &mut UserData) + 'a>(
        &mut self,
        unique_id: &str,
        c: F,
    )
        requires
            forall|r: &mut R, s: &mut Resource, d: &mut UserData| call_requires(c, (r, s, d)),
        ensures
            exists|h: Handler<'a, R>| #[trigger]
                keeps(h, c) && final(self)@ == with_handler(old(self)@, unique_id@, h),
            distinct_ids(final(self)@),
    {
        proof {
            use_type_invariant(&*self);
        }
        let id = unique_id.to_owned();
        let mut data: Vec<Channel<'a, R>> = Vec::new();
        assert(lines_of(data@) =~= Seq::<Line<'a, R>>::empty());
        std::mem::swap(&mut self.messages, &mut data);
        let ghost s = lines_of(data@);
        let found = find_line(&data, &id);
        let ghost closure = c;
        let handler = wrap(c);
        let ghost h = handler;
        assert(keeps(h, closure));
        let fresh = Channel { id, handler, queue: Vec::new() };
        match found {
            Some(i) => {
                data[i] = fresh;
                proof {
                    let t = lines_of(data@);
                    assert(t =~= s.update(i as int, fresh.line()));
                    assert forall|a: int, b: int| 0 <= a < b < t.len() implies t[a].id != t[b].id by {
                        assert(t[a].id == s[a].id && t[b].id == s[b].id);
                    }
                }
            },
            None => {
                data.push(fresh);
                proof {
                    let t = lines_of(data@);
                    assert(t =~= s.push(fresh.line()));
                    assert forall|a: int, b: int| 0 <= a < b < t.len() implies t[a].id != t[b].id by {
                        if b == s.len() {
                            assert(t[a] == s[a]);
                            assert(!is_line(s, unique_id@, a));
                        } else {
                            assert(t[a] == s[a] && t[b] == s[b]);
                        }
                    }
                }
            },
        }
        assert(lines_of(data@) == with_handler(s, unique_id@, h));
        std::mem::swap(&mut self.messages, &mut data);
    }

    /// Queues `user_data` for the handler under `unique_id`. Fails, and
    /// changes nothing, if no handler is registered under that id.
    pub fn add_message(&mut self, unique_id: &str, user_data: UserData) -> (r: Result<(), String>)
        ensures
            r is Ok <==> registered(old(self)@, unique_id@),
            r is Ok ==> final(self)@ == with_message(old(self)@, unique_id@, user_data),
            r matches Err(e) ==> final(self)@ == old(self)@ && e@ == "no message found"@,
            distinct_ids(final(self)@),
    {
        proof {
            use_type_invariant(&*self);
        }
        let id = unique_id.to_owned();
        let mut data: Vec<Channel<'a, R>> = Vec::new();
        assert(lines_of(data@) =~= Seq::<Line<'a, R>>::empty());
        std::mem::swap(&mut self.messages, &mut data);
        let ghost s = lines_of(data@);
        let r = match find_line(&data, &id) {
            Some(i) => {
                data[i].queue.push(user_data);
                proof {
                    let t = lines_of(data@);
                    assert(t =~= with_message(s, unique_id@, user_data));
                    assert forall|a: int, b: int| 0 <= a < b < t.len() implies t[a].id != t[b].id by {
                        assert(t[a].id == s[a].id && t[b].id == s[b].id);
                    }
                }
                Ok(())
            },
            None => Err("no message found".to_string()),
        };
        std::mem::swap(&mut self.messages, &mut data);
        r
    }

    /// How many payloads wait for the handler under `unique_id`; `None` if no
    /// handler is registered under that id.
    pub fn pending(&self, unique_id: &str) -> (r: Option<usize>)
        ensures
            r is Some <==> registered(self@, unique_id@),
            r matches Some(n) ==> n == self@[line_of(self@, unique_id@)].pending.len(),
    {
        proof {
            use_type_invariant(self);
        }
        let id = unique_id.to_owned();
        match find_line(&self.messages, &id) {
            Some(i) => Some(self.messages[i].queue.len()),
            None => None,
        }
    }

    /// Hands every pending payload to its handler and leaves every queue
    /// empty. The registrations have their turn in their order, and each
    /// handler is called once for each payload that waits for it, oldest
    /// first, on the render state and the store as the call before left
    /// them. A handler for which nothing waits is not called. What the
    /// handlers do is theirs to say.
    #[verifier::rlimit(80)]
    pub fn execute(&mut self, renderer: &mut R, resource: &mut Resource)
        ensures
            final(self)@.len() == old(self)@.len(),
            distinct_ids(final(self)@),
            forall|i: int|
                0 <= i < old(self)@.len() ==> (#[trigger] final(self)@[i]).id == old(self)@[i].id
                    && final(self)@[i].pending.len() == 0,
            nothing_waits(old(self)@) ==> final(self)@ == old(self)@
                && *final(renderer) == *old(renderer) && *final(resource) == *old(resource),
            exists|calls: Seq<Call<'_, 'a, R>>|
                #![trigger hands_out(calls, old(self)@)]
                (
                // One call for each payload that waited, in the order of the
                // registrations and, for each of them, oldest first.
                hands_out(calls, old(self)@)
                // The first call found the render state and the store as
                // they were given, each later call as the call before left
                // them, and they are left as the last call left them.
                && (calls.len() == 0 ==> *final(renderer) == *old(renderer)
                    && *final(resource) == *old(resource))
                && (calls.len() > 0 ==> *calls[0].1 == *old(renderer)
                    && *calls[0].2 == *old(resource)
                    && *final(renderer) == *final(calls.last().1)
                    && *final(resource) == *final(calls.last().2))
                && (forall|k: int|
                    0 < k < calls.len() ==> *(#[trigger] calls[k]).1 == *final(calls[k - 1].1)
                        && *calls[k].2 == *final(calls[k - 1].2))
                // The calls of one registration were made on its handler: the
                // first on the handler as it was registered or left by the
                // run before, each later one as the call before left it, and
                // the registration keeps it as its last call left it.
                && (forall|i: int|
                    0 <= i < old(self)@.len() && old(self)@[i].pending.len() > 0 ==> *(
                    #[trigger] first_call(calls, old(self)@, i)).0 == old(self)@[i].handler
                        && final(self)@[i].handler == *final(last_call(calls, old(self)@, i).0))
                && (forall|i: int, j: int|
                    0 <= i < old(self)@.len() && 0 < j < old(self)@[i].pending.len() ==> *(
                    #[trigger] call_at(calls, old(self)@, i, j)).0
                        == *final(call_at(calls, old(self)@, i, j - 1).0))
                // A handler for which nothing waited is as it was.
                && (forall|i: int|
                    0 <= i < old(self)@.len() && old(self)@[i].pending.len() == 0 ==> (
                    #[trigger] final(self)@[i]).handler == old(self)@[i].handler)),
    {
        proof {
            use_type_invariant(&*self);
        }
        let mut data: Vec<Channel<'a, R>> = Vec::new();
        assert(lines_of(data@) =~= Seq::<Line<'a, R>>::empty());
        std::mem::swap(&mut self.messages, &mut data);
        let ghost s = lines_of(data@);
        let ghost mut calls: Seq<Call<'_, 'a, R>> = Seq::empty();
        let mut i: usize = 0;
        while i < data.len()
            invariant
                i <= data.len(),
                data@.len() == s.len(),
                distinct_ids(s),
                calls.len() == waiting_before(s, i as int),
                forall|k: int| 0 <= k < s.len() ==> (#[trigger] data@[k]).id@ == s[k].id,
                forall|k: int| 0 <= k < i ==> (#[trigger] data@[k]).queue@.len() == 0,
                forall|k: int| i <= k < s.len() ==> (#[trigger] data@[k]).line() == s[k],
                forall|k: int| 0 <= k < calls.len() ==> called(#[trigger] calls[k]),
                forall|k: int|
                    0 < k < calls.len() ==> *(#[trigger] calls[k]).1 == *final(calls[k - 1].1)
                        && *calls[k].2 == *final(calls[k - 1].2),
                calls.len() > 0 ==> *calls[0].1 == *old(renderer) && *calls[0].2 == *old(resource)
                    && *renderer == *final(calls.last().1) && *resource == *final(calls.last().2),
                calls.len() == 0 ==> *renderer == *old(renderer) && *resource == *old(resource),
                forall|a: int, b: int|
                    0 <= a < i && 0 <= b < s[a].pending.len() ==> *(#[trigger] call_at(calls, s, a, b)).3
                        == s[a].pending[b],
                forall|a: int, b: int|
                    0 <= a < i && 0 < b < s[a].pending.len() ==> *(#[trigger] call_at(calls, s, a, b)).0
                        == *final(call_at(calls, s, a, b - 1).0),
                forall|a: int|
                    0 <= a < i && s[a].pending.len() > 0 ==> *(#[trigger] first_call(calls, s, a)).0
                        == s[a].handler && data@[a].handler == *final(last_call(calls, s, a).0),
                forall|a: int|
                    0 <= a < i && s[a].pending.len() == 0 ==> (#[trigger] data@[a]).handler
                        == s[a].handler,
            decreases data.len() - i,
        {
            let ghost d0 = data@;
            let ghost base = calls.len() as int;
            let ghost base_calls = calls;
            let mut queue: Vec<UserData> = Vec::new();
            std::mem::swap(&mut data[i].queue, &mut queue);
            proof {
                assert(data@.len() == d0.len());
                assert(forall|k: int| 0 <= k < d0.len() && k != i ==> data@[k] == d0[k]);
                assert(data@[i as int].id == d0[i as int].id);
                assert(data@[i as int].handler == d0[i as int].handler);
                assert(queue@ == s[i as int].pending);
                assert(base == waiting_before(s, i as int));
            }
            let mut j: usize = 0;
            while j < queue.len()
                invariant
                    i < data.len(),
                    j <= queue.len(),
                    data@.len() == s.len(),
                    queue@.len() == s[i as int].pending.len(),
                    0 <= base == waiting_before(s, i as int),
                    base == base_calls.len(),
                    calls.len() == base + j,
                    forall|k: int| 0 <= k < base ==> calls[k] == base_calls[k],
                    forall|k: int| j <= k < queue@.len() ==> queue@[k] == s[i as int].pending[k],
                    forall|k: int| 0 <= k < s.len() ==> (#[trigger] data@[k]).id@ == s[k].id,
                    forall|k: int| 0 <= k <= i ==> (#[trigger] data@[k]).queue@.len() == 0,
                    forall|k: int| i < k < s.len() ==> (#[trigger] data@[k]).line() == s[k],
                    forall|k: int| 0 <= k < i ==> (#[trigger] data@[k]).handler == d0[k].handler,
                    forall|k: int| 0 <= k < calls.len() ==> called(#[trigger] calls[k]),
                    forall|k: int|
                        0 < k < calls.len() ==> *(#[trigger] calls[k]).1 == *final(calls[k - 1].1)
                            && *calls[k].2 == *final(calls[k - 1].2),
                    calls.len() > 0 ==> *calls[0].1 == *old(renderer) && *calls[0].2 == *old(resource)
                        && *renderer == *final(calls.last().1)
                        && *resource == *final(calls.last().2),
                    calls.len() == 0 ==> *renderer == *old(renderer) && *resource == *old(resource),
                    forall|b: int|
                        0 <= b < j ==> *(#[trigger] calls[base + b]).3 == s[i as int].pending[b],
                    forall|b: int|
                        0 < b < j ==> *(#[trigger] calls[base + b]).0 == *final(calls[base + b - 1].0),
                    j > 0 ==> *calls[base].0 == s[i as int].handler
                        && data@[i as int].handler == *final(calls[base + j - 1].0),
                    j == 0 ==> data@[i as int].handler == s[i as int].handler,
                decreases queue.len() - j,
            {
                let ghost d1 = data@;
                let ghost q1 = queue@;
                let made: Call<'_, 'a, R> = (
                    &mut data[i].handler,
                    &mut *renderer,
                    &mut *resource,
                    &mut queue[j],
                );
                let ghost call = made;
                let ghost earlier = calls;
                invoke(made);
                proof {
                    assert(called(call));
                    calls = calls.push(call);
                    assert(*call.3 == s[i as int].pending[j as int]);
                    assert(*call.0 == d1[i as int].handler);
                    assert(data@[i as int].handler == *final(call.0));
                    assert(queue@.len() == q1.len());
                    assert(forall|k: int| 0 <= k < q1.len() && k != j ==> queue@[k] == q1[k]);
                    assert forall|b: int| 0 <= b < j + 1 implies *(#[trigger] calls[base + b]).3
                        == s[i as int].pending[b] by {
                        if b < j {
                            assert(calls[base + b] == earlier[base + b]);
                        }
                    }
                    assert forall|b: int| 0 < b < j + 1 implies *(#[trigger] calls[base + b]).0
                        == *final(calls[base + b - 1].0) by {
                        assert(calls[base + b - 1] == earlier[base + b - 1]);
                        if b < j {
                            assert(calls[base + b] == earlier[base + b]);
                        }
                    }
                    assert(calls[base + j] == call);
                    if j > 0 {
                        assert(calls[base] == earlier[base]);
                    }
                    assert forall|k: int| 0 <= k < base implies calls[k] == base_calls[k] by {
                        assert(calls[k] == earlier[k]);
                    }
                    assert(data@.len() == d1.len());
                    assert(forall|k: int| 0 <= k < d1.len() && k != i ==> data@[k] == d1[k]);
                    assert(data@[i as int].id == d1[i as int].id);
                    assert(data@[i as int].queue == d1[i as int].queue);
                }
                j += 1;
            }
            proof {
                assert(waiting_before(s, i + 1) == base + s[i as int].pending.len());
                assert forall|a: int, b: int|
                    0 <= a < i + 1 && 0 <= b < s[a].pending.len() implies *(#[trigger] call_at(calls, s, a, b)).3
                    == s[a].pending[b] by {
                    if a < i {
                        lemma_waiting_grows(s, a + 1, i as int);
                        lemma_waiting_grows(s, a, a);
                        let at = waiting_before(s, a) + b;
                        assert(calls[at] == base_calls[at]);
                        assert(call_at(calls, s, a, b) == call_at(base_calls, s, a, b));
                    } else {
                        assert(call_at(calls, s, a, b) == calls[base + b]);
                    }
                }
                assert forall|a: int, b: int|
                    0 <= a < i + 1 && 0 < b < s[a].pending.len() implies *(#[trigger] call_at(calls, s, a, b)).0
                    == *final(call_at(calls, s, a, b - 1).0) by {
                    if a < i {
                        lemma_waiting_grows(s, a + 1, i as int);
                        lemma_waiting_grows(s, a, a);
                        let at = waiting_before(s, a) + b;
                        assert(calls[at] == base_calls[at]);
                        assert(calls[at - 1] == base_calls[at - 1]);
                        assert(call_at(calls, s, a, b) == call_at(base_calls, s, a, b));
                        assert(call_at(calls, s, a, b - 1) == call_at(base_calls, s, a, b - 1));
                    } else {
                        assert(call_at(calls, s, a, b) == calls[base + b]);
                        assert(call_at(calls, s, a, b - 1) == calls[base + b - 1]);
                    }
                }
                assert forall|a: int| 0 <= a < i + 1 && s[a].pending.len() > 0 implies *(
                #[trigger] first_call(calls, s, a)).0 == s[a].handler && data@[a].handler
                    == *final(last_call(calls, s, a).0) by {
                    if a < i {
                        lemma_waiting_grows(s, a + 1, i as int);
                        lemma_waiting_grows(s, a, a);
                        let at = waiting_before(s, a);
                        assert(calls[at] == base_calls[at]);
                        assert(calls[at + s[a].pending.len() - 1] == base_calls[at + s[a].pending.len()
                            - 1]);
                        assert(first_call(calls, s, a) == first_call(base_calls, s, a));
                        assert(last_call(calls, s, a) == last_call(base_calls, s, a));
                        assert(data@[a].handler == d0[a].handler);
                    } else {
                        assert(first_call(calls, s, a) == calls[base]);
                        assert(last_call(calls, s, a) == calls[base + s[a].pending.len() - 1]);
                    }
                }
                assert forall|a: int| 0 <= a < i + 1 && s[a].pending.len() == 0 implies (
                #[trigger] data@[a]).handler == s[a].handler by {
                    if a < i {
                        assert(data@[a].handler == d0[a].handler);
                    }
                }
            }
            i += 1;
        }
        proof {
            let t = lines_of(data@);
            assert(t.len() == s.len());
            assert forall|a: int, b: int| 0 <= a < b < t.len() implies t[a].id != t[b].id by {
                assert(t[a].id == data@[a].id@ && t[b].id == data@[b].id@);
            }
            assert forall|k: int| 0 <= k < s.len() implies (#[trigger] t[k]).id == s[k].id
                && t[k].pending.len() == 0 && t[k].handler == data@[k].handler by {
                assert(data@[k].id@ == s[k].id);
            }
            if nothing_waits(s) {
                lemma_nothing_waits(s, s.len() as int);
                assert forall|k: int| 0 <= k < s.len() implies t[k] == s[k] by {
                    assert(s[k].pending.len() == 0);
                    assert(t[k].pending =~= s[k].pending);
                }
                assert(t =~= s);
            }
            assert(hands_out(calls, s));
        }
        std::mem::swap(&mut self.messages, &mut data);
    }
}

/// Where no payload waits, `execute` has no call to make.
pub proof fn lemma_nothing_waits<'a, R>(s: Seq<Line<'a, R>>, i: int)
    requires
        nothing_waits(s),
        0 <= i <= s.len(),
    ensures
        waiting_before(s, i) == 0,
    decreases i,
{
    if i > 0 {
        lemma_nothing_waits(s, i - 1);
        assert(s[i - 1].pending.len() == 0);
    }
}

/// The count of waiting payloads grows with the place.
proof fn lemma_waiting_grows<'a, R>(s: Seq<Line<'a, R>>, i: int, j: int)
    requires
        0 <= i <= j,
    ensures
        0 <= waiting_before(s, i) <= waiting_before(s, j),
        i >= 1 ==> waiting_before(s, i - 1) + s[i - 1].pending.len() == waiting_before(s, i),
    decreases j - i, i,
{
    if i < j {
        lemma_waiting_grows(s, i + 1, j);
    }
    if i > 0 {
        lemma_waiting_grows(s, i - 1, i - 1);
    }
}

impl<'a, R> Default for MessageCaller<'a, R> {
    fn default() -> (r: Self)
        ensures
            r@ == Seq::<Line<'a, R>>::empty(),
    {
        Self::new()
    }
}

} // verus!
