//! Timing of named pieces of work: each run of `bench` adds one duration, in
//! microseconds, to the list kept under the name.

use std::time::Duration;
use std::time::Instant;
use vstd::prelude::*;

verus! {

#[verifier::external_type_specification]
#[verifier::external_body]
pub struct ExInstant(Instant);

/// Calls `Instant::now`. The result is the time of the call: nothing is
/// claimed of it.
#[verifier::external_body]
fn now() -> (t: Instant) {
    Instant::now()
}

/// Calls `Instant::elapsed`. The result depends on the time of the call:
/// nothing is claimed of it.
#[verifier::external_body]
fn elapsed(start: &Instant) -> (d: Duration) {
    start.elapsed()
}

/// Calls `Duration::as_micros`. Nothing is claimed of the result.
#[verifier::external_body]
fn as_micros(d: &Duration) -> (m: u128) {
    d.as_micros()
}

/// The durations measured under one name, oldest first.
pub struct Record {
    pub name: Seq<char>,
    pub micros: Seq<u128>,
}

/// `i` is the place of the record under `name`.
pub open spec fn is_record(s: Seq<Record>, name: Seq<char>, i: int) -> bool {
    0 <= i < s.len() && s[i].name == name
}

/// No two records share a name.
pub open spec fn distinct_names(s: Seq<Record>) -> bool {
    forall|i: int, j: int| 0 <= i < j < s.len() ==> s[i].name != s[j].name
}

/// `s` after the duration `d` was measured under `name`: it is the last of the
/// record under that name, which is new, and the last record, if the name was
/// not there.
pub open spec fn recorded(s: Seq<Record>, name: Seq<char>, d: u128) -> Seq<Record> {
    if exists|i: int| is_record(s, name, i) {
        let i = choose|i: int| is_record(s, name, i);
        s.update(i, Record { name, micros: s[i].micros.push(d) })
    } else {
        s.push(Record { name, micros: seq![d] })
    }
}

/// The sum of `m`.
pub open spec fn total(m: Seq<u128>) -> int
    decreases m.len(),
{
    if m.len() == 0 {
        0
    } else {
        total(m.drop_last()) + m.last()
    }
}

/// The average of the durations under `name`, rounded down: `None` if there
/// is no record under that name, and if the sum of its durations is more than
/// a `u128` holds.
pub open spec fn average(s: Seq<Record>, name: Seq<char>) -> Option<u128> {
    if exists|i: int| is_record(s, name, i) {
        let m = s[choose|i: int| is_record(s, name, i)].micros;
        if m.len() > 0 && total(m) <= u128::MAX {
            Some((total(m) / m.len() as int) as u128)
        } else {
            None
        }
    } else {
        None
    }
}

struct Test {
    name: String,
    durations: Vec<u128>,
}

impl Test {
    spec fn record(self) -> Record {
        Record { name: self.name@, micros: self.durations@ }
    }
}

spec fn records_of(d: Seq<Test>) -> Seq<Record> {
    d.map_values(|t: Test| t.record())
}

/// The place of the record under `name` in `data`.
fn find_test(data: &Vec<Test>, name: &String) -> (r: Option<usize>)
    requires
        distinct_names(records_of(data@)),
    ensures
        match r {
            Some(i) => is_record(records_of(data@), name@, i as int) && (choose|k: int|
                is_record(records_of(data@), name@, k)) == i,
            None => !exists|k: int| is_record(records_of(data@), name@, k),
        },
{
    let mut i: usize = 0;
    while i < data.len()
        invariant
            i <= data.len(),
            distinct_names(records_of(data@)),
            forall|j: int| 0 <= j < i ==> (#[trigger] records_of(data@)[j]).name != name@,
        decreases data.len() - i,
    {
        if data[i].name == *name {
            proof {
                let s = records_of(data@);
                assert(is_record(s, name@, i as int));
                let k = choose|k: int| is_record(s, name@, k);
                if k < i {
                    assert(s[k].name != s[i as int].name);
                } else if i < k {
                    assert(s[i as int].name != s[k].name);
                }
            }
            return Some(i);
        }
        i += 1;
    }
    None
}

pub struct BenchmarkManager {
    tests: Vec<Test>,
}

impl View for BenchmarkManager {
    type V = Seq<Record>;

    closed spec fn view(&self) -> Seq<Record> {
        records_of(self.tests@)
    }
}

impl BenchmarkManager {
    #[verifier::type_invariant]
    spec fn inv(self) -> bool {
        distinct_names(records_of(self.tests@))
    }

    /// Adds the duration `micros` under `function_name`.
    pub fn record(&mut self, function_name: String, micros: u128)
        ensures
            final(self)@ == recorded(old(self)@, function_name@, micros),
    {
        proof {
            use_type_invariant(&*self);
        }
        let mut data: Vec<Test> = Vec::new();
        assert(records_of(data@) =~= Seq::<Record>::empty());
        std::mem::swap(&mut self.tests, &mut data);
        let ghost s = records_of(data@);
        match find_test(&data, &function_name) {
            Some(i) => {
                data[i].durations.push(micros);
                proof {
                    let t = records_of(data@);
                    assert(t =~= recorded(s, function_name@, micros));
                    assert forall|a: int, b: int| 0 <= a < b < t.len() implies t[a].name
                        != t[b].name by {
                        assert(t[a].name == s[a].name && t[b].name == s[b].name);
                    }
                }
            },
            None => {
                let mut durations: Vec<u128> = Vec::new();
                durations.push(micros);
                let test = Test { name: function_name, durations };
                data.push(test);
                proof {
                    let t = records_of(data@);
                    assert(test.durations@ =~= seq![micros]);
                    assert(t =~= recorded(s, function_name@, micros));
                    assert forall|a: int, b: int| 0 <= a < b < t.len() implies t[a].name
                        != t[b].name by {
                        if b == s.len() {
                            assert(t[a] == s[a]);
                            assert(!is_record(s, function_name@, a));
                        } else {
                            assert(t[a] == s[a] && t[b] == s[b]);
                        }
                    }
                }
            },
        }
        std::mem::swap(&mut self.tests, &mut data);
    }

    /// Runs `c`, once, and adds the time it took under `function_name`. How
    /// long that was is the clock's to say.
    pub fn bench<F: FnOnce()>(&mut self, function_name: String, c: F)
        requires
            c.requires(()),
        ensures
            c.ensures((), ()),
            exists|d: u128| final(self)@ == recorded(old(self)@, function_name@, d),
    {
        let instant = now();
        c();
        let micros = as_micros(&elapsed(&instant));
        self.record(function_name, micros);
    }

    /// The names that durations were measured under, in the order of their
    /// first measurement.
    pub fn names(&self) -> (r: Vec<String>)
        ensures
            r@.len() == self@.len(),
            forall|i: int| 0 <= i < r@.len() ==> (#[trigger] r@[i])@ == self@[i].name,
    {
        let mut out: Vec<String> = Vec::new();
        let mut i: usize = 0;
        while i < self.tests.len()
            invariant
                i <= self.tests.len(),
                out@.len() == i,
                forall|k: int| 0 <= k < i ==> (#[trigger] out@[k])@ == self@[k].name,
            decreases self.tests.len() - i,
        {
            out.push(self.tests[i].name.clone());
            i += 1;
        }
        out
    }

    /// The average, rounded down, of the durations measured under
    /// `function_name`.
    pub fn average_micros(&self, function_name: &str) -> (r: Option<u128>)
        ensures
            r == average(self@, function_name@),
    {
        proof {
            use_type_invariant(self);
        }
        let name = function_name.to_owned();
        match find_test(&self.tests, &name) {
            Some(i) => {
                let durations = &self.tests[i].durations;
                assert(durations@ == self@[i as int].micros);
                if durations.len() == 0 {
                    return None;
                }
                match sum_of(durations) {
                    Some(sum) => {
                        let n = durations.len() as u128;
                        let q = sum / n;
                        proof {
                            let m = self@[i as int].micros;
                            assert(n as int == m.len());
                            assert(sum as int == total(m));
                            assert(q as int == total(m) / (m.len() as int));
                            assert(average(self@, function_name@) == Some(q));
                        }
                        Some(q)
                    },
                    None => {
                        assert(average(self@, function_name@) is None);
                        None
                    },
                }
            },
            None => None,
        }
    }
}

/// The sum of `durations`, if a `u128` holds it.
fn sum_of(durations: &Vec<u128>) -> (r: Option<u128>)
    ensures
        match r {
            Some(sum) => sum == total(durations@),
            None => total(durations@) > u128::MAX,
        },
{
    let mut sum: u128 = 0;
    let mut k: usize = 0;
    assert(durations@.take(0) =~= Seq::<u128>::empty());
    while k < durations.len()
        invariant
            k <= durations.len(),
            sum == total(durations@.take(k as int)),
        decreases durations.len() - k,
    {
        proof {
            let next = durations@.take(k + 1);
            assert(next.drop_last() =~= durations@.take(k as int));
            assert(next.last() == durations@[k as int]);
            assert(total(next) == sum + durations@[k as int]);
            lemma_total_grows(durations@, k + 1);
        }
        if durations[k] > u128::MAX - sum {
            return None;
        }
        sum = sum + durations[k];
        k += 1;
    }
    assert(durations@.take(k as int) =~= durations@);
    Some(sum)
}

/// A sum is at least the sum of any of its beginnings.
proof fn lemma_total_grows(m: Seq<u128>, k: int)
    requires
        0 <= k <= m.len(),
    ensures
        total(m.take(k)) <= total(m),
    decreases m.len() - k,
{
    if k < m.len() {
        lemma_total_grows(m, k + 1);
        assert(m.take(k + 1).drop_last() =~= m.take(k));
    } else {
        assert(m.take(k) =~= m);
    }
}

impl Default for BenchmarkManager {
    fn default() -> (r: Self)
        ensures
            r@ == Seq::<Record>::empty(),
    {
        let r = Self { tests: Vec::new() };
        assert(r@ =~= Seq::<Record>::empty());
        r
    }
}

} // verus!
