//! The keyboard as the frame loop sees it: for each key that the engine follows,
//! its state in this frame and its state in the frame before.

use vstd::prelude::*;
use vstd::string::StrSliceExecFns;

verus! {

#[derive(Clone, Copy, Debug, PartialEq, Eq, Structural)]
pub enum KeyStatus {
    Pressed,
    Released,
}

/// The place of the key with the character `c` among the keys that are
/// followed, if it is one of them.
pub open spec fn place_of(c: char) -> Option<int> {
    match c {
        '1' => Some(0),
        '2' => Some(1),
        '3' => Some(2),
        '4' => Some(3),
        'a' => Some(4),
        'c' => Some(5),
        'd' => Some(6),
        'e' => Some(7),
        'f' => Some(8),
        'n' => Some(9),
        'o' => Some(10),
        'p' => Some(11),
        'q' => Some(12),
        'r' => Some(13),
        's' => Some(14),
        'v' => Some(15),
        'w' => Some(16),
        'x' => Some(17),
        'z' => Some(18),
        ' ' => Some(19),
        _ => None,
    }
}

/// The place of the key named `key` among the keys that are followed: a name
/// is the one character of its key.
pub open spec fn slot(key: Seq<char>) -> Option<int> {
    if key.len() == 1 {
        place_of(key[0])
    } else {
        None
    }
}

/// The state of every followed key: first the current one, then the one of
/// the frame before.
pub struct Keys {
    one: (KeyStatus, KeyStatus),
    two: (KeyStatus, KeyStatus),
    three: (KeyStatus, KeyStatus),
    four: (KeyStatus, KeyStatus),
    a: (KeyStatus, KeyStatus),
    c: (KeyStatus, KeyStatus),
    d: (KeyStatus, KeyStatus),
    e: (KeyStatus, KeyStatus),
    f: (KeyStatus, KeyStatus),
    n: (KeyStatus, KeyStatus),
    o: (KeyStatus, KeyStatus),
    p: (KeyStatus, KeyStatus),
    q: (KeyStatus, KeyStatus),
    r: (KeyStatus, KeyStatus),
    s: (KeyStatus, KeyStatus),
    v: (KeyStatus, KeyStatus),
    w: (KeyStatus, KeyStatus),
    x: (KeyStatus, KeyStatus),
    z: (KeyStatus, KeyStatus),
    space: (KeyStatus, KeyStatus),
}

/// The place of the key named `key` among the keys that are followed.
fn slot_of(key: &str) -> (r: Option<usize>)
    ensures
        match r {
            Some(i) => i < 20 && slot(key@) == Some(i as int),
            None => slot(key@) is None,
        },
{
    if key.unicode_len() != 1 {
        return None;
    }
    match key.get_char(0) {
        '1' => Some(0),
        '2' => Some(1),
        '3' => Some(2),
        '4' => Some(3),
        'a' => Some(4),
        'c' => Some(5),
        'd' => Some(6),
        'e' => Some(7),
        'f' => Some(8),
        'n' => Some(9),
        'o' => Some(10),
        'p' => Some(11),
        'q' => Some(12),
        'r' => Some(13),
        's' => Some(14),
        'v' => Some(15),
        'w' => Some(16),
        'x' => Some(17),
        'z' => Some(18),
        ' ' => Some(19),
        _ => None,
    }
}

impl Keys {
    /// The states of the followed keys, each at its place.
    pub closed spec fn states(self) -> Seq<(KeyStatus, KeyStatus)> {
        seq![
            self.one,
            self.two,
            self.three,
            self.four,
            self.a,
            self.c,
            self.d,
            self.e,
            self.f,
            self.n,
            self.o,
            self.p,
            self.q,
            self.r,
            self.s,
            self.v,
            self.w,
            self.x,
            self.z,
            self.space,
        ]
    }

    /// Every key released, now and in the frame before.
    pub fn new() -> (k: Self)
        ensures
            k.states() == Seq::new(20, |i: int| (KeyStatus::Released, KeyStatus::Released)),
    {
        let k = Self {
            one: (KeyStatus::Released, KeyStatus::Released),
            two: (KeyStatus::Released, KeyStatus::Released),
            three: (KeyStatus::Released, KeyStatus::Released),
            four: (KeyStatus::Released, KeyStatus::Released),
            a: (KeyStatus::Released, KeyStatus::Released),
            c: (KeyStatus::Released, KeyStatus::Released),
            d: (KeyStatus::Released, KeyStatus::Released),
            e: (KeyStatus::Released, KeyStatus::Released),
            f: (KeyStatus::Released, KeyStatus::Released),
            n: (KeyStatus::Released, KeyStatus::Released),
            o: (KeyStatus::Released, KeyStatus::Released),
            p: (KeyStatus::Released, KeyStatus::Released),
            q: (KeyStatus::Released, KeyStatus::Released),
            r: (KeyStatus::Released, KeyStatus::Released),
            s: (KeyStatus::Released, KeyStatus::Released),
            v: (KeyStatus::Released, KeyStatus::Released),
            w: (KeyStatus::Released, KeyStatus::Released),
            x: (KeyStatus::Released, KeyStatus::Released),
            z: (KeyStatus::Released, KeyStatus::Released),
            space: (KeyStatus::Released, KeyStatus::Released),
        };
        assert(k.states() =~= Seq::new(20, |i: int| (KeyStatus::Released, KeyStatus::Released)));
        k
    }

    /// Ends a frame: the current state of every key becomes its last state.
    pub fn update_last_key_states(&mut self)
        ensures
            final(self).states() == old(self).states().map_values(
                |p: (KeyStatus, KeyStatus)| (p.0, p.0),
            ),
    {
        let ghost before = self.states();
        self.one.1 = self.one.0;
        self.two.1 = self.two.0;
        self.three.1 = self.three.0;
        self.four.1 = self.four.0;
        self.a.1 = self.a.0;
        self.c.1 = self.c.0;
        self.d.1 = self.d.0;
        self.e.1 = self.e.0;
        self.f.1 = self.f.0;
        self.n.1 = self.n.0;
        self.o.1 = self.o.0;
        self.p.1 = self.p.0;
        self.q.1 = self.q.0;
        self.r.1 = self.r.0;
        self.s.1 = self.s.0;
        self.v.1 = self.v.0;
        self.w.1 = self.w.0;
        self.x.1 = self.x.0;
        self.z.1 = self.z.0;
        self.space.1 = self.space.0;
        proof {
            let after = self.states();
            let rolled = before.map_values(|p: (KeyStatus, KeyStatus)| (p.0, p.0));
            assert(after.len() == 20 && rolled.len() == 20);
            assert(after[0] == rolled[0]);
            assert(after[1] == rolled[1]);
            assert(after[2] == rolled[2]);
            assert(after[3] == rolled[3]);
            assert(after[4] == rolled[4]);
            assert(after[5] == rolled[5]);
            assert(after[6] == rolled[6]);
            assert(after[7] == rolled[7]);
            assert(after[8] == rolled[8]);
            assert(after[9] == rolled[9]);
            assert(after[10] == rolled[10]);
            assert(after[11] == rolled[11]);
            assert(after[12] == rolled[12]);
            assert(after[13] == rolled[13]);
            assert(after[14] == rolled[14]);
            assert(after[15] == rolled[15]);
            assert(after[16] == rolled[16]);
            assert(after[17] == rolled[17]);
            assert(after[18] == rolled[18]);
            assert(after[19] == rolled[19]);
            assert(after =~= rolled);
        }
    }

    /// The current and the last state of the key named `key`; `None` if the
    /// key is not followed.
    pub fn get_key_status(&self, key: &str) -> (r: Option<(KeyStatus, KeyStatus)>)
        ensures
            self.states().len() == 20,
            r == match slot(key@) {
                Some(i) => Some(self.states()[i]),
                None => None,
            },
    {
        match slot_of(key) {
            Some(0) => Some(self.one),
            Some(1) => Some(self.two),
            Some(2) => Some(self.three),
            Some(3) => Some(self.four),
            Some(4) => Some(self.a),
            Some(5) => Some(self.c),
            Some(6) => Some(self.d),
            Some(7) => Some(self.e),
            Some(8) => Some(self.f),
            Some(9) => Some(self.n),
            Some(10) => Some(self.o),
            Some(11) => Some(self.p),
            Some(12) => Some(self.q),
            Some(13) => Some(self.r),
            Some(14) => Some(self.s),
            Some(15) => Some(self.v),
            Some(16) => Some(self.w),
            Some(17) => Some(self.x),
            Some(18) => Some(self.z),
            Some(19) => Some(self.space),
            _ => None,
        }
    }

    /// Sets the current state of the key named `key`, and nothing else; does
    /// nothing if the key is not followed.
    pub fn set_key_state(&mut self, key: &str, state: KeyStatus)
        ensures
            old(self).states().len() == 20,
            final(self).states() == match slot(key@) {
                Some(i) => old(self).states().update(i, (state, old(self).states()[i].1)),
                None => old(self).states(),
            },
    {
        match slot_of(key) {
            Some(0) => {
                self.one.0 = state;
            },
            Some(1) => {
                self.two.0 = state;
            },
            Some(2) => {
                self.three.0 = state;
            },
            Some(3) => {
                self.four.0 = state;
            },
            Some(4) => {
                self.a.0 = state;
            },
            Some(5) => {
                self.c.0 = state;
            },
            Some(6) => {
                self.d.0 = state;
            },
            Some(7) => {
                self.e.0 = state;
            },
            Some(8) => {
                self.f.0 = state;
            },
            Some(9) => {
                self.n.0 = state;
            },
            Some(10) => {
                self.o.0 = state;
            },
            Some(11) => {
                self.p.0 = state;
            },
            Some(12) => {
                self.q.0 = state;
            },
            Some(13) => {
                self.r.0 = state;
            },
            Some(14) => {
                self.s.0 = state;
            },
            Some(15) => {
                self.v.0 = state;
            },
            Some(16) => {
                self.w.0 = state;
            },
            Some(17) => {
                self.x.0 = state;
            },
            Some(18) => {
                self.z.0 = state;
            },
            Some(19) => {
                self.space.0 = state;
            },
            _ => {},
        }
        assert(final(self).states() =~= match slot(key@) {
            Some(i) => old(self).states().update(i, (state, old(self).states()[i].1)),
            None => old(self).states(),
        });
    }
}

} // verus!
