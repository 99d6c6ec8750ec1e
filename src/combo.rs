//! Timed combos: a set of keys that must all be satisfied within a window.
use vstd::prelude::*;

verus! {

/// Names a registered combo.
#[derive(Clone, Copy, PartialEq, Eq, Debug, Structural)]
pub struct ComboId {
    pub id: usize,
}

impl ComboId {
    pub fn new(id: usize) -> (r: ComboId)
        ensures
            r.id == id,
    {
        ComboId { id }
    }
}

/// The state of a combo: which keys are satisfied, the window in milliseconds, and
/// when the first key of the current attempt was satisfied.
pub ghost struct ComboView {
    pub flags: Seq<bool>,
    pub duration: u64,
    pub start: u64,
}

/// Time from `start` to `now`, or zero when `now` is earlier.
pub open spec fn elapsed(start: u64, now: u64) -> int {
    if now >= start {
        now - start
    } else {
        0
    }
}

pub open spec fn none_set(s: Seq<bool>) -> bool {
    forall|i: int| 0 <= i < s.len() ==> !s[i]
}

pub open spec fn all_set(s: Seq<bool>) -> bool {
    forall|i: int| 0 <= i < s.len() ==> s[i]
}

/// The flags after an event that satisfied the keys marked in `hits`.
pub open spec fn marked(flags: Seq<bool>, hits: Seq<bool>) -> Seq<bool> {
    Seq::new(flags.len(), |i: int| flags[i] || hits[i])
}

/// One input event at time `now` that satisfied the keys marked in `hits`: the
/// combo's next state, and whether it completes. The window starts when the first
/// key of an attempt is satisfied; when every key is satisfied the attempt ends, and
/// completes only if it took no longer than the window.
pub open spec fn step(c: ComboView, hits: Seq<bool>, now: u64) -> (ComboView, bool) {
    let m = marked(c.flags, hits);
    let start = if none_set(c.flags) && !none_set(m) {
        now
    } else {
        c.start
    };
    if m.len() > 0 && all_set(m) {
        (
            ComboView { flags: Seq::new(m.len(), |i: int| false), start, ..c },
            elapsed(start, now) <= c.duration,
        )
    } else {
        (ComboView { flags: m, start, ..c }, false)
    }
}

/// How many of `s` are set.
pub open spec fn count_set(s: Seq<bool>) -> nat
    decreases s.len(),
{
    if s.len() == 0 {
        0
    } else {
        count_set(s.drop_last()) + if s.last() {
            1nat
        } else {
            0nat
        }
    }
}

proof fn lemma_count_set(s: Seq<bool>)
    ensures
        count_set(s) <= s.len(),
        (count_set(s) == 0) == none_set(s),
        (count_set(s) == s.len()) == all_set(s),
    decreases s.len(),
{
    if s.len() > 0 {
        let p = s.drop_last();
        lemma_count_set(p);
        assert forall|i: int| 0 <= i < p.len() implies p[i] == s[i] by {}
        if !none_set(p) {
            let i = choose|i: int| 0 <= i < p.len() && p[i];
            assert(s[i]);
        }
        if !all_set(p) {
            let i = choose|i: int| 0 <= i < p.len() && !p[i];
            assert(!s[i]);
        }
    }
}

/// A combo's progress. The keys themselves are evaluated by the caller, who
/// reports for each event which keys it satisfied.
pub struct Combo {
    satisfied: Vec<bool>,
    duration: u64,
    id: ComboId,
    start_time: u64,
}

impl View for Combo {
    type V = ComboView;

    closed spec fn view(&self) -> ComboView {
        ComboView { flags: self.satisfied@, duration: self.duration, start: self.start_time }
    }
}

impl Combo {
    pub closed spec fn spec_id(&self) -> ComboId {
        self.id
    }

    /// A combo of `keys` keys, none satisfied, that must be completed within
    /// `duration` milliseconds of its first key.
    pub fn new(keys: usize, duration: u64) -> (r: Combo)
        ensures
            r@.flags == Seq::new(keys as nat, |i: int| false),
            r@.duration == duration,
            r.spec_id() == (ComboId { id: 0 }),
    {
        let mut satisfied: Vec<bool> = Vec::new();
        let mut i: usize = 0;
        while i < keys
            invariant
                i <= keys,
                satisfied@ == Seq::new(i as nat, |j: int| false),
            decreases keys - i,
        {
            satisfied.push(false);
            i = i + 1;
            proof {
                assert(satisfied@ =~= Seq::new(i as nat, |j: int| false));
            }
        }
        Combo { satisfied, duration, id: ComboId { id: 0 }, start_time: 0 }
    }

    pub fn with_id(self, id: ComboId) -> (r: Combo)
        ensures
            r@ == self@,
            r.spec_id() == id,
    {
        Combo { id, ..self }
    }

    pub fn id(&self) -> (r: ComboId)
        ensures
            r == self.spec_id(),
    {
        self.id
    }

    /// How many keys there are.
    pub fn keys(&self) -> (r: usize)
        ensures
            r == self@.flags.len(),
    {
        self.satisfied.len()
    }

    /// Feeds one input event at time `now` (milliseconds) that satisfied the keys
    /// marked in `hits`; returns whether the combo completed (see `step`).
    pub fn next_input(&mut self, hits: &Vec<bool>, now: u64) -> (r: bool)
        requires
            hits@.len() == old(self)@.flags.len(),
        ensures
            (final(self)@, r) == step(old(self)@, hits@, now),
            final(self).spec_id() == old(self).spec_id(),
    {
        let was_idle = self.satisfied() == 0;
        let mut i: usize = 0;
        while i < self.satisfied.len()
            invariant
                self.satisfied@.len() == old(self)@.flags.len() == hits@.len(),
                i <= hits@.len(),
                self.duration == old(self).duration,
                self.start_time == old(self).start_time,
                self.id == old(self).id,
                forall|j: int| 0 <= j < i ==> #[trigger] self.satisfied@[j] == (
                old(self).satisfied@[j] || hits@[j]),
                forall|j: int| i <= j < hits@.len() ==> #[trigger] self.satisfied@[j]
                    == old(self).satisfied@[j],
            decreases hits@.len() - i,
        {
            if hits[i] {
                self.satisfied.set(i, true);
            }
            i = i + 1;
        }
        proof {
            lemma_count_set(old(self)@.flags);
            assert(self.satisfied@ =~= marked(old(self)@.flags, hits@));
        }
        let count = self.satisfied();
        proof {
            lemma_count_set(self@.flags);
        }
        if was_idle && count > 0 {
            self.start_time = now;
        }
        if count == self.satisfied.len() && count > 0 {
            let fired = now < self.start_time || now - self.start_time <= self.duration;
            self.reset();
            proof {
                assert(self.satisfied@ =~= Seq::new(hits@.len(), |i: int| false));
            }
            fired
        } else {
            false
        }
    }

    /// How many keys are satisfied.
    pub fn satisfied(&self) -> (r: usize)
        ensures
            r == count_set(self@.flags),
    {
        let mut n: usize = 0;
        let mut i: usize = 0;
        while i < self.satisfied.len()
            invariant
                i <= self.satisfied@.len(),
                n == count_set(self.satisfied@.take(i as int)),
                n <= i,
            decreases self.satisfied@.len() - i,
        {
            proof {
                assert(self.satisfied@.take(i as int + 1).drop_last() =~= self.satisfied@.take(
                    i as int,
                ));
            }
            if self.satisfied[i] {
                n = n + 1;
            }
            i = i + 1;
        }
        proof {
            assert(self.satisfied@.take(i as int) =~= self.satisfied@);
        }
        n
    }

    /// Clears every key.
    pub fn reset(&mut self)
        ensures
            final(self)@ == (ComboView {
                flags: Seq::new(old(self)@.flags.len(), |i: int| false),
                ..old(self)@
            }),
            final(self).spec_id() == old(self).spec_id(),
    {
        let mut i: usize = 0;
        while i < self.satisfied.len()
            invariant
                self.satisfied@.len() == old(self)@.flags.len(),
                i <= self.satisfied@.len(),
                self.duration == old(self).duration,
                self.start_time == old(self).start_time,
                self.id == old(self).id,
                forall|j: int| 0 <= j < i ==> !#[trigger] self.satisfied@[j],
            decreases self.satisfied@.len() - i,
        {
            self.satisfied.set(i, false);
            i = i + 1;
        }
        proof {
            assert(self.satisfied@ =~= Seq::new(old(self)@.flags.len(), |i: int| false));
        }
    }
}

/// Combos are told apart by their ids.
impl PartialEq for Combo {
    fn eq(&self, other: &Combo) -> (r: bool)
        ensures
            r == (self.spec_id() == other.spec_id()),
    {
        self.id.id == other.id.id
    }
}

impl vstd::std_specs::cmp::PartialEqSpecImpl for Combo {
    open spec fn obeys_eq_spec() -> bool {
        true
    }

    open spec fn eq_spec(&self, other: &Combo) -> bool {
        self.spec_id() == other.spec_id()
    }
}

/// A combo of two keys: the first key at `t0` and the second at `t1` complete it
/// exactly when `t1 - t0` is within the window, and either way leave both keys clear.
pub proof fn lemma_two_key_window(c: ComboView, t0: u64, t1: u64)
    requires
        c.flags == seq![false, false],
        t0 <= t1,
    ensures
        ({
            let (c1, f1) = step(c, seq![true, false], t0);
            let (c2, f2) = step(c1, seq![false, true], t1);
            &&& !f1
            &&& c1.flags == seq![true, false]
            &&& f2 == (t1 - t0 <= c.duration)
            &&& c2.flags == seq![false, false]
        }),
{
    let (c1, f1) = step(c, seq![true, false], t0);
    assert(marked(c.flags, seq![true, false]) =~= seq![true, false]);
    assert(!all_set(seq![true, false]));
    assert(!none_set(seq![true, false]));
    assert(c1.flags =~= seq![true, false]);
    assert(marked(c1.flags, seq![false, true]) =~= seq![true, true]);
    let (c2, f2) = step(c1, seq![false, true], t1);
    assert(c2.flags =~= seq![false, false]);
}

} // verus!
