//! Change detection: which subscribers hear of which decoded values.
use vstd::prelude::*;
use crate::property::{INPUT_REPORT_LEN, PropertyKind, ValueType, decoded, key_of};

verus! {

/// The subscribers of one property, in the order they subscribed, and the value of
/// the property last seen (`None` until the first report after the first subscription).
pub struct Subscription {
    pub kind: PropertyKind,
    pub subscribers: Vec<usize>,
    pub last: Option<ValueType>,
}

pub ghost struct SubscriptionView {
    pub kind: PropertyKind,
    pub subscribers: Seq<usize>,
    pub last: Option<ValueType>,
}

impl View for Subscription {
    type V = SubscriptionView;

    open spec fn view(&self) -> SubscriptionView {
        SubscriptionView { kind: self.kind, subscribers: self.subscribers@, last: self.last }
    }
}

/// A changed value and the subscribers to hand it to, in order.
pub struct Notification {
    pub kind: PropertyKind,
    pub value: ValueType,
    pub subscribers: Vec<usize>,
}

pub ghost struct NotificationView {
    pub kind: PropertyKind,
    pub value: ValueType,
    pub subscribers: Seq<usize>,
}

impl View for Notification {
    type V = NotificationView;

    open spec fn view(&self) -> NotificationView {
        NotificationView { kind: self.kind, value: self.value, subscribers: self.subscribers@ }
    }
}

/// The table of watched properties with their subscribers and last-seen values.
pub struct Dispatcher {
    entries: Vec<Subscription>,
}

/// Each key normalised and listed once.
pub open spec fn table_wf(s: Seq<SubscriptionView>) -> bool {
    &&& forall|i: int| 0 <= i < s.len() ==> key_of(#[trigger] s[i].kind) == s[i].kind
    &&& forall|i: int, j: int|
        0 <= i < s.len() && 0 <= j < s.len() && i != j ==> #[trigger] s[i].kind != #[trigger] s[j].kind
}

/// Whether the table has an entry for key `k`.
pub open spec fn watched(s: Seq<SubscriptionView>, k: PropertyKind) -> bool {
    exists|i: int| 0 <= i < s.len() && #[trigger] s[i].kind == k
}

/// The table after `id` subscribes to `k`: appended to the subscribers of `k`'s
/// entry, or in a new entry at the end that has seen no value yet.
pub open spec fn subscribed(s: Seq<SubscriptionView>, k: PropertyKind, id: usize) -> Seq<
    SubscriptionView,
> {
    let key = key_of(k);
    if watched(s, key) {
        let i = choose|i: int| 0 <= i < s.len() && #[trigger] s[i].kind == key;
        s.update(i, SubscriptionView { subscribers: s[i].subscribers.push(id), ..s[i] })
    } else {
        s.push(SubscriptionView { kind: key, subscribers: seq![id], last: None })
    }
}

/// Whether entry `e` sees a new value in `report`: it has seen none, or another one.
pub open spec fn changed(e: SubscriptionView, report: Seq<u8>) -> bool {
    e.last != Some(decoded(e.kind, report))
}

/// The notifications that `report` causes, one per changed entry, in table order.
pub open spec fn changes(s: Seq<SubscriptionView>, report: Seq<u8>) -> Seq<NotificationView>
    decreases s.len(),
{
    if s.len() == 0 {
        seq![]
    } else {
        let prev = changes(s.drop_last(), report);
        let e = s.last();
        if changed(e, report) {
            prev.push(
                NotificationView {
                    kind: e.kind,
                    value: decoded(e.kind, report),
                    subscribers: e.subscribers,
                },
            )
        } else {
            prev
        }
    }
}

/// The table after `report`: every entry remembers its value in it.
pub open spec fn observed(s: Seq<SubscriptionView>, report: Seq<u8>) -> Seq<SubscriptionView> {
    Seq::new(
        s.len(),
        |i: int| SubscriptionView { last: Some(decoded(s[i].kind, report)), ..s[i] },
    )
}

fn copy_ids(v: &Vec<usize>) -> (r: Vec<usize>)
    ensures
        r@ == v@,
{
    let mut out: Vec<usize> = Vec::new();
    let mut i: usize = 0;
    while i < v.len()
        invariant
            i <= v@.len(),
            out@ == v@.subrange(0, i as int),
        decreases v@.len() - i,
    {
        out.push(v[i]);
        i = i + 1;
    }
    out
}

impl View for Dispatcher {
    type V = Seq<SubscriptionView>;

    closed spec fn view(&self) -> Seq<SubscriptionView> {
        self.entries@.map_values(|e: Subscription| e@)
    }
}

impl Dispatcher {
    pub open spec fn wf(&self) -> bool {
        table_wf(self@)
    }

    pub fn new() -> (r: Dispatcher)
        ensures
            r.wf(),
            r@ == Seq::<SubscriptionView>::empty(),
    {
        Dispatcher { entries: Vec::new() }
    }

    /// Registers subscriber `id` for property `kind`; a combo property is watched
    /// under its variant alone.
    pub fn subscribe(&mut self, kind: PropertyKind, id: usize)
        requires
            old(self).wf(),
        ensures
            final(self).wf(),
            final(self)@ == subscribed(old(self)@, kind, id),
    {
        let key = kind.key();
        let mut i: usize = 0;
        while i < self.entries.len()
            invariant
                self.wf(),
                self@ == old(self)@,
                key == key_of(kind),
                i <= self@.len(),
                forall|j: int| 0 <= j < i ==> #[trigger] self@[j].kind != key,
            decreases self@.len() - i,
        {
            if self.entries[i].kind == key {
                proof {
                    assert(self@[i as int].kind == key);
                }
                let ghost before = self.entries@;
                self.entries[i].subscribers.push(id);
                proof {
                    let s = old(self)@;
                    assert(s[i as int].kind == key);
                    assert(watched(s, key));
                    assert(key == key_of(kind));
                    assert(self.entries@ == before.update(i as int, self.entries@[i as int]));
                    assert(self.entries@[i as int]@ == SubscriptionView {
                        subscribers: s[i as int].subscribers.push(id),
                        ..s[i as int]
                    });
                    let w = choose|w: int| 0 <= w < s.len() && #[trigger] s[w].kind == key;
                    assert(w == i);
                    let t = subscribed(s, kind, id);
                    assert(t == s.update(i as int, SubscriptionView {
                        subscribers: s[i as int].subscribers.push(id),
                        ..s[i as int]
                    }));
                    assert(self@.len() == t.len());
                    assert forall|j: int| 0 <= j < t.len() implies self@[j] == t[j] by {
                        if j != i {
                            assert(self.entries@[j] == before[j]);
                        }
                    }
                    assert(self@ =~= t);
                }
                return;
            }
            i = i + 1;
        }
        let ghost before = self.entries@;
        self.entries.push(Subscription { kind: key, subscribers: vec![id], last: None });
        proof {
            assert(self.entries@ == before.push(self.entries@.last()));
            let s = old(self)@;
            assert(!watched(s, key));
            let t = subscribed(s, kind, id);
            assert(self.entries@.last()@.subscribers =~= seq![id]);
            assert(self@.len() == t.len());
            assert forall|j: int| 0 <= j < t.len() implies self@[j] == t[j] by {
                if j < s.len() {
                    assert(self.entries@[j] == before[j]);
                }
            }
            assert(self@ =~= t);
        }
    }

    /// One poll cycle's input: `read` is how many bytes the device delivered into
    /// `report`, `None` when the read failed. Only a full report is dispatched; after
    /// a failed or short read nothing changes and nobody is notified.
    pub fn packet_received(&mut self, read: Option<usize>, report: &[u8; 64]) -> (r: Vec<
        Notification,
    >)
        requires
            old(self).wf(),
        ensures
            final(self).wf(),
            read == Some(INPUT_REPORT_LEN) ==> final(self)@ == observed(old(self)@, report@)
                && r@.map_values(|n: Notification| n@) == changes(old(self)@, report@),
            read != Some(INPUT_REPORT_LEN) ==> final(self)@ == old(self)@ && r@.len() == 0,
    {
        let full = match read {
            Some(n) => n == INPUT_REPORT_LEN,
            None => false,
        };
        if full {
            self.dispatch(report)
        } else {
            Vec::new()
        }
    }

    /// Decodes every watched property from `report`, remembers each value, and
    /// returns a notification for each property whose value is new, in table order.
    pub fn dispatch(&mut self, report: &[u8; 64]) -> (r: Vec<Notification>)
        requires
            old(self).wf(),
        ensures
            final(self).wf(),
            final(self)@ == observed(old(self)@, report@),
            r@.map_values(|n: Notification| n@) == changes(old(self)@, report@),
    {
        let ghost s = old(self)@;
        let ghost target = observed(s, report@);
        let mut out: Vec<Notification> = Vec::new();
        let mut i: usize = 0;
        while i < self.entries.len()
            invariant
                self@.len() == s.len(),
                i <= s.len(),
                s == old(self)@,
                target == observed(s, report@),
                forall|j: int| 0 <= j < i ==> #[trigger] self@[j] == target[j],
                forall|j: int| i <= j < s.len() ==> #[trigger] self@[j] == s[j],
                out@.map_values(|n: Notification| n@) == changes(s.take(i as int), report@),
            decreases s.len() - i,
        {
            let ghost before = self.entries@;
            let ghost view_before = self@;
            let kind = self.entries[i].kind;
            let value = kind.decode(report);
            let update = match self.entries[i].last {
                Some(v) => v != value,
                None => true,
            };
            proof {
                assert(self@[i as int] == s[i as int]);
                assert(s.take(i as int + 1).drop_last() =~= s.take(i as int));
                assert(s.take(i as int + 1).last() == s[i as int]);
            }
            if update {
                self.entries[i].last = Some(value);
                let ghost prev = out@;
                out.push(
                    Notification { kind, value, subscribers: copy_ids(&self.entries[i].subscribers) },
                );
                proof {
                    assert(out@.map_values(|n: Notification| n@) =~= prev.map_values(
                        |n: Notification| n@,
                    ).push(out@.last()@));
                }
            }
            proof {
                assert forall|j: int| 0 <= j < s.len() && j != i implies self.entries@[j]
                    == before[j] by {}
                assert(self@[i as int] == target[i as int]);
                assert forall|j: int| 0 <= j < i + 1 implies #[trigger] self@[j] == target[j] by {
                    if j < i {
                        assert(self.entries@[j] == before[j]);
                        assert(view_before[j] == before[j]@);
                    }
                }
                assert forall|j: int| i + 1 <= j < s.len() implies #[trigger] self@[j] == s[j] by {
                    assert(self.entries@[j] == before[j]);
                    assert(view_before[j] == before[j]@);
                }
            }
            i = i + 1;
        }
        proof {
            assert(s.take(s.len() as int) =~= s);
            assert(self@ =~= target);
        }
        out
    }

}

proof fn lemma_changes_empty(s: Seq<SubscriptionView>, report: Seq<u8>)
    requires
        forall|i: int| 0 <= i < s.len() ==> !changed(#[trigger] s[i], report),
    ensures
        changes(s, report) == Seq::<NotificationView>::empty(),
    decreases s.len(),
{
    if s.len() > 0 {
        let p = s.drop_last();
        assert forall|i: int| 0 <= i < p.len() implies !changed(#[trigger] p[i], report) by {
            assert(p[i] == s[i]);
        }
        lemma_changes_empty(p, report);
        assert(!changed(s[s.len() - 1], report));
    }
}

proof fn lemma_changes_from_table(s: Seq<SubscriptionView>, report: Seq<u8>)
    ensures
        forall|j: int|
            0 <= j < changes(s, report).len() ==> exists|i: int|
                0 <= i < s.len() && s[i].kind == (#[trigger] changes(s, report)[j]).kind,
    decreases s.len(),
{
    if s.len() > 0 {
        let p = s.drop_last();
        lemma_changes_from_table(p, report);
        let n = changes(s, report);
        assert forall|j: int| 0 <= j < n.len() implies exists|i: int|
            0 <= i < s.len() && s[i].kind == (#[trigger] n[j]).kind by {
            if j < changes(p, report).len() {
                let i = choose|i: int| 0 <= i < p.len() && p[i].kind == changes(p, report)[j].kind;
                assert(s[i] == p[i]);
            } else {
                assert(s[s.len() - 1].kind == n[j].kind);
            }
        }
    }
}

/// A report that repeats the previous one notifies nobody: once a report has been
/// observed, the same report changes no value.
pub proof fn lemma_repeated_report_is_silent(s: Seq<SubscriptionView>, report: Seq<u8>)
    ensures
        changes(observed(s, report), report) == Seq::<NotificationView>::empty(),
{
    let t = observed(s, report);
    assert forall|i: int| 0 <= i < t.len() implies !changed(#[trigger] t[i], report) by {}
    lemma_changes_empty(t, report);
}

/// The first report after the first subscription to a property notifies that
/// subscriber exactly once, with the property's value in the report.
pub proof fn lemma_first_value_notifies_once(
    s: Seq<SubscriptionView>,
    k: PropertyKind,
    id: usize,
    report: Seq<u8>,
)
    requires
        table_wf(s),
        !watched(s, key_of(k)),
    ensures
        ({
            let n = changes(subscribed(s, k, id), report);
            &&& n.len() > 0
            &&& n.last() == NotificationView {
                kind: key_of(k),
                value: decoded(k, report),
                subscribers: seq![id],
            }
            &&& forall|j: int| 0 <= j < n.len() - 1 ==> (#[trigger] n[j]).kind != key_of(k)
        }),
{
    let t = subscribed(s, k, id);
    assert(t.drop_last() =~= s);
    lemma_changes_from_table(s, report);
    let n = changes(t, report);
    assert(n.drop_last() == changes(s, report));
    assert forall|j: int| 0 <= j < n.len() - 1 implies (#[trigger] n[j]).kind != key_of(k) by {
        assert(n[j] == changes(s, report)[j]);
    }
}

} // verus!
