//! The watch registry, the wake signal, and the pump dispatcher protocol.
//!
//! A new watch is not pumped by the execution context that registered it.
//! Instead the registering side appends the watch to a shared registry and
//! raises a wake signal; a dedicated dispatcher, woken by that signal, drains
//! the registry completely and starts one pump per drained entry. This module
//! verifies that protocol on the dispatcher's state: a registration only adds
//! its own entry and starts nothing, a wake drains everything that was
//! pending into the started set, and — the point of the design — no watch is
//! ever lost and no pump is ever started twice, however registrations and
//! wakes interleave.
//!
//! A watch is named here by an identifier; outside this library each
//! identifier stands for one concrete pair of an observer's event source and
//! a client sink, whose ownership travels from the registering context
//! through the registry to the pump that is started for it.

use vstd::prelude::*;

verus! {

/// The wake signal between registration and the dispatcher: a pure pulse
/// that carries no data. Raising it while it is already raised is harmless,
/// and a spurious wake of the dispatcher is harmless too, because a wake
/// always drains the registry until it is empty.
pub struct WakeSignal {
    pub raised: bool,
}

impl WakeSignal {
    /// A fresh, unraised signal.
    pub fn new() -> (s: WakeSignal)
        ensures
            !s.raised,
    {
        WakeSignal { raised: false }
    }

    /// Raise the signal: the next consumer will see it.
    pub fn raise(&mut self)
        ensures
            final(self).raised,
    {
        self.raised = true;
    }

    /// Consume the signal: report whether it was raised, and lower it.
    pub fn take(&mut self) -> (was: bool)
        ensures
            was == old(self).raised,
            !final(self).raised,
    {
        let was = self.raised;
        self.raised = false;
        was
    }
}

/// The ordered queue of watches whose pump has not started yet. Entries are
/// appended at the back by registration and removed from the back by the
/// dispatcher's drain; its view is the sequence of pending watch
/// identifiers, oldest first.
pub struct Registry {
    entries: Vec<u64>,
}

impl View for Registry {
    type V = Seq<u64>;

    closed spec fn view(&self) -> Seq<u64> {
        self.entries@
    }
}

impl Registry {
    /// An empty registry.
    pub fn new() -> (r: Registry)
        ensures
            r@ == Seq::<u64>::empty(),
    {
        Registry { entries: Vec::new() }
    }

    /// How many watches are pending.
    pub fn len(&self) -> (n: usize)
        ensures
            n == self@.len(),
    {
        self.entries.len()
    }

    /// Append one watch at the back of the queue.
    pub fn enqueue(&mut self, watch: u64)
        ensures
            final(self)@ == old(self)@.push(watch),
    {
        self.entries.push(watch);
    }

    /// Remove and return the watch at the back of the queue, if any. An
    /// empty registry is left unchanged.
    pub fn pop(&mut self) -> (r: Option<u64>)
        ensures
            old(self)@.len() == 0 ==> r is None && final(self)@ == old(self)@,
            old(self)@.len() > 0 ==> r == Some(old(self)@.last()) && final(self)@ == old(
                self,
            )@.drop_last(),
    {
        self.entries.pop()
    }
}

/// The dispatcher's whole state: the pending registry, the wake signal, and
/// the record of every pump started so far, in start order.
pub struct Dispatcher {
    pub registry: Registry,
    pub signal: WakeSignal,
    pub started: Vec<u64>,
}

impl Dispatcher {
    /// The one invariant of the protocol: no watch identifier appears twice,
    /// neither among the started pumps, nor among the pending entries, nor
    /// across the two. Everything exactly-once rests on this.
    pub open spec fn wf(self) -> bool {
        (self.started@ + self.registry@).no_duplicates()
    }

    /// Whether this watch is known to the dispatcher, pending or started.
    pub open spec fn has_watch(self, watch: u64) -> bool {
        self.started@.contains(watch) || self.registry@.contains(watch)
    }

    /// A fresh dispatcher: nothing pending, nothing started, signal low.
    pub fn new() -> (d: Dispatcher)
        ensures
            d.registry@ == Seq::<u64>::empty(),
            d.started@ == Seq::<u64>::empty(),
            !d.signal.raised,
            d.wf(),
    {
        Dispatcher { registry: Registry::new(), signal: WakeSignal::new(), started: Vec::new() }
    }

    /// Register one new watch: append it to the pending registry and raise
    /// the wake signal. Nothing is started here — the started pumps are
    /// untouched — so registration never waits on pump startup.
    pub fn register(&mut self, watch: u64)
        requires
            old(self).wf(),
            !old(self).has_watch(watch),
        ensures
            final(self).registry@ == old(self).registry@.push(watch),
            final(self).started@ == old(self).started@,
            final(self).signal.raised,
            final(self).wf(),
            final(self).has_watch(watch),
    {
        proof {
            lemma_concat_push_fresh_no_duplicates(self.started@, self.registry@, watch);
        }
        self.registry.enqueue(watch);
        self.signal.raise();
        proof {
            assert(self.registry@[self.registry@.len() - 1] == watch);
            assert(self.registry@.contains(watch));
        }
    }

    /// One wake of the dispatcher: consume the signal and drain the registry
    /// completely, starting one pump per drained entry. The drained entries
    /// are returned newest-registered first — exactly the pending sequence
    /// reversed — and every one of them, and nothing else, is appended to
    /// the started pumps. Waking with an empty registry starts nothing.
    pub fn wake(&mut self) -> (drained: Vec<u64>)
        requires
            old(self).wf(),
        ensures
            drained@ == old(self).registry@.reverse(),
            final(self).registry@.len() == 0,
            final(self).started@ == old(self).started@ + drained@,
            !final(self).signal.raised,
            final(self).wf(),
    {
        let _was = self.signal.take();
        let mut drained: Vec<u64> = Vec::new();
        while self.registry.len() > 0
            invariant
                drained@.len() <= old(self).registry@.len(),
                self.registry@ == old(self).registry@.subrange(
                    0,
                    old(self).registry@.len() - drained@.len(),
                ),
                forall|i: int|
                    0 <= i < drained@.len() ==> drained@[i] == old(self).registry@[old(
                        self,
                    ).registry@.len() - 1 - i],
                self.started@ == old(self).started@ + drained@,
                !self.signal.raised,
            decreases self.registry@.len(),
        {
            let next = self.registry.pop();
            match next {
                Some(watch) => {
                    self.started.push(watch);
                    drained.push(watch);
                    proof {
                        assert(self.registry@ =~= old(self).registry@.subrange(
                            0,
                            old(self).registry@.len() - drained@.len(),
                        ));
                        assert(self.started@ =~= old(self).started@ + drained@);
                    }
                },
                None => {
                },
            }
        }
        proof {
            assert(drained@ =~= old(self).registry@.reverse());
            lemma_reverse_keeps_concat_no_duplicates(old(self).started@, old(self).registry@);
            assert(self.started@ + self.registry@ =~= old(self).started@ + old(
                self,
            ).registry@.reverse());
        }
        drained
    }
}

/// Appending a watch that occurs in neither part keeps the combined
/// started-plus-pending sequence free of duplicates.
pub proof fn lemma_concat_push_fresh_no_duplicates(a: Seq<u64>, b: Seq<u64>, x: u64)
    requires
        (a + b).no_duplicates(),
        !a.contains(x),
        !b.contains(x),
    ensures
        (a + b.push(x)).no_duplicates(),
{
    let s = a + b;
    let t = a + b.push(x);
    assert(t =~= s.push(x));
    assert forall|i: int, j: int|
        0 <= i < t.len() && 0 <= j < t.len() && i != j implies t[i] != t[j] by {
        if i < s.len() && j < s.len() {
        } else if i == s.len() {
            if s[j] == x {
                if j < a.len() {
                    assert(a[j] == x);
                } else {
                    assert(b[j - a.len()] == x);
                }
            }
        } else {
            if s[i] == x {
                if i < a.len() {
                    assert(a[i] == x);
                } else {
                    assert(b[i - a.len()] == x);
                }
            }
        }
    }
}

/// Draining reverses the pending part; a reversal permutes it, so the
/// combined started-plus-drained sequence stays free of duplicates.
proof fn lemma_reverse_keeps_concat_no_duplicates(a: Seq<u64>, b: Seq<u64>)
    requires
        (a + b).no_duplicates(),
    ensures
        (a + b.reverse()).no_duplicates(),
{
    let s = a + b;
    let t = a + b.reverse();
    assert(b.reverse().len() == b.len());
    assert forall|i: int, j: int|
        0 <= i < t.len() && 0 <= j < t.len() && i != j implies t[i] != t[j] by {
        let iorig: int = if i < a.len() {
            i
        } else {
            a.len() + b.len() - 1 - (i - a.len())
        };
        let jorig: int = if j < a.len() {
            j
        } else {
            a.len() + b.len() - 1 - (j - a.len())
        };
        assert(0 <= iorig < s.len());
        assert(0 <= jorig < s.len());
        assert(t[i] == s[iorig]);
        assert(t[j] == s[jorig]);
        assert(iorig != jorig);
    }
}

/// Exactly-once, as an invariant: a well-formed dispatcher has started any
/// pump it has started at all exactly once — the started record never holds
/// a watch twice, whatever sequence of registrations and wakes produced it.
pub proof fn lemma_pump_started_exactly_once(d: Dispatcher, watch: u64)
    requires
        d.wf(),
        d.started@.contains(watch),
    ensures
        d.started@.no_duplicates(),
        d.started@.to_multiset().count(watch) == 1,
{
    let s = d.started@ + d.registry@;
    assert forall|i: int, j: int|
        0 <= i < d.started@.len() && 0 <= j < d.started@.len() && i != j implies d.started@[i]
        != d.started@[j] by {
        assert(s[i] == d.started@[i]);
        assert(s[j] == d.started@[j]);
    }
    d.started@.lemma_multiset_has_no_duplicates();
    d.started@.to_multiset_ensures();
    assert(d.started@.to_multiset().count(watch) > 0);
    assert(d.started@.to_multiset().contains(watch));
}

/// One wake starts every watch that was pending, each exactly once: if a
/// watch was in the registry when a well-formed dispatcher woke, then after
/// the drain it stands in the started record exactly once — not lost, not
/// duplicated, however many entries were drained alongside it.
pub proof fn lemma_wake_starts_each_pending_once(
    before: Dispatcher,
    after: Dispatcher,
    drained: Seq<u64>,
    watch: u64,
)
    requires
        before.wf(),
        drained == before.registry@.reverse(),
        after.registry@.len() == 0,
        after.started@ == before.started@ + drained,
        before.registry@.contains(watch),
    ensures
        after.started@.contains(watch),
        after.started@.to_multiset().count(watch) == 1,
{
    lemma_reverse_keeps_concat_no_duplicates(before.started@, before.registry@);
    let i = choose|i: int| 0 <= i < before.registry@.len() && before.registry@[i] == watch;
    let r = before.registry@;
    assert(r.reverse()[r.len() - 1 - i] == watch);
    assert(after.started@[before.started@.len() + r.len() - 1 - i] == watch);
    assert(after.started@.contains(watch));
    assert(after.started@.no_duplicates()) by {
        assert(after.started@ =~= before.started@ + r.reverse());
        let t = before.started@ + r.reverse();
        assert forall|p: int, q: int|
            0 <= p < after.started@.len() && 0 <= q < after.started@.len() && p != q
            implies after.started@[p] != after.started@[q] by {
            assert(after.started@[p] == t[p]);
            assert(after.started@[q] == t[q]);
        }
    }
    after.started@.lemma_multiset_has_no_duplicates();
    after.started@.to_multiset_ensures();
    assert(after.started@.to_multiset().count(watch) > 0);
    assert(after.started@.to_multiset().contains(watch));
}

} // verus!
