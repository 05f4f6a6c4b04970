//! A bounded fan-out bus: every published entry is offered to every
//! subscription, and when the buffer is full the oldest retained entry is
//! dropped so that a slow subscriber sees a gap instead of holding the
//! publisher back.
//!
//! Entries are numbered in publication order, starting at zero. The bus
//! keeps the most recent `capacity` entries; a subscription is a cursor, the
//! number of the next entry it has not yet been handed.

use std::collections::VecDeque;
use vstd::prelude::*;

verus! {

/// What travels on the bus: a line read from the daemon, or the periodic
/// heartbeat. The two are different variants, so no line, whatever its
/// bytes, can be taken for a heartbeat.
#[derive(Debug, PartialEq, Eq)]
pub enum BusEntry {
    Heartbeat,
    Line(Vec<u8>),
}

/// The mathematical value of a `BusEntry`.
pub enum BusEntryView {
    Heartbeat,
    Line(Seq<u8>),
}

impl DeepView for BusEntry {
    type V = BusEntryView;

    open spec fn deep_view(&self) -> BusEntryView {
        match self {
            BusEntry::Heartbeat => BusEntryView::Heartbeat,
            BusEntry::Line(bytes) => BusEntryView::Line(bytes@),
        }
    }
}

/// The mathematical value of a `Bus`: its capacity, the number of the
/// oldest entry it still holds, and the retained entries, oldest first.
pub struct BusView {
    pub capacity: nat,
    pub first: nat,
    pub entries: Seq<BusEntryView>,
}

impl BusView {
    /// The number the next published entry will get; also the count of
    /// entries published so far.
    pub open spec fn end(self) -> nat {
        self.first + self.entries.len()
    }

    /// Whether entry number `n` is still retained.
    pub open spec fn holds(self, n: nat) -> bool {
        self.first <= n < self.end()
    }

    /// The retained entry with number `n`.
    pub open spec fn entry_at(self, n: nat) -> BusEntryView
        recommends
            self.holds(n),
    {
        self.entries[n - self.first]
    }

    /// The bus after one more entry was published: the entry is appended,
    /// and if that exceeds the capacity the oldest entry is dropped.
    pub open spec fn publish(self, entry: BusEntryView) -> BusView {
        if self.entries.len() < self.capacity {
            BusView { capacity: self.capacity, first: self.first, entries: self.entries.push(entry) }
        } else {
            BusView {
                capacity: self.capacity,
                first: self.first + 1,
                entries: self.entries.push(entry).drop_first(),
            }
        }
    }

    /// The number of the entry that a subscription at `cursor` is handed
    /// next: its cursor, or the oldest retained entry if the cursor has
    /// fallen behind.
    pub open spec fn next(self, cursor: nat) -> nat {
        if cursor < self.first {
            self.first
        } else {
            cursor
        }
    }

    /// The numbers of the entries, in order, that a subscription at
    /// `cursor` is handed if it reads until the bus reports empty.
    pub open spec fn pending_numbers(self, cursor: nat) -> Seq<nat> {
        let start = self.next(cursor);
        if start < self.end() {
            Seq::new((self.end() - start) as nat, |i: int| (start + i) as nat)
        } else {
            Seq::empty()
        }
    }

    /// The entries, in order, that a subscription at `cursor` is handed if
    /// it reads until the bus reports empty.
    pub open spec fn pending(self, cursor: nat) -> Seq<BusEntryView> {
        self.pending_numbers(cursor).map_values(|n: nat| self.entry_at(n))
    }
}

/// A cursor into a bus: the number of the next entry to read.
#[derive(Debug)]
pub struct Subscription {
    cursor: u64,
}

impl View for Subscription {
    type V = nat;

    closed spec fn view(&self) -> nat {
        self.cursor as nat
    }
}

/// The bus itself.
#[derive(Debug)]
pub struct Bus {
    capacity: usize,
    published: u64,
    entries: VecDeque<BusEntry>,
}

impl View for Bus {
    type V = BusView;

    closed spec fn view(&self) -> BusView {
        BusView {
            capacity: self.capacity as nat,
            first: (self.published - self.entries@.len()) as nat,
            entries: self.entries@.map_values(|e: BusEntry| e.deep_view()),
        }
    }
}

impl Bus {
    /// The representation invariant: no more entries are retained than
    /// the capacity allows or than were ever published.
    pub closed spec fn wf(&self) -> bool {
        &&& self.entries@.len() <= self.capacity
        &&& self.entries@.len() <= self.published
    }

    /// What the invariant means for the value.
    pub proof fn lemma_wf(&self)
        requires
            self.wf(),
        ensures
            self@.entries.len() <= self@.capacity,
    {
    }

    /// An empty bus that retains up to `capacity` entries.
    pub fn new(capacity: usize) -> (bus: Bus)
        ensures
            bus.wf(),
            bus@ == (BusView { capacity: capacity as nat, first: 0, entries: Seq::empty() }),
    {
        let bus = Bus { capacity, published: 0, entries: VecDeque::new() };
        assert(bus@.entries =~= Seq::empty());
        bus
    }

    /// How many entries the bus retains at most.
    pub fn capacity(&self) -> (n: usize)
        ensures
            n == self@.capacity,
    {
        self.capacity
    }

    /// How many entries were published so far.
    pub fn published(&self) -> (n: u64)
        requires
            self.wf(),
        ensures
            n == self@.end(),
    {
        self.published
    }

    /// Publishes one entry to every subscription. When the buffer is
    /// full, the oldest retained entry is dropped to make room.
    pub fn publish(&mut self, entry: BusEntry)
        requires
            old(self).wf(),
            old(self)@.end() < u64::MAX,
        ensures
            final(self).wf(),
            final(self)@ == old(self)@.publish(entry.deep_view()),
    {
        if self.capacity == 0 {
            self.published = self.published + 1;
            assert(self@.entries =~= old(self)@.entries.push(entry.deep_view()).drop_first());
            return ;
        }
        if self.entries.len() >= self.capacity {
            let _ = self.entries.pop_front();
        }
        self.entries.push_back(entry);
        self.published = self.published + 1;
        assert(self@.entries =~= old(self)@.publish(entry.deep_view()).entries);
    }

    /// Opens a subscription that will be handed every entry published
    /// from now on.
    pub fn subscribe(&self) -> (rx: Subscription)
        requires
            self.wf(),
        ensures
            rx@ == self@.end(),
    {
        Subscription { cursor: self.published }
    }

    /// Hands the subscription its next entry, if one is waiting, without
    /// blocking. A subscription that has fallen behind the oldest
    /// retained entry resumes there.
    pub fn try_recv<'a>(&'a self, rx: &mut Subscription) -> (entry: Option<&'a BusEntry>)
        requires
            self.wf(),
        ensures
            match entry {
                Some(e) => {
                    let n = self@.next(old(rx)@);
                    &&& self@.holds(n)
                    &&& e.deep_view() == self@.entry_at(n)
                    &&& final(rx)@ == n + 1
                },
                None => {
                    &&& self@.next(old(rx)@) >= self@.end()
                    &&& final(rx)@ == old(rx)@
                },
            },
    {
        let retained: u64 = self.entries.len() as u64;
        let first: u64 = self.published - retained;
        let n: u64 = if rx.cursor < first {
            first
        } else {
            rx.cursor
        };
        if n < self.published {
            let index: usize = (n - first) as usize;
            let e = &self.entries[index];
            rx.cursor = n + 1;
            Some(e)
        } else {
            None
        }
    }
}

/// Whether `n` occurs in `numbers` at exactly one position.
pub open spec fn occurs_once(numbers: Seq<nat>, n: nat) -> bool {
    exists|i: int|
        0 <= i < numbers.len() && #[trigger] numbers[i] == n && forall|j: int|
            0 <= j < numbers.len() && #[trigger] numbers[j] == n ==> j == i
}

/// Whether `n` occurs in `numbers` at all.
pub open spec fn occurs(numbers: Seq<nat>, n: nat) -> bool {
    exists|i: int| 0 <= i < numbers.len() && #[trigger] numbers[i] == n
}

/// A subscription that was opened before entry `n` was published, and
/// has not read past it, is handed entry `n` exactly once for as long as
/// the bus retains it.
pub proof fn lemma_retained_entry_pending_once(bus: BusView, cursor: nat, n: nat)
    requires
        cursor <= n,
        bus.holds(n),
    ensures
        occurs_once(bus.pending_numbers(cursor), n),
        bus.pending(cursor)[n - bus.next(cursor)] == bus.entry_at(n),
{
    let numbers = bus.pending_numbers(cursor);
    let i: int = n - bus.next(cursor);
    assert(0 <= i < numbers.len());
    assert(numbers[i] == n);
}

/// An entry that the bus no longer retains, or that lies before the
/// cursor, is not handed out again.
pub proof fn lemma_lost_entry_not_pending(bus: BusView, cursor: nat, n: nat)
    requires
        !bus.holds(n) || n < cursor,
    ensures
        !occurs(bus.pending_numbers(cursor), n),
{
}

/// Publishing hands the new entry the next free number, retains it
/// whenever the bus has room for at least one entry, and leaves every
/// other retained entry as it was.
pub proof fn lemma_publish_retains(bus: BusView, entry: BusEntryView)
    requires
        bus.capacity >= 1,
        bus.entries.len() <= bus.capacity,
    ensures
        bus.publish(entry).end() == bus.end() + 1,
        bus.publish(entry).holds(bus.end()),
        bus.publish(entry).entry_at(bus.end()) == entry,
        forall|m: nat|
            m != bus.end() && #[trigger] bus.publish(entry).holds(m) ==> bus.holds(m)
                && bus.publish(entry).entry_at(m) == bus.entry_at(m),
{
}

/// The bus after `entries` were published on it, one after the other.
pub open spec fn publish_all(bus: BusView, entries: Seq<BusEntryView>) -> BusView
    decreases entries.len(),
{
    if entries.len() == 0 {
        bus
    } else {
        publish_all(bus, entries.drop_last()).publish(entries.last())
    }
}

/// Publishing more entries never brings back a dropped entry and never
/// changes a retained one: whatever the bus holds afterwards under a
/// number that was taken before, it held before, and it is the same
/// entry.
pub proof fn lemma_publish_all_keeps(bus: BusView, entries: Seq<BusEntryView>)
    requires
        bus.entries.len() <= bus.capacity,
    ensures
        publish_all(bus, entries).entries.len() <= publish_all(bus, entries).capacity,
        publish_all(bus, entries).end() == bus.end() + entries.len(),
        forall|n: nat|
            n < bus.end() && #[trigger] publish_all(bus, entries).holds(n) ==> bus.holds(n)
                && publish_all(bus, entries).entry_at(n) == bus.entry_at(n),
    decreases entries.len(),
{
    if entries.len() > 0 {
        let before = publish_all(bus, entries.drop_last());
        lemma_publish_all_keeps(bus, entries.drop_last());
        let after = before.publish(entries.last());
        assert forall|n: nat| n < bus.end() && #[trigger] after.holds(n) implies bus.holds(n)
            && after.entry_at(n) == bus.entry_at(n) by {
            assert(before.holds(n));
        }
    }
}

/// Every subscription opened before a publish is handed the published
/// entry exactly once, unless the entry is dropped for lack of room
/// before the subscription reaches it; a dropped entry is not handed out
/// at all.
///
/// `bus` is the bus just before the publish, `cursor` any subscription
/// opened by then, and `more` whatever is published afterwards.
pub proof fn lemma_publish_observed_once(
    bus: BusView,
    entry: BusEntryView,
    cursor: nat,
    more: Seq<BusEntryView>,
)
    requires
        bus.entries.len() <= bus.capacity,
        cursor <= bus.end(),
    ensures
        ({
            let later = publish_all(bus.publish(entry), more);
            let n = bus.end();
            &&& later.holds(n) ==> occurs_once(later.pending_numbers(cursor), n)
                && later.pending(cursor)[n - later.next(cursor)] == entry
            &&& !later.holds(n) ==> !occurs(later.pending_numbers(cursor), n)
            &&& bus.capacity >= 1 ==> bus.publish(entry).holds(n)
        }),
{
    let n = bus.end();
    let published = bus.publish(entry);
    let later = publish_all(published, more);
    lemma_publish_all_keeps(published, more);
    if later.holds(n) {
        assert(published.holds(n));
        assert(published.entry_at(n) == entry);
        lemma_retained_entry_pending_once(later, cursor, n);
    } else {
        lemma_lost_entry_not_pending(later, cursor, n);
    }
}

/// Reading one entry removes exactly the first of the pending entries:
/// what is pending at the advanced cursor is what was pending before,
/// without its first entry.
pub proof fn lemma_pending_after_read(bus: BusView, cursor: nat)
    requires
        bus.next(cursor) < bus.end(),
    ensures
        bus.pending_numbers(cursor).len() > 0,
        bus.pending_numbers(cursor)[0] == bus.next(cursor),
        bus.pending_numbers(bus.next(cursor) + 1) == bus.pending_numbers(cursor).drop_first(),
        bus.pending(bus.next(cursor) + 1) == bus.pending(cursor).drop_first(),
{
    let n = bus.next(cursor);
    assert(bus.pending_numbers(n + 1) =~= bus.pending_numbers(cursor).drop_first());
    assert(bus.pending(n + 1) =~= bus.pending(cursor).drop_first());
}

} // verus!
