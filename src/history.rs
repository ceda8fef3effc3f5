//! The history registry: subscriptions that ask for the aggregate to be recorded,
//! each at its own minimum interval, beside the time each one was last recorded.

use vstd::prelude::*;
use crate::clock::now_timestamp;
use crate::nodes::contains_string;

verus! {

/// A history subscription: record the aggregate under `name` at most once every
/// `interval` seconds. `add_time` is when it was added, in seconds since the epoch.
#[derive(Debug)]
pub struct HistoryItem {
    pub name: String,
    pub interval: i64,
    pub add_time: i64,
}

impl View for HistoryItem {
    type V = (Seq<char>, i64, i64);

    open spec fn view(&self) -> (Seq<char>, i64, i64) {
        (self.name@, self.interval, self.add_time)
    }
}

impl Clone for HistoryItem {
    fn clone(&self) -> (r: HistoryItem)
        ensures
            r@ == self@,
    {
        HistoryItem { name: self.name.clone(), interval: self.interval, add_time: self.add_time }
    }
}

/// The views of a list of subscriptions.
pub open spec fn items_view(v: Seq<HistoryItem>) -> Seq<(Seq<char>, i64, i64)> {
    v.map_values(|h: HistoryItem| h@)
}

/// Holds of an entry whose subscription name is not among `names`.
pub open spec fn name_not_in(names: Seq<Seq<char>>) -> spec_fn(((Seq<char>, i64, i64), i64)) -> bool {
    |e: ((Seq<char>, i64, i64), i64)| !names.contains(e.0.0)
}

/// Why an operation on the history registry failed.
#[derive(Debug, PartialEq, Eq, Structural)]
pub enum HistoryError {
    /// No subscription has the name asked for.
    NotFound,
    /// A position past the end of the registry.
    StaleIndex,
    /// The subscription list and the timestamp list differ in length.
    CorruptRegistry,
}

/// The persisted form of the history registry: the two lists, which belong together
/// position by position.
pub struct History {
    pub history: Vec<HistoryItem>,
    pub last_update: Vec<i64>,
}

/// The history registry. Position `i` of the timestamp list is the time the
/// subscription at position `i` was last recorded (`0`: never).
pub struct GlobalHistory {
    history: Vec<HistoryItem>,
    last_update: Vec<i64>,
}

impl GlobalHistory {
    /// The subscriptions, in order.
    pub closed spec fn subs(&self) -> Seq<(Seq<char>, i64, i64)> {
        items_view(self.history@)
    }

    /// The last-recorded timestamps, in the same order.
    pub closed spec fn stamps(&self) -> Seq<i64> {
        self.last_update@
    }

    /// The two lists have one entry per subscription.
    pub open spec fn wf(&self) -> bool {
        self.subs().len() == self.stamps().len()
    }

    /// The registry as one list of (subscription, last recorded) pairs.
    pub open spec fn entries(&self) -> Seq<((Seq<char>, i64, i64), i64)> {
        Seq::new(self.subs().len(), |i: int| (self.subs()[i], self.stamps()[i]))
    }

    /// An empty registry.
    pub fn new() -> (r: GlobalHistory)
        ensures
            r.wf(),
            r.subs().len() == 0,
    {
        GlobalHistory { history: Vec::new(), last_update: Vec::new() }
    }

    /// A copy of the subscriptions.
    pub fn get(&self) -> (r: Vec<HistoryItem>)
        ensures
            items_view(r@) == self.subs(),
    {
        let r = self.history.clone();
        assert(items_view(r@) =~= self.subs());
        r
    }

    /// A copy of the last-recorded timestamps.
    pub fn last_update(&self) -> (r: Vec<i64>)
        ensures
            r@ == self.stamps(),
    {
        let r = self.last_update.clone();
        assert(r@ =~= self.stamps());
        r
    }

    /// Sets the last-recorded time of the subscription at position `idx`.
    /// A position past the end (an index taken before a removal) is refused.
    pub fn update_time(&mut self, idx: usize, timestamp: i64) -> (r: Result<(), HistoryError>)
        ensures
            final(self).subs() == old(self).subs(),
            final(self).wf() == old(self).wf(),
            idx < old(self).stamps().len() ==> r == Ok::<(), HistoryError>(())
                && final(self).stamps() == old(self).stamps().update(idx as int, timestamp),
            idx >= old(self).stamps().len() ==> r == Err::<(), HistoryError>(HistoryError::StaleIndex)
                && final(self).stamps() == old(self).stamps(),
    {
        if idx < self.last_update.len() {
            self.last_update.set(idx, timestamp);
            Ok(())
        } else {
            Err(HistoryError::StaleIndex)
        }
    }

    /// Adds a subscription made at time `now`, never recorded yet.
    pub fn add_at(&mut self, name: String, interval: i64, now: i64)
        requires
            old(self).wf(),
        ensures
            final(self).wf(),
            final(self).subs() == old(self).subs().push((name@, interval, now)),
            final(self).stamps() == old(self).stamps().push(0),
            final(self).entries() == old(self).entries().push(((name@, interval, now), 0i64)),
    {
        let item = HistoryItem { name, interval, add_time: now };
        self.history.push(item);
        self.last_update.push(0);
        assert(self.subs() =~= old(self).subs().push((name@, interval, now)));
        assert(self.stamps() =~= old(self).stamps().push(0));
        assert(self.entries() =~= old(self).entries().push(((name@, interval, now), 0i64)));
    }

    /// Adds a subscription stamped with the current time, never recorded yet.
    pub fn add(&mut self, name: String, interval: i64)
        requires
            old(self).wf(),
        ensures
            final(self).wf(),
            final(self).subs().len() == old(self).subs().len() + 1,
            final(self).subs().drop_last() == old(self).subs(),
            final(self).subs().last().0 == name@,
            final(self).subs().last().1 == interval,
            final(self).stamps() == old(self).stamps().push(0),
    {
        let now = now_timestamp();
        self.add_at(name, interval, now);
        assert(self.subs().drop_last() =~= old(self).subs());
    }

    /// Takes out every subscription whose name is in `names`, together with its
    /// timestamp; the remaining pairs keep their order.
    pub fn delete(&mut self, names: &Vec<String>)
        requires
            old(self).wf(),
        ensures
            final(self).wf(),
            final(self).entries() == old(self).entries().filter(name_not_in(names.deep_view())),
    {
        let ghost src = self.entries();
        let ghost keep = name_not_in(names.deep_view());
        let mut items: Vec<HistoryItem> = Vec::new();
        let mut lasts: Vec<i64> = Vec::new();
        let mut i: usize = 0;
        while i < self.history.len()
            invariant
                self.wf(),
                self.entries() == src,
                keep == name_not_in(names.deep_view()),
                i <= self.history.len(),
                items@.len() == lasts@.len(),
                Seq::new(items@.len() as nat, |k: int| (items_view(items@)[k], lasts@[k]))
                    == src.take(i as int).filter(keep),
            decreases self.history.len() - i,
        {
            let ghost pre_items = items@;
            let ghost pre_lasts = lasts@;
            proof {
                assert(src.take(i as int + 1) =~= src.take(i as int).push(src[i as int]));
                src.take(i as int).lemma_filter_push(src[i as int], keep);
                assert(src[i as int] == (self.history@[i as int]@, self.last_update@[i as int]));
            }
            let found = contains_string(names, &self.history[i].name);
            assert(found == !keep(src[i as int]));
            if !found {
                let item = self.history[i].clone();
                items.push(item);
                lasts.push(self.last_update[i]);
                assert(Seq::new(items@.len() as nat, |k: int| (items_view(items@)[k], lasts@[k]))
                    =~= Seq::new(pre_items.len() as nat, |k: int| (items_view(pre_items)[k], pre_lasts[k])).push(src[i as int]));
            }
            i += 1;
        }
        assert(src.take(src.len() as int) =~= src);
        self.history = items;
        self.last_update = lasts;
        assert(self.entries() =~= src.filter(keep));
    }

    /// The first subscription named `name`.
    pub fn get_history(&self, name: String) -> (r: Result<HistoryItem, HistoryError>)
        ensures
            match r {
                Ok(item) => exists|i: int| 0 <= i < self.subs().len()
                    && self.subs()[i] == item@
                    && item.name@ == name@
                    && forall|j: int| 0 <= j < i ==> self.subs()[j].0 != name@,
                Err(e) => e == HistoryError::NotFound
                    && forall|j: int| 0 <= j < self.subs().len() ==> self.subs()[j].0 != name@,
            },
    {
        let mut i: usize = 0;
        while i < self.history.len()
            invariant
                i <= self.history.len(),
                forall|j: int| 0 <= j < i ==> self.subs()[j].0 != name@,
            decreases self.history.len() - i,
        {
            if self.history[i].name == name {
                let item = self.history[i].clone();
                assert(self.subs()[i as int] == item@);
                return Ok(item);
            }
            i += 1;
        }
        Err(HistoryError::NotFound)
    }

    /// A copy of both lists, in their persisted form.
    pub fn history(&self) -> (r: History)
        ensures
            items_view(r.history@) == self.subs(),
            r.last_update@ == self.stamps(),
    {
        History { history: self.get(), last_update: self.last_update() }
    }

    /// The registry rebuilt from its persisted form; refused when the two lists
    /// differ in length.
    pub fn from_history(h: History) -> (r: Result<GlobalHistory, HistoryError>)
        ensures
            h.history@.len() == h.last_update@.len() ==> (r matches Ok(g) && g.wf()
                && g.subs() == items_view(h.history@) && g.stamps() == h.last_update@),
            h.history@.len() != h.last_update@.len() ==> r == Err::<GlobalHistory, HistoryError>(
                HistoryError::CorruptRegistry,
            ),
    {
        if h.history.len() == h.last_update.len() {
            Ok(GlobalHistory { history: h.history, last_update: h.last_update })
        } else {
            Err(HistoryError::CorruptRegistry)
        }
    }
}

/// What a registry saves reloads as the same registry: its two lists always agree
/// in length, so rebuilding from them is never refused as corrupt.
pub proof fn lemma_history_round_trip(g: GlobalHistory, saved: History)
    requires
        g.wf(),
        items_view(saved.history@) == g.subs(),
        saved.last_update@ == g.stamps(),
    ensures
        saved.history@.len() == saved.last_update@.len(),
        items_view(saved.history@) == g.subs(),
        saved.last_update@ == g.stamps(),
{
    assert(items_view(saved.history@).len() == saved.history@.len());
}

} // verus!
