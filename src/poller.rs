//! One poll cycle as a state machine. The cycle visits the sources in registry
//! order; before each fetch it asks for a pause of the cycle interval divided by the
//! number of sources. The caller performs the pauses and fetches and hands back
//! each outcome; a failed fetch leaves its source out of the cycle's snapshot.

use vstd::prelude::*;
use crate::models::{FilfoxMinerInfo, MinerInfos};

verus! {

/// The pause before each fetch, in milliseconds: the cycle interval shared evenly
/// among `n` sources, rounded down. With no sources there is nothing to pause for.
pub open spec fn per_source_delay(interval_ms: int, n: int) -> int {
    if n <= 0 {
        0
    } else {
        interval_ms / n
    }
}

/// The pause before each fetch of a cycle over `n` sources.
pub fn source_delay(interval_ms: u64, n: usize) -> (r: u64)
    ensures
        r == per_source_delay(interval_ms as int, n as int),
{
    if n == 0 {
        0
    } else {
        interval_ms / (n as u64)
    }
}

/// What the caller is asked to do next.
pub enum PollAction {
    /// Pause for `delay_ms` milliseconds, then fetch the record of `id`.
    Fetch { id: String, delay_ms: u64 },
    /// Every source has been visited: the cycle can be stored.
    Finish,
}

/// A poll cycle in progress.
pub struct PollCycle {
    sources: Vec<String>,
    interval_ms: u64,
    delay_ms: u64,
    position: usize,
    fetched: Vec<FilfoxMinerInfo>,
}

impl PollCycle {
    /// The sources of this cycle, in the order they are visited.
    pub closed spec fn sources(&self) -> Seq<Seq<char>> {
        self.sources.deep_view()
    }

    /// The cycle interval, in milliseconds.
    pub closed spec fn interval(&self) -> int {
        self.interval_ms as int
    }

    /// How many sources have been visited.
    pub closed spec fn position(&self) -> int {
        self.position as int
    }

    /// The records fetched so far, in visiting order.
    pub closed spec fn fetched(&self) -> Seq<FilfoxMinerInfo> {
        self.fetched@
    }

    /// The pause asked for before each fetch.
    pub closed spec fn delay(&self) -> int {
        self.delay_ms as int
    }

    pub open spec fn wf(&self) -> bool {
        &&& 0 <= self.position() <= self.sources().len()
        &&& self.delay() == per_source_delay(self.interval(), self.sources().len() as int)
    }

    /// The pauses asked for so far, in milliseconds.
    pub open spec fn paused(&self) -> int {
        self.delay() * self.position()
    }

    /// Every source has been visited.
    pub open spec fn done(&self) -> bool {
        self.position() == self.sources().len()
    }

    /// A cycle over `sources` with the cycle interval `interval_ms`.
    pub fn start(sources: Vec<String>, interval_ms: u64) -> (r: PollCycle)
        ensures
            r.wf(),
            r.sources() == sources.deep_view(),
            r.interval() == interval_ms,
            r.position() == 0,
            r.fetched().len() == 0,
    {
        let delay_ms = source_delay(interval_ms, sources.len());
        PollCycle { sources, interval_ms, delay_ms, position: 0, fetched: Vec::new() }
    }

    /// The next step: fetch the next source after the even share of the interval,
    /// or finish once every source has been visited.
    pub fn next_action(&self) -> (r: PollAction)
        requires
            self.wf(),
        ensures
            !self.done() ==> (r matches PollAction::Fetch { id, delay_ms }
                && id@ == self.sources()[self.position()]
                && delay_ms == per_source_delay(self.interval(), self.sources().len() as int)),
            self.done() ==> r is Finish,
    {
        if self.position < self.sources.len() {
            let id = self.sources[self.position].clone();
            PollAction::Fetch { id, delay_ms: self.delay_ms }
        } else {
            PollAction::Finish
        }
    }

    /// Takes the outcome of the fetch of the current source and moves on: a record
    /// is kept, a failure (`None`) is passed over.
    pub fn on_fetch(&mut self, result: Option<FilfoxMinerInfo>)
        requires
            old(self).wf(),
            !old(self).done(),
        ensures
            final(self).wf(),
            final(self).sources() == old(self).sources(),
            final(self).interval() == old(self).interval(),
            final(self).position() == old(self).position() + 1,
            final(self).paused() == old(self).paused() + final(self).delay(),
            match result {
                Some(info) => final(self).fetched() == old(self).fetched().push(info),
                None => final(self).fetched() == old(self).fetched(),
            },
    {
        let ghost d = self.delay();
        let ghost p = self.position();
        let n = self.sources.len();
        assert(n == self.sources().len());
        match result {
            Some(info) => {
                self.fetched.push(info);
            },
            None => {},
        }
        self.position = self.position + 1;
        assert(d * (p + 1) == d * p + d) by (nonlinear_arith);
    }

    /// Whether every source has been visited.
    pub fn is_done(&self) -> (r: bool)
        requires
            self.wf(),
        ensures
            r == self.done(),
    {
        self.position >= self.sources.len()
    }

    /// Stores the finished cycle: the cache then holds exactly the records fetched in
    /// it, however few, stamped with `now_ms`.
    pub fn finish(self, cache: &mut MinerInfos, now_ms: i64)
        requires
            self.wf(),
            self.done(),
        ensures
            final(cache).infos@ == self.fetched(),
            final(cache).last_update == now_ms,
    {
        cache.replace(self.fetched, now_ms);
    }
}

/// A finished cycle over at least one source has asked for pauses that add up to
/// the interval divided by the number of sources, times that number: the interval
/// itself less the remainder of the division, so less than one millisecond per
/// source short of it. Pacing thus scales with the interval, whatever the count.
pub proof fn lemma_cycle_pacing(c: PollCycle)
    requires
        c.wf(),
        c.done(),
        c.sources().len() > 0,
    ensures
        c.paused() == (c.interval() / c.sources().len() as int) * c.sources().len(),
        c.interval() - c.sources().len() < c.paused() <= c.interval(),
{
    let n = c.sources().len() as int;
    let i = c.interval();
    assert(i >= 0) by {
        assert(c.interval() == c.interval_ms as int);
    }
    assert((i / n) * n <= i && i - n < (i / n) * n) by (nonlinear_arith)
        requires
            n > 0,
            i >= 0,
    ;
}

} // verus!
