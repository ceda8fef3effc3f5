//! The recorder: which history subscriptions are due for a durable row at a given
//! time, and the rows to append for them.

use vstd::prelude::*;
use crate::history::GlobalHistory;
use crate::models::{MinerInfo, MinerInfoView, MinerInfos, sums, sums_fit, summaries, total_id, total_of};

verus! {

/// A subscription whose last recording was at `last` is due at `now` when strictly
/// more than `interval` seconds have passed.
pub open spec fn is_due(now: int, last: int, interval: int) -> bool {
    now - last > interval
}

/// Whether a subscription last recorded at `last` is due at `now`.
pub fn due(now: i64, last: i64, interval: i64) -> (r: bool)
    ensures
        r == is_due(now as int, last as int, interval as int),
{
    (now as i128) - (last as i128) > interval as i128
}

/// One durable history row: the aggregate under a subscription's name at a time.
/// Pledge and rewards are in attoFIL, power in bytes.
#[derive(Debug)]
pub struct HistoryRow {
    pub name: String,
    pub timestamp: i64,
    pub pledge: u128,
    pub power: u128,
    pub blocks: u64,
    pub rewards: u128,
}

/// The fields of a row, in the order name, timestamp, pledge, power, blocks, rewards.
pub type HistoryRowView = (Seq<char>, i64, u128, u128, u64, u128);

impl View for HistoryRow {
    type V = HistoryRowView;

    open spec fn view(&self) -> HistoryRowView {
        (self.name@, self.timestamp, self.pledge, self.power, self.blocks, self.rewards)
    }
}

/// The row that records the aggregate `total` under `name` at `now`.
pub open spec fn row_of(name: Seq<char>, now: i64, total: MinerInfoView) -> HistoryRowView {
    (name, now, total.1, total.2, total.3, total.4)
}

impl HistoryRow {
    /// The row that records the aggregate `total` under `name` at `timestamp`.
    pub fn from_total(name: String, timestamp: i64, total: &MinerInfo) -> (r: HistoryRow)
        ensures
            r@ == row_of(name@, timestamp, total@),
    {
        HistoryRow {
            name,
            timestamp,
            pledge: total.pledge,
            power: total.power,
            blocks: total.blocks,
            rewards: total.rewards,
        }
    }
}

impl MinerInfo {
    /// The aggregate that a stored row holds, under the id `all`.
    pub fn from_row(row: &HistoryRow) -> (r: MinerInfo)
        ensures
            r@ == (total_id(), row.pledge, row.power, row.blocks, row.rewards),
    {
        let mut r = MinerInfo::new();
        r.pledge = row.pledge;
        r.power = row.power;
        r.blocks = row.blocks;
        r.rewards = row.rewards;
        r
    }
}

impl GlobalHistory {
    /// The subscription at position `i` is due at `now`.
    pub open spec fn due_at(&self, now: int, i: int) -> bool {
        is_due(now, self.stamps()[i] as int, self.subs()[i].1 as int)
    }
}

/// The positions and rows of a list of planned recordings.
pub open spec fn plan_view(rows: Seq<(usize, HistoryRow)>) -> Seq<(int, HistoryRowView)> {
    rows.map_values(|p: (usize, HistoryRow)| (p.0 as int, p.1@))
}

/// `plan` is the recording pass of `h` at `now` with aggregate `total`: one row per
/// due subscription, in registry order, and none for the others.
pub open spec fn is_pass(
    h: GlobalHistory,
    now: i64,
    total: MinerInfoView,
    plan: Seq<(int, HistoryRowView)>,
) -> bool {
    &&& forall|k: int|
        0 <= k < plan.len() ==> 0 <= #[trigger] plan[k].0 < h.subs().len() && h.due_at(now as int, plan[k].0)
            && plan[k].1 == row_of(h.subs()[plan[k].0].0, now, total)
    &&& forall|k1: int, k2: int| 0 <= k1 < k2 < plan.len() ==> #[trigger] plan[k1].0 < #[trigger] plan[k2].0
    &&& forall|i: int|
        0 <= i < h.subs().len() && #[trigger] h.due_at(now as int, i) ==> exists|k: int|
            0 <= k < plan.len() && #[trigger] plan[k].0 == i
}

impl GlobalHistory {
    /// The rows to append at `now`: for each due subscription, in registry order, its
    /// position and the row that records `total` under its name. After a row is
    /// stored, its position is stamped with `now` through `update_time`.
    pub fn due_rows(&self, now: i64, total: &MinerInfo) -> (r: Vec<(usize, HistoryRow)>)
        requires
            self.wf(),
        ensures
            is_pass(*self, now, total@, plan_view(r@)),
    {
        let items = self.get();
        let lasts = self.last_update();
        let mut out: Vec<(usize, HistoryRow)> = Vec::new();
        let mut i: usize = 0;
        while i < items.len()
            invariant
                crate::history::items_view(items@) == self.subs(),
                lasts@ == self.stamps(),
                self.wf(),
                i <= items.len(),
                forall|k: int|
                    0 <= k < out@.len() ==> 0 <= #[trigger] plan_view(out@)[k].0 < i
                        && self.due_at(now as int, plan_view(out@)[k].0)
                        && plan_view(out@)[k].1 == row_of(self.subs()[plan_view(out@)[k].0].0, now, total@),
                forall|k1: int, k2: int|
                    0 <= k1 < k2 < out@.len() ==> #[trigger] plan_view(out@)[k1].0 < #[trigger] plan_view(out@)[k2].0,
                forall|j: int|
                    0 <= j < i && #[trigger] self.due_at(now as int, j) ==> exists|k: int|
                        0 <= k < out@.len() && #[trigger] plan_view(out@)[k].0 == j,
            decreases items.len() - i,
        {
            assert(self.subs()[i as int] == items@[i as int]@);
            if due(now, lasts[i], items[i].interval) {
                let ghost pre = plan_view(out@);
                let row = HistoryRow::from_total(items[i].name.clone(), now, total);
                out.push((i, row));
                assert(plan_view(out@) =~= pre.push((i as int, row@)));
                assert(plan_view(out@)[out@.len() - 1].0 == i);
                assert forall|j: int|
                    0 <= j < i && #[trigger] self.due_at(now as int, j) implies exists|k: int|
                        0 <= k < out@.len() && #[trigger] plan_view(out@)[k].0 == j by {
                    let k = choose|k: int| 0 <= k < pre.len() && #[trigger] pre[k].0 == j;
                    assert(plan_view(out@)[k] == pre[k]);
                }
            }
            i += 1;
        }
        out
    }
}

/// The recording pass at `now` over the cached cycle: the rows that record the
/// aggregate of the cache for each due subscription. `None` when the aggregate does
/// not fit in its fields.
pub fn pending_records(history: &GlobalHistory, cache: &MinerInfos, now: i64) -> (r: Option<
    Vec<(usize, HistoryRow)>,
>)
    requires
        history.wf(),
    ensures
        sums_fit(sums(summaries(cache.infos@))) ==> (r matches Some(rows) && is_pass(
            *history,
            now,
            total_of(cache.infos@),
            plan_view(rows@),
        )),
        !sums_fit(sums(summaries(cache.infos@))) ==> r is None,
{
    match cache.get_info() {
        Some(info) => Some(history.due_rows(now, &info.total)),
        None => None,
    }
}

/// A subscription that is not due gets no row in a pass: nothing is appended for it,
/// and since only planned positions are stamped, its last-recorded time stays.
pub proof fn lemma_not_due_not_recorded(
    h: GlobalHistory,
    now: i64,
    total: MinerInfoView,
    plan: Seq<(int, HistoryRowView)>,
    i: int,
)
    requires
        h.wf(),
        0 <= i < h.subs().len(),
        !h.due_at(now as int, i),
        is_pass(h, now, total, plan),
    ensures
        forall|k: int| 0 <= k < plan.len() ==> #[trigger] plan[k].0 != i,
{
}

/// Once stamped with `now`, a subscription with a non-negative interval is not due
/// again at `now`: a second pass at the same time appends nothing for it.
pub proof fn lemma_stamped_not_due(h: GlobalHistory, now: i64, i: int)
    requires
        h.wf(),
        0 <= i < h.subs().len(),
        h.stamps()[i] == now,
        h.subs()[i].1 >= 0,
    ensures
        !h.due_at(now as int, i),
{
}

/// The last-recorded time of one subscription after a cycle at `now` whose row was
/// stored: moved to `now` when the subscription was due, unchanged otherwise.
pub open spec fn after_cycle(last: int, interval: int, now: int) -> int {
    if is_due(now, last, interval) {
        now
    } else {
        last
    }
}

/// How many rows one subscription gets over cycles at `t + 1`, ..., `t + k`.
pub open spec fn recordings(last: int, interval: int, t: int, k: nat) -> nat
    decreases k,
{
    if k == 0 {
        0
    } else {
        (if is_due(t + 1, last, interval) { 1nat } else { 0nat }) + recordings(
            after_cycle(last, interval, t + 1),
            interval,
            t + 1,
            (k - 1) as nat,
        )
    }
}

/// The time of the first of those cycles that records, if any does.
pub open spec fn first_recording(last: int, interval: int, t: int, k: nat) -> Option<int>
    decreases k,
{
    if k == 0 {
        None
    } else if is_due(t + 1, last, interval) {
        Some(t + 1)
    } else {
        first_recording(last, interval, t + 1, (k - 1) as nat)
    }
}

/// Cycles that all come within `interval` of the last recording record nothing.
proof fn lemma_quiet(last: int, interval: int, t: int, k: nat)
    requires
        t + k - last <= interval,
    ensures
        recordings(last, interval, t, k) == 0,
        first_recording(last, interval, t, k) is None,
    decreases k,
{
    if k > 0 {
        lemma_quiet(last, interval, t + 1, (k - 1) as nat);
    }
}

/// The first `j` cycles, when none of them is due, change nothing.
proof fn lemma_skip(last: int, interval: int, t: int, k: nat, j: nat)
    requires
        j <= k,
        j == 0 || t + j - last <= interval,
    ensures
        recordings(last, interval, t, k) == recordings(last, interval, t + j, (k - j) as nat),
        first_recording(last, interval, t, k) == first_recording(last, interval, t + j, (k - j) as nat),
    decreases j,
{
    if j > 0 {
        lemma_skip(last, interval, t + 1, (k - 1) as nat, (j - 1) as nat);
    }
}

/// A subscription with interval `interval`, added at `t0` and never recorded (its
/// last-recorded time is `0`), that goes through cycles at `t0 + 1`, ...,
/// `t0 + interval + 1` gets exactly one row, at the first of those cycles whose time
/// exceeds `interval`.
pub proof fn lemma_records_once(t0: int, interval: int)
    requires
        t0 >= 0,
        interval >= 0,
    ensures
        recordings(0, interval, t0, (interval + 1) as nat) == 1,
        first_recording(0, interval, t0, (interval + 1) as nat) == Some(
            if t0 + 1 > interval { t0 + 1 } else { interval + 1 },
        ),
{
    let k = (interval + 1) as nat;
    let j: nat = if t0 + 1 > interval { 0 } else { (interval - t0) as nat };
    lemma_skip(0, interval, t0, k, j);
    let f = t0 + j + 1;
    assert(is_due(f, 0, interval));
    lemma_quiet(f, interval, f, (k - j - 1) as nat);
}

} // verus!
