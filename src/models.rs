//! What the information service reports for an account, the per-account summary
//! drawn from it, and the snapshot cache that holds the latest poll result.

use vstd::prelude::*;
use crate::amount::{amount_of, parse_amount};
use crate::clock::now_millis;

verus! {

/// An address with its balance.
#[derive(Clone, Debug)]
pub struct ControlAddress {
    pub address: String,
    pub balance: String,
}

/// The owner of an account.
#[derive(Clone, Debug)]
pub struct Owner {
    pub address: String,
    pub balance: String,
}

/// Sector counts of an account.
#[derive(Clone, Debug)]
pub struct Sectors {
    pub active: i64,
    pub faulty: i64,
    pub live: i64,
    pub recovering: i64,
}

/// The worker of an account.
#[derive(Clone, Debug)]
pub struct Worker {
    pub address: String,
    pub balance: String,
}

/// The storage-provider part of an account's record. Amounts are decimal strings:
/// token amounts in attoFIL, powers in bytes.
#[derive(Clone, Debug)]
pub struct Miner {
    pub available_balance: String,
    pub blocks_mined: i64,
    pub control_addresses: Vec<ControlAddress>,
    pub initial_pledge_requirement: String,
    pub multi_addresses: Vec<String>,
    pub network_quality_adj_power: String,
    pub network_raw_byte_power: String,
    pub owner: Owner,
    pub peer_id: String,
    pub pledge_balance: String,
    pub pre_commit_deposits: String,
    pub quality_adj_power: String,
    pub quality_adj_power_rank: i64,
    pub raw_byte_power: String,
    pub raw_byte_power_rank: i64,
    pub sector_pledge_balance: String,
    pub sectors: Sectors,
    pub sector_size: i64,
    pub total_rewards: String,
    pub vesting_funds: String,
    pub weighted_blocks_mined: i64,
    pub worker: Worker,
}

/// One account's record, as the information service reports it.
#[derive(Clone, Debug)]
pub struct FilfoxMinerInfo {
    pub actor: String,
    pub address: String,
    pub balance: String,
    pub create_height: i64,
    pub create_timestamp: i64,
    pub id: String,
    pub last_seen_height: i64,
    pub last_seen_timestamp: i64,
    pub message_count: i64,
    pub miner: Miner,
    pub owned_miners: Vec<String>,
    pub robust: String,
    pub timestamp: i64,
    pub worker_miners: Vec<String>,
}

/// The summary of one account, or of several summed: pledge and rewards in attoFIL,
/// power in bytes of quality-adjusted power, and the weighted count of mined blocks.
#[derive(Debug)]
pub struct MinerInfo {
    pub id: String,
    pub pledge: u128,
    pub power: u128,
    pub blocks: u64,
    pub rewards: u128,
}

/// The fields of a summary, in the order id, pledge, power, blocks, rewards.
pub type MinerInfoView = (Seq<char>, u128, u128, u64, u128);

impl View for MinerInfo {
    type V = MinerInfoView;

    open spec fn view(&self) -> MinerInfoView {
        (self.id@, self.pledge, self.power, self.blocks, self.rewards)
    }
}

impl Clone for MinerInfo {
    fn clone(&self) -> (r: MinerInfo)
        ensures
            r@ == self@,
    {
        MinerInfo {
            id: self.id.clone(),
            pledge: self.pledge,
            power: self.power,
            blocks: self.blocks,
            rewards: self.rewards,
        }
    }
}

/// The summary of one reported record: the amounts read from their decimal strings
/// (`0` where a string is not a plain decimal that fits), the weighted block count
/// taken as unsigned.
pub open spec fn summary_of(v: FilfoxMinerInfo) -> MinerInfoView {
    (
        v.id@,
        amount_of(v.miner.initial_pledge_requirement@) as u128,
        amount_of(v.miner.quality_adj_power@) as u128,
        v.miner.weighted_blocks_mined as u64,
        amount_of(v.miner.total_rewards@) as u128,
    )
}

/// The summaries of a list of reported records.
pub open spec fn summaries(v: Seq<FilfoxMinerInfo>) -> Seq<MinerInfoView> {
    v.map_values(|x: FilfoxMinerInfo| summary_of(x))
}

/// The sum of the summaries of `v`, under the id `all`.
pub open spec fn total_of(v: Seq<FilfoxMinerInfo>) -> MinerInfoView {
    let t = sums(summaries(v));
    (total_id(), t.0 as u128, t.1 as u128, t.2 as u64, t.3 as u128)
}

/// The id that a summed summary carries.
pub open spec fn total_id() -> Seq<char> {
    seq!['a', 'l', 'l']
}

/// The component-wise sums of pledge, power, blocks and rewards over `s`.
pub open spec fn sums(s: Seq<MinerInfoView>) -> (int, int, int, int)
    decreases s.len(),
{
    if s.len() == 0 {
        (0, 0, 0, 0)
    } else {
        let p = sums(s.drop_last());
        let x = s.last();
        (p.0 + x.1, p.1 + x.2, p.2 + x.3, p.3 + x.4)
    }
}

/// Each sum fits in the type of its field.
pub open spec fn sums_fit(t: (int, int, int, int)) -> bool {
    t.0 <= u128::MAX && t.1 <= u128::MAX && t.2 <= u64::MAX && t.3 <= u128::MAX
}

/// The summaries of a list of summaries.
pub open spec fn infos_view(v: Seq<MinerInfo>) -> Seq<MinerInfoView> {
    v.map_values(|m: MinerInfo| m@)
}

/// Sums never fall as the list grows.
proof fn lemma_sums_grow(s: Seq<MinerInfoView>, k: int)
    requires
        0 <= k <= s.len(),
    ensures
        0 <= sums(s.take(k)).0 <= sums(s).0,
        0 <= sums(s.take(k)).1 <= sums(s).1,
        0 <= sums(s.take(k)).2 <= sums(s).2,
        0 <= sums(s.take(k)).3 <= sums(s).3,
    decreases s.len(),
{
    if k == s.len() {
        assert(s.take(k) =~= s);
        if s.len() > 0 {
            lemma_sums_grow(s.drop_last(), k - 1);
            assert(s.drop_last().take(k - 1) =~= s.drop_last());
        }
    } else {
        lemma_sums_grow(s.drop_last(), k);
        assert(s.drop_last().take(k) =~= s.take(k));
    }
}

impl MinerInfo {
    /// The zero summary, under the id `all`.
    pub fn new() -> (r: MinerInfo)
        ensures
            r@ == (total_id(), 0u128, 0u128, 0u64, 0u128),
    {
        proof {
            reveal_strlit("all");
        }
        let id = "all".to_owned();
        assert(id@ =~= total_id());
        MinerInfo { id, pledge: 0, power: 0, blocks: 0, rewards: 0 }
    }

    /// The summary of one reported record.
    pub fn from_filfox(v: &FilfoxMinerInfo) -> (r: MinerInfo)
        ensures
            r@ == summary_of(*v),
    {
        MinerInfo {
            id: v.id.clone(),
            pledge: parse_amount(&v.miner.initial_pledge_requirement),
            power: parse_amount(&v.miner.quality_adj_power),
            blocks: v.miner.weighted_blocks_mined as u64,
            rewards: parse_amount(&v.miner.total_rewards),
        }
    }

    /// The component-wise sum of `infos` under the id `all` (the zero summary when
    /// `infos` is empty); `None` when a sum does not fit in its field.
    pub fn total(infos: &Vec<MinerInfo>) -> (r: Option<MinerInfo>)
        ensures
            sums_fit(sums(infos_view(infos@))) ==> (r matches Some(t) && t@ == (
                total_id(),
                sums(infos_view(infos@)).0 as u128,
                sums(infos_view(infos@)).1 as u128,
                sums(infos_view(infos@)).2 as u64,
                sums(infos_view(infos@)).3 as u128,
            )),
            !sums_fit(sums(infos_view(infos@))) ==> r is None,
    {
        let ghost all = infos_view(infos@);
        let mut t = MinerInfo::new();
        let mut i: usize = 0;
        while i < infos.len()
            invariant
                all == infos_view(infos@),
                i <= infos.len(),
                t.id@ == total_id(),
                sums(all.take(i as int)) == (t.pledge as int, t.power as int, t.blocks as int, t.rewards as int),
            decreases infos.len() - i,
        {
            let x = &infos[i];
            proof {
                assert(all.take(i as int + 1).drop_last() =~= all.take(i as int));
                assert(all.take(i as int + 1).last() == x@);
                lemma_sums_grow(all, i as int + 1);
            }
            if t.pledge > u128::MAX - x.pledge || t.power > u128::MAX - x.power
                || t.blocks > u64::MAX - x.blocks || t.rewards > u128::MAX - x.rewards {
                return None;
            }
            t.pledge = t.pledge + x.pledge;
            t.power = t.power + x.power;
            t.blocks = t.blocks + x.blocks;
            t.rewards = t.rewards + x.rewards;
            i += 1;
        }
        assert(all.take(infos.len() as int) =~= all);
        Some(t)
    }
}

/// The snapshot cache: the records of the latest poll cycle and the time, in
/// milliseconds since the epoch, at which that cycle completed.
pub struct MinerInfos {
    pub last_update: i64,
    pub infos: Vec<FilfoxMinerInfo>,
}

impl MinerInfos {
    /// An empty cache stamped with the current time.
    pub fn new() -> (r: MinerInfos)
        ensures
            r.infos@.len() == 0,
            r.last_update >= 0,
    {
        MinerInfos { last_update: now_millis(), infos: Vec::new() }
    }

    /// A cache holding `value`, stamped with the current time.
    pub fn from_infos(value: Vec<FilfoxMinerInfo>) -> (r: MinerInfos)
        ensures
            r.infos@ == value@,
            r.last_update >= 0,
    {
        MinerInfos { last_update: now_millis(), infos: value }
    }

    /// Swaps the whole content and its timestamp for those of a new cycle.
    pub fn replace(&mut self, infos: Vec<FilfoxMinerInfo>, at: i64)
        ensures
            final(self).infos@ == infos@,
            final(self).last_update == at,
    {
        self.infos = infos;
        self.last_update = at;
    }

    /// The time the cached cycle completed, in milliseconds since the epoch.
    pub fn last_update(&self) -> (r: i64)
        ensures
            r == self.last_update,
    {
        self.last_update
    }

    /// The summary of each cached record, in order.
    pub fn info(&self) -> (r: Vec<MinerInfo>)
        ensures
            r@.len() == self.infos@.len(),
            forall|i: int| 0 <= i < r@.len() ==> r@[i]@ == summary_of(#[trigger] self.infos@[i]),
            infos_view(r@) == summaries(self.infos@),
    {
        let mut out: Vec<MinerInfo> = Vec::new();
        let mut i: usize = 0;
        while i < self.infos.len()
            invariant
                i <= self.infos.len(),
                out@.len() == i,
                forall|j: int| 0 <= j < i ==> out@[j]@ == summary_of(#[trigger] self.infos@[j]),
            decreases self.infos.len() - i,
        {
            out.push(MinerInfo::from_filfox(&self.infos[i]));
            i += 1;
        }
        assert(infos_view(out@) =~= summaries(self.infos@));
        out
    }

    /// The cached records summarised: each account's summary, their sum, and the time
    /// of the cycle; `None` when a sum does not fit in its field.
    pub fn get_info(&self) -> (r: Option<GetInfoRes>)
        ensures
            sums_fit(sums(summaries(self.infos@))) ==> (r matches Some(res)
                && infos_view(res.info@) == summaries(self.infos@)
                && res.total@ == total_of(self.infos@)
                && res.last_update == self.last_update),
            !sums_fit(sums(summaries(self.infos@))) ==> r is None,
    {
        let info = self.info();
        match MinerInfo::total(&info) {
            Some(total) => Some(GetInfoRes { total, info, last_update: self.last_update }),
            None => None,
        }
    }
}

/// The summary of the latest cycle: the sum under the id `all`, each account's
/// summary, and when the cycle completed (milliseconds since the epoch).
pub struct GetInfoRes {
    pub total: MinerInfo,
    pub info: Vec<MinerInfo>,
    pub last_update: i64,
}

} // verus!
