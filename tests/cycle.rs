use node_monitor::history::GlobalHistory;
use node_monitor::models::{
    ControlAddress, FilfoxMinerInfo, Miner, MinerInfo, MinerInfos, Owner, Sectors, Worker,
};
use node_monitor::poller::{source_delay, PollAction, PollCycle};
use node_monitor::recorder::{due, pending_records, HistoryRow};

fn record(id: &str, pledge: &str, power: &str, blocks: i64, rewards: &str) -> FilfoxMinerInfo {
    FilfoxMinerInfo {
        actor: "storageminer".to_string(),
        address: format!("addr-{}", id),
        balance: "0".to_string(),
        create_height: 1,
        create_timestamp: 2,
        id: id.to_string(),
        last_seen_height: 3,
        last_seen_timestamp: 4,
        message_count: 5,
        miner: Miner {
            available_balance: "0".to_string(),
            blocks_mined: blocks,
            control_addresses: vec![ControlAddress { address: "c".to_string(), balance: "0".to_string() }],
            initial_pledge_requirement: pledge.to_string(),
            multi_addresses: vec![],
            network_quality_adj_power: "0".to_string(),
            network_raw_byte_power: "0".to_string(),
            owner: Owner { address: "o".to_string(), balance: "0".to_string() },
            peer_id: "p".to_string(),
            pledge_balance: "0".to_string(),
            pre_commit_deposits: "0".to_string(),
            quality_adj_power: power.to_string(),
            quality_adj_power_rank: 1,
            raw_byte_power: "0".to_string(),
            raw_byte_power_rank: 1,
            sector_pledge_balance: "0".to_string(),
            sectors: Sectors { active: 1, faulty: 0, live: 1, recovering: 0 },
            sector_size: 34359738368,
            total_rewards: rewards.to_string(),
            vesting_funds: "0".to_string(),
            weighted_blocks_mined: blocks,
            worker: Worker { address: "w".to_string(), balance: "0".to_string() },
        },
        owned_miners: vec![],
        robust: "r".to_string(),
        timestamp: 6,
        worker_miners: vec![],
    }
}

fn run_cycle(sources: &[&str], interval_ms: u64, outcomes: Vec<Option<FilfoxMinerInfo>>, now: i64) -> (MinerInfos, Vec<(String, u64)>) {
    let mut cycle = PollCycle::start(sources.iter().map(|s| s.to_string()).collect(), interval_ms);
    let mut asked = vec![];
    let mut outcomes = outcomes.into_iter();
    loop {
        match cycle.next_action() {
            PollAction::Fetch { id, delay_ms } => {
                asked.push((id, delay_ms));
                cycle.on_fetch(outcomes.next().unwrap());
            }
            PollAction::Finish => break,
        }
    }
    assert!(cycle.is_done());
    let mut cache = MinerInfos { last_update: 0, infos: vec![] };
    cycle.finish(&mut cache, now);
    (cache, asked)
}

#[test]
fn two_sources_share_the_interval_and_record_the_sum() {
    let a = record("f0100", "1000", "10", 2, "7");
    let b = record("f0200", "2500", "20", 3, "8");
    let (cache, asked) = run_cycle(&["f0100", "f0200"], 10_000, vec![Some(a), Some(b)], 4_000);
    assert_eq!(asked, vec![("f0100".to_string(), 5_000), ("f0200".to_string(), 5_000)]);

    let mut history = GlobalHistory::new();
    history.add_at("agg".to_string(), 3, 0);

    let rows = pending_records(&history, &cache, 4).unwrap();
    assert_eq!(rows.len(), 1);
    let (idx, row) = &rows[0];
    assert_eq!(*idx, 0);
    assert_eq!(row.name, "agg");
    assert_eq!(row.timestamp, 4);
    assert_eq!(row.pledge, 1000 + 2500);
    assert_eq!(row.power, 30);
    assert_eq!(row.blocks, 5);
    assert_eq!(row.rewards, 15);
    history.update_time(*idx, 4).unwrap();

    let rows = pending_records(&history, &cache, 5).unwrap();
    assert!(rows.is_empty());
    assert_eq!(history.last_update(), vec![4]);
}

#[test]
fn a_failed_fetch_leaves_only_that_source_out() {
    let a = record("f1", "1", "1", 1, "1");
    let c = record("f3", "3", "3", 3, "3");
    let (cache, asked) = run_cycle(&["f1", "f2", "f3"], 9_000, vec![Some(a), None, Some(c)], 1_234_567);
    assert_eq!(asked.len(), 3);
    assert_eq!(cache.infos.len(), 2);
    assert_eq!(cache.infos[0].id, "f1");
    assert_eq!(cache.infos[1].id, "f3");
    assert_eq!(cache.last_update(), 1_234_567);
}

#[test]
fn a_cycle_without_sources_finishes_at_once() {
    let (cache, asked) = run_cycle(&[], 10_000, vec![], 42);
    assert!(asked.is_empty());
    assert!(cache.infos.is_empty());
    assert_eq!(cache.last_update, 42);
}

#[test]
fn pauses_add_up_to_the_interval_less_the_remainder() {
    assert_eq!(source_delay(10_000, 3), 3_333);
    assert_eq!(source_delay(10_000, 0), 0);
    assert_eq!(source_delay(10, 20), 0);
    let (_, asked) = run_cycle(&["a", "b", "c"], 10_000, vec![None, None, None], 0);
    let total: u64 = asked.iter().map(|(_, d)| d).sum();
    assert_eq!(total, 9_999);
    assert!(total <= 10_000 && total > 10_000 - 3);
}

#[test]
fn not_due_means_no_row_and_no_new_stamp() {
    let mut history = GlobalHistory::new();
    history.add_at("a".to_string(), 10, 0);
    history.add_at("b".to_string(), 20, 0);
    history.update_time(0, 100).unwrap();
    history.update_time(1, 100).unwrap();
    let cache = MinerInfos { last_update: 0, infos: vec![record("x", "1", "1", 1, "1")] };
    let rows = pending_records(&history, &cache, 110).unwrap();
    assert!(rows.is_empty());
    let rows = pending_records(&history, &cache, 111).unwrap();
    let idxs: Vec<usize> = rows.iter().map(|(i, _)| *i).collect();
    assert_eq!(idxs, vec![0]);
    assert_eq!(history.last_update(), vec![100, 100]);
}

#[test]
fn a_new_subscription_records_exactly_once_over_its_interval() {
    for (t0, interval) in [(1_000i64, 5i64), (2, 5), (0, 0), (0, 3)] {
        let mut history = GlobalHistory::new();
        history.add_at("s".to_string(), interval, t0);
        let cache = MinerInfos { last_update: 0, infos: vec![] };
        let mut recorded_at = vec![];
        for now in (t0 + 1)..=(t0 + interval + 1) {
            for (idx, row) in pending_records(&history, &cache, now).unwrap() {
                recorded_at.push(row.timestamp);
                history.update_time(idx, now).unwrap();
            }
        }
        let expected = if t0 + 1 > interval { t0 + 1 } else { interval + 1 };
        assert_eq!(recorded_at, vec![expected]);
    }
}

#[test]
fn due_is_strict_and_free_of_overflow() {
    assert!(!due(10, 7, 3));
    assert!(due(11, 7, 3));
    assert!(due(5, 5, -1));
    assert!(due(i64::MAX, i64::MIN, 0));
    assert!(!due(i64::MIN, i64::MAX, 0));
}

#[test]
fn an_aggregate_that_overflows_records_nothing() {
    let big = u128::MAX.to_string();
    let cache = MinerInfos { last_update: 0, infos: vec![record("a", &big, "0", 0, "0"), record("b", "1", "0", 0, "0")] };
    let mut history = GlobalHistory::new();
    history.add_at("s".to_string(), 0, 0);
    assert!(pending_records(&history, &cache, 100).is_none());
    assert!(cache.get_info().is_none());
}

#[test]
fn rows_read_back_as_aggregates() {
    let row = HistoryRow { name: "agg".to_string(), timestamp: 1, pledge: 2, power: 3, blocks: 4, rewards: 5 };
    let m = MinerInfo::from_row(&row);
    assert_eq!((m.id.as_str(), m.pledge, m.power, m.blocks, m.rewards), ("all", 2, 3, 4, 5));
    let r = HistoryRow::from_total("x".to_string(), 9, &m);
    assert_eq!((r.name.as_str(), r.timestamp, r.pledge, r.power, r.blocks, r.rewards), ("x", 9, 2, 3, 4, 5));
}
