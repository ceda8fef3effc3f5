use node_monitor::amount::parse_amount;
use node_monitor::config::{GlobalConfig, GlobalTimeouts, DEFAULT_INTERVAL_MS, DEFAULT_TIMEOUT_MS};
use node_monitor::models::{MinerInfo, MinerInfos};

#[test]
fn amounts_read_plain_decimals_only() {
    assert_eq!(parse_amount(&"0".to_string()), 0);
    assert_eq!(parse_amount(&"825017190309711000000000".to_string()), 825017190309711000000000);
    assert_eq!(parse_amount(&u128::MAX.to_string()), u128::MAX);
    assert_eq!(parse_amount(&"340282366920938463463374607431768211456".to_string()), 0);
    assert_eq!(parse_amount(&"".to_string()), 0);
    assert_eq!(parse_amount(&"12a".to_string()), 0);
    assert_eq!(parse_amount(&"-5".to_string()), 0);
    assert_eq!(parse_amount(&"1.5".to_string()), 0);
    assert_eq!(parse_amount(&"007".to_string()), 7);
}

#[test]
fn the_empty_total_is_zero() {
    let t = MinerInfo::total(&vec![]).unwrap();
    assert_eq!((t.id.as_str(), t.pledge, t.power, t.blocks, t.rewards), ("all", 0, 0, 0, 0));
    let n = MinerInfo::new();
    assert_eq!((n.id.as_str(), n.pledge, n.power, n.blocks, n.rewards), ("all", 0, 0, 0, 0));
}

#[test]
fn totals_sum_each_field() {
    let a = MinerInfo { id: "a".to_string(), pledge: 1, power: 2, blocks: 3, rewards: 4 };
    let b = MinerInfo { id: "b".to_string(), pledge: 10, power: 20, blocks: 30, rewards: 40 };
    let t = MinerInfo::total(&vec![a, b]).unwrap();
    assert_eq!((t.id.as_str(), t.pledge, t.power, t.blocks, t.rewards), ("all", 11, 22, 33, 44));
    let c = MinerInfo { id: "c".to_string(), pledge: 0, power: 0, blocks: u64::MAX, rewards: 0 };
    let d = MinerInfo { id: "d".to_string(), pledge: 0, power: 0, blocks: 1, rewards: 0 };
    assert!(MinerInfo::total(&vec![c, d]).is_none());
}

#[test]
fn an_empty_cache_summarises_to_zero() {
    let cache = MinerInfos::new();
    assert!(cache.last_update() > 0);
    let info = cache.get_info().unwrap();
    assert!(info.info.is_empty());
    assert_eq!(info.total.pledge, 0);
    assert_eq!(info.total.id, "all");
    assert_eq!(info.last_update, cache.last_update);
    let cache = MinerInfos::from_infos(vec![]);
    assert!(cache.infos.is_empty());
}

#[test]
fn interval_changes_only_when_asked_for() {
    let mut c = GlobalConfig::default();
    assert_eq!(c.interval(), DEFAULT_INTERVAL_MS);
    assert_eq!(c.timeouts.filfox(), DEFAULT_TIMEOUT_MS);
    assert_eq!(c.change_interval(5_000, 20_000, None), 20_000);
    assert_eq!(c.interval(), DEFAULT_INTERVAL_MS);
    assert_eq!(c.change_interval(5_000, 20_000, Some(false)), 20_000);
    assert_eq!(c.interval(), DEFAULT_INTERVAL_MS);
    assert_eq!(c.change_interval(DEFAULT_INTERVAL_MS, 20_000, None), 20_000);
    assert_eq!(c.interval(), 20_000);
    assert_eq!(c.change_interval(1, 30_000, Some(true)), 30_000);
    assert_eq!(c.interval(), 30_000);
    c.set_interval(7);
    assert_eq!(c.interval, 7);
}

#[test]
fn config_round_trip_through_persisted_form() {
    let mut c = GlobalConfig::default();
    c.set_interval(12_345);
    let saved = c.config();
    let loaded = GlobalConfig::from_config(saved);
    assert_eq!(loaded.interval, 12_345);
    assert_eq!(loaded.timeouts.filfox, DEFAULT_TIMEOUT_MS);
    let t = GlobalTimeouts::from_timeouts(GlobalTimeouts::default().config());
    assert_eq!(t.filfox, DEFAULT_TIMEOUT_MS);
}
