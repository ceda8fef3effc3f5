use node_monitor::apis::{
    get_history_handler, get_history_subscribe_handler, post_history_subscribe_add_handler,
    post_history_subscribe_delete_handler, post_subscribe_add_handler, post_subscribe_delete_handler,
    HistoryGetReq, HistorySubscribeAddReq, HistorySubscribeDeleteReq, SubscribeAddReq, SubscribeDeleteReq,
};
use node_monitor::history::{GlobalHistory, HistoryError};
use node_monitor::nodes::GlobalNodes;
use node_monitor::res::{Res, CODE_FAIL, CODE_SUCCESS};
use node_monitor::verification_code::{gen_number_verification_code, number_code};

#[test]
fn test_gen_verification_code() {
    for _ in 0..10 {
        let code = gen_number_verification_code(6);
        println!("{}", code);
        assert_eq!(code.len(), 6);
        assert!(code.chars().all(|c| c.is_ascii_digit()));
    }
}

#[test]
fn codes_are_leading_digits_of_the_padded_number() {
    assert_eq!(number_code(42, 6), "000042");
    assert_eq!(number_code(42, 4), "0000");
    assert_eq!(number_code(0, 6), "000000");
    assert_eq!(number_code(1234567, 3), "123");
    assert_eq!(number_code(4294967295, 10), "4294967295");
    assert_eq!(number_code(987654, 0), "");
    assert_eq!(gen_number_verification_code(0), "");
}

#[test]
fn source_requests_answer_with_the_new_list() {
    let mut nodes = GlobalNodes::new();
    let r = post_subscribe_add_handler(&mut nodes, SubscribeAddReq { id: "f0100".to_string() });
    assert_eq!(r, vec!["f0100".to_string()]);
    let r = post_subscribe_add_handler(&mut nodes, SubscribeAddReq { id: "f0200".to_string() });
    assert_eq!(r, vec!["f0100".to_string(), "f0200".to_string()]);
    let r = post_subscribe_delete_handler(&mut nodes, SubscribeDeleteReq { ids: vec!["f0100".to_string()] });
    assert_eq!(r, vec!["f0200".to_string()]);
    assert_eq!(nodes.nodes, r);
}

#[test]
fn history_requests_answer_with_the_new_list() {
    let mut h = GlobalHistory::new();
    let r = post_history_subscribe_add_handler(&mut h, HistorySubscribeAddReq { name: "agg".to_string(), interval: 3 });
    assert_eq!(r.len(), 1);
    assert_eq!(r[0].name, "agg");
    assert_eq!(r[0].interval, 3);
    post_history_subscribe_add_handler(&mut h, HistorySubscribeAddReq { name: "b".to_string(), interval: 9 });
    let found = get_history_handler(&h, HistoryGetReq { name: "b".to_string() }).unwrap();
    assert_eq!(found.interval, 9);
    let r = post_history_subscribe_delete_handler(&mut h, HistorySubscribeDeleteReq { names: vec!["agg".to_string()] });
    assert_eq!(r.len(), 1);
    assert_eq!(r[0].name, "b");
    assert_eq!(h.last_update(), vec![0]);
    assert_eq!(get_history_subscribe_handler(&h).subscribe.len(), 1);
    assert_eq!(get_history_handler(&h, HistoryGetReq { name: "agg".to_string() }).unwrap_err(), HistoryError::NotFound);
}

#[test]
fn responses_carry_code_and_message() {
    let ok = Res::success(5u32);
    assert_eq!((ok.data, ok.code, ok.message.as_str()), (Some(5), CODE_SUCCESS, "success"));
    let failed = Res::failed("x".to_string());
    assert_eq!((failed.data.as_deref(), failed.code, failed.message.as_str()), (Some("x"), 500, "success"));
    let fail: Res<u8> = Res::fail();
    assert_eq!((fail.data, fail.code, fail.message.as_str()), (None, CODE_FAIL, "fail"));
    let custom: Res<u8> = Res::custom_fail(404, "history item not found!".to_string());
    assert_eq!((custom.data, custom.code, custom.message.as_str()), (None, 404, "history item not found!"));
}
