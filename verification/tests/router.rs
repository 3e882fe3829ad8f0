use callback_router::kind::classify;
use callback_router::kind::ResponseKind;
use callback_router::kind::TAG_APP_NOTIFY;
use callback_router::kind::TAG_APP_REQUEST;
use callback_router::kind::TAG_CUSTOM;
use callback_router::kind::TAG_ERROR;
use callback_router::kind::TAG_NOP;
use callback_router::kind::TAG_SUCCESS;
use callback_router::router::route_payload;
use callback_router::router::Router;

#[test]
fn new_registry_is_empty() {
    let r: Router<u64> = Router::new();
    assert_eq!(r.len(), 0);
    assert!(!r.contains(0));
}

#[test]
fn classify_recognized_tags() {
    assert_eq!(classify(TAG_SUCCESS), ResponseKind::Success);
    assert_eq!(classify(TAG_ERROR), ResponseKind::Error);
    assert_eq!(classify(TAG_NOP), ResponseKind::Nop);
    assert_eq!(classify(TAG_APP_REQUEST), ResponseKind::AppRequest);
    assert_eq!(classify(TAG_APP_NOTIFY), ResponseKind::AppNotify);
    assert_eq!(classify(TAG_CUSTOM), ResponseKind::Custom);
}

#[test]
fn classify_unrecognized_tag_is_error() {
    assert_eq!(classify(5), ResponseKind::Error);
    assert_eq!(classify(77), ResponseKind::Error);
    assert_eq!(classify(u32::MAX), ResponseKind::Error);
}

#[test]
fn route_payload_error_channel() {
    let call = route_payload("boom".to_string(), TAG_ERROR);
    assert_eq!(call.result_json, "");
    assert_eq!(call.error_json, "boom");
    assert_eq!(call.response_kind, TAG_ERROR);
}

#[test]
fn route_payload_result_channel_for_every_other_kind() {
    for tag in [TAG_SUCCESS, TAG_NOP, TAG_APP_REQUEST, TAG_APP_NOTIFY, TAG_CUSTOM] {
        let call = route_payload("data".to_string(), tag);
        assert_eq!(call.result_json, "data");
        assert_eq!(call.error_json, "");
        assert_eq!(call.response_kind, tag);
    }
}

#[test]
fn unrecognized_tag_travels_on_error_channel() {
    let mut r: Router<u64> = Router::new();
    r.register(3, 30);
    let (listener, call) = r.deliver(3, "odd".to_string(), 42, false).unwrap();
    assert_eq!(listener, 30);
    assert_eq!(call.result_json, "");
    assert_eq!(call.error_json, "odd");
    assert_eq!(call.response_kind, 42);
}

#[test]
fn submit_deliver_complete_then_noop() {
    let mut r: Router<u64> = Router::new();
    r.register(1, 10);

    let (listener, call) = r
        .deliver(1, "{\"a\":1}".to_string(), TAG_SUCCESS, false)
        .unwrap();
    assert_eq!(listener, 10);
    assert_eq!(call.result_json, "{\"a\":1}");
    assert_eq!(call.error_json, "");
    assert_eq!(call.response_kind, TAG_SUCCESS);
    assert!(r.contains(1));

    let (listener, call) = r.deliver(1, "".to_string(), TAG_SUCCESS, true).unwrap();
    assert_eq!(listener, 10);
    assert_eq!(call.result_json, "");
    assert_eq!(call.error_json, "");
    assert_eq!(call.response_kind, TAG_SUCCESS);
    assert!(!r.contains(1));

    assert!(r.deliver(1, "late".to_string(), TAG_SUCCESS, true).is_none());
    assert!(!r.contains(1));
}

#[test]
fn delivery_without_registration_is_noop() {
    let mut r: Router<u64> = Router::new();
    let out = r.deliver(99, "err".to_string(), TAG_ERROR, true);
    assert!(out.is_none());
    assert_eq!(r.len(), 0);
}

#[test]
fn distinct_ids_lose_no_registration() {
    let mut r: Router<u64> = Router::new();
    for id in 0..8u32 {
        r.register(id, 100 + id as u64);
    }
    assert_eq!(r.len(), 8);
    for id in 0..8u32 {
        assert_eq!(r.lookup(id), Some(100 + id as u64));
    }
}

#[test]
fn same_id_overwrites_prior_registration() {
    let mut r: Router<u64> = Router::new();
    r.register(5, 1);
    r.register(5, 2);
    assert_eq!(r.len(), 1);
    assert_eq!(r.lookup(5), Some(2));
}

#[test]
fn noncompleted_delivery_keeps_registration() {
    let mut r: Router<u64> = Router::new();
    r.register(7, 70);
    for _ in 0..3 {
        let (listener, _) = r.deliver(7, "tick".to_string(), TAG_CUSTOM, false).unwrap();
        assert_eq!(listener, 70);
        assert!(r.contains(7));
    }
}

#[test]
fn completed_delivery_removes_whatever_the_kind() {
    let mut r: Router<u64> = Router::new();
    r.register(8, 80);
    let (_, call) = r.deliver(8, "bad".to_string(), TAG_ERROR, true).unwrap();
    assert_eq!(call.error_json, "bad");
    assert!(!r.contains(8));

    r.register(9, 90);
    let (_, call) = r.deliver(9, "".to_string(), TAG_NOP, true).unwrap();
    assert_eq!(call.result_json, "");
    assert_eq!(call.response_kind, TAG_NOP);
    assert!(!r.contains(9));
}

#[test]
fn delivery_for_one_id_leaves_others_alone() {
    let mut r: Router<u64> = Router::new();
    r.register(1, 10);
    r.register(2, 20);
    r.deliver(1, "done".to_string(), TAG_SUCCESS, true).unwrap();
    assert!(!r.contains(1));
    assert_eq!(r.lookup(2), Some(20));
}
