use apm_client::batch::Batch;
use apm_client::flush::build_request;
use apm_client::flush::FlushCommand;
use apm_client::flush::FlushEvent;
use apm_client::flush::FlushLoop;

fn batch(text: &str) -> Batch {
    Batch::new(text.to_string(), None, None, None)
}

fn new_loop(authorization: Option<String>) -> FlushLoop {
    FlushLoop::new("https://collector:8200".to_string(), authorization, 1000)
}

#[test]
fn request_carries_path_content_type_auth_and_body() {
    let b = batch("{\"n\":1}");
    let req = build_request("https://collector:8200", &Some("Bearer abc".to_string()), &b);
    assert_eq!(req.url, "https://collector:8200/intake/v2/events");
    assert_eq!(req.content_type, "application/x-ndjson");
    assert_eq!(req.authorization.as_deref(), Some("Bearer abc"));
    assert_eq!(req.body, "{\"metadata\":{\"n\":1}}\n");
}

#[test]
fn request_without_credential_has_no_auth_header() {
    let req = build_request("http://c", &None, &batch("{}"));
    assert!(req.authorization.is_none());
}

#[test]
fn loop_starts_by_draining() {
    let mut flush = new_loop(None);
    let cmd = flush.next(FlushEvent::Slept);
    assert!(matches!(cmd, FlushCommand::Drain));
}

#[test]
fn empty_drain_sleeps_the_configured_interval_and_sends_nothing() {
    let mut flush = new_loop(None);
    let cmd = flush.next(FlushEvent::Drained(Vec::new()));
    match cmd {
        FlushCommand::Sleep(ms) => assert_eq!(ms, 1000),
        _ => panic!("an empty drain must only sleep"),
    }
}

#[test]
fn snapshot_is_delivered_in_drain_order_one_request_per_batch() {
    let mut flush = new_loop(Some("Bearer t".to_string()));
    let snapshot = vec![batch("{\"n\":1}"), batch("{\"n\":2}")];
    let first = flush.next(FlushEvent::Drained(snapshot));
    match first {
        FlushCommand::Deliver(req) => {
            assert_eq!(req.body, "{\"metadata\":{\"n\":1}}\n");
            assert_eq!(req.url, "https://collector:8200/intake/v2/events");
            assert_eq!(req.authorization.as_deref(), Some("Bearer t"));
        }
        _ => panic!("a non-empty drain must start delivering"),
    }
    let second = flush.next(FlushEvent::Sent(true));
    match second {
        FlushCommand::Deliver(req) => assert_eq!(req.body, "{\"metadata\":{\"n\":2}}\n"),
        _ => panic!("the second batch must be delivered next"),
    }
    let after = flush.next(FlushEvent::Sent(true));
    assert!(matches!(after, FlushCommand::Drain));
}

#[test]
fn failed_delivery_does_not_stop_the_snapshot_or_the_loop() {
    let mut flush = new_loop(None);
    let snapshot = vec![batch("{\"n\":1}"), batch("{\"n\":2}"), batch("{\"n\":3}")];
    let _first = flush.next(FlushEvent::Drained(snapshot));
    // The first delivery fails: the rest of the snapshot is still attempted.
    let second = flush.next(FlushEvent::Sent(false));
    match second {
        FlushCommand::Deliver(req) => assert_eq!(req.body, "{\"metadata\":{\"n\":2}}\n"),
        _ => panic!("a failure must not skip the remaining batches"),
    }
    let third = flush.next(FlushEvent::Sent(false));
    match third {
        FlushCommand::Deliver(req) => assert_eq!(req.body, "{\"metadata\":{\"n\":3}}\n"),
        _ => panic!("a failure must not skip the remaining batches"),
    }
    // After the snapshot, the loop goes back to checking the buffer rather
    // than terminating.
    let after = flush.next(FlushEvent::Sent(false));
    assert!(matches!(after, FlushCommand::Drain));
}

#[test]
fn only_an_empty_drain_triggers_the_sleep() {
    let mut flush = new_loop(None);
    let _ = flush.next(FlushEvent::Drained(vec![batch("{}")]));
    // The snapshot was exhausted: the loop drains again at once.
    let after = flush.next(FlushEvent::Sent(true));
    assert!(matches!(after, FlushCommand::Drain));
    // Only now, with nothing pending and an empty drain, does it sleep.
    let idle = flush.next(FlushEvent::Drained(Vec::new()));
    assert!(matches!(idle, FlushCommand::Sleep(1000)));
}
