use futures::channel::mpsc;
use futures::StreamExt;
use netcapture::{wait_outcome, Event, EventResult};
use std::time::{Duration, Instant};

fn event(body: &str) -> Event {
    Event { url: "https://x/a".to_string(), content_type: None, status: Some(200), body: body.to_string() }
}

/// One bounded wait on the receiver, on a runtime of its own.
fn wait(rx: &mut mpsc::UnboundedReceiver<Event>, timeout: Duration) -> EventResult {
    let runtime = tokio::runtime::Builder::new_current_thread().enable_time().build().unwrap();
    runtime.block_on(async { wait_outcome(tokio::time::timeout(timeout, rx.next()).await) })
}

#[test]
fn open_empty_channel_times_out() {
    let (tx, mut rx) = mpsc::unbounded::<Event>();
    assert!(matches!(wait(&mut rx, Duration::from_millis(50)), EventResult::Timeout));
    // Nothing was consumed: an event sent afterwards is still received.
    tx.unbounded_send(event("later")).unwrap();
    match wait(&mut rx, Duration::from_millis(50)) {
        EventResult::Received(e) => assert_eq!(e.body, "later"),
        other => panic!("unexpected: {:?}", other),
    }
}

#[test]
fn closed_empty_channel_reports_closed() {
    let (tx, mut rx) = mpsc::unbounded::<Event>();
    drop(tx);
    assert!(matches!(wait(&mut rx, Duration::from_millis(50)), EventResult::StreamClosed));
}

#[test]
fn queued_event_is_returned_at_once() {
    let (tx, mut rx) = mpsc::unbounded::<Event>();
    tx.unbounded_send(event("first")).unwrap();
    tx.unbounded_send(event("second")).unwrap();
    let started = Instant::now();
    match wait(&mut rx, Duration::from_secs(10)) {
        EventResult::Received(e) => assert_eq!(e.body, "first"),
        other => panic!("unexpected: {:?}", other),
    }
    assert!(started.elapsed() < Duration::from_secs(5));
    match wait(&mut rx, Duration::from_millis(0)) {
        EventResult::Received(e) => assert_eq!(e.body, "second"),
        other => panic!("unexpected: {:?}", other),
    }
}

#[test]
fn queued_events_are_drained_before_closed() {
    let (tx, mut rx) = mpsc::unbounded::<Event>();
    tx.unbounded_send(event("last")).unwrap();
    drop(tx);
    match wait(&mut rx, Duration::from_millis(50)) {
        EventResult::Received(e) => assert_eq!(e.body, "last"),
        other => panic!("unexpected: {:?}", other),
    }
    assert!(matches!(wait(&mut rx, Duration::from_millis(50)), EventResult::StreamClosed));
}

#[test]
fn wait_outcome_of_plain_values() {
    assert!(matches!(wait_outcome(Ok(None)), EventResult::StreamClosed));
    match wait_outcome(Ok(Some(event("e")))) {
        EventResult::Received(e) => {
            assert_eq!(e.body, "e");
            assert_eq!(e.url, "https://x/a");
            assert_eq!(e.status, Some(200));
        }
        other => panic!("unexpected: {:?}", other),
    }
}
