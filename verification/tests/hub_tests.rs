use shtml_dev::ReloadHub;
use shtml_dev::broadcast_reload;
use shtml_dev::sse_frame;
use shtml_dev::sse_keepalive_frame;
use shtml_dev::sse_preamble;

#[test]
fn broadcast_with_zero_subscribers_is_a_noop() {
    let mut hub = ReloadHub::new();
    assert_eq!(hub.subscriber_count(), 0);
    broadcast_reload(&mut hub);
    assert_eq!(hub.subscriber_count(), 0);
}

#[test]
fn broadcast_delivers_to_live_subscribers() {
    let mut hub = ReloadHub::new();
    let rx1 = hub.subscribe();
    let rx2 = hub.subscribe();
    assert_eq!(hub.subscriber_count(), 2);
    broadcast_reload(&mut hub);
    assert_eq!(rx1.try_recv().unwrap(), "reload");
    assert_eq!(rx2.try_recv().unwrap(), "reload");
    assert_eq!(hub.subscriber_count(), 2);
}

#[test]
fn broadcast_prunes_exactly_the_dead_subscriber() {
    let mut hub = ReloadHub::new();
    let rx1 = hub.subscribe();
    let rx2 = hub.subscribe();
    let rx3 = hub.subscribe();
    assert_eq!(hub.subscriber_count(), 3);
    drop(rx2);
    broadcast_reload(&mut hub);
    // The two live subscribers are delivered to; the dead one is removed
    // in the same pass, so the registry shrinks by exactly one.
    assert_eq!(hub.subscriber_count(), 2);
    assert_eq!(rx1.try_recv().unwrap(), "reload");
    assert_eq!(rx3.try_recv().unwrap(), "reload");
}

#[test]
fn pruned_subscriber_stays_gone() {
    let mut hub = ReloadHub::new();
    let rx1 = hub.subscribe();
    let rx2 = hub.subscribe();
    drop(rx1);
    broadcast_reload(&mut hub);
    assert_eq!(hub.subscriber_count(), 1);
    broadcast_reload(&mut hub);
    assert_eq!(hub.subscriber_count(), 1);
    assert_eq!(rx2.try_recv().unwrap(), "reload");
    assert_eq!(rx2.try_recv().unwrap(), "reload");
}

#[test]
fn event_stream_frames() {
    assert_eq!(sse_frame("connected"), "data: connected\n\n");
    assert_eq!(sse_frame("reload"), "data: reload\n\n");
    assert_eq!(sse_keepalive_frame(), ": keepalive\n\n");
    let preamble = sse_preamble();
    assert!(preamble.starts_with("HTTP/1.1 200 OK\r\n"));
    assert!(preamble.contains("Content-Type: text/event-stream\r\n"));
    assert!(preamble.ends_with("\r\n\r\n"));
}
