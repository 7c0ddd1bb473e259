use fanout_relay::broadcast::{BroadcastError, DeliveryPolicy, Payload, SendOutcome};
use fanout_relay::connection::Connection;
use fanout_relay::ingress::{on_inbound_event, webhook_reply, InboundAction, InboundEvent};
use fanout_relay::lifecycle::{step, ConnEvent, ConnState};
use fanout_relay::registry::{Registry, RegistryError};
use tokio::sync::mpsc::unbounded_channel;

fn text(s: &str) -> Payload {
    Payload::Text(s.to_string())
}

#[test]
fn upgrades_assign_distinct_ids() {
    let mut reg = Registry::new();
    let (tx_a, _rx_a) = unbounded_channel::<String>();
    let (tx_b, _rx_b) = unbounded_channel::<String>();
    let (tx_c, _rx_c) = unbounded_channel::<String>();
    let a = reg.on_connection_established(tx_a);
    let b = reg.on_connection_established(tx_b);
    let c = reg.on_connection_established(tx_c);
    assert_eq!(reg.len(), 3);
    assert_ne!(a, b);
    assert_ne!(a, c);
    assert_ne!(b, c);
    assert!(reg.contains(a));
    assert!(reg.contains(b));
    assert!(reg.contains(c));
}

#[test]
fn ids_are_strictly_increasing_and_never_reused() {
    let mut reg = Registry::new();
    let (tx_a, _rx_a) = unbounded_channel::<String>();
    let (tx_b, _rx_b) = unbounded_channel::<String>();
    let a = reg.on_connection_established(tx_a);
    reg.unregister(a);
    let b = reg.on_connection_established(tx_b);
    assert!(b > a);
    assert!(!reg.contains(a));
    assert!(reg.contains(b));
}

#[test]
fn register_duplicate_id_is_refused() {
    let mut reg = Registry::new();
    let id = reg.allocate_id();
    let (tx1, _rx1) = unbounded_channel::<String>();
    let (tx2, _rx2) = unbounded_channel::<String>();
    assert!(reg.register(id, Connection::new(id, tx1)).is_ok());
    let r = reg.register(id, Connection::new(id, tx2));
    assert_eq!(r, Err(RegistryError::DuplicateId));
    assert_eq!(reg.len(), 1);
}

#[test]
fn broadcast_skips_closed_queue_and_reaches_the_rest() {
    let mut reg = Registry::new();
    let (tx_a, mut rx_a) = unbounded_channel::<String>();
    let (tx_b, rx_b) = unbounded_channel::<String>();
    let (tx_c, mut rx_c) = unbounded_channel::<String>();
    let a = reg.on_connection_established(tx_a);
    let b = reg.on_connection_established(tx_b);
    let c = reg.on_connection_established(tx_c);
    drop(rx_b);
    let rep = reg.broadcast(&text("payload")).expect("broadcast must succeed");
    assert_eq!(rep.payload, "payload");
    assert_eq!(rep.attempted, vec![a, b, c]);
    assert_eq!(rep.unreachable, vec![b]);
    assert_eq!(rx_a.try_recv().unwrap(), "payload");
    assert!(rx_a.try_recv().is_err(), "exactly one copy for A");
    assert_eq!(rx_c.try_recv().unwrap(), "payload");
    assert!(rx_c.try_recv().is_err(), "exactly one copy for C");
}

#[test]
fn send_to_unknown_id_is_not_an_error() {
    let mut reg = Registry::new();
    let (tx_a, mut rx_a) = unbounded_channel::<String>();
    let a = reg.on_connection_established(tx_a);
    let r = reg.send_to(a + 1, &text("direct"));
    assert_eq!(r, Ok(SendOutcome::NotFound));
    assert!(rx_a.try_recv().is_err(), "nobody may receive it");
}

#[test]
fn send_to_known_id_delivers() {
    let mut reg = Registry::new();
    let (tx_a, mut rx_a) = unbounded_channel::<String>();
    let a = reg.on_connection_established(tx_a);
    assert_eq!(reg.send_to(a, &text("direct")), Ok(SendOutcome::Delivered));
    assert_eq!(rx_a.try_recv().unwrap(), "direct");
}

#[test]
fn send_to_closed_queue_is_contained() {
    let mut reg = Registry::new();
    let (tx_a, rx_a) = unbounded_channel::<String>();
    let a = reg.on_connection_established(tx_a);
    drop(rx_a);
    assert_eq!(reg.send_to(a, &text("direct")), Ok(SendOutcome::QueueGone));
}

#[test]
fn fifo_per_connection() {
    let mut reg = Registry::new();
    let (tx_a, mut rx_a) = unbounded_channel::<String>();
    let a = reg.on_connection_established(tx_a);
    assert_eq!(reg.send_to(a, &text("first")), Ok(SendOutcome::Delivered));
    assert_eq!(reg.send_to(a, &text("second")), Ok(SendOutcome::Delivered));
    assert_eq!(rx_a.try_recv().unwrap(), "first");
    assert_eq!(rx_a.try_recv().unwrap(), "second");
}

#[test]
fn unregister_twice_leaves_the_state_of_once() {
    let mut reg = Registry::new();
    let (tx_a, _rx_a) = unbounded_channel::<String>();
    let (tx_b, _rx_b) = unbounded_channel::<String>();
    let a = reg.on_connection_established(tx_a);
    let b = reg.on_connection_established(tx_b);
    reg.unregister(a);
    assert_eq!(reg.len(), 1);
    assert!(!reg.contains(a));
    assert!(reg.contains(b));
    reg.unregister(a);
    assert_eq!(reg.len(), 1);
    assert!(!reg.contains(a));
    assert!(reg.contains(b));
}

#[test]
fn unregister_of_absent_id_is_a_no_op() {
    let mut reg = Registry::new();
    let (tx_a, _rx_a) = unbounded_channel::<String>();
    let a = reg.on_connection_established(tx_a);
    reg.unregister(a + 7);
    assert_eq!(reg.len(), 1);
    assert!(reg.contains(a));
}

#[test]
fn webhook_json_reaches_both_clients() {
    let mut reg = Registry::new();
    let (tx_a, mut rx_a) = unbounded_channel::<String>();
    let (tx_b, mut rx_b) = unbounded_channel::<String>();
    reg.on_connection_established(tx_a);
    reg.on_connection_established(tx_b);
    let body: serde_json::Value = serde_json::from_str("{\"x\":1}").unwrap();
    let outcome = reg.broadcast(&Payload::Json(body));
    assert!(outcome.is_ok());
    let (status, reply) = webhook_reply(&outcome);
    assert_eq!(status, 200);
    assert_eq!(reply, "Message broadcasted");
    assert_eq!(rx_a.try_recv().unwrap(), "{\"x\":1}");
    assert_eq!(rx_b.try_recv().unwrap(), "{\"x\":1}");
}

#[test]
fn json_payload_is_really_encoded() {
    let mut reg = Registry::new();
    let (tx_a, mut rx_a) = unbounded_channel::<String>();
    reg.on_connection_established(tx_a);
    let body: serde_json::Value = serde_json::from_str("[1,2,{\"a\":true}]").unwrap();
    assert!(reg.broadcast(&Payload::Json(body)).is_ok());
    assert_eq!(rx_a.try_recv().unwrap(), "[1,2,{\"a\":true}]");
}

#[test]
fn webhook_reply_on_failure_is_a_500() {
    let outcome = Err(BroadcastError::SerializationFailure);
    let (status, reply) = webhook_reply(&outcome);
    assert_eq!(status, 500);
    assert_eq!(reply, "Error broadcasting message");
}

#[test]
fn client_text_echoes_to_all_including_sender() {
    let mut reg = Registry::new();
    let (tx_a, mut rx_a) = unbounded_channel::<String>();
    let (tx_b, mut rx_b) = unbounded_channel::<String>();
    reg.on_connection_established(tx_a);
    reg.on_connection_established(tx_b);
    // client A's read loop sees a text frame and asks for a rebroadcast
    let action = on_inbound_event(InboundEvent::Text("hello".to_string()));
    let payload = match action {
        InboundAction::Rebroadcast(p) => p,
        _ => panic!("a text frame must be rebroadcast"),
    };
    assert!(reg.broadcast(&payload).is_ok());
    assert_eq!(rx_a.try_recv().unwrap(), "hello", "the sender hears its own echo");
    assert_eq!(rx_b.try_recv().unwrap(), "hello");
}

#[test]
fn non_text_frames_are_ignored_and_stream_end_tears_down() {
    assert!(matches!(on_inbound_event(InboundEvent::NonText), InboundAction::Ignore));
    assert!(matches!(on_inbound_event(InboundEvent::StreamEnd), InboundAction::Teardown));
}

#[test]
fn lifecycle_walks_forward_only() {
    let s0 = ConnState::Connecting;
    let s1 = step(s0, ConnEvent::Registered);
    assert_eq!(s1, ConnState::Active);
    let s2 = step(s1, ConnEvent::InboundEnded);
    assert_eq!(s2, ConnState::Draining);
    let s3 = step(s2, ConnEvent::OutboundDone);
    assert_eq!(s3, ConnState::Closed);
    // events out of turn change nothing, and Closed is terminal
    assert_eq!(step(ConnState::Connecting, ConnEvent::InboundEnded), ConnState::Connecting);
    assert_eq!(step(ConnState::Active, ConnEvent::OutboundDone), ConnState::Active);
    assert_eq!(step(ConnState::Closed, ConnEvent::Registered), ConnState::Closed);
}

#[test]
fn snapshot_lists_ids_in_registration_order() {
    let mut reg = Registry::new();
    let (tx_a, _rx_a) = unbounded_channel::<String>();
    let (tx_b, _rx_b) = unbounded_channel::<String>();
    let a = reg.on_connection_established(tx_a);
    let b = reg.on_connection_established(tx_b);
    let snap = reg.snapshot_for_broadcast();
    let ids: Vec<usize> = snap.iter().map(|c| c.id).collect();
    assert_eq!(ids, vec![a, b]);
}

#[test]
fn delivery_policy_is_best_effort() {
    let reg = Registry::new();
    assert_eq!(reg.delivery_policy(), DeliveryPolicy::BestEffort);
}

#[test]
fn broadcast_to_empty_registry_succeeds() {
    let reg = Registry::new();
    let rep = reg.broadcast(&text("nobody")).expect("an empty fan-out still succeeds");
    assert!(rep.attempted.is_empty());
    assert!(rep.unreachable.is_empty());
}
