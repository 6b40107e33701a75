use rendezvous::config::{Settings, DEFAULT_PORT, MEET_SERVER_PORT, TICK_RATE_HZ};
use rendezvous::endpoint::Endpoint;
use rendezvous::rendezvous::{Reply, WaitingPool};
use rendezvous::transport::LinkStats;

fn x() -> Endpoint {
    Endpoint::new(203, 0, 113, 1, 4000)
}

fn y() -> Endpoint {
    Endpoint::new(198, 51, 100, 2, 4000)
}

fn text_of(r: &Reply) -> String {
    String::from_utf8(r.payload.clone()).unwrap()
}

#[test]
fn endpoint_text_form() {
    assert_eq!(x().to_text(), b"203.0.113.1:4000".to_vec());
    assert_eq!(Endpoint::new(0, 0, 0, 0, 0).to_text(), b"0.0.0.0:0".to_vec());
    assert_eq!(
        Endpoint::new(255, 255, 255, 255, 65535).to_text(),
        b"255.255.255.255:65535".to_vec()
    );
    assert_eq!(Endpoint::new(10, 9, 100, 99, 10).to_text(), b"10.9.100.99:10".to_vec());
}

#[test]
fn two_clients_are_matched() {
    let mut pool = WaitingPool::new();
    assert!(pool.register(x()).is_empty());
    assert_eq!(pool.len(), 1);
    assert_eq!(pool.get(0), Some(x()));
    let replies = pool.register(y());
    assert_eq!(replies.len(), 2);
    assert_eq!(replies[0].dest, x());
    assert_eq!(text_of(&replies[0]), "198.51.100.2:4000");
    assert_eq!(replies[1].dest, y());
    assert_eq!(text_of(&replies[1]), "203.0.113.1:4000");
    assert_eq!(pool.len(), 0);
    assert_eq!(pool.get(0), None);
}

#[test]
fn repeated_registration_is_ignored() {
    let mut pool = WaitingPool::new();
    assert!(pool.register(x()).is_empty());
    assert!(pool.register(x()).is_empty());
    assert_eq!(pool.len(), 1);
    assert!(pool.contains(&x()));
    let replies = pool.register(y());
    assert_eq!(replies.len(), 2);
    assert_eq!(replies[0].dest, x());
    assert_eq!(replies[1].dest, y());
    assert_eq!(pool.len(), 0);
}

#[test]
fn same_address_other_port_is_distinct() {
    let mut pool = WaitingPool::new();
    let a = Endpoint::new(127, 0, 0, 1, 4000);
    let b = Endpoint::new(127, 0, 0, 1, 4001);
    assert!(pool.register(a).is_empty());
    let replies = pool.register(b);
    assert_eq!(text_of(&replies[0]), "127.0.0.1:4001");
    assert_eq!(text_of(&replies[1]), "127.0.0.1:4000");
}

#[test]
fn matches_do_not_carry_over() {
    let mut pool = WaitingPool::new();
    pool.register(x());
    pool.register(y());
    assert_eq!(pool.len(), 0);
    let c = Endpoint::new(192, 0, 2, 7, 4000);
    let d = Endpoint::new(192, 0, 2, 8, 5000);
    assert!(pool.register(c).is_empty());
    assert_eq!(pool.get(0), Some(c));
    let replies = pool.register(d);
    assert_eq!(replies.len(), 2);
    assert_eq!(replies[0].dest, c);
    assert_eq!(text_of(&replies[0]), "192.0.2.8:5000");
    assert_eq!(replies[1].dest, d);
    assert_eq!(text_of(&replies[1]), "192.0.2.7:4000");
    assert!(!pool.contains(&x()));
    assert!(!pool.contains(&y()));
}

#[test]
fn earlier_peer_may_register_again_after_match() {
    let mut pool = WaitingPool::new();
    pool.register(x());
    pool.register(y());
    assert!(pool.register(x()).is_empty());
    assert_eq!(pool.len(), 1);
}

#[test]
fn send_failures_are_counted_not_reported() {
    let mut stats = LinkStats::new();
    stats.record_send(true);
    stats.record_send(false);
    stats.record_send(false);
    assert_eq!(stats.sent, 1);
    assert_eq!(stats.send_failures, 2);
    assert_eq!(stats.received, 0);
    assert_eq!(stats.receive_failures, 0);
}

#[test]
fn failed_and_empty_receives_both_give_zero() {
    let mut stats = LinkStats::new();
    assert_eq!(stats.record_receive(None), 0);
    assert_eq!(stats.record_receive(Some(0)), 0);
    assert_eq!(stats.record_receive(Some(17)), 17);
    assert_eq!(stats.received, 2);
    assert_eq!(stats.receive_failures, 1);
}

#[test]
fn counters_stop_at_the_top() {
    let mut stats = LinkStats { sent: u64::MAX, send_failures: 0, received: 0, receive_failures: 0 };
    stats.record_send(true);
    assert_eq!(stats.sent, u64::MAX);
}

#[test]
fn default_settings() {
    let s = Settings::default();
    assert_eq!(s.local_port, DEFAULT_PORT);
    assert_eq!(s.local_port, 4000);
    assert_eq!(s.rendezvous, Endpoint::new(176, 246, 73, 156, 5000));
    assert_eq!(MEET_SERVER_PORT, 5000);
    assert_eq!(s.tick_rate_hz, TICK_RATE_HZ);
    assert_eq!(s.tick_rate_hz, 60);
    let t = Settings::new(4001, x(), 30);
    assert_eq!(t.rendezvous.to_text(), b"203.0.113.1:4000".to_vec());
}
