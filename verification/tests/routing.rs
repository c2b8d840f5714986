use donet::codec::push_u64_le;
use donet::datagram::Datagram;
use donet::director::MessageDirector;
use donet::protocol::{
    MD_ADD_CHANNEL, MD_ADD_POST_REMOVE, MD_ADD_RANGE, MD_CLEAR_POST_REMOVES, MD_REMOVE_CHANNEL,
    MD_REMOVE_RANGE,
};

fn channel_payload(channel: u64) -> Vec<u8> {
    let mut p: Vec<u8> = Vec::new();
    push_u64_le(&mut p, channel);
    p
}

fn range_payload(min: u64, max: u64) -> Vec<u8> {
    let mut p: Vec<u8> = Vec::new();
    push_u64_le(&mut p, min);
    push_u64_le(&mut p, max);
    p
}

fn control(opcode: u16, payload: Vec<u8>) -> Datagram {
    Datagram::new(opcode, 0, Vec::new(), payload)
}

#[test]
fn subscribe_then_route_delivers() {
    let mut md = MessageDirector::new(None);
    md.handle_datagram(1, &control(MD_ADD_CHANNEL, channel_payload(100)));
    let dg = Datagram::new(5, 7, vec![100], vec![1, 2, 3]);
    let r = md.route(2, &dg);
    assert_eq!(r.deliveries, vec![1]);
    assert!(!r.forward_upstream);
}

#[test]
fn subscribe_unsubscribe_leaves_no_subscriber() {
    let mut md = MessageDirector::new(None);
    md.handle_datagram(1, &control(MD_ADD_CHANNEL, channel_payload(100)));
    md.handle_datagram(1, &control(MD_REMOVE_CHANNEL, channel_payload(100)));
    assert!(md.channels.subscribers_of(100).is_empty());
    let r = md.route(2, &Datagram::new(5, 7, vec![100], Vec::new()));
    assert!(r.deliveries.is_empty());
}

#[test]
fn subscribe_is_idempotent_for_delivery() {
    let mut md = MessageDirector::new(None);
    md.handle_datagram(1, &control(MD_ADD_CHANNEL, channel_payload(100)));
    md.handle_datagram(1, &control(MD_ADD_CHANNEL, channel_payload(100)));
    let r = md.route(2, &Datagram::new(5, 7, vec![100], Vec::new()));
    assert_eq!(r.deliveries, vec![1]);
}

#[test]
fn sender_receives_own_datagram_when_subscribed() {
    // Connection A subscribes to channel 100; B sends to [100]: delivered
    // to A, and to B too once B subscribes; after A's disconnect a resend
    // is silently dropped.
    let mut md = MessageDirector::new(None);
    md.handle_datagram(1, &control(MD_ADD_CHANNEL, channel_payload(100)));
    let dg = Datagram::new(5, 7, vec![100], vec![9]);
    let r = md.route(2, &dg);
    assert_eq!(r.deliveries, vec![1]);
    md.handle_datagram(2, &control(MD_ADD_CHANNEL, channel_payload(100)));
    let mut dels = md.route(2, &dg).deliveries;
    dels.sort();
    assert_eq!(dels, vec![1, 2]);
    md.handle_disconnect(1);
    md.handle_disconnect(2);
    let r = md.route(2, &dg);
    assert!(r.deliveries.is_empty());
    assert!(!r.forward_upstream);
}

#[test]
fn range_subscription_matches_half_open_interval() {
    let mut md = MessageDirector::new(None);
    md.handle_datagram(3, &control(MD_ADD_RANGE, range_payload(50, 150)));
    assert_eq!(md.route(9, &Datagram::new(5, 7, vec![100], Vec::new())).deliveries, vec![3]);
    assert_eq!(md.route(9, &Datagram::new(5, 7, vec![50], Vec::new())).deliveries, vec![3]);
    // the upper bound is excluded
    assert!(md.route(9, &Datagram::new(5, 7, vec![150], Vec::new())).deliveries.is_empty());
    // outside every range, no exact subscription, no upstream: dropped
    let r = md.route(9, &Datagram::new(5, 7, vec![200], Vec::new()));
    assert!(r.deliveries.is_empty());
    assert!(!r.forward_upstream);
}

#[test]
fn remove_range_requires_exact_match() {
    let mut md = MessageDirector::new(None);
    md.handle_datagram(3, &control(MD_ADD_RANGE, range_payload(50, 150)));
    md.handle_datagram(3, &control(MD_REMOVE_RANGE, range_payload(50, 140)));
    assert_eq!(md.route(9, &Datagram::new(5, 7, vec![100], Vec::new())).deliveries, vec![3]);
    md.handle_datagram(3, &control(MD_REMOVE_RANGE, range_payload(50, 150)));
    assert!(md.route(9, &Datagram::new(5, 7, vec![100], Vec::new())).deliveries.is_empty());
}

#[test]
fn exact_and_range_subscribers_union_without_duplicates() {
    let mut md = MessageDirector::new(None);
    md.handle_datagram(1, &control(MD_ADD_CHANNEL, channel_payload(100)));
    md.handle_datagram(1, &control(MD_ADD_RANGE, range_payload(90, 110)));
    md.handle_datagram(2, &control(MD_ADD_RANGE, range_payload(100, 101)));
    let mut dels = md.route(9, &Datagram::new(5, 7, vec![100], Vec::new())).deliveries;
    dels.sort();
    assert_eq!(dels, vec![1, 2]);
}

#[test]
fn multiple_recipients_are_united() {
    let mut md = MessageDirector::new(None);
    md.handle_datagram(1, &control(MD_ADD_CHANNEL, channel_payload(100)));
    md.handle_datagram(2, &control(MD_ADD_CHANNEL, channel_payload(200)));
    let mut dels = md.route(9, &Datagram::new(5, 7, vec![100, 200], Vec::new())).deliveries;
    dels.sort();
    assert_eq!(dels, vec![1, 2]);
}

#[test]
fn teardown_purges_channels_ranges_and_queue() {
    let mut md = MessageDirector::new(None);
    md.handle_datagram(1, &control(MD_ADD_CHANNEL, channel_payload(100)));
    md.handle_datagram(1, &control(MD_ADD_RANGE, range_payload(50, 150)));
    let inner = Datagram::new(5, 1, vec![100], vec![42]);
    let encoded = donet::codec::encode_datagram(&inner);
    md.handle_datagram(1, &control(MD_ADD_POST_REMOVE, encoded));
    let fired = md.handle_disconnect(1);
    assert_eq!(fired.len(), 1);
    assert!(md.channels.subscribers_of(100).is_empty());
    assert!(md.ranges.matching(100).is_empty());
    // drained exactly once: a second teardown fires nothing
    let fired_again = md.handle_disconnect(1);
    assert!(fired_again.is_empty());
}

#[test]
fn post_remove_fires_as_if_sent_by_owner() {
    let mut md = MessageDirector::new(None);
    // connection 2 listens on channel 100; connection 1 registers a
    // post-remove addressed to [100]
    md.handle_datagram(2, &control(MD_ADD_CHANNEL, channel_payload(100)));
    let inner = Datagram::new(77, 1, vec![100], vec![1, 2, 3]);
    let encoded = donet::codec::encode_datagram(&inner);
    md.handle_datagram(1, &control(MD_ADD_POST_REMOVE, encoded));
    let fired = md.handle_disconnect(1);
    assert_eq!(fired.len(), 1);
    assert_eq!(fired[0].datagram.opcode, 77);
    assert_eq!(fired[0].datagram.sender, 1);
    assert_eq!(fired[0].datagram.recipients, vec![100]);
    assert_eq!(fired[0].datagram.payload, vec![1, 2, 3]);
    assert_eq!(fired[0].result.deliveries, vec![2]);
    assert!(!fired[0].result.forward_upstream);
}

#[test]
fn post_removes_fire_in_registration_order() {
    let mut md = MessageDirector::new(None);
    let first = donet::codec::encode_datagram(&Datagram::new(10, 1, vec![5], Vec::new()));
    let second = donet::codec::encode_datagram(&Datagram::new(11, 1, vec![5], Vec::new()));
    md.handle_datagram(1, &control(MD_ADD_POST_REMOVE, first));
    md.handle_datagram(1, &control(MD_ADD_POST_REMOVE, second));
    let fired = md.handle_disconnect(1);
    assert_eq!(fired.len(), 2);
    assert_eq!(fired[0].datagram.opcode, 10);
    assert_eq!(fired[1].datagram.opcode, 11);
}

#[test]
fn clear_post_removes_suppresses_firing() {
    let mut md = MessageDirector::new(None);
    md.handle_datagram(2, &control(MD_ADD_CHANNEL, channel_payload(100)));
    let inner = Datagram::new(77, 1, vec![100], vec![1]);
    let encoded = donet::codec::encode_datagram(&inner);
    md.handle_datagram(1, &control(MD_ADD_POST_REMOVE, encoded));
    md.handle_datagram(1, &control(MD_CLEAR_POST_REMOVES, Vec::new()));
    let fired = md.handle_disconnect(1);
    assert!(fired.is_empty());
}

#[test]
fn a_closing_connection_is_not_its_own_recipient() {
    let mut md = MessageDirector::new(None);
    // connection 1 subscribes to the very channel its post-remove targets
    md.handle_datagram(1, &control(MD_ADD_CHANNEL, channel_payload(100)));
    let inner = Datagram::new(77, 1, vec![100], Vec::new());
    let encoded = donet::codec::encode_datagram(&inner);
    md.handle_datagram(1, &control(MD_ADD_POST_REMOVE, encoded));
    let fired = md.handle_disconnect(1);
    assert_eq!(fired.len(), 1);
    assert!(fired[0].result.deliveries.is_empty());
}

#[test]
fn unresolved_recipient_forwards_upstream_once() {
    let mut md = MessageDirector::new(Some(99));
    let r = md.route(5, &Datagram::new(7, 3, vec![100], Vec::new()));
    assert!(r.deliveries.is_empty());
    assert!(r.forward_upstream);
}

#[test]
fn resolved_recipient_is_not_forwarded() {
    let mut md = MessageDirector::new(Some(99));
    md.handle_datagram(1, &control(MD_ADD_CHANNEL, channel_payload(100)));
    let r = md.route(5, &Datagram::new(7, 3, vec![100], Vec::new()));
    assert_eq!(r.deliveries, vec![1]);
    assert!(!r.forward_upstream);
}

#[test]
fn datagram_from_upstream_is_never_forwarded_back() {
    let mut md = MessageDirector::new(Some(99));
    let r = md.route(99, &Datagram::new(7, 3, vec![100], Vec::new()));
    assert!(r.deliveries.is_empty());
    assert!(!r.forward_upstream);
}

#[test]
fn upstream_link_may_subscribe_like_any_connection() {
    let mut md = MessageDirector::new(Some(99));
    md.handle_datagram(99, &control(MD_ADD_CHANNEL, channel_payload(100)));
    let r = md.route(5, &Datagram::new(7, 3, vec![100], Vec::new()));
    assert_eq!(r.deliveries, vec![99]);
    assert!(!r.forward_upstream);
}

#[test]
fn malformed_control_payload_is_dropped() {
    let mut md = MessageDirector::new(None);
    // a 7-byte payload is too short for a channel
    md.handle_datagram(1, &control(MD_ADD_CHANNEL, vec![0, 0, 0, 0, 0, 0, 0]));
    assert!(md.channels.subscribers_of(0).is_empty());
    // an unrecognized opcode with no recipients mutates nothing
    let r = md.handle_datagram(1, &control(4242, Vec::new()));
    assert!(r.deliveries.is_empty());
    assert!(!r.forward_upstream);
}

#[test]
fn control_messages_are_never_routed() {
    let mut md = MessageDirector::new(Some(99));
    let r = md.handle_datagram(1, &control(MD_ADD_CHANNEL, channel_payload(100)));
    assert!(r.deliveries.is_empty());
    assert!(!r.forward_upstream);
}
