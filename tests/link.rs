use delay_link::{
    add_clamped, arrival_nanos, channel, channel_with, departure_nanos, transmission_delay_nanos,
    Envelope, LinkClosed, LinkConfig, ZeroBandwidth,
};
use std::time::{Duration, Instant};

const SEC: u128 = 1_000_000_000;

fn config(bandwidth: Option<u32>, latency: Option<Duration>) -> LinkConfig {
    LinkConfig { bandwidth, latency }
}

#[test]
fn transmission_delay_values() {
    assert_eq!(transmission_delay_nanos(None, 1_000_000), 0);
    assert_eq!(transmission_delay_nanos(Some(1000), 1000), SEC);
    assert_eq!(transmission_delay_nanos(Some(1000), 500), SEC / 2);
    assert_eq!(transmission_delay_nanos(Some(1000), 0), 0);
    // One byte at three bytes per second, rounded up to whole nanoseconds.
    assert_eq!(transmission_delay_nanos(Some(3), 1), 333_333_334);
    assert_eq!(
        transmission_delay_nanos(Some(1), usize::MAX),
        usize::MAX as u128 * SEC
    );
}

#[test]
fn departure_waits_for_free_medium() {
    assert_eq!(departure_nanos(10, 0, None, 99), 10);
    assert_eq!(departure_nanos(10, 50, None, 99), 50);
    assert_eq!(departure_nanos(10, 50, Some(1000), 1000), 50 + SEC);
    assert_eq!(departure_nanos(u128::MAX - 1, 0, Some(1), 5), u128::MAX);
}

#[test]
fn arrival_adds_latency() {
    assert_eq!(arrival_nanos(7, None), 7);
    assert_eq!(arrival_nanos(7, Some(3)), 10);
    assert_eq!(arrival_nanos(u128::MAX, Some(3)), u128::MAX);
    assert_eq!(add_clamped(u128::MAX, 1), u128::MAX);
    assert_eq!(add_clamped(2, 3), 5);
}

#[test]
fn new_link_is_unconfigured() {
    let (tx, rx) = channel::<u8>();
    assert_eq!(tx.bandwidth(), None);
    assert_eq!(tx.next_free_time(), 0);
    assert_eq!(rx.latency(), None);
}

#[test]
fn configured_link_takes_settings() {
    let (tx, rx) = channel_with::<u8>(config(Some(1000), Some(Duration::from_millis(100))))
        .unwrap();
    assert_eq!(tx.bandwidth(), Some(1000));
    assert_eq!(tx.next_free_time(), 0);
    assert_eq!(rx.latency(), Some(100_000_000));
}

#[test]
fn zero_bandwidth_is_refused() {
    assert!(matches!(
        channel_with::<u8>(config(Some(0), None)),
        Err(ZeroBandwidth)
    ));
    let (mut tx, _rx) = channel::<u8>();
    assert_eq!(tx.set_bandwidth(0), Err(ZeroBandwidth));
    assert_eq!(tx.bandwidth(), None);
    assert_eq!(tx.set_bandwidth(5), Ok(()));
    assert_eq!(tx.set_bandwidth(0), Err(ZeroBandwidth));
    assert_eq!(tx.bandwidth(), Some(5));
}

#[test]
fn latency_setting_in_nanoseconds() {
    let (_tx, mut rx) = channel::<u8>();
    rx.set_latency(Duration::from_millis(100));
    assert_eq!(rx.latency(), Some(100_000_000));
    rx.set_latency(Duration::new(2, 5));
    assert_eq!(rx.latency(), Some(2 * SEC + 5));
    assert_eq!(rx.arrival_time(SEC), 3 * SEC + 5);
}

#[test]
fn scenario_a_schedule() {
    let (mut tx, rx) = channel_with::<Vec<u8>>(config(Some(1000), Some(Duration::from_millis(100))))
        .unwrap();
    assert_eq!(tx.departure_time(0, 1000), SEC);
    assert_eq!(tx.send_at(0, 1000, vec![0u8; 1000]), Ok(()));
    assert_eq!(tx.next_free_time(), SEC);
    assert_eq!(rx.arrival_time(tx.next_free_time()), 1_100_000_000);
}

#[test]
fn scenario_a_timing() {
    let (mut tx, rx) = channel_with::<Vec<u8>>(config(Some(1000), Some(Duration::from_millis(100))))
        .unwrap();
    let start = Instant::now();
    assert_eq!(tx.send(1000, vec![7u8; 1000]), Ok(()));
    let got = rx.recv_blocking().unwrap();
    let elapsed = start.elapsed();
    assert_eq!(got.len(), 1000);
    assert!(elapsed >= Duration::from_millis(1100));
    assert!(elapsed < Duration::from_secs(5));
}

#[test]
fn scenario_b_schedule() {
    let (mut tx, _rx) = channel_with::<u32>(config(Some(1000), None)).unwrap();
    assert_eq!(tx.send_at(0, 500, 1), Ok(()));
    assert_eq!(tx.next_free_time(), SEC / 2);
    assert_eq!(tx.send_at(0, 500, 2), Ok(()));
    assert_eq!(tx.next_free_time(), SEC);
}

#[test]
fn scenario_b_timing() {
    let (mut tx, rx) = channel_with::<u32>(config(Some(1000), None)).unwrap();
    let start = Instant::now();
    assert_eq!(tx.send(500, 1), Ok(()));
    assert_eq!(tx.send(500, 2), Ok(()));
    assert_eq!(rx.recv_blocking(), Ok(1));
    let first = start.elapsed();
    assert_eq!(rx.recv_blocking(), Ok(2));
    let second = start.elapsed();
    assert!(first >= Duration::from_millis(500) && first < second);
    assert!(second >= Duration::from_millis(1000) && second < Duration::from_secs(5));
}

#[test]
fn unconfigured_link_is_immediate() {
    let (mut tx, rx) = channel::<&str>();
    let start = Instant::now();
    assert_eq!(tx.send(1_000_000, "hello"), Ok(()));
    assert_eq!(rx.recv_blocking(), Ok("hello"));
    assert!(start.elapsed() < Duration::from_secs(2));
}

#[test]
fn delays_add_up_in_time() {
    let (mut tx, rx) = channel_with::<u8>(config(Some(10_000), Some(Duration::from_millis(50))))
        .unwrap();
    let start = Instant::now();
    assert_eq!(tx.send(1000, 1), Ok(()));
    assert_eq!(rx.recv_blocking(), Ok(1));
    assert!(start.elapsed() >= Duration::from_millis(150));
}

#[test]
fn payloads_arrive_in_send_order() {
    let (mut tx, rx) = channel::<u32>();
    tx.set_bandwidth(1_000_000_000).unwrap();
    for i in 0..200u32 {
        assert_eq!(tx.send((i % 7) as usize, i), Ok(()));
    }
    for i in 0..200u32 {
        assert_eq!(rx.recv_blocking(), Ok(i));
    }
}

#[test]
fn back_to_back_sends_serialize() {
    let (mut tx, _rx) = channel_with::<u8>(config(Some(1000), None)).unwrap();
    assert_eq!(tx.send_at(0, 300, 1), Ok(()));
    let first = tx.next_free_time();
    assert_eq!(tx.send_at(0, 200, 2), Ok(()));
    let second = tx.next_free_time();
    assert_eq!(first, 300_000_000);
    assert_eq!(second - first, 200_000_000);
    // A send when the medium has long been free starts at the clock reading.
    assert_eq!(tx.send_at(5 * SEC, 100, 3), Ok(()));
    assert_eq!(tx.next_free_time(), 5 * SEC + 100_000_000);
}

#[test]
fn bandwidth_change_affects_only_later_sends() {
    let (mut tx, rx) = channel_with::<u8>(config(Some(1000), None)).unwrap();
    assert_eq!(tx.send_at(0, 1000, 1), Ok(()));
    assert_eq!(tx.next_free_time(), SEC);
    tx.set_bandwidth(2000).unwrap();
    assert_eq!(tx.next_free_time(), SEC);
    assert_eq!(tx.send_at(0, 1000, 2), Ok(()));
    assert_eq!(tx.next_free_time(), SEC + SEC / 2);
    drop(rx);
}

#[test]
fn latency_change_affects_only_later_deliveries() {
    let (_tx, mut rx) = channel::<u8>();
    let before = rx.deliver(Some(Envelope { departure: 100, payload: 1 })).unwrap();
    rx.set_latency(Duration::from_nanos(40));
    let after = rx.deliver(Some(Envelope { departure: 100, payload: 2 })).unwrap();
    assert_eq!((before.arrival, before.payload), (100, 1));
    assert_eq!((after.arrival, after.payload), (140, 2));
}

#[test]
fn deliver_reports_closed_queue() {
    let (_tx, rx) = channel::<u8>();
    assert!(matches!(rx.deliver(None), Err(LinkClosed)));
}

#[test]
fn send_fails_after_receiver_dropped() {
    let (mut tx, rx) = channel_with::<u8>(config(Some(1000), None)).unwrap();
    assert_eq!(tx.send_at(0, 100, 1), Ok(()));
    drop(rx);
    assert_eq!(tx.send_at(0, 100, 2), Err(LinkClosed));
    assert_eq!(tx.next_free_time(), 100_000_000);
    assert_eq!(tx.send(100, 3), Err(LinkClosed));
    assert_eq!(tx.next_free_time(), 100_000_000);
}

#[test]
fn recv_fails_after_sender_dropped_and_drained() {
    let (mut tx, rx) = channel::<u8>();
    assert_eq!(tx.send(1, 9), Ok(()));
    drop(tx);
    assert_eq!(rx.recv_blocking(), Ok(9));
    assert_eq!(rx.recv_blocking(), Err(LinkClosed));
}

#[test]
fn due_instant_range() {
    let (_tx, rx) = channel::<u8>();
    assert!(rx.due_instant(SEC).is_some());
    assert!(rx.due_instant(u128::MAX).is_none());
}

#[test]
fn due_instants_are_offsets_from_creation() {
    let (_tx, rx) = channel::<u8>();
    let one = rx.due_instant(SEC).unwrap();
    let later = rx.due_instant(3 * SEC + 5).unwrap();
    assert_eq!(later - one, Duration::new(2, 5));
    let start = rx.due_instant(0).unwrap();
    assert_eq!(one - start, Duration::from_secs(1));
}
