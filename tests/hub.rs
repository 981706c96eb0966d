use std::time::{Duration, Instant};

use conmon_attach::frame::Pipe;
use conmon_attach::error::AttachError;
use conmon_attach::hub::{send_outcome, SharedContainerAttach};
use tokio::sync::broadcast::error::TryRecvError;

#[test]
fn write_without_clients_succeeds_at_once() {
    let mut hub = SharedContainerAttach::default();
    let start = Instant::now();
    for _ in 0..100 {
        assert!(hub.write(Pipe::StdOut, b"out".to_vec()).is_ok());
    }
    assert!(start.elapsed() < Duration::from_secs(1));
}

#[test]
fn every_subscriber_gets_every_later_write() {
    let mut hub = SharedContainerAttach::default();
    hub.write(Pipe::StdOut, b"before".to_vec()).unwrap();
    let mut a = hub.subscribe_outbound();
    let mut b = hub.subscribe_outbound();
    hub.write(Pipe::StdOut, b"one".to_vec()).unwrap();
    hub.write(Pipe::StdErr, b"two".to_vec()).unwrap();
    for rx in [&mut a, &mut b] {
        assert_eq!(rx.try_recv().unwrap(), (Pipe::StdOut, b"one".to_vec()));
        assert_eq!(rx.try_recv().unwrap(), (Pipe::StdErr, b"two".to_vec()));
        assert!(matches!(rx.try_recv(), Err(TryRecvError::Empty)));
    }
    let mut late = hub.subscribe_outbound();
    assert!(matches!(late.try_recv(), Err(TryRecvError::Empty)));
}

#[test]
fn published_input_reaches_hub_and_clones() {
    let mut hub = SharedContainerAttach::default();
    let mut other = hub.clone();
    let mut publisher = hub.inbound_publisher();
    publisher.publish(b"input".to_vec()).unwrap();
    assert_eq!(hub.inbound().try_recv().unwrap(), b"input".to_vec());
    assert_eq!(other.inbound().try_recv().unwrap(), b"input".to_vec());
}

#[test]
fn send_with_receivers_but_none_left_fails() {
    let mut hub = SharedContainerAttach::default();
    assert!(hub.send_to_subscribers(0, Pipe::StdOut, b"x".to_vec()).is_ok());
    assert_eq!(
        hub.send_to_subscribers(1, Pipe::StdOut, b"x".to_vec()),
        Err(AttachError::SendFailed)
    );
    let mut rx = hub.subscribe_outbound();
    assert!(hub.send_to_subscribers(1, Pipe::StdErr, b"y".to_vec()).is_ok());
    assert_eq!(rx.try_recv().unwrap(), (Pipe::StdErr, b"y".to_vec()));
}

#[test]
fn publish_without_reader_fails() {
    let hub = SharedContainerAttach::default();
    let mut publisher = hub.inbound_publisher();
    drop(hub);
    assert_eq!(publisher.publish(b"lost".to_vec()), Err(AttachError::PublishFailed));
}

#[test]
fn send_outcome_maps_each_result() {
    assert_eq!(send_outcome::<u8>(Ok(2), AttachError::SendFailed), Ok(()));
    assert_eq!(send_outcome(Err(7u8), AttachError::PublishFailed), Err(AttachError::PublishFailed));
}

#[test]
fn clone_writes_to_the_same_clients() {
    let hub = SharedContainerAttach::default();
    let mut rx = hub.subscribe_outbound();
    let mut other = hub.clone();
    other.write(Pipe::StdErr, b"from clone".to_vec()).unwrap();
    assert_eq!(rx.try_recv().unwrap(), (Pipe::StdErr, b"from clone".to_vec()));
    let mut rx2 = other.subscribe_outbound();
    let mut first = hub;
    first.write(Pipe::StdOut, b"from first".to_vec()).unwrap();
    assert_eq!(rx2.try_recv().unwrap(), (Pipe::StdOut, b"from first".to_vec()));
}
