use lanclip::codec::encode_text;
use lanclip::codec::Message;
use lanclip::follower::Delivery;
use lanclip::follower::Follower;
use lanclip::follower::Handoff;
use lanclip::follower::Signal;
use lanclip::follower::Status;

#[test]
fn new_follower_works_and_has_an_id() {
    let (tx, _rx) = tokio::sync::mpsc::channel::<Message>(4);
    let (_stop, stopped) = tokio::sync::oneshot::channel::<()>();
    let follower = Follower::new(tx, stopped);
    assert!(follower.is_working());
    assert_eq!(follower.status(), Status::Working);
    assert_eq!(follower.id().len(), 36);
    assert_eq!(follower.id().chars().filter(|c| *c == '-').count(), 4);
}

#[test]
fn followers_have_different_ids() {
    let (tx, _rx) = tokio::sync::mpsc::channel::<Message>(4);
    let (_stop_a, stopped_a) = tokio::sync::oneshot::channel::<()>();
    let (_stop_b, stopped_b) = tokio::sync::oneshot::channel::<()>();
    let a = Follower::new(tx.clone(), stopped_a);
    let b = Follower::new(tx, stopped_b);
    assert_ne!(a.id(), b.id());
}

#[test]
fn send_queues_in_order() {
    let (tx, mut rx) = tokio::sync::mpsc::channel::<Message>(4);
    let (_stop, stopped) = tokio::sync::oneshot::channel::<()>();
    let mut follower = Follower::new(tx, stopped);
    assert_eq!(follower.send(encode_text("one")), Delivery::Queued);
    assert_eq!(follower.send(encode_text("two")), Delivery::Queued);
    assert!(follower.is_working());
    assert_eq!(rx.try_recv().unwrap().body, b"one".to_vec());
    assert_eq!(rx.try_recv().unwrap().body, b"two".to_vec());
    assert!(rx.try_recv().is_err());
}

#[test]
fn send_drops_on_a_full_queue() {
    let (tx, mut rx) = tokio::sync::mpsc::channel::<Message>(1);
    let (_stop, stopped) = tokio::sync::oneshot::channel::<()>();
    let mut follower = Follower::new(tx, stopped);
    assert_eq!(follower.send(encode_text("kept")), Delivery::Queued);
    assert_eq!(follower.send(encode_text("dropped")), Delivery::Full);
    assert!(follower.is_working());
    assert_eq!(rx.try_recv().unwrap().body, b"kept".to_vec());
    assert!(rx.try_recv().is_err());
    assert_eq!(follower.send(encode_text("next")), Delivery::Queued);
}

#[test]
fn send_drops_on_a_closed_queue() {
    let (tx, rx) = tokio::sync::mpsc::channel::<Message>(1);
    let (_stop, stopped) = tokio::sync::oneshot::channel::<()>();
    let mut follower = Follower::new(tx, stopped);
    drop(rx);
    assert_eq!(follower.send(encode_text("lost")), Delivery::Closed);
    assert!(follower.is_working());
}

#[test]
fn fired_signal_stops_the_follower() {
    let (tx, mut rx) = tokio::sync::mpsc::channel::<Message>(4);
    let (stop, stopped) = tokio::sync::oneshot::channel::<()>();
    let mut follower = Follower::new(tx, stopped);
    stop.send(()).unwrap();
    assert!(follower.is_working());
    assert_eq!(follower.send(encode_text("late")), Delivery::Stopped);
    assert!(!follower.is_working());
    assert_eq!(follower.status(), Status::Stopped);
    assert!(rx.try_recv().is_err());
}

#[test]
fn stopped_follower_stays_stopped() {
    let (tx, mut rx) = tokio::sync::mpsc::channel::<Message>(4);
    let (stop, stopped) = tokio::sync::oneshot::channel::<()>();
    let mut follower = Follower::new(tx, stopped);
    let id = follower.id().clone();
    stop.send(()).unwrap();
    assert_eq!(follower.send(encode_text("first")), Delivery::Stopped);
    assert_eq!(follower.send(encode_text("second")), Delivery::Stopped);
    assert!(!follower.is_working());
    assert_eq!(*follower.id(), id);
    assert!(rx.try_recv().is_err());
}

#[test]
fn dropped_signal_sender_does_not_stop() {
    let (tx, mut rx) = tokio::sync::mpsc::channel::<Message>(4);
    let (stop, stopped) = tokio::sync::oneshot::channel::<()>();
    let mut follower = Follower::new(tx, stopped);
    drop(stop);
    assert_eq!(follower.send(encode_text("still")), Delivery::Queued);
    assert!(follower.is_working());
    assert_eq!(rx.try_recv().unwrap().body, b"still".to_vec());
}

#[test]
fn status_after_each_signal() {
    assert_eq!(Status::Working.after(Signal::Pending), Status::Working);
    assert_eq!(Status::Working.after(Signal::Gone), Status::Working);
    assert_eq!(Status::Working.after(Signal::Fired), Status::Stopped);
    assert_eq!(Status::Stopped.after(Signal::Pending), Status::Stopped);
    assert_eq!(Status::Stopped.after(Signal::Gone), Status::Stopped);
    assert_eq!(Status::Stopped.after(Signal::Fired), Status::Stopped);
}

#[test]
fn delivery_of_each_handoff() {
    assert_eq!(Delivery::from_handoff(Handoff::Queued), Delivery::Queued);
    assert_eq!(Delivery::from_handoff(Handoff::Full), Delivery::Full);
    assert_eq!(Delivery::from_handoff(Handoff::Closed), Delivery::Closed);
}
