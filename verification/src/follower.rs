//! Followers: the handle by which the hub addresses one connection.
//!
//! A follower owns the sending half of its connection's bounded outbound
//! queue and the receiving half of a one-shot cancellation signal. It
//! starts out working and stops for good once it observes that signal.

use crate::codec::Message;
use crate::codec::MessageView;
use vstd::prelude::*;

verus! {

/// The sending half of tokio's bounded multi-producer channel.
#[verifier::external_type_specification]
#[verifier::external_body]
#[verifier::reject_recursive_types(T)]
pub struct ExOutboundSender<T>(tokio::sync::mpsc::Sender<T>);

/// The receiving half of tokio's one-shot channel.
#[verifier::external_type_specification]
#[verifier::external_body]
#[verifier::reject_recursive_types(T)]
pub struct ExCancelReceiver<T>(tokio::sync::oneshot::Receiver<T>);

/// The error with which awaiting tokio's one-shot receiver ends when the
/// sender is gone; the receiver's type mentions it.
#[verifier::external_type_specification]
#[verifier::external_body]
pub struct ExCancelLost(tokio::sync::oneshot::error::RecvError);

/// Whether a follower still delivers.
#[derive(Clone, Copy, Debug, PartialEq, Eq, Structural)]
pub enum Status {
    Working,
    Stopped,
}

/// What polling the cancellation signal found.
#[derive(Clone, Copy, Debug, PartialEq, Eq, Structural)]
pub enum Signal {
    /// The signal was sent and is now consumed.
    Fired,
    /// Nothing was sent yet.
    Pending,
    /// The other half is gone, or the signal was consumed before.
    Gone,
}

/// What the outbound queue did with a message offered to it.
#[derive(Clone, Copy, Debug, PartialEq, Eq, Structural)]
pub enum Handoff {
    /// The queue took the message.
    Queued,
    /// The queue was at capacity.
    Full,
    /// The receiving half is closed.
    Closed,
}

/// What became of a message given to `Follower::send`.
#[derive(Clone, Copy, Debug, PartialEq, Eq, Structural)]
pub enum Delivery {
    /// The follower is stopped; nothing was offered to its queue.
    Stopped,
    /// The queue took the message.
    Queued,
    /// The queue was at capacity; the message is dropped.
    Full,
    /// The receiving half is closed; the message is dropped.
    Closed,
}

/// The status after a poll of the cancellation signal: a fired signal
/// stops the follower, and a stopped follower stays stopped.
pub open spec fn status_after(status: Status, signal: Signal) -> Status {
    if status == Status::Working && signal != Signal::Fired {
        Status::Working
    } else {
        Status::Stopped
    }
}

/// The delivery that a hand-off to the queue amounts to.
pub open spec fn delivery_of(handoff: Handoff) -> Delivery {
    match handoff {
        Handoff::Queued => Delivery::Queued,
        Handoff::Full => Delivery::Full,
        Handoff::Closed => Delivery::Closed,
    }
}

impl Status {
    /// The status that follows `self` once `signal` has been observed.
    pub fn after(self, signal: Signal) -> (next: Status)
        ensures
            next == status_after(self, signal),
    {
        match (self, signal) {
            (Status::Working, Signal::Pending) => Status::Working,
            (Status::Working, Signal::Gone) => Status::Working,
            _ => Status::Stopped,
        }
    }
}

impl Delivery {
    /// The delivery that `handoff` amounts to.
    pub fn from_handoff(handoff: Handoff) -> (delivery: Delivery)
        ensures
            delivery == delivery_of(handoff),
    {
        match handoff {
            Handoff::Queued => Delivery::Queued,
            Handoff::Full => Delivery::Full,
            Handoff::Closed => Delivery::Closed,
        }
    }
}

/// A follower as mathematical values.
pub struct FollowerView {
    /// The identifier by which a writer is excluded.
    pub id: Seq<char>,
    /// Whether the follower is working.
    pub working: bool,
    /// The messages that the outbound queue has taken from this follower,
    /// oldest first.
    pub outbox: Seq<MessageView>,
}

/// A follower after a `send` of `message` that ended in `delivery`: a
/// stopped delivery stops it, a queued one adds the message at the end of
/// its outbox, and nothing else changes.
pub open spec fn sent(before: FollowerView, message: MessageView, delivery: Delivery) -> FollowerView {
    FollowerView {
        id: before.id,
        working: before.working && delivery != Delivery::Stopped,
        outbox: if delivery == Delivery::Queued {
            before.outbox.push(message)
        } else {
            before.outbox
        },
    }
}

/// The per-connection delivery handle.
pub struct Follower {
    receiver: tokio::sync::oneshot::Receiver<()>,
    sender: tokio::sync::mpsc::Sender<Message>,
    state: Status,
    id: String,
    outbox: Ghost<Seq<MessageView>>,
}

impl View for Follower {
    type V = FollowerView;

    closed spec fn view(&self) -> FollowerView {
        FollowerView {
            id: self.id@,
            working: self.state == Status::Working,
            outbox: self.outbox@,
        }
    }
}

/// `Uuid::new_v4` of uuid, written out by its `Display`: a random
/// identifier in the hyphenated form, which is 36 characters long.
#[verifier::external_body]
fn fresh_id() -> (id: String)
    ensures
        id@.len() == 36,
{
    uuid::Uuid::new_v4().to_string()
}

/// `Receiver::try_recv` of tokio's one-shot channel: reports the signal
/// if it was sent, and otherwise whether it may still come.
#[verifier::external_body]
fn poll_cancel(receiver: &mut tokio::sync::oneshot::Receiver<()>) -> (signal: Signal) {
    match receiver.try_recv() {
        Ok(()) => Signal::Fired,
        Err(tokio::sync::oneshot::error::TryRecvError::Empty) => Signal::Pending,
        Err(tokio::sync::oneshot::error::TryRecvError::Closed) => Signal::Gone,
    }
}

/// `Sender::try_send` of tokio's bounded channel: offers the message to
/// the queue without waiting, and reports whether the queue took it.
#[verifier::external_body]
fn offer(sender: &tokio::sync::mpsc::Sender<Message>, message: Message) -> (handoff: Handoff) {
    match sender.try_send(message) {
        Ok(()) => Handoff::Queued,
        Err(tokio::sync::mpsc::error::TrySendError::Full(_)) => Handoff::Full,
        Err(tokio::sync::mpsc::error::TrySendError::Closed(_)) => Handoff::Closed,
    }
}

impl Follower {
    /// A working follower with a fresh identifier and an empty outbox,
    /// bound to the outbound queue `sender` and the cancellation signal
    /// `receiver`.
    pub fn new(
        sender: tokio::sync::mpsc::Sender<Message>,
        receiver: tokio::sync::oneshot::Receiver<()>,
    ) -> (follower: Self)
        ensures
            follower@.working,
            follower@.outbox == Seq::<MessageView>::empty(),
            follower@.id.len() == 36,
    {
        Follower { receiver, sender, state: Status::Working, id: fresh_id(), outbox: Ghost(Seq::empty()) }
    }

    /// Whether the follower is working.
    pub fn is_working(&self) -> (working: bool)
        ensures
            working == self@.working,
    {
        self.state == Status::Working
    }

    /// The follower's state.
    pub fn status(&self) -> (status: Status)
        ensures
            status == (if self@.working {
                Status::Working
            } else {
                Status::Stopped
            }),
    {
        self.state
    }

    /// The follower's identifier.
    pub fn id(&self) -> (id: &String)
        ensures
            id@ == self@.id,
    {
        &self.id
    }

    /// Offers `message` to the outbound queue unless the follower is
    /// stopped or its cancellation signal has fired.
    ///
    /// A stopped follower is left as it is and nothing is offered. A
    /// working follower polls its signal once: if it fired, the follower
    /// stops and nothing is offered; otherwise the message is offered
    /// once, without waiting, and dropped if the queue does not take it.
    pub fn send(&mut self, message: Message) -> (delivery: Delivery)
        ensures
            final(self)@ == sent(old(self)@, message@, delivery),
            !old(self)@.working ==> delivery == Delivery::Stopped,
    {
        if !self.is_working() {
            return Delivery::Stopped;
        }
        let signal = poll_cancel(&mut self.receiver);
        self.state = self.state.after(signal);
        if !self.is_working() {
            return Delivery::Stopped;
        }
        let ghost offered = message@;
        let handoff = offer(&self.sender, message);
        let delivery = Delivery::from_handoff(handoff);
        proof {
            if delivery == Delivery::Queued {
                self.outbox@ = self.outbox@.push(offered);
            }
        }
        delivery
    }
}

/// A follower goes from working to stopped and never back: whatever the
/// signal holds, a stopped follower stays stopped, a fired signal stops a
/// working one, and no send puts a stopped follower to work again.
pub proof fn lemma_stopped_is_final(
    signal: Signal,
    before: FollowerView,
    message: MessageView,
    delivery: Delivery,
)
    ensures
        status_after(Status::Stopped, signal) == Status::Stopped,
        status_after(Status::Working, Signal::Fired) == Status::Stopped,
        !before.working ==> !sent(before, message, delivery).working,
{
}

/// A send that ends in `Stopped` is a no-op on the outbox, and no send
/// takes anything out of an outbox or changes an identifier.
pub proof fn lemma_outbox_only_grows(before: FollowerView, message: MessageView, delivery: Delivery)
    ensures
        sent(before, message, Delivery::Stopped).outbox == before.outbox,
        before.outbox.is_prefix_of(sent(before, message, delivery).outbox),
        sent(before, message, delivery).id == before.id,
{
}

} // verus!
