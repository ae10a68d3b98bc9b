//! One connection's session: its follower, its inbound messages and its
//! end.

use crate::codec::decode;
use crate::codec::decoded;
use crate::codec::Content;
use crate::codec::ContentView;
use crate::codec::DecodeError;
use crate::codec::Message;
use crate::codec::MessageView;
use crate::follower::Follower;
use crate::guard::after_arm;
use crate::guard::EchoGuard;
use vstd::prelude::*;

verus! {

/// The sending half of tokio's one-shot channel.
#[verifier::external_type_specification]
#[verifier::external_body]
#[verifier::reject_recursive_types(T)]
pub struct ExCancelSender<T>(tokio::sync::oneshot::Sender<T>);

/// `oneshot::channel` of tokio: the two halves of a channel that carries
/// one signal.
#[verifier::external_body]
fn cancel_pair() -> (ends: (tokio::sync::oneshot::Sender<()>, tokio::sync::oneshot::Receiver<()>)) {
    tokio::sync::oneshot::channel()
}

/// `Sender::send` of tokio's one-shot channel: leaves the signal for the
/// receiver, or does nothing if the receiver is gone.
#[verifier::external_body]
fn fire(cancel: tokio::sync::oneshot::Sender<()>) {
    let _ = cancel.send(());
}

/// The slot of the echo guard after a message was taken in: armed where
/// the message carried content, untouched where it carried none.
pub open spec fn guard_after(slot: bool, message: MessageView) -> bool {
    if decoded(message) is Ok {
        after_arm(slot)
    } else {
        slot
    }
}

/// Takes in a message from a peer: decodes it and, where it carries
/// content, arms `guard`, so that the clipboard change which the write of
/// that content causes is not taken for a local one. The content is the
/// caller's to write. A message that carries nothing leaves the guard as
/// it was and gives nothing to write.
pub fn apply_inbound(message: Message, guard: &mut EchoGuard) -> (content: Result<
    Content,
    DecodeError,
>)
    ensures
        content is Ok <==> decoded(message@) is Ok,
        content is Ok ==> Ok::<ContentView, DecodeError>(content.unwrap()@) == decoded(message@),
        content is Err ==> Err::<ContentView, DecodeError>(content.unwrap_err()) == decoded(
            message@,
        ),
        final(guard)@ == guard_after(old(guard)@, message@),
{
    let content = decode(message);
    if content.is_ok() {
        guard.arm();
    }
    content
}

/// The session of one connection: the name under which its follower is
/// known to the hub, and the means to stop that follower.
pub struct Session {
    id: String,
    cancel: Option<tokio::sync::oneshot::Sender<()>>,
}

impl Session {
    /// The identifier of this session's follower.
    pub closed spec fn id_spec(&self) -> Seq<char> {
        self.id@
    }

    /// Whether the session has ended.
    pub closed spec fn is_closed_spec(&self) -> bool {
        self.cancel is None
    }

    /// Opens a session on the outbound queue of a connection: an open
    /// session and its follower, working, with an empty outbox and the
    /// identifier that the session records as writer.
    pub fn open(outbound: tokio::sync::mpsc::Sender<Message>) -> (pair: (Session, Follower))
        ensures
            !pair.0.is_closed_spec(),
            pair.0.id_spec() == pair.1@.id,
            pair.1@.working,
            pair.1@.outbox == Seq::<MessageView>::empty(),
    {
        let (cancel, cancelled) = cancel_pair();
        let follower = Follower::new(outbound, cancelled);
        let id = follower.id().clone();
        (Session { id, cancel: Some(cancel) }, follower)
    }

    /// The identifier of this session's follower.
    pub fn id(&self) -> (id: &String)
        ensures
            id@ == self.id_spec(),
    {
        &self.id
    }

    /// Whether the session has ended.
    pub fn is_closed(&self) -> (closed: bool)
        ensures
            closed == self.is_closed_spec(),
    {
        self.cancel.is_none()
    }

    /// Takes in a message that arrived on this session's connection, as
    /// `apply_inbound` does. Where content comes back, the caller writes
    /// it to the clipboard and names this session's follower to the hub
    /// as the last writer.
    pub fn on_message(&self, message: Message, guard: &mut EchoGuard) -> (content: Result<
        Content,
        DecodeError,
    >)
        ensures
            content is Ok <==> decoded(message@) is Ok,
            content is Ok ==> Ok::<ContentView, DecodeError>(content.unwrap()@) == decoded(
                message@,
            ),
            content is Err ==> Err::<ContentView, DecodeError>(content.unwrap_err()) == decoded(
                message@,
            ),
            final(guard)@ == guard_after(old(guard)@, message@),
    {
        apply_inbound(message, guard)
    }

    /// Ends the session: signals its follower to stop. Ending an ended
    /// session does nothing.
    pub fn close(&mut self)
        ensures
            final(self).is_closed_spec(),
            final(self).id_spec() == old(self).id_spec(),
    {
        match self.cancel.take() {
            Some(cancel) => fire(cancel),
            None => {},
        }
    }
}

/// A message of a kind that is not known carries nothing and leaves the
/// guard untouched.
pub proof fn lemma_unknown_kind_ignored(message: MessageView, slot: bool)
    requires
        message.kind != crate::codec::text_tag(),
        message.kind != crate::codec::image_tag(),
    ensures
        decoded(message) == Err::<ContentView, DecodeError>(DecodeError::UnknownType),
        guard_after(slot, message) == slot,
{
}

} // verus!
