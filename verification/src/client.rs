//! The client side of a connection: what it does with a change of its
//! own clipboard and with a message from the hub.

use crate::clipboard::CallbackResult;
use crate::clipboard::ClipboardType;
use crate::codec::decoded;
use crate::codec::Content;
use crate::codec::ContentView;
use crate::codec::DecodeError;
use crate::codec::Message;
use crate::guard::after_test;
use crate::guard::EchoGuard;
use crate::listener::Demand;
use crate::session::apply_inbound;
use crate::session::guard_after;
use vstd::prelude::*;
use vstd::string::StringExecFns;

verus! {

/// What is to be read from the clipboard for a local change of kind
/// `kind` that found the echo guard at `slot`: nothing where the guard
/// was armed, else the text or the image that the kind names.
pub open spec fn outbound_demand(slot: bool, kind: ClipboardType) -> Demand {
    if slot {
        Demand::Nothing
    } else {
        match kind {
            ClipboardType::Text => Demand::Text,
            ClipboardType::Image => Demand::Image,
            _ => Demand::Nothing,
        }
    }
}

/// A client of the hub at `host`.
pub struct ClipboardClient {
    host: String,
    guard: EchoGuard,
    connected: bool,
}

/// A client as mathematical values.
pub struct ClientView {
    /// The hub's address.
    pub host: Seq<char>,
    /// Whether the echo guard is armed.
    pub armed: bool,
    /// Whether the connection to the hub stands.
    pub connected: bool,
}

impl View for ClipboardClient {
    type V = ClientView;

    closed spec fn view(&self) -> ClientView {
        ClientView { host: self.host@, armed: self.guard@, connected: self.connected }
    }
}

impl ClipboardClient {
    /// A client for the hub at `host`: connected, its guard not armed.
    pub fn new(host: &str) -> (client: Self)
        ensures
            client@ == (ClientView { host: host@, armed: false, connected: true }),
    {
        ClipboardClient { host: host.to_owned(), guard: EchoGuard::new(), connected: true }
    }

    /// The hub's address.
    pub fn host(&self) -> (host: &String)
        ensures
            host@ == self@.host,
    {
        &self.host
    }

    /// The address to connect to: `http://` and the host.
    pub fn endpoint(&self) -> (url: String)
        ensures
            url@ == "http://"@ + self@.host,
    {
        let scheme: String = "http://".to_owned();
        scheme.concat(self.host.as_str())
    }

    /// Whether the connection to the hub stands.
    pub fn is_connected(&self) -> (connected: bool)
        ensures
            connected == self@.connected,
    {
        self.connected
    }

    /// Notes that the connection to the hub has ended.
    pub fn disconnect(&mut self)
        ensures
            final(self)@ == (ClientView { connected: false, ..old(self)@ }),
    {
        self.connected = false;
    }

    /// The answer to the watcher on a clipboard change: go on while the
    /// connection stands, stop once it has ended.
    pub fn on_clipboard_change(&self, kind: ClipboardType) -> (answer: CallbackResult)
        ensures
            self@.connected ==> answer is Next,
            !self@.connected ==> answer is Stop,
    {
        if self.connected {
            CallbackResult::Next
        } else {
            CallbackResult::Stop
        }
    }

    /// Takes a change of the local clipboard: tests and clears the echo
    /// guard, and says what is to be read and sent to the hub. The change
    /// that finds the guard armed is the echo of a write this client made
    /// and is swallowed.
    pub fn on_local_change(&mut self, kind: ClipboardType) -> (demand: Demand)
        ensures
            demand == outbound_demand(old(self)@.armed, kind),
            final(self)@ == (ClientView { armed: after_test(old(self)@.armed).1, ..old(self)@ }),
    {
        if self.guard.test_and_clear() {
            return Demand::Nothing;
        }
        match kind {
            ClipboardType::Text => Demand::Text,
            ClipboardType::Image => Demand::Image,
            _ => Demand::Nothing,
        }
    }

    /// Takes in a message from the hub: decodes it and, where it carries
    /// content, arms the echo guard. The content is the caller's to write
    /// to the clipboard.
    pub fn deal_message(&mut self, message: Message) -> (content: Result<Content, DecodeError>)
        ensures
            content is Ok <==> decoded(message@) is Ok,
            content is Ok ==> Ok::<ContentView, DecodeError>(content.unwrap()@) == decoded(
                message@,
            ),
            content is Err ==> Err::<ContentView, DecodeError>(content.unwrap_err()) == decoded(
                message@,
            ),
            final(self)@ == (ClientView {
                armed: guard_after(old(self)@.armed, message@),
                ..old(self)@
            }),
    {
        apply_inbound(message, &mut self.guard)
    }
}

} // verus!
