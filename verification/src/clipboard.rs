//! The clipboard watcher: what it reports, what a handler may answer, and
//! the decisions of the polling loop that drives a handler.

use vstd::prelude::*;

verus! {

/// An I/O error of std, carried through as it is.
#[verifier::external_type_specification]
#[verifier::external_body]
pub struct ExIoError(std::io::Error);

/// The sending half of std's bounded channel.
#[verifier::external_type_specification]
#[verifier::external_body]
#[verifier::reject_recursive_types(T)]
pub struct ExSyncSender<T>(std::sync::mpsc::SyncSender<T>);

/// The receiving half of std's channels.
#[verifier::external_type_specification]
#[verifier::external_body]
#[verifier::reject_recursive_types(T)]
pub struct ExReceiver<T>(std::sync::mpsc::Receiver<T>);

/// The coarse kind of what the clipboard holds after a change.
#[derive(Clone, Copy, Debug, PartialEq, Eq, Structural)]
pub enum ClipboardType {
    Image,
    Text,
    File,
    Unknown,
}

/// What a handler answers to the watcher.
pub enum CallbackResult {
    /// Wait for the next clipboard change.
    Next,
    /// Stop watching.
    Stop,
    /// Stop watching and hand this error to whoever runs the watcher.
    StopWithError(std::io::Error),
}

/// What a look at the shutdown channel found.
#[derive(Clone, Copy, Debug, PartialEq, Eq, Structural)]
pub enum Request {
    /// A shutdown request arrived.
    Received,
    /// No request is there.
    Absent,
    /// Nobody is left who could request anything.
    Disconnected,
}

/// How the watcher's loop goes on.
pub enum Flow {
    /// Look at the clipboard again.
    Continue,
    /// Leave the loop; watching ends well.
    Stop,
    /// Leave the loop; watching ends with this error.
    Fail(std::io::Error),
}

/// How the loop goes on after a handler's answer.
pub open spec fn flow_of(answer: CallbackResult) -> Flow {
    match answer {
        CallbackResult::Next => Flow::Continue,
        CallbackResult::Stop => Flow::Stop,
        CallbackResult::StopWithError(error) => Flow::Fail(error),
    }
}

/// Whether a look at the shutdown channel ends the loop: a request does,
/// and so does a channel with no sender left.
pub open spec fn ends_watch(request: Request) -> bool {
    request != Request::Absent
}

/// The kind that the watcher reports for a clipboard whose first item
/// offers an image, a text, both or neither: an image goes before a text.
pub open spec fn kind_of(has_image: bool, has_text: bool) -> ClipboardType {
    if has_image {
        ClipboardType::Image
    } else if has_text {
        ClipboardType::Text
    } else {
        ClipboardType::Unknown
    }
}

/// Whether a change count tells of a change: it does once a count was
/// seen before and differs from it.
pub open spec fn is_change(seen: Option<isize>, count: isize) -> bool {
    seen is Some && seen != Some(count)
}

impl Flow {
    /// How the loop goes on after `answer`.
    pub fn from_answer(answer: CallbackResult) -> (flow: Flow)
        ensures
            flow == flow_of(answer),
    {
        match answer {
            CallbackResult::Next => Flow::Continue,
            CallbackResult::Stop => Flow::Stop,
            CallbackResult::StopWithError(error) => Flow::Fail(error),
        }
    }

    /// How the loop goes on after a look at the shutdown channel that
    /// found `request`.
    pub fn from_request(request: Request) -> (flow: Flow)
        ensures
            flow == (if ends_watch(request) {
                Flow::Stop
            } else {
                Flow::Continue
            }),
    {
        match request {
            Request::Absent => Flow::Continue,
            _ => Flow::Stop,
        }
    }
}

/// The kind to report for a clipboard whose first item offers an image
/// (`has_image`) or a text (`has_text`).
pub fn classify(has_image: bool, has_text: bool) -> (kind: ClipboardType)
    ensures
        kind == kind_of(has_image, has_text),
{
    if has_image {
        ClipboardType::Image
    } else if has_text {
        ClipboardType::Text
    } else {
        ClipboardType::Unknown
    }
}

/// Receives the watcher's notifications.
pub trait ClipboardHandler {
    /// Called on each clipboard change.
    fn on_clipboard_change(&mut self, kind: ClipboardType) -> CallbackResult;

    /// Called when the watcher itself meets an error. Unless a handler
    /// decides otherwise, the error stops the watcher and is handed on.
    fn on_clipboard_error(&mut self, error: std::io::Error) -> (answer: CallbackResult)
        default_ensures
            answer == CallbackResult::StopWithError(error),
    {
        CallbackResult::StopWithError(error)
    }

    /// How long a polling watcher sleeps between two looks at the
    /// clipboard: half a second unless a handler decides otherwise.
    fn sleep_interval(&self) -> (span: core::time::Duration)
        default_ensures
            span == span_of_millis(DEFAULT_SLEEP_MILLIS),
    {
        core::time::Duration::from_millis(DEFAULT_SLEEP_MILLIS)
    }
}

/// Milliseconds that a watcher sleeps between two looks at the clipboard
/// where its handler names no other interval.
pub const DEFAULT_SLEEP_MILLIS: u64 = 500;

/// The span of time that is `millis` milliseconds long, as
/// `Duration::from_millis` of std makes it.
pub uninterp spec fn span_of_millis(millis: u64) -> core::time::Duration;

/// `Duration::from_millis` of std: the span of that many milliseconds,
/// the same for the same number.
pub assume_specification[ core::time::Duration::from_millis ](millis: u64) -> (span:
    core::time::Duration)
    ensures
        span == span_of_millis(millis),
;

/// `sync_channel` of std with capacity 0: a channel on which each send
/// waits for its receive.
#[verifier::external_body]
fn rendezvous() -> (ends: (std::sync::mpsc::SyncSender<()>, std::sync::mpsc::Receiver<()>)) {
    std::sync::mpsc::sync_channel(0)
}

/// `SyncSender::clone` of std: one more sender into the same channel.
#[verifier::external_body]
fn another(sender: &std::sync::mpsc::SyncSender<()>) -> (copy: std::sync::mpsc::SyncSender<()>) {
    sender.clone()
}

/// `SyncSender::send` of std: hands the unit over, waiting for the
/// receiver to take it, and gives up if the receiver is gone.
#[verifier::external_body]
fn notify(sender: &std::sync::mpsc::SyncSender<()>)
    opens_invariants none
    no_unwind
{
    let _ = sender.send(());
}

/// `Receiver::try_recv` of std: whether a shutdown request is waiting
/// right now, or every sender is gone.
#[verifier::external_body]
fn poll_request(receiver: &std::sync::mpsc::Receiver<()>) -> (request: Request) {
    match receiver.try_recv() {
        Ok(()) => Request::Received,
        Err(std::sync::mpsc::TryRecvError::Empty) => Request::Absent,
        Err(std::sync::mpsc::TryRecvError::Disconnected) => Request::Disconnected,
    }
}

/// `Receiver::recv_timeout` of std: waits for a shutdown request, no
/// longer than `timeout`.
#[verifier::external_body]
fn await_request(
    receiver: &std::sync::mpsc::Receiver<()>,
    timeout: core::time::Duration,
) -> (request: Request) {
    match receiver.recv_timeout(timeout) {
        Ok(()) => Request::Received,
        Err(std::sync::mpsc::RecvTimeoutError::Timeout) => Request::Absent,
        Err(std::sync::mpsc::RecvTimeoutError::Disconnected) => Request::Disconnected,
    }
}

/// Requests the watcher to stop, when signalled or dropped.
pub struct Shutdown {
    sender: std::sync::mpsc::SyncSender<()>,
}

impl Drop for Shutdown {
    fn drop(&mut self)
        opens_invariants none
        no_unwind
    {
        notify(&self.sender);
    }
}

impl Shutdown {
    /// Signals shutdown.
    pub fn signal(self) {
    }
}

/// The clipboard watcher's state: the handler it drives, the change count
/// it saw last, and the channel on which it is asked to stop.
///
/// Whoever owns the platform's clipboard runs the loop: it reads the change
/// count and hands it to `observe`; where nothing changed it waits with
/// `await_shutdown`; where something changed it looks at the clipboard,
/// hands the kind to `dispatch`, and then asks `poll_shutdown`.
pub struct Master<H> {
    handler: H,
    sender: std::sync::mpsc::SyncSender<()>,
    recv: std::sync::mpsc::Receiver<()>,
    seen: Option<isize>,
}

impl<H: ClipboardHandler> Master<H> {
    /// The handler that this watcher drives.
    pub closed spec fn handler_spec(&self) -> H {
        self.handler
    }

    /// The change count seen last, if any was.
    pub closed spec fn seen(&self) -> Option<isize> {
        self.seen
    }

    /// Creates a watcher around `handler` that has seen no change count.
    pub fn new(handler: H) -> (master: Result<Self, std::io::Error>)
        ensures
            master is Ok,
            master.unwrap().handler_spec() == handler,
            master.unwrap().seen() is None,
    {
        let (sender, recv) = rendezvous();
        Ok(Master { handler, sender, recv, seen: None })
    }

    /// Creates a shutdown channel into this watcher.
    pub fn shutdown_channel(&self) -> (shutdown: Shutdown) {
        Shutdown { sender: another(&self.sender) }
    }

    /// The handler that this watcher drives.
    pub fn handler(&self) -> (handler: &H)
        ensures
            *handler == self.handler_spec(),
    {
        &self.handler
    }

    /// Takes note of the clipboard's change count and tells whether it
    /// differs from the one seen before. The first count only sets the
    /// baseline.
    pub fn observe(&mut self, count: isize) -> (changed: bool)
        ensures
            changed == is_change(old(self).seen(), count),
            final(self).seen() == Some(count),
            final(self).handler_spec() == old(self).handler_spec(),
    {
        let changed = match self.seen {
            Some(before) => before != count,
            None => false,
        };
        self.seen = Some(count);
        changed
    }

    /// Hands a change of kind `kind` to the handler and says how the loop
    /// goes on after the handler's answer.
    pub fn dispatch(&mut self, kind: ClipboardType) -> (flow: Flow)
        ensures
            final(self).seen() == old(self).seen(),
    {
        let answer = self.handler.on_clipboard_change(kind);
        Flow::from_answer(answer)
    }

    /// Looks for a shutdown request without waiting.
    pub fn poll_shutdown(&self) -> (flow: Flow)
        ensures
            flow is Continue || flow is Stop,
    {
        Flow::from_request(poll_request(&self.recv))
    }

    /// Waits for a shutdown request, for as long as the handler's sleep
    /// interval.
    pub fn await_shutdown(&self) -> (flow: Flow)
        ensures
            flow is Continue || flow is Stop,
    {
        Flow::from_request(await_request(&self.recv, self.handler.sleep_interval()))
    }
}

} // verus!
