use lanclip::clipboard::classify;
use lanclip::clipboard::CallbackResult;
use lanclip::clipboard::ClipboardHandler;
use lanclip::clipboard::ClipboardType;
use lanclip::clipboard::Flow;
use lanclip::clipboard::Master;
use lanclip::clipboard::Request;

struct Counting {
    seen: Vec<ClipboardType>,
    stop_after: usize,
}

impl ClipboardHandler for Counting {
    fn on_clipboard_change(&mut self, kind: ClipboardType) -> CallbackResult {
        self.seen.push(kind);
        if self.seen.len() >= self.stop_after {
            CallbackResult::Stop
        } else {
            CallbackResult::Next
        }
    }
}

struct Failing;

impl ClipboardHandler for Failing {
    fn on_clipboard_change(&mut self, _kind: ClipboardType) -> CallbackResult {
        CallbackResult::StopWithError(std::io::Error::new(std::io::ErrorKind::Other, "gone"))
    }

    fn sleep_interval(&self) -> std::time::Duration {
        std::time::Duration::from_millis(5)
    }
}

fn stops_within(master: &Master<Counting>, waits: usize) -> bool {
    for _ in 0..waits {
        if matches!(master.await_shutdown(), Flow::Stop) {
            return true;
        }
    }
    false
}

#[test]
fn image_goes_before_text() {
    assert_eq!(classify(true, true), ClipboardType::Image);
    assert_eq!(classify(true, false), ClipboardType::Image);
    assert_eq!(classify(false, true), ClipboardType::Text);
    assert_eq!(classify(false, false), ClipboardType::Unknown);
}

#[test]
fn default_sleep_interval_is_half_a_second() {
    let handler = Counting { seen: Vec::new(), stop_after: 1 };
    assert_eq!(handler.sleep_interval(), std::time::Duration::from_millis(500));
    assert_eq!(handler.sleep_interval().as_millis(), 500);
    assert_eq!(lanclip::clipboard::DEFAULT_SLEEP_MILLIS, 500);
}

#[test]
fn default_error_answer_stops_with_the_error() {
    let mut handler = Counting { seen: Vec::new(), stop_after: 1 };
    let error = std::io::Error::new(std::io::ErrorKind::NotFound, "no clipboard");
    match handler.on_clipboard_error(error) {
        CallbackResult::StopWithError(error) => {
            assert_eq!(error.kind(), std::io::ErrorKind::NotFound)
        }
        _ => panic!("the error was expected back"),
    }
}

#[test]
fn first_count_sets_the_baseline() {
    let mut master = Master::new(Counting { seen: Vec::new(), stop_after: 9 }).unwrap();
    assert!(!master.observe(41));
    assert!(!master.observe(41));
    assert!(master.observe(42));
    assert!(!master.observe(42));
    assert!(master.observe(-1));
}

#[test]
fn dispatch_follows_the_handler() {
    let mut master = Master::new(Counting { seen: Vec::new(), stop_after: 2 }).unwrap();
    assert!(matches!(master.dispatch(ClipboardType::Text), Flow::Continue));
    assert!(matches!(master.dispatch(ClipboardType::Image), Flow::Stop));
    assert_eq!(master.handler().seen, vec![ClipboardType::Text, ClipboardType::Image]);
}

#[test]
fn dispatch_hands_the_error_on() {
    let mut master = Master::new(Failing).unwrap();
    match master.dispatch(ClipboardType::Unknown) {
        Flow::Fail(error) => assert_eq!(error.to_string(), "gone"),
        _ => panic!("an error was expected"),
    }
}

#[test]
fn flow_of_each_answer_and_request() {
    assert!(matches!(Flow::from_answer(CallbackResult::Next), Flow::Continue));
    assert!(matches!(Flow::from_answer(CallbackResult::Stop), Flow::Stop));
    assert!(matches!(Flow::from_request(Request::Absent), Flow::Continue));
    assert!(matches!(Flow::from_request(Request::Received), Flow::Stop));
    assert!(matches!(Flow::from_request(Request::Disconnected), Flow::Stop));
}

#[test]
fn no_request_lets_the_watcher_go_on() {
    let master = Master::new(Failing).unwrap();
    assert!(matches!(master.poll_shutdown(), Flow::Continue));
    assert!(matches!(master.await_shutdown(), Flow::Continue));
}

#[test]
fn signal_stops_a_waiting_watcher() {
    let master = Master::new(Counting { seen: Vec::new(), stop_after: 1 }).unwrap();
    let shutdown = master.shutdown_channel();
    let runtime = tokio::runtime::Builder::new_multi_thread().worker_threads(1).build().unwrap();
    let signalled = runtime.spawn_blocking(move || shutdown.signal());
    assert!(stops_within(&master, 20));
    runtime.block_on(signalled).unwrap();
    assert!(matches!(master.poll_shutdown(), Flow::Continue));
}

#[test]
fn dropping_the_channel_requests_shutdown_too() {
    let master = Master::new(Counting { seen: Vec::new(), stop_after: 1 }).unwrap();
    let shutdown = master.shutdown_channel();
    let runtime = tokio::runtime::Builder::new_multi_thread().worker_threads(1).build().unwrap();
    let dropped = runtime.spawn_blocking(move || drop(shutdown));
    assert!(stops_within(&master, 20));
    runtime.block_on(dropped).unwrap();
}

#[test]
fn signal_without_a_watcher_returns() {
    let master = Master::new(Failing).unwrap();
    let shutdown = master.shutdown_channel();
    drop(master);
    shutdown.signal();
}
