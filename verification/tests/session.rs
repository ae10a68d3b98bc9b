use lanclip::client::ClipboardClient;
use lanclip::clipboard::CallbackResult;
use lanclip::clipboard::ClipboardType;
use lanclip::codec::encode_image;
use lanclip::codec::encode_text;
use lanclip::codec::Content;
use lanclip::codec::DecodeError;
use lanclip::codec::Message;
use lanclip::guard::EchoGuard;
use lanclip::listener::ClipboardListener;
use lanclip::listener::Demand;
use lanclip::session::apply_inbound;
use lanclip::session::Session;

#[test]
fn inbound_text_arms_the_guard() {
    let mut guard = EchoGuard::new();
    match apply_inbound(encode_text("hi"), &mut guard) {
        Ok(Content::Text(text)) => assert_eq!(text, "hi"),
        _ => panic!("a text was expected"),
    }
    assert!(guard.is_armed());
}

#[test]
fn inbound_image_arms_the_guard() {
    let mut guard = EchoGuard::new();
    let message = encode_image(1, 1, &[1, 2, 3, 4]).unwrap();
    match apply_inbound(message, &mut guard) {
        Ok(Content::Image { width, height, pixels }) => {
            assert_eq!((width, height), (1, 1));
            assert_eq!(pixels, vec![1u8, 2, 3, 4]);
        }
        _ => panic!("an image was expected"),
    }
    assert!(guard.is_armed());
}

#[test]
fn file_message_changes_nothing() {
    let (tx_a, mut rx_a) = tokio::sync::mpsc::channel::<Message>(4);
    let (tx_b, mut rx_b) = tokio::sync::mpsc::channel::<Message>(4);
    let (session_a, a) = Session::open(tx_a);
    let (_session_b, b) = Session::open(tx_b);
    let mut guard = EchoGuard::new();
    let mut hub = ClipboardListener::new();
    hub.register(a);
    hub.register(b);
    hub.on_clipboard_change(ClipboardType::Unknown);

    let message = Message { kind: "file".to_string(), body: b"/tmp/x".to_vec() };
    assert!(matches!(session_a.on_message(message, &mut guard), Err(DecodeError::UnknownType)));
    let message = Message { kind: "video".to_string(), body: Vec::new() };
    assert!(matches!(session_a.on_message(message, &mut guard), Err(DecodeError::UnknownType)));
    assert!(!guard.is_armed());
    assert!(!hub.has_last_writer());
    assert!(rx_a.try_recv().is_err());
    assert!(rx_b.try_recv().is_err());
}

#[test]
fn undecodable_message_leaves_an_armed_guard_armed() {
    let mut guard = EchoGuard::new();
    guard.arm();
    let message = Message { kind: "text".to_string(), body: vec![0xc0] };
    assert!(matches!(apply_inbound(message, &mut guard), Err(DecodeError::InvalidText)));
    assert!(guard.is_armed());
    let mut guard = EchoGuard::new();
    let message = Message { kind: "image".to_string(), body: vec![1, 2, 3] };
    assert!(matches!(apply_inbound(message, &mut guard), Err(DecodeError::ShortImage)));
    assert!(!guard.is_armed());
}

#[test]
fn session_and_follower_share_the_id() {
    let (tx, _rx) = tokio::sync::mpsc::channel::<Message>(4);
    let (session, follower) = Session::open(tx);
    assert_eq!(session.id(), follower.id());
    assert!(!session.is_closed());
    assert!(follower.is_working());
}

#[test]
fn closing_a_session_stops_its_follower_at_the_next_send() {
    let (tx, mut rx) = tokio::sync::mpsc::channel::<Message>(4);
    let (mut session, mut follower) = Session::open(tx);
    session.close();
    session.close();
    assert!(session.is_closed());
    assert!(follower.is_working());
    assert_eq!(follower.send(encode_text("x")), lanclip::follower::Delivery::Stopped);
    assert!(!follower.is_working());
    assert!(rx.try_recv().is_err());
}

#[test]
fn closing_after_the_follower_is_gone_is_harmless() {
    let (tx, _rx) = tokio::sync::mpsc::channel::<Message>(4);
    let (mut session, follower) = Session::open(tx);
    drop(follower);
    session.close();
    assert!(session.is_closed());
}

#[test]
fn client_starts_connected_and_unarmed() {
    let mut client = ClipboardClient::new("192.168.1.5:7000");
    assert_eq!(client.host(), "192.168.1.5:7000");
    assert_eq!(client.endpoint(), "http://192.168.1.5:7000");
    assert!(client.is_connected());
    assert_eq!(client.on_local_change(ClipboardType::Text), Demand::Text);
}

#[test]
fn client_watches_until_disconnected() {
    let mut client = ClipboardClient::new("hub:1");
    assert!(matches!(client.on_clipboard_change(ClipboardType::Text), CallbackResult::Next));
    assert!(matches!(client.on_clipboard_change(ClipboardType::Unknown), CallbackResult::Next));
    client.disconnect();
    assert!(!client.is_connected());
    assert!(matches!(client.on_clipboard_change(ClipboardType::Text), CallbackResult::Stop));
    assert_eq!(client.host(), "hub:1");
}

#[test]
fn client_demand_follows_the_kind() {
    let mut client = ClipboardClient::new("hub:1");
    assert_eq!(client.on_local_change(ClipboardType::Image), Demand::Image);
    assert_eq!(client.on_local_change(ClipboardType::Text), Demand::Text);
    assert_eq!(client.on_local_change(ClipboardType::File), Demand::Nothing);
    assert_eq!(client.on_local_change(ClipboardType::Unknown), Demand::Nothing);
}

#[test]
fn client_swallows_the_echo_of_its_own_write() {
    let mut client = ClipboardClient::new("hub:1");
    match client.deal_message(encode_text("from hub")) {
        Ok(Content::Text(text)) => assert_eq!(text, "from hub"),
        _ => panic!("a text was expected"),
    }
    assert_eq!(client.on_local_change(ClipboardType::Text), Demand::Nothing);
    assert_eq!(client.on_local_change(ClipboardType::Text), Demand::Text);
}

#[test]
fn client_ignores_what_it_cannot_decode() {
    let mut client = ClipboardClient::new("hub:1");
    let message = Message { kind: "file".to_string(), body: vec![1] };
    assert!(matches!(client.deal_message(message), Err(DecodeError::UnknownType)));
    assert_eq!(client.on_local_change(ClipboardType::Text), Demand::Text);
}
