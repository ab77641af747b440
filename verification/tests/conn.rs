use local_relay::bus::BroadcastBus;
use local_relay::conn::{reader_step, ConnectionWriter, Frame, ReadEvent, ReaderAction, WriterAction};

fn written(action: WriterAction) -> Option<String> {
    match action {
        WriterAction::Write(text) => Some(text),
        WriterAction::Wait => None,
    }
}

fn send_text(bus: &mut BroadcastBus, text: &str) -> ReaderAction {
    reader_step(bus, ReadEvent::Frame(Frame::Text(text.as_bytes().to_vec())))
}

#[test]
fn ping_reaches_both_clients_then_pong_survives_a_disconnect() {
    let mut bus = BroadcastBus::new(100);
    let client1 = ConnectionWriter::start(&mut bus);
    let client2 = ConnectionWriter::start(&mut bus);
    assert_eq!(send_text(&mut bus, "ping"), ReaderAction::Continue);
    assert_eq!(written(client1.step(&mut bus)), Some("ping".to_string()));
    assert_eq!(written(client1.step(&mut bus)), None);
    assert_eq!(written(client2.step(&mut bus)), Some("ping".to_string()));
    assert_eq!(written(client2.step(&mut bus)), None);

    assert_eq!(reader_step(&mut bus, ReadEvent::Ended), ReaderAction::Stop);
    assert!(client1.after_write(&mut bus, false).is_none());

    assert_eq!(send_text(&mut bus, "pong"), ReaderAction::Continue);
    assert_eq!(written(client2.step(&mut bus)), Some("pong".to_string()));
    assert_eq!(written(client2.step(&mut bus)), None);
}

#[test]
fn sender_receives_its_own_message() {
    let mut bus = BroadcastBus::new(100);
    let me = ConnectionWriter::start(&mut bus);
    assert_eq!(send_text(&mut bus, "hello"), ReaderAction::Continue);
    assert_eq!(written(me.step(&mut bus)), Some("hello".to_string()));
}

#[test]
fn text_frame_is_decoded_as_utf8() {
    let mut bus = BroadcastBus::new(100);
    let w = ConnectionWriter::start(&mut bus);
    let bytes = vec![0x68, 0xC3, 0xA9, 0xE2, 0x82, 0xAC, 0xF0, 0x9F, 0x8E, 0xAE];
    assert_eq!(reader_step(&mut bus, ReadEvent::Frame(Frame::Text(bytes))), ReaderAction::Continue);
    assert_eq!(written(w.step(&mut bus)), Some("h\u{e9}\u{20ac}\u{1f3ae}".to_string()));
}

#[test]
fn empty_text_frame_is_a_message() {
    let mut bus = BroadcastBus::new(100);
    let w = ConnectionWriter::start(&mut bus);
    assert_eq!(send_text(&mut bus, ""), ReaderAction::Continue);
    assert_eq!(written(w.step(&mut bus)), Some(String::new()));
}

#[test]
fn malformed_utf8_is_dropped_and_the_reader_goes_on() {
    let mut bus = BroadcastBus::new(100);
    let w = ConnectionWriter::start(&mut bus);
    for bytes in [vec![0xFF], vec![0xC3], vec![0x61, 0x80], vec![0xED, 0xA0, 0x80], vec![0xC0, 0x80]] {
        assert_eq!(reader_step(&mut bus, ReadEvent::Frame(Frame::Text(bytes))), ReaderAction::Continue);
        assert_eq!(written(w.step(&mut bus)), None);
    }
    assert_eq!(send_text(&mut bus, "ok"), ReaderAction::Continue);
    assert_eq!(written(w.step(&mut bus)), Some("ok".to_string()));
}

#[test]
fn frames_that_are_not_text_are_not_messages() {
    let mut bus = BroadcastBus::new(100);
    let w = ConnectionWriter::start(&mut bus);
    assert_eq!(reader_step(&mut bus, ReadEvent::Frame(Frame::Binary(b"ping".to_vec()))), ReaderAction::Continue);
    assert_eq!(reader_step(&mut bus, ReadEvent::Frame(Frame::Ping)), ReaderAction::Continue);
    assert_eq!(reader_step(&mut bus, ReadEvent::Frame(Frame::Pong)), ReaderAction::Continue);
    assert_eq!(written(w.step(&mut bus)), None);
}

#[test]
fn close_error_and_end_stop_the_reader_only() {
    let mut bus = BroadcastBus::new(100);
    let w = ConnectionWriter::start(&mut bus);
    assert_eq!(reader_step(&mut bus, ReadEvent::Frame(Frame::Close)), ReaderAction::Stop);
    assert_eq!(reader_step(&mut bus, ReadEvent::Failed), ReaderAction::Stop);
    assert_eq!(reader_step(&mut bus, ReadEvent::Ended), ReaderAction::Stop);
    assert!(bus.has_subscribers());
    assert_eq!(send_text(&mut bus, "still here"), ReaderAction::Continue);
    assert_eq!(written(w.step(&mut bus)), Some("still here".to_string()));
}

#[test]
fn reader_lets_a_publish_without_subscribers_pass() {
    let mut bus = BroadcastBus::new(100);
    assert_eq!(send_text(&mut bus, "nobody"), ReaderAction::Continue);
    let w = ConnectionWriter::start(&mut bus);
    assert_eq!(written(w.step(&mut bus)), None);
}

#[test]
fn writer_goes_on_after_a_good_write() {
    let mut bus = BroadcastBus::new(100);
    let w = ConnectionWriter::start(&mut bus);
    let id = w.subscription_id();
    assert_eq!(send_text(&mut bus, "a"), ReaderAction::Continue);
    assert_eq!(send_text(&mut bus, "b"), ReaderAction::Continue);
    assert_eq!(written(w.step(&mut bus)), Some("a".to_string()));
    let w = w.after_write(&mut bus, true).expect("the writer goes on");
    assert_eq!(w.subscription_id(), id);
    assert_eq!(written(w.step(&mut bus)), Some("b".to_string()));
}

#[test]
fn writer_ends_with_its_subscription_after_a_failed_write() {
    let mut bus = BroadcastBus::new(100);
    let w = ConnectionWriter::start(&mut bus);
    assert_eq!(send_text(&mut bus, "a"), ReaderAction::Continue);
    assert_eq!(written(w.step(&mut bus)), Some("a".to_string()));
    assert!(w.after_write(&mut bus, false).is_none());
    assert!(!bus.has_subscribers());
}

#[test]
fn writer_forwards_after_lag_like_any_other_message() {
    let mut bus = BroadcastBus::new(100);
    let w = ConnectionWriter::start(&mut bus);
    for i in 0..101 {
        assert_eq!(send_text(&mut bus, &format!("s{}", i)), ReaderAction::Continue);
    }
    for i in 1..101 {
        assert_eq!(written(w.step(&mut bus)), Some(format!("s{}", i)));
    }
    assert_eq!(written(w.step(&mut bus)), None);
}
