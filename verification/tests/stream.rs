use ws_stream_wasm::{Next, Payload, WsErr, WsMessage, WsState, WsStream};

fn text(s: &str) -> WsMessage {
    WsMessage::Text(String::from(s))
}

#[test]
fn new_stream_is_empty_and_live() {
    let stream = WsStream::new(None);
    assert_eq!(stream.len(), 0usize);
    assert!(stream.is_empty());
    assert_eq!(stream.limit(), None);
    assert!(!stream.is_ended());
    assert!(!stream.is_parked());
    assert_eq!(WsStream::new(Some(3usize)).limit(), Some(3usize));
}

#[test]
fn messages_come_out_in_arrival_order() {
    let mut stream = WsStream::new(None);
    for i in 0u8..20u8 {
        assert_eq!(stream.accept(WsMessage::Binary(vec![i])), Ok(false));
    }
    assert_eq!(stream.len(), 20usize);
    for i in 0u8..20u8 {
        assert_eq!(stream.next(), Next::Item(WsMessage::Binary(vec![i])));
    }
    assert_eq!(stream.next(), Next::Pending);
}

#[test]
fn empty_live_stream_is_pending_not_ended() {
    let mut stream = WsStream::new(None);
    assert_eq!(stream.next(), Next::Pending);
    assert!(stream.is_parked());
    assert_eq!(stream.next(), Next::Pending);
}

#[test]
fn arrival_wakes_a_waiting_consumer_once() {
    let mut stream = WsStream::new(None);
    assert_eq!(stream.next(), Next::Pending);
    assert_eq!(stream.accept(text("a")), Ok(true));
    assert!(!stream.is_parked());
    assert_eq!(stream.accept(text("b")), Ok(false));
    assert_eq!(stream.next(), Next::Item(text("a")));
    assert_eq!(stream.next(), Next::Item(text("b")));
}

#[test]
fn finished_stream_drains_then_ends() {
    let mut stream = WsStream::new(None);
    stream.accept(text("a")).unwrap();
    stream.accept(text("b")).unwrap();
    assert!(!stream.finish());
    assert!(stream.is_ended());
    assert_eq!(stream.len(), 2usize);
    assert_eq!(stream.next(), Next::Item(text("a")));
    assert_eq!(stream.next(), Next::Item(text("b")));
    assert_eq!(stream.next(), Next::End);
    assert_eq!(stream.next(), Next::End);
    assert!(!stream.is_parked());
}

#[test]
fn finish_wakes_a_waiting_consumer() {
    let mut stream = WsStream::new(None);
    assert_eq!(stream.next(), Next::Pending);
    assert!(stream.finish());
    assert!(!stream.is_parked());
    assert_eq!(stream.next(), Next::End);
}

#[test]
fn cancel_drops_the_queue_and_ends() {
    let mut stream = WsStream::new(None);
    stream.accept(text("a")).unwrap();
    assert!(!stream.cancel());
    assert!(stream.is_ended());
    assert!(stream.is_empty());
    assert_eq!(stream.next(), Next::End);
}

#[test]
fn cancel_wakes_a_waiting_consumer() {
    let mut stream = WsStream::new(None);
    assert_eq!(stream.next(), Next::Pending);
    assert!(stream.cancel());
    assert_eq!(stream.next(), Next::End);
}

#[test]
fn ended_stream_refuses_messages() {
    let mut stream = WsStream::new(None);
    stream.finish();
    assert_eq!(stream.accept(text("late")), Err(WsErr::NotOpen));
    assert!(stream.is_empty());
    let mut stream = WsStream::new(Some(0usize));
    stream.cancel();
    // an ended stream says so even where it is also full
    assert_eq!(stream.accept(text("late")), Err(WsErr::NotOpen));
}

#[test]
fn full_queue_reports_overflow_and_keeps_its_messages() {
    let mut stream = WsStream::new(Some(2usize));
    assert_eq!(stream.accept(text("a")), Ok(false));
    assert_eq!(stream.accept(text("b")), Ok(false));
    assert_eq!(stream.accept(text("c")), Err(WsErr::QueueOverflow));
    assert_eq!(stream.len(), 2usize);
    assert_eq!(stream.next(), Next::Item(text("a")));
    // room again
    assert_eq!(stream.accept(text("d")), Ok(false));
    assert_eq!(stream.next(), Next::Item(text("b")));
    assert_eq!(stream.next(), Next::Item(text("d")));
    assert_eq!(stream.next(), Next::Pending);
}

#[test]
fn queue_without_room_takes_nothing() {
    let mut stream = WsStream::new(Some(0usize));
    assert_eq!(stream.accept(text("a")), Err(WsErr::QueueOverflow));
    assert_eq!(stream.next(), Next::Pending);
}

#[test]
fn outbound_guard_passes_only_when_open() {
    assert_eq!(
        WsStream::send(WsState::Open, text("hello")),
        Ok(Payload::Text(Some(String::from("hello"))))
    );
    assert_eq!(
        WsStream::send(WsState::Open, WsMessage::Binary(vec![1u8, 2u8])),
        Ok(Payload::ArrayBuffer(vec![1u8, 2u8]))
    );
    for state in [WsState::Connecting, WsState::Closing, WsState::Closed] {
        assert_eq!(WsStream::send(state, text("hello")), Err(WsErr::NotOpen));
    }
}
