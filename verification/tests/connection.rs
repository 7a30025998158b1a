use ws_stream_wasm::{
    CloseEvent, CloseRequest, Delivery, Filter, Next, Payload, SubscriptionHandle, Wakeups, WsErr,
    WsEvent, WsMessage, WsMeta, WsState,
};

fn text(s: &str) -> WsMessage {
    WsMessage::Text(String::from(s))
}

fn quiet() -> Wakeups {
    Wakeups { reader: false, observers: Vec::new() }
}

fn closed(code: u16, reason: &str, was_clean: bool) -> WsEvent {
    WsEvent::Closed(CloseEvent { code, reason: String::from(reason), was_clean })
}

fn open_handle() -> WsMeta {
    let mut meta = WsMeta::new(None);
    meta.on_open().unwrap();
    meta
}

fn handle_in(state: WsState) -> WsMeta {
    let mut meta = WsMeta::new(None);
    match state {
        WsState::Connecting => {}
        WsState::Open => {
            meta.on_open().unwrap();
        }
        WsState::Closing => {
            meta.on_open().unwrap();
            meta.close(None, None).unwrap();
        }
        WsState::Closed => {
            meta.on_close(1006u16, String::new(), false).unwrap();
        }
    }
    assert_eq!(meta.state(), state);
    meta
}

#[test]
fn scenario_a_open_then_send() {
    let mut meta = WsMeta::new(None);
    assert_eq!(meta.state(), WsState::Connecting);
    let observer = meta.observe(None).unwrap();
    assert_eq!(meta.on_open(), Ok(quiet()));
    assert_eq!(meta.state(), WsState::Open);
    assert_eq!(meta.next_event(observer), Ok(Delivery::Item(WsEvent::Open)));
    assert_eq!(meta.next_event(observer), Ok(Delivery::Pending));
    assert_eq!(meta.send(text("hello")), Ok(Payload::Text(Some(String::from("hello")))));
}

#[test]
fn scenario_b_close_then_confirmation() {
    let mut meta = open_handle();
    let observer = meta.observe(None).unwrap();
    assert_eq!(meta.next(), Next::Pending);
    let request = meta.close(Some(1000u16), Some(String::from("bye")));
    assert_eq!(
        request,
        Ok(CloseRequest {
            code: Some(1000u16),
            reason: Some(String::from("bye")),
            wake: Vec::new()
        })
    );
    assert_eq!(meta.state(), WsState::Closing);
    // the consumer still waits: the host has not confirmed yet
    assert_eq!(meta.next(), Next::Pending);
    let wake = meta.on_close(1000u16, String::from("bye"), true);
    assert_eq!(wake, Ok(Wakeups { reader: true, observers: Vec::new() }));
    assert_eq!(meta.state(), WsState::Closed);
    assert_eq!(meta.next_event(observer), Ok(Delivery::Item(WsEvent::Closing)));
    assert_eq!(meta.next_event(observer), Ok(Delivery::Item(closed(1000u16, "bye", true))));
    assert_eq!(meta.next_event(observer), Ok(Delivery::Pending));
    assert_eq!(meta.next(), Next::End);
}

#[test]
fn scenario_c_two_messages_before_any_pull() {
    let mut meta = open_handle();
    assert_eq!(meta.on_message(Payload::ArrayBuffer(vec![1u8, 2u8, 3u8])), Ok(quiet()));
    assert_eq!(meta.on_message(Payload::ArrayBuffer(vec![1u8, 2u8, 3u8])), Ok(quiet()));
    assert_eq!(meta.next(), Next::Item(WsMessage::Binary(vec![1u8, 2u8, 3u8])));
    assert_eq!(meta.next(), Next::Item(WsMessage::Binary(vec![1u8, 2u8, 3u8])));
    assert_eq!(meta.next(), Next::Pending);
    assert_eq!(meta.fault(), None);
}

#[test]
fn send_fails_with_not_open_outside_open() {
    for state in [WsState::Connecting, WsState::Closing, WsState::Closed] {
        let meta = handle_in(state);
        assert_eq!(meta.send(text("hello")), Err(WsErr::NotOpen));
        assert_eq!(meta.send(WsMessage::Binary(vec![1u8])), Err(WsErr::NotOpen));
        assert_eq!(meta.state(), state);
    }
}

#[test]
fn send_binary_while_open() {
    let meta = open_handle();
    assert_eq!(
        meta.send(WsMessage::Binary(vec![1u8, 2u8])),
        Ok(Payload::ArrayBuffer(vec![1u8, 2u8]))
    );
    assert_eq!(meta.send(text("")), Ok(Payload::Text(Some(String::new()))));
}

#[test]
fn what_is_sent_decodes_to_the_message() {
    let meta = open_handle();
    let msg = text("round trip");
    let payload = meta.send(msg.clone()).unwrap();
    assert_eq!(WsMessage::try_from(payload), Ok(msg));
}

#[test]
fn close_from_connecting() {
    let mut meta = WsMeta::new(None);
    let observer = meta.observe(None).unwrap();
    assert_eq!(
        meta.close(None, None),
        Ok(CloseRequest { code: None, reason: None, wake: Vec::new() })
    );
    assert_eq!(meta.state(), WsState::Closing);
    assert_eq!(meta.next_event(observer), Ok(Delivery::Item(WsEvent::Closing)));
    assert_eq!(
        meta.on_close(1000u16, String::new(), true),
        Ok(Wakeups { reader: false, observers: Vec::new() })
    );
    assert_eq!(meta.state(), WsState::Closed);
}

#[test]
fn close_fails_with_not_open_when_closing_or_closed() {
    for state in [WsState::Closing, WsState::Closed] {
        let mut meta = handle_in(state);
        let observer = meta.observe(None).unwrap();
        assert_eq!(meta.close(Some(1000u16), None), Err(WsErr::NotOpen));
        assert_eq!(meta.state(), state);
        assert_eq!(meta.next_event(observer), Ok(Delivery::Pending));
        assert_eq!(meta.fault(), None);
    }
}

#[test]
fn close_wakes_waiting_observers() {
    let mut meta = open_handle();
    let a = meta.observe(None).unwrap();
    let b = meta
        .observe(Some(Filter { open: true, error: false, closing: false, closed: false }))
        .unwrap();
    assert_eq!(meta.next_event(a), Ok(Delivery::Pending));
    assert_eq!(meta.next_event(b), Ok(Delivery::Pending));
    let request = meta.close(Some(4000u16), None).unwrap();
    assert_eq!(request.code, Some(4000u16));
    assert_eq!(request.reason, None);
    assert_eq!(request.wake, vec![a]);
}

#[test]
fn on_open_twice_is_an_invalid_transition() {
    let mut meta = open_handle();
    let observer = meta.observe(None).unwrap();
    assert_eq!(meta.on_open(), Err(WsErr::InvalidTransition));
    assert_eq!(meta.state(), WsState::Open);
    // nothing was published
    assert_eq!(meta.next_event(observer), Ok(Delivery::Pending));
    // the failure waits to be collected
    assert_eq!(meta.fault(), Some(WsErr::InvalidTransition));
    assert_eq!(meta.take_fault(), Some(WsErr::InvalidTransition));
    assert_eq!(meta.fault(), None);
    assert_eq!(meta.take_fault(), None);
}

#[test]
fn on_close_twice_is_an_invalid_transition() {
    let mut meta = handle_in(WsState::Closed);
    assert_eq!(meta.on_close(1000u16, String::new(), true), Err(WsErr::InvalidTransition));
    assert_eq!(meta.state(), WsState::Closed);
    assert_eq!(meta.take_fault(), Some(WsErr::InvalidTransition));
}

#[test]
fn on_open_after_close_is_an_invalid_transition() {
    for state in [WsState::Closing, WsState::Closed] {
        let mut meta = handle_in(state);
        assert_eq!(meta.on_open(), Err(WsErr::InvalidTransition));
        assert_eq!(meta.state(), state);
    }
}

#[test]
fn on_error_keeps_the_phase_and_is_published() {
    for state in [WsState::Connecting, WsState::Open, WsState::Closing, WsState::Closed] {
        let mut meta = handle_in(state);
        let observer = meta.observe(None).unwrap();
        assert_eq!(meta.on_error(), Ok(quiet()));
        assert_eq!(meta.state(), state);
        assert_eq!(meta.next_event(observer), Ok(Delivery::Item(WsEvent::Error)));
        assert_eq!(meta.fault(), None);
    }
}

#[test]
fn failed_connection_goes_from_connecting_to_closed() {
    let mut meta = WsMeta::new(None);
    let observer = meta.observe(None).unwrap();
    assert_eq!(meta.next(), Next::Pending);
    assert_eq!(meta.on_error(), Ok(quiet()));
    assert_eq!(
        meta.on_close(1006u16, String::from("refused"), false),
        Ok(Wakeups { reader: true, observers: Vec::new() })
    );
    assert_eq!(meta.state(), WsState::Closed);
    assert_eq!(meta.next_event(observer), Ok(Delivery::Item(WsEvent::Error)));
    assert_eq!(meta.next_event(observer), Ok(Delivery::Item(closed(1006u16, "refused", false))));
    assert_eq!(meta.next(), Next::End);
}

#[test]
fn remote_close_from_open() {
    let mut meta = open_handle();
    assert_eq!(meta.on_close(1001u16, String::from("going away"), true), Ok(quiet()));
    assert_eq!(meta.state(), WsState::Closed);
    assert_eq!(meta.send(text("late")), Err(WsErr::NotOpen));
    assert_eq!(meta.close(None, None), Err(WsErr::NotOpen));
}

#[test]
fn message_outside_open_is_an_invalid_transition() {
    for state in [WsState::Connecting, WsState::Closing, WsState::Closed] {
        let mut meta = handle_in(state);
        assert_eq!(meta.on_message(Payload::ArrayBuffer(vec![1u8])), Err(WsErr::InvalidTransition));
        assert_eq!(meta.fault(), Some(WsErr::InvalidTransition));
        assert_ne!(meta.next(), Next::Item(WsMessage::Binary(vec![1u8])));
    }
}

#[test]
fn undecodable_payloads_are_reported_and_not_queued() {
    let mut meta = open_handle();
    assert_eq!(meta.on_message(Payload::Text(None)), Err(WsErr::InvalidEncoding));
    assert_eq!(meta.take_fault(), Some(WsErr::InvalidEncoding));
    assert_eq!(meta.on_message(Payload::Blob), Err(WsErr::UnsupportedPayload));
    assert_eq!(meta.take_fault(), Some(WsErr::UnsupportedPayload));
    assert_eq!(meta.on_message(Payload::Unknown), Err(WsErr::UnsupportedPayload));
    assert_eq!(meta.next(), Next::Pending);
    // the connection goes on
    assert_eq!(
        meta.on_message(Payload::Text(Some(String::from("ok")))),
        Ok(Wakeups { reader: true, observers: Vec::new() })
    );
    assert_eq!(meta.next(), Next::Item(text("ok")));
}

#[test]
fn first_fault_is_kept_until_collected() {
    let mut meta = open_handle();
    assert_eq!(meta.on_message(Payload::Blob), Err(WsErr::UnsupportedPayload));
    assert_eq!(meta.on_open(), Err(WsErr::InvalidTransition));
    assert_eq!(meta.take_fault(), Some(WsErr::UnsupportedPayload));
    assert_eq!(meta.on_open(), Err(WsErr::InvalidTransition));
    assert_eq!(meta.take_fault(), Some(WsErr::InvalidTransition));
}

#[test]
fn bounded_queue_reports_overflow() {
    let mut meta = WsMeta::new(Some(1usize));
    meta.on_open().unwrap();
    assert_eq!(meta.on_message(Payload::ArrayBuffer(vec![1u8])), Ok(quiet()));
    assert_eq!(meta.on_message(Payload::ArrayBuffer(vec![2u8])), Err(WsErr::QueueOverflow));
    assert_eq!(meta.take_fault(), Some(WsErr::QueueOverflow));
    assert_eq!(meta.next(), Next::Item(WsMessage::Binary(vec![1u8])));
    assert_eq!(meta.on_message(Payload::ArrayBuffer(vec![3u8])), Ok(quiet()));
    assert_eq!(meta.next(), Next::Item(WsMessage::Binary(vec![3u8])));
    assert_eq!(meta.next(), Next::Pending);
}

#[test]
fn messages_are_pulled_in_delivery_order_and_end_comes_after_closed() {
    let mut meta = open_handle();
    let words = ["one", "two", "three", "four", "five"];
    for word in words {
        meta.on_message(Payload::Text(Some(String::from(word)))).unwrap();
    }
    assert_eq!(meta.next(), Next::Item(text("one")));
    assert_eq!(meta.next(), Next::Item(text("two")));
    meta.on_close(1000u16, String::new(), true).unwrap();
    // closed, but not drained: the rest still comes, and then the end
    assert_eq!(meta.next(), Next::Item(text("three")));
    assert_eq!(meta.next(), Next::Item(text("four")));
    assert_eq!(meta.next(), Next::Item(text("five")));
    assert_eq!(meta.next(), Next::End);
}

#[test]
fn arriving_message_wakes_the_waiting_consumer() {
    let mut meta = open_handle();
    assert_eq!(meta.next(), Next::Pending);
    assert_eq!(
        meta.on_message(Payload::ArrayBuffer(vec![1u8])),
        Ok(Wakeups { reader: true, observers: Vec::new() })
    );
    assert_eq!(meta.on_message(Payload::ArrayBuffer(vec![2u8])), Ok(quiet()));
}

#[test]
fn closing_the_stream_drops_the_queue_and_refuses_messages() {
    let mut meta = open_handle();
    meta.on_message(Payload::ArrayBuffer(vec![1u8])).unwrap();
    assert!(!meta.close_stream());
    assert_eq!(meta.next(), Next::End);
    // the connection itself is still open
    assert_eq!(meta.state(), WsState::Open);
    assert_eq!(meta.on_message(Payload::ArrayBuffer(vec![2u8])), Err(WsErr::NotOpen));
    assert_eq!(meta.next(), Next::End);
    assert!(meta.send(text("still possible")).is_ok());
}

#[test]
fn closing_the_stream_wakes_the_waiting_consumer() {
    let mut meta = open_handle();
    assert_eq!(meta.next(), Next::Pending);
    assert!(meta.close_stream());
    assert_eq!(meta.next(), Next::End);
}

#[test]
fn observers_with_filters_get_their_events_even_across_close() {
    let mut meta = WsMeta::new(None);
    let all = meta.observe(None).unwrap();
    let closes = meta
        .observe(Some(Filter { open: false, error: false, closing: false, closed: true }))
        .unwrap();
    assert_eq!(meta.next_event(closes), Ok(Delivery::Pending));
    meta.on_open().unwrap();
    meta.on_error().unwrap();
    meta.close(Some(1000u16), Some(String::from("done"))).unwrap();
    let wake = meta.on_close(1000u16, String::from("done"), true).unwrap();
    assert_eq!(wake.observers, vec![closes]);
    assert_eq!(meta.next_event(all), Ok(Delivery::Item(WsEvent::Open)));
    assert_eq!(meta.next_event(all), Ok(Delivery::Item(WsEvent::Error)));
    assert_eq!(meta.next_event(all), Ok(Delivery::Item(WsEvent::Closing)));
    assert_eq!(meta.next_event(all), Ok(Delivery::Item(closed(1000u16, "done", true))));
    assert_eq!(meta.next_event(all), Ok(Delivery::Pending));
    assert_eq!(meta.next_event(closes), Ok(Delivery::Item(closed(1000u16, "done", true))));
    assert_eq!(meta.next_event(closes), Ok(Delivery::Pending));
}

#[test]
fn unsubscribed_observer_gets_nothing_more() {
    let mut meta = WsMeta::new(None);
    let a = meta.observe(None).unwrap();
    meta.on_open().unwrap();
    assert!(!meta.unsubscribe(a));
    meta.on_error().unwrap();
    assert_eq!(meta.next_event(a), Ok(Delivery::End));
}

#[test]
fn handle_of_another_connection_is_an_inconsistent_observer() {
    let mut first = WsMeta::new(None);
    let mut second = WsMeta::new(None);
    first.observe(None).unwrap();
    let foreign = first.observe(None).unwrap();
    second.observe(None).unwrap();
    assert_eq!(second.next_event(foreign), Err(WsErr::InconsistentObserver));
    assert_eq!(
        second.next_event(SubscriptionHandle { id: 99u64 }),
        Err(WsErr::InconsistentObserver)
    );
}
