use ws_stream_wasm::{CloseEvent, Delivery, Filter, Notifier, SubscriptionHandle, WsErr, WsEvent};

fn closed(code: u16) -> WsEvent {
    WsEvent::Closed(CloseEvent { code, reason: String::from("bye"), was_clean: true })
}

fn only_closed() -> Filter {
    Filter { open: false, error: false, closing: false, closed: true }
}

fn drain(notifier: &mut Notifier, handle: SubscriptionHandle) -> Vec<WsEvent> {
    let mut got: Vec<WsEvent> = Vec::new();
    loop {
        match notifier.next_event(handle).unwrap() {
            Delivery::Item(event) => got.push(event),
            Delivery::Pending => return got,
            Delivery::End => panic!("subscription ended"),
        }
    }
}

#[test]
fn filter_passes_the_chosen_kinds() {
    let filter = Filter { open: true, error: false, closing: false, closed: true };
    assert!(filter.test(&WsEvent::Open));
    assert!(!filter.test(&WsEvent::Error));
    assert!(!filter.test(&WsEvent::Closing));
    assert!(filter.test(&closed(1000u16)));
}

#[test]
fn subscriptions_get_rising_numbers() {
    let mut notifier = Notifier::new();
    assert_eq!(notifier.subscribe(None), Ok(SubscriptionHandle { id: 0u64 }));
    assert_eq!(notifier.subscribe(Some(only_closed())), Ok(SubscriptionHandle { id: 1u64 }));
    assert_eq!(notifier.subscriber_count(), 2usize);
    assert!(notifier.is_subscribed(SubscriptionHandle { id: 0u64 }));
    assert!(notifier.is_subscribed(SubscriptionHandle { id: 1u64 }));
    assert!(!notifier.is_subscribed(SubscriptionHandle { id: 2u64 }));
}

#[test]
fn every_subscriber_receives_every_event_in_order() {
    let mut notifier = Notifier::new();
    let a = notifier.subscribe(None).unwrap();
    let b = notifier.subscribe(None).unwrap();
    let c = notifier.subscribe(None).unwrap();
    let events = vec![WsEvent::Open, WsEvent::Error, WsEvent::Closing, closed(1000u16)];
    for event in &events {
        notifier.publish(event);
    }
    assert_eq!(drain(&mut notifier, a), events);
    assert_eq!(drain(&mut notifier, b), events);
    assert_eq!(drain(&mut notifier, c), events);
    // nothing comes twice
    assert_eq!(drain(&mut notifier, a), Vec::<WsEvent>::new());
}

#[test]
fn filtered_subscriber_receives_exactly_the_matching_events() {
    let mut notifier = Notifier::new();
    let all = notifier.subscribe(None).unwrap();
    let closes = notifier.subscribe(Some(only_closed())).unwrap();
    let errors = notifier
        .subscribe(Some(Filter { open: false, error: true, closing: false, closed: false }))
        .unwrap();
    let events =
        vec![WsEvent::Open, WsEvent::Error, closed(1000u16), WsEvent::Error, closed(1001u16)];
    for event in &events {
        notifier.publish(event);
    }
    assert_eq!(drain(&mut notifier, all), events);
    assert_eq!(drain(&mut notifier, closes), vec![closed(1000u16), closed(1001u16)]);
    assert_eq!(drain(&mut notifier, errors), vec![WsEvent::Error, WsEvent::Error]);
}

#[test]
fn subscriber_sees_only_events_after_subscription() {
    let mut notifier = Notifier::new();
    notifier.publish(&WsEvent::Open);
    let late = notifier.subscribe(None).unwrap();
    notifier.publish(&WsEvent::Closing);
    assert_eq!(drain(&mut notifier, late), vec![WsEvent::Closing]);
}

#[test]
fn interleaved_pulls_keep_the_order() {
    let mut notifier = Notifier::new();
    let a = notifier.subscribe(None).unwrap();
    notifier.publish(&WsEvent::Open);
    notifier.publish(&WsEvent::Error);
    assert_eq!(notifier.next_event(a), Ok(Delivery::Item(WsEvent::Open)));
    notifier.publish(&WsEvent::Closing);
    assert_eq!(notifier.next_event(a), Ok(Delivery::Item(WsEvent::Error)));
    assert_eq!(notifier.next_event(a), Ok(Delivery::Item(WsEvent::Closing)));
    assert_eq!(notifier.next_event(a), Ok(Delivery::Pending));
}

#[test]
fn publish_without_subscribers_is_a_no_op() {
    let mut notifier = Notifier::new();
    assert_eq!(notifier.publish(&WsEvent::Open), Vec::<SubscriptionHandle>::new());
    assert_eq!(notifier.subscriber_count(), 0usize);
    let a = notifier.subscribe(None).unwrap();
    notifier.unsubscribe(a);
    assert_eq!(notifier.publish(&WsEvent::Error), Vec::<SubscriptionHandle>::new());
    assert_eq!(notifier.subscriber_count(), 0usize);
}

#[test]
fn publish_wakes_the_waiting_subscribers_that_receive() {
    let mut notifier = Notifier::new();
    let a = notifier.subscribe(None).unwrap();
    let b = notifier.subscribe(Some(only_closed())).unwrap();
    let c = notifier.subscribe(None).unwrap();
    // a and b wait, c does not
    assert_eq!(notifier.next_event(a), Ok(Delivery::Pending));
    assert_eq!(notifier.next_event(b), Ok(Delivery::Pending));
    // b's filter refuses the event, so only a is woken
    assert_eq!(notifier.publish(&WsEvent::Open), vec![a]);
    // a has not pulled yet but no longer waits
    assert_eq!(notifier.publish(&WsEvent::Error), Vec::<SubscriptionHandle>::new());
    assert_eq!(notifier.publish(&closed(1000u16)), vec![b]);
    assert_eq!(drain(&mut notifier, c), vec![WsEvent::Open, WsEvent::Error, closed(1000u16)]);
}

#[test]
fn unsubscribe_is_immediate() {
    let mut notifier = Notifier::new();
    let a = notifier.subscribe(None).unwrap();
    let b = notifier.subscribe(None).unwrap();
    notifier.publish(&WsEvent::Open);
    assert!(!notifier.unsubscribe(a));
    assert!(!notifier.is_subscribed(a));
    assert_eq!(notifier.subscriber_count(), 1usize);
    // what waited for a is gone, and a's sequence has ended
    assert_eq!(notifier.next_event(a), Ok(Delivery::End));
    notifier.publish(&WsEvent::Closing);
    assert_eq!(notifier.next_event(a), Ok(Delivery::End));
    // b is untouched
    assert_eq!(drain(&mut notifier, b), vec![WsEvent::Open, WsEvent::Closing]);
}

#[test]
fn unsubscribe_twice_is_safe() {
    let mut notifier = Notifier::new();
    let a = notifier.subscribe(None).unwrap();
    assert!(!notifier.unsubscribe(a));
    assert!(!notifier.unsubscribe(a));
    assert_eq!(notifier.subscriber_count(), 0usize);
}

#[test]
fn unsubscribe_wakes_a_waiting_subscriber() {
    let mut notifier = Notifier::new();
    let a = notifier.subscribe(None).unwrap();
    assert_eq!(notifier.next_event(a), Ok(Delivery::Pending));
    assert!(notifier.unsubscribe(a));
    assert_eq!(notifier.next_event(a), Ok(Delivery::End));
}

#[test]
fn numbers_are_not_given_twice() {
    let mut notifier = Notifier::new();
    let a = notifier.subscribe(None).unwrap();
    notifier.unsubscribe(a);
    let b = notifier.subscribe(None).unwrap();
    assert_ne!(a, b);
    notifier.publish(&WsEvent::Open);
    assert_eq!(notifier.next_event(a), Ok(Delivery::End));
    assert_eq!(notifier.next_event(b), Ok(Delivery::Item(WsEvent::Open)));
}

#[test]
fn unknown_handle_is_an_inconsistent_observer() {
    let mut notifier = Notifier::new();
    assert_eq!(
        notifier.next_event(SubscriptionHandle { id: 0u64 }),
        Err(WsErr::InconsistentObserver)
    );
    let a = notifier.subscribe(None).unwrap();
    assert_eq!(notifier.next_event(a), Ok(Delivery::Pending));
    assert_eq!(
        notifier.next_event(SubscriptionHandle { id: 7u64 }),
        Err(WsErr::InconsistentObserver)
    );
    // the failed pull changed nothing
    assert_eq!(notifier.publish(&WsEvent::Open), vec![a]);
}
