use invito::hub::BroadcastHub;
use invito::hub::Delivery;
use invito::model::RegistrationEvent;
use invito::model::UserModel;

fn event(id: u128) -> RegistrationEvent {
    RegistrationEvent {
        user: UserModel {
            id,
            user_name: format!("user{}", id),
            email: format!("u{}@x.com", id),
            ref_code: format!("use{:04x}", id),
            added_by_ref_code: 0,
            created_at: Some(1),
            updated_at: Some(1),
        },
    }
}

#[test]
fn publish_without_subscribers_is_a_no_op() {
    let mut hub = BroadcastHub::new(4);
    assert_eq!(hub.capacity(), 4);
    assert!(!hub.publish(&event(1)));
    let late = hub.subscribe().unwrap();
    assert_eq!(hub.receive(late), Delivery::Empty);
}

#[test]
fn every_subscription_receives_every_event_in_order() {
    let mut hub = BroadcastHub::new(4);
    let first = hub.subscribe().unwrap();
    let second = hub.subscribe().unwrap();
    assert_ne!(first, second);
    assert!(hub.publish(&event(1)));
    assert!(hub.publish(&event(2)));
    assert!(hub.publish(&event(3)));
    for id in [first, second] {
        assert_eq!(hub.receive(id), Delivery::Event(event(1)));
        assert_eq!(hub.receive(id), Delivery::Event(event(2)));
        assert_eq!(hub.receive(id), Delivery::Event(event(3)));
        assert_eq!(hub.receive(id), Delivery::Empty);
    }
}

#[test]
fn subscribers_read_at_their_own_pace() {
    let mut hub = BroadcastHub::new(4);
    let quick = hub.subscribe().unwrap();
    let slow = hub.subscribe().unwrap();
    hub.publish(&event(1));
    assert_eq!(hub.receive(quick), Delivery::Event(event(1)));
    hub.publish(&event(2));
    assert_eq!(hub.receive(quick), Delivery::Event(event(2)));
    assert_eq!(hub.receive(quick), Delivery::Empty);
    assert_eq!(hub.receive(slow), Delivery::Event(event(1)));
    assert_eq!(hub.receive(slow), Delivery::Event(event(2)));
}

#[test]
fn a_subscription_sees_only_what_is_published_after_it_opened() {
    let mut hub = BroadcastHub::new(4);
    let early = hub.subscribe().unwrap();
    hub.publish(&event(1));
    let late = hub.subscribe().unwrap();
    hub.publish(&event(2));
    assert_eq!(hub.receive(early), Delivery::Event(event(1)));
    assert_eq!(hub.receive(late), Delivery::Event(event(2)));
    assert_eq!(hub.receive(late), Delivery::Empty);
}

#[test]
fn a_full_queue_drops_its_oldest_events_and_says_how_many() {
    let mut hub = BroadcastHub::new(2);
    let slow = hub.subscribe().unwrap();
    let quick = hub.subscribe().unwrap();
    hub.publish(&event(1));
    assert_eq!(hub.receive(quick), Delivery::Event(event(1)));
    hub.publish(&event(2));
    hub.publish(&event(3));
    hub.publish(&event(4));
    assert_eq!(hub.receive(slow), Delivery::Lagged(2));
    assert_eq!(hub.receive(slow), Delivery::Event(event(3)));
    assert_eq!(hub.receive(slow), Delivery::Event(event(4)));
    assert_eq!(hub.receive(slow), Delivery::Empty);
    assert_eq!(hub.receive(quick), Delivery::Lagged(1));
    assert_eq!(hub.receive(quick), Delivery::Event(event(3)));
    hub.publish(&event(5));
    assert_eq!(hub.receive(slow), Delivery::Event(event(5)));
}

#[test]
fn a_hub_without_room_drops_every_event() {
    let mut hub = BroadcastHub::new(0);
    let id = hub.subscribe().unwrap();
    assert!(hub.publish(&event(1)));
    assert!(hub.publish(&event(2)));
    assert_eq!(hub.receive(id), Delivery::Lagged(2));
    assert_eq!(hub.receive(id), Delivery::Empty);
}

#[test]
fn a_closed_subscription_receives_nothing() {
    let mut hub = BroadcastHub::new(4);
    let gone = hub.subscribe().unwrap();
    let stays = hub.subscribe().unwrap();
    hub.publish(&event(1));
    assert!(hub.is_open(gone));
    assert!(hub.unsubscribe(gone));
    assert!(!hub.is_open(gone));
    assert!(!hub.unsubscribe(gone));
    hub.publish(&event(2));
    assert_eq!(hub.receive(gone), Delivery::Closed);
    assert_eq!(hub.receive(stays), Delivery::Event(event(1)));
    assert_eq!(hub.receive(stays), Delivery::Event(event(2)));
    let next = hub.subscribe().unwrap();
    assert_ne!(next, gone);
    assert_eq!(hub.receive(gone), Delivery::Closed);
}

#[test]
fn a_handle_that_was_never_handed_out_is_closed() {
    let mut hub = BroadcastHub::new(4);
    assert!(!hub.is_open(0));
    assert_eq!(hub.receive(0), Delivery::Closed);
    assert!(!hub.unsubscribe(0));
}

#[test]
fn handles_count_up_from_zero() {
    let mut hub = BroadcastHub::new(1);
    assert_eq!(hub.subscribe(), Some(0));
    assert_eq!(hub.subscribe(), Some(1));
    assert!(hub.unsubscribe(0));
    assert_eq!(hub.subscribe(), Some(2));
}
