use invito::handler::register;
use invito::handler::sse_handler;
use invito::hub::BroadcastHub;
use invito::hub::Delivery;
use invito::live::LiveConnection;
use invito::live::LiveMessage;
use invito::live::LiveOutput;
use invito::model::RegistrationEvent;
use invito::model::UserModel;
use invito::schema::CreateUserSchema;
use invito::store::UserStore;

fn event(id: u128) -> RegistrationEvent {
    RegistrationEvent {
        user: UserModel {
            id,
            user_name: format!("user{}", id),
            email: format!("u{}@x.com", id),
            ref_code: format!("use{:04x}", id),
            added_by_ref_code: 0,
            created_at: Some(1),
            updated_at: Some(1),
        },
    }
}

fn sent(id: u128) -> LiveOutput {
    LiveOutput::Send(LiveMessage::Registration(event(id)))
}

#[test]
fn a_connection_greets_before_it_forwards() {
    let mut hub = BroadcastHub::new(4);
    let mut connection = sse_handler(&mut hub).unwrap();
    hub.publish(&event(1));
    assert_eq!(connection.next(&mut hub), LiveOutput::Send(LiveMessage::Connected));
    assert_eq!(connection.next(&mut hub), sent(1));
    assert_eq!(connection.next(&mut hub), LiveOutput::Idle);
    hub.publish(&event(2));
    hub.publish(&event(3));
    assert_eq!(connection.next(&mut hub), sent(2));
    assert_eq!(connection.next(&mut hub), sent(3));
    assert_eq!(connection.next(&mut hub), LiveOutput::Idle);
}

#[test]
fn a_connection_that_fell_behind_goes_on_with_what_was_kept() {
    let mut hub = BroadcastHub::new(2);
    let mut connection = LiveConnection::open(&mut hub).unwrap();
    assert_eq!(connection.next(&mut hub), LiveOutput::Send(LiveMessage::Connected));
    for id in 1..=5 {
        hub.publish(&event(id));
    }
    assert_eq!(connection.next(&mut hub), sent(4));
    assert_eq!(connection.next(&mut hub), sent(5));
    assert_eq!(connection.next(&mut hub), LiveOutput::Idle);
}

#[test]
fn a_connection_without_room_skips_what_it_missed() {
    let mut hub = BroadcastHub::new(0);
    let mut connection = LiveConnection::open(&mut hub).unwrap();
    assert_eq!(connection.next(&mut hub), LiveOutput::Send(LiveMessage::Connected));
    hub.publish(&event(1));
    assert_eq!(connection.next(&mut hub), LiveOutput::Idle);
    assert_eq!(connection.next(&mut hub), LiveOutput::Idle);
}

#[test]
fn closing_a_connection_releases_its_subscription() {
    let mut hub = BroadcastHub::new(4);
    let connection = LiveConnection::open(&mut hub).unwrap();
    let id = connection.subscription();
    assert!(hub.is_open(id));
    connection.close(&mut hub);
    assert!(!hub.is_open(id));
    assert!(!hub.publish(&event(1)));
    assert_eq!(hub.receive(id), Delivery::Closed);
}

#[test]
fn a_connection_whose_subscription_was_closed_ends() {
    let mut hub = BroadcastHub::new(4);
    let mut connection = LiveConnection::open(&mut hub).unwrap();
    assert_eq!(connection.next(&mut hub), LiveOutput::Send(LiveMessage::Connected));
    hub.unsubscribe(connection.subscription());
    hub.publish(&event(1));
    assert_eq!(connection.next(&mut hub), LiveOutput::Closed);
}

#[test]
fn heartbeat_carries_no_record() {
    assert_eq!(LiveConnection::heartbeat(), LiveMessage::Heartbeat);
}

#[test]
fn every_connection_is_sent_each_registration() {
    let mut store = UserStore::new();
    let mut hub = BroadcastHub::new(4);
    let mut first = sse_handler(&mut hub).unwrap();
    let mut second = sse_handler(&mut hub).unwrap();
    assert_eq!(first.next(&mut hub), LiveOutput::Send(LiveMessage::Connected));
    assert_eq!(second.next(&mut hub), LiveOutput::Send(LiveMessage::Connected));
    let body = CreateUserSchema {
        user_name: "bob".to_string(),
        email: "b@x.com".to_string(),
        ref_code: None,
    };
    let response = register(&mut store, &mut hub, body, 9, 0x77c3_u128 << 112, 5);
    assert_eq!(response.status, 201);
    let bob = store.find_by_id(9).unwrap();
    let expected = LiveOutput::Send(LiveMessage::Registration(RegistrationEvent { user: bob }));
    assert_eq!(first.next(&mut hub), expected);
    assert_eq!(second.next(&mut hub), expected);
    assert_eq!(first.next(&mut hub), LiveOutput::Idle);
}
