use tokio::sync::broadcast;
use tokio::sync::broadcast::error::TryRecvError;
use upload_bridge::{
    announce_receivers, AckDispatcher, AckPoll, Action, Channel, ChannelRegistry, Direction,
    Event, RegistryError, UploadError, UploadSession,
};

fn channel() -> Channel {
    let (tx, rx) = broadcast::channel::<String>(16);
    Channel::new(tx, rx)
}

fn ready_registry() -> ChannelRegistry {
    let mut registry = ChannelRegistry::new();
    assert_eq!(registry.initialize(channel(), channel()), Ok(()));
    registry
}

fn field(name: &str, content_type: &str) -> Event {
    Event::Field {
        file_name: Some(name.to_string()),
        content_type: Some(content_type.to_string()),
    }
}

/// A session past its acknowledgment.
fn acknowledged() -> UploadSession {
    let mut registry = ready_registry();
    let mut acks = AckDispatcher::new();
    let mut session =
        UploadSession::open(&mut registry, &mut acks, 1, "127.0.0.1".to_string()).unwrap();
    assert_eq!(acks.on_ack(), Some(1));
    assert!(matches!(
        session.step(Event::Ack(AckPoll::Acknowledged)),
        Action::NextField
    ));
    session
}

fn expect_save(a: Action, name: &str, content_type: &str, bytes: &[u8]) {
    match a {
        Action::Save(f) => {
            assert_eq!(f.file_name, name);
            assert_eq!(f.content_type, content_type);
            assert_eq!(f.bytes, bytes.to_vec());
        }
        other => panic!("expected a save, got {:?}", other),
    }
}

#[test]
fn registry_refuses_get_before_initialize() {
    let registry = ChannelRegistry::new();
    assert_eq!(registry.get(Direction::BackToFront).err(), Some(RegistryError::NotInitialized));
    assert_eq!(registry.get(Direction::FrontToBack).err(), Some(RegistryError::NotInitialized));
}

#[test]
fn registry_is_set_once() {
    let b = channel();
    let f = channel();
    let b_probe = b.tx.clone();
    let f_probe = f.tx.clone();
    let mut registry = ChannelRegistry::new();
    assert_eq!(registry.initialize(b, f), Ok(()));
    assert_eq!(registry.initialize(channel(), channel()), Err(RegistryError::AlreadyInitialized));
    assert!(registry.get(Direction::BackToFront).unwrap().tx.same_channel(&b_probe));
    assert!(registry.get(Direction::FrontToBack).unwrap().tx.same_channel(&f_probe));
    assert!(!registry.get(Direction::FrontToBack).unwrap().tx.same_channel(&b_probe));
}

#[test]
fn announce_counts_receivers_and_drops_silently() {
    assert_eq!(announce_receivers(Ok(3)), 3);
    assert_eq!(announce_receivers(Err(broadcast::error::SendError("x".to_string()))), 0);
    let mut c = channel();
    let _extra = c.tx.subscribe();
    assert_eq!(c.publish("a".to_string()), 2);
    let (tx, rx) = broadcast::channel::<String>(4);
    drop(rx);
    let mut lonely = Channel::new(tx, broadcast::channel::<String>(1).1);
    assert_eq!(lonely.publish("lost".to_string()), 0);
}

#[test]
fn subscriber_does_not_see_earlier_messages() {
    let mut registry = ready_registry();
    assert_eq!(registry.publish(Direction::BackToFront, "one".to_string()), Ok(1));
    assert_eq!(registry.publish(Direction::BackToFront, "two".to_string()), Ok(1));
    let mut late = registry.subscribe(Direction::BackToFront).unwrap().into_receiver();
    assert_eq!(late.try_recv(), Err(TryRecvError::Empty));
    assert_eq!(registry.publish(Direction::BackToFront, "three".to_string()), Ok(2));
    assert_eq!(late.try_recv(), Ok("three".to_string()));
    assert_eq!(late.try_recv(), Err(TryRecvError::Empty));
}

#[test]
fn registry_publish_and_subscribe_refused_before_initialize() {
    let mut registry = ChannelRegistry::new();
    assert_eq!(
        registry.publish(Direction::FrontToBack, "x".to_string()),
        Err(RegistryError::NotInitialized)
    );
    assert!(matches!(
        registry.subscribe(Direction::FrontToBack),
        Err(RegistryError::NotInitialized)
    ));
}

#[test]
fn open_refused_before_initialize() {
    let mut registry = ChannelRegistry::new();
    let mut acks = AckDispatcher::new();
    assert!(matches!(
        UploadSession::open(&mut registry, &mut acks, 7, "10.0.0.1".to_string()),
        Err(RegistryError::NotInitialized)
    ));
    assert_eq!(acks.on_ack(), None);
}

#[test]
fn open_announces_client_and_waits_for_ack() {
    let mut registry = ready_registry();
    let mut front_end = registry.subscribe(Direction::BackToFront).unwrap().into_receiver();
    let mut ack_feed = registry.subscribe(Direction::FrontToBack).unwrap().into_receiver();
    let mut acks = AckDispatcher::new();
    let mut session =
        UploadSession::open(&mut registry, &mut acks, 42, "192.168.1.7".to_string()).unwrap();
    assert_eq!(front_end.try_recv(), Ok("192.168.1.7".to_string()));
    assert_eq!(front_end.try_recv(), Err(TryRecvError::Empty));
    assert_eq!(ack_feed.try_recv(), Err(TryRecvError::Empty));
    registry.publish(Direction::FrontToBack, "ok".to_string()).unwrap();
    assert_eq!(ack_feed.try_recv(), Ok("ok".to_string()));
    assert_eq!(acks.on_ack(), Some(42));
    assert!(matches!(session.step(Event::Ack(AckPoll::Acknowledged)), Action::NextField));
}

#[test]
fn body_is_not_read_before_ack() {
    let mut registry = ready_registry();
    let mut acks = AckDispatcher::new();
    let mut session =
        UploadSession::open(&mut registry, &mut acks, 3, "1.2.3.4".to_string()).unwrap();
    assert!(matches!(
        session.step(field("a.txt", "text/plain")),
        Action::Fail(UploadError::OutOfOrder)
    ));
    assert!(matches!(
        session.step(Event::Ack(AckPoll::Acknowledged)),
        Action::Fail(UploadError::OutOfOrder)
    ));
}

#[test]
fn closed_ack_channel_parks() {
    let mut registry = ready_registry();
    let mut acks = AckDispatcher::new();
    let mut session =
        UploadSession::open(&mut registry, &mut acks, 3, "1.2.3.4".to_string()).unwrap();
    assert!(matches!(session.step(Event::Ack(AckPoll::Closed)), Action::Park));
    assert!(matches!(
        session.step(Event::Ack(AckPoll::Acknowledged)),
        Action::Park
    ));
}

#[test]
fn empty_body_finishes() {
    let mut session = acknowledged();
    assert!(matches!(session.step(Event::FieldsEnd), Action::Finish));
    assert!(matches!(session.step(Event::FieldsEnd), Action::Finish));
}

#[test]
fn upload_round_trip_saves_bytes_under_name() {
    let mut session = acknowledged();
    assert!(matches!(session.step(field("report.pdf", "application/pdf")), Action::ReadBody));
    let b = vec![0x25u8, 0x50, 0x44, 0x46, 0x00, 0xff];
    expect_save(session.step(Event::Body(b.clone())), "report.pdf", "application/pdf", &b);
    assert!(matches!(session.step(Event::Saved), Action::NextField));
    assert!(matches!(session.step(Event::FieldsEnd), Action::Finish));
}

#[test]
fn same_name_twice_saves_second_last() {
    let mut session = acknowledged();
    assert!(matches!(session.step(field("x.bin", "application/octet-stream")), Action::ReadBody));
    expect_save(session.step(Event::Body(vec![1, 2, 3])), "x.bin", "application/octet-stream", &[1, 2, 3]);
    assert!(matches!(session.step(Event::Saved), Action::NextField));
    assert!(matches!(session.step(field("x.bin", "text/plain")), Action::ReadBody));
    expect_save(session.step(Event::Body(vec![9])), "x.bin", "text/plain", &[9]);
    assert!(matches!(session.step(Event::Saved), Action::NextField));
}

#[test]
fn missing_file_name_fails_after_earlier_save() {
    let mut session = acknowledged();
    assert!(matches!(session.step(field("first.txt", "text/plain")), Action::ReadBody));
    expect_save(session.step(Event::Body(b"kept".to_vec())), "first.txt", "text/plain", b"kept");
    assert!(matches!(session.step(Event::Saved), Action::NextField));
    let nameless = Event::Field { file_name: None, content_type: Some("text/plain".to_string()) };
    assert!(matches!(session.step(nameless), Action::Fail(UploadError::MissingFileName)));
    assert!(matches!(
        session.step(field("later.txt", "text/plain")),
        Action::Fail(UploadError::MissingFileName)
    ));
}

#[test]
fn missing_content_type_fails() {
    let mut session = acknowledged();
    let untyped = Event::Field { file_name: Some("a".to_string()), content_type: None };
    assert!(matches!(session.step(untyped), Action::Fail(UploadError::MissingContentType)));
}

#[test]
fn unreadable_body_and_failed_write_fail() {
    let mut session = acknowledged();
    assert!(matches!(session.step(Event::BodyFailed), Action::Fail(UploadError::BodyUnreadable)));

    let mut session = acknowledged();
    assert!(matches!(session.step(field("a", "b")), Action::ReadBody));
    assert!(matches!(session.step(Event::BodyFailed), Action::Fail(UploadError::BodyUnreadable)));

    let mut session = acknowledged();
    assert!(matches!(session.step(field("a", "b")), Action::ReadBody));
    expect_save(session.step(Event::Body(vec![])), "a", "b", &[]);
    assert!(matches!(session.step(Event::SaveFailed), Action::Fail(UploadError::WriteFailed)));
}

#[test]
fn one_ack_releases_exactly_one_request() {
    let mut registry = ready_registry();
    let mut ack_feed = registry.subscribe(Direction::FrontToBack).unwrap().into_receiver();
    let mut acks = AckDispatcher::new();
    let mut first =
        UploadSession::open(&mut registry, &mut acks, 1, "10.0.0.1".to_string()).unwrap();
    let mut second =
        UploadSession::open(&mut registry, &mut acks, 2, "10.0.0.2".to_string()).unwrap();
    registry.publish(Direction::FrontToBack, "ack".to_string()).unwrap();
    assert_eq!(ack_feed.try_recv(), Ok("ack".to_string()));
    assert_eq!(ack_feed.try_recv(), Err(TryRecvError::Empty));
    assert_eq!(acks.on_ack(), Some(1));
    assert!(matches!(first.step(Event::Ack(AckPoll::Acknowledged)), Action::NextField));
    // The second request was not let go: it goes on only with the next acknowledgment.
    assert_eq!(acks.on_ack(), Some(2));
    assert!(matches!(
        second.step(Event::Ack(AckPoll::Acknowledged)),
        Action::NextField
    ));
    assert_eq!(acks.on_ack(), None);
}

#[test]
fn closed_channel_hands_back_every_waiting_request() {
    let mut acks = AckDispatcher::new();
    acks.enter(5);
    acks.enter(9);
    acks.enter(5);
    assert_eq!(acks.on_closed(), vec![5, 9, 5]);
    assert_eq!(acks.on_ack(), None);
    assert_eq!(acks.on_closed(), Vec::<u64>::new());
}

#[test]
fn missed_acks_release_as_many_requests() {
    let mut acks = AckDispatcher::new();
    for t in [1u64, 2, 3, 4] {
        acks.enter(t);
    }
    assert_eq!(acks.on_missed(0), Vec::<u64>::new());
    assert_eq!(acks.on_missed(3), vec![1, 2, 3]);
    assert_eq!(acks.on_missed(5), vec![4]);
    assert_eq!(acks.on_ack(), None);
}

#[test]
fn leaving_request_spends_no_ack() {
    let mut acks = AckDispatcher::new();
    acks.enter(1);
    acks.enter(2);
    acks.enter(1);
    acks.enter(3);
    acks.leave(1);
    assert_eq!(acks.on_ack(), Some(2));
    acks.leave(9);
    assert_eq!(acks.on_ack(), Some(3));
    assert_eq!(acks.on_ack(), None);
}
