use mqtt_handshake::error::{server_error_message, Expected, MqttError, ProtocolError};
use mqtt_handshake::packet::{Connect, Packet, PacketType};
use mqtt_handshake::selector::{Readiness, Selector, SelectorAction, SelectorEvent, SelectorService, SelectorStage};
use mqtt_handshake::shared::MemoryPool;
use mqtt_handshake::time::Seconds;

type Action = SelectorAction<String>;
type Event = SelectorEvent<String>;

fn connect_packet() -> Connect {
    Connect {
        client_id: "c1".to_string(),
        clean_start: true,
        keep_alive: 30,
        last_will: None,
        auth_method: None,
        auth_data: None,
        username: None,
        password: None,
        max_packet_size: None,
        receive_max: None,
        user_properties: Vec::new(),
    }
}

fn two_variants() -> SelectorService {
    Selector::new().variant("v3", 3u32).variant("v5", 5u32).max_size(512).new_service()
}

#[test]
fn second_variant_accepts() {
    let svc = two_variants();
    assert_eq!(svc.variants, 2);
    let (st, a): (SelectorStage, Action) = svc.call();
    assert_eq!(a, SelectorAction::ReadFirst);
    let (st, a) = svc.step(st, Event::Received(Packet::Connect(connect_packet())));
    assert_eq!(a, SelectorAction::Offer(0));
    let (st, a) = svc.step(st, Event::Declined);
    assert_eq!(a, SelectorAction::Offer(1));
    let (st, a) = svc.step(st, Event::Chosen);
    match a {
        SelectorAction::Delegate(k, item) => {
            assert_eq!(k, 1);
            assert_eq!(item.packet, connect_packet());
            assert_eq!(item.shared.codec.max_inbound, 512);
            assert_eq!(item.deadline, None);
        }
        other => panic!("unexpected action {:?}", other),
    }
    assert_eq!(st, SelectorStage::Delegated { k: 1 });
    let (st, a) = svc.step(st, Event::Completed(Ok(())));
    assert_eq!(a, SelectorAction::Finish(Ok(())));
    assert_eq!(st, SelectorStage::Closed);
}

#[test]
fn accepting_variant_failure_is_final() {
    let svc = two_variants();
    let (st, _): (SelectorStage, Action) = svc.call();
    let (st, _) = svc.step(st, Event::Received(Packet::Connect(connect_packet())));
    let (st, a) = svc.step(st, Event::Chosen);
    assert!(matches!(a, SelectorAction::Delegate(0, _)));
    let (st, a) = svc.step(st, Event::Completed(Err("bad auth".to_string())));
    assert_eq!(a, SelectorAction::Finish(Err(MqttError::Service("bad auth".to_string()))));
    let (_, a) = svc.step(st, Event::Declined);
    assert_eq!(a, SelectorAction::Ignore);
}

#[test]
fn predicate_failure_ends_connection() {
    let svc = two_variants();
    let (st, _): (SelectorStage, Action) = svc.call();
    let (st, _) = svc.step(st, Event::Received(Packet::Connect(connect_packet())));
    let (_, a) = svc.step(st, Event::Failed("check".to_string()));
    assert_eq!(a, SelectorAction::Finish(Err(MqttError::Service("check".to_string()))));
}

#[test]
fn all_variants_decline() {
    let svc = two_variants();
    let (st, _): (SelectorStage, Action) = svc.call();
    let (st, _) = svc.step(st, Event::Received(Packet::Connect(connect_packet())));
    let (st, _) = svc.step(st, Event::Declined);
    let (st, a) = svc.step(st, Event::Declined);
    assert_eq!(a, SelectorAction::Finish(Err(MqttError::ServerError)));
    assert_eq!(st, SelectorStage::Closed);
    assert_eq!(server_error_message(), "Cannot handle CONNECT packet");
}

#[test]
fn no_variants_is_server_error() {
    let svc = Selector::<u8, u8>::new().new_service();
    let (st, _): (SelectorStage, Action) = svc.call();
    let (_, a) = svc.step(st, Event::Received(Packet::Connect(connect_packet())));
    assert_eq!(a, SelectorAction::Finish(Err(MqttError::ServerError)));
}

#[test]
fn publish_first_is_protocol_violation() {
    let svc = two_variants();
    let (st, _): (SelectorStage, Action) = svc.call();
    let (st, a) = svc.step(st, Event::Received(Packet::Publish));
    assert_eq!(
        a,
        SelectorAction::Finish(Err(MqttError::Protocol(ProtocolError::Unexpected(
            PacketType::Publish,
            Expected::ConnectFirst
        ))))
    );
    assert_eq!(st, SelectorStage::Closed);
    assert_eq!(Expected::ConnectFirst.message(), "MQTT-3.1.0-1: Expected CONNECT packet");
    let (_, a) = svc.step(st, Event::Received(Packet::Connect(connect_packet())));
    assert_eq!(a, SelectorAction::Ignore);
}

#[test]
fn first_read_failures() {
    let svc = two_variants();
    let (st, _): (SelectorStage, Action) = svc.call();
    let (_, a) = svc.step(st, Event::Closed);
    assert_eq!(a, SelectorAction::Finish(Err(MqttError::Disconnected)));
    let (st, _): (SelectorStage, Action) = svc.call();
    let (_, a) = svc.step(st, Event::DecodeFailed);
    assert_eq!(a, SelectorAction::Finish(Err(MqttError::Protocol(ProtocolError::Decode))));
    let (st, _): (SelectorStage, Action) = svc.call();
    let (_, a) = svc.step(st, Event::IoFailed);
    assert_eq!(a, SelectorAction::Finish(Err(MqttError::Io)));
}

#[test]
fn handshake_deadline_reaches_variant() {
    let sel = Selector::new().variant(1u8, 1u8).handshake_timeout(Seconds(5)).memory_pool(MemoryPool::new(3));
    let svc = sel.new_service();
    assert_eq!(svc.handshake_timeout, Seconds(5));
    let (st, _): (SelectorStage, Action) = svc.call();
    let (st, _) = svc.step(st, Event::Received(Packet::Connect(connect_packet())));
    let (_, a) = svc.step(st, Event::Chosen);
    match a {
        SelectorAction::Delegate(0, item) => {
            assert_eq!(item.deadline, Some(Seconds(5)));
            assert_eq!(item.shared.pool, MemoryPool::new(3));
            assert_eq!(item.shared.cap, 0);
        }
        other => panic!("unexpected action {:?}", other),
    }
    let inner = sel.finish_server();
    assert_eq!(inner.handshake_timeout, Seconds(0));
    let (st, _): (SelectorStage, Action) = inner.accept(Some(Seconds(2)));
    assert!(matches!(st, SelectorStage::ReadingFirst { deadline: Some(Seconds(2)), .. }));
}

#[test]
fn readiness_of_all_variants() {
    let svc = two_variants();
    assert_eq!(svc.poll_ready(&vec![Readiness::Ready, Readiness::Ready]), Ok(true));
    assert_eq!(svc.poll_ready(&vec![Readiness::Ready, Readiness::Pending]), Ok(false));
    assert_eq!(svc.poll_ready(&vec![Readiness::Pending, Readiness::Failed, Readiness::Failed]), Err(1));
    assert_eq!(svc.poll_ready(&vec![]), Ok(true));
    assert!(svc.poll_shutdown(&vec![true, true]));
    assert!(!svc.poll_shutdown(&vec![true, false]));
    assert!(svc.poll_shutdown(&vec![]));
}
