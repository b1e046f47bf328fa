use mqtt_handshake::client::{ClientAction, ClientEvent, ClientHandshake, ClientStage, MqttConnector};
use mqtt_handshake::error::{ClientError, Expected, ProtocolError};
use mqtt_handshake::packet::{ConnectAck, LastWill, Packet, PacketType};
use mqtt_handshake::shared::MemoryPool;
use mqtt_handshake::time::Seconds;

fn ack(reason_code: u8) -> ConnectAck {
    ConnectAck {
        session_present: false,
        reason_code,
        server_keepalive_sec: None,
        max_packet_size: None,
        receive_max: None,
        assigned_client_id: None,
        reason_string: None,
        user_properties: Vec::new(),
    }
}

/// Opens the stream and writes CONNECT; returns the attempt waiting for its answer.
fn until_awaiting(c: &MqttConnector) -> ClientHandshake {
    let (h, _) = c.connect();
    let (h, a) = c.step(h, ClientEvent::Connected);
    assert_eq!(a, ClientAction::SendConnect);
    let (h, a) = c.step(h, ClientEvent::Sent);
    assert_eq!(a, ClientAction::ReadNext);
    h
}

#[test]
fn negotiated_keep_alive_and_credit() {
    let c = MqttConnector::new("broker:1883".to_string()).keep_alive(Seconds(30)).receive_max(16);
    let h = until_awaiting(&c);
    let mut a = ack(0);
    a.server_keepalive_sec = Some(60);
    a.receive_max = Some(8);
    let (h, action) = c.step(h, ClientEvent::Received(Packet::ConnectAck(a.clone())));
    assert_eq!(h.stage, ClientStage::Finished);
    match action {
        ClientAction::Finish(Ok(client)) => {
            assert_eq!(client.keep_alive, Seconds(60));
            assert_eq!(client.shared.cap, 8);
            assert_eq!(client.max_receive, 16);
            assert_eq!(client.ack, a);
            assert_eq!(client.disconnect_timeout, Seconds(3));
        }
        other => panic!("unexpected action {:?}", other),
    }
}

#[test]
fn handshake_timeout_fires() {
    let c = MqttConnector::new("broker:1883".to_string()).handshake_timeout(Seconds(5));
    let (h, a) = c.connect();
    assert_eq!(a, ClientAction::Open { deadline: Some(Seconds(5)) });
    assert!(h.timer);
    let (h, _) = c.step(h, ClientEvent::Connected);
    let (h, _) = c.step(h, ClientEvent::Sent);
    let (h, a) = c.step(h, ClientEvent::TimerFired);
    assert_eq!(a, ClientAction::Finish(Err(ClientError::HandshakeTimeout)));
    assert_eq!(h.stage, ClientStage::Finished);
    let (_, a) = c.step(h, ClientEvent::Received(Packet::ConnectAck(ack(0))));
    assert_eq!(a, ClientAction::Ignore);
}

#[test]
fn timeout_while_connecting() {
    let c = MqttConnector::new("broker:1883".to_string()).handshake_timeout(Seconds(1));
    let (h, _) = c.connect();
    let (_, a) = c.step(h, ClientEvent::TimerFired);
    assert_eq!(a, ClientAction::Finish(Err(ClientError::HandshakeTimeout)));
}

#[test]
fn no_timer_without_timeout() {
    let c = MqttConnector::new("broker:1883".to_string());
    let (h, a) = c.connect();
    assert_eq!(a, ClientAction::Open { deadline: None });
    assert!(!h.timer);
    let h = {
        let (h, _) = c.step(h, ClientEvent::Connected);
        let (h, _) = c.step(h, ClientEvent::Sent);
        h
    };
    let (h, a) = c.step(h, ClientEvent::TimerFired);
    assert_eq!(a, ClientAction::Ignore);
    let (_, a) = c.step(h, ClientEvent::Received(Packet::ConnectAck(ack(0))));
    assert!(matches!(a, ClientAction::Finish(Ok(_))));
}

#[test]
fn rejecting_ack_is_kept_whole() {
    let c = MqttConnector::new("broker:1883".to_string());
    let h = until_awaiting(&c);
    let mut a = ack(0x87);
    a.reason_string = Some("not authorized".to_string());
    let (_, action) = c.step(h, ClientEvent::Received(Packet::ConnectAck(a.clone())));
    match action {
        ClientAction::Finish(Err(ClientError::Ack(got))) => {
            assert_eq!(got.reason_code, 0x87);
            assert_eq!(got, a);
        }
        other => panic!("unexpected action {:?}", other),
    }
}

#[test]
fn absent_receive_max_is_unbounded() {
    let c = MqttConnector::new("broker:1883".to_string()).keep_alive(Seconds(45));
    let h = until_awaiting(&c);
    let (_, action) = c.step(h, ClientEvent::Received(Packet::ConnectAck(ack(0))));
    match action {
        ClientAction::Finish(Ok(client)) => {
            assert_eq!(client.shared.cap, 0);
            assert_eq!(client.keep_alive, Seconds(45));
            assert_eq!(client.shared.codec.max_outbound, None);
        }
        other => panic!("unexpected action {:?}", other),
    }
}

#[test]
fn negotiated_packet_sizes() {
    let c = MqttConnector::new("broker:1883".to_string()).max_packet_size(4096);
    assert_eq!(c.max_inbound_size(), 4096);
    let h = until_awaiting(&c);
    let mut a = ack(0);
    a.max_packet_size = Some(1024);
    let (_, action) = c.step(h, ClientEvent::Received(Packet::ConnectAck(a)));
    match action {
        ClientAction::Finish(Ok(client)) => {
            assert_eq!(client.shared.codec.max_inbound, 4096);
            assert_eq!(client.shared.codec.max_outbound, Some(1024));
            assert!(client.shared.cap_set);
        }
        other => panic!("unexpected action {:?}", other),
    }
}

#[test]
fn unexpected_answer_is_protocol_error() {
    let c = MqttConnector::new("broker:1883".to_string());
    let h = until_awaiting(&c);
    let (_, a) = c.step(h, ClientEvent::Received(Packet::Publish));
    assert_eq!(
        a,
        ClientAction::Finish(Err(ClientError::Protocol(ProtocolError::Unexpected(
            PacketType::Publish,
            Expected::ConnectAck
        ))))
    );
    assert_eq!(Expected::ConnectAck.message(), "Expected CONNECT-ACK packet");
}

#[test]
fn closed_before_answer_is_disconnected() {
    let c = MqttConnector::new("broker:1883".to_string());
    let h = until_awaiting(&c);
    let (_, a) = c.step(h, ClientEvent::Closed);
    assert_eq!(a, ClientAction::Finish(Err(ClientError::Disconnected)));
}

#[test]
fn transport_and_stream_failures() {
    let c = MqttConnector::new("broker:1883".to_string());
    let (h, _) = c.connect();
    let (_, a) = c.step(h, ClientEvent::ConnectFailed);
    assert_eq!(a, ClientAction::Finish(Err(ClientError::Connect)));

    let (h, _) = c.connect();
    let (h, _) = c.step(h, ClientEvent::Connected);
    let (_, a) = c.step(h, ClientEvent::IoFailed);
    assert_eq!(a, ClientAction::Finish(Err(ClientError::Io)));

    let h = until_awaiting(&c);
    let (_, a) = c.step(h, ClientEvent::DecodeFailed);
    assert_eq!(a, ClientAction::Finish(Err(ClientError::Protocol(ProtocolError::Decode))));
}

#[test]
fn connector_defaults() {
    let c = MqttConnector::new("broker:1883".to_string());
    assert_eq!(c.pkt.keep_alive, 30);
    assert_eq!(c.pkt.receive_max, Some(16));
    assert_eq!(c.pkt.max_packet_size, None);
    assert_eq!(c.handshake_timeout, Seconds(0));
    assert_eq!(c.disconnect_timeout, Seconds(3));
    assert_eq!(c.pool, MemoryPool::default_pool());
    assert_eq!(c.max_inbound_size(), 0);
}

#[test]
fn connector_builders() {
    let will = LastWill { topic: "t/will".to_string(), message: vec![1, 2], qos: 1, retain: false };
    let c = MqttConnector::new("broker:1883".to_string())
        .client_id("dev-1".to_string())
        .clean_start()
        .last_will(will.clone())
        .auth("token".to_string(), vec![9])
        .username("user".to_string())
        .password(vec![7, 7])
        .max_packet_size(0)
        .receive_max(0)
        .properties(|mut p| {
            p.push(("k".to_string(), "v".to_string()));
            p
        })
        .disconnect_timeout(Seconds(0))
        .memory_pool(MemoryPool::new(2));
    let p = c.connect_packet();
    assert_eq!(p.client_id, "dev-1");
    assert!(p.clean_start);
    assert_eq!(p.last_will, Some(will));
    assert_eq!(p.auth_method, Some("token".to_string()));
    assert_eq!(p.auth_data, Some(vec![9]));
    assert_eq!(p.username, Some("user".to_string()));
    assert_eq!(p.password, Some(vec![7, 7]));
    assert_eq!(p.max_packet_size, None);
    assert_eq!(p.receive_max, None);
    assert_eq!(p.user_properties, vec![("k".to_string(), "v".to_string())]);
    assert_eq!(c.disconnect_timeout, Seconds(0));
    assert_eq!(c.pool.id, 2);
    let c = c.packet(|mut p| {
        p.keep_alive = 10;
        p
    });
    assert_eq!(c.pkt.keep_alive, 10);
}

#[test]
fn advertised_credit_is_reported() {
    let c = MqttConnector::new("broker:1883".to_string()).receive_max(0);
    let h = until_awaiting(&c);
    let (_, action) = c.step(h, ClientEvent::Received(Packet::ConnectAck(ack(0))));
    match action {
        ClientAction::Finish(Ok(client)) => assert_eq!(client.max_receive, 0),
        other => panic!("unexpected action {:?}", other),
    }
}

#[test]
fn seconds_helpers() {
    assert!(!Seconds(0).non_zero());
    assert!(Seconds(3).non_zero());
    assert_eq!(Seconds(7).seconds(), 7);
    assert_eq!(Seconds(0).deadline(), None);
    assert_eq!(Seconds(4).deadline(), Some(Seconds(4)));
}
