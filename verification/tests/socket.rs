use serde_json::Value;
use streamdeck_rs::json::{BadMessage, DecodeError};
use streamdeck_rs::socket::{
    receive, receive_all, registration_frame, send_frame, Address, AddressError, ConnectAction,
    ConnectError, ConnectEvent, ConnectState, Connection, Frame, Host, Polled, Received, Scheme,
    SocketState, StreamDeckSocketError, TransportError,
};
use streamdeck_rs::{Handshake, Message, MessageOut};

type Event = Message<Value, Value, Value>;
type Command = MessageOut<Value, Value, Value>;

fn failure(text: &str) -> TransportError {
    TransportError { message: text.to_string() }
}

#[test]
fn port_resolves_to_loopback() {
    for port in [0u16, 1, 80, 8000, 28196, 65535] {
        let address = Address::from(port);
        assert_eq!(address.scheme, Scheme::Ws);
        assert_eq!(address.host, Host::Loopback);
        assert_eq!(address.port, port);
        assert_eq!(Address::from_port(port), address);
    }
    let address: Address = 8000.into();
    assert_eq!(address.host.as_text(), "localhost");
    assert_eq!(address.scheme.as_text(), "ws");
}

#[test]
fn url_is_used_as_it_is() {
    let address = Address::from_url_parts("ws", "127.0.0.1".to_string(), 28196);
    assert_eq!(
        address,
        Ok(Address {
            scheme: Scheme::Ws,
            host: Host::Named("127.0.0.1".to_string()),
            port: 28196
        })
    );
    assert_eq!(address.unwrap().host.as_text(), "127.0.0.1");
}

#[test]
fn other_schemes_are_unsupported() {
    for scheme in ["http", "https", "wss", "WS", "", "ws "] {
        assert_eq!(
            Address::from_url_parts(scheme, "localhost".to_string(), 80),
            Err(AddressError::UnsupportedScheme)
        );
    }
}

#[test]
fn registration_frame_has_the_exact_shape() {
    assert_eq!(
        registration_frame("registerPlugin", "abc-123").unwrap(),
        r#"{"event":"registerPlugin","uuid":"abc-123"}"#
    );
    assert_eq!(
        registration_frame("a\"b", "").unwrap(),
        r#"{"event":"a\"b","uuid":""}"#
    );
}

#[test]
fn connecting_registers_first() {
    let mut handshake =
        Handshake::start(Address::from(8000), "registerPlugin", "abc-123").unwrap();
    assert_eq!(handshake.state, ConnectState::Connecting);
    assert_eq!(handshake.address, Address::from_port(8000));
    assert_eq!(handshake.step(ConnectEvent::Connected), ConnectAction::Upgrade);
    assert_eq!(handshake.state, ConnectState::Negotiating);
    assert_eq!(
        handshake.step(ConnectEvent::Upgraded),
        ConnectAction::Send(r#"{"event":"registerPlugin","uuid":"abc-123"}"#.to_string())
    );
    assert_eq!(handshake.state, ConnectState::Registering);
    assert_eq!(handshake.step(ConnectEvent::Sent), ConnectAction::Finish);
    assert_eq!(handshake.state, ConnectState::Ready);

    let frame = send_frame(&Command::ShowAlert { context: "ctx1".to_string() }).unwrap();
    assert_eq!(frame, Frame::Text(r#"{"event":"showAlert","context":"ctx1"}"#.to_string()));

    let polled = Polled::Frame(Frame::Text(r#"{"event":"systemDidWakeUp"}"#.to_string()));
    assert!(matches!(receive(polled), Received::Item(Ok(Event::SystemDidWakeUp))));
}

#[test]
fn connect_failure_ends_the_attempt() {
    let mut handshake = Handshake::start(Address::from(1), "e", "u").unwrap();
    assert_eq!(
        handshake.step(ConnectEvent::ConnectFailed(failure("refused"))),
        ConnectAction::Fail(ConnectError::ConnectionError(failure("refused")))
    );
    assert_eq!(handshake.state, ConnectState::Failed);
    assert_eq!(handshake.step(ConnectEvent::Connected), ConnectAction::Ignore);
    assert_eq!(handshake.step(ConnectEvent::Upgraded), ConnectAction::Ignore);
    assert_eq!(handshake.step(ConnectEvent::Sent), ConnectAction::Ignore);
    assert_eq!(handshake.state, ConnectState::Failed);
}

#[test]
fn upgrade_failure_is_a_protocol_error() {
    let mut handshake = Handshake::start(Address::from(1), "e", "u").unwrap();
    handshake.step(ConnectEvent::Connected);
    assert_eq!(
        handshake.step(ConnectEvent::UpgradeFailed(failure("400"))),
        ConnectAction::Fail(ConnectError::ProtocolError(failure("400")))
    );
    assert_eq!(handshake.state, ConnectState::Failed);
}

#[test]
fn send_failure_is_a_send_error() {
    let mut handshake = Handshake::start(Address::from(1), "e", "u").unwrap();
    handshake.step(ConnectEvent::Connected);
    handshake.step(ConnectEvent::Upgraded);
    assert_eq!(
        handshake.step(ConnectEvent::SendFailed(failure("reset"))),
        ConnectAction::Fail(ConnectError::SendError(failure("reset")))
    );
    assert_eq!(handshake.state, ConnectState::Failed);
}

#[test]
fn reports_out_of_turn_are_ignored() {
    let mut handshake = Handshake::start(Address::from(1), "e", "u").unwrap();
    assert_eq!(handshake.step(ConnectEvent::Upgraded), ConnectAction::Ignore);
    assert_eq!(handshake.step(ConnectEvent::Sent), ConnectAction::Ignore);
    assert_eq!(handshake.step(ConnectEvent::SendFailed(failure("x"))), ConnectAction::Ignore);
    assert_eq!(handshake.state, ConnectState::Connecting);
    handshake.step(ConnectEvent::Connected);
    assert_eq!(handshake.step(ConnectEvent::Connected), ConnectAction::Ignore);
    assert_eq!(handshake.step(ConnectEvent::Sent), ConnectAction::Ignore);
    assert_eq!(handshake.state, ConnectState::Negotiating);
    handshake.step(ConnectEvent::Upgraded);
    assert_eq!(handshake.step(ConnectEvent::Upgraded), ConnectAction::Ignore);
    assert_eq!(handshake.state, ConnectState::Registering);
    handshake.step(ConnectEvent::Sent);
    assert_eq!(handshake.step(ConnectEvent::Upgraded), ConnectAction::Ignore);
    assert_eq!(handshake.step(ConnectEvent::Sent), ConnectAction::Ignore);
    assert_eq!(handshake.state, ConnectState::Ready);
}

#[test]
fn registration_is_sent_once_whatever_is_reported() {
    let reports = [
        ConnectEvent::Upgraded,
        ConnectEvent::Connected,
        ConnectEvent::Connected,
        ConnectEvent::Upgraded,
        ConnectEvent::Upgraded,
        ConnectEvent::Sent,
        ConnectEvent::Upgraded,
        ConnectEvent::Sent,
    ];
    let mut handshake = Handshake::start(Address::from(1), "e", "u").unwrap();
    let mut sent = 0;
    for report in reports {
        if let ConnectAction::Send(text) = handshake.step(report) {
            assert_eq!(text, r#"{"event":"e","uuid":"u"}"#);
            sent += 1;
        }
    }
    assert_eq!(sent, 1);
    assert_eq!(handshake.state, ConnectState::Ready);
}

#[test]
fn non_text_frames_give_nothing() {
    let frames = vec![
        Frame::Binary(vec![1, 2, 3]),
        Frame::Binary(br#"{"event":"systemDidWakeUp"}"#.to_vec()),
        Frame::Ping(vec![]),
        Frame::Pong(vec![9]),
        Frame::Close,
        Frame::Raw,
    ];
    for frame in frames.iter() {
        assert!(matches!(receive(Polled::Frame(frame.clone())), Received::Skip));
    }
    assert!(receive_all(&frames).is_empty());
}

#[test]
fn transport_answers_are_handed_on() {
    assert!(matches!(receive(Polled::Closed), Received::End));
    assert!(matches!(receive(Polled::Pending), Received::Pending));
    match receive(Polled::Failed(failure("broken pipe"))) {
        Received::Item(Err(StreamDeckSocketError::WebSocketError(e))) => {
            assert_eq!(e, failure("broken pipe"))
        }
        other => panic!("unexpected {:?}", other),
    }
}

#[test]
fn bad_frame_is_one_bad_item() {
    let polled = Polled::Frame(Frame::Text("not json".to_string()));
    assert!(matches!(
        receive(polled),
        Received::Item(Err(StreamDeckSocketError::BadMessage(BadMessage::Syntax(_))))
    ));
    let polled = Polled::Frame(Frame::Text(r#"{"event":"keyDown"}"#.to_string()));
    assert!(matches!(
        receive(polled),
        Received::Item(Err(StreamDeckSocketError::BadMessage(BadMessage::Field(
            DecodeError::Missing("action")
        ))))
    ));
}

#[test]
fn frames_are_decoded_one_by_one() {
    let frames = vec![
        Frame::Ping(vec![]),
        Frame::Text(r#"{"event":"systemDidWakeUp"}"#.to_string()),
        Frame::Text("{".to_string()),
        Frame::Binary(vec![0]),
        Frame::Text(r#"{"event":"deviceDidDisconnect","device":"d"}"#.to_string()),
        Frame::Text(r#"{"event":"deviceDidDisconnect"}"#.to_string()),
        Frame::Text(r#"{"event":"fromTheFuture"}"#.to_string()),
        Frame::Close,
    ];
    let items = receive_all(&frames);
    assert_eq!(items.len(), 5);
    assert!(matches!(items[0], Ok(Event::SystemDidWakeUp)));
    assert!(matches!(
        items[1],
        Err(StreamDeckSocketError::BadMessage(BadMessage::Syntax(_)))
    ));
    assert!(matches!(&items[2], Ok(Event::DeviceDidDisconnect { device }) if device == "d"));
    assert!(matches!(
        items[3],
        Err(StreamDeckSocketError::BadMessage(BadMessage::Field(DecodeError::Missing("device"))))
    ));
    assert!(matches!(items[4], Ok(Event::Unknown)));
}

#[test]
fn each_command_is_one_text_frame() {
    let command = Command::SetSettings {
        context: "c".to_string(),
        payload: serde_json::from_str(r#"{"n":[1,2.5,-3],"s":"é"}"#).unwrap(),
    };
    match send_frame(&command).unwrap() {
        Frame::Text(text) => {
            assert_eq!(text, "{\"event\":\"setSettings\",\"context\":\"c\",\"payload\":{\"n\":[1,2.5,-3],\"s\":\"é\"}}")
        }
        other => panic!("unexpected {:?}", other),
    }
}

#[test]
fn open_socket_reads_and_sends() {
    let mut connection = Connection::open();
    assert!(connection.is_open());
    let wake = Polled::Frame(Frame::Text(r#"{"event":"systemDidWakeUp"}"#.to_string()));
    assert!(matches!(connection.receive(wake), Received::Item(Ok(Event::SystemDidWakeUp))));
    assert!(matches!(connection.receive(Polled::Frame(Frame::Ping(vec![]))), Received::Skip));
    assert!(matches!(connection.receive(Polled::Pending), Received::Pending));
    let bad = Polled::Frame(Frame::Text("?".to_string()));
    assert!(matches!(connection.receive(bad), Received::Item(Err(_))));
    assert_eq!(connection.state, SocketState::Open);
    let command = Command::ShowOk { context: "c".to_string() };
    match connection.send(&command) {
        Some(Ok(frame)) => {
            assert_eq!(frame, Frame::Text(r#"{"event":"showOk","context":"c"}"#.to_string()))
        }
        other => panic!("unexpected {:?}", other),
    }
}

#[test]
fn failed_socket_is_of_no_further_use() {
    let mut connection = Connection::open();
    assert!(matches!(
        connection.receive(Polled::Failed(failure("reset"))),
        Received::Item(Err(StreamDeckSocketError::WebSocketError(_)))
    ));
    assert_eq!(connection.state, SocketState::Errored);
    let wake = Polled::Frame(Frame::Text(r#"{"event":"systemDidWakeUp"}"#.to_string()));
    assert!(matches!(connection.receive(wake), Received::End));
    assert!(matches!(connection.receive(Polled::Pending), Received::End));
    assert!(connection.send(&Command::ShowOk { context: "c".to_string() }).is_none());
    assert_eq!(connection.state, SocketState::Errored);
}

#[test]
fn closed_socket_stays_closed() {
    let mut connection = Connection::open();
    assert!(matches!(connection.receive(Polled::Closed), Received::End));
    assert_eq!(connection.state, SocketState::Closed);
    assert!(matches!(connection.receive(Polled::Failed(failure("late"))), Received::End));
    assert_eq!(connection.state, SocketState::Closed);
    connection.send_failed();
    assert_eq!(connection.state, SocketState::Closed);
    assert!(!connection.is_open());
}

#[test]
fn failed_send_ends_the_socket() {
    let mut connection = Connection::open();
    connection.send_failed();
    assert_eq!(connection.state, SocketState::Errored);
    assert!(matches!(connection.receive(Polled::Pending), Received::End));
}
