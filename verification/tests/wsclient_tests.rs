use futures_channel::mpsc::UnboundedReceiver;
use std::io::ErrorKind;
use std::time::Duration;
use webclient::error::ClientError;
use webclient::error::ConnectorError;
use webclient::ws::wsclient::connect_failure;
use webclient::ws::wsclient::parse_timeout;
use webclient::ws::wsclient::probe_next;
use webclient::ws::wsclient::probe_start;
use webclient::ws::wsclient::react_to;
use webclient::ws::wsclient::Frame;
use webclient::ws::wsclient::Incoming;
use webclient::ws::wsclient::ProbeAction;
use webclient::ws::wsclient::ProbeStep;
use webclient::ws::wsclient::Reaction;
use webclient::ws::wsclient::WsClient;
use webclient::ws::wsclient::ADDRS;
use webclient::DataEntity;

fn next_frame(rx: &mut UnboundedReceiver<Frame>) -> Option<Frame> {
    match rx.try_next() {
        Ok(Some(f)) => Some(f),
        _ => None,
    }
}

#[test]
fn parse_timeout_rejects_zero() {
    let e = parse_timeout(0).unwrap_err();
    assert_eq!(e.kind(), ErrorKind::InvalidInput);
    assert_eq!(e.to_string(), "cannot set a 0 duration timeout");
}

#[test]
fn parse_timeout_gives_seconds() {
    assert_eq!(parse_timeout(5).unwrap(), Duration::from_secs(5));
    assert_eq!(parse_timeout(1).unwrap().as_secs(), 1);
    assert_eq!(parse_timeout(u64::MAX).unwrap().as_secs(), u64::MAX);
}

#[test]
fn probe_tries_hosts_in_order() {
    assert_eq!(ADDRS, ["baidu.com:80", "bing.com:80"]);
    assert_eq!(probe_start(), ProbeStep::Dial(0));
    assert_eq!(probe_next(0, true), ProbeStep::Reachable);
    assert_eq!(probe_next(0, false), ProbeStep::Dial(1));
    assert_eq!(probe_next(1, true), ProbeStep::Reachable);
    assert_eq!(probe_next(1, false), ProbeStep::Unreachable);
}

#[test]
fn reactions_to_incoming_messages() {
    match react_to(Incoming::Text("hi".to_string())) {
        Reaction::Deliver(DataEntity::Text { data }) => assert_eq!(data, "hi"),
        other => panic!("unexpected {:?}", other),
    }
    match react_to(Incoming::Binary(vec![1, 2, 3])) {
        Reaction::Deliver(DataEntity::Binary { data }) => assert_eq!(data, vec![1, 2, 3]),
        other => panic!("unexpected {:?}", other),
    }
    match react_to(Incoming::Ping(vec![9, 8])) {
        Reaction::ReplyPong(data) => assert_eq!(data, vec![9, 8]),
        other => panic!("unexpected {:?}", other),
    }
    assert!(matches!(react_to(Incoming::Pong), Reaction::Ignore));
    assert!(matches!(react_to(Incoming::Other), Reaction::Ignore));
    assert!(matches!(react_to(Incoming::Close), Reaction::Closed));
    match react_to(Incoming::ReadFailure("reset".to_string())) {
        Reaction::Deliver(DataEntity::Error { err: ConnectorError::WsReadError(s) }) => {
            assert_eq!(s, "ws read data error:  reset")
        }
        other => panic!("unexpected {:?}", other),
    }
}

#[test]
fn connect_failure_text() {
    match connect_failure("refused") {
        DataEntity::Error { err } => {
            assert_eq!(err.message(), "ws connect error: ws connect error: refused");
            assert!(matches!(err, ConnectorError::WsConnectError(ref s) if s == "ws connect error: refused"));
        }
        other => panic!("unexpected {:?}", other),
    }
}

#[test]
fn connector_error_messages() {
    assert_eq!(ConnectorError::WsConnectError("x".to_string()).message(), "ws connect error: x");
    assert_eq!(ConnectorError::WsReadError("y".to_string()).message(), "ws read data error: y");
    assert_eq!(ConnectorError::Unknown.message(), "unknown data store error");
}

#[test]
fn client_error_messages() {
    assert_eq!(
        ClientError::NotConnected.message(),
        "[connector]send data with error as conn_status is false"
    );
    assert_eq!(
        ClientError::NoSender.message(),
        "[connector]send data with error as tx is none, not valid"
    );
    assert_eq!(
        ClientError::ChannelClosed("gone".to_string(), Frame::Pong(vec![])).message(),
        "gone"
    );
    assert_eq!(
        ClientError::ResponseTimeout.message(),
        "timeout for waiting for client response"
    );
}

#[test]
fn new_client_defaults() {
    let c = WsClient::new("ws://localhost:9000/ws", None, true, None);
    assert_eq!(c.url, "ws://localhost:9000/ws");
    assert_eq!(c.reconn_time, 1);
    assert!(c.reconnect);
    assert!(c.token.is_none());
    assert!(c.tx.is_none());
    assert!(!c.conn_status);
    assert!(!c.conn_task);
    assert!(!c.probe_thread_status);
    let c = WsClient::new("ws://h", Some("tok".to_string()), false, Some(7));
    assert_eq!(c.reconn_time, 7);
    assert_eq!(c.token.as_deref(), Some("tok"));
    assert!(!c.reconnect);
}

#[test]
fn new_client_refuses_to_send() {
    let c = WsClient::new("ws://h", None, false, None);
    assert!(matches!(c.send_binary(vec![1]), Err(ClientError::NotConnected)));
    assert!(matches!(c.send_text("a".to_string()), Err(ClientError::NotConnected)));
}

#[test]
fn marked_up_without_channel_has_no_sender() {
    let mut c = WsClient::new("ws://h", None, false, None);
    c.begin_connection();
    assert!(matches!(c.send_binary(vec![1]), Err(ClientError::NoSender)));
}

#[test]
fn started_client_sends_frames() {
    let mut c = WsClient::new("ws://h", None, false, None);
    let mut rx = c.start();
    assert!(c.tx.as_ref().unwrap().is_connected_to(&rx));
    assert!(c.conn_task);
    assert!(matches!(c.send_binary(vec![1]), Err(ClientError::NotConnected)));
    c.begin_connection();
    assert!(c.conn_status);
    c.send_binary(vec![1, 2]).unwrap();
    c.send_text("hello".to_string()).unwrap();
    c.reply_pong(vec![7]).unwrap();
    assert!(matches!(next_frame(&mut rx), Some(Frame::Binary(ref d)) if d == &vec![1, 2]));
    assert!(matches!(next_frame(&mut rx), Some(Frame::Text(ref t)) if t == "hello"));
    assert!(matches!(next_frame(&mut rx), Some(Frame::Pong(ref d)) if d == &vec![7]));
}

#[test]
fn dropped_receiver_closes_channel() {
    let mut c = WsClient::new("ws://h", None, false, None);
    let rx = c.start();
    c.begin_connection();
    drop(rx);
    match c.send_binary(vec![1]) {
        Err(ClientError::ChannelClosed(s, Frame::Binary(d))) => {
            assert_eq!(s, "send failed because receiver is gone");
            assert_eq!(d, vec![1]);
        }
        other => panic!("unexpected {:?}", other),
    }
    match c.send_text("t".to_string()) {
        Err(ClientError::ChannelClosed(_, Frame::Text(t))) => assert_eq!(t, "t"),
        other => panic!("unexpected {:?}", other),
    }
    match c.reply_pong(vec![3]) {
        Err(ClientError::ChannelClosed(s, Frame::Pong(d))) => {
            assert_eq!(s, "send failed because receiver is gone");
            assert_eq!(d, vec![3]);
        }
        other => panic!("unexpected {:?}", other),
    }
}

#[test]
fn failure_marks_connection_down() {
    let mut c = WsClient::new("ws://h", None, true, None);
    let _rx = c.start();
    c.begin_connection();
    assert!(!c.callback_entry(&DataEntity::Success));
    assert!(c.conn_status);
    assert!(!c.callback_entry(&DataEntity::Text { data: "t".to_string() }));
    assert!(c.conn_status);
    let err = DataEntity::Error { err: ConnectorError::Unknown };
    assert!(c.callback_entry(&err));
    assert!(!c.conn_status);
    assert!(matches!(c.send_binary(vec![1]), Err(ClientError::NotConnected)));

    let mut quiet = WsClient::new("ws://h", None, false, None);
    quiet.begin_connection();
    assert!(!quiet.callback_entry(&err));
    assert!(!quiet.conn_status);
}

#[test]
fn restart_replaces_channel() {
    let mut c = WsClient::new("ws://h", Some("t".to_string()), true, Some(3));
    let (abort, _rx0) = c.restart_connection();
    assert!(!abort);
    let (abort, mut rx1) = c.restart_connection();
    assert!(abort);
    assert!(c.tx.as_ref().unwrap().is_connected_to(&rx1));
    assert!(!c.tx.as_ref().unwrap().is_connected_to(&_rx0));
    assert!(c.conn_task);
    assert_eq!(c.reconn_time, 3);
    c.begin_connection();
    c.send_binary(vec![5]).unwrap();
    assert!(matches!(next_frame(&mut rx1), Some(Frame::Binary(ref d)) if d == &vec![5]));
}

#[test]
fn probe_only_when_reconnecting() {
    let mut c = WsClient::new("ws://h", None, false, None);
    assert!(!c.start_network_probe());
    assert!(!c.probe_thread_status);
    let mut r = WsClient::new("ws://h", None, true, None);
    assert!(r.start_network_probe());
    assert!(r.probe_thread_status);
}

#[test]
fn probe_rounds_follow_network() {
    let mut c = WsClient::new("ws://h", None, true, None);
    let (a, rx) = c.probe_round(false);
    assert_eq!(a, ProbeAction::Keep);
    assert!(rx.is_none());
    let (a, rx) = c.probe_round(true);
    assert_eq!(a, ProbeAction::Restart);
    assert!(c.tx.as_ref().unwrap().is_connected_to(rx.as_ref().unwrap()));
    assert!(c.conn_task);
    let (a, rx) = c.probe_round(true);
    assert_eq!(a, ProbeAction::Keep);
    assert!(rx.is_none());
    let (a, _) = c.probe_round(false);
    assert_eq!(a, ProbeAction::Abort);
    assert!(!c.conn_task);
}

#[test]
fn every_probe_host_is_dialable() {
    assert_eq!(ADDRS.len(), webclient::ws::wsclient::PROBE_ATTEMPTS);
}
