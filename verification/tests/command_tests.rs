use futures_channel::mpsc::UnboundedReceiver;
use webclient::command::ClientCommand;
use webclient::command::PendingTable;
use webclient::error::ClientError;
use webclient::ws::wsclient::Frame;
use webclient::ws::wsclient::WsClient;

fn connected() -> (WsClient, UnboundedReceiver<Frame>) {
    let mut c = WsClient::new("ws://h", None, true, None);
    let rx = c.start();
    c.begin_connection();
    (c, rx)
}

fn next_binary(rx: &mut UnboundedReceiver<Frame>) -> Option<Vec<u8>> {
    match rx.try_next() {
        Ok(Some(Frame::Binary(d))) => Some(d),
        _ => None,
    }
}

#[test]
fn answer_is_delivered_once() {
    let mut t = PendingTable::new();
    let id = "e1".to_string();
    t.register(id.clone());
    assert_eq!(t.take(&id), None);
    t.complete(&id, vec![1, 2, 3]);
    assert_eq!(t.take(&id), Some(vec![1, 2, 3]));
    assert_eq!(t.take(&id), None);
}

#[test]
fn stray_answer_is_dropped() {
    let mut t = PendingTable::new();
    let id = "nobody".to_string();
    t.complete(&id, vec![1]);
    assert_eq!(t.take(&id), None);
    t.register(id.clone());
    assert_eq!(t.take(&id), None);
}

#[test]
fn cancelled_command_ignores_late_answer() {
    let mut t = PendingTable::new();
    let id = "e2".to_string();
    t.register(id.clone());
    t.cancel(&id);
    t.complete(&id, vec![4]);
    assert_eq!(t.take(&id), None);
}

#[test]
fn ids_do_not_interfere() {
    let mut t = PendingTable::new();
    let a = "a".to_string();
    let b = "b".to_string();
    t.register(a.clone());
    t.register(b.clone());
    t.complete(&b, vec![2]);
    assert_eq!(t.take(&a), None);
    t.complete(&a, vec![1]);
    assert_eq!(t.take(&b), Some(vec![2]));
    assert_eq!(t.take(&a), Some(vec![1]));
}

#[test]
fn event_ids_are_hyphenated_uuids() {
    let id = ClientCommand::new_event_id();
    assert_eq!(id.len(), 36);
    for (i, c) in id.chars().enumerate() {
        if i == 8 || i == 13 || i == 18 || i == 23 {
            assert_eq!(c, '-');
        } else if i == 14 {
            assert_eq!(c, '4');
        } else if i == 19 {
            assert!(matches!(c, '8' | '9' | 'a' | 'b'));
        } else {
            assert!(c.is_ascii_digit() || ('a'..='f').contains(&c));
        }
    }
    assert_ne!(id, ClientCommand::new_event_id());
}

#[test]
fn command_round_trip() {
    let (c, mut rx) = connected();
    let mut t = PendingTable::new();
    let id = ClientCommand::new_event_id();
    let cmd = ClientCommand::send_command(&c, &mut t, id.clone(), vec![10, 11]).unwrap();
    assert_eq!(cmd.event_id, id);
    assert_eq!(next_binary(&mut rx), Some(vec![10, 11]));
    assert_eq!(cmd.poll(&mut t), None);
    t.complete(&id, vec![42]);
    assert_eq!(cmd.poll(&mut t), Some(vec![42]));
    assert_eq!(cmd.poll(&mut t), None);
}

#[test]
fn command_not_sent_leaves_no_entry() {
    let c = WsClient::new("ws://h", None, true, None);
    let mut t = PendingTable::new();
    let id = "e3".to_string();
    let r = ClientCommand::send_command(&c, &mut t, id.clone(), vec![1]);
    assert!(matches!(r, Err(ClientError::NotConnected)));
    t.complete(&id, vec![2]);
    assert_eq!(t.take(&id), None);
}

#[test]
fn command_on_closed_channel_fails() {
    let (c, rx) = connected();
    drop(rx);
    let mut t = PendingTable::new();
    let id = "e4".to_string();
    match ClientCommand::send_command(&c, &mut t, id.clone(), vec![1]) {
        Err(ClientError::ChannelClosed(s, Frame::Binary(d))) => {
            assert_eq!(s, "send failed because receiver is gone");
            assert_eq!(d, vec![1]);
        }
        _ => panic!("expected a closed channel"),
    }
    t.complete(&id, vec![2]);
    assert_eq!(t.take(&id), None);
}

#[test]
fn command_timeout_forgets_id() {
    let (c, _rx) = connected();
    let mut t = PendingTable::new();
    let id = "e5".to_string();
    let cmd = ClientCommand::send_command(&c, &mut t, id.clone(), vec![1]).unwrap();
    let e = cmd.time_out(&mut t);
    assert!(matches!(e, ClientError::ResponseTimeout));
    t.complete(&id, vec![3]);
    assert_eq!(t.take(&id), None);
}

#[test]
fn indications_and_answers_need_connection() {
    let c = WsClient::new("ws://h", None, true, None);
    assert!(matches!(ClientCommand::send_indication(&c, vec![1]), Err(ClientError::NotConnected)));
    assert!(matches!(ClientCommand::send_answer(&c, vec![1]), Err(ClientError::NotConnected)));
    let (c, mut rx) = connected();
    ClientCommand::send_indication(&c, vec![1]).unwrap();
    ClientCommand::send_answer(&c, vec![2]).unwrap();
    assert_eq!(next_binary(&mut rx), Some(vec![1]));
    assert_eq!(next_binary(&mut rx), Some(vec![2]));
}
