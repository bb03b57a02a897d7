//! The decision core of the websocket client: timeouts, the reachability
//! probe, the connection state and what each incoming message leads to.
use futures_channel::mpsc::UnboundedReceiver;
use futures_channel::mpsc::UnboundedSender;
use std::time::Duration;
use vstd::prelude::*;
use vstd::string::*;

use crate::error::ClientError;
use crate::error::ConnectorError;
use crate::DataEntity;

verus! {

// ---------------------------------------------------------------------------
// Outside items
// ---------------------------------------------------------------------------
#[verifier::external_type_specification]
#[verifier::external_body]
pub struct ExIoError(std::io::Error);

#[verifier::external_type_specification]
#[verifier::external_body]
#[verifier::reject_recursive_types(T)]
pub struct ExUnboundedSender<T>(UnboundedSender<T>);

#[verifier::external_type_specification]
#[verifier::external_body]
#[verifier::reject_recursive_types(T)]
pub struct ExUnboundedReceiver<T>(UnboundedReceiver<T>);

/// The value that `std::time::Duration::from_secs` gives for a number of seconds.
pub uninterp spec fn duration_from_secs(secs: u64) -> Duration;

/// The value that `std::io::Error::new` gives for `ErrorKind::InvalidInput` and a message.
pub uninterp spec fn invalid_input_error(msg: Seq<char>) -> std::io::Error;

/// Calls `std::time::Duration::from_secs`, which never fails; the result is named
/// by `duration_from_secs`.
#[verifier::external_body]
fn secs_to_duration(secs: u64) -> (d: Duration)
    ensures
        d == duration_from_secs(secs),
{
    Duration::from_secs(secs)
}

/// Calls `std::io::Error::new` with `ErrorKind::InvalidInput` and the given message;
/// the result is named by `invalid_input_error`.
#[verifier::external_body]
fn new_invalid_input_error(msg: &str) -> (e: std::io::Error)
    ensures
        e == invalid_input_error(msg@),
{
    std::io::Error::new(std::io::ErrorKind::InvalidInput, msg)
}

/// What `futures_channel`'s `TrySendError` displays when the receiving end is gone,
/// the only failure an unbounded channel has.
pub open spec fn receiver_gone_text() -> Seq<char> {
    "send failed because receiver is gone"@
}

/// What `UnboundedSender::is_connected_to` answers for a sender and a receiver: the
/// sender feeds that receiver's channel.
pub uninterp spec fn paired(tx: UnboundedSender<Frame>, rx: UnboundedReceiver<Frame>) -> bool;

/// Calls `futures_channel::mpsc::unbounded`: a fresh channel, whose sender feeds its
/// receiver.
#[verifier::external_body]
fn open_channel() -> (r: (UnboundedSender<Frame>, UnboundedReceiver<Frame>))
    ensures
        paired(r.0, r.1),
{
    futures_channel::mpsc::unbounded()
}

/// Calls `UnboundedSender::unbounded_send`. A refusal comes back as the error's text and
/// the refused frame (`TrySendError::into_inner`). Whether the frame is accepted depends
/// on whether the receiver still lives, so the contract says what every refusal holds:
/// the "receiver is gone" text (the source builds no other error for an unbounded
/// channel) and the very frame that was handed over.
#[verifier::external_body]
fn channel_send(tx: &UnboundedSender<Frame>, frame: Frame) -> (r: Result<(), (String, Frame)>)
    ensures
        r matches Err(p) ==> p.0@ == receiver_gone_text() && p.1 == frame,
{
    match tx.unbounded_send(frame) {
        Ok(()) => Ok(()),
        Err(e) => Err((e.to_string(), e.into_inner())),
    }
}

// ---------------------------------------------------------------------------
// Timeouts and the reachability probe
// ---------------------------------------------------------------------------
/// The hosts that the reachability probe dials, in order.
pub const ADDRS: [&'static str; 2] = ["baidu.com:80", "bing.com:80"];

/// How many hosts the reachability probe tries.
pub const PROBE_ATTEMPTS: usize = 2;

/// Turns a number of seconds into a connect timeout; zero is refused, as the
/// operating system refuses a zero socket timeout.
pub fn parse_timeout(timeout: u64) -> (r: Result<Duration, std::io::Error>)
    ensures
        timeout == 0 ==> r == Err::<Duration, std::io::Error>(
            invalid_input_error("cannot set a 0 duration timeout"@),
        ),
        timeout != 0 ==> r == Ok::<Duration, std::io::Error>(duration_from_secs(timeout)),
{
    if timeout == 0 {
        Err(new_invalid_input_error("cannot set a 0 duration timeout"))
    } else {
        Ok(secs_to_duration(timeout))
    }
}

/// The next move of the reachability check.
#[derive(Debug, Clone, Copy, PartialEq, Eq)]
pub enum ProbeStep {
    /// Dial `ADDRS[i]`.
    Dial(usize),
    /// The network is reachable.
    Reachable,
    /// No host answered; the last failure is the verdict.
    Unreachable,
}

/// The reachability check dials the first host, falls back to the next one on
/// failure, and reports the network reachable as soon as one dial succeeds.
pub open spec fn probe_step(attempt: nat, succeeded: bool) -> ProbeStep {
    if succeeded {
        ProbeStep::Reachable
    } else if attempt + 1 < PROBE_ATTEMPTS {
        ProbeStep::Dial((attempt + 1) as usize)
    } else {
        ProbeStep::Unreachable
    }
}

/// The first move of the reachability check.
pub fn probe_start() -> (r: ProbeStep)
    ensures
        r == ProbeStep::Dial(0),
{
    ProbeStep::Dial(0)
}

/// The move after dial number `attempt` (counted from zero) succeeded or failed.
pub fn probe_next(attempt: usize, succeeded: bool) -> (r: ProbeStep)
    requires
        attempt < PROBE_ATTEMPTS,
    ensures
        r == probe_step(attempt as nat, succeeded),
        r matches ProbeStep::Dial(i) ==> i < PROBE_ATTEMPTS,
{
    if succeeded {
        ProbeStep::Reachable
    } else if attempt + 1 < PROBE_ATTEMPTS {
        ProbeStep::Dial(attempt + 1)
    } else {
        ProbeStep::Unreachable
    }
}

// ---------------------------------------------------------------------------
// Frames
// ---------------------------------------------------------------------------
/// A frame handed to the task that writes to the socket.
#[derive(Debug, Clone)]
pub enum Frame {
    Binary(Vec<u8>),
    Text(String),
    Pong(Vec<u8>),
}

/// A message read from the socket, or the failure to read one.
#[derive(Debug, Clone)]
pub enum Incoming {
    Text(String),
    Binary(Vec<u8>),
    Ping(Vec<u8>),
    Pong,
    Close,
    /// A raw frame that carries no message of its own.
    Other,
    /// The read failed; the text describes the failure.
    ReadFailure(String),
}

/// What the client does with an incoming message.
#[derive(Debug, Clone)]
pub enum Reaction {
    /// Hand the event to the user's callback.
    Deliver(DataEntity),
    /// Answer a ping with a pong that carries the same bytes.
    ReplyPong(Vec<u8>),
    /// The peer closed the connection; it is only reported.
    Closed,
    /// Nothing to do.
    Ignore,
}

/// The reaction that the client owes to an incoming message.
pub open spec fn reaction_for(msg: Incoming, r: Reaction) -> bool {
    match msg {
        Incoming::Text(s) => r matches Reaction::Deliver(DataEntity::Text { data }) && data@ == s@,
        Incoming::Binary(b) => r matches Reaction::Deliver(DataEntity::Binary { data }) && data@
            == b@,
        Incoming::Ping(b) => r matches Reaction::ReplyPong(data) && data@ == b@,
        Incoming::Pong => r is Ignore,
        Incoming::Close => r is Closed,
        Incoming::Other => r is Ignore,
        Incoming::ReadFailure(d) => r matches Reaction::Deliver(
            DataEntity::Error { err: ConnectorError::WsReadError(s) },
        ) && s@ == "ws read data error:  "@ + d@,
    }
}

/// Decides what an incoming message leads to.
pub fn react_to(msg: Incoming) -> (r: Reaction)
    ensures
        reaction_for(msg, r),
{
    match msg {
        Incoming::Text(s) => Reaction::Deliver(DataEntity::Text { data: s }),
        Incoming::Binary(b) => Reaction::Deliver(DataEntity::Binary { data: b }),
        Incoming::Ping(b) => Reaction::ReplyPong(b),
        Incoming::Pong => Reaction::Ignore,
        Incoming::Close => Reaction::Closed,
        Incoming::Other => Reaction::Ignore,
        Incoming::ReadFailure(d) => {
            let mut s = String::from_str("ws read data error:  ");
            s.append(d.as_str());
            Reaction::Deliver(DataEntity::Error { err: ConnectorError::WsReadError(s) })
        },
    }
}

/// The event reported when the websocket handshake fails; `detail` describes the failure.
pub fn connect_failure(detail: &str) -> (r: DataEntity)
    ensures
        r matches DataEntity::Error { err: ConnectorError::WsConnectError(s) } && s@
            == "ws connect error: "@ + detail@,
{
    let mut s = String::from_str("ws connect error: ");
    s.append(detail);
    DataEntity::Error { err: ConnectorError::WsConnectError(s) }
}

// ---------------------------------------------------------------------------
// Connection state
// ---------------------------------------------------------------------------
/// The abstract state of a client.
pub struct ClientState {
    pub url: Seq<char>,
    pub reconnect: bool,
    pub token: Option<Seq<char>>,
    pub reconn_time: u64,
    pub sender: Option<UnboundedSender<Frame>>,
    pub conn_status: bool,
    pub conn_task: bool,
    pub probe_running: bool,
}

/// The text of an optional string.
pub open spec fn opt_text(s: Option<String>) -> Option<Seq<char>> {
    match s {
        Some(t) => Some(t@),
        None => None,
    }
}

/// Seconds to wait before a reconnection when none is given.
pub const DEFAULT_RECONN_TIME: u64 = 1;

/// A client that has not started: not connected, no channel, no task.
pub open spec fn initial_state(
    url: Seq<char>,
    token: Option<Seq<char>>,
    reconnect: bool,
    reconn_time: Option<u64>,
) -> ClientState {
    ClientState {
        url,
        reconnect,
        token,
        reconn_time: match reconn_time {
            Some(t) => t,
            None => DEFAULT_RECONN_TIME,
        },
        sender: None,
        conn_status: false,
        conn_task: false,
        probe_running: false,
    }
}

/// Starting a connection installs the sender of a fresh outgoing channel and a
/// connection task.
pub open spec fn after_start(s: ClientState, fresh: UnboundedSender<Frame>) -> ClientState {
    ClientState { sender: Some(fresh), conn_task: true, ..s }
}

/// A client that went from `pre` to `post` by starting a connection whose socket task
/// reads from `rx`: the new sender feeds `rx`.
pub open spec fn started(pre: ClientState, post: ClientState, rx: UnboundedReceiver<Frame>) -> bool {
    &&& post.sender matches Some(t)
    &&& paired(t, rx)
    &&& post == after_start(pre, t)
}

/// The connection task marks the connection up before its handshake.
pub open spec fn after_connecting(s: ClientState) -> ClientState {
    ClientState { conn_status: true, ..s }
}

/// A failure report marks the connection down; other events change nothing.
pub open spec fn after_event(s: ClientState, failure: bool) -> ClientState {
    if failure {
        ClientState { conn_status: false, ..s }
    } else {
        s
    }
}

/// The probe runs only on a client that reconnects.
pub open spec fn after_probe_start(s: ClientState) -> ClientState {
    if s.reconnect {
        ClientState { probe_running: true, ..s }
    } else {
        s
    }
}

/// What a probe round asks of the runtime.
#[derive(Debug, Clone, Copy, PartialEq, Eq)]
pub enum ProbeAction {
    /// The network is back and no connection task runs: start one.
    Restart,
    /// The network is gone while a connection task runs: abort it.
    Abort,
    /// Nothing to do.
    Keep,
}

/// The action a probe round owes, given whether the network answered.
pub open spec fn probe_action(s: ClientState, network_ok: bool) -> ProbeAction {
    if network_ok && !s.conn_task {
        ProbeAction::Restart
    } else if !network_ok && s.conn_task {
        ProbeAction::Abort
    } else {
        ProbeAction::Keep
    }
}

/// The state after a probe round that owes no restart: an abort drops the task record,
/// and the sender is kept either way.
pub open spec fn after_probe_without_restart(s: ClientState, network_ok: bool) -> ClientState {
    if probe_action(s, network_ok) == ProbeAction::Abort {
        ClientState { conn_task: false, ..s }
    } else {
        s
    }
}

/// The state after a probe round, the restart (when owed, with sender `fresh`) included.
pub open spec fn after_probe(
    s: ClientState,
    network_ok: bool,
    fresh: UnboundedSender<Frame>,
) -> ClientState {
    if probe_action(s, network_ok) == ProbeAction::Restart {
        after_start(s, fresh)
    } else {
        after_probe_without_restart(s, network_ok)
    }
}

/// Why sending is refused in a state, if it is.
pub open spec fn send_refusal(s: ClientState) -> Option<ClientError> {
    if !s.conn_status {
        Some(ClientError::NotConnected)
    } else if s.sender is None {
        Some(ClientError::NoSender)
    } else {
        None
    }
}

/// A refusal by the channel: its receiver is gone, and `frame` comes back unsent.
pub open spec fn channel_refused(e: ClientError, frame: Frame) -> bool {
    e matches ClientError::ChannelClosed(t, f) && t@ == receiver_gone_text() && f == frame
}

/// The result of handing `frame` to the channel in state `s`: refused as `send_refusal`
/// says without touching the channel; else `frame` is handed to the state's sender,
/// which accepts it or gives it back because its receiver is gone.
pub open spec fn send_outcome(s: ClientState, frame: Frame, r: Result<(), ClientError>) -> bool {
    match send_refusal(s) {
        Some(e) => r == Err::<(), ClientError>(e),
        None => match r {
            Ok(()) => true,
            Err(e) => channel_refused(e, frame),
        },
    }
}

/// The connection side of a websocket client. The runtime that owns the socket and
/// the tasks asks this value what to do and reports back to it.
pub struct WsClient {
    /// Websocket url to connect to.
    pub url: String,
    /// Reconnect after a failure.
    pub reconnect: bool,
    /// Token sent in the handshake, if any.
    pub token: Option<String>,
    /// Seconds to wait before reconnecting.
    pub reconn_time: u64,
    /// Outgoing channel of the current connection.
    pub tx: Option<UnboundedSender<Frame>>,
    /// The connection is marked as up.
    pub conn_status: bool,
    /// A connection task is running.
    pub conn_task: bool,
    /// The network probe runs.
    pub probe_thread_status: bool,
}

impl View for WsClient {
    type V = ClientState;

    open spec fn view(&self) -> ClientState {
        ClientState {
            url: self.url@,
            reconnect: self.reconnect,
            token: opt_text(self.token),
            reconn_time: self.reconn_time,
            sender: self.tx,
            conn_status: self.conn_status,
            conn_task: self.conn_task,
            probe_running: self.probe_thread_status,
        }
    }
}

impl WsClient {
    /// A client for `url` that is not started yet; `reconn_time` defaults to one second.
    pub fn new(url: &str, token: Option<String>, reconnect: bool, reconn_time: Option<u64>) -> (c:
        Self)
        ensures
            c@ == initial_state(url@, opt_text(token), reconnect, reconn_time),
            c.url@ == url@,
            c.token == token,
            c.reconnect == reconnect,
            reconn_time matches Some(t) ==> c.reconn_time == t,
            reconn_time is None ==> c.reconn_time == 1,
            c.tx is None,
            !c.conn_status,
            !c.conn_task,
            !c.probe_thread_status,
    {
        let reconn_time = match reconn_time {
            Some(t) => t,
            None => DEFAULT_RECONN_TIME,
        };
        WsClient {
            url: String::from_str(url),
            reconnect,
            token,
            reconn_time,
            tx: None,
            conn_status: false,
            conn_task: false,
            probe_thread_status: false,
        }
    }

    /// Hands a frame to the outgoing channel if the connection is up.
    fn send_frame(&self, frame: Frame) -> (r: Result<(), ClientError>)
        ensures
            send_outcome(self@, frame, r),
    {
        if self.conn_status {
            match &self.tx {
                Some(tx) => match channel_send(tx, frame) {
                    Ok(()) => Ok(()),
                    Err((s, f)) => Err(ClientError::ChannelClosed(s, f)),
                },
                None => Err(ClientError::NoSender),
            }
        } else {
            Err(ClientError::NotConnected)
        }
    }

    /// Sends binary data over the connection.
    pub fn send_binary(&self, data: Vec<u8>) -> (r: Result<(), ClientError>)
        ensures
            send_outcome(self@, Frame::Binary(data), r),
    {
        self.send_frame(Frame::Binary(data))
    }

    /// Sends text over the connection.
    pub fn send_text(&self, data: String) -> (r: Result<(), ClientError>)
        ensures
            send_outcome(self@, Frame::Text(data), r),
    {
        self.send_frame(Frame::Text(data))
    }

    /// Answers a ping; unlike user data a pong does not look at the connection mark,
    /// and a refusal by the channel is ignored by callers.
    pub fn reply_pong(&self, data: Vec<u8>) -> (r: Result<(), ClientError>)
        requires
            self.tx is Some,
        ensures
            r matches Err(e) ==> channel_refused(e, Frame::Pong(data)),
    {
        match &self.tx {
            Some(tx) => match channel_send(tx, Frame::Pong(data)) {
                Ok(()) => Ok(()),
                Err((s, f)) => Err(ClientError::ChannelClosed(s, f)),
            },
            None => Ok(()),
        }
    }

    /// Starts a connection: a fresh outgoing channel replaces the old one and a
    /// connection task is recorded. The receiver goes to the task that writes to the socket.
    pub fn start(&mut self) -> (rx: UnboundedReceiver<Frame>)
        ensures
            started(old(self)@, final(self)@, rx),
    {
        let (tx, rx) = open_channel();
        self.tx = Some(tx);
        self.conn_task = true;
        rx
    }

    /// The connection task begins: the connection is marked up before the handshake.
    pub fn begin_connection(&mut self)
        ensures
            final(self)@ == after_connecting(old(self)@),
    {
        self.conn_status = true;
    }

    /// Records an event before it goes to the user's callback. A failure marks the
    /// connection down; the result says whether the reconnection monitor must start.
    pub fn callback_entry(&mut self, data: &DataEntity) -> (start_monitor: bool)
        ensures
            final(self)@ == after_event(old(self)@, data.is_failure()),
            start_monitor == (data.is_failure() && old(self).reconnect),
            final(self).url == old(self).url,
            final(self).token == old(self).token,
            final(self).reconnect == old(self).reconnect,
            final(self).reconn_time == old(self).reconn_time,
            final(self).tx == old(self).tx,
            final(self).conn_task == old(self).conn_task,
            final(self).probe_thread_status == old(self).probe_thread_status,
            final(self).conn_status == (old(self).conn_status && !data.is_failure()),
    {
        match data {
            DataEntity::Error { err: _ } => {
                self.conn_status = false;
                self.reconnect
            },
            _ => false,
        }
    }

    /// The reconnection monitor fires: the running task (if any) is dropped and a new
    /// connection starts. The result says whether a task must be aborted, and carries
    /// the receiver of the new connection.
    pub fn restart_connection(&mut self) -> (r: (bool, UnboundedReceiver<Frame>))
        ensures
            r.0 == old(self).conn_task,
            started(old(self)@, final(self)@, r.1),
    {
        let abort_previous = self.conn_task;
        self.conn_task = false;
        let rx = self.start();
        (abort_previous, rx)
    }

    /// Whether the network probe is to run; it runs only on a client that reconnects,
    /// and is then recorded as running.
    pub fn start_network_probe(&mut self) -> (spawn: bool)
        ensures
            spawn == old(self).reconnect,
            final(self)@ == after_probe_start(old(self)@),
    {
        if self.reconnect {
            self.probe_thread_status = true;
        }
        self.reconnect
    }

    /// One round of the network probe: `network_ok` says whether the network answered.
    /// A lost network drops the running task; a network that is back restarts the
    /// connection when none runs. The receiver of a new connection comes with `Restart`.
    pub fn probe_round(&mut self, network_ok: bool) -> (r: (
        ProbeAction,
        Option<UnboundedReceiver<Frame>>,
    ))
        ensures
            r.0 == probe_action(old(self)@, network_ok),
            r.1 is Some <==> r.0 == ProbeAction::Restart,
            r.1 matches Some(rx) ==> started(old(self)@, final(self)@, rx),
            r.1 is None ==> final(self)@ == after_probe_without_restart(old(self)@, network_ok),
            (r.0 == ProbeAction::Restart) == (network_ok && !old(self).conn_task),
            (r.0 == ProbeAction::Abort) == (!network_ok && old(self).conn_task),
            final(self).conn_task == network_ok,
            r.0 != ProbeAction::Restart ==> final(self).tx == old(self).tx,
            final(self).url@ == old(self).url@,
            opt_text(final(self).token) == opt_text(old(self).token),
            final(self).reconnect == old(self).reconnect,
            final(self).reconn_time == old(self).reconn_time,
            final(self).conn_status == old(self).conn_status,
    {
        if network_ok {
            if !self.conn_task {
                let rx = self.start();
                (ProbeAction::Restart, Some(rx))
            } else {
                (ProbeAction::Keep, None)
            }
        } else {
            if self.conn_task {
                self.conn_task = false;
                (ProbeAction::Abort, None)
            } else {
                (ProbeAction::Keep, None)
            }
        }
    }
}

} // verus!
