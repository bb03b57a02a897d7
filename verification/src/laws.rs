//! Properties that hold across the operations of the client and of the table
//! of pending commands.
use futures_channel::mpsc::UnboundedSender;
use vstd::prelude::*;

use crate::command::spec_cancel;
use crate::command::spec_complete;
use crate::command::spec_register;
use crate::command::spec_take;
use crate::command::PendingView;
use crate::error::ClientError;
use crate::ws::wsclient::after_connecting;
use crate::ws::wsclient::after_event;
use crate::ws::wsclient::after_probe;
use crate::ws::wsclient::after_probe_start;
use crate::ws::wsclient::after_probe_without_restart;
use crate::ws::wsclient::after_start;
use crate::ws::wsclient::channel_refused;
use crate::ws::wsclient::probe_action;
use crate::ws::wsclient::send_outcome;
use crate::ws::wsclient::Frame;
use crate::ws::wsclient::ProbeAction;
use crate::ws::wsclient::initial_state;
use crate::ws::wsclient::probe_step;
use crate::ws::wsclient::send_refusal;
use crate::ws::wsclient::ClientState;
use crate::ws::wsclient::ProbeStep;

verus! {

/// An answer stored for a registered command is handed out by the next take, and the
/// table is then as if the command had never been registered.
pub proof fn law_answer_delivered(t: PendingView, id: Seq<char>, answer: Seq<u8>)
    ensures
        spec_take(spec_complete(spec_register(t, id), id, answer), id) == (t.remove(id), Some(
            answer,
        )),
{
    assert(spec_register(t, id).insert(id, Some(answer)).remove(id) =~= t.remove(id));
}

/// An answer is handed out at most once: a take that follows a successful take
/// finds nothing.
pub proof fn law_answer_taken_once(t: PendingView, id: Seq<char>)
    ensures
        spec_take(spec_take(t, id).0, id).1 is None,
{
}

/// Polling before the answer arrives finds nothing and leaves the table as it was.
pub proof fn law_waiting_is_harmless(t: PendingView, id: Seq<char>)
    ensures
        spec_take(spec_register(t, id), id) == (spec_register(t, id), None::<Seq<u8>>),
{
}

/// An answer for an id that nobody waits for is dropped.
pub proof fn law_stray_answer_dropped(t: PendingView, id: Seq<char>, answer: Seq<u8>)
    requires
        !t.contains_key(id),
    ensures
        spec_complete(t, id, answer) == t,
        spec_take(spec_complete(t, id, answer), id).1 is None,
{
}

/// Once a command is dropped (a timeout, a failed send), a late answer for it is
/// dropped too, and a table that did not know the id before is back as it was.
pub proof fn law_cancel_forgets(t: PendingView, id: Seq<char>, answer: Seq<u8>)
    ensures
        spec_complete(spec_cancel(spec_register(t, id), id), id, answer) == t.remove(id),
        !t.contains_key(id) ==> spec_cancel(spec_register(t, id), id) == t,
{
    assert(spec_register(t, id).remove(id) =~= t.remove(id));
    if !t.contains_key(id) {
        assert(t.remove(id) =~= t);
    }
}

/// Operations on one id leave the entries of every other id alone.
pub proof fn law_ids_independent(t: PendingView, id: Seq<char>, other: Seq<char>, answer: Seq<u8>)
    requires
        id != other,
    ensures
        spec_register(t, id).contains_key(other) == t.contains_key(other),
        spec_complete(t, id, answer).contains_key(other) == t.contains_key(other),
        spec_take(t, id).0.contains_key(other) == t.contains_key(other),
        spec_cancel(t, id).contains_key(other) == t.contains_key(other),
        t.contains_key(other) ==> {
            &&& spec_register(t, id)[other] == t[other]
            &&& spec_complete(t, id, answer)[other] == t[other]
            &&& spec_take(t, id).0[other] == t[other]
            &&& spec_cancel(t, id)[other] == t[other]
        },
{
}

/// A new client refuses to send: it is not connected.
pub proof fn law_new_client_not_connected(
    url: Seq<char>,
    token: Option<Seq<char>>,
    reconnect: bool,
    reconn_time: Option<u64>,
)
    ensures
        send_refusal(initial_state(url, token, reconnect, reconn_time)) == Some(
            ClientError::NotConnected,
        ),
{
}

/// A started connection whose task has begun accepts frames (the channel decides).
pub proof fn law_started_connection_sends(s: ClientState, fresh: UnboundedSender<Frame>)
    ensures
        send_refusal(after_connecting(after_start(s, fresh))) is None,
{
}

/// After a failure is reported, sending is refused as not connected until the next
/// connection task begins.
pub proof fn law_failure_stops_sending(s: ClientState, fresh: UnboundedSender<Frame>)
    ensures
        send_refusal(after_event(s, true)) == Some(ClientError::NotConnected),
        send_refusal(after_start(after_event(s, true), fresh)) == Some(ClientError::NotConnected),
        send_refusal(after_connecting(after_start(after_event(s, true), fresh))) is None,
{
}

/// After a probe round a connection task runs exactly when the network answered; the
/// configuration and the connection mark are untouched, and the sender is replaced
/// only by a restart.
pub proof fn law_probe_follows_network(
    s: ClientState,
    network_ok: bool,
    fresh: UnboundedSender<Frame>,
)
    ensures
        after_probe(s, network_ok, fresh).conn_task == network_ok,
        after_probe(s, network_ok, fresh).url == s.url,
        after_probe(s, network_ok, fresh).token == s.token,
        after_probe(s, network_ok, fresh).reconnect == s.reconnect,
        after_probe(s, network_ok, fresh).reconn_time == s.reconn_time,
        after_probe(s, network_ok, fresh).conn_status == s.conn_status,
        probe_action(s, network_ok) == ProbeAction::Restart ==> after_probe(
            s,
            network_ok,
            fresh,
        ).sender == Some(fresh),
        probe_action(s, network_ok) != ProbeAction::Restart ==> after_probe(
            s,
            network_ok,
            fresh,
        ).sender == s.sender,
{
}

/// Restarting keeps the configuration and leaves a task fed by the fresh sender,
/// whatever state the client was in; the last start decides the sender.
pub proof fn law_restart_keeps_configuration(
    s: ClientState,
    first: UnboundedSender<Frame>,
    fresh: UnboundedSender<Frame>,
)
    ensures
        after_start(s, fresh).url == s.url,
        after_start(s, fresh).token == s.token,
        after_start(s, fresh).reconnect == s.reconnect,
        after_start(s, fresh).reconn_time == s.reconn_time,
        after_start(s, fresh).conn_status == s.conn_status,
        after_start(s, fresh).conn_task,
        after_start(s, fresh).sender == Some(fresh),
        after_start(after_start(s, first), fresh) == after_start(s, fresh),
{
}

/// Whatever is sent, text or binary, is refused alike: the refusal depends on the
/// state only, and a refusal by the channel gives back the frame that was handed over.
pub proof fn law_sends_refused_alike(
    s: ClientState,
    text: Frame,
    binary: Frame,
    e: ClientError,
)
    ensures
        send_outcome(s, text, Err(e)) && send_refusal(s) is Some ==> send_outcome(
            s,
            binary,
            Err(e),
        ),
        send_outcome(s, text, Ok(())) <==> send_outcome(s, binary, Ok(())),
        send_refusal(s) is None && send_outcome(s, text, Err(e)) ==> channel_refused(e, text),
{
}

/// Events other than failures leave the client as it was.
pub proof fn law_only_failures_change_state(s: ClientState)
    ensures
        after_event(s, false) == s,
        after_event(after_event(s, true), true) == after_event(s, true),
{
}

/// The reachability check: the first host is dialed first; the second only when the
/// first failed; the verdict is "reachable" exactly when one of the dials succeeded.
pub proof fn law_probe_verdict(first_ok: bool, second_ok: bool)
    ensures
        first_ok ==> probe_step(0, first_ok) == ProbeStep::Reachable,
        !first_ok ==> probe_step(0, first_ok) == ProbeStep::Dial(1),
        !first_ok ==> (probe_step(1, second_ok) == ProbeStep::Reachable <==> second_ok),
        !first_ok && !second_ok ==> probe_step(1, second_ok) == ProbeStep::Unreachable,
{
}

/// A new client holds exactly what it was given: the url, the token (whatever the
/// reconnect flag), the reconnect flag and the delay, which is one second when none is
/// given; it starts with no sender, not connected, with no task and no probe.
pub proof fn law_new_client_holds_arguments(
    url: Seq<char>,
    token: Option<Seq<char>>,
    reconnect: bool,
    reconn_time: Option<u64>,
)
    ensures
        initial_state(url, token, reconnect, reconn_time).url == url,
        initial_state(url, token, reconnect, reconn_time).token == token,
        initial_state(url, token, reconnect, reconn_time).reconnect == reconnect,
        reconn_time matches Some(t) ==> initial_state(url, token, reconnect, reconn_time).reconn_time
            == t,
        reconn_time is None ==> initial_state(url, token, reconnect, reconn_time).reconn_time == 1,
        initial_state(url, token, reconnect, reconn_time).sender is None,
        !initial_state(url, token, reconnect, reconn_time).conn_status,
        !initial_state(url, token, reconnect, reconn_time).conn_task,
        !initial_state(url, token, reconnect, reconn_time).probe_running,
{
}

/// Every transition of the client keeps its configuration: url, token, reconnect flag
/// and delay are those the client was created with.
pub proof fn law_transitions_keep_configuration(
    s: ClientState,
    failure: bool,
    network_ok: bool,
    fresh: UnboundedSender<Frame>,
)
    ensures
        after_event(s, failure).url == s.url && after_event(s, failure).token == s.token
            && after_event(s, failure).reconnect == s.reconnect && after_event(s, failure).reconn_time
            == s.reconn_time,
        after_start(s, fresh).url == s.url && after_start(s, fresh).token == s.token
            && after_start(s, fresh).reconnect == s.reconnect && after_start(s, fresh).reconn_time
            == s.reconn_time,
        after_connecting(s).url == s.url && after_connecting(s).token == s.token
            && after_connecting(s).reconnect == s.reconnect && after_connecting(s).reconn_time
            == s.reconn_time,
        after_probe_start(s).url == s.url && after_probe_start(s).token == s.token
            && after_probe_start(s).reconnect == s.reconnect && after_probe_start(s).reconn_time
            == s.reconn_time,
        after_probe(s, network_ok, fresh).url == s.url && after_probe(s, network_ok, fresh).token
            == s.token && after_probe(s, network_ok, fresh).reconnect == s.reconnect && after_probe(
            s,
            network_ok,
            fresh,
        ).reconn_time == s.reconn_time,
{
}

/// Recording an event touches nothing but the connection mark: a failure lowers it,
/// other events keep it; the sender, the task and the probe stay as they were.
pub proof fn law_event_only_lowers_mark(s: ClientState, failure: bool)
    ensures
        after_event(s, failure).conn_status == (s.conn_status && !failure),
        after_event(s, failure).sender == s.sender,
        after_event(s, failure).conn_task == s.conn_task,
        after_event(s, failure).probe_running == s.probe_running,
{
}

/// A client created to reconnect asks for the reconnection monitor on every failure:
/// after a failure, a restart and a new connection, it is still reconnecting, so the
/// next failure asks again.
pub proof fn law_reconnecting_client_monitors_every_failure(
    s: ClientState,
    fresh: UnboundedSender<Frame>,
)
    requires
        s.reconnect,
    ensures
        after_event(s, true).reconnect,
        after_connecting(after_start(after_event(s, true), fresh)).reconnect,
        after_event(after_connecting(after_start(after_event(s, true), fresh)), true).reconnect,
{
}

/// The action of a probe round depends only on whether the network answered and whether
/// a task runs, never on the connection mark: a network that answered with no task
/// running always restarts, a lost network with a task always aborts.
pub proof fn law_probe_action_ignores_mark(s: ClientState, network_ok: bool, mark: bool)
    ensures
        probe_action(ClientState { conn_status: mark, ..s }, network_ok) == probe_action(
            s,
            network_ok,
        ),
        network_ok && !s.conn_task ==> probe_action(s, network_ok) == ProbeAction::Restart,
        !network_ok && s.conn_task ==> probe_action(s, network_ok) == ProbeAction::Abort,
        network_ok == s.conn_task ==> probe_action(s, network_ok) == ProbeAction::Keep,
{
}

/// A round without a restart never records a task that was not running, and keeps the
/// sender: a task is recorded after a round exactly when one ran and the network
/// answered, or the round restarted.
pub proof fn law_no_task_without_restart(s: ClientState, network_ok: bool)
    ensures
        after_probe_without_restart(s, network_ok).conn_task ==> s.conn_task,
        after_probe_without_restart(s, network_ok).sender == s.sender,
        after_probe_without_restart(s, network_ok).conn_status == s.conn_status,
        probe_action(s, network_ok) != ProbeAction::Restart ==> after_probe_without_restart(
            s,
            network_ok,
        ).conn_task == (s.conn_task && network_ok),
{
}

} // verus!
