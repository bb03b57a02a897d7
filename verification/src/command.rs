//! Commands that wait for an answer: a table of pending event ids, and the
//! frames that carry indications, answers and commands.
use dashmap::DashMap;
use vstd::prelude::*;

use crate::error::ClientError;
use crate::ws::wsclient::receiver_gone_text;
use crate::ws::wsclient::send_outcome;
use crate::ws::wsclient::send_refusal;
use crate::ws::wsclient::Frame;
use crate::ws::wsclient::WsClient;

verus! {

// ---------------------------------------------------------------------------
// Outside items
// ---------------------------------------------------------------------------
#[verifier::external_type_specification]
#[verifier::external_body]
#[verifier::reject_recursive_types(K)]
#[verifier::reject_recursive_types(V)]
#[verifier::reject_recursive_types(S)]
pub struct ExDashMap<K, V, S>(DashMap<K, V, S>);

/// What a pending table's map holds: for each event id, the answer if one arrived.
pub uninterp spec fn pending_entries(m: DashMap<String, Option<Vec<u8>>>) -> Map<
    Seq<char>,
    Option<Seq<u8>>,
>;

/// The bytes of an optional answer.
pub open spec fn slot_view(slot: Option<Vec<u8>>) -> Option<Seq<u8>> {
    match slot {
        Some(b) => Some(b@),
        None => None,
    }
}

/// The answer held by an entry taken out of the map.
pub open spec fn entry_answer(e: Option<(String, Option<Vec<u8>>)>) -> Option<Seq<u8>> {
    match e {
        Some(kv) => slot_view(kv.1),
        None => None,
    }
}

/// Calls `DashMap::new`: a map with no entry.
#[verifier::external_body]
fn map_new() -> (m: DashMap<String, Option<Vec<u8>>>)
    ensures
        pending_entries(m) == PendingView::empty(),
{
    DashMap::new()
}

/// Calls `DashMap::insert`: the key now maps to the value; the value it replaced
/// comes back.
#[verifier::external_body]
fn map_insert(m: &mut DashMap<String, Option<Vec<u8>>>, key: String, value: Option<Vec<u8>>) -> (r:
    Option<Option<Vec<u8>>>)
    ensures
        pending_entries(*final(m)) == pending_entries(*old(m)).insert(key@, slot_view(value)),
        r is Some <==> pending_entries(*old(m)).contains_key(key@),
        r matches Some(v) ==> slot_view(v) == pending_entries(*old(m))[key@],
{
    m.insert(key, value)
}

/// Calls `DashMap::remove`: the key leaves the map; its entry comes back.
#[verifier::external_body]
fn map_remove(m: &mut DashMap<String, Option<Vec<u8>>>, key: &String) -> (r: Option<
    (String, Option<Vec<u8>>),
>)
    ensures
        pending_entries(*final(m)) == pending_entries(*old(m)).remove(key@),
        r is Some <==> pending_entries(*old(m)).contains_key(key@),
        r matches Some(e) ==> e.0@ == key@ && slot_view(e.1) == pending_entries(*old(m))[key@],
{
    m.remove(key)
}

/// Calls `DashMap::remove_if` with `slot_is_filled` as the test: the entry leaves the
/// map, and comes back, exactly when it holds an answer.
#[verifier::external_body]
fn map_remove_filled(m: &mut DashMap<String, Option<Vec<u8>>>, key: &String) -> (r: Option<
    (String, Option<Vec<u8>>),
>)
    ensures
        (pending_entries(*final(m)), entry_answer(r)) == spec_take(pending_entries(*old(m)), key@),
        r is Some <==> (pending_entries(*old(m)).contains_key(key@) && pending_entries(
            *old(m),
        )[key@] is Some),
        r matches Some(e) ==> e.0@ == key@,
{
    m.remove_if(key, |_, slot| slot_is_filled(slot))
}

/// Calls `DashMap::alter` with `fill_slot`: an entry that exists now holds the answer;
/// a missing one stays missing.
#[verifier::external_body]
fn map_fill(m: &mut DashMap<String, Option<Vec<u8>>>, key: &String, answer: Vec<u8>)
    ensures
        pending_entries(*old(m)).contains_key(key@) ==> pending_entries(*final(m))
            == pending_entries(*old(m)).insert(key@, Some(answer@)),
        !pending_entries(*old(m)).contains_key(key@) ==> pending_entries(*final(m))
            == pending_entries(*old(m)),
{
    m.alter(key, |_, slot| fill_slot(slot, answer))
}

/// An entry holds an answer.
pub fn slot_is_filled(slot: &Option<Vec<u8>>) -> (r: bool)
    ensures
        r == slot is Some,
{
    slot.is_some()
}

/// The entry after an answer arrives: the answer, whatever the entry held.
pub fn fill_slot(slot: Option<Vec<u8>>, answer: Vec<u8>) -> (r: Option<Vec<u8>>)
    ensures
        slot_view(r) == Some(answer@),
{
    Some(answer)
}

// ---------------------------------------------------------------------------
// The table of pending commands
// ---------------------------------------------------------------------------
/// Abstract table: event id to the answer, if one arrived.
pub type PendingView = Map<Seq<char>, Option<Seq<u8>>>;

/// Registering an id makes it wait for an answer.
pub open spec fn spec_register(t: PendingView, id: Seq<char>) -> PendingView {
    t.insert(id, None)
}

/// An answer is stored only for an id that is registered.
pub open spec fn spec_complete(t: PendingView, id: Seq<char>, answer: Seq<u8>) -> PendingView {
    if t.contains_key(id) {
        t.insert(id, Some(answer))
    } else {
        t
    }
}

/// Taking an answer: when the id holds one, it leaves the table and is returned;
/// otherwise nothing changes and nothing is returned.
pub open spec fn spec_take(t: PendingView, id: Seq<char>) -> (PendingView, Option<Seq<u8>>) {
    if t.contains_key(id) && t[id] is Some {
        (t.remove(id), t[id])
    } else {
        (t, None)
    }
}

/// Dropping an id, answered or not.
pub open spec fn spec_cancel(t: PendingView, id: Seq<char>) -> PendingView {
    t.remove(id)
}

/// Event ids waiting for an answer, and the answers that arrived for them.
pub struct PendingTable {
    map: DashMap<String, Option<Vec<u8>>>,
}

impl View for PendingTable {
    type V = PendingView;

    closed spec fn view(&self) -> PendingView {
        pending_entries(self.map)
    }
}

impl PendingTable {
    /// A table with no pending command.
    pub fn new() -> (t: Self)
        ensures
            t@ == PendingView::empty(),
    {
        PendingTable { map: map_new() }
    }

    /// The id waits for an answer (an answer it held before is dropped).
    pub fn register(&mut self, event_id: String)
        ensures
            final(self)@ == spec_register(old(self)@, event_id@),
    {
        let _ = map_insert(&mut self.map, event_id, None);
    }

    /// Stores the answer to a command; answers to ids that nobody waits for are dropped.
    pub fn complete(&mut self, event_id: &String, answer: Vec<u8>)
        ensures
            final(self)@ == spec_complete(old(self)@, event_id@, answer@),
    {
        map_fill(&mut self.map, event_id, answer);
    }

    /// Takes the answer for an id, if it arrived; the id then leaves the table.
    pub fn take(&mut self, event_id: &String) -> (r: Option<Vec<u8>>)
        ensures
            (final(self)@, slot_view(r)) == spec_take(old(self)@, event_id@),
    {
        match map_remove_filled(&mut self.map, event_id) {
            Some((_, answer)) => answer,
            None => None,
        }
    }

    /// The id stops waiting.
    pub fn cancel(&mut self, event_id: &String)
        ensures
            final(self)@ == spec_cancel(old(self)@, event_id@),
    {
        let _ = map_remove(&mut self.map, event_id);
    }
}

// ---------------------------------------------------------------------------
// Event ids
// ---------------------------------------------------------------------------
/// A character of a hyphenated lower-case version 4 (random) uuid at the given position:
/// hyphens between the groups, the version digit `4`, and the variant digit of RFC 4122.
pub open spec fn uuid_char_ok(i: int, c: char) -> bool {
    if i == 8 || i == 13 || i == 18 || i == 23 {
        c == '-'
    } else if i == 14 {
        c == '4'
    } else if i == 19 {
        c == '8' || c == '9' || c == 'a' || c == 'b'
    } else {
        ('0' <= c <= '9') || ('a' <= c <= 'f')
    }
}

/// The text of a random uuid in its hyphenated lower-case form, as
/// `67e55044-10b1-426f-9247-bb680e5fe0c8`.
pub open spec fn is_hyphenated_uuid(s: Seq<char>) -> bool {
    &&& s.len() == 36
    &&& forall|i: int| 0 <= i < 36 ==> #[trigger] uuid_char_ok(i, s[i])
}

/// Calls `uuid::Uuid::new_v4` and formats the uuid with `Display`, which writes the
/// hyphenated lower-case form; `new_v4` sets the version and variant bits. The value is
/// random; only its form is stated.
#[verifier::external_body]
fn random_uuid_text() -> (r: String)
    ensures
        is_hyphenated_uuid(r@),
{
    uuid::Uuid::new_v4().to_string()
}

// ---------------------------------------------------------------------------
// Commands
// ---------------------------------------------------------------------------
/// A command sent to the peer that waits for the answer carrying its event id.
pub struct ClientCommand {
    pub event_id: String,
}

impl ClientCommand {
    /// A fresh random event id for a command.
    pub fn new_event_id() -> (r: String)
        ensures
            is_hyphenated_uuid(r@),
    {
        random_uuid_text()
    }

    /// Sends an encoded indication, which expects no answer.
    pub fn send_indication(client: &WsClient, frame: Vec<u8>) -> (r: Result<(), ClientError>)
        ensures
            send_outcome(client@, Frame::Binary(frame), r),
    {
        client.send_binary(frame)
    }

    /// Sends an encoded answer to a command of the peer.
    pub fn send_answer(client: &WsClient, frame: Vec<u8>) -> (r: Result<(), ClientError>)
        ensures
            send_outcome(client@, Frame::Binary(frame), r),
    {
        client.send_binary(frame)
    }

    /// Registers `event_id` as waiting and sends the encoded command. On success the
    /// command to wait on comes back; when the frame is not sent the id leaves the table.
    pub fn send_command(
        client: &WsClient,
        table: &mut PendingTable,
        event_id: String,
        frame: Vec<u8>,
    ) -> (r: Result<ClientCommand, ClientError>)
        ensures
            match r {
                Ok(cmd) => {
                    &&& send_refusal(client@) is None
                    &&& cmd.event_id@ == event_id@
                    &&& final(table)@ == spec_register(old(table)@, event_id@)
                },
                Err(e) => {
                    &&& send_outcome(client@, Frame::Binary(frame), Err(e))
                    &&& final(table)@ == spec_cancel(old(table)@, event_id@)
                },
            },
            send_refusal(client@) matches Some(e) ==> r == Err::<ClientCommand, ClientError>(e),
    {
        table.register(event_id.clone());
        match client.send_binary(frame) {
            Ok(()) => Ok(ClientCommand { event_id }),
            Err(e) => {
                table.cancel(&event_id);
                Err(e)
            },
        }
    }

    /// Polls for the answer: it comes back once it arrived, and the id leaves the table.
    pub fn poll(&self, table: &mut PendingTable) -> (r: Option<Vec<u8>>)
        ensures
            (final(table)@, slot_view(r)) == spec_take(old(table)@, self.event_id@),
    {
        table.take(&self.event_id)
    }

    /// The wait ran out: the id leaves the table and the command fails with a timeout.
    pub fn time_out(self, table: &mut PendingTable) -> (e: ClientError)
        ensures
            final(table)@ == spec_cancel(old(table)@, self.event_id@),
            e is ResponseTimeout,
    {
        table.cancel(&self.event_id);
        ClientError::ResponseTimeout
    }
}

} // verus!
