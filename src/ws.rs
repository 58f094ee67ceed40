//! The store's WebSocket side: how a session answers client frames and
//! protocol violations, the frames broadcast on each change, and the registry
//! of subscribers.
use vstd::prelude::*;

use crate::model::ProcessedAgentId;
use crate::text::{push_signed_decimal, push_decimal, decimal, signed_decimal};

verus! {

/// Close codes that a session may end with.
#[derive(Debug, Clone, Copy, PartialEq, Eq, Structural)]
pub enum CloseCode {
    /// 1002: the peer broke the protocol.
    Protocol,
    /// 1009: a message was too big.
    Size,
    /// 1011: the server hit an error.
    Error,
}

pub open spec fn close_code_number(c: CloseCode) -> u16 {
    match c {
        CloseCode::Protocol => 1002,
        CloseCode::Size => 1009,
        CloseCode::Error => 1011,
    }
}

impl CloseCode {
    pub fn number(&self) -> (r: u16)
        ensures
            r == close_code_number(*self),
    {
        match self {
            CloseCode::Protocol => 1002,
            CloseCode::Size => 1009,
            CloseCode::Error => 1011,
        }
    }
}

/// Frame opcodes, as a violation report names them.
#[derive(Debug, Clone, Copy, PartialEq, Eq, Structural)]
pub enum Opcode {
    Continue,
    Text,
    Binary,
    Close,
    Ping,
    Pong,
    Bad,
}

pub open spec fn opcode_name(op: Opcode) -> Seq<char> {
    match op {
        Opcode::Continue => "CONTINUE"@,
        Opcode::Text => "TEXT"@,
        Opcode::Binary => "BINARY"@,
        Opcode::Close => "CLOSE"@,
        Opcode::Ping => "PING"@,
        Opcode::Pong => "PONG"@,
        Opcode::Bad => "BAD"@,
    }
}

impl Opcode {
    pub fn name(&self) -> (r: &'static str)
        ensures
            r@ == opcode_name(*self),
    {
        match self {
            Opcode::Continue => "CONTINUE",
            Opcode::Text => "TEXT",
            Opcode::Binary => "BINARY",
            Opcode::Close => "CLOSE",
            Opcode::Ping => "PING",
            Opcode::Pong => "PONG",
            Opcode::Bad => "BAD",
        }
    }
}

/// Ways in which a client's frames can break the WebSocket protocol.
#[derive(Debug, Clone, Copy, PartialEq, Eq, Structural)]
pub enum ProtocolViolation {
    UnmaskedFrame,
    MaskedFrame,
    InvalidOpcode(u8),
    InvalidLength(usize),
    BadOpCode,
    Overflow,
    ContinuationNotStarted,
    ContinuationStarted,
    ContinuationFragment(Opcode),
    Io,
}

/// What a session receives from its client.
#[derive(Debug, Clone, PartialEq, Eq)]
pub enum WsEvent {
    /// A ping, with its payload.
    Ping(Vec<u8>),
    /// Any other well-formed frame.
    Frame,
    /// A frame that breaks the protocol.
    Violation(ProtocolViolation),
}

/// What a session does in answer.
#[derive(Debug, Clone, PartialEq, Eq)]
pub enum WsAction {
    /// Answer with a pong that carries the ping's payload.
    Pong(Vec<u8>),
    /// Nothing to answer.
    Ignore,
    /// Close the session with this code and description.
    Close { code: CloseCode, description: String },
}

/// The close code and description for a violation.
pub open spec fn close_for(v: ProtocolViolation) -> (CloseCode, Seq<char>) {
    match v {
        ProtocolViolation::UnmaskedFrame => (CloseCode::Protocol, "Received unmasked frame"@),
        ProtocolViolation::MaskedFrame => (CloseCode::Protocol, "Received masked frame"@),
        ProtocolViolation::InvalidOpcode(op) => (
            CloseCode::Protocol,
            "Received invalid opcode: "@ + decimal(op as nat),
        ),
        ProtocolViolation::InvalidLength(len) => (
            CloseCode::Protocol,
            "Received invalid length: "@ + decimal(len as nat),
        ),
        ProtocolViolation::BadOpCode => (CloseCode::Protocol, "Received bad opcode"@),
        ProtocolViolation::Overflow => (CloseCode::Size, "Received message too big"@),
        ProtocolViolation::ContinuationNotStarted => (
            CloseCode::Protocol,
            "Received continuation frame before start"@,
        ),
        ProtocolViolation::ContinuationStarted => (
            CloseCode::Protocol,
            "Received start frame during continuation"@,
        ),
        ProtocolViolation::ContinuationFragment(op) => (
            CloseCode::Protocol,
            "Received continuation fragment with opcode: "@ + opcode_name(op),
        ),
        ProtocolViolation::Io => (CloseCode::Error, "I/O error"@),
    }
}

/// How a session answers one event: a ping gets a pong with the same
/// payload, a violation closes the session, anything else is ignored.
pub fn react(event: WsEvent) -> (r: WsAction)
    ensures
        event matches WsEvent::Ping(p) ==> r == WsAction::Pong(p),
        event is Frame ==> r == WsAction::Ignore,
        event matches WsEvent::Violation(v) ==> r matches WsAction::Close { code, description }
            && (code, description@) == close_for(v),
{
    match event {
        WsEvent::Ping(payload) => WsAction::Pong(payload),
        WsEvent::Frame => WsAction::Ignore,
        WsEvent::Violation(v) => {
            let (code, description) = close_reason(v);
            WsAction::Close { code, description }
        },
    }
}

fn close_reason(v: ProtocolViolation) -> (r: (CloseCode, String))
    ensures
        (r.0, r.1@) == close_for(v),
{
    match v {
        ProtocolViolation::UnmaskedFrame => (
            CloseCode::Protocol,
            String::from_str("Received unmasked frame"),
        ),
        ProtocolViolation::MaskedFrame => (
            CloseCode::Protocol,
            String::from_str("Received masked frame"),
        ),
        ProtocolViolation::InvalidOpcode(op) => {
            let mut s = String::from_str("Received invalid opcode: ");
            push_decimal(&mut s, op as u64);
            (CloseCode::Protocol, s)
        },
        ProtocolViolation::InvalidLength(len) => {
            let mut s = String::from_str("Received invalid length: ");
            push_decimal(&mut s, len as u64);
            (CloseCode::Protocol, s)
        },
        ProtocolViolation::BadOpCode => (
            CloseCode::Protocol,
            String::from_str("Received bad opcode"),
        ),
        ProtocolViolation::Overflow => (
            CloseCode::Size,
            String::from_str("Received message too big"),
        ),
        ProtocolViolation::ContinuationNotStarted => (
            CloseCode::Protocol,
            String::from_str("Received continuation frame before start"),
        ),
        ProtocolViolation::ContinuationStarted => (
            CloseCode::Protocol,
            String::from_str("Received start frame during continuation"),
        ),
        ProtocolViolation::ContinuationFragment(op) => {
            let mut s = String::from_str("Received continuation fragment with opcode: ");
            s.append(op.name());
            (CloseCode::Protocol, s)
        },
        ProtocolViolation::Io => (CloseCode::Error, String::from_str("I/O error")),
    }
}


/// Type name that a deletion frame reports for the removed record.
pub const RECORD_TYPE_NAME: &'static str = "iot_telemetry::domain::ProcessedAgent";

/// The identifier, or identifiers, that a change concerns.
#[derive(Debug, Clone, PartialEq, Eq)]
pub enum MessageId {
    One(ProcessedAgentId),
    Many(Vec<ProcessedAgentId>),
}

/// A change broadcast to subscribers. `data` is the JSON text of the record,
/// or of the list of records, that was written.
#[derive(Debug, Clone, PartialEq, Eq)]
pub enum Message {
    New { id: MessageId, data: String },
    Update { id: MessageId, data: String },
    Delete { id: MessageId },
}

/// `ids` in decimal, separated by commas.
pub open spec fn joined_ids(ids: Seq<ProcessedAgentId>) -> Seq<char>
    decreases ids.len(),
{
    if ids.len() == 0 {
        Seq::empty()
    } else if ids.len() == 1 {
        signed_decimal(ids[0].0 as int)
    } else {
        joined_ids(ids.drop_last()) + ","@ + signed_decimal(ids.last().0 as int)
    }
}

pub open spec fn id_json(id: MessageId) -> Seq<char> {
    match id {
        MessageId::One(i) => signed_decimal(i.0 as int),
        MessageId::Many(ids) => "["@ + joined_ids(ids@) + "]"@,
    }
}

/// The JSON object sent for a change:
/// `{"kind":<kind>,"id":<id or ids>,"data":<record>}`, where a deletion
/// carries the record's type name under `data_type` in place of data.
pub open spec fn frame(m: Message) -> Seq<char> {
    match m {
        Message::New { id, data } => "{\"kind\":\"new\",\"id\":"@ + id_json(id) + ",\"data\":"@
            + data@ + "}"@,
        Message::Update { id, data } => "{\"kind\":\"update\",\"id\":"@ + id_json(id)
            + ",\"data\":"@ + data@ + "}"@,
        Message::Delete { id } => "{\"kind\":\"delete\",\"id\":"@ + id_json(id)
            + ",\"data_type\":\""@ + RECORD_TYPE_NAME@ + "\"}"@,
    }
}

fn push_id_json(s: &mut String, id: &MessageId)
    ensures
        final(s)@ == old(s)@ + id_json(*id),
{
    match id {
        MessageId::One(i) => push_signed_decimal(s, i.0 as i64),
        MessageId::Many(ids) => {
            s.append("[");
            let mut k: usize = 0;
            while k < ids.len()
                invariant
                    0 <= k <= ids@.len(),
                    s@ == old(s)@ + "["@ + joined_ids(ids@.take(k as int)),
                decreases ids@.len() - k,
            {
                if k > 0 {
                    s.append(",");
                }
                push_signed_decimal(s, ids[k].0 as i64);
                k = k + 1;
                proof {
                    let t = ids@.take(k as int);
                    assert(t.drop_last() =~= ids@.take(k - 1));
                    if k == 1 {
                        assert(joined_ids(ids@.take(0)) =~= Seq::<char>::empty());
                    }
                    assert(s@ =~= old(s)@ + "["@ + joined_ids(t));
                }
            }
            proof {
                assert(ids@.take(ids@.len() as int) =~= ids@);
            }
            s.append("]");
            proof {
                assert(s@ =~= old(s)@ + id_json(*id));
            }
        },
    }
}

impl Message {
    /// The broadcast owed after an update: one when a record was replaced,
    /// none when no record had the identifier.
    pub fn after_update(id: ProcessedAgentId, data: String, updated: bool) -> (r: Option<Message>)
        ensures
            updated ==> r == Some(Message::Update { id: MessageId::One(id), data }),
            !updated ==> r is None,
    {
        if updated {
            Some(Message::Update { id: MessageId::One(id), data })
        } else {
            None
        }
    }

    /// The broadcast owed after a delete: one when a record was removed, none
    /// when there was nothing to remove.
    pub fn after_delete(id: ProcessedAgentId, deleted: bool) -> (r: Option<Message>)
        ensures
            deleted ==> r == Some(Message::Delete { id: MessageId::One(id) }),
            !deleted ==> r is None,
    {
        if deleted {
            Some(Message::Delete { id: MessageId::One(id) })
        } else {
            None
        }
    }

    /// The frame's text.
    pub fn encode(&self) -> (r: String)
        ensures
            r@ == frame(*self),
    {
        match self {
            Message::New { id, data } => {
                let mut s = String::from_str("{\"kind\":\"new\",\"id\":");
                push_id_json(&mut s, id);
                s.append(",\"data\":");
                s.append(data.as_str());
                s.append("}");
                proof {
                    assert(s@ =~= frame(*self));
                }
                s
            },
            Message::Update { id, data } => {
                let mut s = String::from_str("{\"kind\":\"update\",\"id\":");
                push_id_json(&mut s, id);
                s.append(",\"data\":");
                s.append(data.as_str());
                s.append("}");
                proof {
                    assert(s@ =~= frame(*self));
                }
                s
            },
            Message::Delete { id } => {
                let mut s = String::from_str("{\"kind\":\"delete\",\"id\":");
                push_id_json(&mut s, id);
                s.append(",\"data_type\":\"");
                s.append(RECORD_TYPE_NAME);
                s.append("\"}");
                proof {
                    assert(s@ =~= frame(*self));
                }
                s
            },
        }
    }
}


/// Whether `id` is one of `ids`.
pub fn contains_id(ids: &[u64], id: u64) -> (r: bool)
    ensures
        r == ids@.contains(id),
{
    let mut i: usize = 0;
    while i < ids.len()
        invariant
            0 <= i <= ids@.len(),
            forall|j: int| 0 <= j < i ==> ids@[j] != id,
        decreases ids@.len() - i,
    {
        if ids[i] == id {
            return true;
        }
        i = i + 1;
    }
    false
}

/// The subscribers that stay after a broadcast in which sends to `failed`
/// did not go through: every other subscriber, in the same order.
pub open spec fn survivors<S>(entries: Seq<(u64, S)>, failed: Seq<u64>) -> Seq<(u64, S)> {
    entries.filter(stays(failed))
}

/// Whether a subscriber stays after a broadcast whose sends to `failed`
/// did not go through.
pub open spec fn stays<S>(failed: Seq<u64>) -> spec_fn((u64, S)) -> bool {
    |e: (u64, S)| !failed.contains(e.0)
}

/// Whether identifiers increase along `entries`.
pub open spec fn ids_increasing<S>(entries: Seq<(u64, S)>) -> bool {
    forall|i: int, j: int| 0 <= i < j < entries.len() ==> entries[i].0 < entries[j].0
}

proof fn lemma_filter_keeps_increasing<S>(entries: Seq<(u64, S)>, pred: spec_fn((u64, S)) -> bool)
    requires
        ids_increasing(entries),
    ensures
        ids_increasing(entries.filter(pred)),
    decreases entries.len(),
{
    reveal(Seq::filter);
    if entries.len() > 0 {
        let rest = entries.drop_last();
        let last = entries.last();
        assert(ids_increasing(rest));
        lemma_filter_keeps_increasing(rest, pred);
        let kept = rest.filter(pred);
        if pred(last) {
            assert forall|k: int| 0 <= k < kept.len() implies kept[k].0 < last.0 by {
                assert(kept.contains(kept[k]));
                rest.lemma_filter_contains_rev(pred, kept[k]);
                let idx = choose|idx: int| 0 <= idx < rest.len() && rest[idx] == kept[k];
                assert(entries[idx] == rest[idx]);
            }
            assert(entries.filter(pred) == kept.push(last));
        }
    }
}

/// The live subscribers, each under an identifier that is never handed out
/// twice.
pub struct Subscribers<S> {
    next_id: u64,
    entries: Vec<(u64, S)>,
}

impl<S> View for Subscribers<S> {
    type V = Seq<(u64, S)>;

    closed spec fn view(&self) -> Seq<(u64, S)> {
        self.entries@
    }
}

impl<S> Subscribers<S> {
    /// The identifier that the next subscriber will get; every identifier
    /// handed out so far is below it.
    pub closed spec fn next_id(&self) -> nat {
        self.next_id as nat
    }

    /// Every identifier is below `next_id`, and identifiers increase in
    /// registration order, so no two subscribers share one.
    pub closed spec fn wf(&self) -> bool {
        &&& forall|i: int| 0 <= i < self.entries@.len() ==> self.entries@[i].0 < self.next_id
        &&& ids_increasing(self.entries@)
    }

    /// No two subscribers share an identifier.
    pub proof fn lemma_ids_distinct(&self)
        requires
            self.wf(),
        ensures
            forall|i: int, j: int|
                0 <= i < self@.len() && 0 <= j < self@.len() && i != j ==> self@[i].0 != self@[j].0,
    {
        assert forall|i: int, j: int|
            0 <= i < self@.len() && 0 <= j < self@.len() && i != j implies self@[i].0
            != self@[j].0 by {
            if i < j {
                assert(self@[i].0 < self@[j].0);
            } else {
                assert(self@[j].0 < self@[i].0);
            }
        }
    }

    pub fn new() -> (r: Subscribers<S>)
        ensures
            r.wf(),
            r@ == Seq::<(u64, S)>::empty(),
            r.next_id() == 0,
    {
        Subscribers { next_id: 0, entries: Vec::new() }
    }

    pub fn len(&self) -> (r: usize)
        ensures
            r == self@.len(),
    {
        self.entries.len()
    }

    /// The identifier and session of the `i`-th subscriber.
    pub fn get(&self, i: usize) -> (r: (u64, &S))
        requires
            i < self@.len(),
        ensures
            r.0 == self@[i as int].0,
            *r.1 == self@[i as int].1,
    {
        let e = &self.entries[i];
        (e.0, &e.1)
    }

    /// Registers `session` under a fresh identifier; none once identifiers
    /// are used up.
    pub fn add(&mut self, session: S) -> (r: Option<u64>)
        requires
            old(self).wf(),
        ensures
            final(self).wf(),
            r is None <==> old(self).next_id() == u64::MAX,
            r is None ==> final(self)@ == old(self)@ && final(self).next_id() == old(self).next_id(),
            r matches Some(id) ==> {
                &&& id == old(self).next_id()
                &&& final(self).next_id() == id + 1
                &&& final(self)@ == old(self)@.push((id, session))
                &&& forall|i: int| 0 <= i < old(self)@.len() ==> old(self)@[i].0 != id
            },
    {
        if self.next_id == u64::MAX {
            return None;
        }
        let id = self.next_id;
        self.entries.push((id, session));
        self.next_id = id + 1;
        Some(id)
    }

    /// Drops the subscribers whose identifiers are in `failed`.
    pub fn evict(&mut self, failed: &[u64])
        requires
            old(self).wf(),
        ensures
            final(self).wf(),
            final(self).next_id() == old(self).next_id(),
            final(self)@ == survivors(old(self)@, failed@),
    {
        let ghost pred = stays::<S>(failed@);
        let ghost before = self.entries@;
        let mut source = self.entries.split_off(0);
        let mut kept: Vec<(u64, S)> = Vec::new();
        let mut i: usize = 0;
        let n = source.len();
        while i < n
            invariant
                n == before.len(),
                pred == stays::<S>(failed@),
                0 <= i <= n,
                source@ == before.skip(i as int),
                kept@ == before.take(i as int).filter(pred),
                forall|j: int| 0 <= j < before.len() ==> before[j].0 < self.next_id,
                ids_increasing(before),
                self.entries@.len() == 0,
            decreases n - i,
        {
            let e = source.remove(0);
            let keep = !contains_id(failed, e.0);
            proof {
                reveal(Seq::filter);
                let t = before.take(i + 1);
                assert(t.drop_last() =~= before.take(i as int));
                assert(t.last() == e);
                assert(source@ =~= before.skip(i + 1));
                assert(pred(e) == keep);
                assert(t.filter(pred) == if pred(e) {
                    before.take(i as int).filter(pred).push(e)
                } else {
                    before.take(i as int).filter(pred)
                });
            }
            if keep {
                kept.push(e);
            }
            i = i + 1;
        }
        proof {
            assert(before.take(n as int) =~= before);
            assert forall|j: int| 0 <= j < kept@.len() implies kept@[j].0 < self.next_id by {
                assert(kept@.contains(kept@[j]));
                before.lemma_filter_contains_rev(pred, kept@[j]);
            }
            lemma_filter_keeps_increasing(before, pred);
        }
        self.entries = kept;
    }

    /// Drops the subscriber `id`, once its session has ended.
    pub fn remove(&mut self, id: u64)
        requires
            old(self).wf(),
        ensures
            final(self).wf(),
            final(self).next_id() == old(self).next_id(),
            final(self)@ == survivors(old(self)@, seq![id]),
    {
        let failed = vec![id];
        let ids = failed.as_slice();
        assert(ids@ =~= seq![id]);
        self.evict(ids);
    }
}

impl<S> Default for Subscribers<S> {
    fn default() -> (r: Subscribers<S>)
        ensures
            r.wf(),
            r@ == Seq::<(u64, S)>::empty(),
            r.next_id() == 0,
    {
        Subscribers::new()
    }
}

/// A broadcast leaves no subscriber in doubt: one whose send failed is gone
/// before the next broadcast starts, and one whose send went through is still
/// there, with the same session.
pub proof fn lemma_broadcast_delivers_or_evicts<S>(
    entries: Seq<(u64, S)>,
    failed: Seq<u64>,
    entry: (u64, S),
)
    requires
        entries.contains(entry),
    ensures
        failed.contains(entry.0) ==> !survivors(entries, failed).contains(entry),
        !failed.contains(entry.0) ==> survivors(entries, failed).contains(entry),
{
    let pred = stays::<S>(failed);
    let i = choose|i: int| 0 <= i < entries.len() && entries[i] == entry;
    if failed.contains(entry.0) {
        if survivors(entries, failed).contains(entry) {
            let j = choose|j: int|
                0 <= j < survivors(entries, failed).len() && survivors(entries, failed)[j]
                    == entry;
            entries.lemma_filter_pred(pred, j);
        }
    } else {
        entries.lemma_filter_contains(pred, i);
    }
}

} // verus!
