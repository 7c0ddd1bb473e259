use vstd::prelude::*;
use crate::connection::Connection;
use crate::registry::Registry;

verus! {

broadcast use vstd::seq_lib::lemma_seq_contains_after_push;

/// serde_json's dynamically-typed JSON value, as the webhook hands it in.
/// Opaque here: what it holds is the serializer's business, not this
/// library's.
#[verifier::external_type_specification]
#[verifier::external_body]
pub struct ExValue(serde_json::Value);

/// serde_json's error type, returned when a value cannot be encoded.
#[verifier::external_type_specification]
#[verifier::external_body]
pub struct ExJsonError(serde_json::Error);

/// What a broadcast or a direct send carries.
pub enum Payload {
    /// Arbitrary structured JSON from the webhook; encoded once per call.
    Json(serde_json::Value),
    /// A raw text frame from a client, relayed verbatim, not re-wrapped.
    Text(String),
}

/// The JSON encoding of a value, as serde_json's serializer produces it —
/// a function of the value alone (object keys are kept in a fixed order in
/// this build) — or nothing where the serializer fails on it.
pub uninterp spec fn json_text_of(v: serde_json::Value) -> Option<Seq<char>>;

impl Payload {
    /// Whether this is a raw text frame.
    pub open spec fn is_text(self) -> bool {
        self matches Payload::Text(_)
    }

    /// The text of a raw text frame.
    pub open spec fn text(self) -> Seq<char>
        recommends
            self.is_text(),
    {
        match self {
            Payload::Text(s) => s@,
            Payload::Json(_) => Seq::empty(),
        }
    }

    /// The serialized wire form of this payload, if it has one: a text frame
    /// is its own, JSON has whatever the encoder makes of it.
    pub open spec fn wire_form(self) -> Option<Seq<char>> {
        match self {
            Payload::Text(s) => Some(s@),
            Payload::Json(v) => json_text_of(v),
        }
    }
}

/// A failure surfaced to the caller of the engine. Per-recipient trouble is
/// never one: it is recorded in the `DeliveryReport` instead.
#[derive(Clone, Copy, Debug, PartialEq, Eq, Structural)]
pub enum BroadcastError {
    /// The payload could not be encoded.
    SerializationFailure,
}

/// The engine's delivery policy. Best-effort is the deliberate choice here:
/// a recipient whose queue is gone is recorded and skipped, and delivery to
/// everyone else goes ahead.
#[derive(Clone, Copy, Debug, PartialEq, Eq, Structural)]
pub enum DeliveryPolicy {
    /// Attempt every recipient; contain each failure to that recipient.
    BestEffort,
}

/// What a fan-out did: one enqueue attempt per snapshot entry, all with one
/// identical serialized text.
pub struct DeliveryReport {
    /// The serialized form, produced once and handed to every recipient.
    pub payload: String,
    /// Every id in the snapshot, in order, each attempted exactly once.
    pub attempted: Vec<usize>,
    /// The ids whose delivery queue had no consumer any more.
    pub unreachable: Vec<usize>,
}

impl DeliveryReport {
    /// How many recipients accepted the message into their queue.
    pub open spec fn delivered_count(self) -> int {
        self.attempted@.len() - self.unreachable@.len()
    }
}

/// The outcome of a single-recipient send.
#[derive(Clone, Copy, Debug, PartialEq, Eq, Structural)]
pub enum SendOutcome {
    /// The message was accepted into the recipient's delivery queue.
    Delivered,
    /// The recipient exists no more than its queue's consumer does: logged,
    /// non-fatal.
    QueueGone,
    /// No connection is registered under the id: logged, non-fatal.
    NotFound,
}

/// Relies on serde_json::to_string: the JSON encoding of the value, or the
/// serializer's own error. The encoding is deterministic — a function of the
/// value alone — so the result carries the name `json_text_of`, success and
/// failure included.
#[verifier::external_body]
fn to_json_text(v: &serde_json::Value) -> (r: Result<String, serde_json::Error>)
    ensures
        r matches Ok(s) ==> json_text_of(*v) == Some(s@),
        r is Err ==> json_text_of(*v) is None,
{
    serde_json::to_string(v)
}

/// Serialize a payload once. A raw text frame is its own serialized form,
/// passed through verbatim, and cannot fail; JSON is handed to the encoder,
/// and the result is exactly the payload's wire form: `Ok` with that text
/// when it has one, `SerializationFailure` exactly when it has none.
pub fn serialize_payload(p: &Payload) -> (r: Result<String, BroadcastError>)
    ensures
        p.is_text() ==> (r matches Ok(s) && s@ == p.text()),
        r matches Ok(s) ==> p.wire_form() == Some(s@),
        r is Err <==> p.wire_form() is None,
        r is Err ==> r == Err::<String, BroadcastError>(BroadcastError::SerializationFailure),
{
    match p {
        Payload::Text(s) => Ok(s.clone()),
        Payload::Json(v) => match to_json_text(v) {
            Ok(s) => Ok(s),
            Err(_) => Err(BroadcastError::SerializationFailure),
        },
    }
}

/// Whether no two entries of a snapshot claim the same id, as a snapshot of
/// a well-formed registry never does.
pub open spec fn distinct_ids(s: Seq<Connection>) -> bool {
    forall|p: int, q: int|
        0 <= p < q < s.len() ==> (#[trigger] s[p]).id != (#[trigger] s[q]).id
}

/// Walk a snapshot and offer every connection in it the identical serialized
/// text, exactly once each, in snapshot order. A recipient whose queue is
/// gone is recorded under `unreachable` and delivery moves on: per-recipient
/// failure never aborts the rest.
pub fn fan_out(snapshot: &Vec<Connection>, text: String) -> (rep: DeliveryReport)
    ensures
        rep.payload@ == text@,
        rep.attempted@.len() == snapshot@.len(),
        forall|i: int|
            0 <= i < snapshot@.len() ==> rep.attempted@[i] == (#[trigger] snapshot@[i]).id,
        forall|j: int|
            0 <= j < rep.unreachable@.len() ==> rep.attempted@.contains(
                #[trigger] rep.unreachable@[j],
            ),
        distinct_ids(snapshot@) ==> rep.unreachable@.no_duplicates(),
{
    let mut attempted: Vec<usize> = Vec::new();
    let mut unreachable: Vec<usize> = Vec::new();
    let n = snapshot.len();
    let mut i: usize = 0;
    while i < n
        invariant
            n == snapshot@.len(),
            i <= n,
            attempted@.len() == i,
            forall|k: int| 0 <= k < i ==> attempted@[k] == (#[trigger] snapshot@[k]).id,
            forall|j: int|
                0 <= j < unreachable@.len() ==> attempted@.contains(#[trigger] unreachable@[j]),
            distinct_ids(snapshot@) ==> unreachable@.no_duplicates(),
        decreases n - i,
    {
        let conn = &snapshot[i];
        let delivered = conn.deliver(text.clone());
        let ghost att0 = attempted@;
        let ghost unr0 = unreachable@;
        let ghost cid = snapshot@[i as int].id;
        attempted.push(conn.id);
        if !delivered {
            unreachable.push(conn.id);
        }
        proof {
            assert(attempted@ == att0.push(cid));
            assert forall|j: int|
                0 <= j < unreachable@.len() implies attempted@.contains(
                #[trigger] unreachable@[j],
            ) by {
                if j < unr0.len() {
                    assert(unreachable@[j] == unr0[j]);
                    assert(att0.contains(unr0[j]));
                    assert(att0.push(cid).contains(unr0[j]));
                } else {
                    assert(unreachable@[j] == cid);
                    assert(attempted@[att0.len() as int] == cid);
                }
            }
            if distinct_ids(snapshot@) && !delivered {
                assert(!unr0.contains(cid)) by {
                    if unr0.contains(cid) {
                        let j = choose|j: int| 0 <= j < unr0.len() && unr0[j] == cid;
                        assert(att0.contains(cid));
                        let k = choose|k: int| 0 <= k < att0.len() && att0[k] == cid;
                        assert(snapshot@[k].id == cid);
                        assert(snapshot@[i as int].id == cid);
                    }
                }
                assert(unreachable@.no_duplicates()) by {
                    assert forall|p: int, q: int|
                        0 <= p < unreachable@.len() && 0 <= q < unreachable@.len() && p
                            != q implies unreachable@[p] != unreachable@[q] by {
                        if p < unr0.len() && q < unr0.len() {
                            assert(unr0.no_duplicates());
                        } else if p < unr0.len() {
                            assert(unr0.contains(unr0[p]));
                        } else if q < unr0.len() {
                            assert(unr0.contains(unr0[q]));
                        }
                    }
                }
            }
        }
        i = i + 1;
    }
    DeliveryReport { payload: text, attempted, unreachable }
}

impl Registry {
    /// Best-effort fan-out: serialize the payload once, then offer the
    /// identical serialized form to every connection in a point-in-time
    /// snapshot of the registry, each exactly once, in registration order.
    /// Succeeds — with the payload's own wire form as the delivered text —
    /// once serialization has succeeded and every recipient has been
    /// attempted; it never waits for any transport write. A raw text frame
    /// always succeeds; the one error a caller ever sees is the encoder's,
    /// exactly on the payloads that have no wire form.
    pub fn broadcast(&self, payload: &Payload) -> (r: Result<DeliveryReport, BroadcastError>)
        requires
            self.wf(),
        ensures
            payload.is_text() ==> r is Ok,
            r is Err <==> payload.wire_form() is None,
            r is Err ==> r == Err::<DeliveryReport, BroadcastError>(
                BroadcastError::SerializationFailure,
            ),
            r matches Ok(rep) ==> {
                &&& payload.wire_form() == Some(rep.payload@)
                &&& rep.attempted@.len() == self.ids().len()
                &&& (forall|i: int|
                    0 <= i < self.ids().len() ==> #[trigger] rep.attempted@[i] == self.ids()[i])
                &&& (forall|j: int|
                    0 <= j < rep.unreachable@.len() ==> rep.attempted@.contains(
                        #[trigger] rep.unreachable@[j],
                    ))
                &&& rep.unreachable@.no_duplicates()
                &&& payload.is_text() ==> rep.payload@ == payload.text()
            },
    {
        let text = match serialize_payload(payload) {
            Ok(text) => text,
            Err(e) => {
                return Err(e);
            },
        };
        let snapshot = self.snapshot_for_broadcast();
        proof {
            crate::registry::lemma_registry_ids_distinct(*self);
            assert forall|p: int, q: int|
                0 <= p < q < snapshot@.len() implies (#[trigger] snapshot@[p]).id
                != (#[trigger] snapshot@[q]).id by {
                assert(snapshot@[p].id == self.ids()[p]);
                assert(snapshot@[q].id == self.ids()[q]);
            }
        }
        let rep = fan_out(&snapshot, text);
        proof {
            assert forall|i: int|
                0 <= i < self.ids().len() implies #[trigger] rep.attempted@[i]
                == self.ids()[i] by {
                assert(rep.attempted@[i] == snapshot@[i].id);
            }
        }
        Ok(rep)
    }

    /// The single-recipient variant: serialize once, look the one connection
    /// up, attempt delivery. An unknown id is a loggable outcome, not an
    /// error: the caller still gets `Ok`. The one error is the encoder's,
    /// exactly on the payloads that have no wire form — never the recipient's
    /// absence or its closed queue.
    pub fn send_to(&self, id: usize, payload: &Payload) -> (r: Result<SendOutcome, BroadcastError>)
        requires
            self.wf(),
        ensures
            payload.is_text() ==> r is Ok,
            r is Err <==> payload.wire_form() is None,
            r is Err ==> r == Err::<SendOutcome, BroadcastError>(
                BroadcastError::SerializationFailure,
            ),
            r matches Ok(outcome) ==> (outcome == SendOutcome::NotFound <==> !self@.contains_key(
                id,
            )),
    {
        let text = match serialize_payload(payload) {
            Ok(text) => text,
            Err(e) => {
                return Err(e);
            },
        };
        match self.lookup(id) {
            None => Ok(SendOutcome::NotFound),
            Some(conn) => {
                if conn.deliver(text) {
                    Ok(SendOutcome::Delivered)
                } else {
                    Ok(SendOutcome::QueueGone)
                }
            },
        }
    }

    /// The engine's policy, by name: delivery is best-effort, deliberately.
    pub fn delivery_policy(&self) -> (p: DeliveryPolicy)
        ensures
            p == DeliveryPolicy::BestEffort,
    {
        DeliveryPolicy::BestEffort
    }
}

/// Every live connection is attempted exactly once per broadcast: a report
/// whose attempt list mirrors the registry's ids — what `broadcast` promises
/// of every report it returns — carries every registered id, no id twice, and
/// no id of a connection that is not registered. Closed queues among the
/// recipients change none of this.
pub proof fn lemma_broadcast_attempts_each_once(r: Registry, rep: DeliveryReport)
    requires
        r.wf(),
        rep.attempted@.len() == r.ids().len(),
        forall|i: int| 0 <= i < r.ids().len() ==> #[trigger] rep.attempted@[i] == r.ids()[i],
    ensures
        rep.attempted@.no_duplicates(),
        forall|k: usize| #[trigger] rep.attempted@.contains(k) <==> r@.contains_key(k),
{
    assert(rep.attempted@ =~= r.ids());
    crate::registry::lemma_registry_ids_distinct(r);
}

} // verus!
