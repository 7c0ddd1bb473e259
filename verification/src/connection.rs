use vstd::prelude::*;
use tokio::sync::mpsc::UnboundedSender;

verus! {

/// tokio's unbounded channel sender: the write-only delivery handle that a
/// `Connection` owns. It is opaque here; the queue behind it is shared
/// runtime state, so nothing is modeled about its contents.
#[verifier::external_type_specification]
#[verifier::external_body]
#[verifier::reject_recursive_types(T)]
pub struct ExUnboundedSender<T>(UnboundedSender<T>);

/// One live client connection: its id and the sending half of its outbound
/// delivery channel. The receiving half is drained by that connection's
/// outbound loop, which runs outside this library and writes each dequeued
/// message to the transport in queue order.
pub struct Connection {
    /// Unique for the process lifetime; never reused after the connection closes.
    pub id: usize,
    /// Accepts already-serialized messages for this client, without blocking.
    pub outbound: UnboundedSender<String>,
}

impl Connection {
    /// Bundle a freshly allocated id with the sending half of a new channel.
    pub fn new(id: usize, outbound: UnboundedSender<String>) -> (c: Connection)
        ensures
            c.id == id,
            c.outbound == outbound,
            c == (Connection { id, outbound }),
    {
        Connection { id, outbound }
    }

    /// Enqueue one already-serialized message for this client. Best-effort:
    /// the result reports whether the queue still had a consumer, and a
    /// `false` is for the caller to record, never to escalate.
    pub fn deliver(&self, text: String) -> (delivered: bool) {
        channel_send(&self.outbound, text)
    }

    /// A second handle onto the same connection: the same id, and a cloned
    /// sending handle onto the same delivery queue — the same connection, as
    /// far as this library can tell them apart.
    pub fn duplicate_handle(&self) -> (c: Connection)
        ensures
            c == *self,
    {
        Connection { id: self.id, outbound: clone_sender(&self.outbound) }
    }
}

/// Relies on tokio::sync::mpsc::UnboundedSender::send: enqueues the message
/// at the tail of the queue without blocking, and fails exactly when the
/// receiving half was closed or dropped. Whether that has happened depends on
/// runtime state, so nothing is claimed of the result.
#[verifier::external_body]
fn channel_send(tx: &UnboundedSender<String>, text: String) -> bool {
    tx.send(text).is_ok()
}

/// Relies on Clone for tokio::sync::mpsc::UnboundedSender: the clone is a new
/// handle onto the very same queue, so the sender is modeled as the same
/// abstract value.
#[verifier::external_body]
fn clone_sender(tx: &UnboundedSender<String>) -> (r: UnboundedSender<String>)
    ensures
        r == *tx,
{
    tx.clone()
}

} // verus!
