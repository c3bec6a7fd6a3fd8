//! What the broadcast server decides.
//!
//! A client asks for the latest snapshot by sending one byte, whose value
//! does not matter, and gets the encoded snapshot back. The server never
//! speaks first. A connection that fails is closed and nothing else is
//! affected; a connection that cannot be accepted is passed over.

use vstd::prelude::*;
use crate::aggregate::AggregateState;
use crate::snapshot::SharedSnapshot;

verus! {

/// Number of bytes in a client's request.
pub const REQUEST_LEN: usize = 1;

/// What happened on a connection.
#[derive(Clone, Copy, Debug, PartialEq, Eq)]
pub enum ConnectionEvent {
    /// The connection has been opened.
    Opened,
    /// A request has arrived.
    Requested,
    /// The reply has been written.
    Replied,
    /// Reading or writing failed, or the client has gone.
    Failed,
}

/// What the handler of a connection does next.
#[derive(Clone, Copy, Debug, PartialEq, Eq)]
pub enum ConnectionAction {
    /// Wait for the next request.
    AwaitRequest,
    /// Write the encoding of `state` to the client.
    Reply { state: AggregateState },
    /// Close the connection and end its handler.
    Close,
}

/// What happened on the listening socket.
#[derive(Clone, Copy, Debug, PartialEq, Eq)]
pub enum ListenerEvent {
    /// A client has connected.
    Accepted,
    /// A client could not be accepted.
    AcceptFailed,
}

/// What the listener does next. In either case it goes on listening.
#[derive(Clone, Copy, Debug, PartialEq, Eq)]
pub enum ListenerAction {
    /// Give the new connection a handler of its own.
    Serve,
    /// Pass the failure over.
    Skip,
}

/// The handler's next action, given the snapshot that is the latest now.
pub open spec fn respond_spec(event: ConnectionEvent, latest: AggregateState) -> ConnectionAction {
    match event {
        ConnectionEvent::Opened | ConnectionEvent::Replied => ConnectionAction::AwaitRequest,
        ConnectionEvent::Requested => ConnectionAction::Reply { state: latest },
        ConnectionEvent::Failed => ConnectionAction::Close,
    }
}

/// Decides what a connection's handler does after `event`, where `latest` is
/// the snapshot read for it.
#[verifier::when_used_as_spec(respond_spec)]
pub fn respond(event: ConnectionEvent, latest: AggregateState) -> (action: ConnectionAction)
    ensures
        action == respond_spec(event, latest),
{
    match event {
        ConnectionEvent::Opened | ConnectionEvent::Replied => ConnectionAction::AwaitRequest,
        ConnectionEvent::Requested => ConnectionAction::Reply { state: latest },
        ConnectionEvent::Failed => ConnectionAction::Close,
    }
}

/// Decides what a connection's handler does after `event`, with the snapshot
/// that `snapshot` holds when it is looked at: a request is answered with
/// that snapshot, and every other event is answered as [`respond`] says,
/// whatever the snapshot.
pub fn handle_event(
    event: ConnectionEvent,
    snapshot: &SharedSnapshot,
) -> (action: ConnectionAction)
    ensures
        exists|latest: AggregateState| action == respond_spec(event, latest),
{
    respond(event, snapshot.read())
}

/// Decides what the listener does after `event`.
pub fn on_accept(event: ListenerEvent) -> (action: ListenerAction)
    ensures
        action == match event {
            ListenerEvent::Accepted => ListenerAction::Serve,
            ListenerEvent::AcceptFailed => ListenerAction::Skip,
        },
{
    match event {
        ListenerEvent::Accepted => ListenerAction::Serve,
        ListenerEvent::AcceptFailed => ListenerAction::Skip,
    }
}

} // verus!
