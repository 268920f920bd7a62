//! Connection lifecycle of the two bridge tasks.
//!
//! Each direction runs as its own endless task: it waits until its USB
//! endpoint is enabled, then works until the transport reports a failure,
//! and goes back to waiting. The two directions share no state. The
//! functions here make each task's decisions; the task itself performs
//! the actions and reports what happened.
use vstd::prelude::*;

use crate::error::BridgeError;

verus! {

/// Whether a direction's endpoint is known to be usable.
#[derive(Debug, Clone, Copy, PartialEq, Eq, Structural)]
pub enum LinkState {
    /// Waiting for the endpoint to be enabled.
    Disconnected,
    /// The endpoint was enabled and no transfer on it has failed since.
    Connected,
}

/// What the send task learns.
#[derive(Debug, Clone, Copy, PartialEq, Eq, Structural)]
pub enum SendEvent {
    /// The outbound endpoint became enabled.
    Enabled,
    /// A flush handed its transfer to the transport.
    Flushed,
    /// A flush found nothing queued: every packet taken was refused, so
    /// there was no transfer to send.
    NothingQueued,
    /// The transport failed to send the transfer.
    FlushFailed,
}

/// What the send task does next.
#[derive(Debug, Clone, Copy, PartialEq, Eq, Structural)]
pub enum SendAction {
    /// Take the next queued packets, pack them and flush.
    Pack,
    /// Wait for the outbound endpoint to be enabled.
    AwaitConnection,
}

/// What a receive call returned, without the packet itself.
#[derive(Debug, Clone, Copy, PartialEq, Eq, Structural)]
pub enum Reception {
    /// A packet was decoded.
    Packet,
    /// The received bytes were malformed.
    Malformed,
    /// The transport read failed: the link is down.
    LinkDown,
}

/// What the receive task learns.
#[derive(Debug, Clone, Copy, PartialEq, Eq, Structural)]
pub enum RecvEvent {
    /// The inbound endpoint became enabled.
    Enabled,
    /// A receive call returned.
    Received(Reception),
}

/// What the receive task does next.
#[derive(Debug, Clone, Copy, PartialEq, Eq, Structural)]
pub enum RecvAction {
    /// Hand the decoded packet to the router, then receive again.
    Deliver,
    /// Drop what was received and receive again.
    Receive,
    /// Wait for the inbound endpoint to be enabled.
    AwaitConnection,
}

/// The send task's next state and action after `event` in `state`.
///
/// Once connected it packs and flushes without end; a flush that fails
/// sends it back to waiting for the endpoint. The packets of a failed
/// flush were already taken from the router and are not sent again.
pub fn send_step(state: LinkState, event: SendEvent) -> (r: (LinkState, SendAction))
    ensures
        event == SendEvent::Enabled ==> r == (LinkState::Connected, SendAction::Pack),
        event == SendEvent::Flushed || event == SendEvent::NothingQueued ==> r == (
            state,
            if state == LinkState::Connected {
                SendAction::Pack
            } else {
                SendAction::AwaitConnection
            },
        ),
        event == SendEvent::FlushFailed ==> r == (
            LinkState::Disconnected,
            SendAction::AwaitConnection,
        ),
{
    match event {
        SendEvent::Enabled => (LinkState::Connected, SendAction::Pack),
        SendEvent::Flushed | SendEvent::NothingQueued => match state {
            LinkState::Connected => (LinkState::Connected, SendAction::Pack),
            LinkState::Disconnected => (LinkState::Disconnected, SendAction::AwaitConnection),
        },
        SendEvent::FlushFailed => (LinkState::Disconnected, SendAction::AwaitConnection),
    }
}

/// The receive task's transition: a decoded packet is delivered, a
/// malformed transfer is dropped, and only a failed read leads back to
/// waiting for the endpoint.
pub open spec fn recv_transition(state: LinkState, event: RecvEvent) -> (LinkState, RecvAction) {
    match event {
        RecvEvent::Enabled => (LinkState::Connected, RecvAction::Receive),
        RecvEvent::Received(Reception::Packet) => (state, RecvAction::Deliver),
        RecvEvent::Received(Reception::Malformed) => (state, RecvAction::Receive),
        RecvEvent::Received(Reception::LinkDown) => (
            LinkState::Disconnected,
            RecvAction::AwaitConnection,
        ),
    }
}

/// What a receive call's result tells the receive task.
pub open spec fn reception_of<T>(received: Option<Result<T, BridgeError>>) -> Reception {
    match received {
        None => Reception::LinkDown,
        Some(Ok(_)) => Reception::Packet,
        Some(Err(_)) => Reception::Malformed,
    }
}

/// A failed transport read is reported by the receive call that made it
/// as the link going down, and that report, in whatever state it finds
/// the receive task, sends it back to waiting for the endpoint; a
/// malformed transfer never does.
pub proof fn lemma_link_down_awaits_connection<T>(state: LinkState, received: Option<
    Result<T, BridgeError>,
>)
    ensures
        received is None ==> recv_transition(
            state,
            RecvEvent::Received(reception_of(received)),
        ) == (LinkState::Disconnected, RecvAction::AwaitConnection),
        received is Some ==> recv_transition(state, RecvEvent::Received(reception_of(received))).1
            != RecvAction::AwaitConnection,
{
}

/// The receive task's next state and action after `event` in `state`.
///
/// A malformed transfer is dropped and receiving goes on; only a failed
/// read sends the task back to waiting for the endpoint.
pub fn recv_step(state: LinkState, event: RecvEvent) -> (r: (LinkState, RecvAction))
    ensures
        r == recv_transition(state, event),
{
    match event {
        RecvEvent::Enabled => (LinkState::Connected, RecvAction::Receive),
        RecvEvent::Received(Reception::Packet) => (state, RecvAction::Deliver),
        RecvEvent::Received(Reception::Malformed) => (state, RecvAction::Receive),
        RecvEvent::Received(Reception::LinkDown) => (
            LinkState::Disconnected,
            RecvAction::AwaitConnection,
        ),
    }
}

/// Classifies the result of a flush for [`send_step`]: only a failed
/// write means the link is down; a flush with nothing queued does not.
pub fn flush_event(flushed: &Result<(), BridgeError>) -> (r: SendEvent)
    ensures
        flushed is Ok <==> r == SendEvent::Flushed,
        *flushed == Err::<(), BridgeError>(BridgeError::BadArgument) <==> r
            == SendEvent::NothingQueued,
        flushed is Err && flushed->Err_0 != BridgeError::BadArgument <==> r
            == SendEvent::FlushFailed,
{
    match flushed {
        Ok(()) => SendEvent::Flushed,
        Err(BridgeError::BadArgument) => SendEvent::NothingQueued,
        Err(_) => SendEvent::FlushFailed,
    }
}

/// Classifies the result of a receive call for [`recv_step`]: no result
/// means the link went down.
pub fn reception<T>(received: &Option<Result<T, BridgeError>>) -> (r: Reception)
    ensures
        r == reception_of(*received),
{
    match received {
        None => Reception::LinkDown,
        Some(Ok(_)) => Reception::Packet,
        Some(Err(_)) => Reception::Malformed,
    }
}

} // verus!
