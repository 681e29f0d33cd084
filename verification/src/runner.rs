//! One connection, from the moment the socket is open to the moment it is
//! given up. The owner of the socket waits for whatever comes first (the ping
//! timer, the shutdown signal, a command, a frame, the read deadline),
//! reports it here, and does what it is told.

use vstd::prelude::*;
use vstd::string::*;
use vstd::utf8::*;
use crate::outside::text_from_utf8;
use crate::pending::PendingRequests;
use crate::registry::Registry;
use crate::routing::{handle_incoming, routed_as, Routed};
use crate::scan::{classify, shape_of, Frame, Shape};
use crate::types::InternalCommand;

verus! {

/// Milliseconds between two pings. Pings go out at this pace whatever else
/// is sent or received.
pub const PING_INTERVAL_MILLIS: u64 = 5000;

/// Milliseconds without anything arriving after which the connection counts
/// as dead.
pub const READ_TIMEOUT_MILLIS: u64 = 5000;

/// What the socket produced.
#[derive(Debug, Clone, PartialEq, Eq)]
pub enum Inbound {
    /// A text frame.
    Text(String),
    /// A binary frame.
    Binary(Vec<u8>),
    /// A ping with its payload.
    Ping(Vec<u8>),
    /// A pong.
    Pong,
    /// The close frame of the peer.
    Close,
    /// A raw frame that the transport did not interpret.
    Raw,
    /// The transport reported an error while reading.
    Failed,
    /// The stream ended.
    Ended,
}

/// What the owner of the socket saw happen.
#[derive(Debug, Clone, PartialEq, Eq)]
pub enum ConnectionEvent {
    /// The ping timer ticked.
    PingDue,
    /// The frame of the last `Send` could not be written.
    SendFailed,
    /// The shutdown signal changed; this is its value now.
    ShutdownSignal(bool),
    /// A command arrived, or the command queue was closed (`None`).
    Command(Option<InternalCommand>),
    /// The socket produced something.
    Arrived(Inbound),
    /// The read deadline passed without anything arriving.
    ReadDeadline,
}

/// A frame to write to the socket.
#[derive(Debug, Clone, PartialEq, Eq)]
pub enum Outbound {
    Ping,
    Pong(Vec<u8>),
    Text(String),
}

/// Why a connection was given up.
#[derive(PartialEq, Eq, Structural, Clone, Copy, Debug)]
pub enum ConnectionError {
    /// A frame could not be written.
    SendFailed,
    /// The transport reported an error while reading.
    ReadFailed,
    /// Nothing arrived within the read deadline.
    ReadTimeout,
}

/// What the owner of the socket does next.
#[derive(Debug, Clone, PartialEq, Eq)]
pub enum ConnectionAction {
    /// Go on waiting.
    Continue,
    /// Write this frame and go on waiting; if it cannot be written, report
    /// `SendFailed`.
    Send(Outbound),
    /// Close the socket, whether or not that succeeds, and end the connection
    /// without error.
    CloseAndFinish,
    /// End the connection without error.
    Finish,
    /// End the connection with this error.
    Fail(ConnectionError),
}

/// What a payload turned out to be, for the log.
#[derive(PartialEq, Eq, Structural, Clone, Copy, Debug)]
pub enum Note {
    /// The event carried no payload.
    Nothing,
    /// The payload was routed, with this result.
    Routed(Routed),
    /// A binary frame that is not UTF-8 was left aside.
    NotText,
}

/// The answer to one event.
#[derive(Debug, Clone, PartialEq, Eq)]
pub struct ConnectionStep {
    pub action: ConnectionAction,
    /// Whether the read deadline starts anew.
    pub reset_deadline: bool,
    pub note: Note,
    /// The channel that a notification named and nobody is subscribed to,
    /// for the log.
    pub unknown_channel: Option<String>,
}

/// The payload that an event brings to the router, if it brings one: the
/// bytes of a text frame, or of a binary frame that is valid UTF-8.
pub open spec fn payload_of(event: ConnectionEvent) -> Option<Seq<u8>> {
    match event {
        ConnectionEvent::Arrived(Inbound::Text(text)) => Some(encode_utf8(text@)),
        ConnectionEvent::Arrived(Inbound::Binary(bytes)) => if valid_utf8(bytes@) {
            Some(bytes@)
        } else {
            None
        },
        _ => None,
    }
}

/// Whether `named` is the channel that the step has to report: the name in a
/// notification that found no subscription, and nothing otherwise.
pub open spec fn names_unknown_channel(
    payload: Option<Seq<u8>>,
    note: Note,
    named: Option<String>,
) -> bool {
    match named {
        Some(name) => {
            &&& note == Note::Routed(Routed::UnknownChannel)
            &&& payload matches Some(bytes) && shape_of(bytes) == Shape::Notification(name@)
        },
        None => note != Note::Routed(Routed::UnknownChannel),
    }
}

/// Whether the action matches what the event calls for.
pub open spec fn action_for(event: ConnectionEvent, action: ConnectionAction) -> bool {
    match event {
        ConnectionEvent::PingDue => action matches ConnectionAction::Send(Outbound::Ping),
        ConnectionEvent::SendFailed => action matches ConnectionAction::Fail(
            ConnectionError::SendFailed,
        ),
        ConnectionEvent::ShutdownSignal(requested) => if requested {
            action is CloseAndFinish
        } else {
            action is Continue
        },
        ConnectionEvent::Command(Some(InternalCommand::Send(text))) => action matches ConnectionAction::Send(
            Outbound::Text(sent),
        ) && sent@ == text@,
        ConnectionEvent::Command(Some(InternalCommand::Close)) => action is CloseAndFinish,
        ConnectionEvent::Command(None) => action is CloseAndFinish,
        ConnectionEvent::Arrived(Inbound::Text(_)) => action is Continue,
        ConnectionEvent::Arrived(Inbound::Binary(_)) => action is Continue,
        ConnectionEvent::Arrived(Inbound::Ping(data)) => action matches ConnectionAction::Send(
            Outbound::Pong(echo),
        ) && echo@ == data@,
        ConnectionEvent::Arrived(Inbound::Pong) => action is Continue,
        ConnectionEvent::Arrived(Inbound::Close) => action is Finish,
        ConnectionEvent::Arrived(Inbound::Raw) => action is Continue,
        ConnectionEvent::Arrived(Inbound::Failed) => action matches ConnectionAction::Fail(
            ConnectionError::ReadFailed,
        ),
        ConnectionEvent::Arrived(Inbound::Ended) => action is Finish,
        ConnectionEvent::ReadDeadline => action matches ConnectionAction::Fail(
            ConnectionError::ReadTimeout,
        ),
    }
}

/// Routes a payload that arrived as text and reports where it went.
fn routed_step(text: &str, pending_requests: &mut PendingRequests, subscriptions: &mut Registry) -> (step: ConnectionStep)
    ensures
        old(subscriptions).wf() ==> final(subscriptions).wf(),
        final(pending_requests).spec_next_id() == old(pending_requests).spec_next_id(),
        old(pending_requests).ids_are_past() ==> final(pending_requests).ids_are_past(),
        step.action is Continue,
        step.reset_deadline,
        names_unknown_channel(Some(text.spec_bytes()), step.note, step.unknown_channel),
        step.note matches Note::Routed(routed) && routed_as(
            shape_of(text.spec_bytes()),
            routed,
            *old(pending_requests),
            *final(pending_requests),
            *old(subscriptions),
            *final(subscriptions),
        ),
{
    let routed = handle_incoming(text, pending_requests, subscriptions);
    let unknown_channel = match routed {
        Routed::UnknownChannel => match classify(text) {
            Frame::Notification(name) => Some(name.to_owned()),
            _ => None,
        },
        _ => None,
    };
    ConnectionStep {
        action: ConnectionAction::Continue,
        reset_deadline: true,
        note: Note::Routed(routed),
        unknown_channel,
    }
}

/// Decides what to do about one event on an open connection.
///
/// A tick of the ping timer sends a ping. A frame that could not be written
/// ends the connection with an error, and so do a read error and the read
/// deadline. The shutdown signal, a `Close` command and the end of the
/// command queue close the socket and end the connection without error; the
/// close frame of the peer and the end of the stream end it without error
/// too. A `Send` command is written as it is. A ping is answered with its
/// payload; a pong or a raw frame is passed over. Text, and binary that is
/// UTF-8, goes to the router; where it is a notification that nobody is
/// subscribed to, the step names the channel. Whatever arrived, of any kind,
/// starts the read deadline anew; nothing else does.
pub fn connection_step(event: ConnectionEvent, pending_requests: &mut PendingRequests, subscriptions: &mut Registry) -> (step: ConnectionStep)
    ensures
        old(subscriptions).wf() ==> final(subscriptions).wf(),
        final(pending_requests).spec_next_id() == old(pending_requests).spec_next_id(),
        old(pending_requests).ids_are_past() ==> final(pending_requests).ids_are_past(),
        action_for(event, step.action),
        step.reset_deadline == (event is Arrived),
        names_unknown_channel(payload_of(event), step.note, step.unknown_channel),
        match payload_of(event) {
            Some(payload) => {
                &&& step.note matches Note::Routed(routed)
                &&& routed_as(
                    shape_of(payload),
                    routed,
                    *old(pending_requests),
                    *final(pending_requests),
                    *old(subscriptions),
                    *final(subscriptions),
                )
            },
            None => {
                &&& step.note == (if event matches ConnectionEvent::Arrived(Inbound::Binary(_)) {
                    Note::NotText
                } else {
                    Note::Nothing
                })
                &&& final(pending_requests)@ == old(pending_requests)@
                &&& final(subscriptions).same_as(old(subscriptions))
            },
        },
{
    match event {
        ConnectionEvent::PingDue => ConnectionStep {
            action: ConnectionAction::Send(Outbound::Ping),
            reset_deadline: false,
            note: Note::Nothing,
            unknown_channel: None,
        },
        ConnectionEvent::SendFailed => ConnectionStep {
            action: ConnectionAction::Fail(ConnectionError::SendFailed),
            reset_deadline: false,
            note: Note::Nothing,
            unknown_channel: None,
        },
        ConnectionEvent::ShutdownSignal(requested) => ConnectionStep {
            action: if requested {
                ConnectionAction::CloseAndFinish
            } else {
                ConnectionAction::Continue
            },
            reset_deadline: false,
            note: Note::Nothing,
            unknown_channel: None,
        },
        ConnectionEvent::Command(command) => ConnectionStep {
            action: match command {
                Some(InternalCommand::Send(text)) => ConnectionAction::Send(Outbound::Text(text)),
                Some(InternalCommand::Close) => ConnectionAction::CloseAndFinish,
                None => ConnectionAction::CloseAndFinish,
            },
            reset_deadline: false,
            note: Note::Nothing,
            unknown_channel: None,
        },
        ConnectionEvent::ReadDeadline => ConnectionStep {
            action: ConnectionAction::Fail(ConnectionError::ReadTimeout),
            reset_deadline: false,
            note: Note::Nothing,
            unknown_channel: None,
        },
        ConnectionEvent::Arrived(inbound) => match inbound {
            Inbound::Text(text) => {
                routed_step(text.as_str(), pending_requests, subscriptions)
            },
            Inbound::Binary(bytes) => {
                match text_from_utf8(bytes) {
                    Some(text) => routed_step(text.as_str(), pending_requests, subscriptions),
                    None => ConnectionStep {
                        action: ConnectionAction::Continue,
                        reset_deadline: true,
                        note: Note::NotText,
                        unknown_channel: None,
                    },
                }
            },
            Inbound::Ping(data) => ConnectionStep {
                action: ConnectionAction::Send(Outbound::Pong(data)),
                reset_deadline: true,
                note: Note::Nothing,
                unknown_channel: None,
            },
            Inbound::Pong => ConnectionStep {
                action: ConnectionAction::Continue,
                reset_deadline: true,
                note: Note::Nothing,
                unknown_channel: None,
            },
            Inbound::Close => ConnectionStep {
                action: ConnectionAction::Finish,
                reset_deadline: true,
                note: Note::Nothing,
                unknown_channel: None,
            },
            Inbound::Raw => ConnectionStep {
                action: ConnectionAction::Continue,
                reset_deadline: true,
                note: Note::Nothing,
                unknown_channel: None,
            },
            Inbound::Failed => ConnectionStep {
                action: ConnectionAction::Fail(ConnectionError::ReadFailed),
                reset_deadline: true,
                note: Note::Nothing,
                unknown_channel: None,
            },
            Inbound::Ended => ConnectionStep {
                action: ConnectionAction::Finish,
                reset_deadline: true,
                note: Note::Nothing,
                unknown_channel: None,
            },
        },
    }
}

} // verus!
