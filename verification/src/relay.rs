//! Relaying a sequence of snapshots to one connected client: what to do
//! with each snapshot, with the error that ends the sequence, and with what
//! the client sends.

use vstd::prelude::*;
use vstd::string::*;

verus! {

/// What a client may send.
#[derive(Clone, Copy, Debug, PartialEq, Eq, Structural)]
pub enum ClientMessage {
    /// The client closes the connection.
    Close,
    /// The client sends a text. Nothing is made of it.
    Text,
    /// Anything else: pings, pongs, binary data.
    Other,
}

/// What happens while a sequence is relayed.
#[derive(Clone, Copy, Debug, PartialEq, Eq, Structural)]
pub enum RelayEvent {
    /// The sequence handed out a snapshot; `serialized` says whether it
    /// could be written out for the client.
    Snapshot { serialized: bool },
    /// The sequence ended with an error.
    SequenceFailed,
    /// What was to be sent has gone out, or could not be delivered.
    Sent { delivered: bool },
    /// The client sent a message.
    Client(ClientMessage),
    /// Neither the sequence nor the client has anything more.
    Exhausted,
}

/// What the relay does next.
#[derive(Clone, Copy, Debug, PartialEq, Eq, Structural)]
pub enum RelayStep {
    /// Send the snapshot as written out, then report how the sending went.
    SendSnapshot,
    /// Send the notice of the error, then report how the sending went.
    SendErrorNotice,
    /// Go on waiting for the sequence and the client.
    Continue,
    /// Leave the connection. The sequence is dropped with it.
    Stop,
}

/// The relay's rule. A snapshot goes to the client as it is written out;
/// one that cannot be written out is passed over. The error that ends the
/// sequence goes to the client as a notice. The relay stops when something
/// cannot be delivered, when the client closes, and when nothing more can
/// come; all else it lets pass.
pub open spec fn relay_rule(event: RelayEvent) -> RelayStep {
    match event {
        RelayEvent::Snapshot { serialized } => if serialized {
            RelayStep::SendSnapshot
        } else {
            RelayStep::Continue
        },
        RelayEvent::SequenceFailed => RelayStep::SendErrorNotice,
        RelayEvent::Sent { delivered } => if delivered {
            RelayStep::Continue
        } else {
            RelayStep::Stop
        },
        RelayEvent::Client(ClientMessage::Close) => RelayStep::Stop,
        RelayEvent::Client(_) => RelayStep::Continue,
        RelayEvent::Exhausted => RelayStep::Stop,
    }
}

/// Decides what the relay does next.
pub fn relay_step(event: RelayEvent) -> (step: RelayStep)
    ensures
        step == relay_rule(event),
{
    match event {
        RelayEvent::Snapshot { serialized } => {
            if serialized {
                RelayStep::SendSnapshot
            } else {
                RelayStep::Continue
            }
        },
        RelayEvent::SequenceFailed => RelayStep::SendErrorNotice,
        RelayEvent::Sent { delivered } => {
            if delivered {
                RelayStep::Continue
            } else {
                RelayStep::Stop
            }
        },
        RelayEvent::Client(message) => match message {
            ClientMessage::Close => RelayStep::Stop,
            ClientMessage::Text => RelayStep::Continue,
            ClientMessage::Other => RelayStep::Continue,
        },
        RelayEvent::Exhausted => RelayStep::Stop,
    }
}

/// How the error that ended a sequence reads to the client.
pub open spec fn error_notice_text(message: Seq<char>) -> Seq<char> {
    "Error: "@ + message
}

/// Writes the notice of the error that ended a sequence.
pub fn error_notice(message: &str) -> (notice: String)
    ensures
        notice@ == error_notice_text(message@),
{
    let mut notice: String = "Error: ".to_owned();
    notice.append(message);
    notice
}

} // verus!
