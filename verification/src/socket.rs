//! The conversation with one buzzer over its WebSocket: what each incoming message leads to.
//!
//! A buzzer must first identify itself; afterwards it sends buzzes. The connection itself
//! (reading, writing, timing out) is driven by the caller, which hands each event to
//! [`socket_step`] and performs the action it returns.

use vstd::prelude::*;
use vstd::string::*;

use crate::buzz::BuzzError;
use crate::patterns::BuzzerPatternPreset;
use crate::validation::{buzzer_id_problem, message_view, validate_buzzer_id, ValidationError};

verus! {

/// Message sent by a buzzer.
#[derive(Debug)]
pub enum BuzzerInboundMessage {
    /// The buzzer names itself.
    Identification { id: String },
    /// The buzzer was pressed.
    Buzz { id: String },
}

impl BuzzerInboundMessage {
    /// Identifier carried by the message.
    pub open spec fn carried_id(&self) -> Seq<char> {
        match self {
            BuzzerInboundMessage::Identification { id } => id@,
            BuzzerInboundMessage::Buzz { id } => id@,
        }
    }

    /// Check the identifier of the message (see [`validate_buzzer_id`]).
    pub fn validate(&self) -> (r: Result<(), ValidationError>)
        ensures
            buzzer_id_problem(self.carried_id()) is None <==> r is Ok,
            match buzzer_id_problem(self.carried_id()) {
                Some(p) => (r matches Err(e) && e.code@ == p.0 && message_view(e.message) == Some(p.1)),
                None => true,
            },
    {
        match self {
            BuzzerInboundMessage::Identification { id } => validate_buzzer_id(id.as_str()),
            BuzzerInboundMessage::Buzz { id } => validate_buzzer_id(id.as_str()),
        }
    }
}

/// Where the conversation with a buzzer stands.
#[derive(Debug)]
pub enum SocketState {
    /// Waiting for the buzzer to identify itself.
    AwaitingIdentification,
    /// Identified as this buzzer.
    Connected { buzzer_id: String },
    /// Over.
    Closed,
}

/// Close frame of a WebSocket: its status code and reason.
#[derive(Debug)]
pub struct CloseFrameData {
    /// Status code.
    pub code: u16,
    /// Reason given.
    pub reason: String,
}

/// What happened on the connection.
#[derive(Debug)]
pub enum SocketEvent {
    /// A text message: the message it holds once read and checked, or `None` when it could
    /// not be read or failed the check.
    Text(Option<BuzzerInboundMessage>),
    /// A binary message.
    Binary,
    /// A ping, with its payload.
    Ping(Vec<u8>),
    /// A pong.
    Pong,
    /// The buzzer closed the connection, with its close frame if it sent one.
    Close(Option<CloseFrameData>),
    /// The connection failed.
    Error,
    /// The buzzer did not identify itself in time.
    TimedOut,
}

/// What to do about an event.
#[derive(Debug)]
pub enum SocketAction {
    /// Register the buzzer as connected and set its light (see [`initial_preset`]).
    Register { buzzer_id: String },
    /// Handle a buzz of the buzzer.
    HandleBuzz { buzzer_id: String },
    /// Refuse a buzz naming another buzzer (reported, the connection goes on).
    Refuse(BuzzError),
    /// Answer a ping.
    Pong(Vec<u8>),
    /// End the connection, sending a close message first when `send_close` holds, carrying
    /// `frame` (an echo of the buzzer's close frame, or none).
    Close { send_close: bool, frame: Option<CloseFrameData> },
    /// Nothing to do.
    Ignore,
}

/// Move the conversation on with an event and say what to do.
///
/// Before identification: an identification connects the buzzer; a close or a failure ends
/// the conversation; anything else (a buzz, an unreadable text, another kind of message) ends
/// it with a close message without frame. Once connected: a buzz of this buzzer is handled,
/// one naming another buzzer is refused; pings are answered; a close is answered with a close
/// message echoing the buzzer's frame and ends the conversation, as a failure ends it;
/// everything else is ignored.
pub fn socket_step(state: &mut SocketState, event: SocketEvent) -> (action: SocketAction)
    ensures
        match *old(state) {
            SocketState::AwaitingIdentification => match event {
                SocketEvent::Text(Some(BuzzerInboundMessage::Identification { id })) => (action matches SocketAction::Register {
                    buzzer_id,
                } && buzzer_id@ == id@) && (*final(state) matches SocketState::Connected { buzzer_id } && buzzer_id@ == id@),
                SocketEvent::Close(_) | SocketEvent::Error | SocketEvent::TimedOut => (action matches SocketAction::Close {
                    send_close,
                    frame,
                } && !send_close && frame is None) && *final(state) is Closed,
                _ => (action matches SocketAction::Close { send_close, frame } && send_close && frame is None) && *final(state) is Closed,
            },
            SocketState::Connected { buzzer_id } => match event {
                SocketEvent::Text(Some(BuzzerInboundMessage::Buzz { id })) => *final(state) == *old(state) && if id@
                    == buzzer_id@ {
                    action matches SocketAction::HandleBuzz { buzzer_id: b } && b@ == id@
                } else {
                    action matches SocketAction::Refuse(BuzzError::MismatchedId { expected, got }) && expected@ == buzzer_id@
                        && got@ == id@
                },
                SocketEvent::Ping(payload) => (action matches SocketAction::Pong(p) && p == payload) && *final(state) == *old(state),
                SocketEvent::Close(sent) => (action matches SocketAction::Close { send_close, frame } && send_close && frame == sent)
                    && *final(state) is Closed,
                SocketEvent::Error => (action matches SocketAction::Close { send_close, frame } && !send_close && frame is None)
                    && *final(state) is Closed,
                _ => (action matches SocketAction::Ignore) && *final(state) == *old(state),
            },
            SocketState::Closed => (action matches SocketAction::Close { send_close, frame } && !send_close && frame is None)
                && *final(state) is Closed,
        },
{
    let mut current = SocketState::Closed;
    std::mem::swap(&mut current, state);
    match current {
        SocketState::AwaitingIdentification => match event {
            SocketEvent::Text(Some(BuzzerInboundMessage::Identification { id })) => {
                *state = SocketState::Connected { buzzer_id: id.clone() };
                SocketAction::Register { buzzer_id: id }
            },
            SocketEvent::Close(_) | SocketEvent::Error | SocketEvent::TimedOut => SocketAction::Close { send_close: false, frame: None },
            _ => SocketAction::Close { send_close: true, frame: None },
        },
        SocketState::Connected { buzzer_id } => match event {
            SocketEvent::Text(Some(BuzzerInboundMessage::Buzz { id })) => {
                let same = id == buzzer_id;
                let action = if same {
                    SocketAction::HandleBuzz { buzzer_id: id }
                } else {
                    SocketAction::Refuse(BuzzError::MismatchedId { expected: buzzer_id.clone(), got: id })
                };
                *state = SocketState::Connected { buzzer_id };
                action
            },
            SocketEvent::Ping(payload) => {
                *state = SocketState::Connected { buzzer_id };
                SocketAction::Pong(payload)
            },
            SocketEvent::Close(frame) => SocketAction::Close { send_close: true, frame },
            SocketEvent::Error => SocketAction::Close { send_close: false, frame: None },
            _ => {
                *state = SocketState::Connected { buzzer_id };
                SocketAction::Ignore
            },
        },
        SocketState::Closed => SocketAction::Close { send_close: false, frame: None },
    }
}

/// Whether a failed buzz ends the connection: only when the connection itself is closed.
pub fn buzz_failure_ends_connection(err: &BuzzError) -> (b: bool)
    ensures
        b == (*err is ConnectionClosed),
{
    match err {
        BuzzError::ConnectionClosed => true,
        _ => false,
    }
}

/// Light set on a buzzer that connects: the last one it was given, else waiting for pairing.
pub fn initial_preset(last: Option<BuzzerPatternPreset>) -> (p: BuzzerPatternPreset)
    ensures
        p == (match last {
            Some(l) => l,
            None => BuzzerPatternPreset::WaitingForPairing,
        }),
{
    match last {
        Some(l) => l,
        None => BuzzerPatternPreset::WaitingForPairing,
    }
}

} // verus!
