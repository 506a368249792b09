//! The life of one connection, as seen by its reader: which inbound frames
//! are handled, which are dropped, and when the connection closes.

use crate::codec::{decode_payload, parse_payload, PayloadView};
use crate::models::{is_push_kind, RpcKind};
use vstd::prelude::*;

verus! {

/// Where a connection stands. Writes happen only before `Closed`.
#[derive(PartialEq, Eq, Structural, Clone, Copy, Debug)]
pub enum SessionState {
    /// Frames are read and handled; both responders write.
    Open,
    /// The reader stopped; the responders are being cancelled.
    Closing,
    /// The responders are gone; nothing more is written.
    Closed,
}

/// What the reader learned.
#[derive(Debug, PartialEq)]
pub enum ReaderInput {
    /// A whole frame's payload.
    Frame(Vec<u8>),
    /// The JSON body of a handled frame does not fit its kind.
    BodyRejected,
    /// The peer closed the stream, or reading it failed.
    StreamEnded,
}

/// What the reader does next.
#[derive(Debug, PartialEq)]
pub enum ReaderAction {
    /// Parse `body` as the record of `kind` and dispatch it.
    Handle { kind: RpcKind, body: String },
    /// Drop the input and read on.
    Skip,
    /// Stop reading and cancel the responders.
    Close,
}

/// What the contracts see of an input.
pub enum InputView {
    Frame(Seq<u8>),
    BodyRejected,
    StreamEnded,
}

/// What the contracts see of an action.
pub enum ActionView {
    Handle { kind: RpcKind, body: Seq<char> },
    Skip,
    Close,
}

impl View for ReaderInput {
    type V = InputView;

    open spec fn view(&self) -> InputView {
        match self {
            ReaderInput::Frame(p) => InputView::Frame(p@),
            ReaderInput::BodyRejected => InputView::BodyRejected,
            ReaderInput::StreamEnded => InputView::StreamEnded,
        }
    }
}

impl View for ReaderAction {
    type V = ActionView;

    open spec fn view(&self) -> ActionView {
        match self {
            ReaderAction::Handle { kind, body } => ActionView::Handle { kind: *kind, body: body@ },
            ReaderAction::Skip => ActionView::Skip,
            ReaderAction::Close => ActionView::Close,
        }
    }
}

/// The reader's next state and action. An open connection closes on a
/// malformed payload, a rejected body or the end of the stream; it drops a
/// payload of unknown kind and one of a kind that only the server sends.
/// Once closing, inputs are dropped.
pub open spec fn reader_next(state: SessionState, input: InputView) -> (SessionState, ActionView) {
    if state != SessionState::Open {
        (state, ActionView::Skip)
    } else {
        match input {
            InputView::Frame(p) => match parse_payload(p) {
                PayloadView::Malformed => (SessionState::Closing, ActionView::Close),
                PayloadView::UnknownKind => (SessionState::Open, ActionView::Skip),
                PayloadView::Message { kind, body } => if is_push_kind(kind) {
                    (SessionState::Open, ActionView::Skip)
                } else {
                    (SessionState::Open, ActionView::Handle { kind, body })
                },
            },
            _ => (SessionState::Closing, ActionView::Close),
        }
    }
}

/// Advances the reader by one input, as `reader_next` describes.
pub fn reader_step(state: SessionState, input: ReaderInput) -> (r: (SessionState, ReaderAction))
    ensures
        (r.0, r.1@) == reader_next(state, input@),
{
    if state != SessionState::Open {
        return (state, ReaderAction::Skip);
    }
    match input {
        ReaderInput::Frame(p) => match decode_payload(p.as_slice()) {
            Err(_) => (SessionState::Closing, ReaderAction::Close),
            Ok(None) => (SessionState::Open, ReaderAction::Skip),
            Ok(Some((kind, body))) => {
                if kind.is_inbound() {
                    (SessionState::Open, ReaderAction::Handle { kind, body })
                } else {
                    (SessionState::Open, ReaderAction::Skip)
                }
            },
        },
        _ => (SessionState::Closing, ReaderAction::Close),
    }
}

impl SessionState {
    /// The state once the responders are cancelled: a closing connection is
    /// closed; any other state stays.
    pub fn responders_cancelled(self) -> (r: SessionState)
        ensures
            r == (if self == SessionState::Closing {
                SessionState::Closed
            } else {
                self
            }),
    {
        match self {
            SessionState::Closing => SessionState::Closed,
            _ => self,
        }
    }

    /// Whether the connection may still be written to.
    pub fn may_write(&self) -> (r: bool)
        ensures
            r == (*self != SessionState::Closed),
    {
        match self {
            SessionState::Closed => false,
            _ => true,
        }
    }
}

} // verus!
