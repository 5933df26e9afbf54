//! The decisions of the two pumps of a connection. The inbound pump turns
//! frames read from the socket into events for the hub; the outbound pump
//! turns the hub's deliveries into text for the socket. Waiting on the socket
//! and on the hub is left to the caller, which performs each action returned.

use vstd::prelude::*;

use crate::event::{decode, decode_spec, encode, encode_spec, ChatEvent, DecodeError, EventView};
use crate::hub::Delivery;

verus! {

/// What the read half of a connection yielded.
#[derive(Clone, Debug, PartialEq, Eq)]
pub enum Frame {
    /// A frame carrying text.
    Text(String),
    /// The stream broke: a bad frame or a protocol violation.
    Broken,
    /// The client closed the stream.
    End,
}

/// The mathematical value of a [`Frame`].
pub enum FrameView {
    Text(Seq<char>),
    Broken,
    End,
}

impl View for Frame {
    type V = FrameView;

    open spec fn view(&self) -> FrameView {
        match self {
            Frame::Text(s) => FrameView::Text(s@),
            Frame::Broken => FrameView::Broken,
            Frame::End => FrameView::End,
        }
    }
}

/// Why a pump failed; either failure ends the connection.
#[derive(Clone, Copy, Debug, PartialEq, Eq, Structural)]
pub enum PumpError {
    /// An incoming text was no chat event.
    Decode(DecodeError),
    /// Reading from or writing to the socket failed.
    Transport,
}

/// The two states of an inbound pump.
#[derive(Clone, Copy, Debug, PartialEq, Eq, Structural)]
pub enum InboundState {
    Receiving,
    Closed,
}

/// What the inbound pump asks of its caller after a frame.
#[derive(Clone, Debug, PartialEq, Eq)]
pub enum InboundAction {
    /// Publish this event to the hub, then read the next frame.
    Publish(ChatEvent),
    /// The stream ended normally: stop with success.
    Finish,
    /// Stop with this error.
    Fail(PumpError),
}

/// The mathematical value of an [`InboundAction`].
pub enum InboundActionView {
    Publish(EventView),
    Finish,
    Fail(PumpError),
}

impl View for InboundAction {
    type V = InboundActionView;

    open spec fn view(&self) -> InboundActionView {
        match self {
            InboundAction::Publish(e) => InboundActionView::Publish(e@),
            InboundAction::Finish => InboundActionView::Finish,
            InboundAction::Fail(err) => InboundActionView::Fail(*err),
        }
    }
}

/// One step of the inbound pump: the next state and the action. A text that
/// does not decode ends the connection; a closed pump stays closed.
pub open spec fn inbound_step(state: InboundState, frame: FrameView) -> (
    InboundState,
    InboundActionView,
) {
    match state {
        InboundState::Closed => (InboundState::Closed, InboundActionView::Finish),
        InboundState::Receiving => match frame {
            FrameView::Text(t) => match decode_spec(t) {
                Ok(e) => (InboundState::Receiving, InboundActionView::Publish(e)),
                Err(d) => (InboundState::Closed, InboundActionView::Fail(PumpError::Decode(d))),
            },
            FrameView::Broken => (InboundState::Closed, InboundActionView::Fail(PumpError::Transport)),
            FrameView::End => (InboundState::Closed, InboundActionView::Finish),
        },
    }
}

/// The inbound pump of one connection.
pub struct InboundPump {
    pub state: InboundState,
}

impl InboundPump {
    /// A pump that is receiving.
    pub fn new() -> (r: InboundPump)
        ensures
            r.state == InboundState::Receiving,
    {
        InboundPump { state: InboundState::Receiving }
    }

    /// Handles one frame from the read half.
    pub fn on_frame(&mut self, frame: Frame) -> (r: InboundAction)
        ensures
            inbound_step(old(self).state, frame@) == (final(self).state, r@),
    {
        match self.state {
            InboundState::Closed => InboundAction::Finish,
            InboundState::Receiving => match frame {
                Frame::Text(t) => match decode(t.as_str()) {
                    Ok(e) => InboundAction::Publish(e),
                    Err(d) => {
                        self.state = InboundState::Closed;
                        InboundAction::Fail(PumpError::Decode(d))
                    },
                },
                Frame::Broken => {
                    self.state = InboundState::Closed;
                    InboundAction::Fail(PumpError::Transport)
                },
                Frame::End => {
                    self.state = InboundState::Closed;
                    InboundAction::Finish
                },
            },
        }
    }
}

/// What the outbound pump asks of its caller after a delivery.
#[derive(Clone, Debug, PartialEq, Eq)]
pub enum OutboundAction {
    /// Write this text to the socket, then await the next delivery.
    Write(String),
    /// Nothing to write: await the next delivery.
    Wait,
    /// The hub is gone: stop.
    Finish,
}

/// Handles one delivery from the hub. A lag is passed over in silence: the
/// client never learns of the events it missed.
pub fn outbound_step(delivery: Delivery) -> (r: OutboundAction)
    ensures
        match delivery {
            Delivery::Event(e) => r matches OutboundAction::Write(t) && t@ == encode_spec(e@),
            Delivery::Lagged(_) => r is Wait,
            Delivery::Empty => r is Wait,
            Delivery::Closed => r is Finish,
        },
{
    match delivery {
        Delivery::Event(e) => OutboundAction::Write(encode(&e)),
        Delivery::Lagged(_) => OutboundAction::Wait,
        Delivery::Empty => OutboundAction::Wait,
        Delivery::Closed => OutboundAction::Finish,
    }
}

} // verus!
