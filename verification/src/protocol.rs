//! The session protocol: the tagged messages exchanged between the
//! launcher and a connected game, and the transport-level frames a session
//! loop reacts to.
//!
//! Inbound-from-game kinds are `GetUserInfo` and `Ping`; everything else
//! travels from the launcher to the game. A game that sends an outbound
//! kind is tolerated: the hub ignores it.

use vstd::prelude::*;
use crate::user::{UserInfo, UserInfoView};

verus! {

/// One protocol message. The wire encoding is the embedding application's
/// concern; the hub reasons about the values alone.
pub enum WebSocketMessage {
    /// Game asks for the current user.
    GetUserInfo,
    /// Game-level liveness probe.
    Ping,
    /// Reply to `GetUserInfo` when a user is set, and the bootstrap
    /// message of a new session.
    UserInfo(UserInfo),
    /// Reply to `Ping`.
    Pong,
    /// Reply to `GetUserInfo` when no user is set.
    Error { message: String },
    /// Broadcast to every session when the user changes.
    UserUpdated(UserInfo),
    /// First message of every session, carrying its fresh id.
    ConnectionEstablished { session_id: String },
}

/// Mathematical image of a [`WebSocketMessage`].
pub enum MessageView {
    GetUserInfo,
    Ping,
    UserInfo(UserInfoView),
    Pong,
    Error { message: Seq<char> },
    UserUpdated(UserInfoView),
    ConnectionEstablished { session_id: Seq<char> },
}

impl View for WebSocketMessage {
    type V = MessageView;

    open spec fn view(&self) -> MessageView {
        match self {
            WebSocketMessage::GetUserInfo => MessageView::GetUserInfo,
            WebSocketMessage::Ping => MessageView::Ping,
            WebSocketMessage::UserInfo(u) => MessageView::UserInfo(u@),
            WebSocketMessage::Pong => MessageView::Pong,
            WebSocketMessage::Error { message } => MessageView::Error { message: message@ },
            WebSocketMessage::UserUpdated(u) => MessageView::UserUpdated(u@),
            WebSocketMessage::ConnectionEstablished { session_id } => (
                MessageView::ConnectionEstablished { session_id: session_id@ }
            ),
        }
    }
}

impl Clone for WebSocketMessage {
    fn clone(&self) -> (r: Self)
        ensures
            r@ == self@,
    {
        match self {
            WebSocketMessage::GetUserInfo => WebSocketMessage::GetUserInfo,
            WebSocketMessage::Ping => WebSocketMessage::Ping,
            WebSocketMessage::UserInfo(u) => WebSocketMessage::UserInfo(u.clone()),
            WebSocketMessage::Pong => WebSocketMessage::Pong,
            WebSocketMessage::Error { message } => WebSocketMessage::Error {
                message: message.clone(),
            },
            WebSocketMessage::UserUpdated(u) => WebSocketMessage::UserUpdated(u.clone()),
            WebSocketMessage::ConnectionEstablished { session_id } => (
                WebSocketMessage::ConnectionEstablished { session_id: session_id.clone() }
            ),
        }
    }
}

/// What the transport hands the session loop: either a decoded protocol
/// message, or one of the frame kinds the loop must react to itself.
pub enum InboundFrame {
    /// A text frame that decoded to a protocol message.
    Message(WebSocketMessage),
    /// A text frame that did not decode; it is dropped, the session stays
    /// open.
    Malformed,
    /// A transport-level liveness probe carrying opaque payload bytes.
    TransportPing(Vec<u8>),
    /// The answer to a transport-level probe; carries no obligation.
    TransportPong(Vec<u8>),
    /// A binary frame; the protocol is text-only, so it is ignored.
    Binary(Vec<u8>),
    /// The peer closed the connection.
    CloseRequested,
    /// The transport failed; the session cannot continue.
    TransportError,
}

/// What the session loop must do after a frame was handled.
pub enum FrameAction {
    /// Nothing to send; keep the session open.
    Ignored,
    /// The message was dispatched to the hub; any replies sit in the
    /// session's outbox. Keep the session open.
    Dispatched,
    /// Answer with a transport-level pong carrying these bytes.
    ReplyTransportPong(Vec<u8>),
    /// Tear the session down and remove it from the registry.
    CloseSession,
}

} // verus!
