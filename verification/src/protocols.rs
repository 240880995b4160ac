//! What the manager needs from the protocols that it runs.

use vstd::prelude::*;
use crate::errors::LightningError;
use crate::key::PublicKey;
use crate::messages::{LSPS0Message, LSPS1Message, LSPS2Message, LSPSMessage, RawLSPSMessage, RequestIdMap};

verus! {

/// What a protocol handler did with a message: whether it failed, and what it wants sent to
/// peers and shown to the user.
pub struct HandlerOutcome<E> {
    pub result: Result<(), LightningError>,
    pub messages: Vec<(PublicKey, LSPSMessage)>,
    pub events: Vec<E>,
}

/// What the manager did with a message: whether that failed, and how often the callback for
/// pending messages is now to be called.
#[derive(Debug, PartialEq, Eq)]
pub struct Handled {
    pub result: Result<(), LightningError>,
    pub callback_calls: usize,
}

/// One side, client or service, of a protocol.
pub trait ProtocolMessageHandler<E> {
    type ProtocolMessage;

    /// Processes a message from the given node.
    fn handle_message(
        &self,
        message: Self::ProtocolMessage,
        counterparty_node_id: &PublicKey,
    ) -> HandlerOutcome<E>;
}

/// The encoding of messages as JSON text.
pub trait MessageFormat {
    /// Why a message could not be decoded.
    type ParseError;

    /// Decodes a message. The map gives the methods of the requests that were sent, as
    /// responses do not name theirs.
    fn from_str_with_id_map(
        json_str: &str,
        request_id_to_method_map: &mut RequestIdMap,
    ) -> Result<LSPSMessage, Self::ParseError>;

    /// Encodes a message.
    fn to_json(message: &LSPSMessage) -> String;
}

/// The protocols: their handlers, how these are built, and the encoding of messages.
pub trait LSPSProtocols<ES, CM, C>: Sized {
    /// What the handlers report to the user.
    type Event;

    /// What is called when messages wait to be sent.
    type ProcessMsgsCallback;

    /// How messages are written as text.
    type Format: MessageFormat;

    type LSPS1ClientConfig: Clone;

    type LSPS1ServiceConfig: Clone;

    type LSPS2ClientConfig: Clone;

    type LSPS2ServiceConfig: Clone;

    type LSPS0ClientHandler: ProtocolMessageHandler<Self::Event, ProtocolMessage = LSPS0Message>;

    type LSPS0ServiceHandler: ProtocolMessageHandler<Self::Event, ProtocolMessage = LSPS0Message>;

    type LSPS1ClientHandler: ProtocolMessageHandler<Self::Event, ProtocolMessage = LSPS1Message>;

    type LSPS1ServiceHandler: ProtocolMessageHandler<Self::Event, ProtocolMessage = LSPS1Message>;

    type LSPS2ClientHandler: ProtocolMessageHandler<Self::Event, ProtocolMessage = LSPS2Message>;

    type LSPS2ServiceHandler: ProtocolMessageHandler<Self::Event, ProtocolMessage = LSPS2Message>;

    fn new_lsps0_client_handler(entropy_source: ES) -> Self::LSPS0ClientHandler;

    fn new_lsps0_service_handler(protocols: Vec<u16>) -> Self::LSPS0ServiceHandler;

    fn new_lsps1_client_handler(
        entropy_source: ES,
        channel_manager: CM,
        chain_source: Option<C>,
        config: Self::LSPS1ClientConfig,
    ) -> Self::LSPS1ClientHandler;

    fn new_lsps1_service_handler(
        entropy_source: ES,
        channel_manager: CM,
        chain_source: Option<C>,
        config: Self::LSPS1ServiceConfig,
    ) -> Self::LSPS1ServiceHandler;

    fn new_lsps2_client_handler(
        entropy_source: ES,
        config: Self::LSPS2ClientConfig,
    ) -> Self::LSPS2ClientHandler;

    fn new_lsps2_service_handler(
        channel_manager: CM,
        config: Self::LSPS2ServiceConfig,
    ) -> Self::LSPS2ServiceHandler;
}

/// A source of the bytes of one message.
pub trait RawMessageSource {
    type Error;

    /// Reads the message.
    fn read_raw_message(&mut self) -> Result<RawLSPSMessage, Self::Error>;
}

} // verus!
