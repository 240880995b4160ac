//! Errors that the manager reports about a peer.

use vstd::prelude::*;
use crate::key::PublicKey;

verus! {

/// How verbose a log line is.
#[derive(Clone, Copy, Debug, PartialEq, Eq)]
pub enum Level {
    Gossip,
    Trace,
    Debug,
    Info,
    Warn,
    Error,
}

/// A message about a channel, or about all channels where the channel id is zero.
#[derive(Debug, PartialEq, Eq)]
pub struct PeerMessage {
    pub channel_id: [u8; 32],
    pub data: String,
}

/// What to do about the peer that caused an error.
#[derive(Debug, PartialEq, Eq)]
pub enum ErrorAction {
    DisconnectPeer(Option<PeerMessage>),
    DisconnectPeerWithWarning(PeerMessage),
    IgnoreError,
    IgnoreAndLog(Level),
    IgnoreDuplicateGossip,
    SendErrorMessage(PeerMessage),
    SendWarningMessage { msg: PeerMessage, log_level: Level },
}

/// A failure to process a message.
#[derive(Debug, PartialEq, Eq)]
pub struct LightningError {
    /// A human-readable message describing the error.
    pub err: String,
    /// The action which should be taken against the offending peer.
    pub action: ErrorAction,
}

/// Why the manager turns a message away without handing it to a protocol handler.
#[derive(Clone, Copy, Debug, PartialEq, Eq)]
pub enum Refusal {
    /// The peer reports that it could not read a message of ours.
    NotUnderstood,
    NoLSPS0Service,
    NoLSPS1Client,
    NoLSPS1Service,
    NoLSPS2Client,
    NoLSPS2Service,
}

impl Refusal {
    /// The level at which the refusal is logged.
    pub open spec fn level(self) -> Level {
        match self {
            Refusal::NotUnderstood => Level::Error,
            _ => Level::Info,
        }
    }

    /// The text of the refusal, with the sender shown as `node`.
    pub open spec fn text(self, node: Seq<char>) -> Seq<char> {
        match self {
            Refusal::NotUnderstood => node
                + " did not understand a message we previously sent, maybe they don't support a protocol we are trying to use?"@,
            Refusal::NoLSPS0Service =>
                "Received LSPS0 request message without LSPS0 service handler configured. From node = "@
                + node,
            Refusal::NoLSPS1Client =>
                "Received LSPS1 response message without LSPS1 client handler configured. From node = "@
                + node,
            Refusal::NoLSPS1Service =>
                "Received LSPS1 request message without LSPS1 service handler configured. From node = "@
                + node,
            Refusal::NoLSPS2Client =>
                "Received LSPS2 response message without LSPS2 client handler configured. From node = "@
                + node,
            Refusal::NoLSPS2Service =>
                "Received LSPS2 request message without LSPS2 service handler configured. From node = "@
                + node,
        }
    }

    /// `node` is how the refusal shows the sender: the key in hexadecimal where the peer did
    /// not understand us, and what writing the key in its debugging form gave otherwise.
    pub open spec fn shows(self, sender: PublicKey, node: Seq<char>) -> bool {
        match self {
            Refusal::NotUnderstood => node == crate::key::lower_hex(sender@),
            _ => crate::key::is_debug_text(node) && sender.shown_as(node),
        }
    }

    /// `error` is what the manager reports for this refusal of a message from `sender`.
    pub open spec fn reported_as(self, sender: PublicKey, error: LightningError) -> bool {
        &&& error.action == ErrorAction::IgnoreAndLog(self.level())
        &&& exists|node: Seq<char>| #[trigger]
            self.shows(sender, node) && error.err@ == self.text(node)
    }

    /// Builds the error, given the text that shows the sender.
    pub fn error_showing(self, node: &str) -> (error: LightningError)
        ensures
            error.err@ == self.text(node@),
            error.action == ErrorAction::IgnoreAndLog(self.level()),
    {
        let level = match self {
            Refusal::NotUnderstood => Level::Error,
            _ => Level::Info,
        };
        let prefix = match self {
            Refusal::NotUnderstood => "",
            Refusal::NoLSPS0Service =>
                "Received LSPS0 request message without LSPS0 service handler configured. From node = ",
            Refusal::NoLSPS1Client =>
                "Received LSPS1 response message without LSPS1 client handler configured. From node = ",
            Refusal::NoLSPS1Service =>
                "Received LSPS1 request message without LSPS1 service handler configured. From node = ",
            Refusal::NoLSPS2Client =>
                "Received LSPS2 response message without LSPS2 client handler configured. From node = ",
            Refusal::NoLSPS2Service =>
                "Received LSPS2 request message without LSPS2 service handler configured. From node = ",
        };
        let mut err = prefix.to_owned();
        err.append(node);
        if let Refusal::NotUnderstood = self {
            err.append(
                " did not understand a message we previously sent, maybe they don't support a protocol we are trying to use?",
            );
            proof {
                reveal_strlit("");
            }
            assert(""@ + node@ =~= node@);
        }
        LightningError { err, action: ErrorAction::IgnoreAndLog(level) }
    }

    /// Builds the error for a message from `sender`. Which internal bytes of the key the
    /// debugging form shows is not stated.
    pub fn error(self, sender: &PublicKey) -> (error: LightningError)
        ensures
            self.reported_as(*sender, error),
    {
        let node = match self {
            Refusal::NotUnderstood => sender.display(),
            _ => sender.debug(),
        };
        let error = self.error_showing(node.as_str());
        assert(self.shows(*sender, node@));
        error
    }
}

} // verus!
