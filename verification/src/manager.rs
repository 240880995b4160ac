//! The manager: it routes messages between peers and protocol handlers.

use vstd::prelude::*;
use crate::chain::{
    check_connect, check_disconnect, BestBlock, BlockHash, ChainOrderError, ChainParameters, Header,
};
use crate::config::{LiquidityClientConfig, LiquidityServiceConfig};
use crate::errors::Refusal;
use crate::features::{
    empty_init_features, empty_node_features, set_optional_custom_init_bit,
    set_optional_custom_node_bit,
};
use crate::key::PublicKey;
use crate::messages::{
    LSPS0Message, LSPS1Message, LSPS2Message, LSPSMessage, RawLSPSMessage, RequestIdMap,
    LSPS_MESSAGE_TYPE_ID,
};
use crate::protocols::{
    Handled, HandlerOutcome, LSPSProtocols, MessageFormat, ProtocolMessageHandler, RawMessageSource,
};
use crate::queues::{EventQueue, MessageQueue};

verus! {

/// The feature bit of a node that offers LSPS services.
pub const LSPS_FEATURE_BIT: usize = 729;

/// Why a message could not be decoded.
pub type ParseError<ES, CM, C, P> =
    <<P as LSPSProtocols<ES, CM, C>>::Format as MessageFormat>::ParseError;

/// The main interface into LSP functionality.
///
/// Messages from peers go to [`LiquidityManager::handle_custom_message`]; what is to be sent
/// in return waits for [`LiquidityManager::get_and_clear_pending_msg`]. Users need to
/// continually poll [`LiquidityManager::get_and_clear_pending_events`] in order to surface
/// events that likely need to be handled.
pub struct LiquidityManager<ES, CM, C, P: LSPSProtocols<ES, CM, C>> {
    pending_messages: MessageQueue<P::ProcessMsgsCallback>,
    pending_events: EventQueue<P::Event>,
    request_id_to_method_map: RequestIdMap,
    lsps0_client_handler: P::LSPS0ClientHandler,
    lsps0_service_handler: Option<P::LSPS0ServiceHandler>,
    lsps1_service_handler: Option<P::LSPS1ServiceHandler>,
    lsps1_client_handler: Option<P::LSPS1ClientHandler>,
    lsps2_service_handler: Option<P::LSPS2ServiceHandler>,
    lsps2_client_handler: Option<P::LSPS2ClientHandler>,
    service_config: Option<LiquidityServiceConfig<P::LSPS1ServiceConfig, P::LSPS2ServiceConfig>>,
    _client_config: Option<LiquidityClientConfig<P::LSPS1ClientConfig, P::LSPS2ClientConfig>>,
    best_block: Option<BestBlock>,
    _chain_source: Option<C>,
}

/// What the parts of a manager are.
impl<ES, CM, C, P: LSPSProtocols<ES, CM, C>> LiquidityManager<ES, CM, C, P> {
    /// The messages that wait to be sent, each with its recipient, oldest first.
    pub closed spec fn pending_messages(self) -> Seq<(PublicKey, LSPSMessage)> {
        self.pending_messages@
    }

    /// The callback that is set for pending messages.
    pub closed spec fn callback(self) -> Option<P::ProcessMsgsCallback> {
        self.pending_messages.callback()
    }

    /// The events that wait for the user, oldest first.
    pub closed spec fn pending_events(self) -> Seq<P::Event> {
        self.pending_events@
    }

    /// The record of the requests that were sent.
    pub closed spec fn request_id_map(self) -> RequestIdMap {
        self.request_id_to_method_map
    }

    /// The methods of the requests that were sent, by request id.
    pub open spec fn request_ids(self) -> Map<Seq<char>, Seq<char>> {
        self.request_id_map()@
    }

    pub closed spec fn lsps0_client(self) -> P::LSPS0ClientHandler {
        self.lsps0_client_handler
    }

    pub closed spec fn lsps0_service(self) -> Option<P::LSPS0ServiceHandler> {
        self.lsps0_service_handler
    }

    pub closed spec fn lsps1_client(self) -> Option<P::LSPS1ClientHandler> {
        self.lsps1_client_handler
    }

    pub closed spec fn lsps1_service(self) -> Option<P::LSPS1ServiceHandler> {
        self.lsps1_service_handler
    }

    pub closed spec fn lsps2_client(self) -> Option<P::LSPS2ClientHandler> {
        self.lsps2_client_handler
    }

    pub closed spec fn lsps2_service(self) -> Option<P::LSPS2ServiceHandler> {
        self.lsps2_service_handler
    }

    pub closed spec fn service_config(self) -> Option<
        LiquidityServiceConfig<P::LSPS1ServiceConfig, P::LSPS2ServiceConfig>,
    > {
        self.service_config
    }

    pub closed spec fn client_config(self) -> Option<
        LiquidityClientConfig<P::LSPS1ClientConfig, P::LSPS2ClientConfig>,
    > {
        self._client_config
    }

    /// The tip of the chain, where one is tracked.
    pub closed spec fn best_block(self) -> Option<BestBlock> {
        self.best_block
    }

    pub closed spec fn chain_source(self) -> Option<C> {
        self._chain_source
    }

    /// The handlers, the configurations, the chain source and the tip are those of `other`.
    pub open spec fn same_setup(self, other: Self) -> bool {
        &&& self.lsps0_client() == other.lsps0_client()
        &&& self.lsps0_service() == other.lsps0_service()
        &&& self.lsps1_client() == other.lsps1_client()
        &&& self.lsps1_service() == other.lsps1_service()
        &&& self.lsps2_client() == other.lsps2_client()
        &&& self.lsps2_service() == other.lsps2_service()
        &&& self.service_config() == other.service_config()
        &&& self.client_config() == other.client_config()
        &&& self.chain_source() == other.chain_source()
        &&& self.best_block() == other.best_block()
    }

    /// The handlers that are there are those that the configurations ask for. The LSPS0
    /// client is there in any case.
    pub open spec fn configured(self) -> bool {
        &&& self.lsps0_service() is Some <==> self.service_config() is Some
        &&& self.lsps1_service() is Some <==> self.service_config() is Some
            && self.service_config()->0.lsps1_service_config is Some
        &&& self.lsps2_service() is Some <==> self.service_config() is Some
            && self.service_config()->0.lsps2_service_config is Some
        &&& self.lsps1_client() is Some <==> self.client_config() is Some
            && self.client_config()->0.lsps1_client_config is Some
        &&& self.lsps2_client() is Some <==> self.client_config() is Some
            && self.client_config()->0.lsps2_client_config is Some
    }

    /// How often the callback is to be called after `pushed` messages were pushed.
    pub open spec fn calls_after(self, pushed: nat) -> nat {
        if self.callback() is Some {
            pushed
        } else {
            0
        }
    }
}

/// How a manager is set up.
impl<ES: Clone, CM: Clone, C: Clone, P: LSPSProtocols<ES, CM, C>> LiquidityManager<ES, CM, C, P> {
    /// `handler` is what building the LSPS0 client from the entropy source gave.
    pub open spec fn built_lsps0_client(entropy_source: ES, handler: P::LSPS0ClientHandler) -> bool {
        exists|es: ES|
            cloned(entropy_source, es) && #[trigger] call_ensures(
                P::new_lsps0_client_handler,
                (es,),
                handler,
            )
    }

    /// `handler` is what building an LSPS0 service that announces no protocols gave.
    pub open spec fn built_lsps0_service(handler: P::LSPS0ServiceHandler) -> bool {
        exists|protocols: Vec<u16>|
            protocols@.len() == 0 && #[trigger] call_ensures(
                P::new_lsps0_service_handler,
                (protocols,),
                handler,
            )
    }

    /// `handler` is what building an LSPS1 client with `config` gave.
    pub open spec fn built_lsps1_client(
        entropy_source: ES,
        channel_manager: CM,
        chain_source: Option<C>,
        config: P::LSPS1ClientConfig,
        handler: P::LSPS1ClientHandler,
    ) -> bool {
        exists|es: ES, cm: CM, source: Option<C>, own_config: P::LSPS1ClientConfig|
            cloned(entropy_source, es) && cloned(channel_manager, cm) && cloned(
                chain_source,
                source,
            ) && cloned(config, own_config) && #[trigger] call_ensures(
                P::new_lsps1_client_handler,
                (es, cm, source, own_config),
                handler,
            )
    }

    /// `handler` is what building an LSPS1 service with `config` gave.
    pub open spec fn built_lsps1_service(
        entropy_source: ES,
        channel_manager: CM,
        chain_source: Option<C>,
        config: P::LSPS1ServiceConfig,
        handler: P::LSPS1ServiceHandler,
    ) -> bool {
        exists|es: ES, cm: CM, source: Option<C>, own_config: P::LSPS1ServiceConfig|
            cloned(entropy_source, es) && cloned(channel_manager, cm) && cloned(
                chain_source,
                source,
            ) && cloned(config, own_config) && #[trigger] call_ensures(
                P::new_lsps1_service_handler,
                (es, cm, source, own_config),
                handler,
            )
    }

    /// `handler` is what building an LSPS2 client with `config` gave.
    pub open spec fn built_lsps2_client(
        entropy_source: ES,
        config: P::LSPS2ClientConfig,
        handler: P::LSPS2ClientHandler,
    ) -> bool {
        exists|es: ES, own_config: P::LSPS2ClientConfig|
            cloned(entropy_source, es) && cloned(config, own_config) && #[trigger] call_ensures(
                P::new_lsps2_client_handler,
                (es, own_config),
                handler,
            )
    }

    /// `handler` is what building an LSPS2 service with `config` gave.
    pub open spec fn built_lsps2_service(
        channel_manager: CM,
        config: P::LSPS2ServiceConfig,
        handler: P::LSPS2ServiceHandler,
    ) -> bool {
        exists|cm: CM, own_config: P::LSPS2ServiceConfig|
            cloned(channel_manager, cm) && cloned(config, own_config) && #[trigger] call_ensures(
                P::new_lsps2_service_handler,
                (cm, own_config),
                handler,
            )
    }

    /// Constructor for the [`LiquidityManager`].
    ///
    /// Sets up the required protocol message handlers based on the given
    /// [`LiquidityClientConfig`] and [`LiquidityServiceConfig`].
    pub fn new(
        entropy_source: ES,
        channel_manager: CM,
        chain_source: Option<C>,
        chain_params: Option<ChainParameters>,
        service_config: Option<LiquidityServiceConfig<P::LSPS1ServiceConfig, P::LSPS2ServiceConfig>>,
        client_config: Option<LiquidityClientConfig<P::LSPS1ClientConfig, P::LSPS2ClientConfig>>,
    ) -> (manager: Self)
        ensures
            manager.configured(),
            manager.pending_messages().len() == 0,
            manager.callback() is None,
            manager.pending_events().len() == 0,
            manager.request_ids() == Map::<Seq<char>, Seq<char>>::empty(),
            manager.service_config() == service_config,
            manager.client_config() == client_config,
            manager.chain_source() == chain_source,
            manager.best_block() == match chain_params {
                Some(chain_params) => Some(chain_params.best_block),
                None => None,
            },
            Self::built_lsps0_client(entropy_source, manager.lsps0_client()),
            manager.lsps0_service() matches Some(handler) ==> Self::built_lsps0_service(handler),
            manager.lsps1_client() matches Some(handler) ==> Self::built_lsps1_client(
                entropy_source,
                channel_manager,
                chain_source,
                client_config->0.lsps1_client_config->0,
                handler,
            ),
            manager.lsps1_service() matches Some(handler) ==> Self::built_lsps1_service(
                entropy_source,
                channel_manager,
                chain_source,
                service_config->0.lsps1_service_config->0,
                handler,
            ),
            manager.lsps2_client() matches Some(handler) ==> Self::built_lsps2_client(
                entropy_source,
                client_config->0.lsps2_client_config->0,
                handler,
            ),
            manager.lsps2_service() matches Some(handler) ==> Self::built_lsps2_service(
                channel_manager,
                service_config->0.lsps2_service_config->0,
                handler,
            ),
    {
        let lsps0_client_handler = P::new_lsps0_client_handler(entropy_source.clone());

        let lsps0_service_handler = if service_config.is_some() {
            Some(P::new_lsps0_service_handler(Vec::new()))
        } else {
            None
        };

        let lsps2_client_handler = match &client_config {
            Some(LiquidityClientConfig { lsps2_client_config: Some(config), .. }) => Some(
                P::new_lsps2_client_handler(entropy_source.clone(), config.clone()),
            ),
            _ => None,
        };
        let lsps2_service_handler = match &service_config {
            Some(LiquidityServiceConfig { lsps2_service_config: Some(config), .. }) => Some(
                P::new_lsps2_service_handler(channel_manager.clone(), config.clone()),
            ),
            _ => None,
        };
        let lsps1_client_handler = match &client_config {
            Some(LiquidityClientConfig { lsps1_client_config: Some(config), .. }) => Some(
                P::new_lsps1_client_handler(
                    entropy_source.clone(),
                    channel_manager.clone(),
                    chain_source.clone(),
                    config.clone(),
                ),
            ),
            _ => None,
        };
        let lsps1_service_handler = match &service_config {
            Some(LiquidityServiceConfig { lsps1_service_config: Some(config), .. }) => Some(
                P::new_lsps1_service_handler(
                    entropy_source.clone(),
                    channel_manager.clone(),
                    chain_source.clone(),
                    config.clone(),
                ),
            ),
            _ => None,
        };

        LiquidityManager {
            pending_messages: MessageQueue::new(),
            pending_events: EventQueue::new(),
            request_id_to_method_map: RequestIdMap::new(),
            lsps0_client_handler,
            lsps0_service_handler,
            lsps1_client_handler,
            lsps1_service_handler,
            lsps2_client_handler,
            lsps2_service_handler,
            service_config,
            _client_config: client_config,
            best_block: match chain_params {
                Some(chain_params) => Some(chain_params.best_block),
                None => None,
            },
            _chain_source: chain_source,
        }
    }
}

/// What happens to a message.
impl<ES, CM, C, P: LSPSProtocols<ES, CM, C>> LiquidityManager<ES, CM, C, P> {
    /// Why the manager refuses `msg`: it is the notice that a message of ours was not
    /// understood, or it is for a handler that is not there. `None` where there is a handler
    /// for it. Responses go to the client of their protocol, requests to the service.
    pub open spec fn refusal(self, msg: LSPSMessage) -> Option<Refusal> {
        match msg {
            LSPSMessage::Invalid => Some(Refusal::NotUnderstood),
            LSPSMessage::LSPS0(LSPS0Message::Response(..)) => None,
            LSPSMessage::LSPS0(LSPS0Message::Request(..)) => if self.lsps0_service() is Some {
                None
            } else {
                Some(Refusal::NoLSPS0Service)
            },
            LSPSMessage::LSPS1(LSPS1Message::Response(..)) => if self.lsps1_client() is Some {
                None
            } else {
                Some(Refusal::NoLSPS1Client)
            },
            LSPSMessage::LSPS1(LSPS1Message::Request(..)) => if self.lsps1_service() is Some {
                None
            } else {
                Some(Refusal::NoLSPS1Service)
            },
            LSPSMessage::LSPS2(LSPS2Message::Response(..)) => if self.lsps2_client() is Some {
                None
            } else {
                Some(Refusal::NoLSPS2Client)
            },
            LSPSMessage::LSPS2(LSPS2Message::Request(..)) => if self.lsps2_service() is Some {
                None
            } else {
                Some(Refusal::NoLSPS2Service)
            },
        }
    }

    /// `outcome` is what the handler that `msg` is for gave when it was called with the
    /// message and its sender.
    pub open spec fn delivered(
        self,
        msg: LSPSMessage,
        sender: PublicKey,
        outcome: HandlerOutcome<P::Event>,
    ) -> bool {
        match msg {
            LSPSMessage::Invalid => false,
            LSPSMessage::LSPS0(m) => match m {
                LSPS0Message::Response(..) => call_ensures(
                    P::LSPS0ClientHandler::handle_message,
                    (&self.lsps0_client(), m, &sender),
                    outcome,
                ),
                LSPS0Message::Request(..) => call_ensures(
                    P::LSPS0ServiceHandler::handle_message,
                    (&self.lsps0_service()->0, m, &sender),
                    outcome,
                ),
            },
            LSPSMessage::LSPS1(m) => match m {
                LSPS1Message::Response(..) => call_ensures(
                    P::LSPS1ClientHandler::handle_message,
                    (&self.lsps1_client()->0, m, &sender),
                    outcome,
                ),
                LSPS1Message::Request(..) => call_ensures(
                    P::LSPS1ServiceHandler::handle_message,
                    (&self.lsps1_service()->0, m, &sender),
                    outcome,
                ),
            },
            LSPSMessage::LSPS2(m) => match m {
                LSPS2Message::Response(..) => call_ensures(
                    P::LSPS2ClientHandler::handle_message,
                    (&self.lsps2_client()->0, m, &sender),
                    outcome,
                ),
                LSPS2Message::Request(..) => call_ensures(
                    P::LSPS2ServiceHandler::handle_message,
                    (&self.lsps2_service()->0, m, &sender),
                    outcome,
                ),
            },
        }
    }

    /// From `pre`, the manager took in `outcome`: its messages and events joined the queues,
    /// its result is the manager's, the callback is due once per message, and nothing else
    /// changed.
    pub open spec fn took_in(
        pre: Self,
        outcome: HandlerOutcome<P::Event>,
        post: Self,
        handled: Handled,
    ) -> bool {
        &&& post.pending_messages() == pre.pending_messages() + outcome.messages@
        &&& post.pending_events() == pre.pending_events() + outcome.events@
        &&& post.request_id_map() == pre.request_id_map()
        &&& post.callback() == pre.callback()
        &&& post.same_setup(pre)
        &&& handled.result == outcome.result
        &&& handled.callback_calls == pre.calls_after(outcome.messages@.len())
    }

    /// From `pre`, the manager processed `msg` from `sender`: it reported the refusal and
    /// changed nothing, or took in what the handler gave.
    pub open spec fn processed(
        pre: Self,
        msg: LSPSMessage,
        sender: PublicKey,
        post: Self,
        handled: Handled,
    ) -> bool {
        match pre.refusal(msg) {
            Some(refusal) => {
                &&& post == pre
                &&& handled.result matches Err(error) && refusal.reported_as(sender, error)
                &&& handled.callback_calls == 0
            },
            None => exists|outcome: HandlerOutcome<P::Event>| #[trigger]
                pre.delivered(msg, sender, outcome) && Self::took_in(pre, outcome, post, handled),
        }
    }

    /// Takes in what a handler gave: queues its messages and its events.
    pub fn take_in(&mut self, outcome: HandlerOutcome<P::Event>) -> (handled: Handled)
        ensures
            Self::took_in(*old(self), outcome, *final(self), handled),
    {
        let HandlerOutcome { result, messages, events } = outcome;
        let callback_calls = self.pending_messages.enqueue_all(messages);
        self.pending_events.enqueue_all(events);
        Handled { result, callback_calls }
    }

    /// Routes a message to the handler that it is for.
    pub fn handle_lsps_message(&mut self, msg: LSPSMessage, sender_node_id: &PublicKey) -> (handled:
        Handled)
        ensures
            Self::processed(*old(self), msg, *sender_node_id, *final(self), handled),
    {
        let outcome = match msg {
            LSPSMessage::Invalid => {
                return Self::refuse(Refusal::NotUnderstood, sender_node_id);
            },
            LSPSMessage::LSPS0(msg @ LSPS0Message::Response(..)) => {
                self.lsps0_client_handler.handle_message(msg, sender_node_id)
            },
            LSPSMessage::LSPS0(msg @ LSPS0Message::Request(..)) => match &self.lsps0_service_handler {
                Some(lsps0_service_handler) => lsps0_service_handler.handle_message(
                    msg,
                    sender_node_id,
                ),
                None => {
                    return Self::refuse(Refusal::NoLSPS0Service, sender_node_id);
                },
            },
            LSPSMessage::LSPS1(msg @ LSPS1Message::Response(..)) => match &self.lsps1_client_handler {
                Some(lsps1_client_handler) => lsps1_client_handler.handle_message(
                    msg,
                    sender_node_id,
                ),
                None => {
                    return Self::refuse(Refusal::NoLSPS1Client, sender_node_id);
                },
            },
            LSPSMessage::LSPS1(msg @ LSPS1Message::Request(..)) => match &self.lsps1_service_handler {
                Some(lsps1_service_handler) => lsps1_service_handler.handle_message(
                    msg,
                    sender_node_id,
                ),
                None => {
                    return Self::refuse(Refusal::NoLSPS1Service, sender_node_id);
                },
            },
            LSPSMessage::LSPS2(msg @ LSPS2Message::Response(..)) => match &self.lsps2_client_handler {
                Some(lsps2_client_handler) => lsps2_client_handler.handle_message(
                    msg,
                    sender_node_id,
                ),
                None => {
                    return Self::refuse(Refusal::NoLSPS2Client, sender_node_id);
                },
            },
            LSPSMessage::LSPS2(msg @ LSPS2Message::Request(..)) => match &self.lsps2_service_handler {
                Some(lsps2_service_handler) => lsps2_service_handler.handle_message(
                    msg,
                    sender_node_id,
                ),
                None => {
                    return Self::refuse(Refusal::NoLSPS2Service, sender_node_id);
                },
            },
        };
        assert(old(self).delivered(msg, *sender_node_id, outcome));
        self.take_in(outcome)
    }

    fn refuse(refusal: Refusal, sender_node_id: &PublicKey) -> (handled: Handled)
        ensures
            handled.result matches Err(error) && refusal.reported_as(*sender_node_id, error),
            handled.callback_calls == 0,
    {
        Handled { result: Err(refusal.error(sender_node_id)), callback_calls: 0 }
    }
}

/// Messages between the manager and its peers.
impl<ES, CM, C, P: LSPSProtocols<ES, CM, C>> LiquidityManager<ES, CM, C, P> {
    /// `self` differs from `other` in nothing but the record of the sent requests.
    pub open spec fn same_but_record(self, other: Self) -> bool {
        &&& self.pending_messages() == other.pending_messages()
        &&& self.pending_events() == other.pending_events()
        &&& self.callback() == other.callback()
        &&& self.same_setup(other)
    }

    /// From `pre`, the manager replied to `sender` that it did not understand: that notice
    /// joined the queue, and nothing else changed.
    pub open spec fn replied_invalid(pre: Self, sender: PublicKey, post: Self, handled: Handled) -> bool {
        &&& post.pending_messages() == pre.pending_messages().push((sender, LSPSMessage::Invalid))
        &&& post.pending_events() == pre.pending_events()
        &&& post.request_id_map() == pre.request_id_map()
        &&& post.callback() == pre.callback()
        &&& post.same_setup(pre)
        &&& handled.result is Ok
        &&& handled.callback_calls == pre.calls_after(1)
    }

    /// From `pre`, the manager answered what decoding a message from `sender` gave.
    pub open spec fn answered(
        pre: Self,
        parsed: Result<LSPSMessage, ParseError<ES, CM, C, P>>,
        sender: PublicKey,
        post: Self,
        handled: Handled,
    ) -> bool {
        match parsed {
            Ok(msg) => Self::processed(pre, msg, sender, post, handled),
            Err(_) => Self::replied_invalid(pre, sender, post, handled),
        }
    }

    /// Processes a message that was decoded; queues the notice that it was not understood for
    /// one that could not be.
    pub fn handle_parsed_message(
        &mut self,
        parsed: Result<LSPSMessage, ParseError<ES, CM, C, P>>,
        sender_node_id: &PublicKey,
    ) -> (handled: Handled)
        ensures
            Self::answered(*old(self), parsed, *sender_node_id, *final(self), handled),
    {
        match parsed {
            Ok(msg) => self.handle_lsps_message(msg, sender_node_id),
            Err(_) => {
                let callback_calls = self.pending_messages.enqueue(
                    sender_node_id,
                    LSPSMessage::Invalid,
                );
                Handled { result: Ok(()), callback_calls }
            },
        }
    }

    /// Handles the given message sent from `sender_node_id`, possibly producing messages for
    /// [`LiquidityManager::get_and_clear_pending_msg`] to return.
    pub fn handle_custom_message(&mut self, msg: RawLSPSMessage, sender_node_id: &PublicKey) -> (handled:
        Handled)
        ensures
            // What decoding gave, and the manager with what decoding left of the record.
            exists|
                json_str: &str,
                map: &mut RequestIdMap,
                parsed: Result<LSPSMessage, ParseError<ES, CM, C, P>>,
                mid: Self,
            |
                #![trigger call_ensures(P::Format::from_str_with_id_map, (json_str, map), parsed), mid.same_but_record(*old(self))]
                {
                    &&& json_str@ == msg.payload@
                    &&& *map == old(self).request_id_map()
                    &&& call_ensures(P::Format::from_str_with_id_map, (json_str, map), parsed)
                    &&& mid.request_id_map() == *final(map)
                    &&& mid.same_but_record(*old(self))
                    &&& Self::answered(mid, parsed, *sender_node_id, *final(self), handled)
                },
    {
        let parsed = P::Format::from_str_with_id_map(
            msg.payload.as_str(),
            &mut self.request_id_to_method_map,
        );
        let ghost mid = *self;
        assert(mid.same_but_record(*old(self)));
        self.handle_parsed_message(parsed, sender_node_id)
    }

    /// `raw` is what encoding `messages` gave, one by one, for the same recipients.
    pub open spec fn encoded(
        messages: Seq<(PublicKey, LSPSMessage)>,
        raw: Seq<(PublicKey, RawLSPSMessage)>,
    ) -> bool {
        &&& raw.len() == messages.len()
        &&& forall|i: int|
            0 <= i < raw.len() ==> (#[trigger] raw[i]).0 == messages[i].0 && call_ensures(
                P::Format::to_json,
                (&messages[i].1,),
                raw[i].1.payload,
            )
    }

    /// From `pre`, the manager handed out its pending messages: `raw` are these, encoded, the
    /// queue is empty, the requests among them are on record, and nothing else changed.
    pub open spec fn handed_out(pre: Self, raw: Seq<(PublicKey, RawLSPSMessage)>, post: Self) -> bool {
        &&& Self::encoded(pre.pending_messages(), raw)
        &&& post.pending_messages().len() == 0
        &&& post.request_ids() == crate::queues::recorded(pre.request_ids(), pre.pending_messages())
        &&& post.pending_events() == pre.pending_events()
        &&& post.callback() == pre.callback()
        &&& post.same_setup(pre)
    }

    /// Returns the list of pending messages, clearing the list in the process. Each message is
    /// paired with the node id of the intended recipient.
    pub fn get_and_clear_pending_msg(&mut self) -> (raw: Vec<(PublicKey, RawLSPSMessage)>)
        ensures
            Self::handed_out(*old(self), raw@, *final(self)),
    {
        let messages = self.pending_messages.get_and_clear_pending_msgs();
        let ghost pending = messages@;
        let mut raw: Vec<(PublicKey, RawLSPSMessage)> = Vec::new();
        let mut i: usize = 0;
        while i < messages.len()
            invariant
                messages@ == pending,
                pending == old(self).pending_messages(),
                i <= messages.len(),
                Self::encoded(pending.take(i as int), raw@),
                self.request_ids() == crate::queues::recorded(
                    old(self).request_ids(),
                    pending.take(i as int),
                ),
                self.pending_messages().len() == 0,
                self.pending_events() == old(self).pending_events(),
                self.callback() == old(self).callback(),
                self.same_setup(*old(self)),
            decreases messages.len() - i,
        {
            let (public_key, lsps_message) = &messages[i];
            if let Some((request_id, method_name)) = lsps_message.get_request_id_and_method() {
                self.request_id_to_method_map.insert(request_id, method_name);
            }
            let payload = P::Format::to_json(lsps_message);
            raw.push((*public_key, RawLSPSMessage { payload }));
            assert(pending.take(i + 1).drop_last() =~= pending.take(i as int));
            i = i + 1;
        }
        assert(pending.take(i as int) =~= pending);
        raw
    }

    /// Reads a message of the given type from `buffer`; nothing, and without touching the
    /// buffer, where the type is not that of LSPS messages.
    pub fn read<RD: RawMessageSource>(&self, message_type: u16, buffer: &mut RD) -> (message: Result<
        Option<RawLSPSMessage>,
        RD::Error,
    >)
        ensures
            message_type != LSPS_MESSAGE_TYPE_ID ==> message == Ok::<Option<RawLSPSMessage>, RD::Error>(None)
                && *final(buffer) == *old(buffer),
            message_type == LSPS_MESSAGE_TYPE_ID ==> exists|
                source: &mut RD,
                raw: Result<RawLSPSMessage, RD::Error>,
            |
                *source == *old(buffer) && *final(source) == *final(buffer) && #[trigger] call_ensures(
                    RD::read_raw_message,
                    (source,),
                    raw,
                ) && message == match raw {
                    Ok(raw) => Ok(Some(raw)),
                    Err(error) => Err(error),
                },
    {
        if message_type == LSPS_MESSAGE_TYPE_ID {
            match buffer.read_raw_message() {
                Ok(raw) => Ok(Some(raw)),
                Err(error) => Err(error),
            }
        } else {
            Ok(None)
        }
    }
}

/// What the manager offers its user.
impl<ES, CM, C, P: LSPSProtocols<ES, CM, C>> LiquidityManager<ES, CM, C, P> {
    /// Returns a reference to the LSPS0 client-side handler.
    pub fn lsps0_client_handler(&self) -> (handler: &P::LSPS0ClientHandler)
        ensures
            *handler == self.lsps0_client(),
    {
        &self.lsps0_client_handler
    }

    /// Returns a reference to the LSPS0 server-side handler.
    pub fn lsps0_service_handler(&self) -> (handler: Option<&P::LSPS0ServiceHandler>)
        ensures
            match handler {
                Some(handler) => self.lsps0_service() == Some(*handler),
                None => self.lsps0_service() is None,
            },
    {
        self.lsps0_service_handler.as_ref()
    }

    /// Returns a reference to the LSPS1 client-side handler.
    pub fn lsps1_client_handler(&self) -> (handler: Option<&P::LSPS1ClientHandler>)
        ensures
            match handler {
                Some(handler) => self.lsps1_client() == Some(*handler),
                None => self.lsps1_client() is None,
            },
    {
        self.lsps1_client_handler.as_ref()
    }

    /// Returns a reference to the LSPS1 server-side handler.
    pub fn lsps1_service_handler(&self) -> (handler: Option<&P::LSPS1ServiceHandler>)
        ensures
            match handler {
                Some(handler) => self.lsps1_service() == Some(*handler),
                None => self.lsps1_service() is None,
            },
    {
        self.lsps1_service_handler.as_ref()
    }

    /// Returns a reference to the LSPS2 client-side handler.
    pub fn lsps2_client_handler(&self) -> (handler: Option<&P::LSPS2ClientHandler>)
        ensures
            match handler {
                Some(handler) => self.lsps2_client() == Some(*handler),
                None => self.lsps2_client() is None,
            },
    {
        self.lsps2_client_handler.as_ref()
    }

    /// Returns a reference to the LSPS2 server-side handler.
    pub fn lsps2_service_handler(&self) -> (handler: Option<&P::LSPS2ServiceHandler>)
        ensures
            match handler {
                Some(handler) => self.lsps2_service() == Some(*handler),
                None => self.lsps2_service() is None,
            },
    {
        self.lsps2_service_handler.as_ref()
    }

    /// From `pre`, the callback was set, in place of any earlier one, and nothing else changed.
    pub open spec fn got_callback(pre: Self, callback: P::ProcessMsgsCallback, post: Self) -> bool {
        &&& post.callback() == Some(callback)
        &&& post.pending_messages() == pre.pending_messages()
        &&& post.pending_events() == pre.pending_events()
        &&& post.request_id_map() == pre.request_id_map()
        &&& post.same_setup(pre)
    }

    /// Allows to set a callback that is to be called after new messages are pushed to the
    /// message queue.
    ///
    /// The manager does not call it itself: whoever hands the manager a message calls it as
    /// often as [`Handled::callback_calls`] says, once the manager is free to be used again.
    /// The callback may then clear the message queue.
    pub fn set_process_msgs_callback(&mut self, callback: P::ProcessMsgsCallback)
        ensures
            Self::got_callback(*old(self), callback, *final(self)),
    {
        self.pending_messages.set_process_msgs_callback(callback)
    }

    /// The callback that is set.
    pub fn process_msgs_callback(&self) -> (callback: Option<&P::ProcessMsgsCallback>)
        ensures
            match callback {
                Some(callback) => self.callback() == Some(*callback),
                None => self.callback() is None,
            },
    {
        self.pending_messages.process_msgs_callback()
    }

    /// `self` differs from `other` in nothing but the pending events.
    pub open spec fn same_but_events(self, other: Self) -> bool {
        &&& self.pending_messages() == other.pending_messages()
        &&& self.request_id_map() == other.request_id_map()
        &&& self.callback() == other.callback()
        &&& self.same_setup(other)
    }

    /// From `pre`, the oldest event was taken; `None` where there was none.
    pub open spec fn took_event(pre: Self, event: Option<P::Event>, post: Self) -> bool {
        &&& match event {
            Some(event) => {
                &&& pre.pending_events().len() > 0
                &&& event == pre.pending_events()[0]
                &&& post.pending_events() == pre.pending_events().skip(1)
            },
            None => {
                &&& pre.pending_events().len() == 0
                &&& post.pending_events() == pre.pending_events()
            },
        }
        &&& post.same_but_events(pre)
    }

    /// From `pre`, all events were taken, oldest first.
    pub open spec fn took_all_events(pre: Self, events: Seq<P::Event>, post: Self) -> bool {
        &&& events == pre.pending_events()
        &&& post.pending_events().len() == 0
        &&& post.same_but_events(pre)
    }

    /// Returns `Some` if an event is ready.
    ///
    /// Typically you would spawn a thread or task that calls this in a loop.
    pub fn next_event(&mut self) -> (event: Option<P::Event>)
        ensures
            Self::took_event(*old(self), event, *final(self)),
    {
        self.pending_events.next_event()
    }

    /// Returns and clears all events without blocking.
    ///
    /// Typically you would spawn a thread or task that calls this in a loop.
    pub fn get_and_clear_pending_events(&mut self) -> (events: Vec<P::Event>)
        ensures
            Self::took_all_events(*old(self), events@, *final(self)),
    {
        self.pending_events.get_and_clear_pending_events()
    }

    /// The feature bits that the manager announces: that of the protocols where it offers
    /// services, and none where it does not.
    pub open spec fn announced_bits(self) -> Set<nat> {
        if self.service_config() is Some {
            set![LSPS_FEATURE_BIT as nat]
        } else {
            Set::empty()
        }
    }

    /// Gets the node feature flags which this manager itself supports.
    pub fn provided_node_features(&self) -> (flags: Vec<u8>)
        ensures
            crate::features::feature_bits(flags@) == self.announced_bits(),
            flags@.len() == if self.service_config() is Some {
                LSPS_FEATURE_BIT / 8 + 1
            } else {
                0
            },
    {
        let mut features = empty_node_features();
        proof {
            crate::features::lemma_no_flags_no_bits(features@);
        }
        if self.service_config.is_some() {
            let ghost empty = features@;
            features = set_optional_custom_node_bit(features, LSPS_FEATURE_BIT).unwrap();
            proof {
                crate::features::lemma_bit_set(empty, LSPS_FEATURE_BIT as nat, features@);
            }
        }
        features
    }

    /// Gets the init feature flags which should be sent to the given peer.
    pub fn provided_init_features(&self, _their_node_id: &PublicKey) -> (flags: Vec<u8>)
        ensures
            crate::features::feature_bits(flags@) == self.announced_bits(),
            flags@.len() == if self.service_config() is Some {
                LSPS_FEATURE_BIT / 8 + 1
            } else {
                0
            },
    {
        let mut features = empty_init_features();
        proof {
            crate::features::lemma_no_flags_no_bits(features@);
        }
        if self.service_config.is_some() {
            let ghost empty = features@;
            features = set_optional_custom_init_bit(features, LSPS_FEATURE_BIT).unwrap();
            proof {
                crate::features::lemma_bit_set(empty, LSPS_FEATURE_BIT as nat, features@);
            }
        }
        features
    }
}

/// Blocks and transactions.
impl<ES, CM, C, P: LSPSProtocols<ES, CM, C>> LiquidityManager<ES, CM, C, P> {
    /// `self` differs from `other` in nothing but the tip of the chain.
    pub open spec fn same_but_tip(self, other: Self) -> bool {
        &&& self.pending_messages() == other.pending_messages()
        &&& self.pending_events() == other.pending_events()
        &&& self.request_id_map() == other.request_id_map()
        &&& self.callback() == other.callback()
        &&& self.lsps0_client() == other.lsps0_client()
        &&& self.lsps0_service() == other.lsps0_service()
        &&& self.lsps1_client() == other.lsps1_client()
        &&& self.lsps1_service() == other.lsps1_service()
        &&& self.lsps2_client() == other.lsps2_client()
        &&& self.lsps2_service() == other.lsps2_service()
        &&& self.service_config() == other.service_config()
        &&& self.client_config() == other.client_config()
        &&& self.chain_source() == other.chain_source()
    }

    /// From `pre`, the block was taken off the chain.
    pub open spec fn went_back(pre: Self, header: Header, height: u32, post: Self) -> bool {
        &&& post.best_block() == crate::chain::tip_below(pre.best_block(), header, height)
        &&& post.same_but_tip(pre)
    }

    /// Notifies the manager that a block was added at the given height. Blocks must be
    /// connected in chain order. The tip stays where it is.
    pub fn filtered_block_connected<TX>(
        &mut self,
        header: &Header,
        txdata: &[(usize, TX)],
        height: u32,
    )
        requires
            crate::chain::connect_error(old(self).best_block(), *header, height) is None,
        ensures
            *final(self) == *old(self),
    {
        self.transactions_confirmed(header, txdata, height);
        self.best_block_updated(header, height);
    }

    /// As [`LiquidityManager::filtered_block_connected`], for a block that may break the order
    /// of the chain: then nothing is done, and the error tells how it breaks it.
    pub fn try_filtered_block_connected<TX>(
        &mut self,
        header: &Header,
        txdata: &[(usize, TX)],
        height: u32,
    ) -> (connected: Result<(), ChainOrderError>)
        ensures
            *final(self) == *old(self),
            match crate::chain::connect_error(old(self).best_block(), *header, height) {
                Some(error) => connected == Err::<(), ChainOrderError>(error),
                None => connected is Ok,
            },
    {
        match check_connect(&self.best_block, header, height) {
            Some(error) => Err(error),
            None => {
                self.filtered_block_connected(header, txdata, height);
                Ok(())
            },
        }
    }

    /// Notifies the manager that a block was removed at the given height. Blocks must be
    /// disconnected in chain order. The tip, where one is tracked, goes back to the block
    /// before.
    pub fn block_disconnected(&mut self, header: &Header, height: u32)
        requires
            crate::chain::disconnect_error(old(self).best_block(), *header, height) is None,
        ensures
            Self::went_back(*old(self), *header, height, *final(self)),
    {
        let new_height: u32 = height - 1;
        if self.best_block.is_some() {
            self.best_block = Some(BestBlock::new(header.prev_blockhash, new_height));
        }
    }

    /// As [`LiquidityManager::block_disconnected`], for a block that may break the order of
    /// the chain: then nothing is done, and the error tells how it breaks it.
    pub fn try_block_disconnected(&mut self, header: &Header, height: u32) -> (disconnected: Result<
        (),
        ChainOrderError,
    >)
        ensures
            match crate::chain::disconnect_error(old(self).best_block(), *header, height) {
                Some(error) => disconnected == Err::<(), ChainOrderError>(error) && *final(self)
                    == *old(self),
                None => disconnected is Ok && Self::went_back(
                    *old(self),
                    *header,
                    height,
                    *final(self),
                ),
            },
    {
        match check_disconnect(&self.best_block, header, height) {
            Some(error) => Err(error),
            None => {
                self.block_disconnected(header, height);
                Ok(())
            },
        }
    }

    /// Notifies the manager of transactions confirmed in a block. No protocol follows
    /// transactions so far, so nothing changes.
    pub fn transactions_confirmed<TX>(
        &mut self,
        _header: &Header,
        _txdata: &[(usize, TX)],
        _height: u32,
    )
        ensures
            *final(self) == *old(self),
    {
    }

    /// Notifies the manager of a transaction that is no longer confirmed. No protocol follows
    /// transactions so far, so nothing changes.
    pub fn transaction_unconfirmed(&mut self, _txid: &[u8; 32])
        ensures
            *final(self) == *old(self),
    {
    }

    /// Notifies the manager of a new tip. No protocol follows the tip so far, so nothing
    /// changes.
    pub fn best_block_updated(&mut self, _header: &Header, _height: u32)
        ensures
            *final(self) == *old(self),
    {
    }

    /// The transactions whose confirmation the manager follows, each with the height and the
    /// hash of its block: none.
    pub fn get_relevant_txids(&self) -> (txids: Vec<([u8; 32], u32, Option<BlockHash>)>)
        ensures
            txids@.len() == 0,
    {
        Vec::new()
    }
}

} // verus!
