//! What holds of calls of the library: whatever a call gives, the laws of the manager speak of it.

use vstd::prelude::*;
use crate::chain::{
    check_connect, check_disconnect, BlockHash, ChainOrderError, ChainParameters, Header,
};
use crate::config::{LiquidityClientConfig, LiquidityServiceConfig};
use crate::errors::{ErrorAction, Level, LightningError, Refusal};
use crate::key::PublicKey;
use crate::manager::{LiquidityManager, ParseError};
use crate::messages::{
    LSPS0Message, LSPS1Message, LSPS2Message, LSPSMessage, RawLSPSMessage, Request, RequestId,
    RequestIdMap,
};
use crate::protocols::{Handled, HandlerOutcome, LSPSProtocols, MessageFormat, RawMessageSource};
use crate::queues::{EventQueue, MessageQueue};

verus! {

// The manager, to its user.

/// A new manager has nothing pending, no callback and no record, keeps what it was given, and
/// has each handler exactly where its configuration is.
pub proof fn law_new<ES: Clone, CM: Clone, C: Clone, P: LSPSProtocols<ES, CM, C>>(
    entropy_source: ES,
    channel_manager: CM,
    chain_source: Option<C>,
    chain_params: Option<ChainParameters>,
    service_config: Option<LiquidityServiceConfig<P::LSPS1ServiceConfig, P::LSPS2ServiceConfig>>,
    client_config: Option<LiquidityClientConfig<P::LSPS1ClientConfig, P::LSPS2ClientConfig>>,
    manager: LiquidityManager<ES, CM, C, P>,
)
    requires
        call_ensures(
            LiquidityManager::<ES, CM, C, P>::new,
            (
                entropy_source,
                channel_manager,
                chain_source,
                chain_params,
                service_config,
                client_config,
            ),
            manager,
        ),
    ensures
        manager.pending_messages() == Seq::<(PublicKey, LSPSMessage)>::empty(),
        manager.pending_events() == Seq::<P::Event>::empty(),
        manager.callback() is None,
        manager.request_ids() == Map::<Seq<char>, Seq<char>>::empty(),
        manager.service_config() == service_config,
        manager.client_config() == client_config,
        manager.chain_source() == chain_source,
        chain_params is None ==> manager.best_block() is None,
        chain_params matches Some(params) ==> manager.best_block() == Some(params.best_block),
        manager.configured(),
        LiquidityManager::<ES, CM, C, P>::built_lsps0_client(
            entropy_source,
            manager.lsps0_client(),
        ),
        service_config is None ==> manager.lsps0_service() is None,
        service_config is Some ==> (manager.lsps0_service() matches Some(handler)
            && LiquidityManager::<ES, CM, C, P>::built_lsps0_service(handler)),
        match client_config {
            Some(LiquidityClientConfig { lsps1_client_config: Some(config), .. }) =>
                manager.lsps1_client() matches Some(handler)
                && LiquidityManager::<ES, CM, C, P>::built_lsps1_client(
                entropy_source,
                channel_manager,
                chain_source,
                config,
                handler,
            ),
            _ => manager.lsps1_client() is None,
        },
        match service_config {
            Some(LiquidityServiceConfig { lsps1_service_config: Some(config), .. }) =>
                manager.lsps1_service() matches Some(handler)
                && LiquidityManager::<ES, CM, C, P>::built_lsps1_service(
                entropy_source,
                channel_manager,
                chain_source,
                config,
                handler,
            ),
            _ => manager.lsps1_service() is None,
        },
        match client_config {
            Some(LiquidityClientConfig { lsps2_client_config: Some(config), .. }) =>
                manager.lsps2_client() matches Some(handler)
                && LiquidityManager::<ES, CM, C, P>::built_lsps2_client(
                entropy_source,
                config,
                handler,
            ),
            _ => manager.lsps2_client() is None,
        },
        match service_config {
            Some(LiquidityServiceConfig { lsps2_service_config: Some(config), .. }) =>
                manager.lsps2_service() matches Some(handler)
                && LiquidityManager::<ES, CM, C, P>::built_lsps2_service(
                channel_manager,
                config,
                handler,
            ),
            _ => manager.lsps2_service() is None,
        },
{
    assert(manager.pending_messages() =~= Seq::<(PublicKey, LSPSMessage)>::empty());
    assert(manager.pending_events() =~= Seq::<P::Event>::empty());
}

/// The handlers and the callback that a manager gives out are its own.
pub proof fn law_parts_are_given_out<ES, CM, C, P: LSPSProtocols<ES, CM, C>>(
    manager: &LiquidityManager<ES, CM, C, P>,
)
    ensures
        forall|handler: &P::LSPS0ClientHandler| #[trigger]
            call_ensures(
                LiquidityManager::<ES, CM, C, P>::lsps0_client_handler,
                (manager,),
                handler,
            ) ==> manager.lsps0_client() == *handler,
        forall|handler: Option<&P::LSPS0ServiceHandler>| #[trigger]
            call_ensures(
                LiquidityManager::<ES, CM, C, P>::lsps0_service_handler,
                (manager,),
                handler,
            ) ==> (handler is None ==> manager.lsps0_service() is None) && (handler matches Some(own)
                ==> manager.lsps0_service() == Some(*own)),
        forall|handler: Option<&P::LSPS1ClientHandler>| #[trigger]
            call_ensures(
                LiquidityManager::<ES, CM, C, P>::lsps1_client_handler,
                (manager,),
                handler,
            ) ==> (handler is None ==> manager.lsps1_client() is None) && (handler matches Some(own)
                ==> manager.lsps1_client() == Some(*own)),
        forall|handler: Option<&P::LSPS1ServiceHandler>| #[trigger]
            call_ensures(
                LiquidityManager::<ES, CM, C, P>::lsps1_service_handler,
                (manager,),
                handler,
            ) ==> (handler is None ==> manager.lsps1_service() is None) && (handler matches Some(own)
                ==> manager.lsps1_service() == Some(*own)),
        forall|handler: Option<&P::LSPS2ClientHandler>| #[trigger]
            call_ensures(
                LiquidityManager::<ES, CM, C, P>::lsps2_client_handler,
                (manager,),
                handler,
            ) ==> (handler is None ==> manager.lsps2_client() is None) && (handler matches Some(own)
                ==> manager.lsps2_client() == Some(*own)),
        forall|handler: Option<&P::LSPS2ServiceHandler>| #[trigger]
            call_ensures(
                LiquidityManager::<ES, CM, C, P>::lsps2_service_handler,
                (manager,),
                handler,
            ) ==> (handler is None ==> manager.lsps2_service() is None) && (handler matches Some(own)
                ==> manager.lsps2_service() == Some(*own)),
        forall|callback: Option<&P::ProcessMsgsCallback>| #[trigger]
            call_ensures(
                LiquidityManager::<ES, CM, C, P>::process_msgs_callback,
                (manager,),
                callback,
            ) ==> (callback is None ==> manager.callback() is None) && (callback matches Some(own)
                ==> manager.callback() == Some(*own)),
{
}

/// The flags that a manager provides, for its node and for any peer alike, have the one feature
/// bit of the protocols set where it has a service configuration, and no other.
pub proof fn law_provided_features<ES, CM, C, P: LSPSProtocols<ES, CM, C>>(
    manager: &LiquidityManager<ES, CM, C, P>,
    their_node_id: &PublicKey,
    flags: Vec<u8>,
    bit: nat,
)
    requires
        call_ensures(LiquidityManager::<ES, CM, C, P>::provided_node_features, (manager,), flags)
            || call_ensures(
            LiquidityManager::<ES, CM, C, P>::provided_init_features,
            (manager, their_node_id),
            flags,
        ),
    ensures
        crate::features::has_feature(flags@, bit) <==> manager.service_config() is Some && bit
            == 729,
        manager.service_config() is Some ==> flags@.len() == 92,
        manager.service_config() is None ==> flags@.len() == 0,
{
    crate::laws::law_feature_bit_marks_a_service(*manager, flags@, bit);
}

/// A set callback is the one that the manager then has.
pub proof fn law_set_process_msgs_callback<ES, CM, C, P: LSPSProtocols<ES, CM, C>>(
    callback: P::ProcessMsgsCallback,
)
    ensures
        forall|manager: &mut LiquidityManager<ES, CM, C, P>| #[trigger]
            call_ensures(
                LiquidityManager::<ES, CM, C, P>::set_process_msgs_callback,
                (manager, callback),
                (),
            ) ==> LiquidityManager::got_callback(*manager, callback, *final(manager))
                && final(manager).callback() == Some(callback),
{
}

/// The next event is the oldest; all events are all that are pending, in order.
pub proof fn law_events_of_calls<ES, CM, C, P: LSPSProtocols<ES, CM, C>>(
    event: Option<P::Event>,
    events: Vec<P::Event>,
)
    ensures
        forall|manager: &mut LiquidityManager<ES, CM, C, P>| #[trigger]
            call_ensures(LiquidityManager::<ES, CM, C, P>::next_event, (manager,), event)
                ==> LiquidityManager::took_event(*manager, event, *final(manager)) && (event is None
                <==> manager.pending_events().len() == 0),
        forall|manager: &mut LiquidityManager<ES, CM, C, P>| #[trigger]
            call_ensures(
                LiquidityManager::<ES, CM, C, P>::get_and_clear_pending_events,
                (manager,),
                events,
            ) ==> LiquidityManager::took_all_events(*manager, events@, *final(manager)) && events@
                == manager.pending_events(),
{
}

// The manager, to its peers.

/// Taking in what a handler gave queues it, and passes its result on.
pub proof fn law_take_in<ES, CM, C, P: LSPSProtocols<ES, CM, C>>(
    outcome: HandlerOutcome<P::Event>,
    handled: Handled,
)
    ensures
        forall|manager: &mut LiquidityManager<ES, CM, C, P>| #[trigger]
            call_ensures(LiquidityManager::<ES, CM, C, P>::take_in, (manager, outcome), handled)
                ==> LiquidityManager::took_in(*manager, outcome, *final(manager), handled)
                && crate::laws::gained(*manager, outcome, *final(manager), handled),
{
}

/// A message, decoded or given directly, comes to the handler that it is for; one that could not
/// be decoded is answered with the notice that it was not understood, and no other is.
pub proof fn law_messages_of_calls<ES, CM, C, P: LSPSProtocols<ES, CM, C>>(
    msg: LSPSMessage,
    error: ParseError<ES, CM, C, P>,
    sender: &PublicKey,
    handled: Handled,
)
    ensures
        forall|manager: &mut LiquidityManager<ES, CM, C, P>| #[trigger]
            call_ensures(
                LiquidityManager::<ES, CM, C, P>::handle_lsps_message,
                (manager, msg, sender),
                handled,
            ) ==> LiquidityManager::processed(*manager, msg, *sender, *final(manager), handled),
        forall|manager: &mut LiquidityManager<ES, CM, C, P>| #[trigger]
            call_ensures(
                LiquidityManager::<ES, CM, C, P>::handle_parsed_message,
                (manager, Ok(msg), sender),
                handled,
            ) ==> LiquidityManager::processed(*manager, msg, *sender, *final(manager), handled),
        forall|manager: &mut LiquidityManager<ES, CM, C, P>| #[trigger]
            call_ensures(
                LiquidityManager::<ES, CM, C, P>::handle_parsed_message,
                (manager, Err(error), sender),
                handled,
            ) ==> handled.result is Ok && final(manager).pending_messages()
                == manager.pending_messages() + seq![(*sender, LSPSMessage::Invalid)]
                && LiquidityManager::answered(
                *manager,
                Err(error),
                *sender,
                *final(manager),
                handled,
            ),
{
    assert forall|manager: &mut LiquidityManager<ES, CM, C, P>| #[trigger]
        call_ensures(
            LiquidityManager::<ES, CM, C, P>::handle_parsed_message,
            (manager, Err(error), sender),
            handled,
        ) implies final(manager).pending_messages() == manager.pending_messages() + seq![
        (*sender, LSPSMessage::Invalid),
    ] by {
        assert(final(manager).pending_messages() =~= manager.pending_messages() + seq![
            (*sender, LSPSMessage::Invalid),
        ]);
    }
}

/// A message of a peer is decoded, its whole text, against the record of sent requests; what
/// that gave is answered to the same peer. Decoding touches the record alone.
pub proof fn law_handle_custom_message<ES, CM, C, P: LSPSProtocols<ES, CM, C>>(
    msg: RawLSPSMessage,
    sender: &PublicKey,
    handled: Handled,
)
    ensures
        forall|manager: &mut LiquidityManager<ES, CM, C, P>| #[trigger]
            call_ensures(
                LiquidityManager::<ES, CM, C, P>::handle_custom_message,
                (manager, msg, sender),
                handled,
            ) ==> exists|
                json_str: &str,
                map: &mut RequestIdMap,
                parsed: Result<LSPSMessage, ParseError<ES, CM, C, P>>,
                mid: LiquidityManager<ES, CM, C, P>,
            |
                #![trigger call_ensures(P::Format::from_str_with_id_map, (json_str, map), parsed), mid.same_but_record(*manager)]
                {
                    &&& json_str@ == msg.payload@
                    &&& *map == manager.request_id_map()
                    &&& call_ensures(P::Format::from_str_with_id_map, (json_str, map), parsed)
                    &&& mid.request_id_map() == *final(map)
                    &&& mid.same_but_record(*manager)
                    &&& mid.pending_messages() == manager.pending_messages()
                    &&& mid.pending_events() == manager.pending_events()
                    &&& mid.callback() == manager.callback()
                    &&& mid.best_block() == manager.best_block()
                    &&& crate::laws::parts_kept(*manager, mid)
                    &&& LiquidityManager::answered(mid, parsed, *sender, *final(manager), handled)
                },
{
}

/// The pending messages are handed out, each encoded and with its recipient, and their requests
/// are on record.
pub proof fn law_get_and_clear_pending_msg<ES, CM, C, P: LSPSProtocols<ES, CM, C>>(
    raw: Vec<(PublicKey, RawLSPSMessage)>,
)
    ensures
        forall|manager: &mut LiquidityManager<ES, CM, C, P>| #[trigger]
            call_ensures(
                LiquidityManager::<ES, CM, C, P>::get_and_clear_pending_msg,
                (manager,),
                raw,
            ) ==> LiquidityManager::handed_out(*manager, raw@, *final(manager)) && raw@.len()
                == manager.pending_messages().len() && final(manager).pending_messages().len() == 0,
{
}

/// Only a message of the one type is read, and then as the source gives it; for another type
/// there is none, and the source is left alone.
pub proof fn law_read<ES, CM, C, P: LSPSProtocols<ES, CM, C>, RD: RawMessageSource>(
    manager: &LiquidityManager<ES, CM, C, P>,
    message_type: u16,
    message: Result<Option<RawLSPSMessage>, RD::Error>,
)
    ensures
        forall|buffer: &mut RD| #[trigger]
            call_ensures(
                LiquidityManager::<ES, CM, C, P>::read::<RD>,
                (manager, message_type, buffer),
                message,
            ) && message_type != 37913 ==> message is Ok && message->Ok_0 is None && *final(buffer)
                == *buffer,
        forall|buffer: &mut RD| #[trigger]
            call_ensures(
                LiquidityManager::<ES, CM, C, P>::read::<RD>,
                (manager, message_type, buffer),
                message,
            ) && message_type == 37913 ==> exists|
                source: &mut RD,
                raw: Result<RawLSPSMessage, RD::Error>,
            |
                *source == *buffer && *final(source) == *final(buffer) && #[trigger] call_ensures(
                    RD::read_raw_message,
                    (source,),
                    raw,
                ) && (raw matches Ok(given) ==> message == Ok::<Option<RawLSPSMessage>, RD::Error>(
                    Some(given),
                )) && (raw matches Err(error) ==> message == Err::<
                    Option<RawLSPSMessage>,
                    RD::Error,
                >(error)),
{
}

// Messages and the record.

/// Every request, of whatever protocol, gives its id and its method whole; no other message
/// gives any.
pub proof fn law_get_request_id_and_method(
    msg: &LSPSMessage,
    id: RequestId,
    request: Request,
    found: Option<(String, String)>,
)
    requires
        call_ensures(LSPSMessage::get_request_id_and_method, (msg,), found),
    ensures
        *msg == LSPSMessage::LSPS0(LSPS0Message::Request(id, request)) || *msg
            == LSPSMessage::LSPS1(LSPS1Message::Request(id, request)) || *msg == LSPSMessage::LSPS2(
            LSPS2Message::Request(id, request),
        ) ==> (found matches Some((found_id, method)) && found_id@ == id.0@ && method@
            == request.method@),
        found is Some ==> crate::laws::requests_under(*msg, (found->0).0@),
{
}

/// A method that was recorded is found under its id, is found no more once it was removed, and
/// neither touches another id.
pub proof fn law_record_of_calls(
    id: String,
    method: String,
    wanted: &str,
    found: Option<&String>,
    removed: Option<String>,
)
    ensures
        forall|map: &mut RequestIdMap|
            #[trigger] call_ensures(RequestIdMap::insert, (map, id, method), ()) && call_ensures(
                RequestIdMap::get,
                (&*final(map), wanted),
                found,
            ) ==> {
                &&& wanted@ == id@ ==> (found matches Some(own) && own@ == method@)
                &&& wanted@ != id@ ==> (found is Some <==> map@.contains_key(wanted@))
                &&& wanted@ != id@ && found is Some ==> (found->0)@ == map@[wanted@]
            },
        forall|map: &mut RequestIdMap| #[trigger]
            call_ensures(RequestIdMap::remove, (map, wanted), removed) ==> {
                &&& removed is Some <==> map@.contains_key(wanted@)
                &&& removed is Some ==> (removed->0)@ == map@[wanted@]
                &&& !final(map)@.contains_key(wanted@)
                &&& forall|other: Seq<char>|
                    other != wanted@ ==> #[trigger] crate::laws::same_entry(
                        map@,
                        other,
                        final(map)@,
                    )
            },
{
}

// The queues.

/// A message joins its queue at the end and asks for the callback, if one is set, once; all
/// that is pending leaves together.
pub proof fn law_message_queue_of_calls<F>(
    node: &PublicKey,
    msg: LSPSMessage,
    messages: Vec<(PublicKey, LSPSMessage)>,
    calls: usize,
)
    ensures
        forall|queue: &mut MessageQueue<F>| #[trigger]
            call_ensures(MessageQueue::<F>::enqueue, (queue, node, msg), calls) ==> {
                &&& final(queue)@ == queue@ + seq![(*node, msg)]
                &&& final(queue).callback() == queue.callback()
                &&& queue.callback() is Some ==> calls == 1
                &&& queue.callback() is None ==> calls == 0
            },
        forall|queue: &mut MessageQueue<F>| #[trigger]
            call_ensures(MessageQueue::<F>::enqueue_all, (queue, messages), calls) ==> {
                &&& final(queue)@ == queue@ + messages@
                &&& final(queue).callback() == queue.callback()
                &&& queue.callback() is Some ==> calls == messages@.len()
                &&& queue.callback() is None ==> calls == 0
            },
        forall|queue: &mut MessageQueue<F>| #[trigger]
            call_ensures(MessageQueue::<F>::get_and_clear_pending_msgs, (queue,), messages) ==> {
                &&& messages@ == queue@
                &&& final(queue)@.len() == 0
                &&& final(queue).callback() == queue.callback()
            },
{
    assert forall|queue: &mut MessageQueue<F>| #[trigger]
        call_ensures(MessageQueue::<F>::enqueue, (queue, node, msg), calls) implies final(queue)@
        == queue@ + seq![(*node, msg)] by {
        assert(final(queue)@ =~= queue@ + seq![(*node, msg)]);
    }
}

/// Events join their queue at the end and leave it at the front.
pub proof fn law_event_queue_of_calls<E>(event: Option<E>, events: Vec<E>)
    ensures
        forall|queue: &mut EventQueue<E>| #[trigger]
            call_ensures(EventQueue::<E>::enqueue_all, (queue, events), ()) ==> final(queue)@
                == queue@ + events@,
        forall|queue: &mut EventQueue<E>| #[trigger]
            call_ensures(EventQueue::<E>::next_event, (queue,), event) ==> {
                &&& event is None <==> queue@.len() == 0
                &&& event is None ==> final(queue)@ == queue@
                &&& event is Some ==> queue@ == seq![event->0] + final(queue)@
            },
        forall|queue: &mut EventQueue<E>| #[trigger]
            call_ensures(EventQueue::<E>::get_and_clear_pending_events, (queue,), events)
                ==> events@ == queue@ && final(queue)@.len() == 0,
{
    assert forall|queue: &mut EventQueue<E>| #[trigger]
        call_ensures(EventQueue::<E>::next_event, (queue,), event)
            && event is Some implies queue@ == seq![event->0] + final(queue)@ by {
        assert(queue@ =~= seq![event->0] + final(queue)@);
    }
}

// Keys and errors.

/// What a key is read from and what it is written as agree: its bytes are the compressed form of
/// what was read, and read as the same key; its text is these bytes in hexadecimal.
pub proof fn law_key_of_calls(
    data: &[u8],
    key: PublicKey,
    serialized: [u8; 33],
    shown: String,
    debugged: String,
)
    requires
        call_ensures(PublicKey::from_slice, (data,), Some(key)),
        call_ensures(PublicKey::serialize, (&key,), serialized),
        call_ensures(PublicKey::display, (&key,), shown),
        call_ensures(PublicKey::debug, (&key,), debugged),
    ensures
        crate::key::parsed_public_key(data@) == Some(serialized@),
        crate::key::parsed_public_key(serialized@) == Some(serialized@),
        shown@ == crate::key::lower_hex(serialized@),
        crate::key::is_debug_text(debugged@),
        key.shown_as(debugged@),
{
}

/// Bytes that are no key are not read.
pub proof fn law_no_key(data: &[u8])
    requires
        call_ensures(PublicKey::from_slice, (data,), None),
    ensures
        crate::key::parsed_public_key(data@) is None,
{
}

/// The error of a refusal is one to be ignored and logged, as an error where the peer did not
/// understand us and as information otherwise, with the text of the refusal.
pub proof fn law_errors_of_calls(
    refusal: Refusal,
    node: &str,
    sender: &PublicKey,
    error: LightningError,
)
    ensures
        call_ensures(Refusal::error_showing, (refusal, node), error) ==> {
            &&& error.err@ == refusal.text(node@)
            &&& refusal == Refusal::NotUnderstood <==> error.action == ErrorAction::IgnoreAndLog(
                Level::Error,
            )
            &&& refusal != Refusal::NotUnderstood <==> error.action == ErrorAction::IgnoreAndLog(
                Level::Info,
            )
        },
        call_ensures(Refusal::error, (refusal, sender), error) ==> {
            &&& refusal.reported_as(*sender, error)
            &&& refusal == Refusal::NotUnderstood <==> error.action == ErrorAction::IgnoreAndLog(
                Level::Error,
            )
            &&& refusal != Refusal::NotUnderstood <==> error.action == ErrorAction::IgnoreAndLog(
                Level::Info,
            )
        },
{
}

// Blocks.

/// Two hashes are the same where all their bytes are.
pub proof fn law_same_hash(left: &BlockHash, right: &BlockHash, equal: bool)
    requires
        call_ensures(BlockHash::same, (left, right), equal),
    ensures
        equal <==> left.bytes@ == right.bytes@,
{
}

/// The hash of a block is that of all the fields of its header.
pub proof fn law_block_hash(header: &Header, hash: BlockHash)
    requires
        call_ensures(Header::block_hash, (header,), hash),
    ensures
        hash.bytes@ == crate::chain::block_hash_of(
            header.version,
            header.prev_blockhash.bytes@,
            header.merkle_root@,
            header.time,
            header.bits,
            header.nonce,
        ),
{
}

/// A block is connected, with nothing changed, exactly where no tip is tracked or it builds on
/// the tip, one higher.
pub proof fn law_try_filtered_block_connected<ES, CM, C, P: LSPSProtocols<ES, CM, C>, TX>(
    header: &Header,
    txdata: &[(usize, TX)],
    height: u32,
    connected: Result<(), ChainOrderError>,
)
    ensures
        forall|manager: &mut LiquidityManager<ES, CM, C, P>| #[trigger]
            call_ensures(
                LiquidityManager::<ES, CM, C, P>::try_filtered_block_connected::<TX>,
                (manager, header, txdata, height),
                connected,
            ) ==> {
                &&& *final(manager) == *manager
                &&& connected is Ok <==> (manager.best_block() matches Some(tip)
                    ==> tip.block_hash.bytes@ == header.prev_blockhash.bytes@ && height == tip.height
                    + 1)
                &&& connected == Err::<(), ChainOrderError>(ChainOrderError::ConnectedHash) <==> (
                manager.best_block() matches Some(tip) && tip.block_hash.bytes@
                    != header.prev_blockhash.bytes@)
                &&& connected == Err::<(), ChainOrderError>(ChainOrderError::ConnectedHeight) <==> (
                manager.best_block() matches Some(tip) && tip.block_hash.bytes@
                    == header.prev_blockhash.bytes@ && height != tip.height + 1)
            },
{
}

/// A block is disconnected exactly where it is not the first and, where a tip is tracked, is
/// that tip at its height. The tip then goes back to the block below; where none is tracked,
/// none is tracked after. In any other case nothing changes.
pub proof fn law_try_block_disconnected<ES, CM, C, P: LSPSProtocols<ES, CM, C>>(
    header: &Header,
    height: u32,
    disconnected: Result<(), ChainOrderError>,
)
    ensures
        forall|manager: &mut LiquidityManager<ES, CM, C, P>| #[trigger]
            call_ensures(
                LiquidityManager::<ES, CM, C, P>::try_block_disconnected,
                (manager, header, height),
                disconnected,
            ) ==> {
                &&& disconnected is Ok <==> height > 0 && (manager.best_block() matches Some(tip)
                    ==> tip.block_hash.bytes@ == header.hash() && tip.height == height)
                &&& disconnected == Err::<(), ChainOrderError>(ChainOrderError::DisconnectedGenesis)
                    <==> height == 0
                &&& disconnected == Err::<(), ChainOrderError>(ChainOrderError::DisconnectedHash)
                    <==> height > 0 && (manager.best_block() matches Some(tip)
                    && tip.block_hash.bytes@ != header.hash())
                &&& disconnected == Err::<(), ChainOrderError>(ChainOrderError::DisconnectedHeight)
                    <==> height > 0 && (manager.best_block() matches Some(tip)
                    && tip.block_hash.bytes@ == header.hash() && tip.height != height)
                &&& disconnected is Err ==> *final(manager) == *manager
                &&& disconnected is Ok ==> LiquidityManager::went_back(
                    *manager,
                    *header,
                    height,
                    *final(manager),
                )
                &&& final(manager).best_block() is Some <==> manager.best_block() is Some
                &&& disconnected is Ok && manager.best_block() is Some ==> (
                final(manager).best_block() matches Some(tip) && tip.block_hash
                    == header.prev_blockhash && tip.height == height - 1)
            },
{
}

/// Taking a block off moves a tracked tip to the block below, and tracks none where none was
/// tracked, so that any block can be connected there at any height.
pub proof fn law_block_disconnected<ES, CM, C, P: LSPSProtocols<ES, CM, C>>(
    header: &Header,
    height: u32,
    next: Header,
    next_height: u32,
)
    ensures
        forall|manager: &mut LiquidityManager<ES, CM, C, P>| #[trigger]
            call_ensures(
                LiquidityManager::<ES, CM, C, P>::block_disconnected,
                (manager, header, height),
                (),
            ) ==> {
                &&& LiquidityManager::went_back(*manager, *header, height, *final(manager))
                &&& manager.best_block() is None ==> final(manager).best_block() is None
                &&& manager.best_block() is None ==> crate::chain::connect_error(
                    final(manager).best_block(),
                    next,
                    next_height,
                ) is None
                &&& manager.best_block() is Some && height > 0 ==> (
                final(manager).best_block() matches Some(tip) && tip.block_hash
                    == header.prev_blockhash && tip.height == height - 1)
            },
{
}

/// Connecting a block, confirming or unconfirming transactions and a new tip change nothing, and
/// no transaction is followed.
pub proof fn law_no_protocol_follows_the_chain<ES, CM, C, P: LSPSProtocols<ES, CM, C>, TX>(
    this: &LiquidityManager<ES, CM, C, P>,
    header: &Header,
    txdata: &[(usize, TX)],
    txid: &[u8; 32],
    height: u32,
    txids: Vec<([u8; 32], u32, Option<BlockHash>)>,
)
    ensures
        forall|manager: &mut LiquidityManager<ES, CM, C, P>| #[trigger]
            call_ensures(
                LiquidityManager::<ES, CM, C, P>::filtered_block_connected::<TX>,
                (manager, header, txdata, height),
                (),
            ) ==> *final(manager) == *manager,
        forall|manager: &mut LiquidityManager<ES, CM, C, P>| #[trigger]
            call_ensures(
                LiquidityManager::<ES, CM, C, P>::transactions_confirmed::<TX>,
                (manager, header, txdata, height),
                (),
            ) ==> *final(manager) == *manager,
        forall|manager: &mut LiquidityManager<ES, CM, C, P>| #[trigger]
            call_ensures(
                LiquidityManager::<ES, CM, C, P>::transaction_unconfirmed,
                (manager, txid),
                (),
            ) ==> *final(manager) == *manager,
        forall|manager: &mut LiquidityManager<ES, CM, C, P>| #[trigger]
            call_ensures(
                LiquidityManager::<ES, CM, C, P>::best_block_updated,
                (manager, header, height),
                (),
            ) ==> *final(manager) == *manager,
        call_ensures(LiquidityManager::<ES, CM, C, P>::get_relevant_txids, (this,), txids)
            ==> txids@.len() == 0,
{
}

/// What the checks find is what is wrong with the block.
pub proof fn law_checks_of_calls(
    best_block: &Option<crate::chain::BestBlock>,
    header: &Header,
    height: u32,
    error: Option<ChainOrderError>,
)
    ensures
        call_ensures(check_connect, (best_block, header, height), error) ==> error
            == crate::chain::connect_error(*best_block, *header, height),
        call_ensures(check_disconnect, (best_block, header, height), error) ==> error
            == crate::chain::disconnect_error(*best_block, *header, height),
{
}

} // verus!
