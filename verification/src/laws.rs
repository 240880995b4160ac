//! What holds of the manager as a whole.

use vstd::prelude::*;
use crate::chain::{BestBlock, ChainOrderError, Header};
use crate::errors::{ErrorAction, Level, LightningError, Refusal};
use crate::key::PublicKey;
use crate::manager::{LiquidityManager, ParseError};
use crate::messages::{
    LSPS0Message, LSPS1Message, LSPS2Message, LSPSMessage, RawLSPSMessage, Request, RequestId,
    RequestIdMap, Response,
};
use crate::protocols::{
    Handled, HandlerOutcome, LSPSProtocols, MessageFormat, ProtocolMessageHandler,
};
use crate::queues::MessageQueue;

verus! {

// The words in which the laws are put.

/// The handlers, the configurations and the chain source of `post` are those of `pre`.
pub open spec fn parts_kept<ES, CM, C, P: LSPSProtocols<ES, CM, C>>(
    pre: LiquidityManager<ES, CM, C, P>,
    post: LiquidityManager<ES, CM, C, P>,
) -> bool {
    &&& post.lsps0_client() == pre.lsps0_client()
    &&& post.lsps0_service() == pre.lsps0_service()
    &&& post.lsps1_client() == pre.lsps1_client()
    &&& post.lsps1_service() == pre.lsps1_service()
    &&& post.lsps2_client() == pre.lsps2_client()
    &&& post.lsps2_service() == pre.lsps2_service()
    &&& post.service_config() == pre.service_config()
    &&& post.client_config() == pre.client_config()
    &&& post.chain_source() == pre.chain_source()
}

/// `post` is `pre` with what a handler gave: its messages and its events at the ends of the
/// queues, its result as that of the manager, and a call of the callback due for each message
/// if one is set. All else is as it was.
pub open spec fn gained<ES, CM, C, P: LSPSProtocols<ES, CM, C>>(
    pre: LiquidityManager<ES, CM, C, P>,
    outcome: HandlerOutcome<P::Event>,
    post: LiquidityManager<ES, CM, C, P>,
    handled: Handled,
) -> bool {
    &&& post.pending_messages() == pre.pending_messages() + outcome.messages@
    &&& post.pending_events() == pre.pending_events() + outcome.events@
    &&& post.request_id_map() == pre.request_id_map()
    &&& post.callback() == pre.callback()
    &&& post.best_block() == pre.best_block()
    &&& parts_kept(pre, post)
    &&& handled.result == outcome.result
    &&& pre.callback() is Some ==> handled.callback_calls == outcome.messages@.len()
    &&& pre.callback() is None ==> handled.callback_calls == 0
}

/// The manager did not change, and reported an error of the given level whose text is `text`
/// followed by the debugging form of the sender.
pub open spec fn turned_away<ES, CM, C, P: LSPSProtocols<ES, CM, C>>(
    pre: LiquidityManager<ES, CM, C, P>,
    text: Seq<char>,
    sender: PublicKey,
    post: LiquidityManager<ES, CM, C, P>,
    handled: Handled,
) -> bool {
    &&& post == pre
    &&& handled.callback_calls == 0
    &&& handled.result matches Err(error) && error.action == ErrorAction::IgnoreAndLog(Level::Info)
        && exists|node: Seq<char>| #[trigger]
        sender.shown_as(node) && crate::key::is_debug_text(node) && error.err@ == text + node
}

/// `msg` is a request with the given id, of whatever protocol.
pub open spec fn requests_under(msg: LSPSMessage, request_id: Seq<char>) -> bool {
    match msg {
        LSPSMessage::LSPS0(LSPS0Message::Request(id, _)) => id.0@ == request_id,
        LSPSMessage::LSPS1(LSPS1Message::Request(id, _)) => id.0@ == request_id,
        LSPSMessage::LSPS2(LSPS2Message::Request(id, _)) => id.0@ == request_id,
        _ => false,
    }
}

/// No message of `messages` is a request with the given id.
pub open spec fn no_request_with(
    messages: Seq<(PublicKey, LSPSMessage)>,
    request_id: Seq<char>,
) -> bool {
    forall|j: int|
        0 <= j < messages.len() ==> !requests_under((#[trigger] messages[j]).1, request_id)
}

/// `after` holds for the given id what `before` holds for it.
pub open spec fn same_entry(
    before: Map<Seq<char>, Seq<char>>,
    request_id: Seq<char>,
    after: Map<Seq<char>, Seq<char>>,
) -> bool {
    &&& after.contains_key(request_id) == before.contains_key(request_id)
    &&& before.contains_key(request_id) ==> after[request_id] == before[request_id]
}

/// `post` follows `pre` by an operation that neither hands out nor decodes messages.
pub open spec fn keeps_record<ES, CM, C, P: LSPSProtocols<ES, CM, C>>(
    pre: LiquidityManager<ES, CM, C, P>,
    post: LiquidityManager<ES, CM, C, P>,
) -> bool {
    ||| post == pre
    ||| exists|outcome: HandlerOutcome<P::Event>, handled: Handled| #[trigger]
        LiquidityManager::took_in(pre, outcome, post, handled)
    ||| exists|
        parsed: Result<LSPSMessage, ParseError<ES, CM, C, P>>,
        sender: PublicKey,
        handled: Handled,
    | #[trigger]
        LiquidityManager::answered(pre, parsed, sender, post, handled)
    ||| exists|msg: LSPSMessage, sender: PublicKey, handled: Handled| #[trigger]
        LiquidityManager::processed(pre, msg, sender, post, handled)
    ||| exists|event: Option<P::Event>| #[trigger] LiquidityManager::took_event(pre, event, post)
    ||| exists|events: Seq<P::Event>| #[trigger]
        LiquidityManager::took_all_events(pre, events, post)
    ||| exists|callback: P::ProcessMsgsCallback| #[trigger]
        LiquidityManager::got_callback(pre, callback, post)
    ||| exists|header: Header, height: u32| #[trigger]
        LiquidityManager::went_back(pre, header, height, post)
}

/// `post` follows `pre` by one operation of the manager. Handling a message of a peer is two of
/// these: decoding it, and answering what that gave.
pub open spec fn follows<ES, CM, C, P: LSPSProtocols<ES, CM, C>>(
    pre: LiquidityManager<ES, CM, C, P>,
    post: LiquidityManager<ES, CM, C, P>,
) -> bool {
    ||| keeps_record(pre, post)
    ||| exists|raw: Seq<(PublicKey, RawLSPSMessage)>| #[trigger]
        LiquidityManager::handed_out(pre, raw, post)
    ||| post.same_but_record(pre)
}

/// `post` follows `pre` by one operation of the manager, in which no request with the given id
/// is handed out, and decoding, if the operation decodes, leaves that id alone.
pub open spec fn leaves_alone<ES, CM, C, P: LSPSProtocols<ES, CM, C>>(
    pre: LiquidityManager<ES, CM, C, P>,
    request_id: Seq<char>,
    post: LiquidityManager<ES, CM, C, P>,
) -> bool {
    ||| keeps_record(pre, post)
    ||| no_request_with(pre.pending_messages(), request_id) && exists|
        raw: Seq<(PublicKey, RawLSPSMessage)>,
    | #[trigger]
        LiquidityManager::handed_out(pre, raw, post)
    ||| post.same_but_record(pre) && same_entry(pre.request_ids(), request_id, post.request_ids())
}

/// The value of a lower-case hexadecimal digit; -1 for any other character.
pub open spec fn digit_value(digit: char) -> int {
    if '0' <= digit <= '9' {
        digit as int - '0' as int
    } else if 'a' <= digit <= 'f' {
        digit as int - 'a' as int + 10
    } else {
        -1
    }
}

// Where a message goes.

/// A response of LSPS0, decoded or given directly, is handed to the LSPS0 client together with
/// its sender, and what the client gave is what comes of it.
pub proof fn law_lsps0_response_goes_to_the_client<ES, CM, C, P: LSPSProtocols<ES, CM, C>>(
    pre: LiquidityManager<ES, CM, C, P>,
    id: RequestId,
    response: Response,
    sender: PublicKey,
    post: LiquidityManager<ES, CM, C, P>,
    handled: Handled,
)
    requires
        ({
            let msg = LSPSMessage::LSPS0(LSPS0Message::Response(id, response));
            ||| LiquidityManager::processed(pre, msg, sender, post, handled)
            ||| LiquidityManager::answered(pre, Ok(msg), sender, post, handled)
        }),
    ensures
        exists|outcome: HandlerOutcome<P::Event>|
            call_ensures(
                P::LSPS0ClientHandler::handle_message,
                (&pre.lsps0_client(), LSPS0Message::Response(id, response), &sender),
                outcome,
            ) && #[trigger] gained(pre, outcome, post, handled),
{
    let msg = LSPSMessage::LSPS0(LSPS0Message::Response(id, response));
    let outcome = choose|outcome: HandlerOutcome<P::Event>| #[trigger]
        pre.delivered(msg, sender, outcome) && LiquidityManager::took_in(
            pre,
            outcome,
            post,
            handled,
        );
    assert(gained(pre, outcome, post, handled));
}

/// A request of LSPS0 is handed to the LSPS0 service together with its sender, and what the
/// service gave is what comes of it; where there is no such service, the request is turned away.
pub proof fn law_lsps0_request_goes_to_the_service<ES, CM, C, P: LSPSProtocols<ES, CM, C>>(
    pre: LiquidityManager<ES, CM, C, P>,
    id: RequestId,
    request: Request,
    sender: PublicKey,
    post: LiquidityManager<ES, CM, C, P>,
    handled: Handled,
)
    requires
        ({
            let msg = LSPSMessage::LSPS0(LSPS0Message::Request(id, request));
            ||| LiquidityManager::processed(pre, msg, sender, post, handled)
            ||| LiquidityManager::answered(pre, Ok(msg), sender, post, handled)
        }),
    ensures
        pre.lsps0_service() matches Some(handler) ==> exists|outcome: HandlerOutcome<P::Event>|
            call_ensures(
                P::LSPS0ServiceHandler::handle_message,
                (&handler, LSPS0Message::Request(id, request), &sender),
                outcome,
            ) && #[trigger] gained(pre, outcome, post, handled),
        pre.lsps0_service() is None ==> turned_away(
            pre,
            "Received LSPS0 request message without LSPS0 service handler configured. From node = "@,
            sender,
            post,
            handled,
        ),
{
    let msg = LSPSMessage::LSPS0(LSPS0Message::Request(id, request));
    if pre.lsps0_service() is Some {
        let outcome = choose|outcome: HandlerOutcome<P::Event>| #[trigger]
            pre.delivered(msg, sender, outcome) && LiquidityManager::took_in(
                pre,
                outcome,
                post,
                handled,
            );
        assert(gained(pre, outcome, post, handled));
    } else {
        lemma_turned_away(pre, Refusal::NoLSPS0Service, sender, post, handled);
    }
}

/// A response of LSPS1 is handed to the LSPS1 client together with its sender, and what the
/// client gave is what comes of it; where there is no such client, the response is turned away.
pub proof fn law_lsps1_response_goes_to_the_client<ES, CM, C, P: LSPSProtocols<ES, CM, C>>(
    pre: LiquidityManager<ES, CM, C, P>,
    id: RequestId,
    response: Response,
    sender: PublicKey,
    post: LiquidityManager<ES, CM, C, P>,
    handled: Handled,
)
    requires
        ({
            let msg = LSPSMessage::LSPS1(LSPS1Message::Response(id, response));
            ||| LiquidityManager::processed(pre, msg, sender, post, handled)
            ||| LiquidityManager::answered(pre, Ok(msg), sender, post, handled)
        }),
    ensures
        pre.lsps1_client() matches Some(handler) ==> exists|outcome: HandlerOutcome<P::Event>|
            call_ensures(
                P::LSPS1ClientHandler::handle_message,
                (&handler, LSPS1Message::Response(id, response), &sender),
                outcome,
            ) && #[trigger] gained(pre, outcome, post, handled),
        pre.lsps1_client() is None ==> turned_away(
            pre,
            "Received LSPS1 response message without LSPS1 client handler configured. From node = "@,
            sender,
            post,
            handled,
        ),
{
    let msg = LSPSMessage::LSPS1(LSPS1Message::Response(id, response));
    if pre.lsps1_client() is Some {
        let outcome = choose|outcome: HandlerOutcome<P::Event>| #[trigger]
            pre.delivered(msg, sender, outcome) && LiquidityManager::took_in(
                pre,
                outcome,
                post,
                handled,
            );
        assert(gained(pre, outcome, post, handled));
    } else {
        lemma_turned_away(pre, Refusal::NoLSPS1Client, sender, post, handled);
    }
}

/// A request of LSPS1 is handed to the LSPS1 service together with its sender, and what the
/// service gave is what comes of it; where there is no such service, the request is turned away.
pub proof fn law_lsps1_request_goes_to_the_service<ES, CM, C, P: LSPSProtocols<ES, CM, C>>(
    pre: LiquidityManager<ES, CM, C, P>,
    id: RequestId,
    request: Request,
    sender: PublicKey,
    post: LiquidityManager<ES, CM, C, P>,
    handled: Handled,
)
    requires
        ({
            let msg = LSPSMessage::LSPS1(LSPS1Message::Request(id, request));
            ||| LiquidityManager::processed(pre, msg, sender, post, handled)
            ||| LiquidityManager::answered(pre, Ok(msg), sender, post, handled)
        }),
    ensures
        pre.lsps1_service() matches Some(handler) ==> exists|outcome: HandlerOutcome<P::Event>|
            call_ensures(
                P::LSPS1ServiceHandler::handle_message,
                (&handler, LSPS1Message::Request(id, request), &sender),
                outcome,
            ) && #[trigger] gained(pre, outcome, post, handled),
        pre.lsps1_service() is None ==> turned_away(
            pre,
            "Received LSPS1 request message without LSPS1 service handler configured. From node = "@,
            sender,
            post,
            handled,
        ),
{
    let msg = LSPSMessage::LSPS1(LSPS1Message::Request(id, request));
    if pre.lsps1_service() is Some {
        let outcome = choose|outcome: HandlerOutcome<P::Event>| #[trigger]
            pre.delivered(msg, sender, outcome) && LiquidityManager::took_in(
                pre,
                outcome,
                post,
                handled,
            );
        assert(gained(pre, outcome, post, handled));
    } else {
        lemma_turned_away(pre, Refusal::NoLSPS1Service, sender, post, handled);
    }
}

/// A response of LSPS2 is handed to the LSPS2 client together with its sender, and what the
/// client gave is what comes of it; where there is no such client, the response is turned away.
pub proof fn law_lsps2_response_goes_to_the_client<ES, CM, C, P: LSPSProtocols<ES, CM, C>>(
    pre: LiquidityManager<ES, CM, C, P>,
    id: RequestId,
    response: Response,
    sender: PublicKey,
    post: LiquidityManager<ES, CM, C, P>,
    handled: Handled,
)
    requires
        ({
            let msg = LSPSMessage::LSPS2(LSPS2Message::Response(id, response));
            ||| LiquidityManager::processed(pre, msg, sender, post, handled)
            ||| LiquidityManager::answered(pre, Ok(msg), sender, post, handled)
        }),
    ensures
        pre.lsps2_client() matches Some(handler) ==> exists|outcome: HandlerOutcome<P::Event>|
            call_ensures(
                P::LSPS2ClientHandler::handle_message,
                (&handler, LSPS2Message::Response(id, response), &sender),
                outcome,
            ) && #[trigger] gained(pre, outcome, post, handled),
        pre.lsps2_client() is None ==> turned_away(
            pre,
            "Received LSPS2 response message without LSPS2 client handler configured. From node = "@,
            sender,
            post,
            handled,
        ),
{
    let msg = LSPSMessage::LSPS2(LSPS2Message::Response(id, response));
    if pre.lsps2_client() is Some {
        let outcome = choose|outcome: HandlerOutcome<P::Event>| #[trigger]
            pre.delivered(msg, sender, outcome) && LiquidityManager::took_in(
                pre,
                outcome,
                post,
                handled,
            );
        assert(gained(pre, outcome, post, handled));
    } else {
        lemma_turned_away(pre, Refusal::NoLSPS2Client, sender, post, handled);
    }
}

/// A request of LSPS2 is handed to the LSPS2 service together with its sender, and what the
/// service gave is what comes of it; where there is no such service, the request is turned away.
pub proof fn law_lsps2_request_goes_to_the_service<ES, CM, C, P: LSPSProtocols<ES, CM, C>>(
    pre: LiquidityManager<ES, CM, C, P>,
    id: RequestId,
    request: Request,
    sender: PublicKey,
    post: LiquidityManager<ES, CM, C, P>,
    handled: Handled,
)
    requires
        ({
            let msg = LSPSMessage::LSPS2(LSPS2Message::Request(id, request));
            ||| LiquidityManager::processed(pre, msg, sender, post, handled)
            ||| LiquidityManager::answered(pre, Ok(msg), sender, post, handled)
        }),
    ensures
        pre.lsps2_service() matches Some(handler) ==> exists|outcome: HandlerOutcome<P::Event>|
            call_ensures(
                P::LSPS2ServiceHandler::handle_message,
                (&handler, LSPS2Message::Request(id, request), &sender),
                outcome,
            ) && #[trigger] gained(pre, outcome, post, handled),
        pre.lsps2_service() is None ==> turned_away(
            pre,
            "Received LSPS2 request message without LSPS2 service handler configured. From node = "@,
            sender,
            post,
            handled,
        ),
{
    let msg = LSPSMessage::LSPS2(LSPS2Message::Request(id, request));
    if pre.lsps2_service() is Some {
        let outcome = choose|outcome: HandlerOutcome<P::Event>| #[trigger]
            pre.delivered(msg, sender, outcome) && LiquidityManager::took_in(
                pre,
                outcome,
                post,
                handled,
            );
        assert(gained(pre, outcome, post, handled));
    } else {
        lemma_turned_away(pre, Refusal::NoLSPS2Service, sender, post, handled);
    }
}

/// The configurations decide where a message goes. Where they ask for the handler that it is
/// for, what that handler gave is what comes of it, whatever else is configured: the manager
/// itself drops no message that decodes, and answers none. Where they do not, the message is
/// reported, and nothing changes.
pub proof fn law_configuration_decides_where_messages_go<
    ES,
    CM,
    C,
    P: LSPSProtocols<ES, CM, C>,
>(
    pre: LiquidityManager<ES, CM, C, P>,
    msg: LSPSMessage,
    sender: PublicKey,
    post: LiquidityManager<ES, CM, C, P>,
    handled: Handled,
)
    requires
        pre.configured(),
        LiquidityManager::processed(pre, msg, sender, post, handled)
            || LiquidityManager::answered(pre, Ok(msg), sender, post, handled),
    ensures
        match msg {
            LSPSMessage::Invalid => post == pre && handled.result is Err && handled.callback_calls == 0,
            LSPSMessage::LSPS0(m) => match m {
                LSPS0Message::Response(..) => exists|outcome: HandlerOutcome<P::Event>|
                    call_ensures(
                        P::LSPS0ClientHandler::handle_message,
                        (&pre.lsps0_client(), m, &sender),
                        outcome,
                    ) && #[trigger] gained(pre, outcome, post, handled),
                LSPS0Message::Request(..) => if pre.service_config() is Some {
                    exists|outcome: HandlerOutcome<P::Event>|
                    call_ensures(
                        P::LSPS0ServiceHandler::handle_message,
                        (&pre.lsps0_service()->0, m, &sender),
                        outcome,
                    ) && #[trigger] gained(pre, outcome, post, handled)
                } else {
                    post == pre && handled.result is Err && handled.callback_calls == 0
                },
            },
            LSPSMessage::LSPS1(m) => match m {
                LSPS1Message::Response(..) => if pre.client_config() is Some
                    && pre.client_config()->0.lsps1_client_config is Some {
                    exists|outcome: HandlerOutcome<P::Event>|
                    call_ensures(
                        P::LSPS1ClientHandler::handle_message,
                        (&pre.lsps1_client()->0, m, &sender),
                        outcome,
                    ) && #[trigger] gained(pre, outcome, post, handled)
                } else {
                    post == pre && handled.result is Err && handled.callback_calls == 0
                },
                LSPS1Message::Request(..) => if pre.service_config() is Some
                    && pre.service_config()->0.lsps1_service_config is Some {
                    exists|outcome: HandlerOutcome<P::Event>|
                    call_ensures(
                        P::LSPS1ServiceHandler::handle_message,
                        (&pre.lsps1_service()->0, m, &sender),
                        outcome,
                    ) && #[trigger] gained(pre, outcome, post, handled)
                } else {
                    post == pre && handled.result is Err && handled.callback_calls == 0
                },
            },
            LSPSMessage::LSPS2(m) => match m {
                LSPS2Message::Response(..) => if pre.client_config() is Some
                    && pre.client_config()->0.lsps2_client_config is Some {
                    exists|outcome: HandlerOutcome<P::Event>|
                    call_ensures(
                        P::LSPS2ClientHandler::handle_message,
                        (&pre.lsps2_client()->0, m, &sender),
                        outcome,
                    ) && #[trigger] gained(pre, outcome, post, handled)
                } else {
                    post == pre && handled.result is Err && handled.callback_calls == 0
                },
                LSPS2Message::Request(..) => if pre.service_config() is Some
                    && pre.service_config()->0.lsps2_service_config is Some {
                    exists|outcome: HandlerOutcome<P::Event>|
                    call_ensures(
                        P::LSPS2ServiceHandler::handle_message,
                        (&pre.lsps2_service()->0, m, &sender),
                        outcome,
                    ) && #[trigger] gained(pre, outcome, post, handled)
                } else {
                    post == pre && handled.result is Err && handled.callback_calls == 0
                },
            },
        },
{
    match msg {
        LSPSMessage::Invalid => {},
        LSPSMessage::LSPS0(LSPS0Message::Response(id, response)) => {
            law_lsps0_response_goes_to_the_client(pre, id, response, sender, post, handled);
        },
        LSPSMessage::LSPS0(LSPS0Message::Request(id, request)) => {
            law_lsps0_request_goes_to_the_service(pre, id, request, sender, post, handled);
        },
        LSPSMessage::LSPS1(LSPS1Message::Response(id, response)) => {
            law_lsps1_response_goes_to_the_client(pre, id, response, sender, post, handled);
        },
        LSPSMessage::LSPS1(LSPS1Message::Request(id, request)) => {
            law_lsps1_request_goes_to_the_service(pre, id, request, sender, post, handled);
        },
        LSPSMessage::LSPS2(LSPS2Message::Response(id, response)) => {
            law_lsps2_response_goes_to_the_client(pre, id, response, sender, post, handled);
        },
        LSPSMessage::LSPS2(LSPS2Message::Request(id, request)) => {
            law_lsps2_request_goes_to_the_service(pre, id, request, sender, post, handled);
        },
    }
}

proof fn lemma_turned_away<ES, CM, C, P: LSPSProtocols<ES, CM, C>>(
    pre: LiquidityManager<ES, CM, C, P>,
    refusal: Refusal,
    sender: PublicKey,
    post: LiquidityManager<ES, CM, C, P>,
    handled: Handled,
)
    requires
        refusal != Refusal::NotUnderstood,
        post == pre,
        handled.result matches Err(error) && refusal.reported_as(sender, error),
        handled.callback_calls == 0,
    ensures
        forall|text: Seq<char>|
            (forall|node: Seq<char>| #[trigger] refusal.text(node) == text + node)
                ==> #[trigger] turned_away(pre, text, sender, post, handled),
{
    let error = handled.result->Err_0;
    let node = choose|node: Seq<char>| #[trigger]
        refusal.shows(sender, node) && error.err@ == refusal.text(node);
    assert(sender.shown_as(node) && crate::key::is_debug_text(node));
    assert forall|text: Seq<char>|
        (forall|node: Seq<char>| #[trigger]
            refusal.text(node) == text + node) implies #[trigger] turned_away(
        pre,
        text,
        sender,
        post,
        handled,
    ) by {
        assert(refusal.text(node) == text + node);
    }
}

/// A refused message leaves the manager as it was: it is only reported, to be logged.
pub proof fn law_refusal_changes_nothing<ES, CM, C, P: LSPSProtocols<ES, CM, C>>(
    pre: LiquidityManager<ES, CM, C, P>,
    msg: LSPSMessage,
    sender: PublicKey,
    post: LiquidityManager<ES, CM, C, P>,
    handled: Handled,
)
    requires
        LiquidityManager::processed(pre, msg, sender, post, handled),
        pre.refusal(msg) is Some,
    ensures
        post == pre,
        handled.callback_calls == 0,
        handled.result matches Err(error) && error.action is IgnoreAndLog,
{
}

/// What each refusal says, given the text that shows the sender, and at which level.
pub proof fn law_refusals_in_words(refusal: Refusal, node: Seq<char>)
    ensures
        refusal.level() == Level::Error <==> refusal == Refusal::NotUnderstood,
        refusal.level() == Level::Info <==> refusal != Refusal::NotUnderstood,
        refusal == Refusal::NotUnderstood ==> refusal.text(node) == node
            + " did not understand a message we previously sent, maybe they don't support a protocol we are trying to use?"@,
        refusal == Refusal::NoLSPS0Service ==> refusal.text(node)
            == "Received LSPS0 request message without LSPS0 service handler configured. From node = "@
            + node,
        refusal == Refusal::NoLSPS1Client ==> refusal.text(node)
            == "Received LSPS1 response message without LSPS1 client handler configured. From node = "@
            + node,
        refusal == Refusal::NoLSPS1Service ==> refusal.text(node)
            == "Received LSPS1 request message without LSPS1 service handler configured. From node = "@
            + node,
        refusal == Refusal::NoLSPS2Client ==> refusal.text(node)
            == "Received LSPS2 response message without LSPS2 client handler configured. From node = "@
            + node,
        refusal == Refusal::NoLSPS2Service ==> refusal.text(node)
            == "Received LSPS2 request message without LSPS2 service handler configured. From node = "@
            + node,
{
}

/// The error of a refusal shows the sender: the key in hexadecimal in the one that the peer did
/// not understand us, and what writing the key in its debugging form gave in any other.
pub proof fn law_refusals_show_the_sender(
    refusal: Refusal,
    sender: PublicKey,
    error: LightningError,
)
    requires
        refusal.reported_as(sender, error),
    ensures
        error.action == ErrorAction::IgnoreAndLog(refusal.level()),
        refusal == Refusal::NotUnderstood ==> error.err@ == refusal.text(
            crate::key::lower_hex(sender@),
        ),
        refusal != Refusal::NotUnderstood ==> exists|node: Seq<char>| #[trigger]
            sender.shown_as(node) && crate::key::is_debug_text(node) && error.err@ == refusal.text(
                node,
            ),
{
    let node = choose|node: Seq<char>| #[trigger]
        refusal.shows(sender, node) && error.err@ == refusal.text(node);
    if refusal != Refusal::NotUnderstood {
        assert(sender.shown_as(node));
    }
}

/// Bytes can be read back from their hexadecimal form, which has two digits for each of them.
pub proof fn law_hexadecimal_can_be_read_back(bytes: Seq<u8>, i: int)
    requires
        0 <= i < bytes.len(),
    ensures
        crate::key::lower_hex(bytes).len() == 2 * bytes.len(),
        0 <= digit_value(crate::key::lower_hex(bytes)[2 * i]) < 16,
        0 <= digit_value(crate::key::lower_hex(bytes)[2 * i + 1]) < 16,
        16 * digit_value(crate::key::lower_hex(bytes)[2 * i]) + digit_value(
            crate::key::lower_hex(bytes)[2 * i + 1],
        ) == bytes[i],
{
    let byte = bytes[i] as int;
    assert((2 * i) % 2 == 0 && (2 * i) / 2 == i && (2 * i + 1) % 2 == 1 && (2 * i + 1) / 2 == i);
    assert(crate::key::lower_hex(bytes)[2 * i] == crate::key::hex_digit(byte / 16));
    assert(crate::key::lower_hex(bytes)[2 * i + 1] == crate::key::hex_digit(byte % 16));
}

/// The debugging form of a key has 139 characters: 64 bytes in hexadecimal between `PublicKey(`
/// and `)`.
pub proof fn law_debugging_form(text: Seq<char>)
    requires
        crate::key::is_debug_text(text),
    ensures
        text.len() == 139,
        text.take(10) == "PublicKey("@,
        forall|i: int| 10 <= i < 138 ==> 0 <= digit_value(#[trigger] text[i]) < 16,
        text[138] == ')',
{
    reveal_strlit("PublicKey(");
    reveal_strlit(")");
    let raw = choose|raw: Seq<u8>|
        raw.len() == 64 && text == "PublicKey("@ + #[trigger] crate::key::lower_hex(raw) + ")"@;
    assert(text.take(10) =~= "PublicKey("@);
    assert forall|i: int| 10 <= i < 138 implies 0 <= digit_value(#[trigger] text[i]) < 16 by {
        assert(text[i] == crate::key::lower_hex(raw)[i - 10]);
        law_hexadecimal_can_be_read_back(raw, (i - 10) / 2);
        assert(i - 10 == 2 * ((i - 10) / 2) || i - 10 == 2 * ((i - 10) / 2) + 1);
    }
}

/// Which messages are refused depends on the configurations alone: the notice that a message
/// was not understood always is; a request is where its service is not configured, the LSPS0
/// service being there with any service configuration; a response is where its client is not
/// configured, the LSPS0 client being there in any case.
pub proof fn law_refusal_follows_configuration<ES, CM, C, P: LSPSProtocols<ES, CM, C>>(
    manager: LiquidityManager<ES, CM, C, P>,
    msg: LSPSMessage,
)
    requires
        manager.configured(),
    ensures
        manager.refusal(msg) is Some <==> match msg {
            LSPSMessage::Invalid => true,
            LSPSMessage::LSPS0(LSPS0Message::Response(..)) => false,
            LSPSMessage::LSPS0(LSPS0Message::Request(..)) => manager.service_config() is None,
            LSPSMessage::LSPS1(LSPS1Message::Response(..)) => !(manager.client_config() matches Some(
                config,
            ) && config.lsps1_client_config is Some),
            LSPSMessage::LSPS1(LSPS1Message::Request(..)) => !(manager.service_config() matches Some(
                config,
            ) && config.lsps1_service_config is Some),
            LSPSMessage::LSPS2(LSPS2Message::Response(..)) => !(manager.client_config() matches Some(
                config,
            ) && config.lsps2_client_config is Some),
            LSPSMessage::LSPS2(LSPS2Message::Request(..)) => !(manager.service_config() matches Some(
                config,
            ) && config.lsps2_service_config is Some),
        },
{
}

/// Each handler is there exactly where its configuration is, whatever else is configured.
pub proof fn law_handlers_follow_configuration<ES, CM, C, P: LSPSProtocols<ES, CM, C>>(
    manager: LiquidityManager<ES, CM, C, P>,
)
    requires
        manager.configured(),
    ensures
        manager.lsps0_service() is Some <==> manager.service_config() is Some,
        manager.lsps1_service() is Some <==> (manager.service_config() matches Some(config)
            && config.lsps1_service_config is Some),
        manager.lsps2_service() is Some <==> (manager.service_config() matches Some(config)
            && config.lsps2_service_config is Some),
        manager.lsps1_client() is Some <==> (manager.client_config() matches Some(config)
            && config.lsps1_client_config is Some),
        manager.lsps2_client() is Some <==> (manager.client_config() matches Some(config)
            && config.lsps2_client_config is Some),
{
}

/// Each handler was built by its own constructor from clones of what the manager was given: the
/// entropy source, the channel manager, the chain source and the handler's configuration. The
/// LSPS0 service was built to announce no protocols.
pub proof fn law_handlers_are_built_from_what_was_given<
    ES: Clone,
    CM: Clone,
    C: Clone,
    P: LSPSProtocols<ES, CM, C>,
>(
    entropy_source: ES,
    channel_manager: CM,
    chain_source: Option<C>,
    lsps1_client_config: P::LSPS1ClientConfig,
    lsps1_service_config: P::LSPS1ServiceConfig,
    lsps2_client_config: P::LSPS2ClientConfig,
    lsps2_service_config: P::LSPS2ServiceConfig,
    lsps0_client: P::LSPS0ClientHandler,
    lsps0_service: P::LSPS0ServiceHandler,
    lsps1_client: P::LSPS1ClientHandler,
    lsps1_service: P::LSPS1ServiceHandler,
    lsps2_client: P::LSPS2ClientHandler,
    lsps2_service: P::LSPS2ServiceHandler,
)
    ensures
        LiquidityManager::<ES, CM, C, P>::built_lsps0_client(entropy_source, lsps0_client) ==> exists|
            es: ES,
        |
            cloned(entropy_source, es) && #[trigger] call_ensures(
                P::new_lsps0_client_handler,
                (es,),
                lsps0_client,
            ),
        LiquidityManager::<ES, CM, C, P>::built_lsps0_service(lsps0_service) ==> exists|
            protocols: Vec<u16>,
        |
            protocols@ == Seq::<u16>::empty() && #[trigger] call_ensures(
                P::new_lsps0_service_handler,
                (protocols,),
                lsps0_service,
            ),
        LiquidityManager::<ES, CM, C, P>::built_lsps1_client(
            entropy_source,
            channel_manager,
            chain_source,
            lsps1_client_config,
            lsps1_client,
        ) ==> exists|es: ES, cm: CM, source: Option<C>, config: P::LSPS1ClientConfig|
            cloned(entropy_source, es) && cloned(channel_manager, cm) && cloned(
                chain_source,
                source,
            ) && cloned(lsps1_client_config, config) && #[trigger] call_ensures(
                P::new_lsps1_client_handler,
                (es, cm, source, config),
                lsps1_client,
            ),
        LiquidityManager::<ES, CM, C, P>::built_lsps1_service(
            entropy_source,
            channel_manager,
            chain_source,
            lsps1_service_config,
            lsps1_service,
        ) ==> exists|es: ES, cm: CM, source: Option<C>, config: P::LSPS1ServiceConfig|
            cloned(entropy_source, es) && cloned(channel_manager, cm) && cloned(
                chain_source,
                source,
            ) && cloned(lsps1_service_config, config) && #[trigger] call_ensures(
                P::new_lsps1_service_handler,
                (es, cm, source, config),
                lsps1_service,
            ),
        LiquidityManager::<ES, CM, C, P>::built_lsps2_client(
            entropy_source,
            lsps2_client_config,
            lsps2_client,
        ) ==> exists|es: ES, config: P::LSPS2ClientConfig|
            cloned(entropy_source, es) && cloned(lsps2_client_config, config)
                && #[trigger] call_ensures(
                P::new_lsps2_client_handler,
                (es, config),
                lsps2_client,
            ),
        LiquidityManager::<ES, CM, C, P>::built_lsps2_service(
            channel_manager,
            lsps2_service_config,
            lsps2_service,
        ) ==> exists|cm: CM, config: P::LSPS2ServiceConfig|
            cloned(channel_manager, cm) && cloned(lsps2_service_config, config)
                && #[trigger] call_ensures(
                P::new_lsps2_service_handler,
                (cm, config),
                lsps2_service,
            ),
{
    if LiquidityManager::<ES, CM, C, P>::built_lsps0_service(lsps0_service) {
        let protocols = choose|protocols: Vec<u16>|
            protocols@.len() == 0 && #[trigger] call_ensures(
                P::new_lsps0_service_handler,
                (protocols,),
                lsps0_service,
            );
        assert(protocols@ =~= Seq::<u16>::empty());
    }
}

/// A manager announces the one feature bit of the protocols where it has a service
/// configuration, whatever that asks for, and no bit where it has none.
pub proof fn law_feature_bit_marks_a_service<ES, CM, C, P: LSPSProtocols<ES, CM, C>>(
    manager: LiquidityManager<ES, CM, C, P>,
    flags: Seq<u8>,
    bit: nat,
)
    requires
        crate::features::feature_bits(flags) == manager.announced_bits(),
    ensures
        crate::features::has_feature(flags, bit) <==> manager.service_config() is Some && bit == 729,
{
    assert(crate::features::feature_bits(flags).contains(bit) == crate::features::has_feature(
        flags,
        bit,
    ));
}

/// A manager without a service configuration announces no feature, and refuses every request.
pub proof fn law_no_services_without_configuration<ES, CM, C, P: LSPSProtocols<ES, CM, C>>(
    manager: LiquidityManager<ES, CM, C, P>,
    msg: LSPSMessage,
    request_id: Seq<char>,
)
    requires
        manager.configured(),
        manager.service_config() is None,
    ensures
        manager.announced_bits() == Set::<nat>::empty(),
        requests_under(msg, request_id) ==> manager.refusal(msg) is Some
            && manager.refusal(msg)->0.level() == Level::Info,
{
}

// What processing a message keeps.

/// Taking in what a handler gave queues its messages and its events, and changes nothing else.
pub proof fn law_outcomes_are_taken_in<ES, CM, C, P: LSPSProtocols<ES, CM, C>>(
    pre: LiquidityManager<ES, CM, C, P>,
    outcome: HandlerOutcome<P::Event>,
    post: LiquidityManager<ES, CM, C, P>,
    handled: Handled,
)
    requires
        LiquidityManager::took_in(pre, outcome, post, handled),
    ensures
        gained(pre, outcome, post, handled),
{
}

/// Processing a message, readable or not, keeps the handlers, the configurations, the tip, the
/// callback and what is left of the record of sent requests.
pub proof fn law_answering_keeps_setup<ES, CM, C, P: LSPSProtocols<ES, CM, C>>(
    pre: LiquidityManager<ES, CM, C, P>,
    parsed: Result<LSPSMessage, ParseError<ES, CM, C, P>>,
    sender: PublicKey,
    post: LiquidityManager<ES, CM, C, P>,
    handled: Handled,
)
    requires
        LiquidityManager::answered(pre, parsed, sender, post, handled),
    ensures
        post.same_setup(pre),
        parts_kept(pre, post),
        post.best_block() == pre.best_block(),
        post.callback() == pre.callback(),
        post.request_id_map() == pre.request_id_map(),
        pre.configured() ==> post.configured(),
{
}

/// No operation changes the handlers, the configurations or the chain source.
pub proof fn law_parts_are_kept<ES, CM, C, P: LSPSProtocols<ES, CM, C>>(
    pre: LiquidityManager<ES, CM, C, P>,
    post: LiquidityManager<ES, CM, C, P>,
)
    requires
        follows(pre, post),
    ensures
        parts_kept(pre, post),
{
}

/// The handlers that are there stay those that the configurations ask for, and so which messages
/// are refused and which feature is announced, whatever the manager does.
pub proof fn law_configuration_is_kept<ES, CM, C, P: LSPSProtocols<ES, CM, C>>(
    pre: LiquidityManager<ES, CM, C, P>,
    post: LiquidityManager<ES, CM, C, P>,
)
    requires
        pre.configured(),
        post.same_setup(pre) || post.same_but_tip(pre) || follows(pre, post),
    ensures
        post.configured(),
        post.announced_bits() == pre.announced_bits(),
        forall|msg: LSPSMessage| #[trigger] post.refusal(msg) == pre.refusal(msg),
{
}

/// Decoding a message touches the record of sent requests alone.
pub proof fn law_decoding_touches_the_record_alone<ES, CM, C, P: LSPSProtocols<ES, CM, C>>(
    pre: LiquidityManager<ES, CM, C, P>,
    post: LiquidityManager<ES, CM, C, P>,
)
    requires
        post.same_but_record(pre),
    ensures
        post.pending_messages() == pre.pending_messages(),
        post.pending_events() == pre.pending_events(),
        post.callback() == pre.callback(),
        post.best_block() == pre.best_block(),
        parts_kept(pre, post),
{
}

/// Processing a message loses nothing that is pending: messages and events join the queues at
/// their ends.
pub proof fn law_answering_loses_nothing<ES, CM, C, P: LSPSProtocols<ES, CM, C>>(
    pre: LiquidityManager<ES, CM, C, P>,
    parsed: Result<LSPSMessage, ParseError<ES, CM, C, P>>,
    sender: PublicKey,
    post: LiquidityManager<ES, CM, C, P>,
    handled: Handled,
)
    requires
        LiquidityManager::answered(pre, parsed, sender, post, handled),
    ensures
        pre.pending_messages().is_prefix_of(post.pending_messages()),
        pre.pending_events().is_prefix_of(post.pending_events()),
{
    assert(pre.pending_messages() =~= post.pending_messages().take(
        pre.pending_messages().len() as int,
    ));
    assert(pre.pending_events() =~= post.pending_events().take(pre.pending_events().len() as int));
}

/// A set callback is due once for every message that processing a message queued, and no
/// callback is due where none is set.
pub proof fn law_callback_once_per_message<ES, CM, C, P: LSPSProtocols<ES, CM, C>>(
    pre: LiquidityManager<ES, CM, C, P>,
    parsed: Result<LSPSMessage, ParseError<ES, CM, C, P>>,
    sender: PublicKey,
    post: LiquidityManager<ES, CM, C, P>,
    handled: Handled,
)
    requires
        LiquidityManager::answered(pre, parsed, sender, post, handled),
    ensures
        pre.callback() is Some ==> handled.callback_calls == post.pending_messages().len()
            - pre.pending_messages().len(),
        pre.callback() is None ==> handled.callback_calls == 0,
{
}

/// The message queue calls for its callback once per message, if one is set.
pub proof fn law_queue_counts_callback_calls<F>(queue: MessageQueue<F>, pushed: nat)
    ensures
        queue.callback() is Some ==> queue.calls_after(pushed) == pushed,
        queue.callback() is None ==> queue.calls_after(pushed) == 0,
{
}

/// Setting the callback puts it in place of any earlier one, and changes nothing else.
pub proof fn law_callback_is_replaced<ES, CM, C, P: LSPSProtocols<ES, CM, C>>(
    pre: LiquidityManager<ES, CM, C, P>,
    callback: P::ProcessMsgsCallback,
    post: LiquidityManager<ES, CM, C, P>,
)
    requires
        LiquidityManager::got_callback(pre, callback, post),
    ensures
        post.callback() == Some(callback),
        post.pending_messages() == pre.pending_messages(),
        post.pending_events() == pre.pending_events(),
        post.request_id_map() == pre.request_id_map(),
        post.best_block() == pre.best_block(),
        parts_kept(pre, post),
{
}

/// A message that cannot be decoded is no error: its sender, and nobody else, is sent the
/// notice that it was not understood. Nothing else changes.
pub proof fn law_undecodable_is_answered<ES, CM, C, P: LSPSProtocols<ES, CM, C>>(
    pre: LiquidityManager<ES, CM, C, P>,
    error: ParseError<ES, CM, C, P>,
    sender: PublicKey,
    post: LiquidityManager<ES, CM, C, P>,
    handled: Handled,
)
    requires
        LiquidityManager::answered(pre, Err(error), sender, post, handled),
    ensures
        handled.result is Ok,
        post.pending_messages() == pre.pending_messages() + seq![(sender, LSPSMessage::Invalid)],
        post.pending_events() == pre.pending_events(),
        post.request_id_map() == pre.request_id_map(),
        post.callback() == pre.callback(),
        post.best_block() == pre.best_block(),
        parts_kept(pre, post),
        pre.callback() is Some ==> handled.callback_calls == 1,
        pre.callback() is None ==> handled.callback_calls == 0,
{
    assert(post.pending_messages() =~= pre.pending_messages() + seq![
        (sender, LSPSMessage::Invalid),
    ]);
}

/// The notice that we were not understood is reported, and never answered: two managers do not
/// go on telling each other that they do not understand.
pub proof fn law_notice_is_not_answered<ES, CM, C, P: LSPSProtocols<ES, CM, C>>(
    pre: LiquidityManager<ES, CM, C, P>,
    sender: PublicKey,
    post: LiquidityManager<ES, CM, C, P>,
    handled: Handled,
)
    requires
        LiquidityManager::answered(pre, Ok(LSPSMessage::Invalid), sender, post, handled)
            || LiquidityManager::processed(pre, LSPSMessage::Invalid, sender, post, handled),
    ensures
        post == pre,
        handled.callback_calls == 0,
        handled.result matches Err(error) && error.action == ErrorAction::IgnoreAndLog(Level::Error)
            && error.err@ == crate::key::lower_hex(sender@)
            + " did not understand a message we previously sent, maybe they don't support a protocol we are trying to use?"@,
{
}

// What is handed out, and the record of it.

/// Handing out gives every pending message, encoded, to its recipient, in order, and empties the
/// queue. Beside the record of sent requests nothing else changes.
pub proof fn law_all_pending_messages_are_handed_out<ES, CM, C, P: LSPSProtocols<ES, CM, C>>(
    pre: LiquidityManager<ES, CM, C, P>,
    raw: Seq<(PublicKey, RawLSPSMessage)>,
    post: LiquidityManager<ES, CM, C, P>,
)
    requires
        LiquidityManager::handed_out(pre, raw, post),
    ensures
        raw.len() == pre.pending_messages().len(),
        forall|i: int|
            0 <= i < raw.len() ==> (#[trigger] raw[i]).0 == pre.pending_messages()[i].0
                && call_ensures(
                P::Format::to_json,
                (&pre.pending_messages()[i].1,),
                raw[i].1.payload,
            ),
        post.pending_messages() == Seq::<(PublicKey, LSPSMessage)>::empty(),
        post.pending_events() == pre.pending_events(),
        post.callback() == pre.callback(),
        post.best_block() == pre.best_block(),
        parts_kept(pre, post),
{
    assert(post.pending_messages() =~= Seq::<(PublicKey, LSPSMessage)>::empty());
}

/// Messages are handed out once: a second call right after the first hands out nothing, and
/// records nothing.
pub proof fn law_messages_are_handed_out_once<ES, CM, C, P: LSPSProtocols<ES, CM, C>>(
    first: LiquidityManager<ES, CM, C, P>,
    raw: Seq<(PublicKey, RawLSPSMessage)>,
    second: LiquidityManager<ES, CM, C, P>,
    again: Seq<(PublicKey, RawLSPSMessage)>,
    third: LiquidityManager<ES, CM, C, P>,
)
    requires
        LiquidityManager::handed_out(first, raw, second),
        LiquidityManager::handed_out(second, again, third),
    ensures
        again.len() == 0,
        third.request_ids() == second.request_ids(),
{
}

/// What a handler wants sent is handed out, after what was pending before, to the nodes that
/// it named.
pub proof fn law_handler_messages_are_handed_out<ES, CM, C, P: LSPSProtocols<ES, CM, C>>(
    pre: LiquidityManager<ES, CM, C, P>,
    outcome: HandlerOutcome<P::Event>,
    mid: LiquidityManager<ES, CM, C, P>,
    handled: Handled,
    raw: Seq<(PublicKey, RawLSPSMessage)>,
    post: LiquidityManager<ES, CM, C, P>,
    i: int,
)
    requires
        LiquidityManager::took_in(pre, outcome, mid, handled),
        LiquidityManager::handed_out(mid, raw, post),
        0 <= i < outcome.messages@.len(),
    ensures
        raw.len() == pre.pending_messages().len() + outcome.messages@.len(),
        raw[pre.pending_messages().len() + i].0 == outcome.messages@[i].0,
        call_ensures(
            P::Format::to_json,
            (&outcome.messages@[i].1,),
            raw[pre.pending_messages().len() + i].1.payload,
        ),
{
    let at = pre.pending_messages().len() + i;
    assert(mid.pending_messages()[at] == outcome.messages@[i]);
    assert(raw[at].0 == mid.pending_messages()[at].0);
}

/// A message has an id and a method to record exactly where it is a request, of whatever
/// protocol, and these are the id and the method that it carries.
pub proof fn law_requests_carry_their_id_and_method(
    msg: LSPSMessage,
    id: RequestId,
    request: Request,
    response: Response,
)
    ensures
        msg == LSPSMessage::LSPS0(LSPS0Message::Request(id, request)) || msg == LSPSMessage::LSPS1(
            LSPS1Message::Request(id, request),
        ) || msg == LSPSMessage::LSPS2(LSPS2Message::Request(id, request))
            ==> msg.request_id_and_method() == Some((id.0@, request.method@)),
        msg == LSPSMessage::LSPS0(LSPS0Message::Response(id, response)) || msg
            == LSPSMessage::LSPS1(LSPS1Message::Response(id, response)) || msg
            == LSPSMessage::LSPS2(LSPS2Message::Response(id, response)) || msg
            == LSPSMessage::Invalid ==> msg.request_id_and_method() is None,
{
}

/// Once a request was handed out, the method that it carries is on record under the id that it
/// carries, unless a later request of the same batch took the id over.
pub proof fn law_sent_requests_are_on_record<ES, CM, C, P: LSPSProtocols<ES, CM, C>>(
    pre: LiquidityManager<ES, CM, C, P>,
    raw: Seq<(PublicKey, RawLSPSMessage)>,
    post: LiquidityManager<ES, CM, C, P>,
    i: int,
    id: RequestId,
    request: Request,
)
    requires
        LiquidityManager::handed_out(pre, raw, post),
        0 <= i < pre.pending_messages().len(),
        pre.pending_messages()[i].1 == LSPSMessage::LSPS0(LSPS0Message::Request(id, request))
            || pre.pending_messages()[i].1 == LSPSMessage::LSPS1(LSPS1Message::Request(id, request))
            || pre.pending_messages()[i].1 == LSPSMessage::LSPS2(
            LSPS2Message::Request(id, request),
        ),
        no_request_with(pre.pending_messages().skip(i + 1), id.0@),
    ensures
        post.request_ids().contains_key(id.0@),
        post.request_ids()[id.0@] == request.method@,
{
    lemma_recorded(pre.request_ids(), pre.pending_messages(), i, id, request);
}

/// Handing out messages leaves the record of every other id as it was.
pub proof fn law_other_records_are_kept<ES, CM, C, P: LSPSProtocols<ES, CM, C>>(
    pre: LiquidityManager<ES, CM, C, P>,
    raw: Seq<(PublicKey, RawLSPSMessage)>,
    post: LiquidityManager<ES, CM, C, P>,
    request_id: Seq<char>,
)
    requires
        LiquidityManager::handed_out(pre, raw, post),
        no_request_with(pre.pending_messages(), request_id),
    ensures
        same_entry(pre.request_ids(), request_id, post.request_ids()),
{
    lemma_not_recorded(pre.request_ids(), pre.pending_messages(), request_id);
}

/// Only handing out messages and decoding them touch the record of sent requests. Taking in what
/// a handler gave, processing a decoded message, taking events, setting the callback and going
/// back a block keep it.
pub proof fn law_record_is_kept<ES, CM, C, P: LSPSProtocols<ES, CM, C>>(
    pre: LiquidityManager<ES, CM, C, P>,
    post: LiquidityManager<ES, CM, C, P>,
)
    requires
        keeps_record(pre, post),
    ensures
        post.request_id_map() == pre.request_id_map(),
        post.request_ids() == pre.request_ids(),
{
}

/// A reply finds the method of its request: once the request was handed out, and whatever the
/// manager does next that leaves the id alone, a message is decoded against a record that holds
/// the id and the method. (`states` are the manager after the hand-out and after each further
/// operation; `map` is what [`LiquidityManager::handle_custom_message`] then decodes with.)
pub proof fn law_reply_finds_its_method<ES, CM, C, P: LSPSProtocols<ES, CM, C>>(
    pre: LiquidityManager<ES, CM, C, P>,
    raw: Seq<(PublicKey, RawLSPSMessage)>,
    states: Seq<LiquidityManager<ES, CM, C, P>>,
    i: int,
    id: RequestId,
    request: Request,
    map: RequestIdMap,
)
    requires
        states.len() > 0,
        LiquidityManager::handed_out(pre, raw, states[0]),
        0 <= i < pre.pending_messages().len(),
        pre.pending_messages()[i].1 == LSPSMessage::LSPS0(LSPS0Message::Request(id, request))
            || pre.pending_messages()[i].1 == LSPSMessage::LSPS1(LSPS1Message::Request(id, request))
            || pre.pending_messages()[i].1 == LSPSMessage::LSPS2(
            LSPS2Message::Request(id, request),
        ),
        no_request_with(pre.pending_messages().skip(i + 1), id.0@),
        forall|k: int|
            0 < k < states.len() ==> leaves_alone(states[k - 1], id.0@, #[trigger] states[k]),
        map == states.last().request_id_map(),
    ensures
        map@.contains_key(id.0@),
        map@[id.0@] == request.method@,
    decreases states.len(),
{
    if states.len() == 1 {
        law_sent_requests_are_on_record(pre, raw, states[0], i, id, request);
    } else {
        let before = states.drop_last();
        assert forall|k: int| 0 < k < before.len() implies leaves_alone(
            before[k - 1],
            id.0@,
            #[trigger] before[k],
        ) by {
            assert(before[k] == states[k]);
        }
        law_reply_finds_its_method(
            pre,
            raw,
            before,
            i,
            id,
            request,
            before.last().request_id_map(),
        );
        let last = states[states.len() - 1];
        assert(leaves_alone(states[states.len() - 2], id.0@, last));
        assert(before.last() == states[states.len() - 2]);
        if no_request_with(before.last().pending_messages(), id.0@) {
            lemma_not_recorded(
                before.last().request_ids(),
                before.last().pending_messages(),
                id.0@,
            );
        }
    }
}

proof fn lemma_recorded(
    request_ids: Map<Seq<char>, Seq<char>>,
    messages: Seq<(PublicKey, LSPSMessage)>,
    i: int,
    id: RequestId,
    request: Request,
)
    requires
        0 <= i < messages.len(),
        messages[i].1.request_id_and_method() == Some((id.0@, request.method@)),
        no_request_with(messages.skip(i + 1), id.0@),
    ensures
        crate::queues::recorded(request_ids, messages).contains_key(id.0@),
        crate::queues::recorded(request_ids, messages)[id.0@] == request.method@,
    decreases messages.len(),
{
    if i < messages.len() - 1 {
        let before = messages.drop_last();
        let later = messages.skip(i + 1);
        assert(no_request_with(before.skip(i + 1), id.0@)) by {
            assert(before.skip(i + 1) =~= later.drop_last());
            assert(forall|j: int|
                0 <= j < later.len() - 1 ==> later.drop_last()[j] == #[trigger] later[j]);
        }
        lemma_recorded(request_ids, before, i, id, request);
        assert(messages.last() == later[later.len() - 1]);
    }
}

proof fn lemma_not_recorded(
    request_ids: Map<Seq<char>, Seq<char>>,
    messages: Seq<(PublicKey, LSPSMessage)>,
    request_id: Seq<char>,
)
    requires
        no_request_with(messages, request_id),
    ensures
        same_entry(request_ids, request_id, crate::queues::recorded(request_ids, messages)),
    decreases messages.len(),
{
    if messages.len() > 0 {
        let before = messages.drop_last();
        assert(forall|j: int| 0 <= j < before.len() ==> before[j] == #[trigger] messages[j]);
        lemma_not_recorded(request_ids, before, request_id);
        assert(messages.last() == messages[messages.len() - 1]);
    }
}

// Events.

/// Taking an event gives the oldest and leaves the others, in order; `None` comes exactly where
/// there is none. Nothing else changes.
pub proof fn law_oldest_event_is_taken<ES, CM, C, P: LSPSProtocols<ES, CM, C>>(
    pre: LiquidityManager<ES, CM, C, P>,
    event: Option<P::Event>,
    post: LiquidityManager<ES, CM, C, P>,
)
    requires
        LiquidityManager::took_event(pre, event, post),
    ensures
        event is None <==> pre.pending_events().len() == 0,
        event is None ==> post.pending_events() == pre.pending_events(),
        event matches Some(event) ==> pre.pending_events() == seq![event] + post.pending_events(),
        post.pending_messages() == pre.pending_messages(),
        post.request_id_map() == pre.request_id_map(),
        post.callback() == pre.callback(),
        post.best_block() == pre.best_block(),
        parts_kept(pre, post),
{
    if event is Some {
        assert(pre.pending_events() =~= seq![event->0] + post.pending_events());
    }
}

/// Taking all events gives every one that is pending, in order, and leaves none. Nothing else
/// changes.
pub proof fn law_all_events_are_taken<ES, CM, C, P: LSPSProtocols<ES, CM, C>>(
    pre: LiquidityManager<ES, CM, C, P>,
    events: Seq<P::Event>,
    post: LiquidityManager<ES, CM, C, P>,
)
    requires
        LiquidityManager::took_all_events(pre, events, post),
    ensures
        events == pre.pending_events(),
        post.pending_events() == Seq::<P::Event>::empty(),
        post.pending_messages() == pre.pending_messages(),
        post.request_id_map() == pre.request_id_map(),
        post.callback() == pre.callback(),
        post.best_block() == pre.best_block(),
        parts_kept(pre, post),
{
    assert(post.pending_events() =~= Seq::<P::Event>::empty());
}

/// Taking one event and then all gives what taking all at once gives, in the same order.
pub proof fn law_events_come_in_order<ES, CM, C, P: LSPSProtocols<ES, CM, C>>(
    pre: LiquidityManager<ES, CM, C, P>,
    event: P::Event,
    mid: LiquidityManager<ES, CM, C, P>,
    rest: Seq<P::Event>,
    post: LiquidityManager<ES, CM, C, P>,
)
    requires
        LiquidityManager::took_event(pre, Some(event), mid),
        LiquidityManager::took_all_events(mid, rest, post),
    ensures
        seq![event] + rest == pre.pending_events(),
        LiquidityManager::took_all_events(pre, seq![event] + rest, post),
{
    assert(seq![event] + rest =~= pre.pending_events());
}

/// What a handler reports reaches the user after what was pending before.
pub proof fn law_handler_events_reach_the_user<ES, CM, C, P: LSPSProtocols<ES, CM, C>>(
    pre: LiquidityManager<ES, CM, C, P>,
    outcome: HandlerOutcome<P::Event>,
    mid: LiquidityManager<ES, CM, C, P>,
    handled: Handled,
    events: Seq<P::Event>,
    post: LiquidityManager<ES, CM, C, P>,
)
    requires
        LiquidityManager::took_in(pre, outcome, mid, handled),
        LiquidityManager::took_all_events(mid, events, post),
    ensures
        events == pre.pending_events() + outcome.events@,
{
}

/// Events are handed out once: after all were taken there is none.
pub proof fn law_events_are_handed_out_once<ES, CM, C, P: LSPSProtocols<ES, CM, C>>(
    first: LiquidityManager<ES, CM, C, P>,
    events: Seq<P::Event>,
    second: LiquidityManager<ES, CM, C, P>,
    event: Option<P::Event>,
    third: LiquidityManager<ES, CM, C, P>,
)
    requires
        LiquidityManager::took_all_events(first, events, second),
        LiquidityManager::took_event(second, event, third),
    ensures
        event is None,
        third.pending_events() == second.pending_events(),
{
}

// Blocks.

/// The hash of a header is that of all its fields.
pub proof fn law_hash_covers_the_header(header: Header)
    ensures
        header.prev_blockhash@ == header.prev_blockhash.bytes@,
        header.hash() == crate::chain::block_hash_of(
            header.version,
            header.prev_blockhash.bytes@,
            header.merkle_root@,
            header.time,
            header.bits,
            header.nonce,
        ),
{
}

/// Where a tip is tracked, a block can be connected exactly where it builds on the tip and is
/// one higher; the hash is looked at first. Where none is, any block can, at any height.
pub proof fn law_blocks_connect_to_the_tip(best_block: BestBlock, header: Header, height: u32)
    ensures
        crate::chain::connect_error(Some(best_block), header, height) is None <==> {
            &&& best_block.block_hash.bytes@ == header.prev_blockhash.bytes@
            &&& height == best_block.height + 1
        },
        crate::chain::connect_error(Some(best_block), header, height) == Some(
            ChainOrderError::ConnectedHash,
        ) <==> best_block.block_hash.bytes@ != header.prev_blockhash.bytes@,
        crate::chain::connect_error(Some(best_block), header, height) == Some(
            ChainOrderError::ConnectedHeight,
        ) <==> {
            &&& best_block.block_hash.bytes@ == header.prev_blockhash.bytes@
            &&& height != best_block.height + 1
        },
        crate::chain::connect_error(None, header, height) is None,
{
}

/// The first block cannot be disconnected. Where a tip is tracked, another block can be exactly
/// where it is the tip, at its height; the hash is looked at first. Where none is, any can.
pub proof fn law_blocks_disconnect_from_the_tip(best_block: BestBlock, header: Header, height: u32)
    ensures
        crate::chain::disconnect_error(Some(best_block), header, height) is None <==> {
            &&& height > 0
            &&& best_block.block_hash.bytes@ == header.hash()
            &&& best_block.height == height
        },
        crate::chain::disconnect_error(Some(best_block), header, height) == Some(
            ChainOrderError::DisconnectedGenesis,
        ) <==> height == 0,
        crate::chain::disconnect_error(Some(best_block), header, height) == Some(
            ChainOrderError::DisconnectedHash,
        ) <==> height > 0 && best_block.block_hash.bytes@ != header.hash(),
        crate::chain::disconnect_error(Some(best_block), header, height) == Some(
            ChainOrderError::DisconnectedHeight,
        ) <==> {
            &&& height > 0
            &&& best_block.block_hash.bytes@ == header.hash()
            &&& best_block.height != height
        },
        crate::chain::disconnect_error(None, header, height) is None <==> height > 0,
        height == 0 ==> crate::chain::disconnect_error(None, header, height) == Some(
            ChainOrderError::DisconnectedGenesis,
        ),
{
}

/// Taking a block off the chain moves a tracked tip to the block that it built on, one lower,
/// and does not start to track one. Nothing else changes.
pub proof fn law_tip_goes_back_one_block<ES, CM, C, P: LSPSProtocols<ES, CM, C>>(
    pre: LiquidityManager<ES, CM, C, P>,
    header: Header,
    height: u32,
    post: LiquidityManager<ES, CM, C, P>,
)
    requires
        crate::chain::disconnect_error(pre.best_block(), header, height) is None,
        LiquidityManager::went_back(pre, header, height, post),
    ensures
        pre.best_block() is None ==> post.best_block() is None,
        pre.best_block() matches Some(tip) ==> (post.best_block() matches Some(below)
            && below.block_hash == header.prev_blockhash && below.height == tip.height - 1
            && below.height == height - 1),
        post.pending_messages() == pre.pending_messages(),
        post.pending_events() == pre.pending_events(),
        post.request_id_map() == pre.request_id_map(),
        post.callback() == pre.callback(),
        parts_kept(pre, post),
{
}

/// A manager that tracks no tip never starts to, and one that tracks a tip never stops, whatever
/// it does. So without a tip any block can be connected afterwards, at any height.
pub proof fn law_tracking_neither_starts_nor_stops<ES, CM, C, P: LSPSProtocols<ES, CM, C>>(
    pre: LiquidityManager<ES, CM, C, P>,
    post: LiquidityManager<ES, CM, C, P>,
    header: Header,
    height: u32,
)
    requires
        follows(pre, post),
    ensures
        post.best_block() is Some <==> pre.best_block() is Some,
        pre.best_block() is None ==> crate::chain::connect_error(post.best_block(), header, height)
            is None,
{
}

/// Only taking a block off the chain moves the tip.
pub proof fn law_only_disconnecting_moves_the_tip<ES, CM, C, P: LSPSProtocols<ES, CM, C>>(
    pre: LiquidityManager<ES, CM, C, P>,
    post: LiquidityManager<ES, CM, C, P>,
)
    requires
        follows(pre, post),
        post.best_block() != pre.best_block(),
    ensures
        exists|header: Header, height: u32| #[trigger]
            LiquidityManager::went_back(pre, header, height, post),
{
}

/// A block that was disconnected can be connected again at its height.
pub proof fn law_disconnected_block_can_be_reconnected<ES, CM, C, P: LSPSProtocols<ES, CM, C>>(
    pre: LiquidityManager<ES, CM, C, P>,
    header: Header,
    height: u32,
    post: LiquidityManager<ES, CM, C, P>,
)
    requires
        crate::chain::disconnect_error(pre.best_block(), header, height) is None,
        LiquidityManager::went_back(pre, header, height, post),
    ensures
        crate::chain::connect_error(post.best_block(), header, height) is None,
{
}

/// Where a tip is tracked, a block cannot be disconnected twice in a row.
pub proof fn law_block_is_disconnected_once<ES, CM, C, P: LSPSProtocols<ES, CM, C>>(
    pre: LiquidityManager<ES, CM, C, P>,
    header: Header,
    height: u32,
    post: LiquidityManager<ES, CM, C, P>,
)
    requires
        crate::chain::disconnect_error(pre.best_block(), header, height) is None,
        LiquidityManager::went_back(pre, header, height, post),
        pre.best_block() is Some,
    ensures
        crate::chain::disconnect_error(post.best_block(), header, height) is Some,
{
}

/// Blocks can be disconnected one after the other: below the block just taken off stands the
/// one that it built on, one lower, unless that is the first of the chain.
pub proof fn law_chain_unwinds<ES, CM, C, P: LSPSProtocols<ES, CM, C>>(
    pre: LiquidityManager<ES, CM, C, P>,
    header: Header,
    height: u32,
    post: LiquidityManager<ES, CM, C, P>,
    parent: Header,
)
    requires
        crate::chain::disconnect_error(pre.best_block(), header, height) is None,
        LiquidityManager::went_back(pre, header, height, post),
        header.prev_blockhash@ == parent.hash(),
        height > 1,
    ensures
        crate::chain::disconnect_error(post.best_block(), parent, (height - 1) as u32) is None,
{
}

} // verus!
