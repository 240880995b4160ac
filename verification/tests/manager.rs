use std::cell::RefCell;
use std::rc::Rc;

use lightning::ln::features::{InitFeatures, NodeFeatures};
use lightning_liquidity::chain::{BestBlock, BlockHash, ChainOrderError, ChainParameters, Header};
use lightning_liquidity::config::{LiquidityClientConfig, LiquidityServiceConfig};
use lightning_liquidity::errors::{ErrorAction, Level, LightningError, Refusal};
use lightning_liquidity::key::PublicKey;
use lightning_liquidity::manager::{LiquidityManager, LSPS_FEATURE_BIT};
use lightning_liquidity::messages::{
    LSPS0Message, LSPS1Message, LSPS2Message, LSPSMessage, RawLSPSMessage, Request, RequestId,
    RequestIdMap, Response, LSPS_MESSAGE_TYPE_ID,
};
use lightning_liquidity::protocols::{
    HandlerOutcome, LSPSProtocols, MessageFormat, ProtocolMessageHandler, RawMessageSource,
};

/// Notes what it is called with, replies to the sender once per configured count, and reports
/// an event.
struct Recorder {
    name: String,
    replies: usize,
    fails: bool,
    calls: Rc<RefCell<Vec<String>>>,
}

fn recorder(name: String, log: &Log) -> Recorder {
    Recorder { name, replies: log.replies, fails: log.fails, calls: Rc::clone(&log.calls) }
}

impl Recorder {
    fn outcome(&self, message: String, sender: &PublicKey) -> HandlerOutcome<String> {
        self.calls.borrow_mut().push(format!("{} {} {}", self.name, message, sender.display()));
        HandlerOutcome {
            result: if self.fails { Err(failure()) } else { Ok(()) },
            messages: (0..self.replies)
                .map(|n| (*sender, lsps0_request(&format!("reply{}", n), "reply")))
                .collect(),
            events: vec![self.name.clone()],
        }
    }
}

fn failure() -> LightningError {
    LightningError { err: "failed".to_string(), action: ErrorAction::IgnoreError }
}

struct LSPS0(Recorder);
struct LSPS1(Recorder);
struct LSPS2(Recorder);

impl ProtocolMessageHandler<String> for LSPS0 {
    type ProtocolMessage = LSPS0Message;
    fn handle_message(&self, message: LSPS0Message, sender: &PublicKey) -> HandlerOutcome<String> {
        self.0.outcome(format!("{:?}", message), sender)
    }
}

impl ProtocolMessageHandler<String> for LSPS1 {
    type ProtocolMessage = LSPS1Message;
    fn handle_message(&self, message: LSPS1Message, sender: &PublicKey) -> HandlerOutcome<String> {
        self.0.outcome(format!("{:?}", message), sender)
    }
}

impl ProtocolMessageHandler<String> for LSPS2 {
    type ProtocolMessage = LSPS2Message;
    fn handle_message(&self, message: LSPS2Message, sender: &PublicKey) -> HandlerOutcome<String> {
        self.0.outcome(format!("{:?}", message), sender)
    }
}

#[derive(Clone)]
struct Log {
    replies: usize,
    fails: bool,
    calls: Rc<RefCell<Vec<String>>>,
}

/// Every handler shares the log, which stands for the entropy source and the channel manager.
struct Protocols;

impl LSPSProtocols<Log, Log, u8> for Protocols {
    type Event = String;
    type ProcessMsgsCallback = u8;
    type Format = Format;
    type LSPS1ClientConfig = u8;
    type LSPS1ServiceConfig = u8;
    type LSPS2ClientConfig = u8;
    type LSPS2ServiceConfig = u8;
    type LSPS0ClientHandler = LSPS0;
    type LSPS0ServiceHandler = LSPS0;
    type LSPS1ClientHandler = LSPS1;
    type LSPS1ServiceHandler = LSPS1;
    type LSPS2ClientHandler = LSPS2;
    type LSPS2ServiceHandler = LSPS2;

    fn new_lsps0_client_handler(log: Log) -> LSPS0 {
        LSPS0(recorder("lsps0 client".to_string(), &log))
    }

    fn new_lsps0_service_handler(protocols: Vec<u16>) -> LSPS0 {
        let log = Log { replies: 0, fails: false, calls: Rc::new(RefCell::new(Vec::new())) };
        LSPS0(recorder(format!("lsps0 service {:?}", protocols), &log))
    }

    fn new_lsps1_client_handler(log: Log, _: Log, source: Option<u8>, config: u8) -> LSPS1 {
        LSPS1(recorder(format!("lsps1 client {:?} {}", source, config), &log))
    }

    fn new_lsps1_service_handler(log: Log, _: Log, source: Option<u8>, config: u8) -> LSPS1 {
        LSPS1(recorder(format!("lsps1 service {:?} {}", source, config), &log))
    }

    fn new_lsps2_client_handler(log: Log, config: u8) -> LSPS2 {
        LSPS2(recorder(format!("lsps2 client {}", config), &log))
    }

    fn new_lsps2_service_handler(log: Log, config: u8) -> LSPS2 {
        LSPS2(recorder(format!("lsps2 service {}", config), &log))
    }
}

struct Format;

impl MessageFormat for Format {
    type ParseError = String;

    fn from_str_with_id_map(json_str: &str, map: &mut RequestIdMap) -> Result<LSPSMessage, String> {
        let object: serde_json::Value = serde_json::from_str(json_str).map_err(|e| e.to_string())?;
        let id = match object.get("id").and_then(|id| id.as_str()) {
            Some(id) => RequestId(id.to_string()),
            None => return Ok(LSPSMessage::Invalid),
        };
        if let Some(method) = object.get("method").and_then(|method| method.as_str()) {
            return message_of(method, id, None);
        }
        let result = object.get("result").ok_or("no result")?.to_string();
        let method = map.remove(&id.0).ok_or("unknown request")?;
        message_of(&method, id, Some(result))
    }

    fn to_json(message: &LSPSMessage) -> String {
        match message.get_request_id_and_method() {
            Some((id, method)) => format!("{{\"id\":\"{}\",\"method\":\"{}\"}}", id, method),
            None => "{}".to_string(),
        }
    }
}

fn message_of(method: &str, id: RequestId, result: Option<String>) -> Result<LSPSMessage, String> {
    let request = Request { method: method.to_string(), params: "{}".to_string() };
    Ok(match (&method[..5], result) {
        ("lsps0", None) => LSPSMessage::LSPS0(LSPS0Message::Request(id, request)),
        ("lsps0", Some(r)) => LSPSMessage::LSPS0(LSPS0Message::Response(id, Response::Result(r))),
        ("lsps1", None) => LSPSMessage::LSPS1(LSPS1Message::Request(id, request)),
        ("lsps1", Some(r)) => LSPSMessage::LSPS1(LSPS1Message::Response(id, Response::Result(r))),
        ("lsps2", None) => LSPSMessage::LSPS2(LSPS2Message::Request(id, request)),
        ("lsps2", Some(r)) => LSPSMessage::LSPS2(LSPS2Message::Response(id, Response::Result(r))),
        _ => return Err("unknown method".to_string()),
    })
}

type Manager = LiquidityManager<Log, Log, u8, Protocols>;

fn lsps0_request(id: &str, method: &str) -> LSPSMessage {
    LSPSMessage::LSPS0(LSPS0Message::Request(
        RequestId(id.to_string()),
        Request { method: method.to_string(), params: "{}".to_string() },
    ))
}

fn lsps2_request(id: &str, method: &str) -> LSPSMessage {
    LSPSMessage::LSPS2(LSPS2Message::Request(
        RequestId(id.to_string()),
        Request { method: method.to_string(), params: "{}".to_string() },
    ))
}

fn all_kinds() -> Vec<LSPSMessage> {
    let id = || RequestId("1".to_string());
    let request = || Request { method: "m".to_string(), params: "{}".to_string() };
    let response = || Response::Error("{}".to_string());
    vec![
        LSPSMessage::LSPS0(LSPS0Message::Request(id(), request())),
        LSPSMessage::LSPS0(LSPS0Message::Response(id(), response())),
        LSPSMessage::LSPS1(LSPS1Message::Request(id(), request())),
        LSPSMessage::LSPS1(LSPS1Message::Response(id(), response())),
        LSPSMessage::LSPS2(LSPS2Message::Request(id(), request())),
        LSPSMessage::LSPS2(LSPS2Message::Response(id(), response())),
    ]
}

fn log(replies: usize) -> Log {
    Log { replies, fails: false, calls: Rc::new(RefCell::new(Vec::new())) }
}

fn service_config(lsps1: Option<u8>, lsps2: Option<u8>) -> Option<LiquidityServiceConfig<u8, u8>> {
    Some(LiquidityServiceConfig { lsps1_service_config: lsps1, lsps2_service_config: lsps2 })
}

fn client_config(lsps1: Option<u8>, lsps2: Option<u8>) -> Option<LiquidityClientConfig<u8, u8>> {
    Some(LiquidityClientConfig { lsps1_client_config: lsps1, lsps2_client_config: lsps2 })
}

fn full(log: &Log) -> Manager {
    LiquidityManager::new(
        log.clone(),
        log.clone(),
        Some(9),
        None,
        service_config(Some(1), Some(2)),
        client_config(Some(3), Some(4)),
    )
}

fn bare(log: &Log) -> Manager {
    LiquidityManager::new(log.clone(), log.clone(), None, None, None, None)
}

fn sender() -> PublicKey {
    let mut bytes = vec![2u8];
    bytes.extend_from_slice(&[
        0x79, 0xbe, 0x66, 0x7e, 0xf9, 0xdc, 0xbb, 0xac, 0x55, 0xa0, 0x62, 0x95, 0xce, 0x87, 0x0b, 0x07,
        0x02, 0x9b, 0xfc, 0xdb, 0x2d, 0xce, 0x28, 0xd9, 0x59, 0xf2, 0x81, 0x5b, 0x16, 0xf8, 0x17, 0x98,
    ]);
    PublicKey::from_slice(&bytes).unwrap()
}

fn raw(payload: &str) -> RawLSPSMessage {
    RawLSPSMessage { payload: payload.to_string() }
}

#[test]
fn new_manager_has_the_configured_handlers() {
    let log = log(0);
    let manager = full(&log);
    assert_eq!(manager.lsps0_client_handler().0.name, "lsps0 client");
    assert_eq!(manager.lsps0_service_handler().unwrap().0.name, "lsps0 service []");
    assert_eq!(manager.lsps1_client_handler().unwrap().0.name, "lsps1 client Some(9) 3");
    assert_eq!(manager.lsps1_service_handler().unwrap().0.name, "lsps1 service Some(9) 1");
    assert_eq!(manager.lsps2_client_handler().unwrap().0.name, "lsps2 client 4");
    assert_eq!(manager.lsps2_service_handler().unwrap().0.name, "lsps2 service 2");
}

#[test]
fn new_manager_without_configuration_has_the_lsps0_client_alone() {
    let log = log(0);
    let manager = bare(&log);
    assert_eq!(manager.lsps0_client_handler().0.name, "lsps0 client");
    assert!(manager.lsps0_service_handler().is_none());
    assert!(manager.lsps1_client_handler().is_none());
    assert!(manager.lsps1_service_handler().is_none());
    assert!(manager.lsps2_client_handler().is_none());
    assert!(manager.lsps2_service_handler().is_none());
}

#[test]
fn empty_configurations_bring_the_lsps0_service() {
    let log = log(0);
    let manager: Manager = LiquidityManager::new(
        log.clone(),
        log.clone(),
        None,
        None,
        service_config(None, None),
        client_config(None, None),
    );
    assert!(manager.lsps0_service_handler().is_some());
    assert!(manager.lsps1_client_handler().is_none());
    assert!(manager.lsps1_service_handler().is_none());
    assert!(manager.lsps2_client_handler().is_none());
    assert!(manager.lsps2_service_handler().is_none());
}

#[test]
fn new_manager_has_nothing_pending() {
    let log = log(0);
    let mut manager = full(&log);
    assert!(manager.process_msgs_callback().is_none());
    assert_eq!(manager.next_event(), None);
    assert!(manager.get_and_clear_pending_events().is_empty());
    assert!(manager.get_and_clear_pending_msg().is_empty());
}

#[test]
fn messages_go_to_their_handlers() {
    let log = log(0);
    let mut manager = full(&log);
    let names = [
        "lsps0 service []",
        "lsps0 client",
        "lsps1 service Some(9) 1",
        "lsps1 client Some(9) 3",
        "lsps2 service 2",
        "lsps2 client 4",
    ];
    for (message, name) in all_kinds().into_iter().zip(names) {
        let inner = match &message {
            LSPSMessage::LSPS0(inner) => format!("{:?}", inner),
            LSPSMessage::LSPS1(inner) => format!("{:?}", inner),
            LSPSMessage::LSPS2(inner) => format!("{:?}", inner),
            LSPSMessage::Invalid => panic!("not a message for a handler"),
        };
        let handled = manager.handle_lsps_message(message, &sender());
        assert_eq!(handled.result, Ok(()));
        assert_eq!(manager.get_and_clear_pending_events(), vec![name.to_string()]);
        if name != "lsps0 service []" {
            let call = format!("{} {} {}", name, inner, sender().display());
            assert_eq!(log.calls.borrow_mut().pop(), Some(call));
        }
        assert!(log.calls.borrow().is_empty());
    }
}

#[test]
fn messages_without_a_handler_are_refused() {
    let log = log(1);
    let mut manager = bare(&log);
    manager.set_process_msgs_callback(1);
    let refusals = [
        Some(Refusal::NoLSPS0Service),
        None,
        Some(Refusal::NoLSPS1Service),
        Some(Refusal::NoLSPS1Client),
        Some(Refusal::NoLSPS2Service),
        Some(Refusal::NoLSPS2Client),
    ];
    for (message, refusal) in all_kinds().into_iter().zip(refusals) {
        let handled = manager.handle_lsps_message(message, &sender());
        match refusal {
            Some(refusal) => {
                let error = handled.result.unwrap_err();
                assert_eq!(error, refusal.error(&sender()));
                assert_eq!(error.action, ErrorAction::IgnoreAndLog(Level::Info));
                assert_eq!(handled.callback_calls, 0);
                assert!(manager.get_and_clear_pending_events().is_empty());
                assert!(manager.get_and_clear_pending_msg().is_empty());
            }
            None => {
                assert_eq!(handled.result, Ok(()));
                assert_eq!(handled.callback_calls, 1);
                assert_eq!(manager.get_and_clear_pending_events().len(), 1);
                assert_eq!(manager.get_and_clear_pending_msg().len(), 1);
            }
        }
    }
}

#[test]
fn notice_that_we_were_not_understood_is_reported() {
    let log = log(1);
    let mut manager = full(&log);
    let handled = manager.handle_custom_message(raw("{\"error\":1}"), &sender());
    let error = handled.result.unwrap_err();
    assert_eq!(error.err, "0279be667ef9dcbbac55a06295ce870b07029bfcdb2dce28d959f2815b16f81798 did not understand a message we previously sent, maybe they don't support a protocol we are trying to use?");
    assert_eq!(error.action, ErrorAction::IgnoreAndLog(Level::Error));
    assert!(log.calls.borrow().is_empty());
    assert!(manager.get_and_clear_pending_msg().is_empty());
}

#[test]
fn undecodable_message_is_answered_with_invalid() {
    let log = log(1);
    let mut manager = full(&log);
    assert_eq!(manager.handle_custom_message(raw("no json"), &sender()).callback_calls, 0);
    manager.set_process_msgs_callback(1);
    let handled = manager.handle_custom_message(raw("{\"id\":\"1\",\"method\":\"other\"}"), &sender());
    assert_eq!(handled.result, Ok(()));
    assert_eq!(handled.callback_calls, 1);
    assert_eq!(
        manager.get_and_clear_pending_msg(),
        vec![(sender(), raw("{}")), (sender(), raw("{}"))]
    );
    assert!(manager.get_and_clear_pending_events().is_empty());
    assert!(log.calls.borrow().is_empty());
}

#[test]
fn parsed_message_is_processed_or_answered() {
    let log = log(0);
    let mut manager = full(&log);
    let handled = manager.handle_parsed_message(Ok(lsps2_request("1", "m")), &sender());
    assert_eq!(handled.result, Ok(()));
    assert_eq!(manager.next_event(), Some("lsps2 service 2".to_string()));
    let handled = manager.handle_parsed_message(Err("bad".to_string()), &sender());
    assert_eq!(handled.result, Ok(()));
    assert_eq!(manager.next_event(), None);
    assert_eq!(manager.get_and_clear_pending_msg(), vec![(sender(), raw("{}"))]);
}

#[test]
fn failure_of_a_handler_is_reported_with_what_it_queued() {
    let mut log = log(2);
    log.fails = true;
    let mut manager = full(&log);
    manager.set_process_msgs_callback(1);
    let handled = manager.handle_custom_message(raw("{\"id\":\"1\",\"method\":\"lsps2.get\"}"), &sender());
    assert_eq!(handled.result, Err(failure()));
    assert_eq!(handled.callback_calls, 2);
    assert_eq!(manager.get_and_clear_pending_events().len(), 1);
    assert_eq!(
        manager.get_and_clear_pending_msg(),
        vec![
            (sender(), raw("{\"id\":\"reply0\",\"method\":\"reply\"}")),
            (sender(), raw("{\"id\":\"reply1\",\"method\":\"reply\"}")),
        ]
    );
}

#[test]
fn response_to_a_sent_request_finds_its_method_once() {
    let log = log(0);
    let mut manager = full(&log);
    manager.take_in(HandlerOutcome {
        result: Ok(()),
        messages: vec![
            (sender(), lsps0_request("a", "lsps1.wrong")),
            (sender(), LSPSMessage::Invalid),
            (sender(), lsps2_request("a", "lsps2.get")),
            (sender(), lsps0_request("b", "lsps0.list")),
        ],
        events: vec![],
    });
    let response = || raw("{\"id\":\"a\",\"result\":5}");
    manager.handle_custom_message(response(), &sender());
    assert!(log.calls.borrow().is_empty());
    assert_eq!(manager.get_and_clear_pending_msg().len(), 5);
    assert!(manager.get_and_clear_pending_msg().is_empty());

    assert_eq!(manager.handle_custom_message(response(), &sender()).result, Ok(()));
    assert_eq!(manager.next_event(), Some("lsps2 client 4".to_string()));
    manager.handle_custom_message(response(), &sender());
    assert_eq!(manager.next_event(), None);
    assert_eq!(manager.get_and_clear_pending_msg(), vec![(sender(), raw("{}"))]);

    manager.handle_custom_message(raw("{\"id\":\"b\",\"result\":5}"), &sender());
    assert_eq!(manager.next_event(), Some("lsps0 client".to_string()));
}

#[test]
fn record_of_a_request_outlasts_other_operations() {
    let log = log(1);
    let header = block(BlockHash { bytes: [5; 32] }, 1);
    let mut manager = full(&log);
    manager.take_in(HandlerOutcome {
        result: Ok(()),
        messages: vec![(sender(), lsps2_request("a", "lsps2.get"))],
        events: vec![],
    });
    manager.get_and_clear_pending_msg();

    manager.handle_custom_message(raw("{\"id\":\"x\",\"method\":\"lsps1.info\"}"), &sender());
    manager.handle_custom_message(raw("bad"), &sender());
    manager.handle_lsps_message(LSPSMessage::Invalid, &sender()).result.unwrap_err();
    manager.set_process_msgs_callback(1);
    manager.next_event();
    manager.get_and_clear_pending_events();
    manager.try_block_disconnected(&header, 1).unwrap();
    manager.get_and_clear_pending_msg();

    manager.handle_custom_message(raw("{\"id\":\"a\",\"result\":5}"), &sender());
    assert_eq!(manager.next_event(), Some("lsps2 client 4".to_string()));
}

#[test]
fn pending_messages_are_handed_out_in_order_and_once() {
    let log = log(1);
    let mut manager = full(&log);
    let other = PublicKey::from_slice(&{
        let mut bytes = sender().serialize();
        bytes[0] = 3;
        bytes
    })
    .unwrap();
    manager.handle_custom_message(raw("bad"), &other);
    manager.handle_custom_message(raw("{\"id\":\"1\",\"method\":\"lsps1.info\"}"), &sender());
    assert_eq!(
        manager.get_and_clear_pending_msg(),
        vec![(other, raw("{}")), (sender(), raw("{\"id\":\"reply0\",\"method\":\"reply\"}"))]
    );
    assert!(manager.get_and_clear_pending_msg().is_empty());
}

#[test]
fn events_come_in_order() {
    let log = log(0);
    let mut manager = full(&log);
    for message in all_kinds() {
        manager.handle_lsps_message(message, &sender());
    }
    assert_eq!(manager.next_event(), Some("lsps0 service []".to_string()));
    assert_eq!(manager.next_event(), Some("lsps0 client".to_string()));
    assert_eq!(
        manager.get_and_clear_pending_events(),
        vec![
            "lsps1 service Some(9) 1".to_string(),
            "lsps1 client Some(9) 3".to_string(),
            "lsps2 service 2".to_string(),
            "lsps2 client 4".to_string(),
        ]
    );
    assert_eq!(manager.next_event(), None);
}

#[test]
fn callback_can_be_replaced() {
    let log = log(3);
    let mut manager = full(&log);
    assert_eq!(manager.handle_lsps_message(lsps2_request("1", "m"), &sender()).callback_calls, 0);
    manager.set_process_msgs_callback(1);
    manager.set_process_msgs_callback(2);
    assert_eq!(manager.process_msgs_callback(), Some(&2));
    assert_eq!(manager.handle_lsps_message(lsps2_request("1", "m"), &sender()).callback_calls, 3);
    assert_eq!(manager.get_and_clear_pending_msg().len(), 6);
}

struct Source {
    message: Option<Result<RawLSPSMessage, u8>>,
}

impl RawMessageSource for Source {
    type Error = u8;
    fn read_raw_message(&mut self) -> Result<RawLSPSMessage, u8> {
        self.message.take().unwrap()
    }
}

#[test]
fn only_lsps_messages_are_read() {
    let log = log(0);
    let manager = bare(&log);
    assert_eq!(LSPS_MESSAGE_TYPE_ID, 37913);
    let mut source = Source { message: Some(Ok(raw("text"))) };
    assert_eq!(manager.read(37912, &mut source), Ok(None));
    assert!(source.message.is_some());
    assert_eq!(manager.read(37913, &mut source), Ok(Some(raw("text"))));
    assert!(source.message.is_none());
    let mut broken = Source { message: Some(Err(4)) };
    assert_eq!(manager.read(37913, &mut broken), Err(4));
}

#[test]
fn service_announces_its_feature_bit() {
    let log = log(0);
    assert_eq!(LSPS_FEATURE_BIT, 729);
    let manager = full(&log);
    let node = manager.provided_node_features();
    let init = manager.provided_init_features(&sender());
    let mut expected = vec![0u8; 92];
    expected[0] = 0b10;
    assert_eq!(node, expected);
    assert_eq!(init, expected);

    let mut features = NodeFeatures::empty();
    features.set_optional_custom_bit(729).unwrap();
    assert!(NodeFeatures::from_be_bytes(node) == features);
    let mut features = InitFeatures::empty();
    features.set_optional_custom_bit(729).unwrap();
    assert!(InitFeatures::from_be_bytes(init) == features);
}

#[test]
fn client_announces_no_feature() {
    let log = log(0);
    let manager: Manager = LiquidityManager::new(
        log.clone(),
        log.clone(),
        None,
        None,
        None,
        client_config(Some(3), Some(4)),
    );
    assert!(manager.provided_node_features().is_empty());
    assert!(manager.provided_init_features(&sender()).is_empty());
}

fn block(prev: BlockHash, nonce: u32) -> Header {
    Header {
        version: 2,
        prev_blockhash: prev,
        merkle_root: [7; 32],
        time: 1,
        bits: 0x207fffff,
        nonce,
    }
}

fn at(log: &Log, best_block: Option<BestBlock>) -> Manager {
    LiquidityManager::new(
        log.clone(),
        log.clone(),
        None,
        best_block.map(|best_block| ChainParameters { best_block }),
        None,
        None,
    )
}

#[test]
fn blocks_leave_and_rejoin_the_chain_in_order() {
    let log = log(0);
    let first = block(BlockHash { bytes: [0; 32] }, 1);
    let second = block(first.block_hash(), 2);
    let third = block(second.block_hash(), 3);
    let mut manager = at(&log, Some(BestBlock::new(third.block_hash(), 2)));
    let none: [(usize, u8); 0] = [];

    assert_eq!(manager.try_block_disconnected(&second, 2), Err(ChainOrderError::DisconnectedHash));
    assert_eq!(manager.try_block_disconnected(&third, 1), Err(ChainOrderError::DisconnectedHeight));
    assert_eq!(manager.try_block_disconnected(&third, 2), Ok(()));
    assert_eq!(manager.try_block_disconnected(&third, 2), Err(ChainOrderError::DisconnectedHash));

    // The tip is now the second block, and connecting does not move it.
    assert_eq!(manager.try_filtered_block_connected(&third, &none, 2), Ok(()));
    assert_eq!(manager.try_filtered_block_connected(&third, &none, 2), Ok(()));
    assert_eq!(
        manager.try_filtered_block_connected(&third, &none, 3),
        Err(ChainOrderError::ConnectedHeight)
    );
    assert_eq!(
        manager.try_filtered_block_connected(&second, &none, 2),
        Err(ChainOrderError::ConnectedHash)
    );

    assert_eq!(manager.try_block_disconnected(&second, 1), Ok(()));
    assert_eq!(manager.try_block_disconnected(&first, 0), Err(ChainOrderError::DisconnectedGenesis));
    manager.filtered_block_connected(&second, &none, 1);
}

#[test]
fn without_a_tip_any_order_goes() {
    let log = log(0);
    let mut manager = at(&log, None);
    let header = block(BlockHash { bytes: [5; 32] }, 1);
    assert_eq!(manager.try_filtered_block_connected(&header, &[(0, 'x')], 0), Ok(()));
    assert_eq!(manager.try_block_disconnected(&header, 9), Ok(()));
    manager.block_disconnected(&header, 1);
    assert_eq!(manager.try_block_disconnected(&header, 0), Err(ChainOrderError::DisconnectedGenesis));
}

#[test]
fn no_transactions_are_followed() {
    let log = log(0);
    let mut manager = full(&log);
    let header = block(BlockHash { bytes: [5; 32] }, 1);
    manager.transactions_confirmed(&header, &[(1, 'x')], 3);
    manager.transaction_unconfirmed(&[1; 32]);
    manager.best_block_updated(&header, 3);
    assert!(manager.get_relevant_txids().is_empty());
    assert!(manager.get_and_clear_pending_events().is_empty());
}
