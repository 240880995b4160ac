use lightning_liquidity::chain::{
    check_connect, check_disconnect, BestBlock, BlockHash, ChainOrderError, Header,
};
use lightning_liquidity::errors::{ErrorAction, Level, Refusal};
use lightning_liquidity::key::PublicKey;
use lightning_liquidity::messages::{
    LSPS0Message, LSPS1Message, LSPS2Message, LSPSMessage, Request, RequestId, RequestIdMap, Response,
};
use lightning_liquidity::queues::{EventQueue, MessageQueue};

const GENERATOR: &str = "0279be667ef9dcbbac55a06295ce870b07029bfcdb2dce28d959f2815b16f81798";
const GENERATOR_UNCOMPRESSED: &str = "0479be667ef9dcbbac55a06295ce870b07029bfcdb2dce28d959f2815b16f81798483ada7726a3c4655da4fbfc0e1108a8fd17b448a68554199c47d08ffb10d4b8";

fn unhex(text: &str) -> Vec<u8> {
    (0..text.len() / 2)
        .map(|i| u8::from_str_radix(&text[2 * i..2 * i + 2], 16).unwrap())
        .collect()
}

fn generator() -> PublicKey {
    PublicKey::from_slice(&unhex(GENERATOR)).unwrap()
}

fn request(method: &str) -> Request {
    Request { method: method.to_string(), params: "{}".to_string() }
}

fn response() -> Response {
    Response::Result("{}".to_string())
}

fn id(text: &str) -> RequestId {
    RequestId(text.to_string())
}

fn genesis() -> Header {
    let mut merkle_root = [0u8; 32];
    merkle_root.copy_from_slice(&unhex(
        "3ba3edfd7a7b12b27ac72c3e67768f617fc81bc3888a51323a9fb8aa4b1e5e4a",
    ));
    Header {
        version: 1,
        prev_blockhash: BlockHash { bytes: [0; 32] },
        merkle_root,
        time: 1231006505,
        bits: 0x1d00ffff,
        nonce: 2083236893,
    }
}

#[test]
fn compressed_key_is_read_and_written() {
    let key = generator();
    assert_eq!(key.serialize().to_vec(), unhex(GENERATOR));
    assert_eq!(key.display(), GENERATOR);
}

#[test]
fn uncompressed_key_is_compressed() {
    let key = PublicKey::from_slice(&unhex(GENERATOR_UNCOMPRESSED)).unwrap();
    assert_eq!(key, generator());
    assert_eq!(key.display(), GENERATOR);
}

#[test]
fn bytes_off_the_curve_are_no_key() {
    assert!(PublicKey::from_slice(&[]).is_none());
    assert!(PublicKey::from_slice(&[0; 33]).is_none());
    assert!(PublicKey::from_slice(&unhex(GENERATOR)[..32]).is_none());
}

#[test]
fn debugging_form_is_that_of_the_outside_key() {
    let outside = bitcoin::secp256k1::PublicKey::from_slice(&unhex(GENERATOR)).unwrap();
    let text = generator().debug();
    assert_eq!(text, format!("{:?}", outside));
    assert!(text.starts_with("PublicKey("));
    assert!(text.ends_with(")"));
    assert_eq!(text.len(), 10 + 128 + 1);
}

#[test]
fn refusals_have_their_texts_and_levels() {
    let error = Refusal::NotUnderstood.error_showing("02ab");
    assert_eq!(error.err, "02ab did not understand a message we previously sent, maybe they don't support a protocol we are trying to use?");
    assert_eq!(error.action, ErrorAction::IgnoreAndLog(Level::Error));

    let cases = [
        (Refusal::NoLSPS0Service, "Received LSPS0 request message without LSPS0 service handler configured. From node = me"),
        (Refusal::NoLSPS1Client, "Received LSPS1 response message without LSPS1 client handler configured. From node = me"),
        (Refusal::NoLSPS1Service, "Received LSPS1 request message without LSPS1 service handler configured. From node = me"),
        (Refusal::NoLSPS2Client, "Received LSPS2 response message without LSPS2 client handler configured. From node = me"),
        (Refusal::NoLSPS2Service, "Received LSPS2 request message without LSPS2 service handler configured. From node = me"),
    ];
    for (refusal, text) in cases {
        let error = refusal.error_showing("me");
        assert_eq!(error.err, text);
        assert_eq!(error.action, ErrorAction::IgnoreAndLog(Level::Info));
    }
}

#[test]
fn refusals_show_the_sender() {
    let key = generator();
    assert_eq!(
        Refusal::NotUnderstood.error(&key),
        Refusal::NotUnderstood.error_showing(GENERATOR)
    );
    let mut bytes = key.serialize();
    bytes[0] = 3;
    let other = PublicKey::from_slice(&bytes).unwrap();
    assert_ne!(key.debug(), other.debug());
    for refusal in [
        Refusal::NoLSPS0Service,
        Refusal::NoLSPS1Client,
        Refusal::NoLSPS1Service,
        Refusal::NoLSPS2Client,
        Refusal::NoLSPS2Service,
    ] {
        assert_eq!(refusal.error(&key), refusal.error_showing(&key.debug()));
        assert_eq!(refusal.error(&other), refusal.error_showing(&other.debug()));
    }
}

#[test]
fn requests_have_an_id_and_a_method() {
    let found = |message: LSPSMessage| message.get_request_id_and_method();
    let pair = |a: &str, b: &str| Some((a.to_string(), b.to_string()));
    assert_eq!(found(LSPSMessage::LSPS0(LSPS0Message::Request(id("a"), request("m0")))), pair("a", "m0"));
    assert_eq!(found(LSPSMessage::LSPS1(LSPS1Message::Request(id("b"), request("m1")))), pair("b", "m1"));
    assert_eq!(found(LSPSMessage::LSPS2(LSPS2Message::Request(id("c"), request("m2")))), pair("c", "m2"));
    assert_eq!(found(LSPSMessage::LSPS0(LSPS0Message::Response(id("a"), response()))), None);
    assert_eq!(found(LSPSMessage::LSPS1(LSPS1Message::Response(id("b"), response()))), None);
    assert_eq!(found(LSPSMessage::LSPS2(LSPS2Message::Response(id("c"), response()))), None);
    assert_eq!(found(LSPSMessage::Invalid), None);
}

#[test]
fn request_record_keeps_the_last_method() {
    let mut map = RequestIdMap::new();
    assert_eq!(map.get("a"), None);
    map.insert("a".to_string(), "first".to_string());
    map.insert("b".to_string(), "other".to_string());
    map.insert("a".to_string(), "second".to_string());
    assert_eq!(map.get("a"), Some(&"second".to_string()));
    assert_eq!(map.remove("a"), Some("second".to_string()));
    assert_eq!(map.remove("a"), None);
    assert_eq!(map.get("b"), Some(&"other".to_string()));
}

#[test]
fn message_queue_counts_callback_calls() {
    let key = generator();
    let mut queue: MessageQueue<u8> = MessageQueue::new();
    assert_eq!(queue.process_msgs_callback(), None);
    assert_eq!(queue.enqueue(&key, LSPSMessage::Invalid), 0);
    queue.set_process_msgs_callback(7);
    queue.set_process_msgs_callback(8);
    assert_eq!(queue.process_msgs_callback(), Some(&8));
    assert_eq!(queue.enqueue(&key, LSPSMessage::Invalid), 1);
    let more = vec![
        (key, LSPSMessage::LSPS0(LSPS0Message::Request(id("x"), request("m")))),
        (key, LSPSMessage::Invalid),
    ];
    assert_eq!(queue.enqueue_all(more), 2);
    let pending = queue.get_and_clear_pending_msgs();
    assert_eq!(
        pending,
        vec![
            (key, LSPSMessage::Invalid),
            (key, LSPSMessage::Invalid),
            (key, LSPSMessage::LSPS0(LSPS0Message::Request(id("x"), request("m")))),
            (key, LSPSMessage::Invalid),
        ]
    );
    assert!(queue.get_and_clear_pending_msgs().is_empty());
}

#[test]
fn event_queue_is_first_in_first_out() {
    let mut queue: EventQueue<u8> = EventQueue::new();
    assert_eq!(queue.next_event(), None);
    queue.enqueue_all(vec![1, 2, 3]);
    queue.enqueue_all(vec![]);
    queue.enqueue_all(vec![4]);
    assert_eq!(queue.next_event(), Some(1));
    assert_eq!(queue.get_and_clear_pending_events(), vec![2, 3, 4]);
    assert!(queue.get_and_clear_pending_events().is_empty());
}

#[test]
fn genesis_block_has_its_hash() {
    assert_eq!(
        genesis().block_hash().bytes.to_vec(),
        unhex("6fe28c0ab6f1b372c1a6a246ae63f74f931e8365e15a089c68d6190000000000")
    );
}

#[test]
fn hashes_are_compared_byte_by_byte() {
    let mut other = genesis().block_hash();
    assert!(genesis().block_hash().same(&other));
    other.bytes[31] = 1;
    assert!(!genesis().block_hash().same(&other));
}

#[test]
fn chain_order_is_checked() {
    let mut block = genesis();
    block.prev_blockhash = genesis().block_hash();
    let below = Some(BestBlock::new(genesis().block_hash(), 5));
    assert_eq!(check_connect(&below, &block, 6), None);
    assert_eq!(check_connect(&below, &block, 7), Some(ChainOrderError::ConnectedHeight));
    assert_eq!(check_connect(&below, &block, 0), Some(ChainOrderError::ConnectedHeight));
    assert_eq!(check_connect(&below, &genesis(), 6), Some(ChainOrderError::ConnectedHash));
    assert_eq!(check_connect(&None, &block, 0), None);

    let tip = Some(BestBlock::new(block.block_hash(), 6));
    assert_eq!(check_disconnect(&tip, &block, 6), None);
    assert_eq!(check_disconnect(&tip, &block, 5), Some(ChainOrderError::DisconnectedHeight));
    assert_eq!(check_disconnect(&tip, &genesis(), 6), Some(ChainOrderError::DisconnectedHash));
    assert_eq!(check_disconnect(&tip, &block, 0), Some(ChainOrderError::DisconnectedGenesis));
    assert_eq!(check_disconnect(&None, &block, 0), Some(ChainOrderError::DisconnectedGenesis));
    assert_eq!(check_disconnect(&None, &block, 3), None);
}

#[test]
fn chain_order_errors_have_their_texts() {
    assert_eq!(ChainOrderError::ConnectedHash.message(), "Blocks must be connected in chain-order - the connected header must build on the last connected header");
    assert_eq!(ChainOrderError::ConnectedHeight.message(), "Blocks must be connected in chain-order - the connected block height must be one greater than the previous height");
    assert_eq!(ChainOrderError::DisconnectedGenesis.message(), "attempt to subtract with overflow");
    assert_eq!(ChainOrderError::DisconnectedHash.message(), "Blocks must be disconnected in chain-order - the disconnected header must be the last connected header");
    assert_eq!(ChainOrderError::DisconnectedHeight.message(), "Blocks must be disconnected in chain-order - the disconnected block must have the correct height");
}
