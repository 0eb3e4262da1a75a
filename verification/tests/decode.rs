use bridge_events::codec::encode_felt;
use bridge_events::decode::{get_store_data, get_xchain_txs, request_from_event_data};
use bridge_events::dispatch::{
    DEPOSIT_SELECTOR_HI, DEPOSIT_SELECTOR_LO, WITHDRAW_SELECTOR_HI, WITHDRAW_SELECTOR_LO,
};
use bridge_events::felt::Felt;
use bridge_events::model::{ActionKind, BridgeChain, DecodeError, EventLabel, RawEvent};

fn f(lo: u128) -> Felt {
    Felt { hi: 0, lo }
}

fn deposit_selector() -> Felt {
    Felt { hi: DEPOSIT_SELECTOR_HI, lo: DEPOSIT_SELECTOR_LO }
}

fn withdraw_selector() -> Felt {
    Felt { hi: WITHDRAW_SELECTOR_HI, lo: WITHDRAW_SELECTOR_LO }
}

/// An event whose keys carry the given selector and the hash halves
/// 0x11 (low) and 0x22 (high), and whose data payload repeats them.
fn event_with(selector: Felt, header: Felt) -> RawEvent {
    RawEvent {
        keys: vec![selector, f(0x11), f(0x22), f(1700000000)],
        data: vec![header, f(0x11), f(0x22), f(3), f(4), f(5), f(6)],
        block_number: 42,
        transaction_hash: f(0xdead),
    }
}

const HASH_11_22: &str = "0x00000000000000000000000000000000000000000000000000000000000002211";

#[test]
fn unrecognized_selector_yields_empty_triple() {
    let ev = event_with(f(99), f(0));
    let (req, audit, txs) = get_store_data(&ev).unwrap();
    assert!(req.is_none());
    assert!(audit.is_none());
    assert!(txs.is_empty());
}

#[test]
fn unrecognized_selector_ignores_payload_shape() {
    let ev = RawEvent {
        keys: vec![f(7), f(0), f(0), f(0)],
        data: vec![],
        block_number: 0,
        transaction_hash: f(0),
    };
    let (req, audit, txs) = get_store_data(&ev).unwrap();
    assert!(req.is_none());
    assert!(audit.is_none());
    assert!(txs.is_empty());
}

#[test]
fn deposit_with_both_flags_yields_two_actions_in_order() {
    let ev = event_with(deposit_selector(), f(0x01010000));
    let (req, audit, txs) = get_store_data(&ev).unwrap();
    let req = req.unwrap();
    let audit = audit.unwrap();

    assert_eq!(req.chain_src, BridgeChain::ChainA);
    assert_eq!(req.hash, HASH_11_22);
    assert_eq!(req.collection_src, encode_felt(&f(4)));
    assert_eq!(req.collection_dst, encode_felt(&f(3)));
    assert_eq!(req.from, encode_felt(&f(6)));
    assert_eq!(req.to, encode_felt(&f(5)));

    assert_eq!(audit.label, EventLabel::DepositInitiated);
    assert_eq!(audit.req_hash, HASH_11_22);
    assert_eq!(audit.block_number, 42);
    assert_eq!(audit.block_timestamp, f(1700000000));
    assert_eq!(audit.tx_hash, encode_felt(&f(0xdead)));

    assert_eq!(txs.len(), 2);
    assert_eq!(txs[0].kind, ActionKind::WithdrawAuto);
    assert_eq!(txs[1].kind, ActionKind::BurnAuto);
    for tx in &txs {
        assert_eq!(tx.chain, BridgeChain::ChainB);
        assert_eq!(tx.req_hash, HASH_11_22);
        assert_eq!(tx.req_content, req.content);
        assert_eq!(tx.tx_hash, "");
    }
}

#[test]
fn deposit_content_is_json_of_every_element() {
    let ev = event_with(deposit_selector(), f(0x01010000));
    let (req, _, _) = get_store_data(&ev).unwrap();
    let req = req.unwrap();
    let parts = [0x1010000u128, 0x11, 0x22, 3, 4, 5, 6];
    let mut expected = String::from("[");
    for (i, p) in parts.iter().enumerate() {
        if i > 0 {
            expected.push(',');
        }
        expected.push('"');
        expected.push_str(&encode_felt(&f(*p)));
        expected.push('"');
    }
    expected.push(']');
    assert_eq!(req.content, expected);
    assert!(req.content.starts_with(
        "[\"0x000000000000000000000000000000000000000000000000000000001010000\","
    ));
}

#[test]
fn deposit_header_zero_yields_no_actions() {
    let ev = event_with(deposit_selector(), f(0));
    let (req, audit, txs) = get_store_data(&ev).unwrap();
    assert!(req.is_some());
    assert!(audit.is_some());
    assert!(txs.is_empty());
}

#[test]
fn deposit_header_withdraw_bit_only() {
    let ev = event_with(deposit_selector(), f(0x01000000));
    let (_, _, txs) = get_store_data(&ev).unwrap();
    assert_eq!(txs.len(), 1);
    assert_eq!(txs[0].kind, ActionKind::WithdrawAuto);
}

#[test]
fn deposit_header_burn_bit_only() {
    let ev = event_with(deposit_selector(), f(0x010000));
    let (_, _, txs) = get_store_data(&ev).unwrap();
    assert_eq!(txs.len(), 1);
    assert_eq!(txs[0].kind, ActionKind::BurnAuto);
}

#[test]
fn deposit_header_over_128_bits_fails() {
    let ev = event_with(deposit_selector(), Felt { hi: 1, lo: 0 });
    assert_eq!(get_store_data(&ev).unwrap_err(), DecodeError::HeaderOverflow);
}

#[test]
fn withdraw_event_swaps_fields_and_has_no_actions() {
    let ev = event_with(withdraw_selector(), f(0x01010000));
    let (req, audit, txs) = get_store_data(&ev).unwrap();
    let req = req.unwrap();
    let audit = audit.unwrap();
    assert_eq!(req.chain_src, BridgeChain::ChainB);
    assert_eq!(req.collection_src, encode_felt(&f(3)));
    assert_eq!(req.collection_dst, encode_felt(&f(4)));
    assert_eq!(req.from, encode_felt(&f(5)));
    assert_eq!(req.to, encode_felt(&f(6)));
    assert_eq!(audit.label, EventLabel::WithdrawCompleted);
    assert!(txs.is_empty());
}

#[test]
fn withdraw_event_never_inspects_header() {
    // An oversized header fails a deposit, but a withdraw leg ignores it.
    let ev = event_with(withdraw_selector(), Felt { hi: 1, lo: 0 });
    let (req, _, txs) = get_store_data(&ev).unwrap();
    assert!(req.is_some());
    assert!(txs.is_empty());
}

#[test]
fn short_payload_is_malformed() {
    let mut ev = event_with(deposit_selector(), f(0));
    ev.data.pop();
    assert_eq!(ev.data.len(), 6);
    assert_eq!(get_store_data(&ev).unwrap_err(), DecodeError::MalformedEvent);
}

#[test]
fn corrupted_payload_hash_mismatch_is_fatal() {
    let mut ev = event_with(deposit_selector(), f(0));
    ev.data[1] = f(0x7777);
    assert_eq!(get_store_data(&ev).unwrap_err(), DecodeError::HashMismatch);
    let mut ev2 = event_with(withdraw_selector(), f(0));
    ev2.data[2] = f(0x7777);
    assert_eq!(get_store_data(&ev2).unwrap_err(), DecodeError::HashMismatch);
}

#[test]
fn extractor_needs_seven_elements() {
    let six = vec![f(0), f(1), f(2), f(3), f(4), f(5)];
    let r = request_from_event_data(&EventLabel::DepositInitiated, &six);
    assert_eq!(r.unwrap_err(), DecodeError::MalformedEvent);

    let seven = vec![f(0), f(1), f(2), f(3), f(4), f(5), f(6)];
    assert!(request_from_event_data(&EventLabel::DepositInitiated, &seven).is_ok());
}

#[test]
fn extractor_keeps_trailing_elements_in_content() {
    let nine = vec![f(0), f(1), f(2), f(3), f(4), f(5), f(6), f(7), f(8)];
    let req = request_from_event_data(&EventLabel::WithdrawCompleted, &nine).unwrap();
    // The layout ignores elements 7 and 8, the audit copy keeps them.
    assert_eq!(req.collection_src, encode_felt(&f(3)));
    assert!(req.content.contains(&encode_felt(&f(7))));
    assert!(req.content.contains(&encode_felt(&f(8))));
    assert_eq!(req.content.matches('"').count(), 18);
}

#[test]
fn header_decoder_orders_withdraw_before_burn() {
    let txs = get_xchain_txs(&f(0x01010000), String::from("h"), String::from("c")).unwrap();
    assert_eq!(txs.len(), 2);
    assert_eq!(txs[0].kind, ActionKind::WithdrawAuto);
    assert_eq!(txs[1].kind, ActionKind::BurnAuto);
    assert_eq!(txs[0].req_hash, "h");
    assert_eq!(txs[0].req_content, "c");
    assert_eq!(txs[0].tx_hash, "");
}

#[test]
fn header_decoder_rejects_oversized_header() {
    let r = get_xchain_txs(&Felt { hi: 7, lo: 9 }, String::from("h"), String::from("c"));
    assert_eq!(r.unwrap_err(), DecodeError::HeaderOverflow);
}

#[test]
fn header_decoder_ignores_unrelated_bits() {
    let txs = get_xchain_txs(&f(0xf0f0000f), String::from("h"), String::from("c")).unwrap();
    assert!(txs.is_empty());
}
