use crate::codec::{
    encode_felt, encode_u256_pair, felt_hex, lemma_encode_u256_injective, lemma_felt_hex_chars,
    u256_hex,
};
use crate::dispatch::{selector_label, SelectorTable};
use crate::felt::Felt;
use crate::json::{
    json_array, json_plain_char, json_plain_seq, json_string_array, lemma_hex_text_is_json_plain,
};
use crate::model::{
    ActionKind, AuditEvent, BridgeChain, BridgeRequest, DecodeError, EventLabel, OutboundAction,
    RawEvent,
};
use vstd::prelude::*;

verus! {

/// Header bit selecting an automatic withdraw on the counterpart chain.
pub const HEADER_WITHDRAW_AUTO: u128 = 0x01000000;

/// Header bit selecting an automatic burn on the counterpart chain.
pub const HEADER_BURN_AUTO: u128 = 0x010000;

pub open spec fn wf_felts(s: Seq<Felt>) -> bool {
    forall|i: int| 0 <= i < s.len() ==> (#[trigger] s[i]).wf()
}

/// The audit copy of a raw payload: the JSON array of every element's
/// canonical encoding, in payload order.
pub open spec fn content_json(data: Seq<Felt>) -> Seq<char> {
    json_array(data.map_values(|f: Felt| felt_hex(f.value())))
}

/// The chain a recognized event originates from.
pub open spec fn src_chain_of(label: EventLabel) -> BridgeChain {
    match label {
        EventLabel::DepositInitiated => BridgeChain::ChainA,
        EventLabel::WithdrawCompleted => BridgeChain::ChainB,
    }
}

/// The request hash as the event's keys state it.
pub open spec fn keys_hash(event: RawEvent) -> Seq<char> {
    u256_hex(event.keys@[1].value(), event.keys@[2].value())
}

/// The request hash as the event's data payload states it.
pub open spec fn data_hash(event: RawEvent) -> Seq<char> {
    u256_hex(event.data@[1].value(), event.data@[2].value())
}

/// Keys and payload agree on the request hash.
pub open spec fn hash_consistent(event: RawEvent) -> bool {
    data_hash(event) == keys_hash(event)
}

/// The field layout of a decoded request: the hash from payload
/// elements 1 and 2, the four identifier fields from elements 3 to 6
/// with source and destination swapped between the two labels, and the
/// full payload kept verbatim as JSON content.
pub open spec fn request_matches(req: BridgeRequest, label: EventLabel, data: Seq<Felt>) -> bool {
    &&& req.hash@ == u256_hex(data[1].value(), data[2].value())
    &&& req.chain_src == src_chain_of(label)
    &&& match label {
        EventLabel::DepositInitiated => {
            &&& req.collection_src@ == felt_hex(data[4].value())
            &&& req.collection_dst@ == felt_hex(data[3].value())
            &&& req.from@ == felt_hex(data[6].value())
            &&& req.to@ == felt_hex(data[5].value())
        },
        EventLabel::WithdrawCompleted => {
            &&& req.collection_src@ == felt_hex(data[3].value())
            &&& req.collection_dst@ == felt_hex(data[4].value())
            &&& req.from@ == felt_hex(data[5].value())
            &&& req.to@ == felt_hex(data[6].value())
        },
    }
    &&& req.content@ == content_json(data)
}

/// The audit record of one recognized event: hash from the keys,
/// timestamp from key 3, block number and transaction hash as reported.
pub open spec fn audit_matches(ev: AuditEvent, label: EventLabel, event: RawEvent) -> bool {
    &&& ev.req_hash@ == keys_hash(event)
    &&& ev.label == label
    &&& ev.block_timestamp == event.keys@[3]
    &&& ev.block_number == event.block_number
    &&& ev.tx_hash@ == felt_hex(event.transaction_hash.value())
}

pub open spec fn withdraw_auto_set(h: u128) -> bool {
    h & HEADER_WITHDRAW_AUTO == HEADER_WITHDRAW_AUTO
}

pub open spec fn burn_auto_set(h: u128) -> bool {
    h & HEADER_BURN_AUTO == HEADER_BURN_AUTO
}

/// One outbound action, destined for the counterpart chain, with its
/// transaction hash still empty.
pub open spec fn action_matches(
    a: OutboundAction,
    kind: ActionKind,
    hash: Seq<char>,
    content: Seq<char>,
) -> bool {
    &&& a.chain == BridgeChain::ChainB
    &&& a.kind == kind
    &&& a.req_hash@ == hash
    &&& a.req_content@ == content
    &&& a.tx_hash@ == Seq::<char>::empty()
}

/// The actions a header value derives: one `WithdrawAuto` when its bit
/// is set, then one `BurnAuto` when its bit is set, in that fixed order.
pub open spec fn actions_match(
    acts: Seq<OutboundAction>,
    h: u128,
    hash: Seq<char>,
    content: Seq<char>,
) -> bool {
    &&& acts.len() == (if withdraw_auto_set(h) {
        1 as int
    } else {
        0 as int
    }) + (if burn_auto_set(h) {
        1 as int
    } else {
        0 as int
    })
    &&& withdraw_auto_set(h) ==> action_matches(acts[0], ActionKind::WithdrawAuto, hash, content)
    &&& burn_auto_set(h) ==> action_matches(
        acts[if withdraw_auto_set(h) {
            1 as int
        } else {
            0 as int
        }],
        ActionKind::BurnAuto,
        hash,
        content,
    )
}

/// Reads the fixed-position fields of a recognized event's data payload
/// into a request. Fails with `MalformedEvent` exactly when the payload
/// is shorter than its seven fixed elements; trailing elements take no
/// part in the layout but stay in the content copy.
pub fn request_from_event_data(label: &EventLabel, data: &Vec<Felt>) -> (r: Result<
    BridgeRequest,
    DecodeError,
>)
    requires
        wf_felts(data@),
    ensures
        r is Ok <==> data@.len() >= 7,
        r is Ok ==> request_matches(r->Ok_0, *label, data@),
        r is Err ==> r->Err_0 == DecodeError::MalformedEvent,
{
    if data.len() < 7 {
        return Err(DecodeError::MalformedEvent);
    }
    let mut items: Vec<String> = Vec::new();
    let mut i: usize = 0;
    while i < data.len()
        invariant
            wf_felts(data@),
            0 <= i <= data@.len(),
            items@.len() == i,
            forall|j: int| 0 <= j < i ==> (#[trigger] items@[j])@ == felt_hex(data@[j].value()),
        decreases data@.len() - i,
    {
        let f = data[i];
        items.push(encode_felt(&f));
        i = i + 1;
    }
    proof {
        assert forall|j: int| 0 <= j < items@.len() implies json_plain_seq(
            #[trigger] items@[j]@,
        ) by {
            lemma_felt_hex_chars(data@[j].value());
            assert forall|k: int| 0 <= k < items@[j]@.len() implies json_plain_char(
                #[trigger] items@[j]@[k],
            ) by {
                lemma_hex_text_is_json_plain(items@[j]@[k]);
            }
        }
    }
    let content = json_string_array(&items);
    proof {
        assert(items@.map_values(|s: String| s@) =~= data@.map_values(
            |f: Felt| felt_hex(f.value()),
        ));
    }
    let e1 = data[1];
    let e2 = data[2];
    let hash = encode_u256_pair(&e1, &e2);
    let req = match label {
        EventLabel::DepositInitiated => {
            let c_src = data[4];
            let c_dst = data[3];
            let f_from = data[6];
            let f_to = data[5];
            BridgeRequest {
                hash,
                chain_src: BridgeChain::ChainA,
                collection_src: encode_felt(&c_src),
                collection_dst: encode_felt(&c_dst),
                from: encode_felt(&f_from),
                to: encode_felt(&f_to),
                content,
            }
        },
        EventLabel::WithdrawCompleted => {
            let c_src = data[3];
            let c_dst = data[4];
            let f_from = data[5];
            let f_to = data[6];
            BridgeRequest {
                hash,
                chain_src: BridgeChain::ChainB,
                collection_src: encode_felt(&c_src),
                collection_dst: encode_felt(&c_dst),
                from: encode_felt(&f_from),
                to: encode_felt(&f_to),
                content,
            }
        },
    };
    Ok(req)
}

/// Derives the outbound actions a deposit's packed header asks for.
/// Fails with `HeaderOverflow` exactly when the header value does not
/// fit in 128 bits; otherwise zero, one or two actions result, the
/// automatic withdraw always in front of the automatic burn.
pub fn get_xchain_txs(header: &Felt, req_hash: String, req_content: String) -> (r: Result<
    Vec<OutboundAction>,
    DecodeError,
>)
    ensures
        r is Ok <==> header.value() < 0x100000000000000000000000000000000,
        r is Err ==> r->Err_0 == DecodeError::HeaderOverflow,
        r is Ok ==> header.value() == header.lo && actions_match(
            r->Ok_0@,
            header.lo,
            req_hash@,
            req_content@,
        ),
{
    if header.hi != 0 {
        proof {
            assert(header.hi * 0x100000000000000000000000000000000 >= 1
                * 0x100000000000000000000000000000000) by (nonlinear_arith)
                requires
                    header.hi >= 1,
            ;
        }
        return Err(DecodeError::HeaderOverflow);
    }
    let h = header.lo;
    let can_withdraw_auto = h & HEADER_WITHDRAW_AUTO == HEADER_WITHDRAW_AUTO;
    let can_burn_auto = h & HEADER_BURN_AUTO == HEADER_BURN_AUTO;
    let mut txs: Vec<OutboundAction> = Vec::new();
    if can_withdraw_auto {
        txs.push(
            OutboundAction {
                chain: BridgeChain::ChainB,
                kind: ActionKind::WithdrawAuto,
                req_hash: req_hash.clone(),
                req_content: req_content.clone(),
                tx_hash: String::new(),
            },
        );
    }
    if can_burn_auto {
        txs.push(
            OutboundAction {
                chain: BridgeChain::ChainB,
                kind: ActionKind::BurnAuto,
                req_hash,
                req_content,
                tx_hash: String::new(),
            },
        );
    }
    Ok(txs)
}

/// What decoding one raw event returns, given the label its
/// discriminant resolved to.
///
/// An unrecognized discriminant is no error: the result is the empty
/// triple. A recognized one yields the decoded request, its audit
/// record, and the derived actions — or the one error its input forces:
/// a short payload `MalformedEvent`, an oversized deposit header
/// `HeaderOverflow`, and keys and payload that disagree on the request
/// hash the fatal `HashMismatch`.
pub open spec fn decoded_matches(
    r: Result<(Option<BridgeRequest>, Option<AuditEvent>, Vec<OutboundAction>), DecodeError>,
    label_opt: Option<EventLabel>,
    event: RawEvent,
) -> bool {
    &&& label_opt is None ==> r is Ok && r->Ok_0.0 is None && r->Ok_0.1 is None
        && r->Ok_0.2@.len() == 0
    &&& label_opt matches Some(label) ==> recognized_matches(r, label, event)
}

/// The recognized half of `decoded_matches`.
pub open spec fn recognized_matches(
    r: Result<(Option<BridgeRequest>, Option<AuditEvent>, Vec<OutboundAction>), DecodeError>,
    label: EventLabel,
    event: RawEvent,
) -> bool {
    &&& event.data@.len() < 7 ==> r is Err && r->Err_0 == DecodeError::MalformedEvent
    &&& event.data@.len() >= 7 ==> match label {
        EventLabel::DepositInitiated => {
            &&& event.data@[0].value() >= 0x100000000000000000000000000000000 ==> r is Err
                && r->Err_0 == DecodeError::HeaderOverflow
            &&& event.data@[0].value() < 0x100000000000000000000000000000000 ==> {
                &&& !hash_consistent(event) ==> r is Err && r->Err_0 == DecodeError::HashMismatch
                &&& hash_consistent(event) ==> {
                    &&& r is Ok
                    &&& r->Ok_0.0 matches Some(req) && request_matches(req, label, event.data@)
                    &&& r->Ok_0.1 matches Some(ev) && audit_matches(ev, label, event)
                    &&& actions_match(
                        r->Ok_0.2@,
                        event.data@[0].lo,
                        data_hash(event),
                        content_json(event.data@),
                    )
                }
            }
        },
        EventLabel::WithdrawCompleted => {
            &&& !hash_consistent(event) ==> r is Err && r->Err_0 == DecodeError::HashMismatch
            &&& hash_consistent(event) ==> {
                &&& r is Ok
                &&& r->Ok_0.0 matches Some(req) && request_matches(req, label, event.data@)
                &&& r->Ok_0.1 matches Some(ev) && audit_matches(ev, label, event)
                &&& r->Ok_0.2@.len() == 0
            }
        },
    }
}

/// Round trip of the request hash: whenever a recognized event decodes
/// successfully, the request carries exactly the hash derived from the
/// event's keys — the decoder returns no request whose payload-derived
/// hash disagrees with the keys.
pub proof fn lemma_request_hash_round_trip(
    r: Result<(Option<BridgeRequest>, Option<AuditEvent>, Vec<OutboundAction>), DecodeError>,
    label: EventLabel,
    event: RawEvent,
)
    requires
        recognized_matches(r, label, event),
        r is Ok,
    ensures
        r->Ok_0.0 matches Some(req) && req.hash@ == keys_hash(event),
{
    assert(event.data@.len() >= 7);
    match label {
        EventLabel::DepositInitiated => {
            assert(event.data@[0].value() < 0x100000000000000000000000000000000);
            assert(hash_consistent(event));
        },
        EventLabel::WithdrawCompleted => {
            assert(hash_consistent(event));
        },
    }
}

/// Decodes one raw event against an arbitrary selector table: resolves
/// the discriminant, and for a recognized label extracts the request,
/// builds the audit record, derives the deposit's outbound actions, and
/// cross-checks the two derivations of the request hash.
pub fn decode_event(table: &SelectorTable, event: &RawEvent) -> (r: Result<
    (Option<BridgeRequest>, Option<AuditEvent>, Vec<OutboundAction>),
    DecodeError,
>)
    requires
        event.wf(),
        event.keys@.len() >= 4,
    ensures
        decoded_matches(r, table.lookup_spec(event.keys@[0].value()), *event),
{
    let k0 = event.keys[0];
    let label_opt = table.lookup(&k0);
    match label_opt {
        None => Ok((None, None, Vec::new())),
        Some(label) => {
            let request = match request_from_event_data(&label, &event.data) {
                Ok(rq) => rq,
                Err(e) => {
                    return Err(e);
                },
            };
            let txs: Vec<OutboundAction> = match label {
                EventLabel::DepositInitiated => {
                    let header = event.data[0];
                    match get_xchain_txs(&header, request.hash.clone(), request.content.clone()) {
                        Ok(t) => t,
                        Err(e) => {
                            return Err(e);
                        },
                    }
                },
                EventLabel::WithdrawCompleted => Vec::new(),
            };
            let consistent = event.data[1] == event.keys[1] && event.data[2] == event.keys[2];
            if !consistent {
                proof {
                    if hash_consistent(*event) {
                        lemma_encode_u256_injective(
                            event.data@[1],
                            event.data@[2],
                            event.keys@[1],
                            event.keys@[2],
                        );
                    }
                }
                return Err(DecodeError::HashMismatch);
            }
            let k1 = event.keys[1];
            let k2 = event.keys[2];
            let hash = encode_u256_pair(&k1, &k2);
            let audit = AuditEvent {
                req_hash: hash,
                label,
                block_timestamp: event.keys[3],
                block_number: event.block_number,
                tx_hash: encode_felt(&event.transaction_hash),
            };
            Ok((Some(request), Some(audit), txs))
        },
    }
}

/// Decodes one raw event against the bridge's own selector table: the
/// pure mapping from a raw log to the stored request, audit record and
/// outbound actions.
pub fn get_store_data(event: &RawEvent) -> (r: Result<
    (Option<BridgeRequest>, Option<AuditEvent>, Vec<OutboundAction>),
    DecodeError,
>)
    requires
        event.wf(),
        event.keys@.len() >= 4,
    ensures
        decoded_matches(r, selector_label(event.keys@[0].value()), *event),
{
    let table = SelectorTable::bridge_selectors();
    let r = decode_event(&table, event);
    r
}

} // verus!
