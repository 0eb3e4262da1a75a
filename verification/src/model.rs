use crate::felt::Felt;
use vstd::prelude::*;

verus! {

/// The two endpoints of the bridge. `ChainA` is the chain whose raw
/// events this module decodes; `ChainB` is the counterpart chain on
/// which derived outbound actions are executed.
#[derive(Clone, Copy, Debug, PartialEq, Eq, Structural)]
pub enum BridgeChain {
    ChainA,
    ChainB,
}

/// The semantic kind of a recognized raw event.
#[derive(Clone, Copy, Debug, PartialEq, Eq, Structural)]
pub enum EventLabel {
    DepositInitiated,
    WithdrawCompleted,
}

/// The kind of a derived outbound action.
#[derive(Clone, Copy, Debug, PartialEq, Eq, Structural)]
pub enum ActionKind {
    WithdrawAuto,
    BurnAuto,
}

/// Every way the decoding of one raw event can fail.
#[derive(Clone, Copy, Debug, PartialEq, Eq, Structural)]
pub enum DecodeError {
    /// The data payload is shorter than the fixed part of a request.
    MalformedEvent,
    /// A label without a defined field layout reached the extractor.
    UnsupportedLabel,
    /// Fewer than two elements were given to the 256-bit encoder.
    InsufficientElements,
    /// The packed header value does not fit in 128 bits.
    HeaderOverflow,
    /// The hash decoded from the data payload disagrees with the hash
    /// derived from the event's keys; fatal, not recoverable.
    HashMismatch,
}

/// One raw event log as the chain reports it. By protocol convention
/// `keys[0]` is the event discriminant, `keys[1]` and `keys[2]` encode
/// the 256-bit request hash, `keys[3]` is a block timestamp.
#[derive(Clone, Debug)]
pub struct RawEvent {
    pub keys: Vec<Felt>,
    pub data: Vec<Felt>,
    pub block_number: u64,
    pub transaction_hash: Felt,
}

impl RawEvent {
    /// Every felt the event carries fits the field's width.
    pub open spec fn wf(self) -> bool {
        &&& forall|i: int| 0 <= i < self.keys@.len() ==> (#[trigger] self.keys@[i]).wf()
        &&& forall|i: int| 0 <= i < self.data@.len() ==> (#[trigger] self.data@[i]).wf()
        &&& self.transaction_hash.wf()
    }
}

/// The canonical record of one cross-chain transfer intent, decoded
/// from a recognized raw event.
#[derive(Clone, Debug)]
pub struct BridgeRequest {
    pub hash: String,
    pub chain_src: BridgeChain,
    pub collection_src: String,
    pub collection_dst: String,
    pub from: String,
    pub to: String,
    pub content: String,
}

/// The audit record of one recognized raw event.
#[derive(Clone, Debug)]
pub struct AuditEvent {
    pub req_hash: String,
    pub label: EventLabel,
    pub block_timestamp: Felt,
    pub block_number: u64,
    pub tx_hash: String,
}

/// One derived, not yet executed step on the counterpart chain.
/// `tx_hash` starts empty; a downstream executor fills it in.
#[derive(Clone, Debug)]
pub struct OutboundAction {
    pub chain: BridgeChain,
    pub kind: ActionKind,
    pub req_hash: String,
    pub req_content: String,
    pub tx_hash: String,
}

} // verus!
