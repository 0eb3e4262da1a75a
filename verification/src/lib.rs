//! Verified decoding core of a cross-chain NFT bridge indexer: a pure
//! mapping from one raw on-chain event log to a pending bridge request,
//! an audit record, and the outbound actions derived for the counterpart
//! chain, under a fixed-width hex encoding that storage depends on
//! byte for byte.

pub mod felt;
pub mod model;
pub mod codec;
pub mod json;
pub mod dispatch;
pub mod decode;
