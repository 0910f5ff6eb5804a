//! A dual-source price oracle reconciliation engine.
//!
//! A permissioned set of updaters reports a frequently refreshed "fast"
//! price; an authoritative reference price arrives from a slower external
//! oracle. The library decides whether an incoming update is admissible
//! (freshness gate), unpacks compact price words (decoder), tracks the
//! cumulative drift between the two feeds per time bucket (deviation
//! tracker), resolves the price callers should use under staleness or
//! disagreement (resolution engine), and runs a quorum-based kill switch
//! over the fast path (disable-vote state machine).
//!
//! All persistent state is modelled as an explicit [`state::FeedState`]
//! value that every operation receives; the surrounding host owns the
//! transactional boundary and storage mechanics.

pub mod addr_map;
pub mod admin;
pub mod contract;
pub mod decode;
pub mod errors;
pub mod freshness;
pub mod ingest;
pub mod msg;
pub mod resolve;
pub mod roles;
pub mod round_feed;
pub mod state;
pub mod votes;
