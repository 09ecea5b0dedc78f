//! A verified core for a market-pair sniping backend: a poller that
//! filters, deduplicates, and risk-scores newly listed trading pairs from a
//! market-data feed, a bounded most-recent-first opportunity store, a
//! bounded operational log, a bounded action history, and a simulated
//! network-statistics record. Every monetary amount is a fixed-point
//! integer (USD cents, nano-USD prices, lamports, basis points), every
//! bound and eviction rule is stated in a contract, and the transport,
//! the feed client, and the float-facing JSON shapes live outside this
//! crate.

pub mod dedup;
pub mod ext;
pub mod feed;
pub mod jito;
pub mod logsink;
pub mod poller;
pub mod quote;
pub mod risk;
pub mod snipe;
pub mod stats;
pub mod store;
pub mod text;
