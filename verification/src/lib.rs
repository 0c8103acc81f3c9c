//! Core of a bridge between a Lightning node runtime and a mint's payment
//! processing contract: fee reserves, payment identifiers, event ingestion,
//! notification fan-out, outgoing payment polling and lifecycle sequencing.

pub mod address;
pub mod broadcast;
pub mod clock;
pub mod config;
pub mod events;
pub mod fee;
pub mod hex;
pub mod invoice;
pub mod lifecycle;
pub mod management;
pub mod mint;
pub mod node;
pub mod paths;
pub mod payment;
pub mod poller;
pub mod proto;
pub mod store;
pub mod tally;
pub mod text;
pub mod units;
pub mod utils;

pub use config::{BitcoinRpcConfig, ChainSource, GossipSource};
pub use node::CdkLdkNode;
