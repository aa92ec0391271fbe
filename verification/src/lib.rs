//! AG Coin: the verified core of a minimal Substrate solochain.
//!
//! The crate holds the template pallet's state machine, the runtime's
//! configuration constants, the genesis presets and their JSON encoding, the
//! chain-spec choices of the node and the decisions the node makes when it
//! starts its services.

pub mod pallet;
pub mod keys;
pub mod json;
pub mod runtime;
pub mod genesis;
pub mod chain_spec;
pub mod era;
pub mod node;
pub mod rpc;
