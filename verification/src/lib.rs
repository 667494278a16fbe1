//! Chain-following core of a blockchain node: the intersection resolver, the
//! chain-sync worker's decisions and failure policy, and the start-up plan of
//! the event publication service, each with a machine-checked contract.

pub mod event;
pub mod header;
pub mod intersection;
pub mod laws;
pub mod point;
pub mod policy;
pub mod serve;
pub mod worker;
