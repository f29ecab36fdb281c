//! Turns one executed transaction (its resource writes, table-item writes and
//! emitted events) into fungible-asset records: coin activities, coin
//! metadata, balance snapshots and the latest balance of each account.
pub mod aggregator;
pub mod coin_activities;
pub mod constants;
pub mod events;
pub mod genesis;
pub mod resources;
pub mod types;
