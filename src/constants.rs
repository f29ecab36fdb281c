//! The type names that the classifiers recognize, and the reserved values
//! of the gas-fee activity.
use vstd::prelude::*;

verus! {

/// Key type of the table entry that backs an aggregator.
pub const AGGREGATOR_KEY_TYPE: &'static str = "address";

/// Value type of the table entry that backs an aggregator.
pub const AGGREGATOR_VALUE_TYPE: &'static str = "u128";

/// Account that publishes the coin module.
pub const COIN_MODULE_ADDRESS: &'static str = "0x1";

/// Module that defines coins, their stores and their events.
pub const COIN_MODULE: &'static str = "coin";

/// Resource that describes a coin type.
pub const COIN_INFO_RESOURCE: &'static str = "CoinInfo";

/// Resource that holds an account's balance of one coin type.
pub const COIN_STORE_RESOURCE: &'static str = "CoinStore";

/// Event that a coin store emits when coins leave it.
pub const WITHDRAW_EVENT: &'static str = "0x1::coin::WithdrawEvent";

/// Event that a coin store emits when coins enter it.
pub const DEPOSIT_EVENT: &'static str = "0x1::coin::DepositEvent";

/// Activity type of the gas fee that a user transaction pays; no real event
/// has this type.
pub const BURN_GAS_EVENT: &'static str = "0x1::aptos_coin::GasBurnEvent";

/// Creation number of the gas-fee activity; on chain these are never
/// negative, so the key cannot collide with a real event.
pub const BURN_GAS_EVENT_CREATION_NUM: i64 = -1;

/// Sequence number of the gas-fee activity.
pub const BURN_GAS_EVENT_SEQUENCE_NUM: i64 = -1;

/// The chain's native coin, in which gas is paid.
pub const APTOS_COIN_TYPE: &'static str = "0x1::aptos_coin::AptosCoin";

/// Longest entry-function identifier kept on an activity, in characters.
pub const MAX_ENTRY_FUNCTION_ID_CHARS: usize = 100;

} // verus!
