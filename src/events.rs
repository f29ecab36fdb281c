//! Recognizes the withdraw and deposit events of the coin module.
use crate::types::{number_field_of, DecodeError, Event, get_number_field};
use crate::constants::{DEPOSIT_EVENT, WITHDRAW_EVENT};
use vstd::prelude::*;
use vstd::string::*;

verus! {

/// A recognized coin event with its amount.
#[derive(Clone, Copy, Debug, PartialEq, Eq)]
pub enum CoinEvent {
    WithdrawCoinEvent(u128),
    DepositCoinEvent(u128),
}

impl CoinEvent {
    pub open spec fn spec_amount(self) -> u128 {
        match self {
            CoinEvent::WithdrawCoinEvent(a) => a,
            CoinEvent::DepositCoinEvent(a) => a,
        }
    }

    pub fn amount(&self) -> (r: u128)
        ensures
            r == self.spec_amount(),
    {
        match self {
            CoinEvent::WithdrawCoinEvent(a) => *a,
            CoinEvent::DepositCoinEvent(a) => *a,
        }
    }
}

/// An event type that the classifier recognizes.
pub open spec fn is_coin_event_type(t: Seq<char>) -> bool {
    t == WITHDRAW_EVENT@ || t == DEPOSIT_EVENT@
}

/// What an event says of coins: nothing (a type not recognized), a withdraw
/// or deposit with its amount, or a payload that does not fit its type.
pub open spec fn coin_event_of(e: Event) -> Result<Option<CoinEvent>, DecodeError> {
    if !is_coin_event_type(e.event_type@) {
        Ok(None)
    } else {
        match number_field_of(e.fields@, "amount"@) {
            None => Err(DecodeError),
            Some(a) => if e.event_type@ == WITHDRAW_EVENT@ {
                Ok(Some(CoinEvent::WithdrawCoinEvent(a)))
            } else {
                Ok(Some(CoinEvent::DepositCoinEvent(a)))
            },
        }
    }
}

impl CoinEvent {
    /// Classifies an event; a type not recognized gives `Ok(None)`.
    pub fn from_event(e: &Event) -> (r: Result<Option<CoinEvent>, DecodeError>)
        ensures
            r == coin_event_of(*e),
    {
        let withdraw = e.event_type == String::from_str(WITHDRAW_EVENT);
        let deposit = e.event_type == String::from_str(DEPOSIT_EVENT);
        if !withdraw && !deposit {
            return Ok(None);
        }
        match get_number_field(&e.fields, "amount") {
            None => Err(DecodeError),
            Some(a) => if withdraw {
                Ok(Some(CoinEvent::WithdrawCoinEvent(a)))
            } else {
                Ok(Some(CoinEvent::DepositCoinEvent(a)))
            },
        }
    }
}

} // verus!
