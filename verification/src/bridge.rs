//! The one path by which the marketplace changes the ledger: it reports
//! what an asset contributes to the collateral, and the ledger adjusts its
//! total.
//!
//! The ledger keeps one total for all assets. Each report therefore names
//! the asset's new value together with the value it replaces, and the
//! total moves by the difference, so that several assets can back one
//! ledger without one report erasing what the others contributed.

use vstd::prelude::*;
use crate::error::StablecoinError;
use crate::guard::{lower, raise};
use crate::stablecoin::Config;
use crate::outcome::settles;

verus! {

/// Published when the marketplace changed the ledger's collateral total.
#[derive(Clone, Copy, Debug, PartialEq, Eq)]
pub struct StablecoinReservesUpdatedEvent {
    /// The collateral total after the change.
    pub real_estate_value: u64,
}

/// The collateral total once a contribution of `previous` has become
/// `current`. There is none where the total is smaller than the
/// contribution it is said to contain, or the new total leaves the 64-bit
/// range.
pub open spec fn collateral_replaced(total: u64, previous: u64, current: u64) -> Option<u64> {
    if previous > total || total - previous + current > u64::MAX {
        None
    } else {
        Some((total - previous + current) as u64)
    }
}

/// What the report "this asset, valued `previous_value` so far, is now
/// worth `real_estate_value`" does to the ledger. A new asset reports a
/// previous value of zero.
pub open spec fn update_stablecoin_reserves_outcome(
    config: Config,
    previous_value: u64,
    real_estate_value: u64,
) -> Result<(Config, StablecoinReservesUpdatedEvent), StablecoinError> {
    match collateral_replaced(config.real_estate_value, previous_value, real_estate_value) {
        None => Err(StablecoinError::Overflow),
        Some(total) => Ok(
            (
                Config { real_estate_value: total, ..config },
                StablecoinReservesUpdatedEvent { real_estate_value: total },
            ),
        ),
    }
}

/// Tells the ledger that an asset valued `previous_value` so far is now
/// worth `real_estate_value`.
pub fn update_stablecoin_reserves(config: &mut Config, previous_value: u64, real_estate_value: u64) -> (answer:
    Result<StablecoinReservesUpdatedEvent, StablecoinError>)
    ensures
        settles(
            update_stablecoin_reserves_outcome(*old(config), previous_value, real_estate_value),
            *old(config),
            *final(config),
            answer,
        ),
{
    let without = match lower(config.real_estate_value, previous_value) {
        Some(without) => without,
        None => {
            return Err(StablecoinError::Overflow);
        },
    };
    let total = match raise(without, real_estate_value) {
        Some(total) => total,
        None => {
            return Err(StablecoinError::Overflow);
        },
    };
    config.real_estate_value = total;
    Ok(StablecoinReservesUpdatedEvent { real_estate_value: total })
}

/// What the report "an asset worth `value_to_remove` was liquidated" does
/// to the ledger: its value leaves the collateral total.
pub open spec fn update_stablecoin_reserves_for_liquidation_outcome(config: Config, value_to_remove: u64) -> Result<
    (Config, StablecoinReservesUpdatedEvent),
    StablecoinError,
> {
    update_stablecoin_reserves_outcome(config, value_to_remove, 0)
}

/// Tells the ledger that an asset worth `value_to_remove` no longer backs
/// it.
pub fn update_stablecoin_reserves_for_liquidation(config: &mut Config, value_to_remove: u64) -> (answer: Result<
    StablecoinReservesUpdatedEvent,
    StablecoinError,
>)
    ensures
        settles(
            update_stablecoin_reserves_for_liquidation_outcome(*old(config), value_to_remove),
            *old(config),
            *final(config),
            answer,
        ),
{
    update_stablecoin_reserves(config, value_to_remove, 0)
}

} // verus!
