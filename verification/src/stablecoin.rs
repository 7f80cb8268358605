//! The ledger of one issued token: its reserves, its supply and the fee it
//! charges on transfers.

use vstd::prelude::*;
use crate::error::StablecoinError;
use crate::guard::{lemma_portion_bounded, lower, portion, raise};
use crate::identity::Identity;
use crate::outcome::settles;
use crate::token::{Receipt, TokenInstruction};

verus! {

/// The transfer fee in basis points: half a percent.
pub const FEE_BASIS_POINTS: u64 = 50;

/// Basis points in a whole.
pub const BASIS_POINTS: u64 = 10000;

/// Percent of a minted amount that the liquid reserve must cover.
pub const LIQUID_BACKING_PCT: u64 = 70;

/// Percent of a minted amount that the collateral must cover.
pub const COLLATERAL_BACKING_PCT: u64 = 30;

/// Percentage points in a whole.
pub const PERCENT: u64 = 100;

/// The record of one issued token.
#[derive(Clone, Copy, Debug, PartialEq, Eq)]
pub struct Config {
    /// Who may mint, burn and change the reserves.
    pub admin: Identity,
    /// The token type held as liquid reserve.
    pub usdt_mint: Identity,
    /// The account credited with transfer fees.
    pub dao_token_account: Identity,
    /// The issued token type.
    pub mint: Identity,
    /// Decimal places of the issued token, fixed at creation.
    pub decimals: u8,
    /// All fees collected so far.
    pub dao_contributions: u64,
    /// The reported liquid reserve.
    pub usdt_reserve: u64,
    /// The appraised value of all collateral.
    pub real_estate_value: u64,
    /// Units in circulation.
    pub total_supply: u64,
}

/// Published when a transfer went through.
#[derive(Clone, Copy, Debug, PartialEq, Eq)]
pub struct TransferEvent {
    pub from: Identity,
    pub to: Identity,
    /// What the recipient received, after the fee.
    pub amount: u64,
    pub fee: u64,
    pub dao: Identity,
}

/// Published when units were minted.
#[derive(Clone, Copy, Debug, PartialEq, Eq)]
pub struct MintEvent {
    pub to: Identity,
    pub amount: u64,
}

/// Published when units were burned.
#[derive(Clone, Copy, Debug, PartialEq, Eq)]
pub struct BurnEvent {
    pub from: Identity,
    pub amount: u64,
}

/// Published when the administrator restated the reserves.
#[derive(Clone, Copy, Debug, PartialEq, Eq)]
pub struct ReservesUpdatedEvent {
    pub usdt_amount: u64,
    pub real_estate_value: u64,
}

/// Published when the fee recipient changed.
#[derive(Clone, Copy, Debug, PartialEq, Eq)]
pub struct DaoUpdatedEvent {
    pub new_dao_account: Identity,
}

/// An amount divided into the fee and what is left of it.
#[derive(Clone, Copy, Debug, PartialEq, Eq)]
pub struct FeeSplit {
    pub fee: u64,
    pub amount_after_fee: u64,
}

/// What a transfer publishes and requests: one movement to the recipient
/// and one to the fee account.
#[derive(Clone, Copy, Debug, PartialEq, Eq)]
pub struct TransferReceipt {
    pub event: TransferEvent,
    pub payment: TokenInstruction,
    pub fee_payment: TokenInstruction,
}

/// The fee on `amount` at `rate` parts in `scale`, and the rest of the
/// amount.
///
/// There is no split where `amount * rate` leaves the 64-bit range or
/// `scale` is zero (`Overflow`), nor where the fee exceeds the amount
/// (`InsufficientAmount`), as it may at a rate above the scale.
pub open spec fn fee_split(amount: u64, rate: u64, scale: u64) -> Result<FeeSplit, StablecoinError> {
    if scale == 0 || amount * rate > u64::MAX {
        Err(StablecoinError::Overflow)
    } else if amount * rate / (scale as int) > amount {
        Err(StablecoinError::InsufficientAmount)
    } else {
        Ok(
            FeeSplit {
                fee: (amount * rate / (scale as int)) as u64,
                amount_after_fee: (amount - amount * rate / (scale as int)) as u64,
            },
        )
    }
}

/// The fee on a transfer of `amount`: half a percent, rounded down.
pub open spec fn transfer_fee(amount: u64) -> int {
    amount * 50 / 10000
}

/// The part of `amount` that the liquid reserve must cover.
pub open spec fn required_liquid(amount: u64) -> int {
    amount * 70 / 100
}

/// The part of `amount` that the collateral must cover.
pub open spec fn required_collateral(amount: u64) -> int {
    amount * 30 / 100
}

/// Whether the reserves of `config` back `amount`, for an amount whose
/// requirements can be computed in 64 bits.
pub open spec fn backed(config: Config, amount: u64) -> bool {
    config.usdt_reserve >= required_liquid(amount) && config.real_estate_value
        >= required_collateral(amount)
}

/// Whether the requirements for `amount` can be computed in 64 bits.
pub open spec fn backing_computable(amount: u64) -> bool {
    amount * 70 <= u64::MAX
}

/// Divides `amount` into the fee at `rate` parts in `scale` and the rest.
pub fn split_fee(amount: u64, rate: u64, scale: u64) -> (split: Result<FeeSplit, StablecoinError>)
    ensures
        split == fee_split(amount, rate, scale),
        split matches Ok(s) ==> s.fee + s.amount_after_fee == amount,
{
    match portion(amount, rate, scale) {
        None => Err(StablecoinError::Overflow),
        Some(fee) => match lower(amount, fee) {
            None => Err(StablecoinError::InsufficientAmount),
            Some(amount_after_fee) => Ok(FeeSplit { fee, amount_after_fee }),
        },
    }
}

/// The state of a new ledger.
pub open spec fn initial_config(
    admin: Identity,
    usdt_mint: Identity,
    dao_token_account: Identity,
    mint: Identity,
    decimals: u8,
) -> Config {
    Config {
        admin,
        usdt_mint,
        dao_token_account,
        mint,
        decimals,
        dao_contributions: 0,
        usdt_reserve: 0,
        real_estate_value: 0,
        total_supply: 0,
    }
}

/// Creates the ledger of the token `mint`, administered by `admin`, with
/// no fees collected, no reserves reported and nothing in circulation.
pub fn initialize(
    admin: Identity,
    usdt_mint: Identity,
    dao_token_account: Identity,
    mint: Identity,
    decimals: u8,
) -> (config: Config)
    ensures
        config == initial_config(admin, usdt_mint, dao_token_account, mint, decimals),
{
    Config {
        admin,
        usdt_mint,
        dao_token_account,
        mint,
        decimals,
        dao_contributions: 0,
        usdt_reserve: 0,
        real_estate_value: 0,
        total_supply: 0,
    }
}

/// What a transfer of `amount` from `sender` to `recipient` does.
///
/// It is refused with `Overflow` where fifty times the amount, or the fees
/// collected so far together with the new fee, leave the 64-bit range. At
/// this rate the fee never exceeds the amount. Otherwise the recipient gets
/// the amount less the fee, the fee account gets the fee, and the fees
/// collected grow by exactly the fee.
pub open spec fn transfer_outcome(
    config: Config,
    sender: Identity,
    recipient: Identity,
    amount: u64,
) -> Result<(Config, TransferReceipt), StablecoinError> {
    if amount * 50 > u64::MAX {
        Err(StablecoinError::Overflow)
    } else if config.dao_contributions + transfer_fee(amount) > u64::MAX {
        Err(StablecoinError::Overflow)
    } else {
        let fee = transfer_fee(amount) as u64;
        let amount_after_fee = (amount - transfer_fee(amount)) as u64;
        Ok(
            (
                Config { dao_contributions: (config.dao_contributions + fee) as u64, ..config },
                TransferReceipt {
                    event: TransferEvent {
                        from: sender,
                        to: recipient,
                        amount: amount_after_fee,
                        fee,
                        dao: config.dao_token_account,
                    },
                    payment: TokenInstruction::Transfer {
                        mint: config.mint,
                        from: sender,
                        to: recipient,
                        amount: amount_after_fee,
                    },
                    fee_payment: TokenInstruction::Transfer {
                        mint: config.mint,
                        from: sender,
                        to: config.dao_token_account,
                        amount: fee,
                    },
                },
            ),
        )
    }
}

/// Transfers `amount` from `sender` to `recipient`, less the fee of half a
/// percent, which goes to the fee account and is added to the fees
/// collected.
pub fn transfer(config: &mut Config, sender: Identity, recipient: Identity, amount: u64) -> (answer:
    Result<TransferReceipt, StablecoinError>)
    ensures
        settles(
            transfer_outcome(*old(config), sender, recipient, amount),
            *old(config),
            *final(config),
            answer,
        ),
        answer matches Ok(receipt) ==> receipt.event.fee + receipt.event.amount == amount
            && receipt.event.fee == amount * 50 / 10000,
{
    proof {
        lemma_portion_bounded(amount, FEE_BASIS_POINTS, BASIS_POINTS);
    }
    let split = match split_fee(amount, FEE_BASIS_POINTS, BASIS_POINTS) {
        Ok(split) => split,
        Err(e) => {
            return Err(e);
        },
    };
    let collected = match raise(config.dao_contributions, split.fee) {
        Some(collected) => collected,
        None => {
            return Err(StablecoinError::Overflow);
        },
    };
    let receipt = TransferReceipt {
        event: TransferEvent {
            from: sender,
            to: recipient,
            amount: split.amount_after_fee,
            fee: split.fee,
            dao: config.dao_token_account,
        },
        payment: TokenInstruction::Transfer {
            mint: config.mint,
            from: sender,
            to: recipient,
            amount: split.amount_after_fee,
        },
        fee_payment: TokenInstruction::Transfer {
            mint: config.mint,
            from: sender,
            to: config.dao_token_account,
            amount: split.fee,
        },
    };
    config.dao_contributions = collected;
    Ok(receipt)
}

/// Whether the reserves of `config` back `amount`: the liquid reserve
/// covers seventy percent of it and the collateral thirty, each rounded
/// down. The question has no answer where seventy times the amount leaves
/// the 64-bit range.
pub open spec fn backing_outcome(config: Config, amount: u64) -> Result<bool, StablecoinError> {
    if backing_computable(amount) {
        Ok(backed(config, amount))
    } else {
        Err(StablecoinError::Overflow)
    }
}

/// Whether the reserves back a further `additional_amount`. Only the
/// amount asked about is held against the reserves, not what is already in
/// circulation.
pub fn is_backed(config: &Config, additional_amount: u64) -> (answer: Result<bool, StablecoinError>)
    ensures
        answer == backing_outcome(*config, additional_amount),
{
    let required_usdt = match portion(additional_amount, LIQUID_BACKING_PCT, PERCENT) {
        Some(required) => required,
        None => {
            return Err(StablecoinError::Overflow);
        },
    };
    let required_real_estate = match portion(additional_amount, COLLATERAL_BACKING_PCT, PERCENT) {
        Some(required) => required,
        None => {
            assert(additional_amount * 30 <= additional_amount * 70) by (nonlinear_arith);
            return Err(StablecoinError::Overflow);
        },
    };
    Ok(config.usdt_reserve >= required_usdt && config.real_estate_value >= required_real_estate)
}

/// What minting `amount` to `recipient` at the request of `caller` does.
///
/// Only the administrator may mint (`Unauthorized`). The requirements must
/// be computable (`Overflow`) and met by the reserves as they stand
/// (`InsufficientReserves`), and the supply must stay within 64 bits
/// (`Overflow`). Then the supply grows by the amount.
pub open spec fn mint_outcome(config: Config, caller: Identity, recipient: Identity, amount: u64) -> Result<
    (Config, Receipt<MintEvent>),
    StablecoinError,
> {
    if caller != config.admin {
        Err(StablecoinError::Unauthorized)
    } else if !backing_computable(amount) {
        Err(StablecoinError::Overflow)
    } else if !backed(config, amount) {
        Err(StablecoinError::InsufficientReserves)
    } else if config.total_supply + amount > u64::MAX {
        Err(StablecoinError::Overflow)
    } else {
        Ok(
            (
                Config { total_supply: (config.total_supply + amount) as u64, ..config },
                Receipt {
                    event: MintEvent { to: recipient, amount },
                    token: TokenInstruction::MintTo { mint: config.mint, to: recipient, amount },
                },
            ),
        )
    }
}

/// Mints `amount` to `recipient`, where `caller` is the administrator and
/// the reserves back the amount.
pub fn mint(config: &mut Config, caller: Identity, recipient: Identity, amount: u64) -> (answer: Result<
    Receipt<MintEvent>,
    StablecoinError,
>)
    ensures
        settles(
            mint_outcome(*old(config), caller, recipient, amount),
            *old(config),
            *final(config),
            answer,
        ),
{
    if caller != config.admin {
        return Err(StablecoinError::Unauthorized);
    }
    match is_backed(config, amount) {
        Err(e) => {
            return Err(e);
        },
        Ok(false) => {
            return Err(StablecoinError::InsufficientReserves);
        },
        Ok(true) => {},
    }
    let supply = match raise(config.total_supply, amount) {
        Some(supply) => supply,
        None => {
            return Err(StablecoinError::Overflow);
        },
    };
    let receipt = Receipt {
        event: MintEvent { to: recipient, amount },
        token: TokenInstruction::MintTo { mint: config.mint, to: recipient, amount },
    };
    config.total_supply = supply;
    Ok(receipt)
}

/// What burning `amount` held by `from` at the request of `caller` does.
///
/// Only the administrator may burn (`Unauthorized`), and no more than is in
/// circulation (`Overflow`). Then the supply shrinks by the amount.
pub open spec fn burn_outcome(config: Config, caller: Identity, from: Identity, amount: u64) -> Result<
    (Config, Receipt<BurnEvent>),
    StablecoinError,
> {
    if caller != config.admin {
        Err(StablecoinError::Unauthorized)
    } else if amount > config.total_supply {
        Err(StablecoinError::Overflow)
    } else {
        Ok(
            (
                Config { total_supply: (config.total_supply - amount) as u64, ..config },
                Receipt {
                    event: BurnEvent { from, amount },
                    token: TokenInstruction::Burn { mint: config.mint, from, amount },
                },
            ),
        )
    }
}

/// Burns `amount` held by `from`, where `caller` is the administrator.
pub fn burn(config: &mut Config, caller: Identity, from: Identity, amount: u64) -> (answer: Result<
    Receipt<BurnEvent>,
    StablecoinError,
>)
    ensures
        settles(burn_outcome(*old(config), caller, from, amount), *old(config), *final(config), answer),
{
    if caller != config.admin {
        return Err(StablecoinError::Unauthorized);
    }
    let supply = match lower(config.total_supply, amount) {
        Some(supply) => supply,
        None => {
            return Err(StablecoinError::Overflow);
        },
    };
    let receipt = Receipt {
        event: BurnEvent { from, amount },
        token: TokenInstruction::Burn { mint: config.mint, from, amount },
    };
    config.total_supply = supply;
    Ok(receipt)
}

/// What restating the reserves at the request of `caller` does: both
/// figures are replaced, for the administrator only.
pub open spec fn update_reserves_outcome(
    config: Config,
    caller: Identity,
    usdt_amount: u64,
    real_estate_value: u64,
) -> Result<(Config, ReservesUpdatedEvent), StablecoinError> {
    if caller != config.admin {
        Err(StablecoinError::Unauthorized)
    } else {
        Ok(
            (
                Config { usdt_reserve: usdt_amount, real_estate_value, ..config },
                ReservesUpdatedEvent { usdt_amount, real_estate_value },
            ),
        )
    }
}

/// Replaces the reported liquid reserve and collateral value.
pub fn update_reserves(config: &mut Config, caller: Identity, usdt_amount: u64, real_estate_value: u64) -> (answer:
    Result<ReservesUpdatedEvent, StablecoinError>)
    ensures
        settles(
            update_reserves_outcome(*old(config), caller, usdt_amount, real_estate_value),
            *old(config),
            *final(config),
            answer,
        ),
{
    if caller != config.admin {
        return Err(StablecoinError::Unauthorized);
    }
    config.usdt_reserve = usdt_amount;
    config.real_estate_value = real_estate_value;
    Ok(ReservesUpdatedEvent { usdt_amount, real_estate_value })
}

/// What restating the collateral value alone does: it is replaced, for the
/// administrator only.
pub open spec fn update_real_estate_outcome(config: Config, caller: Identity, new_value: u64) -> Result<
    (Config, ReservesUpdatedEvent),
    StablecoinError,
> {
    update_reserves_outcome(config, caller, config.usdt_reserve, new_value)
}

/// Replaces the collateral value and leaves the liquid reserve as reported.
pub fn update_real_estate(config: &mut Config, caller: Identity, new_value: u64) -> (answer: Result<
    ReservesUpdatedEvent,
    StablecoinError,
>)
    ensures
        settles(
            update_real_estate_outcome(*old(config), caller, new_value),
            *old(config),
            *final(config),
            answer,
        ),
{
    let usdt_amount = config.usdt_reserve;
    update_reserves(config, caller, usdt_amount, new_value)
}

/// What naming a new fee recipient at the request of `caller` does: the
/// recipient is replaced, for the administrator only (`Unauthorized`) and
/// never by the null identity (`InvalidDaoAccount`).
pub open spec fn update_dao_account_outcome(config: Config, caller: Identity, new_dao_account: Identity) -> Result<
    (Config, DaoUpdatedEvent),
    StablecoinError,
> {
    if caller != config.admin {
        Err(StablecoinError::Unauthorized)
    } else if new_dao_account.is_null() {
        Err(StablecoinError::InvalidDaoAccount)
    } else {
        Ok((Config { dao_token_account: new_dao_account, ..config }, DaoUpdatedEvent { new_dao_account }))
    }
}

/// Names the account that is credited with transfer fees from now on.
pub fn update_dao_account(config: &mut Config, caller: Identity, new_dao_account: Identity) -> (answer: Result<
    DaoUpdatedEvent,
    StablecoinError,
>)
    ensures
        settles(
            update_dao_account_outcome(*old(config), caller, new_dao_account),
            *old(config),
            *final(config),
            answer,
        ),
{
    if caller != config.admin {
        return Err(StablecoinError::Unauthorized);
    }
    if new_dao_account.is_default() {
        return Err(StablecoinError::InvalidDaoAccount);
    }
    config.dao_token_account = new_dao_account;
    Ok(DaoUpdatedEvent { new_dao_account })
}

/// The liquid reserve, the collateral value, and whether they back a mint
/// of nothing, which they always do.
pub fn get_reserves(config: &Config) -> (status: (u64, u64, bool))
    ensures
        status.0 == config.usdt_reserve,
        status.1 == config.real_estate_value,
        status.2 == backed(*config, 0),
        status.2,
{
    let backed = matches!(is_backed(config, 0), Ok(true));
    (config.usdt_reserve, config.real_estate_value, backed)
}

/// All fees collected so far.
pub fn get_dao_contributions(config: &Config) -> (total: u64)
    ensures
        total == config.dao_contributions,
{
    config.dao_contributions
}

} // verus!
