//! The collateral assets: their listing, valuation, ownership and
//! liquidation.
//!
//! An asset is `Listed` while its value holds, `AtRisk` once a valuation
//! falls below its liquidation floor, and `Liquidated` once the
//! administrator has seized it. A valuation at or above the floor returns
//! an asset at risk to `Listed`. Nothing changes a liquidated asset.

use vstd::prelude::*;
use crate::bridge::{
    collateral_replaced, update_stablecoin_reserves, update_stablecoin_reserves_for_liquidation,
    update_stablecoin_reserves_for_liquidation_outcome, update_stablecoin_reserves_outcome,
    StablecoinReservesUpdatedEvent,
};
use crate::error::RWAMarketplaceError;
use crate::guard::{portion, raise};
use crate::identity::Identity;
use crate::stablecoin::{Config, PERCENT};
use crate::outcome::settles;
use crate::token::{Receipt, TokenAccountRef, TokenInstruction};

verus! {

/// The liquidation threshold of a new marketplace, in percent.
pub const DEFAULT_LIQUIDATION_THRESHOLD: u8 = 90;

/// The number of token units that certify one asset.
pub const CERTIFICATE_UNITS: u64 = 1;

/// The record of the marketplace.
#[derive(Clone, Copy, Debug, PartialEq, Eq)]
pub struct Marketplace {
    /// Who may liquidate, lower valuations and set the threshold.
    pub admin: Identity,
    /// The ledger that the assets back.
    pub stablecoin_config: Identity,
    /// How many assets were ever listed.
    pub nft_count: u64,
    /// The threshold given to assets listed without one, in percent.
    pub liquidation_threshold: u8,
}

/// Where an asset stands.
#[derive(Clone, Copy, Debug, PartialEq, Eq, Structural)]
pub enum AssetStatus {
    Listed,
    AtRisk,
    Liquidated,
}

/// The record of one collateral asset.
#[derive(Clone, Debug, PartialEq, Eq)]
pub struct RealEstateProperty {
    pub owner: Identity,
    /// The token type whose single unit certifies the asset.
    pub mint: Identity,
    /// The latest valuation.
    pub value: u64,
    /// The valuation at listing.
    pub initial_value: u64,
    /// When the latest valuation was made.
    pub last_valuation_date: i64,
    pub location: String,
    pub details: String,
    pub status: AssetStatus,
    /// The percentage of the initial value below which the asset is at
    /// risk.
    pub liquidation_threshold: u8,
}

/// Published when an asset was listed.
#[derive(Clone, Debug, PartialEq, Eq)]
pub struct RWAListedEvent {
    pub owner: Identity,
    pub mint: Identity,
    pub value: u64,
    pub location: String,
}

/// Published on every valuation.
#[derive(Clone, Copy, Debug, PartialEq, Eq)]
pub struct RWAValuationUpdatedEvent {
    pub mint: Identity,
    pub old_value: u64,
    pub new_value: u64,
    pub timestamp: i64,
}

/// Published when an asset changed hands.
#[derive(Clone, Copy, Debug, PartialEq, Eq)]
pub struct RWATransferredEvent {
    pub mint: Identity,
    pub from: Identity,
    pub to: Identity,
    pub value: u64,
}

/// Published whenever a valuation lies below the liquidation floor, also
/// when the asset was at risk already.
#[derive(Clone, Copy, Debug, PartialEq, Eq)]
pub struct RWALiquidationRiskEvent {
    pub mint: Identity,
    pub current_value: u64,
    /// The liquidation floor that the value fell below.
    pub liquidation_threshold: u64,
}

/// Published when an asset was liquidated.
#[derive(Clone, Copy, Debug, PartialEq, Eq)]
pub struct RWALiquidatedEvent {
    pub mint: Identity,
    pub owner: Identity,
    pub value: u64,
}

/// Published when the default threshold changed.
#[derive(Clone, Copy, Debug, PartialEq, Eq)]
pub struct LiquidationThresholdUpdatedEvent {
    pub new_threshold: u8,
}

/// What a listing creates, publishes and requests.
#[derive(Clone, Debug, PartialEq, Eq)]
pub struct Listing {
    /// The record of the new asset.
    pub property: RealEstateProperty,
    pub event: RWAListedEvent,
    /// The minting of the certificate to the owner.
    pub token: TokenInstruction,
    pub reserves: StablecoinReservesUpdatedEvent,
}

/// What a valuation publishes.
#[derive(Clone, Copy, Debug, PartialEq, Eq)]
pub struct Valuation {
    pub event: RWAValuationUpdatedEvent,
    /// The warning, where the new value lies below the floor.
    pub risk: Option<RWALiquidationRiskEvent>,
    /// The ledger's answer, where the value changed.
    pub reserves: Option<StablecoinReservesUpdatedEvent>,
}

/// What a liquidation publishes and requests.
#[derive(Clone, Copy, Debug, PartialEq, Eq)]
pub struct Liquidation {
    pub event: RWALiquidatedEvent,
    /// The seizure of the certificate by the administrator.
    pub token: TokenInstruction,
    pub reserves: StablecoinReservesUpdatedEvent,
}

/// Whether `pct` is a percentage between 1 and 100.
pub open spec fn valid_threshold(pct: u8) -> bool {
    1 <= pct <= 100
}

/// Whether `pct` is a percentage between 1 and 100.
pub fn is_valid_threshold(pct: u8) -> (valid: bool)
    ensures
        valid == valid_threshold(pct),
{
    pct > 0 && pct <= 100
}

/// The value below which an asset listed at `initial_value` with the
/// threshold `pct` is at risk.
pub open spec fn liquidation_floor(initial_value: u64, pct: u8) -> int {
    initial_value * pct / 100
}

impl Marketplace {
    /// A marketplace is well formed when its default threshold is a
    /// percentage between 1 and 100.
    pub open spec fn wf(&self) -> bool {
        valid_threshold(self.liquidation_threshold)
    }
}

impl RealEstateProperty {
    /// An asset is well formed when its threshold is a percentage between
    /// 1 and 100.
    pub open spec fn wf(&self) -> bool {
        valid_threshold(self.liquidation_threshold)
    }

    /// The value below which this asset is at risk.
    pub open spec fn floor(&self) -> int {
        liquidation_floor(self.initial_value, self.liquidation_threshold)
    }
}

/// The state of a new marketplace.
pub open spec fn initial_marketplace(admin: Identity, stablecoin_config_address: Identity) -> Marketplace {
    Marketplace {
        admin,
        stablecoin_config: stablecoin_config_address,
        nft_count: 0,
        liquidation_threshold: 90,
    }
}

/// Creates the marketplace administered by `admin` that feeds the ledger
/// at `stablecoin_config_address`, with no asset listed and a default
/// threshold of ninety percent.
pub fn initialize(admin: Identity, stablecoin_config_address: Identity) -> (marketplace: Marketplace)
    ensures
        marketplace == initial_marketplace(admin, stablecoin_config_address),
        marketplace.wf(),
{
    Marketplace {
        admin,
        stablecoin_config: stablecoin_config_address,
        nft_count: 0,
        liquidation_threshold: DEFAULT_LIQUIDATION_THRESHOLD,
    }
}

/// The threshold of an asset listed with `liquidation_threshold`: the one
/// given, or else the marketplace's default.
pub open spec fn listing_threshold(marketplace: Marketplace, liquidation_threshold: Option<u8>) -> u8 {
    match liquidation_threshold {
        Some(pct) => pct,
        None => marketplace.liquidation_threshold,
    }
}

/// What listing an asset does.
///
/// The threshold must be a percentage between 1 and 100
/// (`InvalidThreshold`); the count of assets and the ledger's collateral
/// total must stay within 64 bits (`Overflow`). Then the asset is
/// `Listed` at `asset_value`, its certificate is minted to the owner, the
/// count grows by one and the ledger's collateral total by the value.
pub open spec fn list_rwa_outcome(
    marketplace: Marketplace,
    config: Config,
    owner: Identity,
    mint: Identity,
    asset_value: u64,
    location: String,
    property_details: String,
    liquidation_threshold: Option<u8>,
    now: i64,
) -> Result<((Marketplace, Config), Listing), RWAMarketplaceError> {
    let threshold = listing_threshold(marketplace, liquidation_threshold);
    if !valid_threshold(threshold) {
        Err(RWAMarketplaceError::InvalidThreshold)
    } else if marketplace.nft_count + 1 > u64::MAX {
        Err(RWAMarketplaceError::Overflow)
    } else {
        match update_stablecoin_reserves_outcome(config, 0, asset_value) {
            Err(_) => Err(RWAMarketplaceError::Overflow),
            Ok((ledger, reserves)) => Ok(
                (
                    (Marketplace { nft_count: (marketplace.nft_count + 1) as u64, ..marketplace }, ledger),
                    Listing {
                        property: RealEstateProperty {
                            owner,
                            mint,
                            value: asset_value,
                            initial_value: asset_value,
                            last_valuation_date: now,
                            location,
                            details: property_details,
                            status: AssetStatus::Listed,
                            liquidation_threshold: threshold,
                        },
                        event: RWAListedEvent { owner, mint, value: asset_value, location },
                        token: TokenInstruction::MintTo { mint, to: owner, amount: 1 },
                        reserves,
                    },
                ),
            ),
        }
    }
}

/// Lists the asset certified by `mint` for `owner` at `asset_value`, with
/// the given threshold or else the marketplace's default, as of `now`.
pub fn list_rwa(
    marketplace: &mut Marketplace,
    config: &mut Config,
    owner: Identity,
    mint: Identity,
    asset_value: u64,
    location: String,
    property_details: String,
    liquidation_threshold: Option<u8>,
    now: i64,
) -> (answer: Result<Listing, RWAMarketplaceError>)
    ensures
        settles(
            list_rwa_outcome(
                *old(marketplace),
                *old(config),
                owner,
                mint,
                asset_value,
                location,
                property_details,
                liquidation_threshold,
                now,
            ),
            (*old(marketplace), *old(config)),
            (*final(marketplace), *final(config)),
            answer,
        ),
        answer matches Ok(listing) ==> listing.property.wf(),
        old(marketplace).wf() ==> final(marketplace).wf(),
{
    let threshold = match liquidation_threshold {
        Some(pct) => pct,
        None => marketplace.liquidation_threshold,
    };
    if !is_valid_threshold(threshold) {
        return Err(RWAMarketplaceError::InvalidThreshold);
    }
    let count = match raise(marketplace.nft_count, 1) {
        Some(count) => count,
        None => {
            return Err(RWAMarketplaceError::Overflow);
        },
    };
    let reserves = match update_stablecoin_reserves(config, 0, asset_value) {
        Ok(reserves) => reserves,
        Err(_) => {
            return Err(RWAMarketplaceError::Overflow);
        },
    };
    marketplace.nft_count = count;
    let event = RWAListedEvent { owner, mint, value: asset_value, location: location.clone() };
    let property = RealEstateProperty {
        owner,
        mint,
        value: asset_value,
        initial_value: asset_value,
        last_valuation_date: now,
        location,
        details: property_details,
        status: AssetStatus::Listed,
        liquidation_threshold: threshold,
    };
    Ok(
        Listing {
            property,
            event,
            token: TokenInstruction::MintTo { mint, to: owner, amount: CERTIFICATE_UNITS },
            reserves,
        },
    )
}

/// The status of an asset that is not liquidated after a valuation of
/// `new_value`: at risk below the floor, listed at or above it.
pub open spec fn status_at(floor: int, new_value: u64) -> AssetStatus {
    if new_value < floor {
        AssetStatus::AtRisk
    } else {
        AssetStatus::Listed
    }
}

/// What a valuation of `new_value` by `caller` does.
///
/// Only the administrator may lower a value (`Unauthorized`). A liquidated
/// asset takes no valuation (`NotEligibleForLiquidation`). The floor must
/// be computable in 64 bits, and where the value changes the ledger must
/// accept the change (`Overflow`). Then the asset is at risk if the new
/// value lies below its floor, and listed otherwise; it carries the new
/// value and the time `now`; and the ledger's collateral total holds the
/// new value in place of the old.
pub open spec fn update_valuation_outcome(
    marketplace: Marketplace,
    property: RealEstateProperty,
    config: Config,
    caller: Identity,
    new_value: u64,
    now: i64,
) -> Result<((RealEstateProperty, Config), Valuation), RWAMarketplaceError> {
    if new_value < property.value && caller != marketplace.admin {
        Err(RWAMarketplaceError::Unauthorized)
    } else if property.status == AssetStatus::Liquidated {
        Err(RWAMarketplaceError::NotEligibleForLiquidation)
    } else if property.initial_value * property.liquidation_threshold > u64::MAX {
        Err(RWAMarketplaceError::Overflow)
    } else if new_value != property.value && collateral_replaced(
        config.real_estate_value,
        property.value,
        new_value,
    ) is None {
        Err(RWAMarketplaceError::Overflow)
    } else {
        let floor = property.floor();
        let ledger = if new_value != property.value {
            Config {
                real_estate_value: collateral_replaced(
                    config.real_estate_value,
                    property.value,
                    new_value,
                )->Some_0,
                ..config
            }
        } else {
            config
        };
        Ok(
            (
                (
                    RealEstateProperty {
                        value: new_value,
                        last_valuation_date: now,
                        status: status_at(floor, new_value),
                        ..property
                    },
                    ledger,
                ),
                Valuation {
                    event: RWAValuationUpdatedEvent {
                        mint: property.mint,
                        old_value: property.value,
                        new_value,
                        timestamp: now,
                    },
                    risk: if new_value < floor {
                        Some(
                            RWALiquidationRiskEvent {
                                mint: property.mint,
                                current_value: new_value,
                                liquidation_threshold: floor as u64,
                            },
                        )
                    } else {
                        None
                    },
                    reserves: if new_value != property.value {
                        Some(StablecoinReservesUpdatedEvent { real_estate_value: ledger.real_estate_value })
                    } else {
                        None
                    },
                },
            ),
        )
    }
}

/// Records a valuation of `new_value` made by `caller` at the time `now`.
pub fn update_valuation(
    marketplace: &Marketplace,
    property: &mut RealEstateProperty,
    config: &mut Config,
    caller: Identity,
    new_value: u64,
    now: i64,
) -> (answer: Result<Valuation, RWAMarketplaceError>)
    ensures
        settles(
            update_valuation_outcome(*marketplace, *old(property), *old(config), caller, new_value, now),
            (*old(property), *old(config)),
            (*final(property), *final(config)),
            answer,
        ),
        old(property).wf() ==> final(property).wf(),
{
    let old_value = property.value;
    if new_value < old_value && caller != marketplace.admin {
        return Err(RWAMarketplaceError::Unauthorized);
    }
    if property.status == AssetStatus::Liquidated {
        return Err(RWAMarketplaceError::NotEligibleForLiquidation);
    }
    let liquidation_value = match portion(property.initial_value, property.liquidation_threshold as u64, PERCENT) {
        Some(floor) => floor,
        None => {
            return Err(RWAMarketplaceError::Overflow);
        },
    };
    let reserves = if old_value != new_value {
        match update_stablecoin_reserves(config, old_value, new_value) {
            Ok(reserves) => Some(reserves),
            Err(_) => {
                return Err(RWAMarketplaceError::Overflow);
            },
        }
    } else {
        None
    };
    let risk = if new_value < liquidation_value {
        property.status = AssetStatus::AtRisk;
        Some(
            RWALiquidationRiskEvent {
                mint: property.mint,
                current_value: new_value,
                liquidation_threshold: liquidation_value,
            },
        )
    } else {
        property.status = AssetStatus::Listed;
        None
    };
    property.value = new_value;
    property.last_valuation_date = now;
    Ok(
        Valuation {
            event: RWAValuationUpdatedEvent { mint: property.mint, old_value, new_value, timestamp: now },
            risk,
            reserves,
        },
    )
}

/// What handing an asset from `caller` to `new_owner` does.
///
/// Only the owner may hand it on (`Unauthorized`), not once it is
/// liquidated (`NotEligibleForLiquidation`), and only out of a token
/// account of theirs that holds the asset's certificate
/// (`InvalidTokenAccount`). Then the certificate moves and the asset
/// belongs to the new owner.
pub open spec fn transfer_rwa_outcome(
    property: RealEstateProperty,
    caller: Identity,
    new_owner: Identity,
    from_token_account: TokenAccountRef,
) -> Result<(RealEstateProperty, Receipt<RWATransferredEvent>), RWAMarketplaceError> {
    if caller != property.owner {
        Err(RWAMarketplaceError::Unauthorized)
    } else if property.status == AssetStatus::Liquidated {
        Err(RWAMarketplaceError::NotEligibleForLiquidation)
    } else if !from_token_account.spec_holds(property.mint, caller) {
        Err(RWAMarketplaceError::InvalidTokenAccount)
    } else {
        Ok(
            (
                RealEstateProperty { owner: new_owner, ..property },
                Receipt {
                    event: RWATransferredEvent {
                        mint: property.mint,
                        from: caller,
                        to: new_owner,
                        value: property.value,
                    },
                    token: TokenInstruction::Transfer {
                        mint: property.mint,
                        from: caller,
                        to: new_owner,
                        amount: 1,
                    },
                },
            ),
        )
    }
}

/// Hands the asset from `caller`, its owner, to `new_owner`.
pub fn transfer_rwa(
    property: &mut RealEstateProperty,
    caller: Identity,
    new_owner: Identity,
    from_token_account: &TokenAccountRef,
) -> (answer: Result<Receipt<RWATransferredEvent>, RWAMarketplaceError>)
    ensures
        settles(
            transfer_rwa_outcome(*old(property), caller, new_owner, *from_token_account),
            *old(property),
            *final(property),
            answer,
        ),
        old(property).wf() ==> final(property).wf(),
{
    if caller != property.owner {
        return Err(RWAMarketplaceError::Unauthorized);
    }
    if property.status == AssetStatus::Liquidated {
        return Err(RWAMarketplaceError::NotEligibleForLiquidation);
    }
    if !from_token_account.holds(&property.mint, &caller) {
        return Err(RWAMarketplaceError::InvalidTokenAccount);
    }
    let receipt = Receipt {
        event: RWATransferredEvent { mint: property.mint, from: caller, to: new_owner, value: property.value },
        token: TokenInstruction::Transfer {
            mint: property.mint,
            from: caller,
            to: new_owner,
            amount: CERTIFICATE_UNITS,
        },
    };
    property.owner = new_owner;
    Ok(receipt)
}

/// What the liquidation of an asset by `caller` does.
///
/// Only an asset at risk can be liquidated (`NotEligibleForLiquidation`),
/// only by the administrator (`Unauthorized`), only out of the owner's
/// token account that holds the certificate (`InvalidTokenAccount`), and
/// only where the ledger's collateral total contains the asset's value
/// (`Overflow`). Then the asset is `Liquidated`, its certificate moves to
/// the administrator, and its value leaves the ledger's collateral total.
pub open spec fn liquidate_rwa_outcome(
    marketplace: Marketplace,
    property: RealEstateProperty,
    config: Config,
    caller: Identity,
    owner_token_account: TokenAccountRef,
) -> Result<((RealEstateProperty, Config), Liquidation), RWAMarketplaceError> {
    if property.status != AssetStatus::AtRisk {
        Err(RWAMarketplaceError::NotEligibleForLiquidation)
    } else if caller != marketplace.admin {
        Err(RWAMarketplaceError::Unauthorized)
    } else if !owner_token_account.spec_holds(property.mint, property.owner) {
        Err(RWAMarketplaceError::InvalidTokenAccount)
    } else {
        match update_stablecoin_reserves_for_liquidation_outcome(config, property.value) {
            Err(_) => Err(RWAMarketplaceError::Overflow),
            Ok((ledger, reserves)) => Ok(
                (
                    (RealEstateProperty { status: AssetStatus::Liquidated, ..property }, ledger),
                    Liquidation {
                        event: RWALiquidatedEvent {
                            mint: property.mint,
                            owner: property.owner,
                            value: property.value,
                        },
                        token: TokenInstruction::Transfer {
                            mint: property.mint,
                            from: property.owner,
                            to: marketplace.admin,
                            amount: 1,
                        },
                        reserves,
                    },
                ),
            ),
        }
    }
}

/// Liquidates an asset at risk, at the request of `caller`, the
/// administrator.
pub fn liquidate_rwa(
    marketplace: &Marketplace,
    property: &mut RealEstateProperty,
    config: &mut Config,
    caller: Identity,
    owner_token_account: &TokenAccountRef,
) -> (answer: Result<Liquidation, RWAMarketplaceError>)
    ensures
        settles(
            liquidate_rwa_outcome(*marketplace, *old(property), *old(config), caller, *owner_token_account),
            (*old(property), *old(config)),
            (*final(property), *final(config)),
            answer,
        ),
        old(property).wf() ==> final(property).wf(),
{
    if property.status != AssetStatus::AtRisk {
        return Err(RWAMarketplaceError::NotEligibleForLiquidation);
    }
    if caller != marketplace.admin {
        return Err(RWAMarketplaceError::Unauthorized);
    }
    if !owner_token_account.holds(&property.mint, &property.owner) {
        return Err(RWAMarketplaceError::InvalidTokenAccount);
    }
    let reserves = match update_stablecoin_reserves_for_liquidation(config, property.value) {
        Ok(reserves) => reserves,
        Err(_) => {
            return Err(RWAMarketplaceError::Overflow);
        },
    };
    property.status = AssetStatus::Liquidated;
    Ok(
        Liquidation {
            event: RWALiquidatedEvent { mint: property.mint, owner: property.owner, value: property.value },
            token: TokenInstruction::Transfer {
                mint: property.mint,
                from: property.owner,
                to: marketplace.admin,
                amount: CERTIFICATE_UNITS,
            },
            reserves,
        },
    )
}

/// What setting the default threshold to `threshold` by `caller` does.
///
/// The threshold must be a percentage between 1 and 100
/// (`InvalidThreshold`) and the caller the administrator
/// (`Unauthorized`). Then it is the threshold of assets listed without
/// one from now on; assets already listed keep theirs.
pub open spec fn set_liquidation_threshold_outcome(marketplace: Marketplace, caller: Identity, threshold: u8) -> Result<
    (Marketplace, LiquidationThresholdUpdatedEvent),
    RWAMarketplaceError,
> {
    if !valid_threshold(threshold) {
        Err(RWAMarketplaceError::InvalidThreshold)
    } else if caller != marketplace.admin {
        Err(RWAMarketplaceError::Unauthorized)
    } else {
        Ok(
            (
                Marketplace { liquidation_threshold: threshold, ..marketplace },
                LiquidationThresholdUpdatedEvent { new_threshold: threshold },
            ),
        )
    }
}

/// Sets the threshold given to assets that are listed without one.
pub fn set_liquidation_threshold(marketplace: &mut Marketplace, caller: Identity, threshold: u8) -> (answer: Result<
    LiquidationThresholdUpdatedEvent,
    RWAMarketplaceError,
>)
    ensures
        settles(
            set_liquidation_threshold_outcome(*old(marketplace), caller, threshold),
            *old(marketplace),
            *final(marketplace),
            answer,
        ),
        answer is Ok ==> final(marketplace).wf(),
        old(marketplace).wf() ==> final(marketplace).wf(),
{
    if !is_valid_threshold(threshold) {
        return Err(RWAMarketplaceError::InvalidThreshold);
    }
    if caller != marketplace.admin {
        return Err(RWAMarketplaceError::Unauthorized);
    }
    marketplace.liquidation_threshold = threshold;
    Ok(LiquidationThresholdUpdatedEvent { new_threshold: threshold })
}

} // verus!
