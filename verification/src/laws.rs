//! What holds of the operations taken together.

use vstd::prelude::*;
use vstd::seq_lib::*;
use crate::bridge::{update_stablecoin_reserves_for_liquidation_outcome, update_stablecoin_reserves_outcome};
use crate::error::{RWAMarketplaceError, StablecoinError};
use crate::identity::Identity;
use crate::rwa_marketplace::{
    liquidate_rwa_outcome, list_rwa_outcome, set_liquidation_threshold_outcome, transfer_rwa_outcome,
    update_valuation_outcome, valid_threshold, AssetStatus, Liquidation, LiquidationThresholdUpdatedEvent,
    Marketplace, RealEstateProperty,
};
use crate::stablecoin::{
    burn_outcome, fee_split, mint_outcome, transfer_fee, transfer_outcome, update_dao_account_outcome,
    update_reserves_outcome, Config, MintEvent, TransferReceipt,
};
use crate::outcome::settles;
use crate::token::{Receipt, TokenAccountRef};

verus! {

/// A split never loses or creates anything: the fee and the rest make up
/// the amount, and the fee is the rate's share of the amount, rounded
/// down.
pub proof fn lemma_fee_split_conserves(amount: u64, rate: u64, scale: u64)
    ensures
        fee_split(amount, rate, scale) matches Ok(split) ==> split.fee + split.amount_after_fee
            == amount && split.fee == amount * rate / (scale as int),
        fee_split(amount, rate, scale) is Ok <==> scale != 0 && amount * rate <= u64::MAX && amount
            * rate / (scale as int) <= amount,
{
}

/// The fee of a transfer is never larger than the amount.
pub proof fn lemma_transfer_fee_bounded(amount: u64)
    ensures
        0 <= transfer_fee(amount) <= amount,
{
}

/// Every transfer that is accepted pays out exactly what was sent: the
/// fee and what the recipient receives make up the amount, the fee is half
/// a percent of it rounded down, the two payments carry these two sums,
/// and the fees collected grow by the fee while the rest of the ledger
/// stays as it was. A transfer is accepted unless fifty times the amount
/// or the new total of fees leaves the 64-bit range.
pub proof fn lemma_transfer_conserves(config: Config, sender: Identity, recipient: Identity, amount: u64)
    ensures
        transfer_outcome(config, sender, recipient, amount) is Ok <==> amount * 50 <= u64::MAX
            && config.dao_contributions + transfer_fee(amount) <= u64::MAX,
        transfer_outcome(config, sender, recipient, amount) matches Ok((after, receipt)) ==> {
            &&& receipt.event.fee + receipt.event.amount == amount
            &&& receipt.event.fee == amount * 50 / 10000
            &&& receipt.payment->Transfer_amount == receipt.event.amount
            &&& receipt.fee_payment->Transfer_amount == receipt.event.fee
            &&& receipt.fee_payment->Transfer_to == config.dao_token_account
            &&& after.dao_contributions == config.dao_contributions + receipt.event.fee
            &&& after == Config { dao_contributions: after.dao_contributions, ..config }
        },
        transfer_outcome(config, sender, recipient, amount) is Err ==> transfer_outcome(
            config,
            sender,
            recipient,
            amount,
        ) == Err::<(Config, TransferReceipt), _>(StablecoinError::Overflow),
{
    lemma_transfer_fee_bounded(amount);
}

/// The sender, the recipient and the amount of one transfer in a run of
/// transfers.
pub type TransferRequest = (Identity, Identity, u64);

/// The sum of the fees of the transfers in `requests`.
pub open spec fn fees_of(requests: Seq<TransferRequest>) -> int
    decreases requests.len(),
{
    if requests.len() == 0 {
        0
    } else {
        fees_of(requests.drop_last()) + transfer_fee(requests.last().2)
    }
}

/// The ledger after the transfers in `requests` were made one after the
/// other, if all of them were accepted.
pub open spec fn after_transfers(config: Config, requests: Seq<TransferRequest>) -> Option<Config>
    decreases requests.len(),
{
    if requests.len() == 0 {
        Some(config)
    } else {
        match after_transfers(config, requests.drop_last()) {
            None => None,
            Some(before) => match transfer_outcome(
                before,
                requests.last().0,
                requests.last().1,
                requests.last().2,
            ) {
                Ok((after, _)) => Some(after),
                Err(_) => None,
            },
        }
    }
}

/// The sum of fees is never negative.
pub proof fn lemma_fees_nonnegative(requests: Seq<TransferRequest>)
    ensures
        0 <= fees_of(requests),
    decreases requests.len(),
{
    if requests.len() > 0 {
        lemma_fees_nonnegative(requests.drop_last());
        lemma_transfer_fee_bounded(requests.last().2);
    }
}

/// After any number of accepted transfers the fees collected have grown by
/// exactly the sum of the transfers' fees, and nothing else in the ledger
/// has changed.
pub proof fn lemma_fees_accumulate(config: Config, requests: Seq<TransferRequest>)
    ensures
        after_transfers(config, requests) matches Some(after) ==> after.dao_contributions
            == config.dao_contributions + fees_of(requests) && after == (Config {
            dao_contributions: after.dao_contributions,
            ..config
        }),
    decreases requests.len(),
{
    if requests.len() > 0 {
        lemma_fees_accumulate(config, requests.drop_last());
        if let Some(before) = after_transfers(config, requests.drop_last()) {
            lemma_transfer_conserves(before, requests.last().0, requests.last().1, requests.last().2);
        }
    }
}

/// A run of transfers is accepted as a whole exactly when fifty times each
/// amount fits in 64 bits and so does the total of fees that results.
pub proof fn lemma_transfers_accepted(config: Config, requests: Seq<TransferRequest>)
    ensures
        after_transfers(config, requests) is Some <==> (forall|i: int|
            0 <= i < requests.len() ==> (#[trigger] requests[i]).2 * 50 <= u64::MAX)
            && config.dao_contributions + fees_of(requests) <= u64::MAX,
    decreases requests.len(),
{
    if requests.len() > 0 {
        let earlier = requests.drop_last();
        let last = requests.last();
        lemma_transfers_accepted(config, earlier);
        lemma_fees_accumulate(config, earlier);
        lemma_fees_nonnegative(earlier);
        lemma_transfer_fee_bounded(last.2);
        assert(forall|i: int| 0 <= i < earlier.len() ==> earlier[i] == requests[i]);
        if let Some(before) = after_transfers(config, earlier) {
            lemma_transfer_conserves(before, last.0, last.1, last.2);
        }
        if after_transfers(config, requests) is Some {
            assert forall|i: int| 0 <= i < requests.len() implies (#[trigger] requests[i]).2 * 50
                <= u64::MAX by {
                if i < earlier.len() {
                    assert(earlier[i] == requests[i]);
                }
            }
        }
        if (forall|i: int| 0 <= i < requests.len() ==> (#[trigger] requests[i]).2 * 50 <= u64::MAX)
            && config.dao_contributions + fees_of(requests) <= u64::MAX {
            assert forall|i: int| 0 <= i < earlier.len() implies (#[trigger] earlier[i]).2 * 50
                <= u64::MAX by {
                assert(earlier[i] == requests[i]);
            }
            assert(requests[requests.len() - 1] == last);
        }
    }
}

/// Taking one transfer out of a run lowers the sum of fees by that
/// transfer's fee.
pub proof fn lemma_fees_without(requests: Seq<TransferRequest>, i: int)
    requires
        0 <= i < requests.len(),
    ensures
        fees_of(requests) == fees_of(requests.remove(i)) + transfer_fee(requests[i].2),
    decreases requests.len(),
{
    if i == requests.len() - 1 {
        assert(requests.remove(i) =~= requests.drop_last());
    } else {
        lemma_fees_without(requests.drop_last(), i);
        assert(requests.remove(i).drop_last() =~= requests.drop_last().remove(i));
        assert(requests.remove(i).last() == requests.last());
    }
}

/// The sum of fees does not depend on the order of the transfers: two runs
/// that hold the same transfers, each as often as the other, have the same
/// sum.
pub proof fn lemma_fees_order_independent(first: Seq<TransferRequest>, second: Seq<TransferRequest>)
    requires
        first.to_multiset() == second.to_multiset(),
    ensures
        fees_of(first) == fees_of(second),
    decreases first.len(),
{
    broadcast use {to_multiset_len, to_multiset_contains, to_multiset_remove};

    assert(first.len() == first.to_multiset().len());
    assert(second.len() == second.to_multiset().len());
    if first.len() > 0 {
        let last = first.last();
        assert(first.contains(last));
        assert(second.to_multiset().count(last) > 0);
        assert(second.contains(last));
        let i = choose|i: int| 0 <= i < second.len() && second[i] == last;
        assert(first.drop_last() =~= first.remove(first.len() - 1));
        assert(first.remove(first.len() - 1).to_multiset() == first.to_multiset().remove(last));
        assert(second.remove(i).to_multiset() == second.to_multiset().remove(last));
        lemma_fees_order_independent(first.drop_last(), second.remove(i));
        lemma_fees_without(second, i);
    }
}

/// Whatever the order in which the same transfers are made, they are
/// accepted or not as a whole, and where they are, the ledger ends up the
/// same, with the fees collected raised by the sum of their fees.
pub proof fn lemma_transfers_order_independent(
    config: Config,
    first: Seq<TransferRequest>,
    second: Seq<TransferRequest>,
)
    requires
        first.to_multiset() == second.to_multiset(),
    ensures
        after_transfers(config, first) == after_transfers(config, second),
        after_transfers(config, first) matches Some(after) ==> after.dao_contributions
            == config.dao_contributions + fees_of(first),
{
    broadcast use to_multiset_contains;

    lemma_fees_order_independent(first, second);
    lemma_transfers_accepted(config, first);
    lemma_transfers_accepted(config, second);
    lemma_fees_accumulate(config, first);
    lemma_fees_accumulate(config, second);
    assert forall|i: int| 0 <= i < first.len() implies second.contains(#[trigger] first[i]) by {
        assert(first.contains(first[i]));
        assert(first.to_multiset().count(first[i]) > 0);
    }
    assert forall|i: int| 0 <= i < second.len() implies first.contains(#[trigger] second[i]) by {
        assert(second.contains(second[i]));
        assert(second.to_multiset().count(second[i]) > 0);
    }
    if after_transfers(config, first) is Some {
        assert forall|i: int| 0 <= i < second.len() implies (#[trigger] second[i]).2 * 50
            <= u64::MAX by {
            let j = choose|j: int| 0 <= j < first.len() && first[j] == second[i];
            assert(first[j].2 * 50 <= u64::MAX);
        }
    }
    if after_transfers(config, second) is Some {
        assert forall|i: int| 0 <= i < first.len() implies (#[trigger] first[i]).2 * 50
            <= u64::MAX by {
            let j = choose|j: int| 0 <= j < second.len() && second[j] == first[i];
            assert(second[j].2 * 50 <= u64::MAX);
        }
    }
}

/// For the administrator, an amount whose requirements can be computed and
/// a supply that has room for it, minting goes through exactly when the
/// liquid reserve covers seventy percent of the amount and the collateral
/// thirty, each rounded down; otherwise it is refused for insufficient
/// reserves.
pub proof fn lemma_mint_iff_backed(config: Config, caller: Identity, recipient: Identity, amount: u64)
    requires
        caller == config.admin,
        amount * 70 <= u64::MAX,
        config.total_supply + amount <= u64::MAX,
    ensures
        mint_outcome(config, caller, recipient, amount) is Ok <==> config.usdt_reserve >= amount * 70
            / 100 && config.real_estate_value >= amount * 30 / 100,
        mint_outcome(config, caller, recipient, amount) is Err ==> mint_outcome(
            config,
            caller,
            recipient,
            amount,
        ) == Err::<(Config, Receipt<MintEvent>), _>(StablecoinError::InsufficientReserves),
        mint_outcome(config, caller, recipient, amount) matches Ok((after, receipt)) ==> after
            == (Config { total_supply: (config.total_supply + amount) as u64, ..config }),
{
}

/// No ledger operation lowers the fees collected or changes the decimals,
/// and only a transfer raises the fees collected.
pub proof fn lemma_ledger_keeps_contributions(
    config: Config,
    caller: Identity,
    other: Identity,
    amount: u64,
    value: u64,
)
    ensures
        transfer_outcome(config, caller, other, amount) matches Ok((after, _)) ==> after.dao_contributions
            >= config.dao_contributions && after.decimals == config.decimals,
        mint_outcome(config, caller, other, amount) matches Ok((after, _)) ==> after.dao_contributions
            == config.dao_contributions && after.decimals == config.decimals,
        burn_outcome(config, caller, other, amount) matches Ok((after, _)) ==> after.dao_contributions
            == config.dao_contributions && after.decimals == config.decimals,
        update_reserves_outcome(config, caller, amount, value) matches Ok((after, _))
            ==> after.dao_contributions == config.dao_contributions && after.decimals
            == config.decimals,
        update_dao_account_outcome(config, caller, other) matches Ok((after, _))
            ==> after.dao_contributions == config.dao_contributions && after.decimals
            == config.decimals,
        update_stablecoin_reserves_outcome(config, amount, value) matches Ok((after, _))
            ==> after.dao_contributions == config.dao_contributions && after.decimals
            == config.decimals,
{
    lemma_transfer_fee_bounded(amount);
}

/// The reserves change only at the administrator's word or through the
/// marketplace's reports: a transfer, a mint, a burn and a change of fee
/// recipient leave both figures alone, restating them takes the
/// administrator, and a report from the marketplace leaves the liquid
/// reserve alone.
pub proof fn lemma_reserves_guarded(config: Config, caller: Identity, other: Identity, amount: u64, value: u64)
    ensures
        transfer_outcome(config, caller, other, amount) matches Ok((after, _)) ==> after.usdt_reserve
            == config.usdt_reserve && after.real_estate_value == config.real_estate_value,
        mint_outcome(config, caller, other, amount) matches Ok((after, _)) ==> after.usdt_reserve
            == config.usdt_reserve && after.real_estate_value == config.real_estate_value,
        burn_outcome(config, caller, other, amount) matches Ok((after, _)) ==> after.usdt_reserve
            == config.usdt_reserve && after.real_estate_value == config.real_estate_value,
        update_dao_account_outcome(config, caller, other) matches Ok((after, _)) ==> after.usdt_reserve
            == config.usdt_reserve && after.real_estate_value == config.real_estate_value,
        update_reserves_outcome(config, caller, amount, value) is Ok ==> caller == config.admin,
        update_stablecoin_reserves_outcome(config, amount, value) matches Ok((after, _))
            ==> after.usdt_reserve == config.usdt_reserve,
{
}

/// A valuation that is accepted and lies strictly below the floor, the
/// threshold's share of the initial value, leaves the asset at risk and
/// publishes the warning, whatever the asset's status was; one at or above
/// the floor leaves it listed, also where it was at risk before.
pub proof fn lemma_valuation_sets_status(
    marketplace: Marketplace,
    property: RealEstateProperty,
    config: Config,
    caller: Identity,
    new_value: u64,
    now: i64,
)
    requires
        update_valuation_outcome(marketplace, property, config, caller, new_value, now) is Ok,
    ensures
        ({
            let ((after, _), published) = update_valuation_outcome(
                marketplace,
                property,
                config,
                caller,
                new_value,
                now,
            )->Ok_0;
            let floor = property.initial_value * property.liquidation_threshold / 100;
            &&& new_value < floor ==> after.status == AssetStatus::AtRisk && published.risk is Some
            &&& new_value >= floor ==> after.status == AssetStatus::Listed && published.risk is None
            &&& after.value == new_value
            &&& after.last_valuation_date == now
            &&& after.initial_value == property.initial_value
            &&& after.liquidation_threshold == property.liquidation_threshold
        }),
{
}

/// A valuation is accepted exactly when the caller may make it, the asset
/// is not liquidated, its floor can be computed and the ledger can take
/// the change.
pub proof fn lemma_valuation_accepted(
    marketplace: Marketplace,
    property: RealEstateProperty,
    config: Config,
    caller: Identity,
    new_value: u64,
    now: i64,
)
    ensures
        update_valuation_outcome(marketplace, property, config, caller, new_value, now) is Ok <==> {
            &&& new_value >= property.value || caller == marketplace.admin
            &&& property.status != AssetStatus::Liquidated
            &&& property.initial_value * property.liquidation_threshold <= u64::MAX
            &&& new_value == property.value || (property.value <= config.real_estate_value
                && config.real_estate_value - property.value + new_value <= u64::MAX)
        },
{
}

/// An asset that fell below its floor and is then valued at or above it is
/// listed again.
pub proof fn lemma_risk_recovers(
    marketplace: Marketplace,
    property: RealEstateProperty,
    config: Config,
    first_caller: Identity,
    low: u64,
    then: i64,
    second_caller: Identity,
    high: u64,
    now: i64,
)
    requires
        low < property.initial_value * property.liquidation_threshold / 100,
        high >= property.initial_value * property.liquidation_threshold / 100,
        update_valuation_outcome(marketplace, property, config, first_caller, low, then) is Ok,
        ({
            let ((at_risk, ledger), _) = update_valuation_outcome(
                marketplace,
                property,
                config,
                first_caller,
                low,
                then,
            )->Ok_0;
            update_valuation_outcome(marketplace, at_risk, ledger, second_caller, high, now) is Ok
        }),
    ensures
        ({
            let ((at_risk, ledger), _) = update_valuation_outcome(
                marketplace,
                property,
                config,
                first_caller,
                low,
                then,
            )->Ok_0;
            let ((recovered, _), _) = update_valuation_outcome(
                marketplace,
                at_risk,
                ledger,
                second_caller,
                high,
                now,
            )->Ok_0;
            at_risk.status == AssetStatus::AtRisk && recovered.status == AssetStatus::Listed
        }),
{
}

/// Only an asset at risk can be liquidated: for any other status the
/// liquidation is refused as not eligible, whoever asks. A liquidation
/// that goes through leaves the asset liquidated and everything else about
/// it as it was.
pub proof fn lemma_liquidation_needs_risk(
    marketplace: Marketplace,
    property: RealEstateProperty,
    config: Config,
    caller: Identity,
    owner_token_account: TokenAccountRef,
)
    ensures
        property.status != AssetStatus::AtRisk ==> liquidate_rwa_outcome(
            marketplace,
            property,
            config,
            caller,
            owner_token_account,
        ) == Err::<((RealEstateProperty, Config), Liquidation), _>(
            RWAMarketplaceError::NotEligibleForLiquidation,
        ),
        liquidate_rwa_outcome(marketplace, property, config, caller, owner_token_account) matches Ok(
            ((after, ledger), _),
        ) ==> {
            &&& property.status == AssetStatus::AtRisk
            &&& caller == marketplace.admin
            &&& after == RealEstateProperty { status: AssetStatus::Liquidated, ..property }
            &&& ledger.real_estate_value == config.real_estate_value - property.value
        },
{
}

/// Nothing changes a liquidated asset: a valuation, a change of owner and
/// a further liquidation are all refused, so whatever operation is tried,
/// the record after it is the record before it.
pub proof fn lemma_liquidated_is_terminal(
    marketplace: Marketplace,
    property: RealEstateProperty,
    config: Config,
    caller: Identity,
    new_value: u64,
    now: i64,
    new_owner: Identity,
    token_account: TokenAccountRef,
)
    requires
        property.status == AssetStatus::Liquidated,
    ensures
        update_valuation_outcome(marketplace, property, config, caller, new_value, now) is Err,
        transfer_rwa_outcome(property, caller, new_owner, token_account) is Err,
        liquidate_rwa_outcome(marketplace, property, config, caller, token_account) is Err,
        forall|after: (RealEstateProperty, Config), answer|
            settles(
                update_valuation_outcome(marketplace, property, config, caller, new_value, now),
                (property, config),
                after,
                answer,
            ) ==> after.0 == property,
        forall|after: RealEstateProperty, answer|
            settles(
                transfer_rwa_outcome(property, caller, new_owner, token_account),
                property,
                after,
                answer,
            ) ==> after == property,
        forall|after: (RealEstateProperty, Config), answer|
            settles(
                liquidate_rwa_outcome(marketplace, property, config, caller, token_account),
                (property, config),
                after,
                answer,
            ) ==> after.0 == property,
{
}

/// Whether an asset may pass from `before` to `after` in one operation:
/// it may stay as it is, move between listed and at risk, and pass from at
/// risk to liquidated. It never passes from listed to liquidated, and
/// never leaves liquidated.
pub open spec fn status_step(before: AssetStatus, after: AssetStatus) -> bool {
    match (before, after) {
        (AssetStatus::Listed, AssetStatus::Listed) => true,
        (AssetStatus::Listed, AssetStatus::AtRisk) => true,
        (AssetStatus::AtRisk, AssetStatus::AtRisk) => true,
        (AssetStatus::AtRisk, AssetStatus::Listed) => true,
        (AssetStatus::AtRisk, AssetStatus::Liquidated) => true,
        (AssetStatus::Liquidated, AssetStatus::Liquidated) => true,
        _ => false,
    }
}

/// Every operation on an asset moves its status along a permitted step.
pub proof fn lemma_status_steps(
    marketplace: Marketplace,
    property: RealEstateProperty,
    config: Config,
    caller: Identity,
    new_value: u64,
    now: i64,
    new_owner: Identity,
    token_account: TokenAccountRef,
)
    ensures
        update_valuation_outcome(marketplace, property, config, caller, new_value, now) matches Ok(
            ((after, _), _),
        ) ==> status_step(property.status, after.status),
        transfer_rwa_outcome(property, caller, new_owner, token_account) matches Ok((after, _))
            ==> after.status == property.status && status_step(property.status, after.status),
        liquidate_rwa_outcome(marketplace, property, config, caller, token_account) matches Ok(
            ((after, _), _),
        ) ==> status_step(property.status, after.status),
{
}

/// A listing is accepted exactly when the threshold it is given, or else
/// the marketplace's default, is a percentage between 1 and 100 and
/// neither the count of assets nor the ledger's collateral total leaves
/// the 64-bit range. It then raises the count by one and the collateral
/// total by the value, and the new asset is listed at that value with that
/// threshold.
pub proof fn lemma_listing(
    marketplace: Marketplace,
    config: Config,
    owner: Identity,
    mint: Identity,
    asset_value: u64,
    location: String,
    property_details: String,
    threshold: Option<u8>,
    now: i64,
)
    ensures
        list_rwa_outcome(
            marketplace,
            config,
            owner,
            mint,
            asset_value,
            location,
            property_details,
            threshold,
            now,
        ) is Ok <==> {
            &&& threshold matches Some(pct) ==> 1 <= pct <= 100
            &&& threshold is None ==> 1 <= marketplace.liquidation_threshold <= 100
            &&& marketplace.nft_count < u64::MAX
            &&& config.real_estate_value + asset_value <= u64::MAX
        },
        list_rwa_outcome(
            marketplace,
            config,
            owner,
            mint,
            asset_value,
            location,
            property_details,
            threshold,
            now,
        ) matches Ok(((after, ledger), listing)) ==> {
            &&& after.nft_count == marketplace.nft_count + 1
            &&& after.liquidation_threshold == marketplace.liquidation_threshold
            &&& ledger.real_estate_value == config.real_estate_value + asset_value
            &&& listing.property.status == AssetStatus::Listed
            &&& listing.property.value == asset_value
            &&& listing.property.initial_value == asset_value
            &&& listing.property.owner == owner
            &&& valid_threshold(listing.property.liquidation_threshold)
            &&& threshold matches Some(pct) ==> listing.property.liquidation_threshold == pct
            &&& threshold is None ==> listing.property.liquidation_threshold
                == marketplace.liquidation_threshold
        },
{
}

/// The default threshold can be set to every percentage between 1 and 100
/// and to nothing else: any other number is refused as an invalid
/// threshold, whoever asks, and a valid one takes the administrator.
/// Setting it changes nothing else in the marketplace.
pub proof fn lemma_threshold_bounds(marketplace: Marketplace, caller: Identity, pct: u8)
    ensures
        set_liquidation_threshold_outcome(marketplace, caller, pct) is Ok <==> 1 <= pct <= 100
            && caller == marketplace.admin,
        !(1 <= pct <= 100) ==> set_liquidation_threshold_outcome(marketplace, caller, pct) == Err::<
            (Marketplace, LiquidationThresholdUpdatedEvent),
            _,
        >(RWAMarketplaceError::InvalidThreshold),
        set_liquidation_threshold_outcome(marketplace, caller, pct) matches Ok((after, _)) ==> after
            == (Marketplace { liquidation_threshold: pct, ..marketplace }),
{
}

/// The ledger's collateral total follows the assets: once an asset has
/// been listed, revalued and liquidated, the ledger is as it was before
/// the listing.
pub proof fn lemma_collateral_round_trip(config: Config, listed_at: u64, revalued_at: u64)
    requires
        config.real_estate_value + listed_at <= u64::MAX,
        config.real_estate_value + revalued_at <= u64::MAX,
    ensures
        update_stablecoin_reserves_outcome(config, 0, listed_at) is Ok,
        ({
            let listed = update_stablecoin_reserves_outcome(config, 0, listed_at)->Ok_0.0;
            let revalued = update_stablecoin_reserves_outcome(listed, listed_at, revalued_at);
            let liquidated = update_stablecoin_reserves_for_liquidation_outcome(
                revalued->Ok_0.0,
                revalued_at,
            );
            &&& listed.real_estate_value == config.real_estate_value + listed_at
            &&& revalued is Ok
            &&& revalued->Ok_0.0.real_estate_value == config.real_estate_value + revalued_at
            &&& liquidated is Ok
            &&& liquidated->Ok_0.0 == config
        }),
{
}

/// One request made of a ledger.
pub enum LedgerCall {
    Transfer { sender: Identity, recipient: Identity, amount: u64 },
    Mint { caller: Identity, recipient: Identity, amount: u64 },
    Burn { caller: Identity, from: Identity, amount: u64 },
    UpdateReserves { caller: Identity, usdt_amount: u64, real_estate_value: u64 },
    UpdateDaoAccount { caller: Identity, new_dao_account: Identity },
    /// A report from the marketplace.
    Report { previous_value: u64, real_estate_value: u64 },
}

/// The ledger after one request: what the operation makes of it where the
/// request is accepted, and the ledger as it was where it is refused.
pub open spec fn ledger_step(config: Config, call: LedgerCall) -> Config {
    match call {
        LedgerCall::Transfer { sender, recipient, amount } => match transfer_outcome(
            config,
            sender,
            recipient,
            amount,
        ) {
            Ok((after, _)) => after,
            Err(_) => config,
        },
        LedgerCall::Mint { caller, recipient, amount } => match mint_outcome(
            config,
            caller,
            recipient,
            amount,
        ) {
            Ok((after, _)) => after,
            Err(_) => config,
        },
        LedgerCall::Burn { caller, from, amount } => match burn_outcome(config, caller, from, amount) {
            Ok((after, _)) => after,
            Err(_) => config,
        },
        LedgerCall::UpdateReserves { caller, usdt_amount, real_estate_value } => {
            match update_reserves_outcome(config, caller, usdt_amount, real_estate_value) {
                Ok((after, _)) => after,
                Err(_) => config,
            }
        },
        LedgerCall::UpdateDaoAccount { caller, new_dao_account } => match update_dao_account_outcome(
            config,
            caller,
            new_dao_account,
        ) {
            Ok((after, _)) => after,
            Err(_) => config,
        },
        LedgerCall::Report { previous_value, real_estate_value } => {
            match update_stablecoin_reserves_outcome(config, previous_value, real_estate_value) {
                Ok((after, _)) => after,
                Err(_) => config,
            }
        },
    }
}

/// The fee that one request adds to the fees collected: the fee of a
/// transfer that is accepted, and nothing otherwise.
pub open spec fn fee_collected(config: Config, call: LedgerCall) -> int {
    match call {
        LedgerCall::Transfer { sender, recipient, amount } => match transfer_outcome(
            config,
            sender,
            recipient,
            amount,
        ) {
            Ok(_) => transfer_fee(amount),
            Err(_) => 0,
        },
        _ => 0,
    }
}

/// The ledger after the requests in `calls` were made one after the other.
pub open spec fn ledger_run(config: Config, calls: Seq<LedgerCall>) -> Config
    decreases calls.len(),
{
    if calls.len() == 0 {
        config
    } else {
        ledger_step(ledger_run(config, calls.drop_last()), calls.last())
    }
}

/// The sum of the fees that the requests in `calls` add to the fees
/// collected, made one after the other.
pub open spec fn fees_collected(config: Config, calls: Seq<LedgerCall>) -> int
    decreases calls.len(),
{
    if calls.len() == 0 {
        0
    } else {
        fees_collected(config, calls.drop_last()) + fee_collected(
            ledger_run(config, calls.drop_last()),
            calls.last(),
        )
    }
}

/// Whatever is asked of a ledger, and in whatever order, the fees
/// collected never fall: they grow by exactly the fees of the transfers
/// that were accepted. The administrator, the two token types and the
/// decimals stay as they were set at creation.
pub proof fn lemma_ledger_history(config: Config, calls: Seq<LedgerCall>)
    ensures
        ledger_run(config, calls).dao_contributions == config.dao_contributions + fees_collected(
            config,
            calls,
        ),
        fees_collected(config, calls) >= 0,
        ledger_run(config, calls).dao_contributions >= config.dao_contributions,
        ledger_run(config, calls).admin == config.admin,
        ledger_run(config, calls).mint == config.mint,
        ledger_run(config, calls).usdt_mint == config.usdt_mint,
        ledger_run(config, calls).decimals == config.decimals,
    decreases calls.len(),
{
    if calls.len() > 0 {
        lemma_ledger_history(config, calls.drop_last());
        let before = ledger_run(config, calls.drop_last());
        match calls.last() {
            LedgerCall::Transfer { sender, recipient, amount } => {
                lemma_transfer_conserves(before, sender, recipient, amount);
                lemma_transfer_fee_bounded(amount);
            },
            _ => {},
        }
    }
}

/// One request made of an asset.
pub enum AssetCall {
    Revalue { caller: Identity, new_value: u64, now: i64 },
    Transfer { caller: Identity, new_owner: Identity, from_token_account: TokenAccountRef },
    Liquidate { caller: Identity, owner_token_account: TokenAccountRef },
}

/// The asset and the ledger after one request: what the operation makes of
/// them where the request is accepted, and both as they were where it is
/// refused.
pub open spec fn asset_step(
    marketplace: Marketplace,
    state: (RealEstateProperty, Config),
    call: AssetCall,
) -> (RealEstateProperty, Config) {
    match call {
        AssetCall::Revalue { caller, new_value, now } => match update_valuation_outcome(
            marketplace,
            state.0,
            state.1,
            caller,
            new_value,
            now,
        ) {
            Ok((after, _)) => after,
            Err(_) => state,
        },
        AssetCall::Transfer { caller, new_owner, from_token_account } => match transfer_rwa_outcome(
            state.0,
            caller,
            new_owner,
            from_token_account,
        ) {
            Ok((after, _)) => (after, state.1),
            Err(_) => state,
        },
        AssetCall::Liquidate { caller, owner_token_account } => match liquidate_rwa_outcome(
            marketplace,
            state.0,
            state.1,
            caller,
            owner_token_account,
        ) {
            Ok((after, _)) => after,
            Err(_) => state,
        },
    }
}

/// The asset and the ledger after the requests in `calls` were made one
/// after the other.
pub open spec fn asset_run(
    marketplace: Marketplace,
    state: (RealEstateProperty, Config),
    calls: Seq<AssetCall>,
) -> (RealEstateProperty, Config)
    decreases calls.len(),
{
    if calls.len() == 0 {
        state
    } else {
        asset_step(marketplace, asset_run(marketplace, state, calls.drop_last()), calls.last())
    }
}

/// Once an asset is liquidated, no valuation, change of owner or
/// liquidation, however many and in whatever order, changes its record or
/// through it the ledger.
pub proof fn lemma_liquidated_forever(
    marketplace: Marketplace,
    property: RealEstateProperty,
    config: Config,
    calls: Seq<AssetCall>,
)
    requires
        property.status == AssetStatus::Liquidated,
    ensures
        asset_run(marketplace, (property, config), calls) == (property, config),
    decreases calls.len(),
{
    if calls.len() > 0 {
        lemma_liquidated_forever(marketplace, property, config, calls.drop_last());
    }
}

/// Whatever is asked of an asset, it keeps the token type that certifies
/// it, the value it was listed at and its threshold, and so its
/// liquidation floor; and its status moves along permitted steps only, so
/// that an asset is never liquidated without having been at risk.
pub proof fn lemma_asset_history(
    marketplace: Marketplace,
    property: RealEstateProperty,
    config: Config,
    calls: Seq<AssetCall>,
)
    ensures
        asset_run(marketplace, (property, config), calls).0.mint == property.mint,
        asset_run(marketplace, (property, config), calls).0.initial_value == property.initial_value,
        asset_run(marketplace, (property, config), calls).0.liquidation_threshold
            == property.liquidation_threshold,
        asset_run(marketplace, (property, config), calls).0.floor() == property.floor(),
        calls.len() > 0 ==> status_step(
            asset_run(marketplace, (property, config), calls.drop_last()).0.status,
            asset_run(marketplace, (property, config), calls).0.status,
        ),
        property.status == AssetStatus::Listed && calls.len() == 1 ==> asset_run(
            marketplace,
            (property, config),
            calls,
        ).0.status != AssetStatus::Liquidated,
    decreases calls.len(),
{
    if calls.len() > 0 {
        lemma_asset_history(marketplace, property, config, calls.drop_last());
        if calls.len() == 1 {
            assert(calls.drop_last().len() == 0);
        }
    }
}

} // verus!
