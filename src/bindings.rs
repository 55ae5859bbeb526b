//! The platform module's side of the interface: the parameter-change actions
//! that a proposal carries, and the answers of the platform's queries.

use vstd::prelude::*;
use crate::decimal::Decimal;
use crate::types::{duplicate_coins, Coin};

verus! {

/// A parameter change that a proposal asks the platform to apply, with all
/// of its parameters. Each one names the app it belongs to; the governance
/// engine reads nothing else and hands the whole action on.
#[derive(Clone, Debug, PartialEq, Eq)]
pub enum ComdexMessages {
    MsgWhiteListAssetLocker {
        app_id: u64,
        asset_id: u64,
    },
    MsgWhitelistAppIdLockerRewards {
        app_id: u64,
        asset_id: Vec<u64>,
    },
    MsgWhitelistAppIdVaultInterest {
        app_id: u64,
    },
    MsgAddExtendedPairsVault {
        app_id: u64,
        pair_id: u64,
        stability_fee: Decimal,
        closing_fee: Decimal,
        liquidation_penalty: Decimal,
        draw_down_fee: Decimal,
        is_vault_active: bool,
        debt_ceiling: u64,
        debt_floor: u64,
        is_stable_mint_vault: bool,
        min_cr: Decimal,
        pair_name: String,
        asset_out_oracle_price: bool,
        asset_out_price: u64,
        min_usd_value_left: u64,
    },
    MsgSetCollectorLookupTable {
        app_id: u64,
        collector_asset_id: u64,
        secondary_asset_id: u64,
        surplus_threshold: u64,
        debt_threshold: u64,
        locker_saving_rate: Decimal,
        lot_size: u64,
        bid_factor: Decimal,
        debt_lot_size: u64,
    },
    MsgUpdatePairsVault {
        app_id: u64,
        ext_pair_id: u64,
        stability_fee: Decimal,
        closing_fee: Decimal,
        liquidation_penalty: Decimal,
        draw_down_fee: Decimal,
        min_cr: Decimal,
        debt_ceiling: u64,
        debt_floor: u64,
        min_usd_value_left: u64,
        is_vault_active: bool,
    },
    MsgSetAuctionMappingForApp {
        app_id: u64,
        asset_id: Vec<u64>,
        is_surplus_auction: Vec<bool>,
        is_debt_auction: Vec<bool>,
        asset_out_oracle_price: Vec<bool>,
        asset_out_price: Vec<u64>,
        is_distributor: Vec<bool>,
    },
    MsgUpdateCollectorLookupTable {
        app_id: u64,
        asset_id: u64,
        lsr: Decimal,
        debt_threshold: u64,
        surplus_threshold: u64,
        lot_size: u64,
        debt_lot_size: u64,
        bid_factor: Decimal,
    },
    MsgRemoveWhitelistAssetLocker {
        app_id: u64,
        asset_id: u64,
    },
    MsgRemoveWhitelistAppIdVaultInterest {
        app_id: u64,
    },
    MsgWhitelistAppIdLiquidation {
        app_id: u64,
    },
    MsgRemoveWhitelistAppIdLiquidation {
        app_id: u64,
    },
    MsgAddAuctionParams {
        app_id: u64,
        auction_duration_seconds: u64,
        buffer: Decimal,
        cusp: Decimal,
        step: u64,
        price_function_type: u64,
        surplus_id: u64,
        debt_id: u64,
        dutch_id: u64,
        bid_duration_seconds: u64,
    },
    MsgAddESMTriggerParams {
        app_id: u64,
        target_value: Vec<Coin>,
        cool_off_period: u64,
        asset_id: Vec<u64>,
        rates: Vec<u64>,
    },
    MsgBurnGovTokensForApp {
        app_id: u64,
        amount: Coin,
        from: String,
    },
}

/// `a` and `b` are the same action: the same kind, with equal parameters,
/// lists compared by their contents.
pub open spec fn same_action(a: ComdexMessages, b: ComdexMessages) -> bool {
    match (a, b) {
        (ComdexMessages::MsgWhiteListAssetLocker { app_id: a0, asset_id: a1 }, ComdexMessages::MsgWhiteListAssetLocker { app_id: b0, asset_id: b1 }) => a0 == b0 && a1 == b1,
        (ComdexMessages::MsgWhitelistAppIdLockerRewards { app_id: a0, asset_id: a1 }, ComdexMessages::MsgWhitelistAppIdLockerRewards { app_id: b0, asset_id: b1 }) => a0 == b0 && a1@ == b1@,
        (ComdexMessages::MsgWhitelistAppIdVaultInterest { app_id: a0 }, ComdexMessages::MsgWhitelistAppIdVaultInterest { app_id: b0 }) => a0 == b0,
        (ComdexMessages::MsgAddExtendedPairsVault { app_id: a0, pair_id: a1, stability_fee: a2, closing_fee: a3, liquidation_penalty: a4, draw_down_fee: a5, is_vault_active: a6, debt_ceiling: a7, debt_floor: a8, is_stable_mint_vault: a9, min_cr: a10, pair_name: a11, asset_out_oracle_price: a12, asset_out_price: a13, min_usd_value_left: a14 }, ComdexMessages::MsgAddExtendedPairsVault { app_id: b0, pair_id: b1, stability_fee: b2, closing_fee: b3, liquidation_penalty: b4, draw_down_fee: b5, is_vault_active: b6, debt_ceiling: b7, debt_floor: b8, is_stable_mint_vault: b9, min_cr: b10, pair_name: b11, asset_out_oracle_price: b12, asset_out_price: b13, min_usd_value_left: b14 }) => a0 == b0 && a1 == b1 && a2 == b2 && a3 == b3 && a4 == b4 && a5 == b5 && a6 == b6 && a7 == b7 && a8 == b8 && a9 == b9 && a10 == b10 && a11 == b11 && a12 == b12 && a13 == b13 && a14 == b14,
        (ComdexMessages::MsgSetCollectorLookupTable { app_id: a0, collector_asset_id: a1, secondary_asset_id: a2, surplus_threshold: a3, debt_threshold: a4, locker_saving_rate: a5, lot_size: a6, bid_factor: a7, debt_lot_size: a8 }, ComdexMessages::MsgSetCollectorLookupTable { app_id: b0, collector_asset_id: b1, secondary_asset_id: b2, surplus_threshold: b3, debt_threshold: b4, locker_saving_rate: b5, lot_size: b6, bid_factor: b7, debt_lot_size: b8 }) => a0 == b0 && a1 == b1 && a2 == b2 && a3 == b3 && a4 == b4 && a5 == b5 && a6 == b6 && a7 == b7 && a8 == b8,
        (ComdexMessages::MsgUpdatePairsVault { app_id: a0, ext_pair_id: a1, stability_fee: a2, closing_fee: a3, liquidation_penalty: a4, draw_down_fee: a5, min_cr: a6, debt_ceiling: a7, debt_floor: a8, min_usd_value_left: a9, is_vault_active: a10 }, ComdexMessages::MsgUpdatePairsVault { app_id: b0, ext_pair_id: b1, stability_fee: b2, closing_fee: b3, liquidation_penalty: b4, draw_down_fee: b5, min_cr: b6, debt_ceiling: b7, debt_floor: b8, min_usd_value_left: b9, is_vault_active: b10 }) => a0 == b0 && a1 == b1 && a2 == b2 && a3 == b3 && a4 == b4 && a5 == b5 && a6 == b6 && a7 == b7 && a8 == b8 && a9 == b9 && a10 == b10,
        (ComdexMessages::MsgSetAuctionMappingForApp { app_id: a0, asset_id: a1, is_surplus_auction: a2, is_debt_auction: a3, asset_out_oracle_price: a4, asset_out_price: a5, is_distributor: a6 }, ComdexMessages::MsgSetAuctionMappingForApp { app_id: b0, asset_id: b1, is_surplus_auction: b2, is_debt_auction: b3, asset_out_oracle_price: b4, asset_out_price: b5, is_distributor: b6 }) => a0 == b0 && a1@ == b1@ && a2@ == b2@ && a3@ == b3@ && a4@ == b4@ && a5@ == b5@ && a6@ == b6@,
        (ComdexMessages::MsgUpdateCollectorLookupTable { app_id: a0, asset_id: a1, lsr: a2, debt_threshold: a3, surplus_threshold: a4, lot_size: a5, debt_lot_size: a6, bid_factor: a7 }, ComdexMessages::MsgUpdateCollectorLookupTable { app_id: b0, asset_id: b1, lsr: b2, debt_threshold: b3, surplus_threshold: b4, lot_size: b5, debt_lot_size: b6, bid_factor: b7 }) => a0 == b0 && a1 == b1 && a2 == b2 && a3 == b3 && a4 == b4 && a5 == b5 && a6 == b6 && a7 == b7,
        (ComdexMessages::MsgRemoveWhitelistAssetLocker { app_id: a0, asset_id: a1 }, ComdexMessages::MsgRemoveWhitelistAssetLocker { app_id: b0, asset_id: b1 }) => a0 == b0 && a1 == b1,
        (ComdexMessages::MsgRemoveWhitelistAppIdVaultInterest { app_id: a0 }, ComdexMessages::MsgRemoveWhitelistAppIdVaultInterest { app_id: b0 }) => a0 == b0,
        (ComdexMessages::MsgWhitelistAppIdLiquidation { app_id: a0 }, ComdexMessages::MsgWhitelistAppIdLiquidation { app_id: b0 }) => a0 == b0,
        (ComdexMessages::MsgRemoveWhitelistAppIdLiquidation { app_id: a0 }, ComdexMessages::MsgRemoveWhitelistAppIdLiquidation { app_id: b0 }) => a0 == b0,
        (ComdexMessages::MsgAddAuctionParams { app_id: a0, auction_duration_seconds: a1, buffer: a2, cusp: a3, step: a4, price_function_type: a5, surplus_id: a6, debt_id: a7, dutch_id: a8, bid_duration_seconds: a9 }, ComdexMessages::MsgAddAuctionParams { app_id: b0, auction_duration_seconds: b1, buffer: b2, cusp: b3, step: b4, price_function_type: b5, surplus_id: b6, debt_id: b7, dutch_id: b8, bid_duration_seconds: b9 }) => a0 == b0 && a1 == b1 && a2 == b2 && a3 == b3 && a4 == b4 && a5 == b5 && a6 == b6 && a7 == b7 && a8 == b8 && a9 == b9,
        (ComdexMessages::MsgAddESMTriggerParams { app_id: a0, target_value: a1, cool_off_period: a2, asset_id: a3, rates: a4 }, ComdexMessages::MsgAddESMTriggerParams { app_id: b0, target_value: b1, cool_off_period: b2, asset_id: b3, rates: b4 }) => a0 == b0 && a1@ == b1@ && a2 == b2 && a3@ == b3@ && a4@ == b4@,
        (ComdexMessages::MsgBurnGovTokensForApp { app_id: a0, amount: a1, from: a2 }, ComdexMessages::MsgBurnGovTokensForApp { app_id: b0, amount: b1, from: b2 }) => a0 == b0 && a1 == b1 && a2 == b2,
        _ => false,
    }
}

/// `a` and `b` hold the same actions in the same order.
pub open spec fn same_actions(a: Seq<ComdexMessages>, b: Seq<ComdexMessages>) -> bool {
    a.len() == b.len() && forall|i: int| 0 <= i < a.len() ==> same_action(#[trigger] a[i], b[i])
}

/// A copy of a list of plain values.
pub fn copy_list<T: Copy>(v: &Vec<T>) -> (r: Vec<T>)
    ensures
        r@ == v@,
{
    let mut r: Vec<T> = Vec::new();
    let mut i: usize = 0;
    while i < v.len()
        invariant
            i <= v@.len(),
            r@ == v@.subrange(0, i as int),
        decreases v@.len() - i,
    {
        r.push(v[i]);
        i = i + 1;
        assert(r@ =~= v@.subrange(0, i as int));
    }
    assert(r@ =~= v@);
    r
}

impl ComdexMessages {
    /// The app that the action belongs to.
    pub open spec fn app_id_spec(&self) -> u64 {
        match self {
            ComdexMessages::MsgWhiteListAssetLocker { app_id, .. } => *app_id,
            ComdexMessages::MsgWhitelistAppIdLockerRewards { app_id, .. } => *app_id,
            ComdexMessages::MsgWhitelistAppIdVaultInterest { app_id, .. } => *app_id,
            ComdexMessages::MsgAddExtendedPairsVault { app_id, .. } => *app_id,
            ComdexMessages::MsgSetCollectorLookupTable { app_id, .. } => *app_id,
            ComdexMessages::MsgUpdatePairsVault { app_id, .. } => *app_id,
            ComdexMessages::MsgSetAuctionMappingForApp { app_id, .. } => *app_id,
            ComdexMessages::MsgUpdateCollectorLookupTable { app_id, .. } => *app_id,
            ComdexMessages::MsgRemoveWhitelistAssetLocker { app_id, .. } => *app_id,
            ComdexMessages::MsgRemoveWhitelistAppIdVaultInterest { app_id, .. } => *app_id,
            ComdexMessages::MsgWhitelistAppIdLiquidation { app_id, .. } => *app_id,
            ComdexMessages::MsgRemoveWhitelistAppIdLiquidation { app_id, .. } => *app_id,
            ComdexMessages::MsgAddAuctionParams { app_id, .. } => *app_id,
            ComdexMessages::MsgAddESMTriggerParams { app_id, .. } => *app_id,
            ComdexMessages::MsgBurnGovTokensForApp { app_id, .. } => *app_id,
        }
    }

    /// Whether a proposal may carry this action: every parameter change may,
    /// a burn of governance tokens may not.
    pub open spec fn proposable_spec(&self) -> bool {
        !(self is MsgBurnGovTokensForApp)
    }

    #[verifier::when_used_as_spec(app_id_spec)]
    pub fn app_id(&self) -> (r: u64)
        ensures
            r == self.app_id_spec(),
    {
        match self {
            ComdexMessages::MsgWhiteListAssetLocker { app_id, .. } => *app_id,
            ComdexMessages::MsgWhitelistAppIdLockerRewards { app_id, .. } => *app_id,
            ComdexMessages::MsgWhitelistAppIdVaultInterest { app_id, .. } => *app_id,
            ComdexMessages::MsgAddExtendedPairsVault { app_id, .. } => *app_id,
            ComdexMessages::MsgSetCollectorLookupTable { app_id, .. } => *app_id,
            ComdexMessages::MsgUpdatePairsVault { app_id, .. } => *app_id,
            ComdexMessages::MsgSetAuctionMappingForApp { app_id, .. } => *app_id,
            ComdexMessages::MsgUpdateCollectorLookupTable { app_id, .. } => *app_id,
            ComdexMessages::MsgRemoveWhitelistAssetLocker { app_id, .. } => *app_id,
            ComdexMessages::MsgRemoveWhitelistAppIdVaultInterest { app_id, .. } => *app_id,
            ComdexMessages::MsgWhitelistAppIdLiquidation { app_id, .. } => *app_id,
            ComdexMessages::MsgRemoveWhitelistAppIdLiquidation { app_id, .. } => *app_id,
            ComdexMessages::MsgAddAuctionParams { app_id, .. } => *app_id,
            ComdexMessages::MsgAddESMTriggerParams { app_id, .. } => *app_id,
            ComdexMessages::MsgBurnGovTokensForApp { app_id, .. } => *app_id,
        }
    }

    /// A copy of this action.
    pub fn duplicate(&self) -> (r: ComdexMessages)
        ensures
            same_action(r, *self),
    {
        match self {
            ComdexMessages::MsgWhiteListAssetLocker { app_id, asset_id } => ComdexMessages::MsgWhiteListAssetLocker {
                app_id: *app_id,
                asset_id: *asset_id,
            },
            ComdexMessages::MsgWhitelistAppIdLockerRewards { app_id, asset_id } => ComdexMessages::MsgWhitelistAppIdLockerRewards {
                app_id: *app_id,
                asset_id: copy_list(asset_id),
            },
            ComdexMessages::MsgWhitelistAppIdVaultInterest { app_id } => ComdexMessages::MsgWhitelistAppIdVaultInterest {
                app_id: *app_id,
            },
            ComdexMessages::MsgAddExtendedPairsVault { app_id, pair_id, stability_fee, closing_fee, liquidation_penalty, draw_down_fee, is_vault_active, debt_ceiling, debt_floor, is_stable_mint_vault, min_cr, pair_name, asset_out_oracle_price, asset_out_price, min_usd_value_left } => ComdexMessages::MsgAddExtendedPairsVault {
                app_id: *app_id,
                pair_id: *pair_id,
                stability_fee: *stability_fee,
                closing_fee: *closing_fee,
                liquidation_penalty: *liquidation_penalty,
                draw_down_fee: *draw_down_fee,
                is_vault_active: *is_vault_active,
                debt_ceiling: *debt_ceiling,
                debt_floor: *debt_floor,
                is_stable_mint_vault: *is_stable_mint_vault,
                min_cr: *min_cr,
                pair_name: pair_name.clone(),
                asset_out_oracle_price: *asset_out_oracle_price,
                asset_out_price: *asset_out_price,
                min_usd_value_left: *min_usd_value_left,
            },
            ComdexMessages::MsgSetCollectorLookupTable { app_id, collector_asset_id, secondary_asset_id, surplus_threshold, debt_threshold, locker_saving_rate, lot_size, bid_factor, debt_lot_size } => ComdexMessages::MsgSetCollectorLookupTable {
                app_id: *app_id,
                collector_asset_id: *collector_asset_id,
                secondary_asset_id: *secondary_asset_id,
                surplus_threshold: *surplus_threshold,
                debt_threshold: *debt_threshold,
                locker_saving_rate: *locker_saving_rate,
                lot_size: *lot_size,
                bid_factor: *bid_factor,
                debt_lot_size: *debt_lot_size,
            },
            ComdexMessages::MsgUpdatePairsVault { app_id, ext_pair_id, stability_fee, closing_fee, liquidation_penalty, draw_down_fee, min_cr, debt_ceiling, debt_floor, min_usd_value_left, is_vault_active } => ComdexMessages::MsgUpdatePairsVault {
                app_id: *app_id,
                ext_pair_id: *ext_pair_id,
                stability_fee: *stability_fee,
                closing_fee: *closing_fee,
                liquidation_penalty: *liquidation_penalty,
                draw_down_fee: *draw_down_fee,
                min_cr: *min_cr,
                debt_ceiling: *debt_ceiling,
                debt_floor: *debt_floor,
                min_usd_value_left: *min_usd_value_left,
                is_vault_active: *is_vault_active,
            },
            ComdexMessages::MsgSetAuctionMappingForApp { app_id, asset_id, is_surplus_auction, is_debt_auction, asset_out_oracle_price, asset_out_price, is_distributor } => ComdexMessages::MsgSetAuctionMappingForApp {
                app_id: *app_id,
                asset_id: copy_list(asset_id),
                is_surplus_auction: copy_list(is_surplus_auction),
                is_debt_auction: copy_list(is_debt_auction),
                asset_out_oracle_price: copy_list(asset_out_oracle_price),
                asset_out_price: copy_list(asset_out_price),
                is_distributor: copy_list(is_distributor),
            },
            ComdexMessages::MsgUpdateCollectorLookupTable { app_id, asset_id, lsr, debt_threshold, surplus_threshold, lot_size, debt_lot_size, bid_factor } => ComdexMessages::MsgUpdateCollectorLookupTable {
                app_id: *app_id,
                asset_id: *asset_id,
                lsr: *lsr,
                debt_threshold: *debt_threshold,
                surplus_threshold: *surplus_threshold,
                lot_size: *lot_size,
                debt_lot_size: *debt_lot_size,
                bid_factor: *bid_factor,
            },
            ComdexMessages::MsgRemoveWhitelistAssetLocker { app_id, asset_id } => ComdexMessages::MsgRemoveWhitelistAssetLocker {
                app_id: *app_id,
                asset_id: *asset_id,
            },
            ComdexMessages::MsgRemoveWhitelistAppIdVaultInterest { app_id } => ComdexMessages::MsgRemoveWhitelistAppIdVaultInterest {
                app_id: *app_id,
            },
            ComdexMessages::MsgWhitelistAppIdLiquidation { app_id } => ComdexMessages::MsgWhitelistAppIdLiquidation {
                app_id: *app_id,
            },
            ComdexMessages::MsgRemoveWhitelistAppIdLiquidation { app_id } => ComdexMessages::MsgRemoveWhitelistAppIdLiquidation {
                app_id: *app_id,
            },
            ComdexMessages::MsgAddAuctionParams { app_id, auction_duration_seconds, buffer, cusp, step, price_function_type, surplus_id, debt_id, dutch_id, bid_duration_seconds } => ComdexMessages::MsgAddAuctionParams {
                app_id: *app_id,
                auction_duration_seconds: *auction_duration_seconds,
                buffer: *buffer,
                cusp: *cusp,
                step: *step,
                price_function_type: *price_function_type,
                surplus_id: *surplus_id,
                debt_id: *debt_id,
                dutch_id: *dutch_id,
                bid_duration_seconds: *bid_duration_seconds,
            },
            ComdexMessages::MsgAddESMTriggerParams { app_id, target_value, cool_off_period, asset_id, rates } => ComdexMessages::MsgAddESMTriggerParams {
                app_id: *app_id,
                target_value: duplicate_coins(target_value),
                cool_off_period: *cool_off_period,
                asset_id: copy_list(asset_id),
                rates: copy_list(rates),
            },
            ComdexMessages::MsgBurnGovTokensForApp { app_id, amount, from } => ComdexMessages::MsgBurnGovTokensForApp {
                app_id: *app_id,
                amount: amount.duplicate(),
                from: from.clone(),
            },
        }
    }

    #[verifier::when_used_as_spec(proposable_spec)]
    pub fn proposable(&self) -> (r: bool)
        ensures
            r == self.proposable_spec(),
    {
        match self {
            ComdexMessages::MsgBurnGovTokensForApp { .. } => false,
            _ => true,
        }
    }
}

/// A copy of a list of actions.
pub fn duplicate_messages(msgs: &Vec<ComdexMessages>) -> (r: Vec<ComdexMessages>)
    ensures
        same_actions(r@, msgs@),
{
    let mut r: Vec<ComdexMessages> = Vec::new();
    let mut i: usize = 0;
    while i < msgs.len()
        invariant
            i <= msgs@.len(),
            r@.len() == i,
            forall|k: int| 0 <= k < i ==> same_action(#[trigger] r@[k], msgs@[k]),
        decreases msgs@.len() - i,
    {
        r.push(msgs[i].duplicate());
        i = i + 1;
    }
    r
}

/// The parameters of a new extended pair that the platform checks.
#[derive(Clone, Debug, PartialEq, Eq)]
pub struct ExtendedPair {
    pub app_mapping_id_param: u64,
    pub pair_id_param: u64,
    pub stability_fee_param: Decimal,
    pub closing_fee_param: Decimal,
    pub draw_down_fee_param: Decimal,
    pub debt_ceiling_param: u64,
    pub debt_floor_param: u64,
    pub pair_name_param: String,
}

/// The platform's answer on an owner's balance at a height.
#[derive(Clone, Debug, PartialEq, Eq)]
pub struct StateResponse {
    pub amount: Coin,
}

/// The platform's answer on the current supply of an asset.
#[derive(Clone, Copy, Debug, PartialEq, Eq, Structural)]
pub struct TotalSupplyResponse {
    pub current_supply: u64,
}

/// The platform's governance settings of an app.
#[derive(Clone, Copy, Debug, PartialEq, Eq, Structural)]
pub struct GetAppResponse {
    pub min_gov_deposit: u64,
    pub gov_time_in_seconds: u64,
    pub gov_token_id: u64,
}

/// The platform's answer on an asset's denomination.
#[derive(Clone, Debug, PartialEq, Eq)]
pub struct GetAssetDataResponse {
    pub denom: String,
}

/// The platform's verdict on a proposed parameter change.
#[derive(Clone, Debug, PartialEq, Eq)]
pub struct MessageValidateResponse {
    pub found: bool,
    pub err: String,
}

} // verus!
