//! The global properties of settlement, stated and proved once over the
//! spec functions that the contracts of `pay`, `transfer_nft`,
//! `close_mint_vault` and `settle` are written in: conservation of value,
//! single settlement per listing, the vault lifecycle invariant, and the
//! fee bound. Atomicity — any refusal leaves the state untouched — is an
//! `ensures` clause of each of those four functions itself.

use vstd::prelude::*;

use crate::settle::SettlementError;
use crate::state::Purchase;

verus! {

/// Law (conservation): a successful settlement splits the price exactly —
/// the seller's amount plus the fee equals the listing price, the buyer's
/// balance decreases by exactly the price, the seller's increases by the
/// price less the fee plus the vault's returned rent deposit, and the
/// treasury's increases by exactly the fee.
pub proof fn lemma_settlement_conservation(p: Purchase)
    requires
        p.wf(),
        p.settle_error() is None,
    ensures
        p.settle_receipt().seller_amount + p.settle_receipt().fee == p.listing->Some_0.price,
        p.settle_ok_state().taker_lamports == p.taker_lamports - p.listing->Some_0.price,
        p.settle_ok_state().maker_lamports == p.maker_lamports + p.listing->Some_0.price
            - p.marketplace.fee + p.vault->Some_0.lamports,
        p.settle_ok_state().treasury_lamports == p.treasury_lamports + p.marketplace.fee,
        p.settle_ok_state().total_lamports() == p.total_lamports(),
{
}

/// Law (single settlement per listing): after a successful settlement, a
/// second settlement of the same purchase state cannot succeed; it is
/// refused with the not-found error, leaving the state untouched. Of two
/// settlements against one listing, at most the first succeeds.
pub proof fn lemma_single_settlement(p: Purchase)
    requires
        p.settle_error() is None,
    ensures
        p.settle_ok_state().settle_error() == Some(SettlementError::ListingNotFound),
{
}

/// Law (vault lifecycle): a successful settlement tears the vault and the
/// listing down, and the buyer's holding account holds exactly one unit
/// more of the asset than before; no unit is created or destroyed.
pub proof fn lemma_vault_teardown(p: Purchase)
    requires
        p.wf(),
        p.settle_error() is None,
    ensures
        p.settle_ok_state().vault is None,
        p.settle_ok_state().listing is None,
        p.settle_ok_state().taker_ata.amount == p.taker_ata.amount + 1,
        p.settle_ok_state().total_asset_units() == p.total_asset_units(),
{
}

/// Law (fee bound): whenever the marketplace fee exceeds the listing
/// price — however the rest of the state looks, as long as the listing and
/// its vault are present and correctly cross-referenced — settlement is
/// refused with exactly the fee-bound error; the seller's amount never
/// underflows.
pub proof fn lemma_fee_bound(p: Purchase)
    requires
        p.listing is Some,
        p.vault is Some,
        p.references_match(),
        p.marketplace.fee > p.listing->Some_0.price,
    ensures
        p.settle_error() == Some(SettlementError::FeeExceedsPrice),
{
}

} // verus!
