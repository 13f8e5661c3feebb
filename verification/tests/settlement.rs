use marketplace::settle::SettlementError;
use marketplace::state::derive_authority;
use marketplace::state::Listing;
use marketplace::state::Marketplace;
use marketplace::state::Purchase;
use marketplace::state::TokenAccount;

/// A well-formed purchase state: listing of price 1000 under marketplace 7
/// (flat fee 50) for asset 3, vault funded with the one escrowed unit and
/// controlled by the listing's derived authority, buyer 1 with 5000 in
/// funds, seller 2 with 10.
fn fresh_purchase() -> Purchase {
    let authority = derive_authority(7, 3, 5);
    Purchase {
        taker: 1,
        maker: 2,
        taker_lamports: 5000,
        maker_lamports: 10,
        treasury_lamports: 0,
        marketplace: Marketplace {
            id: 7,
            fee: 50,
            reward_mint: 9,
        },
        maker_nft_mint: 3,
        taker_ata: TokenAccount {
            mint: 3,
            authority: 1,
            amount: 0,
            lamports: 2,
        },
        vault: Some(TokenAccount {
            mint: 3,
            authority,
            amount: 1,
            lamports: 4,
        }),
        listing: Some(Listing {
            marketplace: 7,
            mint: 3,
            price: 1000,
            bump: 5,
        }),
    }
}

fn total_lamports(p: &Purchase) -> u128 {
    p.taker_lamports as u128
        + p.maker_lamports as u128
        + p.treasury_lamports as u128
        + p.taker_ata.lamports as u128
        + p.vault.map_or(0, |v| v.lamports as u128)
}

#[test]
fn settle_success_scenario() {
    // price = 1000, fee = 50: seller receives 950, treasury receives 50,
    // buyer pays exactly 1000, the asset moves 0 -> 1, and the listing and
    // vault cease to exist (the vault's rent deposit of 4 goes to the seller).
    let mut p = fresh_purchase();
    let receipt = p.settle().expect("settlement should succeed");
    assert_eq!(receipt.price, 1000);
    assert_eq!(receipt.fee, 50);
    assert_eq!(receipt.seller_amount, 950);
    assert_eq!(receipt.asset, 3);
    assert_eq!(receipt.new_holder, 1);
    assert_eq!(p.taker_lamports, 4000);
    assert_eq!(p.maker_lamports, 10 + 950 + 4);
    assert_eq!(p.treasury_lamports, 50);
    assert_eq!(p.taker_ata.amount, 1);
    assert!(p.vault.is_none());
    assert!(p.listing.is_none());
}

#[test]
fn settle_conserves_value() {
    let mut p = fresh_purchase();
    let before = total_lamports(&p);
    let receipt = p.settle().expect("settlement should succeed");
    assert_eq!(receipt.seller_amount + receipt.fee, receipt.price);
    assert_eq!(total_lamports(&p), before);
}

#[test]
fn settle_insufficient_funds_changes_nothing() {
    // Buyer balance 40 against price 1000: refused, and the whole state —
    // vault still holding its unit, listing still present, balances — is
    // exactly as before.
    let mut p = fresh_purchase();
    p.taker_lamports = 40;
    let before = p;
    assert_eq!(p.settle(), Err(SettlementError::InsufficientFunds));
    assert_eq!(p, before);
    assert_eq!(p.vault.unwrap().amount, 1);
    assert!(p.listing.is_some());
}

#[test]
fn settle_rejects_fee_above_price() {
    let mut p = fresh_purchase();
    p.marketplace.fee = 1001;
    let before = p;
    assert_eq!(p.settle(), Err(SettlementError::FeeExceedsPrice));
    assert_eq!(p, before);
}

#[test]
fn settle_accepts_fee_equal_to_price() {
    // Edge of the fee bound: fee == price is allowed and the seller's
    // amount is exactly zero.
    let mut p = fresh_purchase();
    p.marketplace.fee = 1000;
    let receipt = p.settle().expect("fee == price should settle");
    assert_eq!(receipt.seller_amount, 0);
    assert_eq!(receipt.fee, 1000);
    assert_eq!(p.maker_lamports, 10 + 4);
    assert_eq!(p.treasury_lamports, 1000);
}

#[test]
fn settle_zero_fee() {
    let mut p = fresh_purchase();
    p.marketplace.fee = 0;
    let receipt = p.settle().expect("zero fee should settle");
    assert_eq!(receipt.seller_amount, 1000);
    assert_eq!(receipt.fee, 0);
    assert_eq!(p.treasury_lamports, 0);
}

#[test]
fn settle_twice_second_fails_not_found() {
    // Of two settlements against the same listing, exactly one succeeds:
    // the second finds the listing and vault gone and changes nothing.
    let mut p = fresh_purchase();
    assert!(p.settle().is_ok());
    let after_first = p;
    assert_eq!(p.settle(), Err(SettlementError::ListingNotFound));
    assert_eq!(p, after_first);
}

#[test]
fn settle_rejects_missing_listing() {
    let mut p = fresh_purchase();
    p.listing = None;
    assert_eq!(p.settle(), Err(SettlementError::ListingNotFound));
}

#[test]
fn settle_rejects_missing_vault() {
    let mut p = fresh_purchase();
    p.vault = None;
    assert_eq!(p.settle(), Err(SettlementError::ListingNotFound));
}

#[test]
fn settle_rejects_wrong_marketplace() {
    let mut p = fresh_purchase();
    p.marketplace.id = 8;
    let before = p;
    assert_eq!(p.settle(), Err(SettlementError::AssetMismatch));
    assert_eq!(p, before);
}

#[test]
fn settle_rejects_wrong_vault_mint() {
    let mut p = fresh_purchase();
    let mut vault = p.vault.unwrap();
    vault.mint = 4;
    p.vault = Some(vault);
    assert_eq!(p.settle(), Err(SettlementError::AssetMismatch));
}

#[test]
fn settle_rejects_wrong_vault_authority() {
    // A vault not controlled by the listing's derived authority cannot be
    // drained, whoever else claims it.
    let mut p = fresh_purchase();
    let mut vault = p.vault.unwrap();
    vault.authority = p.maker;
    p.vault = Some(vault);
    assert_eq!(p.settle(), Err(SettlementError::AssetMismatch));
}

#[test]
fn settle_rejects_foreign_destination() {
    // Destination holding account owned by someone other than the buyer.
    let mut p = fresh_purchase();
    p.taker_ata.authority = 99;
    assert_eq!(p.settle(), Err(SettlementError::UnauthorizedDestination));
}

#[test]
fn settle_rejects_wrong_destination_mint() {
    let mut p = fresh_purchase();
    p.taker_ata.mint = 4;
    assert_eq!(p.settle(), Err(SettlementError::UnauthorizedDestination));
}

#[test]
fn settle_rejects_empty_vault() {
    let mut p = fresh_purchase();
    let mut vault = p.vault.unwrap();
    vault.amount = 0;
    p.vault = Some(vault);
    let before = p;
    assert_eq!(p.settle(), Err(SettlementError::VaultEmpty));
    assert_eq!(p, before);
}

#[test]
fn settle_exact_funds() {
    // Buyer balance exactly equal to the price settles and leaves zero.
    let mut p = fresh_purchase();
    p.taker_lamports = 1000;
    assert!(p.settle().is_ok());
    assert_eq!(p.taker_lamports, 0);
}

#[test]
fn settle_one_short() {
    let mut p = fresh_purchase();
    p.taker_lamports = 999;
    assert_eq!(p.settle(), Err(SettlementError::InsufficientFunds));
}

#[test]
fn pay_splits_price() {
    let mut p = fresh_purchase();
    assert_eq!(p.pay(), Ok(()));
    assert_eq!(p.taker_lamports, 4000);
    assert_eq!(p.maker_lamports, 960);
    assert_eq!(p.treasury_lamports, 50);
    // The payment step alone touches no asset or custody record.
    assert_eq!(p.taker_ata.amount, 0);
    assert_eq!(p.vault.unwrap().amount, 1);
    assert!(p.listing.is_some());
}

#[test]
fn pay_insufficient_funds() {
    let mut p = fresh_purchase();
    p.taker_lamports = 999;
    let before = p;
    assert_eq!(p.pay(), Err(SettlementError::InsufficientFunds));
    assert_eq!(p, before);
}

#[test]
fn transfer_nft_moves_one_unit() {
    let mut p = fresh_purchase();
    assert_eq!(p.transfer_nft(), Ok(()));
    assert_eq!(p.taker_ata.amount, 1);
    assert_eq!(p.vault.unwrap().amount, 0);
    // Balances are untouched by the asset step.
    assert_eq!(p.taker_lamports, 5000);
    assert_eq!(p.maker_lamports, 10);
}

#[test]
fn transfer_nft_rejects_empty_vault() {
    let mut p = fresh_purchase();
    let mut vault = p.vault.unwrap();
    vault.amount = 0;
    p.vault = Some(vault);
    assert_eq!(p.transfer_nft(), Err(SettlementError::VaultEmpty));
}

#[test]
fn close_mint_vault_requires_empty_vault() {
    // Teardown of a vault that still escrows the unit is refused.
    let mut p = fresh_purchase();
    let before = p;
    assert_eq!(p.close_mint_vault(), Err(SettlementError::VaultNotEmpty));
    assert_eq!(p, before);
}

#[test]
fn close_mint_vault_returns_rent_to_seller() {
    let mut p = fresh_purchase();
    assert_eq!(p.transfer_nft(), Ok(()));
    assert_eq!(p.close_mint_vault(), Ok(()));
    assert!(p.vault.is_none());
    assert_eq!(p.maker_lamports, 10 + 4);
}

#[test]
fn close_mint_vault_rejects_missing_vault() {
    let mut p = fresh_purchase();
    p.vault = None;
    assert_eq!(p.close_mint_vault(), Err(SettlementError::ListingNotFound));
}

#[test]
fn derive_authority_is_deterministic() {
    assert_eq!(derive_authority(7, 3, 5), derive_authority(7, 3, 5));
    assert_ne!(derive_authority(7, 3, 5), derive_authority(8, 3, 5));
    assert_ne!(derive_authority(7, 3, 5), derive_authority(7, 4, 5));
    assert_ne!(derive_authority(7, 3, 5), derive_authority(7, 3, 6));
}

#[test]
fn steps_in_order_match_settle() {
    // Running the three steps by hand in the mandated order, then retiring
    // the listing, lands in the same state as one settle call.
    let mut by_steps = fresh_purchase();
    assert_eq!(by_steps.pay(), Ok(()));
    assert_eq!(by_steps.transfer_nft(), Ok(()));
    assert_eq!(by_steps.close_mint_vault(), Ok(()));
    by_steps.listing = None;

    let mut by_settle = fresh_purchase();
    assert!(by_settle.settle().is_ok());
    assert_eq!(by_steps, by_settle);
}
