//! The settlement steps and their contracts. Each step checks its own
//! preconditions and either applies its full effect or returns a typed
//! error leaving the state untouched; `settle` validates everything before
//! the first side effect, so that once value has moved the remaining steps
//! are proven unable to fail.

use vstd::prelude::*;

use crate::state::Purchase;
use crate::state::TokenAccount;
use crate::state::derive_authority;
use crate::state::spec_derive_authority;

verus! {

/// Why a settlement (or one of its steps) was refused. Every failure is
/// surfaced as exactly one of these, with no state change.
#[derive(Clone, Copy, Debug, PartialEq, Eq)]
pub enum SettlementError {
    /// The listing or its vault no longer exists — typically a second
    /// settlement attempt against an already-settled listing.
    ListingNotFound,
    /// Mismatched references: the listing does not belong to the given
    /// marketplace, the vault is for the wrong asset, or the vault's
    /// authority is not the listing's derived authority.
    AssetMismatch,
    /// The marketplace fee exceeds the listing price, so the seller's
    /// amount would underflow.
    FeeExceedsPrice,
    /// The destination holding account is not the buyer's, or is for the
    /// wrong asset class.
    UnauthorizedDestination,
    /// The vault does not hold the one escrowed unit it should.
    VaultEmpty,
    /// The buyer's balance cannot cover the listing price.
    InsufficientFunds,
    /// A vault teardown was attempted while the vault still held a unit.
    VaultNotEmpty,
}

/// What a successful settlement confirms: the amounts moved and the
/// asset's new holder.
#[derive(Clone, Copy, Debug, PartialEq, Eq)]
pub struct SettlementReceipt {
    /// Price paid by the buyer, in the ledger's base unit.
    pub price: u64,
    /// Portion of the price kept by the treasury.
    pub fee: u64,
    /// Portion of the price received by the seller.
    pub seller_amount: u64,
    /// Asset class that changed hands.
    pub asset: u64,
    /// Identity of the buyer now holding the asset.
    pub new_holder: u64,
}

impl Purchase {
    /// First refusal the payment step runs into, `None` when it succeeds:
    /// the listing must exist, the fee may not exceed the price, and the
    /// buyer must be able to cover the full price.
    pub open spec fn pay_error(self) -> Option<SettlementError> {
        if self.listing !is Some {
            Some(SettlementError::ListingNotFound)
        } else if self.marketplace.fee > self.listing->Some_0.price {
            Some(SettlementError::FeeExceedsPrice)
        } else if self.taker_lamports < self.listing->Some_0.price {
            Some(SettlementError::InsufficientFunds)
        } else {
            None
        }
    }

    /// State after a successful payment step: the buyer is debited the
    /// full price, the seller is credited the price less the fee, and the
    /// treasury is credited the fee.
    pub open spec fn pay_applied(self) -> Purchase {
        Purchase {
            taker_lamports: (self.taker_lamports - self.listing->Some_0.price) as u64,
            maker_lamports: (self.maker_lamports + self.listing->Some_0.price
                - self.marketplace.fee) as u64,
            treasury_lamports: (self.treasury_lamports + self.marketplace.fee) as u64,
            ..self
        }
    }

    /// Payment split: one debit of the buyer for the whole price, credited
    /// to the seller and the treasury. Fails without any state change when
    /// the listing is gone, the fee exceeds the price, or the buyer's
    /// balance is short; otherwise applies exactly the split.
    pub fn pay(&mut self) -> (r: Result<(), SettlementError>)
        requires
            old(self).wf(),
        ensures
            match old(self).pay_error() {
                Some(e) => r == Err::<(), SettlementError>(e) && *final(self) == *old(self),
                None => r == Ok::<(), SettlementError>(()) && *final(self) == old(
                    self,
                ).pay_applied(),
            },
            final(self).total_lamports() == old(self).total_lamports(),
            final(self).total_asset_units() == old(self).total_asset_units(),
            final(self).wf(),
    {
        let listing = match self.listing {
            Some(l) => l,
            None => { return Err(SettlementError::ListingNotFound) },
        };
        let fee = self.marketplace.fee;
        if fee > listing.price {
            return Err(SettlementError::FeeExceedsPrice);
        }
        let seller_amount = listing.price - fee;
        if self.taker_lamports < listing.price {
            return Err(SettlementError::InsufficientFunds);
        }
        self.taker_lamports = self.taker_lamports - listing.price;
        self.maker_lamports = self.maker_lamports + seller_amount;
        self.treasury_lamports = self.treasury_lamports + fee;
        Ok(())
    }

    /// First refusal the asset-transfer step runs into, `None` when it
    /// succeeds: the listing and vault must exist, the vault must be the
    /// listing's (right asset, authority derived from the listing), the
    /// destination must be the buyer's account for that asset, and the
    /// vault must hold the one escrowed unit.
    pub open spec fn transfer_nft_error(self) -> Option<SettlementError> {
        if self.listing !is Some || self.vault !is Some {
            Some(SettlementError::ListingNotFound)
        } else if self.vault->Some_0.mint != self.listing->Some_0.mint
            || self.vault->Some_0.authority != spec_derive_authority(
            self.listing->Some_0.marketplace,
            self.listing->Some_0.mint,
            self.listing->Some_0.bump,
        ) {
            Some(SettlementError::AssetMismatch)
        } else if self.taker_ata.mint != self.listing->Some_0.mint || self.taker_ata.authority
            != self.taker {
            Some(SettlementError::UnauthorizedDestination)
        } else if self.vault->Some_0.amount != 1 {
            Some(SettlementError::VaultEmpty)
        } else {
            None
        }
    }

    /// State after a successful asset transfer: the vault is emptied and
    /// the buyer's holding account gains exactly one unit.
    pub open spec fn transfer_nft_applied(self) -> Purchase {
        Purchase {
            taker_ata: TokenAccount {
                amount: (self.taker_ata.amount + 1) as u64,
                ..self.taker_ata
            },
            vault: Some(TokenAccount { amount: 0, ..self.vault->Some_0 }),
            ..self
        }
    }

    /// Asset transfer: moves the one escrowed unit from the vault to the
    /// buyer's holding account under the listing's derived authority — no
    /// personal signature is involved. Fails without any state change when
    /// the vault/listing pair is gone or mismatched, the destination is
    /// not the buyer's, or the vault is empty.
    pub fn transfer_nft(&mut self) -> (r: Result<(), SettlementError>)
        requires
            old(self).wf(),
        ensures
            match old(self).transfer_nft_error() {
                Some(e) => r == Err::<(), SettlementError>(e) && *final(self) == *old(self),
                None => r == Ok::<(), SettlementError>(()) && *final(self) == old(
                    self,
                ).transfer_nft_applied(),
            },
            final(self).total_lamports() == old(self).total_lamports(),
            final(self).total_asset_units() == old(self).total_asset_units(),
            final(self).wf(),
    {
        let listing = match self.listing {
            Some(l) => l,
            None => { return Err(SettlementError::ListingNotFound) },
        };
        let vault = match self.vault {
            Some(v) => v,
            None => { return Err(SettlementError::ListingNotFound) },
        };
        let authority = derive_authority(listing.marketplace, listing.mint, listing.bump);
        if vault.mint != listing.mint || vault.authority != authority {
            return Err(SettlementError::AssetMismatch);
        }
        if self.taker_ata.mint != listing.mint || self.taker_ata.authority != self.taker {
            return Err(SettlementError::UnauthorizedDestination);
        }
        if vault.amount != 1 {
            return Err(SettlementError::VaultEmpty);
        }
        self.taker_ata.amount = self.taker_ata.amount + 1;
        self.vault = Some(
            TokenAccount { mint: vault.mint, authority: vault.authority, amount: 0, lamports: vault.lamports },
        );
        Ok(())
    }

    /// First refusal the teardown step runs into, `None` when it succeeds:
    /// the listing and vault must exist, the vault's authority must be the
    /// listing's derived authority, and the vault must be empty.
    pub open spec fn close_mint_vault_error(self) -> Option<SettlementError> {
        if self.listing !is Some || self.vault !is Some {
            Some(SettlementError::ListingNotFound)
        } else if self.vault->Some_0.authority != spec_derive_authority(
            self.listing->Some_0.marketplace,
            self.listing->Some_0.mint,
            self.listing->Some_0.bump,
        ) {
            Some(SettlementError::AssetMismatch)
        } else if self.vault->Some_0.amount != 0 {
            Some(SettlementError::VaultNotEmpty)
        } else {
            None
        }
    }

    /// State after a successful teardown: the vault record is gone and its
    /// rent deposit is returned to the seller.
    pub open spec fn close_mint_vault_applied(self) -> Purchase {
        Purchase {
            maker_lamports: (self.maker_lamports + self.vault->Some_0.lamports) as u64,
            vault: None,
            ..self
        }
    }

    /// Vault teardown: closes the now-empty vault under the listing's
    /// derived authority, returning the rent deposit to the seller. Fails
    /// without any state change when the vault/listing pair is gone, the
    /// authority does not match, or a unit is still escrowed.
    pub fn close_mint_vault(&mut self) -> (r: Result<(), SettlementError>)
        requires
            old(self).wf(),
        ensures
            match old(self).close_mint_vault_error() {
                Some(e) => r == Err::<(), SettlementError>(e) && *final(self) == *old(self),
                None => r == Ok::<(), SettlementError>(()) && *final(self) == old(
                    self,
                ).close_mint_vault_applied(),
            },
            final(self).total_lamports() == old(self).total_lamports(),
            final(self).total_asset_units() == old(self).total_asset_units(),
            final(self).wf(),
    {
        let listing = match self.listing {
            Some(l) => l,
            None => { return Err(SettlementError::ListingNotFound) },
        };
        let vault = match self.vault {
            Some(v) => v,
            None => { return Err(SettlementError::ListingNotFound) },
        };
        let authority = derive_authority(listing.marketplace, listing.mint, listing.bump);
        if vault.authority != authority {
            return Err(SettlementError::AssetMismatch);
        }
        if vault.amount != 0 {
            return Err(SettlementError::VaultNotEmpty);
        }
        self.maker_lamports = self.maker_lamports + vault.lamports;
        self.vault = None;
        Ok(())
    }

    /// Whether all the cross-references a settlement relies on hold: the
    /// listing belongs to the given marketplace and asset, the vault is
    /// the listing's (right asset, authority derived from the listing).
    pub open spec fn references_match(self) -> bool {
        &&& self.listing->Some_0.marketplace == self.marketplace.id
        &&& self.listing->Some_0.mint == self.maker_nft_mint
        &&& self.vault->Some_0.mint == self.listing->Some_0.mint
        &&& self.vault->Some_0.authority == spec_derive_authority(
            self.listing->Some_0.marketplace,
            self.listing->Some_0.mint,
            self.listing->Some_0.bump,
        )
    }

    /// First refusal a full settlement runs into, `None` when it succeeds.
    /// All checks precede the first side effect, in this order: existence,
    /// cross-references, fee bound, destination, escrowed unit, funds.
    pub open spec fn settle_error(self) -> Option<SettlementError> {
        if self.listing !is Some || self.vault !is Some {
            Some(SettlementError::ListingNotFound)
        } else if !self.references_match() {
            Some(SettlementError::AssetMismatch)
        } else if self.marketplace.fee > self.listing->Some_0.price {
            Some(SettlementError::FeeExceedsPrice)
        } else if self.taker_ata.mint != self.listing->Some_0.mint || self.taker_ata.authority
            != self.taker {
            Some(SettlementError::UnauthorizedDestination)
        } else if self.vault->Some_0.amount != 1 {
            Some(SettlementError::VaultEmpty)
        } else if self.taker_lamports < self.listing->Some_0.price {
            Some(SettlementError::InsufficientFunds)
        } else {
            None
        }
    }

    /// State after a successful settlement: the three steps applied in
    /// order, then the listing record retired.
    pub open spec fn settle_ok_state(self) -> Purchase {
        Purchase {
            listing: None,
            ..self.pay_applied().transfer_nft_applied().close_mint_vault_applied()
        }
    }

    /// The receipt a successful settlement returns.
    pub open spec fn settle_receipt(self) -> SettlementReceipt {
        SettlementReceipt {
            price: self.listing->Some_0.price,
            fee: self.marketplace.fee,
            seller_amount: (self.listing->Some_0.price - self.marketplace.fee) as u64,
            asset: self.listing->Some_0.mint,
            new_holder: self.taker,
        }
    }

    /// The whole settlement: validates every precondition before the first
    /// side effect, then runs the payment split, the asset transfer and
    /// the vault teardown in that order — each proven unable to fail once
    /// validation has passed — and retires the listing. On any refusal the
    /// state is untouched and exactly one typed error is returned; on
    /// success the listing and vault cease to exist, the asset sits with
    /// the buyer, and the receipt confirms the amounts moved.
    pub fn settle(&mut self) -> (r: Result<SettlementReceipt, SettlementError>)
        requires
            old(self).wf(),
        ensures
            match old(self).settle_error() {
                Some(e) => r == Err::<SettlementReceipt, SettlementError>(e) && *final(self)
                    == *old(self),
                None => r == Ok::<SettlementReceipt, SettlementError>(old(self).settle_receipt())
                    && *final(self) == old(self).settle_ok_state(),
            },
            final(self).total_lamports() == old(self).total_lamports(),
            final(self).total_asset_units() == old(self).total_asset_units(),
            final(self).wf(),
    {
        let listing = match self.listing {
            Some(l) => l,
            None => { return Err(SettlementError::ListingNotFound) },
        };
        let vault = match self.vault {
            Some(v) => v,
            None => { return Err(SettlementError::ListingNotFound) },
        };
        let authority = derive_authority(listing.marketplace, listing.mint, listing.bump);
        if listing.marketplace != self.marketplace.id || listing.mint != self.maker_nft_mint
            || vault.mint != listing.mint || vault.authority != authority {
            return Err(SettlementError::AssetMismatch);
        }
        let fee = self.marketplace.fee;
        if fee > listing.price {
            return Err(SettlementError::FeeExceedsPrice);
        }
        if self.taker_ata.mint != listing.mint || self.taker_ata.authority != self.taker {
            return Err(SettlementError::UnauthorizedDestination);
        }
        if vault.amount != 1 {
            return Err(SettlementError::VaultEmpty);
        }
        if self.taker_lamports < listing.price {
            return Err(SettlementError::InsufficientFunds);
        }
        let receipt = SettlementReceipt {
            price: listing.price,
            fee,
            seller_amount: listing.price - fee,
            asset: listing.mint,
            new_holder: self.taker,
        };
        self.pay()?;
        self.transfer_nft()?;
        self.close_mint_vault()?;
        self.listing = None;
        Ok(receipt)
    }
}

} // verus!
