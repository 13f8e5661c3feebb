//! The ledger and custody state that a settlement acts on, modeled as
//! plain values: fungible balances in base units (lamports), holding
//! accounts that carry whole units of one asset class, the marketplace
//! configuration record, and the listing record that controls the vault.

use vstd::prelude::*;

verus! {

/// Marketplace-wide configuration, read-only during settlement.
#[derive(Clone, Copy, Debug, PartialEq, Eq)]
pub struct Marketplace {
    /// Identity of the marketplace (its derivation key).
    pub id: u64,
    /// Flat fee carved out of every sale, in the ledger's base unit.
    pub fee: u64,
    /// Asset class used for loyalty rewards; configuration only, not
    /// touched by settlement.
    pub reward_mint: u64,
}

/// One asset offered for sale under a marketplace. A listing exists iff
/// exactly one unit of its asset sits in the associated vault.
#[derive(Clone, Copy, Debug, PartialEq, Eq)]
pub struct Listing {
    /// Identity of the marketplace this listing belongs to.
    pub marketplace: u64,
    /// Identity of the asset class (mint) being sold.
    pub mint: u64,
    /// Asking price in the ledger's base unit.
    pub price: u64,
    /// Derivation nonce: together with the marketplace and mint
    /// identities it determines the custody authority over the vault.
    pub bump: u8,
}

/// A holding account: carries whole units of one asset class for one
/// authority, plus the rent deposit backing the account record.
#[derive(Clone, Copy, Debug, PartialEq, Eq)]
pub struct TokenAccount {
    /// Asset class the account holds units of.
    pub mint: u64,
    /// Who may move the units: a person for an ordinary account, the
    /// derived listing authority for a vault.
    pub authority: u64,
    /// Number of units held.
    pub amount: u64,
    /// Rent deposit returned to a designated recipient when the account
    /// record is closed.
    pub lamports: u64,
}

/// The custody authority over a vault, derived deterministically from the
/// marketplace identity, the asset identity and the listing's nonce. No
/// personal key is involved: whoever can present the derivation inputs
/// controls the vault, which is exactly the listing record.
pub open spec fn spec_derive_authority(marketplace_id: u64, mint: u64, bump: u8) -> u64 {
    (marketplace_id ^ mint) ^ (bump as u64)
}

/// Executable form of the authority derivation.
#[verifier::when_used_as_spec(spec_derive_authority)]
pub fn derive_authority(marketplace_id: u64, mint: u64, bump: u8) -> (r: u64)
    ensures
        r == spec_derive_authority(marketplace_id, mint, bump),
{
    (marketplace_id ^ mint) ^ (bump as u64)
}

/// Everything one settlement reads and writes: the two parties' balances,
/// the treasury, the buyer's holding account, and the vault/listing pair
/// being consumed. The vault and listing are `None` once torn down.
#[derive(Clone, Copy, Debug, PartialEq, Eq)]
pub struct Purchase {
    /// Identity of the buyer.
    pub taker: u64,
    /// Identity of the seller (the party that created the listing).
    pub maker: u64,
    /// Buyer's fungible balance.
    pub taker_lamports: u64,
    /// Seller's fungible balance.
    pub maker_lamports: u64,
    /// Fee-collecting balance of the marketplace.
    pub treasury_lamports: u64,
    /// Marketplace configuration, read-only.
    pub marketplace: Marketplace,
    /// Asset class the buyer expects to receive.
    pub maker_nft_mint: u64,
    /// Buyer's holding account for that asset class.
    pub taker_ata: TokenAccount,
    /// Custody vault holding the escrowed unit; `None` once closed.
    pub vault: Option<TokenAccount>,
    /// Listing record; `None` once the sale is settled.
    pub listing: Option<Listing>,
}

impl Purchase {
    /// Fungible value in sight of the settlement: both parties, the
    /// treasury, and the rent deposits of the two account records.
    pub open spec fn total_lamports(self) -> int {
        self.taker_lamports + self.maker_lamports + self.treasury_lamports
            + self.taker_ata.lamports
            + (if self.vault is Some {
                self.vault->Some_0.lamports as int
            } else {
                0
            })
    }

    /// Units of the asset in sight of the settlement: the buyer's holding
    /// account plus whatever the vault holds.
    pub open spec fn total_asset_units(self) -> int {
        self.taker_ata.amount + (if self.vault is Some {
            self.vault->Some_0.amount as int
        } else {
            0
        })
    }

    /// Machine-limit bounds that the surrounding ledger guarantees: the
    /// value and the asset units in sight each fit in the ledger's `u64`
    /// unit, so moving them between the accounts here can never overflow.
    pub open spec fn wf(self) -> bool {
        &&& self.total_lamports() <= u64::MAX
        &&& self.total_asset_units() <= u64::MAX
    }
}

} // verus!
