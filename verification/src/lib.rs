//! Settlement engine for a custodial marketplace.
//!
//! A buyer (the taker) pays a seller (the maker) for an asset held in a
//! vault whose authority is the listing record itself, a flat marketplace
//! fee is carved out to the treasury, the asset moves to the buyer's
//! holding account, and the vault and listing are torn down — all within
//! one atomic settlement. The module `state` models the ledger and custody
//! state as plain values; `settle` holds the verified settlement steps and
//! their exact contracts; `laws` states and proves the global properties
//! (conservation of value, atomicity, single settlement per listing, the
//! vault lifecycle invariant, and the fee bound).

pub mod laws;
pub mod settle;
pub mod state;
