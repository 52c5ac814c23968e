//! A tokenized real-world-asset ledger: an asset registry, a share market that
//! trades against a custody vault, and pro-rata dividend rounds.
//!
//! The engine keeps its records in memory and moves value through a
//! [`ledger::TokenLedger`]. Every operation is all-or-nothing: it either
//! commits every effect or leaves the engine exactly as it found it.

pub mod key;
pub mod table;
pub mod ledger;
pub mod address;
pub mod error;
pub mod engine;
pub mod registry;
pub mod market;
pub mod layout;
pub mod laws;

pub use crate::engine::Engine;
pub use crate::error::{EngineError, ErrorCode, RwaError};
pub use crate::key::Key;
pub use crate::ledger::{LedgerError, Mint, TokenAccount, TokenLedger};
pub use crate::market::{
    buy_shares, claim_dividend, claim_dividend_at, close_dividend, open_dividend,
    open_dividend_at, sell_shares, BuyShares, Claim, ClaimDividend, CloseDividend, Dividend,
    DividendClaimed, DividendClosed, DividendOpened, OpenDividend, SellShares, SharesBought,
    SharesSold,
};
pub use crate::registry::{
    create_asset, create_asset_at, find_asset_addresses, update_asset, Asset, AssetAccount,
    AssetAddresses, AssetCreated, AssetUpdated, CreateAsset, Custody, UpdateAsset,
};
