//! The share market and the dividend rounds.

use vstd::prelude::*;
use crate::address::{
    claim_address,
    dividend_address,
    find_claim_address,
    find_dividend_address,
    lies_at,
};
use crate::engine::{Engine, EngineView};
use crate::error::{EngineError, RwaError};
use crate::key::Key;
use crate::ledger::LedgerView;
use crate::registry::{Asset, AssetAccount};

verus! {

/// One funded dividend round of an asset.
///
/// `index` is the first byte of the round's storage key. It is a tag, not a
/// sequence number: two rounds may carry the same index.
/// `supply_circ_at_open` is the circulating supply as the issuer stated it
/// when the round was opened; the engine does not check it against the ledger.
#[derive(Clone, Copy, Debug, PartialEq, Eq)]
pub struct Dividend {
    pub asset_mint: Key,
    pub index: u64,
    pub total_amount: u64,
    pub supply_circ_at_open: u64,
    pub created_at: i64,
    pub is_closed: bool,
}

/// What one holder claimed from one dividend round.
#[derive(Clone, Copy, Debug, PartialEq, Eq)]
pub struct Claim {
    pub div: Key,
    pub holder: Key,
    pub claimed_amount: u64,
}

/// The accounts of [`buy_shares`]. `buyer` is the caller.
#[derive(Clone, Copy, Debug, PartialEq, Eq)]
pub struct BuyShares {
    pub asset: Key,
    pub asset_mint: Key,
    pub usdc_mint: Key,
    pub buyer: Key,
    pub buyer_usdc: Key,
    pub buyer_shares: Key,
    pub mint_auth: Key,
    pub vault_usdc: Key,
}

/// The accounts of [`sell_shares`]. `seller` is the caller.
#[derive(Clone, Copy, Debug, PartialEq, Eq)]
pub struct SellShares {
    pub asset: Key,
    pub asset_mint: Key,
    pub usdc_mint: Key,
    pub seller: Key,
    pub seller_usdc: Key,
    pub seller_shares: Key,
    pub vault_usdc_auth: Key,
    pub vault_usdc: Key,
}

/// The accounts of [`open_dividend`]. `issuer` is the caller.
#[derive(Clone, Copy, Debug, PartialEq, Eq)]
pub struct OpenDividend {
    pub issuer: Key,
    pub asset: Key,
    pub dividend: Key,
    pub issuer_usdc_ata: Key,
    pub vault_usdc: Key,
}

/// The accounts of [`claim_dividend`]. `holder` is the caller.
#[derive(Clone, Copy, Debug, PartialEq, Eq)]
pub struct ClaimDividend {
    pub holder: Key,
    pub asset: Key,
    pub dividend: Key,
    pub claim: Key,
    pub holder_shares_ata: Key,
    pub holder_usdc_ata: Key,
    pub vault_usdc: Key,
}

/// The accounts of [`close_dividend`]. `issuer` is the caller.
#[derive(Clone, Copy, Debug, PartialEq, Eq)]
pub struct CloseDividend {
    pub issuer: Key,
    pub asset: Key,
    pub dividend: Key,
    pub issuer_usdc_ata: Key,
    pub vault_usdc: Key,
}

/// Tells that shares were bought.
#[derive(Clone, Copy, Debug, PartialEq, Eq)]
pub struct SharesBought {
    pub buyer: Key,
    pub mint: Key,
    pub amount: u64,
    pub total_paid: u64,
}

/// Tells that shares were sold back.
#[derive(Clone, Copy, Debug, PartialEq, Eq)]
pub struct SharesSold {
    pub seller: Key,
    pub mint: Key,
    pub amount: u64,
    pub total_received: u64,
}

/// Tells that a dividend round was opened and funded.
#[derive(Clone, Copy, Debug, PartialEq, Eq)]
pub struct DividendOpened {
    pub dividend: Key,
    pub asset: Key,
    pub total_amount: u64,
    pub supply_circ_at_open: u64,
}

/// Tells that a holder claimed from a dividend round.
#[derive(Clone, Copy, Debug, PartialEq, Eq)]
pub struct DividendClaimed {
    pub dividend: Key,
    pub holder: Key,
    pub amount: u64,
}

/// Tells that a dividend round was closed, and what was swept back.
#[derive(Clone, Copy, Debug, PartialEq, Eq)]
pub struct DividendClosed {
    pub dividend: Key,
    pub remaining_amount: u64,
}

impl Asset {
    /// The price of `amount` shares in settlement currency; `None` where it
    /// exceeds `u64::MAX`.
    pub open spec fn cost(self, amount: u64) -> Option<u64> {
        if amount * self.price_usdc > u64::MAX {
            None
        } else {
            Some((amount * self.price_usdc) as u64)
        }
    }

    /// The asset after `amount` shares were bought from its free float, with
    /// the price to pay for them.
    pub open spec fn after_buy(self, amount: u64) -> Result<(Asset, u64), EngineError> {
        if self.free_float < amount {
            Err(EngineError::Market(RwaError::InsufficientFloat))
        } else {
            match self.cost(amount) {
                None => Err(EngineError::FatalAbort),
                Some(total) => Ok((self.with_free_float((self.free_float - amount) as u64), total)),
            }
        }
    }

    /// The asset after `amount` shares were sold back into its free float;
    /// `None` where the free float would exceed `u64::MAX`.
    pub open spec fn after_sell(self, amount: u64) -> Option<Asset> {
        if self.free_float + amount > u64::MAX {
            None
        } else {
            Some(self.with_free_float((self.free_float + amount) as u64))
        }
    }

    /// Computes [`Asset::cost`] with a checked multiplication.
    pub fn quote(&self, amount: u64) -> (r: Option<u64>)
        ensures
            r == self.cost(amount),
    {
        amount.checked_mul(self.price_usdc)
    }

    /// Takes `amount` shares out of the free float and prices them. Fails
    /// with `Market(InsufficientFloat)` where the free float holds fewer,
    /// else with `FatalAbort` where the price exceeds `u64::MAX`.
    pub fn buy(&self, amount: u64) -> (r: Result<(Asset, u64), EngineError>)
        ensures
            r == self.after_buy(amount),
    {
        if self.free_float < amount {
            return Err(EngineError::Market(RwaError::InsufficientFloat));
        }
        let total: u64 = match self.quote(amount) {
            Some(t) => t,
            None => {
                return Err(EngineError::FatalAbort);
            },
        };
        let mut next = *self;
        next.free_float = self.free_float - amount;
        Ok((next, total))
    }

    /// Puts `amount` shares back into the free float, with a checked
    /// addition and without regard to the total supply.
    pub fn sell(&self, amount: u64) -> (r: Option<Asset>)
        ensures
            r == self.after_sell(amount),
    {
        let mut next = *self;
        next.free_float = match self.free_float.checked_add(amount) {
            Some(f) => f,
            None => {
                return None;
            },
        };
        Some(next)
    }
}

impl Dividend {
    /// The share of the round that falls to a holder of `holder_balance`
    /// shares: `holder_balance * total_amount / supply_circ_at_open`, rounded
    /// down. `None` where the round records no circulating supply or the
    /// share exceeds `u64::MAX`.
    pub open spec fn entitlement(self, holder_balance: u64) -> Option<u64> {
        if self.supply_circ_at_open == 0 {
            None
        } else if (holder_balance * self.total_amount) / (self.supply_circ_at_open as int)
            > u64::MAX {
            None
        } else {
            Some(((holder_balance * self.total_amount) / (self.supply_circ_at_open as int)) as u64)
        }
    }

    /// The round with its closed flag set.
    pub open spec fn closed(self) -> Dividend {
        Dividend { is_closed: true, ..self }
    }

    /// What a holder of `holder_balance` shares may claim from the round.
    pub open spec fn payout(self, holder_balance: u64) -> Result<u64, RwaError> {
        if self.is_closed {
            Err(RwaError::DividendClosed)
        } else {
            match self.entitlement(holder_balance) {
                Some(amount) => Ok(amount),
                None => Err(RwaError::MathOverflow),
            }
        }
    }

    /// The open round of `total_amount` on `asset_mint` that is stored under
    /// `address` and was created at `created_at`.
    pub open spec fn opened(
        asset_mint: Key,
        address: Key,
        total_amount: u64,
        supply_circ_at_open: u64,
        created_at: i64,
    ) -> Dividend {
        Dividend {
            asset_mint,
            index: address@[0] as u64,
            total_amount,
            supply_circ_at_open,
            created_at,
            is_closed: false,
        }
    }

    /// Makes [`Dividend::opened`].
    pub fn open(
        asset_mint: Key,
        address: &Key,
        total_amount: u64,
        supply_circ_at_open: u64,
        created_at: i64,
    ) -> (d: Dividend)
        ensures
            d == Dividend::opened(
                asset_mint,
                *address,
                total_amount,
                supply_circ_at_open,
                created_at,
            ),
    {
        Dividend {
            asset_mint,
            index: address.first_byte() as u64,
            total_amount,
            supply_circ_at_open,
            created_at,
            is_closed: false,
        }
    }

    /// The round with its closed flag set.
    pub fn close(&self) -> (d: Dividend)
        ensures
            d == self.closed(),
    {
        let mut d = *self;
        d.is_closed = true;
        d
    }

    /// Computes [`Dividend::payout`]: fails with `DividendClosed` where the
    /// round is closed, else with `MathOverflow` where there is no
    /// entitlement.
    pub fn claim(&self, holder_balance: u64) -> (r: Result<u64, RwaError>)
        ensures
            r == self.payout(holder_balance),
    {
        if self.is_closed {
            return Err(RwaError::DividendClosed);
        }
        self.claim_amount(holder_balance)
    }

    /// Computes [`Dividend::entitlement`] in 128-bit arithmetic; fails with
    /// `MathOverflow` where there is none.
    pub fn claim_amount(&self, holder_balance: u64) -> (r: Result<u64, RwaError>)
        ensures
            r == (match self.entitlement(holder_balance) {
                Some(amount) => Ok::<u64, RwaError>(amount),
                None => Err(RwaError::MathOverflow),
            }),
    {
        let balance: u128 = holder_balance as u128;
        let total: u128 = self.total_amount as u128;
        assert(balance * total <= u128::MAX) by (nonlinear_arith)
            requires
                balance <= u64::MAX,
                total <= u64::MAX,
        ;
        let product: u128 = match balance.checked_mul(total) {
            Some(p) => p,
            None => {
                return Err(RwaError::MathOverflow);
            },
        };
        let quotient: u128 = match product.checked_div(self.supply_circ_at_open as u128) {
            Some(q) => q,
            None => {
                return Err(RwaError::MathOverflow);
            },
        };
        if quotient > u64::MAX as u128 {
            return Err(RwaError::MathOverflow);
        }
        Ok(quotient as u64)
    }
}

impl EngineView {
    /// Whether the accounts of a purchase fit the asset they name: the mints
    /// are the asset's, the buyer owns both of their token accounts, and the
    /// minting authority and the vault are those bound to the asset.
    pub open spec fn buy_accounts_fit(self, ctx: BuyShares) -> bool {
        let stored = self.assets[ctx.asset];
        &&& stored.record.asset_mint == ctx.asset_mint
        &&& stored.record.usdc_mint == ctx.usdc_mint
        &&& self.ledger.is_account_of(ctx.buyer_usdc, ctx.usdc_mint, ctx.buyer)
        &&& self.ledger.is_account_of(ctx.buyer_shares, ctx.asset_mint, ctx.buyer)
        &&& stored.custody.mint_authority == ctx.mint_auth
        &&& stored.custody.vault == ctx.vault_usdc
    }

    /// Whether the accounts of a sale fit the asset they name.
    pub open spec fn sell_accounts_fit(self, ctx: SellShares) -> bool {
        let stored = self.assets[ctx.asset];
        &&& stored.record.asset_mint == ctx.asset_mint
        &&& stored.record.usdc_mint == ctx.usdc_mint
        &&& self.ledger.is_account_of(ctx.seller_usdc, ctx.usdc_mint, ctx.seller)
        &&& self.ledger.is_account_of(ctx.seller_shares, ctx.asset_mint, ctx.seller)
        &&& stored.custody.vault == ctx.vault_usdc_auth
        &&& stored.custody.vault == ctx.vault_usdc
    }

    /// Whether the accounts of a new round fit the asset they name.
    pub open spec fn open_accounts_fit(self, ctx: OpenDividend) -> bool {
        let stored = self.assets[ctx.asset];
        &&& self.ledger.is_account_of(ctx.issuer_usdc_ata, stored.record.usdc_mint, ctx.issuer)
        &&& stored.custody.vault == ctx.vault_usdc
    }

    /// Whether the accounts of a claim fit the asset and the round they name.
    pub open spec fn claim_accounts_fit(self, ctx: ClaimDividend) -> bool {
        let stored = self.assets[ctx.asset];
        &&& self.dividends[ctx.dividend].asset_mint == stored.record.asset_mint
        &&& self.ledger.is_account_of(
            ctx.holder_shares_ata,
            stored.record.asset_mint,
            ctx.holder,
        )
        &&& self.ledger.is_account_of(ctx.holder_usdc_ata, stored.record.usdc_mint, ctx.holder)
        &&& stored.custody.vault == ctx.vault_usdc
    }

    /// Whether the accounts of a closing fit the asset and the round they
    /// name.
    pub open spec fn close_accounts_fit(self, ctx: CloseDividend) -> bool {
        let stored = self.assets[ctx.asset];
        &&& self.dividends[ctx.dividend].asset_mint == stored.record.asset_mint
        &&& self.ledger.is_account_of(ctx.issuer_usdc_ata, stored.record.usdc_mint, ctx.issuer)
        &&& stored.custody.vault == ctx.vault_usdc
        &&& self.ledger.accounts.contains_key(ctx.vault_usdc)
    }

    /// The state with the record of the asset under `asset` replaced.
    pub open spec fn with_record(self, asset: Key, record: Asset) -> EngineView {
        EngineView {
            assets: self.assets.insert(asset, self.assets[asset].with_record(record)),
            ..self
        }
    }

    /// The state with the ledger replaced.
    pub open spec fn with_ledger(self, ledger: LedgerView) -> EngineView {
        EngineView { ledger, ..self }
    }

    /// What [`buy_shares`] does to the state `self`: the error, or the new
    /// state and the event.
    pub open spec fn buy_shares(self, ctx: BuyShares, amount: u64) -> Result<
        (EngineView, SharesBought),
        EngineError,
    > {
        if !self.assets.contains_key(ctx.asset) {
            Err(EngineError::AccountNotFound)
        } else if !self.buy_accounts_fit(ctx) {
            Err(EngineError::ConstraintViolated)
        } else {
            match self.assets[ctx.asset].record.after_buy(amount) {
                Err(e) => Err(e),
                Ok((record, total)) => match self.ledger.transfer(
                    ctx.usdc_mint,
                    ctx.buyer_usdc,
                    ctx.vault_usdc,
                    total,
                    ctx.buyer,
                ) {
                    Err(e) => Err(EngineError::Ledger(e)),
                    Ok(paid) => match paid.mint_to(
                        ctx.asset_mint,
                        ctx.buyer_shares,
                        amount,
                        ctx.mint_auth,
                    ) {
                        Err(e) => Err(EngineError::Ledger(e)),
                        Ok(minted) => Ok(
                            (
                                self.with_ledger(minted).with_record(ctx.asset, record),
                                SharesBought {
                                    buyer: ctx.buyer,
                                    mint: ctx.asset_mint,
                                    amount,
                                    total_paid: total,
                                },
                            ),
                        ),
                    },
                },
            }
        }
    }

    /// What [`sell_shares`] does to the state `self`: the error, or the new
    /// state and the event.
    pub open spec fn sell_shares(self, ctx: SellShares, amount: u64) -> Result<
        (EngineView, SharesSold),
        EngineError,
    > {
        if !self.assets.contains_key(ctx.asset) {
            Err(EngineError::AccountNotFound)
        } else if !self.sell_accounts_fit(ctx) {
            Err(EngineError::ConstraintViolated)
        } else {
            match self.assets[ctx.asset].record.cost(amount) {
                None => Err(EngineError::FatalAbort),
                Some(total) => match self.ledger.burn(
                    ctx.asset_mint,
                    ctx.seller_shares,
                    amount,
                    ctx.seller,
                ) {
                    Err(e) => Err(EngineError::Ledger(e)),
                    Ok(burnt) => match burnt.transfer(
                        ctx.usdc_mint,
                        ctx.vault_usdc,
                        ctx.seller_usdc,
                        total,
                        ctx.vault_usdc_auth,
                    ) {
                        Err(e) => Err(EngineError::Ledger(e)),
                        Ok(paid) => match self.assets[ctx.asset].record.after_sell(amount) {
                            None => Err(EngineError::FatalAbort),
                            Some(record) => Ok(
                                (
                                    self.with_ledger(paid).with_record(ctx.asset, record),
                                    SharesSold {
                                        seller: ctx.seller,
                                        mint: ctx.asset_mint,
                                        amount,
                                        total_received: total,
                                    },
                                ),
                            ),
                        },
                    },
                },
            }
        }
    }

    /// What [`open_dividend_at`] does to the state `self` at the time `now`,
    /// given the derived address `found` of the round: the error, or the new
    /// state and the event.
    pub open spec fn open_dividend(
        self,
        ctx: OpenDividend,
        total_amount: u64,
        supply_circ_at_open: u64,
        now: i64,
        found: Option<(Key, u8)>,
    ) -> Result<(EngineView, DividendOpened), EngineError> {
        if !self.assets.contains_key(ctx.asset) {
            Err(EngineError::AccountNotFound)
        } else if self.assets[ctx.asset].record.issuer != ctx.issuer {
            Err(EngineError::Unauthorized)
        } else if !self.open_accounts_fit(ctx) {
            Err(EngineError::ConstraintViolated)
        } else if found is None {
            Err(EngineError::AddressUnavailable)
        } else if !lies_at(ctx.dividend, found) {
            Err(EngineError::ConstraintViolated)
        } else if self.dividends.contains_key(ctx.dividend) {
            Err(EngineError::AlreadyExists)
        } else {
            match self.ledger.transfer(
                self.assets[ctx.asset].record.usdc_mint,
                ctx.issuer_usdc_ata,
                ctx.vault_usdc,
                total_amount,
                ctx.issuer,
            ) {
                Err(e) => Err(EngineError::Ledger(e)),
                Ok(funded) => Ok(
                    (
                        EngineView {
                            dividends: self.dividends.insert(
                                ctx.dividend,
                                Dividend::opened(
                                    self.assets[ctx.asset].record.asset_mint,
                                    ctx.dividend,
                                    total_amount,
                                    supply_circ_at_open,
                                    now,
                                ),
                            ),
                            ledger: funded,
                            ..self
                        },
                        DividendOpened {
                            dividend: ctx.dividend,
                            asset: ctx.asset,
                            total_amount,
                            supply_circ_at_open,
                        },
                    ),
                ),
            }
        }
    }

    /// The derived address of the round that `ctx` opens at the time `now`;
    /// `None` also where `ctx` names no asset.
    pub open spec fn new_dividend_address(self, ctx: OpenDividend, now: i64) -> Option<(Key, u8)> {
        if self.assets.contains_key(ctx.asset) {
            dividend_address(self.program_id, self.assets[ctx.asset].record.asset_mint, now)
        } else {
            None
        }
    }

    /// What [`claim_dividend_at`] does to the state `self`, given the derived
    /// address `found` of the claim: the error, or the new state and the
    /// event.
    pub open spec fn claim_dividend(self, ctx: ClaimDividend, found: Option<(Key, u8)>) -> Result<
        (EngineView, DividendClaimed),
        EngineError,
    > {
        if !self.assets.contains_key(ctx.asset) || !self.dividends.contains_key(ctx.dividend) {
            Err(EngineError::AccountNotFound)
        } else if !self.claim_accounts_fit(ctx) {
            Err(EngineError::ConstraintViolated)
        } else if found is None {
            Err(EngineError::AddressUnavailable)
        } else if !lies_at(ctx.claim, found) {
            Err(EngineError::ConstraintViolated)
        } else if self.claims.contains_key(ctx.claim) {
            Err(EngineError::AlreadyExists)
        } else {
            match self.dividends[ctx.dividend].payout(
                self.ledger.accounts[ctx.holder_shares_ata].amount,
            ) {
                Err(e) => Err(EngineError::Market(e)),
                Ok(amount) => match self.ledger.transfer(
                    self.assets[ctx.asset].record.usdc_mint,
                    ctx.vault_usdc,
                    ctx.holder_usdc_ata,
                    amount,
                    ctx.vault_usdc,
                ) {
                    Err(e) => Err(EngineError::Ledger(e)),
                    Ok(paid) => Ok(
                        (
                            EngineView {
                                claims: self.claims.insert(
                                    ctx.claim,
                                    Claim {
                                        div: ctx.dividend,
                                        holder: ctx.holder,
                                        claimed_amount: amount,
                                    },
                                ),
                                ledger: paid,
                                ..self
                            },
                            DividendClaimed {
                                dividend: ctx.dividend,
                                holder: ctx.holder,
                                amount,
                            },
                        ),
                    ),
                },
            }
        }
    }

    /// The ledger after the vault `vault` of the token `currency` was emptied
    /// into `to`; the ledger itself where the vault is empty.
    pub open spec fn swept(self, currency: Key, vault: Key, to: Key) -> Result<
        LedgerView,
        EngineError,
    > {
        if self.ledger.accounts[vault].amount > 0 {
            match self.ledger.transfer(
                currency,
                vault,
                to,
                self.ledger.accounts[vault].amount,
                vault,
            ) {
                Err(e) => Err(EngineError::Ledger(e)),
                Ok(ledger) => Ok(ledger),
            }
        } else {
            Ok(self.ledger)
        }
    }

    /// What [`close_dividend`] does to the state `self`: the error, or the new
    /// state and the event.
    pub open spec fn close_dividend(self, ctx: CloseDividend) -> Result<
        (EngineView, DividendClosed),
        EngineError,
    > {
        if !self.assets.contains_key(ctx.asset) || !self.dividends.contains_key(ctx.dividend) {
            Err(EngineError::AccountNotFound)
        } else if self.assets[ctx.asset].record.issuer != ctx.issuer {
            Err(EngineError::Unauthorized)
        } else if !self.close_accounts_fit(ctx) {
            Err(EngineError::ConstraintViolated)
        } else {
            match self.swept(
                self.assets[ctx.asset].record.usdc_mint,
                ctx.vault_usdc,
                ctx.issuer_usdc_ata,
            ) {
                Err(e) => Err(e),
                Ok(ledger) => Ok(
                    (
                        EngineView {
                            dividends: self.dividends.insert(
                                ctx.dividend,
                                self.dividends[ctx.dividend].closed(),
                            ),
                            ledger,
                            ..self
                        },
                        DividendClosed {
                            dividend: ctx.dividend,
                            remaining_amount: self.ledger.accounts[ctx.vault_usdc].amount,
                        },
                    ),
                ),
            }
        }
    }
}

/// Sells `amount` shares of an asset to `ctx.buyer` at the asset's price: the
/// price moves from the buyer's settlement account to the vault, the shares
/// are minted to the buyer, and the free float shrinks by `amount`. A purchase
/// of no shares succeeds and changes nothing.
///
/// Fails, in this order, with `AccountNotFound` where no asset is stored under
/// `ctx.asset`; `ConstraintViolated` where the accounts do not fit the asset;
/// `Market(InsufficientFloat)` where `amount` exceeds the free float;
/// `FatalAbort` where the price of the shares exceeds `u64::MAX`; `Ledger(..)`
/// where the ledger refuses the payment or the minting.
pub fn buy_shares(engine: &mut Engine, ctx: &BuyShares, amount: u64) -> (r: Result<
    SharesBought,
    EngineError,
>)
    ensures
        old(engine)@.buy_shares(*ctx, amount) == (match r {
            Ok(event) => Ok((final(engine)@, event)),
            Err(e) => Err(e),
        }),
        r is Err ==> final(engine)@ == old(engine)@,
{
    let stored = match engine.assets.get(&ctx.asset) {
        Some(s) => s,
        None => {
            return Err(EngineError::AccountNotFound);
        },
    };
    let asset = stored.record;
    if !(asset.asset_mint == ctx.asset_mint) || !(asset.usdc_mint == ctx.usdc_mint)
        || !engine.ledger.is_account_of(&ctx.buyer_usdc, &ctx.usdc_mint, &ctx.buyer)
        || !engine.ledger.is_account_of(&ctx.buyer_shares, &ctx.asset_mint, &ctx.buyer) || !(
    stored.custody.mint_authority == ctx.mint_auth) || !(stored.custody.vault == ctx.vault_usdc) {
        return Err(EngineError::ConstraintViolated);
    }
    let (record, total) = match asset.buy(amount) {
        Ok(bought) => bought,
        Err(e) => {
            return Err(e);
        },
    };
    let mut ledger = engine.ledger.snapshot();
    match ledger.transfer(&ctx.usdc_mint, &ctx.buyer_usdc, &ctx.vault_usdc, total, &ctx.buyer) {
        Err(e) => {
            return Err(EngineError::Ledger(e));
        },
        Ok(()) => {},
    }
    match ledger.mint_to(&ctx.asset_mint, &ctx.buyer_shares, amount, &ctx.mint_auth) {
        Err(e) => {
            return Err(EngineError::Ledger(e));
        },
        Ok(()) => {},
    }
    engine.ledger = ledger;
    engine.assets.put(ctx.asset, AssetAccount { record, custody: stored.custody });
    Ok(SharesBought { buyer: ctx.buyer, mint: ctx.asset_mint, amount, total_paid: total })
}

/// Buys `amount` shares of an asset back from `ctx.seller` at the asset's
/// price: the shares are burnt, the price moves from the vault to the
/// seller's settlement account, and the free float grows by `amount`, also
/// beyond the total supply. A sale of no shares succeeds and changes nothing.
///
/// Fails, in this order, with `AccountNotFound` where no asset is stored under
/// `ctx.asset`; `ConstraintViolated` where the accounts do not fit the asset;
/// `FatalAbort` where the price of the shares exceeds `u64::MAX`; `Ledger(..)`
/// where the ledger refuses the burning or the payment; `FatalAbort` where the
/// free float would exceed `u64::MAX`.
pub fn sell_shares(engine: &mut Engine, ctx: &SellShares, amount: u64) -> (r: Result<
    SharesSold,
    EngineError,
>)
    ensures
        old(engine)@.sell_shares(*ctx, amount) == (match r {
            Ok(event) => Ok((final(engine)@, event)),
            Err(e) => Err(e),
        }),
        r is Err ==> final(engine)@ == old(engine)@,
{
    let stored = match engine.assets.get(&ctx.asset) {
        Some(s) => s,
        None => {
            return Err(EngineError::AccountNotFound);
        },
    };
    let asset = stored.record;
    if !(asset.asset_mint == ctx.asset_mint) || !(asset.usdc_mint == ctx.usdc_mint)
        || !engine.ledger.is_account_of(&ctx.seller_usdc, &ctx.usdc_mint, &ctx.seller)
        || !engine.ledger.is_account_of(&ctx.seller_shares, &ctx.asset_mint, &ctx.seller) || !(
    stored.custody.vault == ctx.vault_usdc_auth) || !(stored.custody.vault == ctx.vault_usdc) {
        return Err(EngineError::ConstraintViolated);
    }
    let total: u64 = match asset.quote(amount) {
        Some(t) => t,
        None => {
            return Err(EngineError::FatalAbort);
        },
    };
    let mut ledger = engine.ledger.snapshot();
    match ledger.burn(&ctx.asset_mint, &ctx.seller_shares, amount, &ctx.seller) {
        Err(e) => {
            return Err(EngineError::Ledger(e));
        },
        Ok(()) => {},
    }
    match ledger.transfer(
        &ctx.usdc_mint,
        &ctx.vault_usdc,
        &ctx.seller_usdc,
        total,
        &ctx.vault_usdc_auth,
    ) {
        Err(e) => {
            return Err(EngineError::Ledger(e));
        },
        Ok(()) => {},
    }
    let record = match asset.sell(amount) {
        Some(r) => r,
        None => {
            return Err(EngineError::FatalAbort);
        },
    };
    engine.ledger = ledger;
    engine.assets.put(ctx.asset, AssetAccount { record, custody: stored.custody });
    Ok(SharesSold { seller: ctx.seller, mint: ctx.asset_mint, amount, total_received: total })
}

/// Opens a dividend round of `total_amount` on an asset at the address
/// `found` that was derived for it, and funds it: `total_amount` moves from
/// the issuer's settlement account to the vault. The round records
/// `supply_circ_at_open` as given and `now` as the time it was created.
///
/// Fails, in this order, with `AccountNotFound` where no asset is stored under
/// `ctx.asset`; `Unauthorized` where `ctx.issuer` is not its issuer;
/// `ConstraintViolated` where the accounts do not fit the asset;
/// `AddressUnavailable` where `found` is `None`; `ConstraintViolated` where
/// `ctx.dividend` is not the address in `found`; `AlreadyExists` where a round
/// is stored there; `Ledger(..)` where the ledger refuses the funding.
pub fn open_dividend_at(
    engine: &mut Engine,
    ctx: &OpenDividend,
    total_amount: u64,
    supply_circ_at_open: u64,
    now: i64,
    found: Option<(Key, u8)>,
) -> (r: Result<DividendOpened, EngineError>)
    ensures
        old(engine)@.open_dividend(*ctx, total_amount, supply_circ_at_open, now, found) == (match r {
            Ok(event) => Ok((final(engine)@, event)),
            Err(e) => Err(e),
        }),
        r is Err ==> final(engine)@ == old(engine)@,
{
    let stored = match engine.assets.get(&ctx.asset) {
        Some(s) => s,
        None => {
            return Err(EngineError::AccountNotFound);
        },
    };
    let asset = stored.record;
    if !(asset.issuer == ctx.issuer) {
        return Err(EngineError::Unauthorized);
    }
    if !engine.ledger.is_account_of(&ctx.issuer_usdc_ata, &asset.usdc_mint, &ctx.issuer) || !(
    stored.custody.vault == ctx.vault_usdc) {
        return Err(EngineError::ConstraintViolated);
    }
    let address = match found {
        Some(a) => a.0,
        None => {
            return Err(EngineError::AddressUnavailable);
        },
    };
    if !(ctx.dividend == address) {
        return Err(EngineError::ConstraintViolated);
    }
    if engine.dividends.contains(&ctx.dividend) {
        return Err(EngineError::AlreadyExists);
    }
    let mut ledger = engine.ledger.snapshot();
    match ledger.transfer(
        &asset.usdc_mint,
        &ctx.issuer_usdc_ata,
        &ctx.vault_usdc,
        total_amount,
        &ctx.issuer,
    ) {
        Err(e) => {
            return Err(EngineError::Ledger(e));
        },
        Ok(()) => {},
    }
    engine.ledger = ledger;
    engine.dividends.put(
        ctx.dividend,
        Dividend::open(asset.asset_mint, &ctx.dividend, total_amount, supply_circ_at_open, now),
    );
    Ok(
        DividendOpened {
            dividend: ctx.dividend,
            asset: ctx.asset,
            total_amount,
            supply_circ_at_open,
        },
    )
}

/// Opens and funds a dividend round at the address derived for the asset's
/// share mint and the time `now`: [`open_dividend_at`] on
/// [`EngineView::new_dividend_address`].
pub fn open_dividend(
    engine: &mut Engine,
    ctx: &OpenDividend,
    total_amount: u64,
    supply_circ_at_open: u64,
    now: i64,
) -> (r: Result<DividendOpened, EngineError>)
    ensures
        old(engine)@.open_dividend(
            *ctx,
            total_amount,
            supply_circ_at_open,
            now,
            old(engine)@.new_dividend_address(*ctx, now),
        ) == (match r {
            Ok(event) => Ok((final(engine)@, event)),
            Err(e) => Err(e),
        }),
        r is Err ==> final(engine)@ == old(engine)@,
{
    let found = match engine.assets.get(&ctx.asset) {
        Some(stored) => find_dividend_address(&engine.program_id, &stored.record.asset_mint, now),
        None => None,
    };
    open_dividend_at(engine, ctx, total_amount, supply_circ_at_open, now, found)
}

/// Pays `ctx.holder` their share of a dividend round and records the claim
/// at the address `found` that was derived for it. The share is the round's
/// [`Dividend::entitlement`] on the shares that the holder holds now, not on
/// those held when the round was opened; it moves from the vault to the
/// holder's settlement account.
///
/// Fails, in this order, with `AccountNotFound` where no asset is stored under
/// `ctx.asset` or no round under `ctx.dividend`; `ConstraintViolated` where
/// the accounts do not fit the asset and the round; `AddressUnavailable` where
/// `found` is `None`; `ConstraintViolated` where `ctx.claim` is not the
/// address in `found`; `AlreadyExists` where a claim is stored there;
/// `Market(DividendClosed)` where the round is closed; `Market(MathOverflow)`
/// where there is no entitlement; `Ledger(..)` where the ledger refuses the
/// payment.
pub fn claim_dividend_at(engine: &mut Engine, ctx: &ClaimDividend, found: Option<(Key, u8)>) -> (r:
    Result<DividendClaimed, EngineError>)
    ensures
        old(engine)@.claim_dividend(*ctx, found) == (match r {
            Ok(event) => Ok((final(engine)@, event)),
            Err(e) => Err(e),
        }),
        r is Err ==> final(engine)@ == old(engine)@,
{
    let stored = match engine.assets.get(&ctx.asset) {
        Some(s) => s,
        None => {
            return Err(EngineError::AccountNotFound);
        },
    };
    let dividend = match engine.dividends.get(&ctx.dividend) {
        Some(d) => d,
        None => {
            return Err(EngineError::AccountNotFound);
        },
    };
    let asset = stored.record;
    if !(dividend.asset_mint == asset.asset_mint) || !engine.ledger.is_account_of(
        &ctx.holder_shares_ata,
        &asset.asset_mint,
        &ctx.holder,
    ) || !engine.ledger.is_account_of(&ctx.holder_usdc_ata, &asset.usdc_mint, &ctx.holder) || !(
    stored.custody.vault == ctx.vault_usdc) {
        return Err(EngineError::ConstraintViolated);
    }
    let address = match found {
        Some(a) => a.0,
        None => {
            return Err(EngineError::AddressUnavailable);
        },
    };
    if !(ctx.claim == address) {
        return Err(EngineError::ConstraintViolated);
    }
    if engine.claims.contains(&ctx.claim) {
        return Err(EngineError::AlreadyExists);
    }
    let holder_balance: u64 = engine.ledger.balance(&ctx.holder_shares_ata);
    let amount: u64 = match dividend.claim(holder_balance) {
        Ok(a) => a,
        Err(e) => {
            return Err(EngineError::Market(e));
        },
    };
    let mut ledger = engine.ledger.snapshot();
    match ledger.transfer(
        &asset.usdc_mint,
        &ctx.vault_usdc,
        &ctx.holder_usdc_ata,
        amount,
        &ctx.vault_usdc,
    ) {
        Err(e) => {
            return Err(EngineError::Ledger(e));
        },
        Ok(()) => {},
    }
    engine.ledger = ledger;
    engine.claims.put(
        ctx.claim,
        Claim { div: ctx.dividend, holder: ctx.holder, claimed_amount: amount },
    );
    Ok(DividendClaimed { dividend: ctx.dividend, holder: ctx.holder, amount })
}

/// Pays a holder their share of a dividend round and records the claim at
/// the address derived for the round and the holder: [`claim_dividend_at`] on
/// [`claim_address`]. The same holder therefore claims from the same round at
/// most once.
pub fn claim_dividend(engine: &mut Engine, ctx: &ClaimDividend) -> (r: Result<
    DividendClaimed,
    EngineError,
>)
    ensures
        old(engine)@.claim_dividend(
            *ctx,
            claim_address(old(engine)@.program_id, ctx.dividend, ctx.holder),
        ) == (match r {
            Ok(event) => Ok((final(engine)@, event)),
            Err(e) => Err(e),
        }),
        r is Err ==> final(engine)@ == old(engine)@,
{
    let found = find_claim_address(&engine.program_id, &ctx.dividend, &ctx.holder);
    claim_dividend_at(engine, ctx, found)
}

/// Closes a dividend round and sweeps whatever the vault holds to the
/// issuer's settlement account. Closing a closed round with an empty vault
/// succeeds and changes nothing.
///
/// Fails, in this order, with `AccountNotFound` where no asset is stored under
/// `ctx.asset` or no round under `ctx.dividend`; `Unauthorized` where
/// `ctx.issuer` is not the asset's issuer; `ConstraintViolated` where the
/// accounts do not fit the asset and the round; `Ledger(..)` where the ledger
/// refuses the sweep.
pub fn close_dividend(engine: &mut Engine, ctx: &CloseDividend) -> (r: Result<
    DividendClosed,
    EngineError,
>)
    ensures
        old(engine)@.close_dividend(*ctx) == (match r {
            Ok(event) => Ok((final(engine)@, event)),
            Err(e) => Err(e),
        }),
        r is Err ==> final(engine)@ == old(engine)@,
{
    let stored = match engine.assets.get(&ctx.asset) {
        Some(s) => s,
        None => {
            return Err(EngineError::AccountNotFound);
        },
    };
    let dividend = match engine.dividends.get(&ctx.dividend) {
        Some(d) => d,
        None => {
            return Err(EngineError::AccountNotFound);
        },
    };
    let asset = stored.record;
    if !(asset.issuer == ctx.issuer) {
        return Err(EngineError::Unauthorized);
    }
    let vault = match engine.ledger.account(&ctx.vault_usdc) {
        Some(v) => v,
        None => {
            return Err(EngineError::ConstraintViolated);
        },
    };
    if !(dividend.asset_mint == asset.asset_mint) || !engine.ledger.is_account_of(
        &ctx.issuer_usdc_ata,
        &asset.usdc_mint,
        &ctx.issuer,
    ) || !(stored.custody.vault == ctx.vault_usdc) {
        return Err(EngineError::ConstraintViolated);
    }
    let remaining: u64 = vault.amount;
    if remaining > 0 {
        let mut ledger = engine.ledger.snapshot();
        match ledger.transfer(
            &asset.usdc_mint,
            &ctx.vault_usdc,
            &ctx.issuer_usdc_ata,
            remaining,
            &ctx.vault_usdc,
        ) {
            Err(e) => {
                return Err(EngineError::Ledger(e));
            },
            Ok(()) => {},
        }
        engine.ledger = ledger;
    }
    engine.dividends.put(ctx.dividend, dividend.close());
    Ok(DividendClosed { dividend: ctx.dividend, remaining_amount: remaining })
}

} // verus!
