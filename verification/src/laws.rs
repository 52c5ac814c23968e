//! What holds of the engine whatever its state: laws that relate the
//! operations to one another and to the ledger.

use vstd::prelude::*;
use crate::engine::EngineView;
use crate::error::{fails_with, EngineError, ErrorCode, RwaError};
use crate::key::Key;
use crate::ledger::LedgerError;
use crate::market::{
    BuyShares,
    ClaimDividend,
    CloseDividend,
    Dividend,
    DividendClosed,
    OpenDividend,
    SellShares,
};
use crate::registry::{AssetAddresses, CreateAsset, UpdateAsset};

verus! {

/// One request to the engine, with the addresses derived for it where it
/// creates a record.
#[allow(inconsistent_fields)]
pub enum Request {
    CreateAsset {
        ctx: CreateAsset,
        price_usdc: u64,
        total_supply: u64,
        free_float: u64,
        decimals: u8,
        found: Option<AssetAddresses>,
    },
    UpdateAsset { ctx: UpdateAsset, new_price_usdc: Option<u64>, new_free_float: Option<u64> },
    BuyShares { ctx: BuyShares, amount: u64 },
    SellShares { ctx: SellShares, amount: u64 },
    OpenDividend {
        ctx: OpenDividend,
        total_amount: u64,
        supply_circ_at_open: u64,
        now: i64,
        found: Option<(Key, u8)>,
    },
    ClaimDividend { ctx: ClaimDividend, found: Option<(Key, u8)> },
    CloseDividend { ctx: CloseDividend },
}

/// The first component of a result, or `otherwise` where it is an error.
pub open spec fn state_or<E>(r: Result<(EngineView, E), EngineError>, otherwise: EngineView)
    -> EngineView {
    match r {
        Ok((after, _)) => after,
        Err(_) => otherwise,
    }
}

impl EngineView {
    /// The state after `request`: the new state where the request succeeds,
    /// `self` where it is refused.
    pub open spec fn after(self, request: Request) -> EngineView {
        match request {
            Request::CreateAsset { ctx, price_usdc, total_supply, free_float, decimals, found } => {
                state_or(
                    self.create_asset(ctx, price_usdc, total_supply, free_float, decimals, found),
                    self,
                )
            },
            Request::UpdateAsset { ctx, new_price_usdc, new_free_float } => state_or(
                self.update_asset(ctx, new_price_usdc, new_free_float),
                self,
            ),
            Request::BuyShares { ctx, amount } => state_or(self.buy_shares(ctx, amount), self),
            Request::SellShares { ctx, amount } => state_or(self.sell_shares(ctx, amount), self),
            Request::OpenDividend { ctx, total_amount, supply_circ_at_open, now, found } => {
                state_or(
                    self.open_dividend(ctx, total_amount, supply_circ_at_open, now, found),
                    self,
                )
            },
            Request::ClaimDividend { ctx, found } => state_or(self.claim_dividend(ctx, found), self),
            Request::CloseDividend { ctx } => state_or(self.close_dividend(ctx), self),
        }
    }

    /// The state after the requests `requests`, served in order.
    pub open spec fn after_all(self, requests: Seq<Request>) -> EngineView
        decreases requests.len(),
    {
        if requests.len() == 0 {
            self
        } else {
            self.after(requests.first()).after_all(requests.drop_first())
        }
    }
}

/// A successful purchase lowers the free float of the asset by exactly the
/// amount bought, and changes nothing else in the registry.
pub proof fn law_buy_lowers_free_float(s: EngineView, ctx: BuyShares, amount: u64)
    ensures
        match s.buy_shares(ctx, amount) {
            Ok((after, event)) => {
                &&& after.assets.contains_key(ctx.asset)
                &&& after.assets[ctx.asset].record.free_float == s.assets[ctx.asset].record.free_float
                    - amount
                &&& after.assets == s.assets.insert(ctx.asset, after.assets[ctx.asset])
                &&& after.assets[ctx.asset].record == s.assets[ctx.asset].record.with_free_float(
                    after.assets[ctx.asset].record.free_float,
                )
                &&& event.amount == amount
            },
            Err(_) => true,
        },
{
}

/// A successful sale raises the free float of the asset by exactly the
/// amount sold, and changes nothing else in the registry.
pub proof fn law_sell_raises_free_float(s: EngineView, ctx: SellShares, amount: u64)
    ensures
        match s.sell_shares(ctx, amount) {
            Ok((after, event)) => {
                &&& after.assets.contains_key(ctx.asset)
                &&& after.assets[ctx.asset].record.free_float == s.assets[ctx.asset].record.free_float
                    + amount
                &&& after.assets == s.assets.insert(ctx.asset, after.assets[ctx.asset])
                &&& after.assets[ctx.asset].record == s.assets[ctx.asset].record.with_free_float(
                    after.assets[ctx.asset].record.free_float,
                )
                &&& event.amount == amount
            },
            Err(_) => true,
        },
{
}

/// A purchase of more shares than the free float holds is refused with
/// `InsufficientFloat`, whenever the accounts named fit a registered asset.
pub proof fn law_buy_needs_float(s: EngineView, ctx: BuyShares, amount: u64)
    requires
        s.assets.contains_key(ctx.asset),
        s.buy_accounts_fit(ctx),
        amount > s.assets[ctx.asset].record.free_float,
    ensures
        fails_with(s.buy_shares(ctx, amount), EngineError::Market(RwaError::InsufficientFloat)),
{
}

/// No purchase succeeds that asks for more than the free float.
pub proof fn law_buy_within_float(s: EngineView, ctx: BuyShares, amount: u64)
    requires
        s.buy_shares(ctx, amount) is Ok,
    ensures
        amount <= s.assets[ctx.asset].record.free_float,
{
}

/// A successful purchase raises the balance of the vault by the price of the
/// shares, `amount * price_usdc`, and lowers the buyer's settlement balance
/// by as much, where the buyer's accounts are not the vault.
pub proof fn law_buy_pays_vault(s: EngineView, ctx: BuyShares, amount: u64)
    requires
        s.buy_shares(ctx, amount) is Ok,
        ctx.buyer_usdc != ctx.vault_usdc,
        ctx.buyer_shares != ctx.vault_usdc,
        ctx.buyer_shares != ctx.buyer_usdc,
    ensures
        match s.buy_shares(ctx, amount) {
            Ok((after, event)) => {
                &&& event.total_paid == amount * s.assets[ctx.asset].record.price_usdc
                &&& after.ledger.balance(ctx.vault_usdc) == s.ledger.balance(ctx.vault_usdc)
                    + amount * s.assets[ctx.asset].record.price_usdc
                &&& after.ledger.balance(ctx.buyer_usdc) == s.ledger.balance(ctx.buyer_usdc)
                    - amount * s.assets[ctx.asset].record.price_usdc
            },
            Err(_) => true,
        },
{
}

/// A successful purchase raises the buyer's share balance by the amount
/// bought, where the buyer's share account is neither the vault nor the
/// account the buyer pays from.
pub proof fn law_buy_mints_shares(s: EngineView, ctx: BuyShares, amount: u64)
    requires
        s.buy_shares(ctx, amount) is Ok,
        ctx.buyer_shares != ctx.vault_usdc,
        ctx.buyer_shares != ctx.buyer_usdc,
    ensures
        match s.buy_shares(ctx, amount) {
            Ok((after, _)) => after.ledger.balance(ctx.buyer_shares) == s.ledger.balance(
                ctx.buyer_shares,
            ) + amount,
            Err(_) => true,
        },
{
}

/// A successful sale lowers the balance of the vault by the price of the
/// shares, `amount * price_usdc`, and raises the seller's settlement balance
/// by as much, where the seller's accounts are not the vault.
pub proof fn law_sell_pays_seller(s: EngineView, ctx: SellShares, amount: u64)
    requires
        s.sell_shares(ctx, amount) is Ok,
        ctx.seller_usdc != ctx.vault_usdc,
        ctx.seller_shares != ctx.vault_usdc,
        ctx.seller_shares != ctx.seller_usdc,
    ensures
        match s.sell_shares(ctx, amount) {
            Ok((after, event)) => {
                &&& event.total_received == amount * s.assets[ctx.asset].record.price_usdc
                &&& after.ledger.balance(ctx.vault_usdc) == s.ledger.balance(ctx.vault_usdc)
                    - amount * s.assets[ctx.asset].record.price_usdc
                &&& after.ledger.balance(ctx.seller_usdc) == s.ledger.balance(ctx.seller_usdc)
                    + amount * s.assets[ctx.asset].record.price_usdc
            },
            Err(_) => true,
        },
{
}

/// A successful sale lowers the seller's share balance by the amount sold,
/// where the seller's share account is neither the vault nor the account the
/// seller is paid into.
pub proof fn law_sell_burns_shares(s: EngineView, ctx: SellShares, amount: u64)
    requires
        s.sell_shares(ctx, amount) is Ok,
        ctx.seller_shares != ctx.vault_usdc,
        ctx.seller_shares != ctx.seller_usdc,
    ensures
        match s.sell_shares(ctx, amount) {
            Ok((after, _)) => after.ledger.balance(ctx.seller_shares) == s.ledger.balance(
                ctx.seller_shares,
            ) - amount,
            Err(_) => true,
        },
{
}

/// A sale of more shares than the seller holds fails. Where the accounts fit
/// a registered asset whose share mint the ledger knows, and the price of the
/// shares fits in `u64`, it is the ledger that refuses the burning, with
/// `InsufficientFunds`.
pub proof fn law_sell_needs_shares(s: EngineView, ctx: SellShares, amount: u64)
    requires
        s.ledger.balance(ctx.seller_shares) < amount,
    ensures
        s.sell_shares(ctx, amount) is Err,
        s.assets.contains_key(ctx.asset) && s.sell_accounts_fit(ctx) && s.assets[ctx.asset].record.cost(
            amount,
        ) is Some && s.ledger.mints.contains_key(ctx.asset_mint) ==> fails_with(
            s.sell_shares(ctx, amount),
            EngineError::Ledger(LedgerError::InsufficientFunds),
        ),
{
}

/// A successful claim is recorded under the address derived for it, where no
/// claim was recorded before.
pub proof fn law_claim_is_recorded(s: EngineView, ctx: ClaimDividend, found: Option<(Key, u8)>)
    ensures
        match s.claim_dividend(ctx, found) {
            Ok((after, event)) => {
                &&& found is Some
                &&& crate::address::lies_at(ctx.claim, found)
                &&& !s.claims.contains_key(ctx.claim)
                &&& after.claims.contains_key(ctx.claim)
                &&& after.claims[ctx.claim].div == ctx.dividend
                &&& after.claims[ctx.claim].holder == ctx.holder
                &&& after.claims[ctx.claim].claimed_amount == event.amount
            },
            Err(_) => true,
        },
{
}

/// A claim is refused wherever a claim is recorded under its address.
pub proof fn law_recorded_claim_blocks(s: EngineView, ctx: ClaimDividend, found: Option<(Key, u8)>)
    requires
        s.claims.contains_key(ctx.claim),
    ensures
        s.claim_dividend(ctx, found) is Err,
{
}

/// No request removes or changes a recorded claim.
pub proof fn law_claims_persist(s: EngineView, request: Request, claim: Key)
    requires
        s.claims.contains_key(claim),
    ensures
        s.after(request).claims.contains_key(claim),
        s.after(request).claims[claim] == s.claims[claim],
{
}

/// No sequence of requests removes or changes a recorded claim.
pub proof fn law_claims_persist_through(s: EngineView, requests: Seq<Request>, claim: Key)
    requires
        s.claims.contains_key(claim),
    ensures
        s.after_all(requests).claims.contains_key(claim),
        s.after_all(requests).claims[claim] == s.claims[claim],
    decreases requests.len(),
{
    if requests.len() > 0 {
        law_claims_persist(s, requests.first(), claim);
        law_claims_persist_through(s.after(requests.first()), requests.drop_first(), claim);
    }
}

/// A holder claims from a dividend round at most once: after a successful
/// claim, and whatever requests the engine serves in between, the same claim
/// is refused.
pub proof fn law_claim_at_most_once(
    s: EngineView,
    ctx: ClaimDividend,
    found: Option<(Key, u8)>,
    between: Seq<Request>,
)
    requires
        s.claim_dividend(ctx, found) is Ok,
    ensures
        s.after(Request::ClaimDividend { ctx, found }).after_all(between).claim_dividend(
            ctx,
            found,
        ) is Err,
{
    law_claim_is_recorded(s, ctx, found);
    let claimed = s.after(Request::ClaimDividend { ctx, found });
    law_claims_persist_through(claimed, between, ctx.claim);
    law_recorded_claim_blocks(claimed.after_all(between), ctx, found);
}

/// The same claim made again right after it succeeded is refused with
/// `AlreadyExists`.
pub proof fn law_second_claim_exists(s: EngineView, ctx: ClaimDividend, found: Option<(Key, u8)>)
    ensures
        match s.claim_dividend(ctx, found) {
            Ok((after, _)) => fails_with(
                after.claim_dividend(ctx, found),
                EngineError::AlreadyExists,
            ),
            Err(_) => true,
        },
{
}

/// The entitlement of a holder is `holder_balance * total_amount /
/// supply_circ_at_open`, rounded down.
pub proof fn law_entitlement_is_pro_rata(d: Dividend, holder_balance: u64)
    ensures
        match d.entitlement(holder_balance) {
            Some(amount) => {
                &&& d.supply_circ_at_open > 0
                &&& amount * d.supply_circ_at_open <= holder_balance * d.total_amount
                &&& holder_balance * d.total_amount < (amount + 1) * d.supply_circ_at_open
            },
            None => d.supply_circ_at_open == 0 || (holder_balance * d.total_amount) / (
            d.supply_circ_at_open as int) > u64::MAX,
        },
{
    if d.supply_circ_at_open > 0 {
        let p = holder_balance * d.total_amount;
        let n = d.supply_circ_at_open as int;
        vstd::arithmetic::div_mod::lemma_fundamental_div_mod(p, n);
        vstd::arithmetic::div_mod::lemma_mod_bound(p, n);
        assert(p == n * (p / n) + p % n);
        assert(n * (p / n) == (p / n) * n) by (nonlinear_arith);
        assert(((p / n) + 1) * n == (p / n) * n + n) by (nonlinear_arith);
    }
}

/// A successful claim pays and records the entitlement of the holder on the
/// shares held at the time of the claim.
pub proof fn law_claim_pays_entitlement(s: EngineView, ctx: ClaimDividend, found: Option<(Key, u8)>)
    ensures
        match s.claim_dividend(ctx, found) {
            Ok((after, event)) => {
                &&& s.dividends[ctx.dividend].entitlement(
                    s.ledger.accounts[ctx.holder_shares_ata].amount,
                ) == Some(event.amount)
                &&& after.claims[ctx.claim].claimed_amount == event.amount
                &&& ctx.holder_usdc_ata != ctx.vault_usdc ==> after.ledger.balance(
                    ctx.holder_usdc_ata,
                ) == s.ledger.balance(ctx.holder_usdc_ata) + event.amount
                &&& ctx.holder_usdc_ata != ctx.vault_usdc ==> after.ledger.balance(ctx.vault_usdc)
                    == s.ledger.balance(ctx.vault_usdc) - event.amount
            },
            Err(_) => true,
        },
{
}

/// Closing a round sweeps the whole balance of the vault and marks the round
/// closed.
pub proof fn law_close_sweeps_vault(s: EngineView, ctx: CloseDividend)
    ensures
        match s.close_dividend(ctx) {
            Ok((after, event)) => {
                &&& event.remaining_amount == s.ledger.balance(ctx.vault_usdc)
                &&& after.dividends.contains_key(ctx.dividend)
                &&& after.dividends[ctx.dividend].is_closed
                &&& ctx.issuer_usdc_ata != ctx.vault_usdc ==> after.ledger.balance(ctx.vault_usdc)
                    == 0
                &&& ctx.issuer_usdc_ata != ctx.vault_usdc ==> after.ledger.balance(
                    ctx.issuer_usdc_ata,
                ) == s.ledger.balance(ctx.issuer_usdc_ata) + s.ledger.balance(ctx.vault_usdc)
            },
            Err(_) => true,
        },
{
}

/// Closing is idempotent: closing a round again right after it was closed
/// succeeds, sweeps nothing and leaves the state as it is, where the issuer's
/// settlement account is not the vault itself.
pub proof fn law_close_is_idempotent(s: EngineView, ctx: CloseDividend)
    requires
        ctx.issuer_usdc_ata != ctx.vault_usdc,
    ensures
        match s.close_dividend(ctx) {
            Ok((after, _)) => after.close_dividend(ctx) == Ok::<
                (EngineView, DividendClosed),
                EngineError,
            >((after, DividendClosed { dividend: ctx.dividend, remaining_amount: 0 })),
            Err(_) => true,
        },
{
    match s.close_dividend(ctx) {
        Ok((after, _)) => {
            let again = EngineView {
                dividends: after.dividends.insert(
                    ctx.dividend,
                    after.dividends[ctx.dividend].closed(),
                ),
                ledger: after.ledger,
                ..after
            };
            assert(again.dividends =~= after.dividends);
            assert(again =~= after);
        },
        Err(_) => {},
    }
}

/// A claim on a closed round is refused, with `DividendClosed` where nothing
/// else is wrong with it.
pub proof fn law_closed_round_pays_nothing(
    s: EngineView,
    ctx: ClaimDividend,
    found: Option<(Key, u8)>,
)
    requires
        s.dividends.contains_key(ctx.dividend),
        s.dividends[ctx.dividend].is_closed,
    ensures
        s.claim_dividend(ctx, found) is Err,
        s.assets.contains_key(ctx.asset) && s.claim_accounts_fit(ctx) && crate::address::lies_at(
            ctx.claim,
            found,
        ) && !s.claims.contains_key(ctx.claim) ==> fails_with(
            s.claim_dividend(ctx, found),
            EngineError::Market(RwaError::DividendClosed),
        ),
{
}

/// An update that would raise the free float above the total supply is
/// refused with `InvalidFreeFloat`, whenever the issuer of a registered asset
/// asks for it; the state after it is the state before.
pub proof fn law_update_keeps_float_within_supply(
    s: EngineView,
    ctx: UpdateAsset,
    new_price_usdc: Option<u64>,
    new_free_float: u64,
)
    requires
        s.assets.contains_key(ctx.asset),
        s.assets[ctx.asset].record.issuer == ctx.issuer,
        new_free_float > s.assets[ctx.asset].record.total_supply,
    ensures
        fails_with(
            s.update_asset(ctx, new_price_usdc, Some(new_free_float)),
            EngineError::Registry(ErrorCode::InvalidFreeFloat),
        ),
        s.after(
            Request::UpdateAsset { ctx, new_price_usdc, new_free_float: Some(new_free_float) },
        ) == s,
{
}

/// After a successful update the free float is within the total supply
/// wherever a new free float was given, and the total supply is as before.
pub proof fn law_update_result(
    s: EngineView,
    ctx: UpdateAsset,
    new_price_usdc: Option<u64>,
    new_free_float: Option<u64>,
)
    ensures
        match s.update_asset(ctx, new_price_usdc, new_free_float) {
            Ok((after, event)) => {
                &&& after.assets[ctx.asset].record == s.assets[ctx.asset].record.updated(
                    new_price_usdc,
                    new_free_float,
                )
                &&& new_free_float is Some ==> after.assets[ctx.asset].record.free_float
                    <= after.assets[ctx.asset].record.total_supply
                &&& event.price_usdc == after.assets[ctx.asset].record.price_usdc
                &&& event.free_float == after.assets[ctx.asset].record.free_float
                &&& after.ledger == s.ledger
            },
            Err(_) => true,
        },
{
}

} // verus!
