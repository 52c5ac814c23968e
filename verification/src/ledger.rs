//! The token ledger that holds share and settlement-currency balances.
//!
//! The market and the dividend engine never touch a balance themselves: they
//! ask the ledger to transfer, mint or burn, and the ledger checks the
//! authority that comes with each request.

use vstd::prelude::*;
use crate::key::Key;
use crate::table::Table;

verus! {

/// A token: who may mint it and how many decimal places it has.
#[derive(Clone, Copy, Debug, PartialEq, Eq)]
pub struct Mint {
    pub authority: Key,
    pub decimals: u8,
}

/// A balance of one token, held for one owner.
#[derive(Clone, Copy, Debug, PartialEq, Eq)]
pub struct TokenAccount {
    pub mint: Key,
    pub owner: Key,
    pub amount: u64,
}

/// Why the ledger refused a request.
#[derive(Clone, Copy, Debug, PartialEq, Eq, Structural)]
pub enum LedgerError {
    /// No token account is stored under the key.
    UnknownAccount,
    /// No mint is stored under the key.
    UnknownMint,
    /// A mint or a token account is already stored under the key.
    AccountInUse,
    /// The token account holds another token.
    MintMismatch,
    /// The authority does not own the token account.
    OwnerMismatch,
    /// The authority is not the minting authority of the mint.
    AuthorityMismatch,
    /// The token account holds less than the amount.
    InsufficientFunds,
    /// The balance would exceed `u64::MAX`.
    Overflow,
}

/// The mints and balances of a ledger, as maps.
#[verifier::ext_equal]
pub struct LedgerView {
    pub mints: Map<Key, Mint>,
    pub accounts: Map<Key, TokenAccount>,
}

impl LedgerView {
    /// The ledger without mints or token accounts.
    pub open spec fn empty() -> LedgerView {
        LedgerView { mints: Map::empty(), accounts: Map::empty() }
    }

    /// The balance stored under `account`; 0 where there is none.
    pub open spec fn balance(self, account: Key) -> int {
        if self.accounts.contains_key(account) {
            self.accounts[account].amount as int
        } else {
            0
        }
    }

    /// Whether `account` is a token account of `mint` owned by `owner`.
    pub open spec fn is_account_of(self, account: Key, mint: Key, owner: Key) -> bool {
        &&& self.accounts.contains_key(account)
        &&& self.accounts[account].mint == mint
        &&& self.accounts[account].owner == owner
    }

    /// Whether a mint or a token account is stored under `key`.
    pub open spec fn in_use(self, key: Key) -> bool {
        self.mints.contains_key(key) || self.accounts.contains_key(key)
    }

    /// The ledger with the balance of `account` replaced by `amount`.
    pub open spec fn with_balance(self, account: Key, amount: u64) -> LedgerView {
        LedgerView {
            mints: self.mints,
            accounts: self.accounts.insert(
                account,
                TokenAccount {
                    mint: self.accounts[account].mint,
                    owner: self.accounts[account].owner,
                    amount,
                },
            ),
        }
    }

    /// Registers the token `mint`, minted by `authority`.
    pub open spec fn create_mint(self, mint: Key, authority: Key, decimals: u8) -> Result<
        LedgerView,
        LedgerError,
    > {
        if self.in_use(mint) {
            Err(LedgerError::AccountInUse)
        } else {
            Ok(
                LedgerView {
                    mints: self.mints.insert(mint, Mint { authority, decimals }),
                    accounts: self.accounts,
                },
            )
        }
    }

    /// Opens the empty token account `account` of `mint` for `owner`.
    pub open spec fn create_account(self, account: Key, mint: Key, owner: Key) -> Result<
        LedgerView,
        LedgerError,
    > {
        if self.in_use(account) {
            Err(LedgerError::AccountInUse)
        } else if !self.mints.contains_key(mint) {
            Err(LedgerError::UnknownMint)
        } else {
            Ok(
                LedgerView {
                    mints: self.mints,
                    accounts: self.accounts.insert(account, TokenAccount { mint, owner, amount: 0 }),
                },
            )
        }
    }

    /// Moves `amount` of the token `currency` from `from` to `to` on the word
    /// of `authority`.
    pub open spec fn transfer(
        self,
        currency: Key,
        from: Key,
        to: Key,
        amount: u64,
        authority: Key,
    ) -> Result<LedgerView, LedgerError> {
        if !self.accounts.contains_key(from) || !self.accounts.contains_key(to) {
            Err(LedgerError::UnknownAccount)
        } else if self.accounts[from].mint != currency || self.accounts[to].mint != currency {
            Err(LedgerError::MintMismatch)
        } else if self.accounts[from].owner != authority {
            Err(LedgerError::OwnerMismatch)
        } else if self.accounts[from].amount < amount {
            Err(LedgerError::InsufficientFunds)
        } else if from == to {
            Ok(self)
        } else if self.accounts[to].amount + amount > u64::MAX {
            Err(LedgerError::Overflow)
        } else {
            Ok(
                self.with_balance(from, (self.accounts[from].amount - amount) as u64).with_balance(
                    to,
                    (self.accounts[to].amount + amount) as u64,
                ),
            )
        }
    }

    /// Mints `amount` of `mint` into `to` on the word of `authority`.
    pub open spec fn mint_to(self, mint: Key, to: Key, amount: u64, authority: Key) -> Result<
        LedgerView,
        LedgerError,
    > {
        if !self.mints.contains_key(mint) {
            Err(LedgerError::UnknownMint)
        } else if !self.accounts.contains_key(to) {
            Err(LedgerError::UnknownAccount)
        } else if self.accounts[to].mint != mint {
            Err(LedgerError::MintMismatch)
        } else if self.mints[mint].authority != authority {
            Err(LedgerError::AuthorityMismatch)
        } else if self.accounts[to].amount + amount > u64::MAX {
            Err(LedgerError::Overflow)
        } else {
            Ok(self.with_balance(to, (self.accounts[to].amount + amount) as u64))
        }
    }

    /// Burns `amount` of `mint` out of `from` on the word of `authority`.
    pub open spec fn burn(self, mint: Key, from: Key, amount: u64, authority: Key) -> Result<
        LedgerView,
        LedgerError,
    > {
        if !self.mints.contains_key(mint) {
            Err(LedgerError::UnknownMint)
        } else if !self.accounts.contains_key(from) {
            Err(LedgerError::UnknownAccount)
        } else if self.accounts[from].mint != mint {
            Err(LedgerError::MintMismatch)
        } else if self.accounts[from].owner != authority {
            Err(LedgerError::OwnerMismatch)
        } else if self.accounts[from].amount < amount {
            Err(LedgerError::InsufficientFunds)
        } else {
            Ok(self.with_balance(from, (self.accounts[from].amount - amount) as u64))
        }
    }
}

/// An in-memory token ledger.
pub struct TokenLedger {
    mints: Table<Mint>,
    accounts: Table<TokenAccount>,
}

impl View for TokenLedger {
    type V = LedgerView;

    closed spec fn view(&self) -> LedgerView {
        LedgerView { mints: self.mints@, accounts: self.accounts@ }
    }
}

impl TokenLedger {
    /// A ledger without mints or token accounts.
    pub fn new() -> (l: TokenLedger)
        ensures
            l@ == LedgerView::empty(),
    {
        TokenLedger { mints: Table::new(), accounts: Table::new() }
    }

    /// A copy of the ledger.
    pub fn snapshot(&self) -> (l: TokenLedger)
        ensures
            l@ == self@,
    {
        TokenLedger { mints: self.mints.snapshot(), accounts: self.accounts.snapshot() }
    }

    /// The mint stored under `key`, if there is one.
    pub fn mint(&self, key: &Key) -> (r: Option<Mint>)
        ensures
            r == (if self@.mints.contains_key(*key) {
                Some(self@.mints[*key])
            } else {
                None
            }),
    {
        self.mints.get(key)
    }

    /// The token account stored under `key`, if there is one.
    pub fn account(&self, key: &Key) -> (r: Option<TokenAccount>)
        ensures
            r == (if self@.accounts.contains_key(*key) {
                Some(self@.accounts[*key])
            } else {
                None
            }),
    {
        self.accounts.get(key)
    }

    /// The balance stored under `key`; 0 where there is no such token account.
    pub fn balance(&self, key: &Key) -> (b: u64)
        ensures
            b == self@.balance(*key),
    {
        match self.accounts.get(key) {
            Some(a) => a.amount,
            None => 0,
        }
    }

    /// Whether `account` is a token account of `mint` owned by `owner`.
    pub fn is_account_of(&self, account: &Key, mint: &Key, owner: &Key) -> (r: bool)
        ensures
            r == self@.is_account_of(*account, *mint, *owner),
    {
        match self.accounts.get(account) {
            Some(a) => a.mint == *mint && a.owner == *owner,
            None => false,
        }
    }

    /// Registers the token `mint`, minted by `authority`. Fails with
    /// `AccountInUse` where the key is taken.
    pub fn create_mint(&mut self, mint: Key, authority: Key, decimals: u8) -> (r: Result<
        (),
        LedgerError,
    >)
        ensures
            old(self)@.create_mint(mint, authority, decimals) == (match r {
                Ok(()) => Ok(final(self)@),
                Err(e) => Err(e),
            }),
            r is Err ==> final(self)@ == old(self)@,
    {
        if self.mints.contains(&mint) || self.accounts.contains(&mint) {
            return Err(LedgerError::AccountInUse);
        }
        self.mints.put(mint, Mint { authority, decimals });
        Ok(())
    }

    /// Opens the empty token account `account` of `mint` for `owner`. Fails
    /// with `AccountInUse` where the key is taken, else with `UnknownMint`
    /// where the mint is not registered.
    pub fn create_account(&mut self, account: Key, mint: Key, owner: Key) -> (r: Result<
        (),
        LedgerError,
    >)
        ensures
            old(self)@.create_account(account, mint, owner) == (match r {
                Ok(()) => Ok(final(self)@),
                Err(e) => Err(e),
            }),
            r is Err ==> final(self)@ == old(self)@,
    {
        if self.mints.contains(&account) || self.accounts.contains(&account) {
            return Err(LedgerError::AccountInUse);
        }
        if !self.mints.contains(&mint) {
            return Err(LedgerError::UnknownMint);
        }
        self.accounts.put(account, TokenAccount { mint, owner, amount: 0 });
        Ok(())
    }

    /// Moves `amount` of the token `currency` from `from` to `to`. Both
    /// accounts must hold that token, `authority` must own `from`, and `from`
    /// must hold `amount`. A transfer from an account to itself changes
    /// nothing.
    ///
    /// Fails, in this order, with `UnknownAccount`, `MintMismatch`,
    /// `OwnerMismatch`, `InsufficientFunds`, and `Overflow` where the balance
    /// of `to` would exceed `u64::MAX`.
    pub fn transfer(
        &mut self,
        currency: &Key,
        from: &Key,
        to: &Key,
        amount: u64,
        authority: &Key,
    ) -> (r: Result<(), LedgerError>)
        ensures
            old(self)@.transfer(*currency, *from, *to, amount, *authority) == (match r {
                Ok(()) => Ok(final(self)@),
                Err(e) => Err(e),
            }),
            r is Err ==> final(self)@ == old(self)@,
    {
        let src = match self.accounts.get(from) {
            Some(a) => a,
            None => {
                return Err(LedgerError::UnknownAccount);
            },
        };
        let dst = match self.accounts.get(to) {
            Some(a) => a,
            None => {
                return Err(LedgerError::UnknownAccount);
            },
        };
        if !(src.mint == *currency) || !(dst.mint == *currency) {
            return Err(LedgerError::MintMismatch);
        }
        if !(src.owner == *authority) {
            return Err(LedgerError::OwnerMismatch);
        }
        if src.amount < amount {
            return Err(LedgerError::InsufficientFunds);
        }
        if *from == *to {
            return Ok(());
        }
        let credited: u64 = match dst.amount.checked_add(amount) {
            Some(v) => v,
            None => {
                return Err(LedgerError::Overflow);
            },
        };
        self.accounts.put(
            *from,
            TokenAccount { mint: src.mint, owner: src.owner, amount: src.amount - amount },
        );
        self.accounts.put(*to, TokenAccount { mint: dst.mint, owner: dst.owner, amount: credited });
        Ok(())
    }

    /// Mints `amount` of `mint` into `to`. `authority` must be the minting
    /// authority of `mint`, and `to` must hold that token.
    ///
    /// Fails, in this order, with `UnknownMint`, `UnknownAccount`,
    /// `MintMismatch`, `AuthorityMismatch`, and `Overflow` where the balance of
    /// `to` would exceed `u64::MAX`.
    pub fn mint_to(&mut self, mint: &Key, to: &Key, amount: u64, authority: &Key) -> (r: Result<
        (),
        LedgerError,
    >)
        ensures
            old(self)@.mint_to(*mint, *to, amount, *authority) == (match r {
                Ok(()) => Ok(final(self)@),
                Err(e) => Err(e),
            }),
            r is Err ==> final(self)@ == old(self)@,
    {
        let m = match self.mints.get(mint) {
            Some(m) => m,
            None => {
                return Err(LedgerError::UnknownMint);
            },
        };
        let dst = match self.accounts.get(to) {
            Some(a) => a,
            None => {
                return Err(LedgerError::UnknownAccount);
            },
        };
        if !(dst.mint == *mint) {
            return Err(LedgerError::MintMismatch);
        }
        if !(m.authority == *authority) {
            return Err(LedgerError::AuthorityMismatch);
        }
        let credited: u64 = match dst.amount.checked_add(amount) {
            Some(v) => v,
            None => {
                return Err(LedgerError::Overflow);
            },
        };
        self.accounts.put(*to, TokenAccount { mint: dst.mint, owner: dst.owner, amount: credited });
        Ok(())
    }

    /// Burns `amount` of `mint` out of `from`. `authority` must own `from`,
    /// which must hold `amount` of that token.
    ///
    /// Fails, in this order, with `UnknownMint`, `UnknownAccount`,
    /// `MintMismatch`, `OwnerMismatch` and `InsufficientFunds`.
    pub fn burn(&mut self, mint: &Key, from: &Key, amount: u64, authority: &Key) -> (r: Result<
        (),
        LedgerError,
    >)
        ensures
            old(self)@.burn(*mint, *from, amount, *authority) == (match r {
                Ok(()) => Ok(final(self)@),
                Err(e) => Err(e),
            }),
            r is Err ==> final(self)@ == old(self)@,
    {
        if !self.mints.contains(mint) {
            return Err(LedgerError::UnknownMint);
        }
        let src = match self.accounts.get(from) {
            Some(a) => a,
            None => {
                return Err(LedgerError::UnknownAccount);
            },
        };
        if !(src.mint == *mint) {
            return Err(LedgerError::MintMismatch);
        }
        if !(src.owner == *authority) {
            return Err(LedgerError::OwnerMismatch);
        }
        if src.amount < amount {
            return Err(LedgerError::InsufficientFunds);
        }
        self.accounts.put(
            *from,
            TokenAccount { mint: src.mint, owner: src.owner, amount: src.amount - amount },
        );
        Ok(())
    }
}

} // verus!
