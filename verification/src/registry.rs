//! The asset registry: creating an asset and changing its price and float.

use vstd::prelude::*;
use crate::address::{
    asset_address,
    find_asset_address,
    find_mint_authority,
    find_vault_address,
    mint_authority_address,
    vault_address,
};
use crate::engine::{Engine, EngineView};
use crate::error::{EngineError, ErrorCode};
use crate::key::Key;

verus! {

/// The record of one tokenized share class.
///
/// `free_float` is the part of `total_supply` that the market may still
/// sell. Nothing checks it against `total_supply` when the asset is created
/// or when shares are sold back; only [`update_asset`] does.
#[derive(Clone, Copy, Debug, PartialEq, Eq)]
pub struct Asset {
    pub issuer: Key,
    pub asset_mint: Key,
    pub usdc_mint: Key,
    pub decimals: u8,
    pub price_usdc: u64,
    pub total_supply: u64,
    pub free_float: u64,
    pub bump_asset: u8,
    pub bump_mint_auth: u8,
    pub bump_vault_usdc: u8,
}

/// The custody binding of an asset: the vault that holds the settlement
/// currency behind it, and the authority that may mint its shares.
#[derive(Clone, Copy, Debug, PartialEq, Eq)]
pub struct Custody {
    pub vault: Key,
    pub mint_authority: Key,
}

/// An asset as the registry stores it: the record with its custody binding.
#[derive(Clone, Copy, Debug, PartialEq, Eq)]
pub struct AssetAccount {
    pub record: Asset,
    pub custody: Custody,
}

/// The three addresses derived for a new asset, each with its bump seed.
#[derive(Clone, Copy, Debug, PartialEq, Eq)]
pub struct AssetAddresses {
    pub asset: (Key, u8),
    pub mint_authority: (Key, u8),
    pub vault_usdc: (Key, u8),
}

/// The accounts of [`create_asset`]. `issuer` is the caller.
#[derive(Clone, Copy, Debug, PartialEq, Eq)]
pub struct CreateAsset {
    pub issuer: Key,
    pub asset: Key,
    pub asset_mint: Key,
    pub usdc_mint: Key,
    pub mint_authority: Key,
    pub vault_usdc: Key,
}

/// The accounts of [`update_asset`]. `issuer` is the caller.
#[derive(Clone, Copy, Debug, PartialEq, Eq)]
pub struct UpdateAsset {
    pub issuer: Key,
    pub asset: Key,
}

/// Tells that an asset was created.
#[derive(Clone, Copy, Debug, PartialEq, Eq)]
pub struct AssetCreated {
    pub asset: Key,
    pub issuer: Key,
    pub asset_mint: Key,
    pub price_usdc: u64,
    pub total_supply: u64,
    pub free_float: u64,
}

/// Tells the price and the free float of an asset after an update.
#[derive(Clone, Copy, Debug, PartialEq, Eq)]
pub struct AssetUpdated {
    pub asset: Key,
    pub price_usdc: u64,
    pub free_float: u64,
}

/// The addresses derived for the asset of `issuer` over `asset_mint`; `None`
/// where one of the three cannot be derived.
pub open spec fn asset_addresses(program_id: Key, issuer: Key, asset_mint: Key) -> Option<
    AssetAddresses,
> {
    match (
        asset_address(program_id, issuer, asset_mint),
        mint_authority_address(program_id, asset_mint),
        vault_address(program_id, asset_mint),
    ) {
        (Some(asset), Some(mint_authority), Some(vault_usdc)) => Some(
            AssetAddresses { asset, mint_authority, vault_usdc },
        ),
        _ => None,
    }
}

impl Asset {
    /// The asset with the price and the free float replaced where a new value
    /// is given.
    pub open spec fn updated(self, new_price_usdc: Option<u64>, new_free_float: Option<u64>) -> Asset {
        Asset {
            price_usdc: match new_price_usdc {
                Some(p) => p,
                None => self.price_usdc,
            },
            free_float: match new_free_float {
                Some(f) => f,
                None => self.free_float,
            },
            ..self
        }
    }

    /// What an update makes of the asset: the error where the new free float
    /// exceeds the total supply, else [`Asset::updated`].
    pub open spec fn after_update(
        self,
        new_price_usdc: Option<u64>,
        new_free_float: Option<u64>,
    ) -> Result<Asset, ErrorCode> {
        match new_free_float {
            Some(f) if f > self.total_supply => Err(ErrorCode::InvalidFreeFloat),
            _ => Ok(self.updated(new_price_usdc, new_free_float)),
        }
    }

    /// Replaces the price and the free float where a new value is given.
    /// Fails with `InvalidFreeFloat` where the new free float exceeds the
    /// total supply.
    pub fn update(&self, new_price_usdc: Option<u64>, new_free_float: Option<u64>) -> (r: Result<
        Asset,
        ErrorCode,
    >)
        ensures
            r == self.after_update(new_price_usdc, new_free_float),
    {
        let mut record = *self;
        match new_price_usdc {
            Some(price) => {
                record.price_usdc = price;
            },
            None => {},
        }
        match new_free_float {
            Some(float) => {
                if float > record.total_supply {
                    return Err(ErrorCode::InvalidFreeFloat);
                }
                record.free_float = float;
            },
            None => {},
        }
        Ok(record)
    }

    /// The asset with its free float replaced by `free_float`.
    pub open spec fn with_free_float(self, free_float: u64) -> Asset {
        Asset { free_float, ..self }
    }
}

impl AssetAccount {
    /// The stored asset with its record replaced by `record`.
    pub open spec fn with_record(self, record: Asset) -> AssetAccount {
        AssetAccount { record, custody: self.custody }
    }
}

impl EngineView {
    /// What [`create_asset_at`] does to the state `self`, given the derived
    /// addresses `found`: the error, or the new state and the event.
    pub open spec fn create_asset(
        self,
        ctx: CreateAsset,
        price_usdc: u64,
        total_supply: u64,
        free_float: u64,
        decimals: u8,
        found: Option<AssetAddresses>,
    ) -> Result<(EngineView, AssetCreated), EngineError> {
        match found {
            None => Err(EngineError::AddressUnavailable),
            Some(a) => {
                if ctx.asset != a.asset.0 || ctx.mint_authority != a.mint_authority.0
                    || ctx.vault_usdc != a.vault_usdc.0 {
                    Err(EngineError::ConstraintViolated)
                } else if self.assets.contains_key(ctx.asset) {
                    Err(EngineError::AlreadyExists)
                } else {
                    match self.ledger.create_mint(ctx.asset_mint, ctx.mint_authority, decimals) {
                        Err(e) => Err(EngineError::Ledger(e)),
                        Ok(with_mint) => match with_mint.create_account(
                            ctx.vault_usdc,
                            ctx.usdc_mint,
                            ctx.vault_usdc,
                        ) {
                            Err(e) => Err(EngineError::Ledger(e)),
                            Ok(with_vault) => Ok(
                                (
                                    EngineView {
                                        assets: self.assets.insert(
                                            ctx.asset,
                                            AssetAccount {
                                                record: Asset {
                                                    issuer: ctx.issuer,
                                                    asset_mint: ctx.asset_mint,
                                                    usdc_mint: ctx.usdc_mint,
                                                    decimals,
                                                    price_usdc,
                                                    total_supply,
                                                    free_float,
                                                    bump_asset: a.asset.1,
                                                    bump_mint_auth: a.mint_authority.1,
                                                    bump_vault_usdc: a.vault_usdc.1,
                                                },
                                                custody: Custody {
                                                    vault: ctx.vault_usdc,
                                                    mint_authority: ctx.mint_authority,
                                                },
                                            },
                                        ),
                                        ledger: with_vault,
                                        ..self
                                    },
                                    AssetCreated {
                                        asset: ctx.asset,
                                        issuer: ctx.issuer,
                                        asset_mint: ctx.asset_mint,
                                        price_usdc,
                                        total_supply,
                                        free_float,
                                    },
                                ),
                            ),
                        },
                    }
                }
            },
        }
    }

    /// What [`update_asset`] does to the state `self`: the error, or the new
    /// state and the event.
    pub open spec fn update_asset(
        self,
        ctx: UpdateAsset,
        new_price_usdc: Option<u64>,
        new_free_float: Option<u64>,
    ) -> Result<(EngineView, AssetUpdated), EngineError> {
        if !self.assets.contains_key(ctx.asset) {
            Err(EngineError::AccountNotFound)
        } else if self.assets[ctx.asset].record.issuer != ctx.issuer {
            Err(EngineError::Unauthorized)
        } else {
            match self.assets[ctx.asset].record.after_update(new_price_usdc, new_free_float) {
                Err(e) => Err(EngineError::Registry(e)),
                Ok(record) => Ok(
                    (
                        EngineView {
                            assets: self.assets.insert(
                                ctx.asset,
                                self.assets[ctx.asset].with_record(record),
                            ),
                            ..self
                        },
                        AssetUpdated {
                            asset: ctx.asset,
                            price_usdc: record.price_usdc,
                            free_float: record.free_float,
                        },
                    ),
                ),
            }
        }
    }
}

/// Derives the three addresses of the asset of `issuer` over `asset_mint`.
pub fn find_asset_addresses(program_id: &Key, issuer: &Key, asset_mint: &Key) -> (r: Option<
    AssetAddresses,
>)
    ensures
        r == asset_addresses(*program_id, *issuer, *asset_mint),
{
    let asset = match find_asset_address(program_id, issuer, asset_mint) {
        Some(a) => a,
        None => {
            return None;
        },
    };
    let mint_authority = match find_mint_authority(program_id, asset_mint) {
        Some(a) => a,
        None => {
            return None;
        },
    };
    let vault_usdc = match find_vault_address(program_id, asset_mint) {
        Some(a) => a,
        None => {
            return None;
        },
    };
    Some(AssetAddresses { asset, mint_authority, vault_usdc })
}

/// Registers the asset of `ctx.issuer` over the share mint `ctx.asset_mint`,
/// priced in `ctx.usdc_mint`, at the addresses `found` that were derived for
/// it, and binds its custody: it registers the share mint under the derived
/// minting authority and opens the vault, which is its own owner.
///
/// The free float is stored as given, also where it exceeds the total supply.
///
/// Fails, in this order, with `AddressUnavailable` where `found` is `None`;
/// `ConstraintViolated` where `ctx` names another address than `found` for the
/// asset, the minting authority or the vault; `AlreadyExists` where the asset
/// is registered; `Ledger(..)` where the ledger refuses the mint or the vault.
pub fn create_asset_at(
    engine: &mut Engine,
    ctx: &CreateAsset,
    price_usdc: u64,
    total_supply: u64,
    free_float: u64,
    decimals: u8,
    found: Option<AssetAddresses>,
) -> (r: Result<AssetCreated, EngineError>)
    ensures
        old(engine)@.create_asset(*ctx, price_usdc, total_supply, free_float, decimals, found)
            == (match r {
            Ok(event) => Ok((final(engine)@, event)),
            Err(e) => Err(e),
        }),
        r is Err ==> final(engine)@ == old(engine)@,
{
    let a = match found {
        Some(a) => a,
        None => {
            return Err(EngineError::AddressUnavailable);
        },
    };
    if !(ctx.asset == a.asset.0) || !(ctx.mint_authority == a.mint_authority.0) || !(ctx.vault_usdc
        == a.vault_usdc.0) {
        return Err(EngineError::ConstraintViolated);
    }
    if engine.assets.contains(&ctx.asset) {
        return Err(EngineError::AlreadyExists);
    }
    let mut ledger = engine.ledger.snapshot();
    match ledger.create_mint(ctx.asset_mint, ctx.mint_authority, decimals) {
        Err(e) => {
            return Err(EngineError::Ledger(e));
        },
        Ok(()) => {},
    }
    match ledger.create_account(ctx.vault_usdc, ctx.usdc_mint, ctx.vault_usdc) {
        Err(e) => {
            return Err(EngineError::Ledger(e));
        },
        Ok(()) => {},
    }
    engine.ledger = ledger;
    engine.assets.put(
        ctx.asset,
        AssetAccount {
            record: Asset {
                issuer: ctx.issuer,
                asset_mint: ctx.asset_mint,
                usdc_mint: ctx.usdc_mint,
                decimals,
                price_usdc,
                total_supply,
                free_float,
                bump_asset: a.asset.1,
                bump_mint_auth: a.mint_authority.1,
                bump_vault_usdc: a.vault_usdc.1,
            },
            custody: Custody { vault: ctx.vault_usdc, mint_authority: ctx.mint_authority },
        },
    );
    Ok(
        AssetCreated {
            asset: ctx.asset,
            issuer: ctx.issuer,
            asset_mint: ctx.asset_mint,
            price_usdc,
            total_supply,
            free_float,
        },
    )
}

/// Registers a new asset at the addresses derived for its issuer and its
/// share mint: [`create_asset_at`] on [`asset_addresses`].
pub fn create_asset(
    engine: &mut Engine,
    ctx: &CreateAsset,
    price_usdc: u64,
    total_supply: u64,
    free_float: u64,
    decimals: u8,
) -> (r: Result<AssetCreated, EngineError>)
    ensures
        old(engine)@.create_asset(
            *ctx,
            price_usdc,
            total_supply,
            free_float,
            decimals,
            asset_addresses(old(engine)@.program_id, ctx.issuer, ctx.asset_mint),
        ) == (match r {
            Ok(event) => Ok((final(engine)@, event)),
            Err(e) => Err(e),
        }),
        r is Err ==> final(engine)@ == old(engine)@,
{
    let found = find_asset_addresses(&engine.program_id, &ctx.issuer, &ctx.asset_mint);
    create_asset_at(engine, ctx, price_usdc, total_supply, free_float, decimals, found)
}

/// Replaces the price and the free float of an asset where a new value is
/// given, and tells the resulting price and free float.
///
/// Fails, in this order, with `AccountNotFound` where no asset is stored under
/// `ctx.asset`; `Unauthorized` where `ctx.issuer` is not its issuer;
/// `Registry(InvalidFreeFloat)` where the new free float exceeds the total
/// supply. A failed update changes neither the price nor the free float.
pub fn update_asset(
    engine: &mut Engine,
    ctx: &UpdateAsset,
    new_price_usdc: Option<u64>,
    new_free_float: Option<u64>,
) -> (r: Result<AssetUpdated, EngineError>)
    ensures
        old(engine)@.update_asset(*ctx, new_price_usdc, new_free_float) == (match r {
            Ok(event) => Ok((final(engine)@, event)),
            Err(e) => Err(e),
        }),
        r is Err ==> final(engine)@ == old(engine)@,
{
    let stored = match engine.assets.get(&ctx.asset) {
        Some(s) => s,
        None => {
            return Err(EngineError::AccountNotFound);
        },
    };
    if !(stored.record.issuer == ctx.issuer) {
        return Err(EngineError::Unauthorized);
    }
    let record = match stored.record.update(new_price_usdc, new_free_float) {
        Ok(r) => r,
        Err(e) => {
            return Err(EngineError::Registry(e));
        },
    };
    engine.assets.put(ctx.asset, AssetAccount { record, custody: stored.custody });
    Ok(AssetUpdated { asset: ctx.asset, price_usdc: record.price_usdc, free_float: record.free_float })
}

} // verus!
