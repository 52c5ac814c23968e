//! The persisted layout of the records: fixed-width fields in declaration
//! order, integers least significant byte first, a flag as one byte.

use vstd::prelude::*;
use vstd::bytes::{
    lemma_auto_spec_u64_to_from_le_bytes,
    spec_u64_from_le_bytes,
    spec_u64_to_le_bytes,
    u64_from_le_bytes,
    u64_to_le_bytes,
};
use vstd::slice::slice_subrange;
use crate::key::Key;
use crate::market::{Claim, Dividend};
use crate::registry::Asset;

verus! {

/// The length of an encoded [`Asset`].
pub const ASSET_BYTES: usize = 124;

/// The length of an encoded [`Dividend`].
pub const DIVIDEND_BYTES: usize = 65;

/// The length of an encoded [`Claim`].
pub const CLAIM_BYTES: usize = 72;

/// The eight bytes of a signed integer in two's complement, least significant
/// first.
pub open spec fn signed_bytes(x: i64) -> Seq<u8> {
    spec_u64_to_le_bytes(x as u64)
}

/// The byte that stands for a flag.
pub open spec fn flag_byte(b: bool) -> u8 {
    if b {
        1
    } else {
        0
    }
}

fn put_key(out: &mut Vec<u8>, key: &Key)
    ensures
        final(out)@ == old(out)@ + key@,
{
    let bytes = key.to_vec();
    out.extend_from_slice(bytes.as_slice());
}

fn put_u64(out: &mut Vec<u8>, x: u64)
    ensures
        final(out)@ == old(out)@ + spec_u64_to_le_bytes(x),
{
    let bytes = u64_to_le_bytes(x);
    out.extend_from_slice(bytes.as_slice());
}

fn take_key(bytes: &[u8], at: usize) -> (k: Key)
    requires
        at + 32 <= bytes@.len(),
    ensures
        k@ == bytes@.subrange(at as int, at + 32),
{
    let n: usize = bytes.len();
    let mut a: [u8; 32] = [0u8;32];
    let mut i: usize = 0;
    while i < 32
        invariant
            i <= 32,
            n == bytes@.len(),
            at + 32 <= n,
            forall|j: int| 0 <= j < i ==> a@[j] == bytes@[at + j],
        decreases 32 - i,
    {
        a[i] = bytes[at + i];
        i = i + 1;
    }
    let k = Key { bytes: a };
    assert(k@ =~= bytes@.subrange(at as int, at + 32));
    k
}

fn take_u64(bytes: &[u8], at: usize) -> (x: u64)
    requires
        at + 8 <= bytes@.len(),
    ensures
        x == spec_u64_from_le_bytes(bytes@.subrange(at as int, at + 8)),
{
    let n: usize = bytes.len();
    assert(at + 8 <= n);
    u64_from_le_bytes(slice_subrange(bytes, at, at + 8))
}

/// A signed integer is the reading of its own eight bytes.
proof fn lemma_signed_round_trip(x: i64, y: u64)
    ensures
        ((x as u64) as i64) == x,
        ((y as i64) as u64) == y,
{
    assert(((x as u64) as i64) == x) by (bit_vector);
    assert(((y as i64) as u64) == y) by (bit_vector);
}

impl Asset {
    /// The 124 bytes that stand for the asset.
    pub open spec fn encoding(self) -> Seq<u8> {
        self.issuer@ + self.asset_mint@ + self.usdc_mint@ + seq![self.decimals]
            + spec_u64_to_le_bytes(self.price_usdc) + spec_u64_to_le_bytes(self.total_supply)
            + spec_u64_to_le_bytes(self.free_float) + seq![
            self.bump_asset,
            self.bump_mint_auth,
            self.bump_vault_usdc,
        ]
    }

    /// Where each field lies in the encoding.
    pub proof fn lemma_fields(self)
        ensures
            self.encoding().len() == ASSET_BYTES,
            self.encoding().subrange(0, 32) == self.issuer@,
            self.encoding().subrange(32, 64) == self.asset_mint@,
            self.encoding().subrange(64, 96) == self.usdc_mint@,
            self.encoding()[96] == self.decimals,
            self.encoding().subrange(97, 105) == spec_u64_to_le_bytes(self.price_usdc),
            self.encoding().subrange(105, 113) == spec_u64_to_le_bytes(self.total_supply),
            self.encoding().subrange(113, 121) == spec_u64_to_le_bytes(self.free_float),
            self.encoding()[121] == self.bump_asset,
            self.encoding()[122] == self.bump_mint_auth,
            self.encoding()[123] == self.bump_vault_usdc,
    {
        lemma_auto_spec_u64_to_from_le_bytes();
        let e = self.encoding();
        assert(e.subrange(0, 32) =~= self.issuer@);
        assert(e.subrange(32, 64) =~= self.asset_mint@);
        assert(e.subrange(64, 96) =~= self.usdc_mint@);
        assert(e.subrange(97, 105) =~= spec_u64_to_le_bytes(self.price_usdc));
        assert(e.subrange(105, 113) =~= spec_u64_to_le_bytes(self.total_supply));
        assert(e.subrange(113, 121) =~= spec_u64_to_le_bytes(self.free_float));
    }

    /// Two assets with the same encoding are the same asset.
    pub proof fn lemma_encoding_injective(a: Asset, b: Asset)
        requires
            a.encoding() == b.encoding(),
        ensures
            a == b,
    {
        lemma_auto_spec_u64_to_from_le_bytes();
        a.lemma_fields();
        b.lemma_fields();
        Key::lemma_view_injective(a.issuer, b.issuer);
        Key::lemma_view_injective(a.asset_mint, b.asset_mint);
        Key::lemma_view_injective(a.usdc_mint, b.usdc_mint);
        assert(a.price_usdc == spec_u64_from_le_bytes(spec_u64_to_le_bytes(a.price_usdc)));
        assert(a.total_supply == spec_u64_from_le_bytes(spec_u64_to_le_bytes(a.total_supply)));
        assert(a.free_float == spec_u64_from_le_bytes(spec_u64_to_le_bytes(a.free_float)));
    }

    /// Writes the asset in its persisted layout.
    pub fn encode(&self) -> (out: Vec<u8>)
        ensures
            out@ == self.encoding(),
            out@.len() == ASSET_BYTES,
    {
        let mut out: Vec<u8> = Vec::new();
        put_key(&mut out, &self.issuer);
        put_key(&mut out, &self.asset_mint);
        put_key(&mut out, &self.usdc_mint);
        out.push(self.decimals);
        put_u64(&mut out, self.price_usdc);
        put_u64(&mut out, self.total_supply);
        put_u64(&mut out, self.free_float);
        out.push(self.bump_asset);
        out.push(self.bump_mint_auth);
        out.push(self.bump_vault_usdc);
        proof {
            self.lemma_fields();
            assert(out@ =~= self.encoding());
        }
        out
    }

    /// Reads an asset from its persisted layout: the asset that `bytes` stand
    /// for, where there are exactly 124 of them.
    pub fn decode(bytes: &[u8]) -> (r: Option<Asset>)
        ensures
            r is Some <==> bytes@.len() == ASSET_BYTES,
            r matches Some(a) ==> a.encoding() == bytes@,
    {
        if bytes.len() != ASSET_BYTES {
            return None;
        }
        let a = Asset {
            issuer: take_key(bytes, 0),
            asset_mint: take_key(bytes, 32),
            usdc_mint: take_key(bytes, 64),
            decimals: bytes[96],
            price_usdc: take_u64(bytes, 97),
            total_supply: take_u64(bytes, 105),
            free_float: take_u64(bytes, 113),
            bump_asset: bytes[121],
            bump_mint_auth: bytes[122],
            bump_vault_usdc: bytes[123],
        };
        proof {
            lemma_auto_spec_u64_to_from_le_bytes();
            let s = bytes@;
            assert(spec_u64_to_le_bytes(a.price_usdc) == s.subrange(97, 105));
            assert(spec_u64_to_le_bytes(a.total_supply) == s.subrange(105, 113));
            assert(spec_u64_to_le_bytes(a.free_float) == s.subrange(113, 121));
            assert(s =~= s.subrange(0, 32) + s.subrange(32, 64) + s.subrange(64, 96) + seq![s[96]]
                + s.subrange(97, 105) + s.subrange(105, 113) + s.subrange(113, 121) + seq![
                s[121],
                s[122],
                s[123],
            ]);
        }
        Some(a)
    }
}

impl Dividend {
    /// The 65 bytes that stand for the round.
    pub open spec fn encoding(self) -> Seq<u8> {
        self.asset_mint@ + spec_u64_to_le_bytes(self.index) + spec_u64_to_le_bytes(
            self.total_amount,
        ) + spec_u64_to_le_bytes(self.supply_circ_at_open) + signed_bytes(self.created_at) + seq![
            flag_byte(self.is_closed),
        ]
    }

    /// Where each field lies in the encoding.
    pub proof fn lemma_fields(self)
        ensures
            self.encoding().len() == DIVIDEND_BYTES,
            self.encoding().subrange(0, 32) == self.asset_mint@,
            self.encoding().subrange(32, 40) == spec_u64_to_le_bytes(self.index),
            self.encoding().subrange(40, 48) == spec_u64_to_le_bytes(self.total_amount),
            self.encoding().subrange(48, 56) == spec_u64_to_le_bytes(self.supply_circ_at_open),
            self.encoding().subrange(56, 64) == signed_bytes(self.created_at),
            self.encoding()[64] == flag_byte(self.is_closed),
    {
        lemma_auto_spec_u64_to_from_le_bytes();
        let e = self.encoding();
        assert(e.subrange(0, 32) =~= self.asset_mint@);
        assert(e.subrange(32, 40) =~= spec_u64_to_le_bytes(self.index));
        assert(e.subrange(40, 48) =~= spec_u64_to_le_bytes(self.total_amount));
        assert(e.subrange(48, 56) =~= spec_u64_to_le_bytes(self.supply_circ_at_open));
        assert(e.subrange(56, 64) =~= signed_bytes(self.created_at));
    }

    /// Two rounds with the same encoding are the same round.
    pub proof fn lemma_encoding_injective(a: Dividend, b: Dividend)
        requires
            a.encoding() == b.encoding(),
        ensures
            a == b,
    {
        lemma_auto_spec_u64_to_from_le_bytes();
        a.lemma_fields();
        b.lemma_fields();
        Key::lemma_view_injective(a.asset_mint, b.asset_mint);
        assert(a.index == spec_u64_from_le_bytes(spec_u64_to_le_bytes(a.index)));
        assert(a.total_amount == spec_u64_from_le_bytes(spec_u64_to_le_bytes(a.total_amount)));
        assert(a.supply_circ_at_open == spec_u64_from_le_bytes(
            spec_u64_to_le_bytes(a.supply_circ_at_open),
        ));
        assert((a.created_at as u64) == spec_u64_from_le_bytes(
            spec_u64_to_le_bytes(a.created_at as u64),
        ));
        assert((b.created_at as u64) == spec_u64_from_le_bytes(
            spec_u64_to_le_bytes(b.created_at as u64),
        ));
        lemma_signed_round_trip(a.created_at, 0);
        lemma_signed_round_trip(b.created_at, 0);
    }

    /// Writes the round in its persisted layout.
    pub fn encode(&self) -> (out: Vec<u8>)
        ensures
            out@ == self.encoding(),
            out@.len() == DIVIDEND_BYTES,
    {
        let mut out: Vec<u8> = Vec::new();
        put_key(&mut out, &self.asset_mint);
        put_u64(&mut out, self.index);
        put_u64(&mut out, self.total_amount);
        put_u64(&mut out, self.supply_circ_at_open);
        put_u64(&mut out, #[verifier::truncate] (self.created_at as u64));
        out.push(if self.is_closed { 1u8 } else { 0u8 });
        proof {
            self.lemma_fields();
            assert(out@ =~= self.encoding());
        }
        out
    }

    /// Reads a round from its persisted layout: the round that `bytes` stand
    /// for, where there are exactly 65 of them and the last is 0 or 1.
    pub fn decode(bytes: &[u8]) -> (r: Option<Dividend>)
        ensures
            r is Some <==> bytes@.len() == DIVIDEND_BYTES && bytes@[64] <= 1,
            r matches Some(d) ==> d.encoding() == bytes@,
    {
        if bytes.len() != DIVIDEND_BYTES {
            return None;
        }
        if bytes[64] > 1 {
            return None;
        }
        let stamp: u64 = take_u64(bytes, 56);
        let d = Dividend {
            asset_mint: take_key(bytes, 0),
            index: take_u64(bytes, 32),
            total_amount: take_u64(bytes, 40),
            supply_circ_at_open: take_u64(bytes, 48),
            created_at: #[verifier::truncate] (stamp as i64),
            is_closed: bytes[64] == 1,
        };
        proof {
            lemma_auto_spec_u64_to_from_le_bytes();
            lemma_signed_round_trip(0, stamp);
            let s = bytes@;
            assert(spec_u64_to_le_bytes(d.index) == s.subrange(32, 40));
            assert(spec_u64_to_le_bytes(d.total_amount) == s.subrange(40, 48));
            assert(spec_u64_to_le_bytes(d.supply_circ_at_open) == s.subrange(48, 56));
            assert(spec_u64_to_le_bytes(stamp) == s.subrange(56, 64));
            assert(signed_bytes(d.created_at) == s.subrange(56, 64));
            assert(s =~= s.subrange(0, 32) + s.subrange(32, 40) + s.subrange(40, 48) + s.subrange(
                48,
                56,
            ) + s.subrange(56, 64) + seq![s[64]]);
        }
        Some(d)
    }
}

impl Claim {
    /// The 72 bytes that stand for the claim.
    pub open spec fn encoding(self) -> Seq<u8> {
        self.div@ + self.holder@ + spec_u64_to_le_bytes(self.claimed_amount)
    }

    /// Where each field lies in the encoding.
    pub proof fn lemma_fields(self)
        ensures
            self.encoding().len() == CLAIM_BYTES,
            self.encoding().subrange(0, 32) == self.div@,
            self.encoding().subrange(32, 64) == self.holder@,
            self.encoding().subrange(64, 72) == spec_u64_to_le_bytes(self.claimed_amount),
    {
        lemma_auto_spec_u64_to_from_le_bytes();
        let e = self.encoding();
        assert(e.subrange(0, 32) =~= self.div@);
        assert(e.subrange(32, 64) =~= self.holder@);
        assert(e.subrange(64, 72) =~= spec_u64_to_le_bytes(self.claimed_amount));
    }

    /// Two claims with the same encoding are the same claim.
    pub proof fn lemma_encoding_injective(a: Claim, b: Claim)
        requires
            a.encoding() == b.encoding(),
        ensures
            a == b,
    {
        lemma_auto_spec_u64_to_from_le_bytes();
        a.lemma_fields();
        b.lemma_fields();
        Key::lemma_view_injective(a.div, b.div);
        Key::lemma_view_injective(a.holder, b.holder);
        assert(a.claimed_amount == spec_u64_from_le_bytes(
            spec_u64_to_le_bytes(a.claimed_amount),
        ));
    }

    /// Writes the claim in its persisted layout.
    pub fn encode(&self) -> (out: Vec<u8>)
        ensures
            out@ == self.encoding(),
            out@.len() == CLAIM_BYTES,
    {
        let mut out: Vec<u8> = Vec::new();
        put_key(&mut out, &self.div);
        put_key(&mut out, &self.holder);
        put_u64(&mut out, self.claimed_amount);
        proof {
            self.lemma_fields();
        }
        out
    }

    /// Reads a claim from its persisted layout: the claim that `bytes` stand
    /// for, where there are exactly 72 of them.
    pub fn decode(bytes: &[u8]) -> (r: Option<Claim>)
        ensures
            r is Some <==> bytes@.len() == CLAIM_BYTES,
            r matches Some(c) ==> c.encoding() == bytes@,
    {
        if bytes.len() != CLAIM_BYTES {
            return None;
        }
        let c = Claim {
            div: take_key(bytes, 0),
            holder: take_key(bytes, 32),
            claimed_amount: take_u64(bytes, 64),
        };
        proof {
            lemma_auto_spec_u64_to_from_le_bytes();
            let s = bytes@;
            assert(spec_u64_to_le_bytes(c.claimed_amount) == s.subrange(64, 72));
            assert(s =~= s.subrange(0, 32) + s.subrange(32, 64) + s.subrange(64, 72));
        }
        Some(c)
    }
}

} // verus!
