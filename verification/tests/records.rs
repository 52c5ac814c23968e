use rwa_engine::layout::{ASSET_BYTES, CLAIM_BYTES, DIVIDEND_BYTES};
use rwa_engine::{Asset, Claim, Dividend, EngineError, ErrorCode, Key, RwaError};

fn k(n: u8) -> Key {
    Key::filled(n)
}

fn asset() -> Asset {
    Asset {
        issuer: k(1),
        asset_mint: k(2),
        usdc_mint: k(3),
        decimals: 6,
        price_usdc: 0x0102030405060708,
        total_supply: 1000,
        free_float: 400,
        bump_asset: 255,
        bump_mint_auth: 254,
        bump_vault_usdc: 253,
    }
}

fn round() -> Dividend {
    Dividend {
        asset_mint: k(2),
        index: 7,
        total_amount: 1_000_000,
        supply_circ_at_open: 100,
        created_at: -2,
        is_closed: true,
    }
}

#[test]
fn asset_layout() {
    let bytes = asset().encode();
    assert_eq!(bytes.len(), ASSET_BYTES);
    assert_eq!(bytes.len(), 124);
    assert_eq!(&bytes[0..32], &[1u8; 32]);
    assert_eq!(&bytes[32..64], &[2u8; 32]);
    assert_eq!(&bytes[64..96], &[3u8; 32]);
    assert_eq!(bytes[96], 6);
    assert_eq!(&bytes[97..105], &[8, 7, 6, 5, 4, 3, 2, 1]);
    assert_eq!(&bytes[105..113], &1000u64.to_le_bytes());
    assert_eq!(&bytes[113..121], &400u64.to_le_bytes());
    assert_eq!(&bytes[121..124], &[255, 254, 253]);
    assert_eq!(Asset::decode(&bytes), Some(asset()));
}

#[test]
fn asset_decode_needs_the_exact_length() {
    let bytes = asset().encode();
    assert_eq!(Asset::decode(&bytes[..123]), None);
    assert_eq!(Asset::decode(&[]), None);
    let mut longer = bytes.clone();
    longer.push(0);
    assert_eq!(Asset::decode(&longer), None);
    let other = Asset::decode(&[9u8; 124]).unwrap();
    assert_eq!(other.issuer, k(9));
    assert_eq!(other.decimals, 9);
    assert_eq!(other.price_usdc, 0x0909090909090909);
    assert_eq!(other.encode(), vec![9u8; 124]);
}

#[test]
fn dividend_layout() {
    let bytes = round().encode();
    assert_eq!(bytes.len(), DIVIDEND_BYTES);
    assert_eq!(bytes.len(), 65);
    assert_eq!(&bytes[0..32], &[2u8; 32]);
    assert_eq!(&bytes[32..40], &7u64.to_le_bytes());
    assert_eq!(&bytes[40..48], &1_000_000u64.to_le_bytes());
    assert_eq!(&bytes[48..56], &100u64.to_le_bytes());
    assert_eq!(&bytes[56..64], &(-2i64).to_le_bytes());
    assert_eq!(&bytes[56..64], &[0xfe, 0xff, 0xff, 0xff, 0xff, 0xff, 0xff, 0xff]);
    assert_eq!(bytes[64], 1);
    assert_eq!(Dividend::decode(&bytes), Some(round()));
    let open = Dividend { is_closed: false, created_at: i64::MIN, ..round() };
    assert_eq!(open.encode()[64], 0);
    assert_eq!(Dividend::decode(&open.encode()), Some(open));
    let late = Dividend { created_at: i64::MAX, ..round() };
    assert_eq!(Dividend::decode(&late.encode()), Some(late));
}

#[test]
fn dividend_decode_rejects_a_bad_flag_or_length() {
    let mut bytes = round().encode();
    bytes[64] = 2;
    assert_eq!(Dividend::decode(&bytes), None);
    bytes[64] = 255;
    assert_eq!(Dividend::decode(&bytes), None);
    bytes[64] = 0;
    assert_eq!(Dividend::decode(&bytes), Some(Dividend { is_closed: false, ..round() }));
    assert_eq!(Dividend::decode(&bytes[..64]), None);
    bytes.push(0);
    assert_eq!(Dividend::decode(&bytes), None);
}

#[test]
fn claim_layout() {
    let claim = Claim { div: k(5), holder: k(6), claimed_amount: 100_000 };
    let bytes = claim.encode();
    assert_eq!(bytes.len(), CLAIM_BYTES);
    assert_eq!(bytes.len(), 72);
    assert_eq!(&bytes[0..32], &[5u8; 32]);
    assert_eq!(&bytes[32..64], &[6u8; 32]);
    assert_eq!(&bytes[64..72], &100_000u64.to_le_bytes());
    assert_eq!(Claim::decode(&bytes), Some(claim));
    assert_eq!(Claim::decode(&bytes[..71]), None);
    assert_eq!(Claim::decode(&[0u8; 73]), None);
}

#[test]
fn asset_buy_takes_from_the_float() {
    let a = Asset { price_usdc: 100, ..asset() };
    assert_eq!(a.buy(10), Ok((Asset { free_float: 390, ..a }, 1000)));
    assert_eq!(a.buy(400), Ok((Asset { free_float: 0, ..a }, 40_000)));
    assert_eq!(a.buy(0), Ok((a, 0)));
    assert_eq!(a.buy(401), Err(EngineError::Market(RwaError::InsufficientFloat)));
    let dear = Asset { price_usdc: u64::MAX, ..asset() };
    assert_eq!(dear.buy(1), Ok((Asset { free_float: 399, ..dear }, u64::MAX)));
    assert_eq!(dear.buy(2), Err(EngineError::FatalAbort));
    assert_eq!(dear.buy(401), Err(EngineError::Market(RwaError::InsufficientFloat)));
}

#[test]
fn asset_sell_adds_to_the_float() {
    let a = asset();
    assert_eq!(a.sell(5), Some(Asset { free_float: 405, ..a }));
    assert_eq!(a.sell(601), Some(Asset { free_float: 1001, ..a }));
    assert_eq!(a.sell(u64::MAX - 400), Some(Asset { free_float: u64::MAX, ..a }));
    assert_eq!(a.sell(u64::MAX - 399), None);
}

#[test]
fn asset_update_checks_the_float_only() {
    let a = asset();
    assert_eq!(a.update(None, None), Ok(a));
    assert_eq!(a.update(Some(5), None), Ok(Asset { price_usdc: 5, ..a }));
    assert_eq!(a.update(None, Some(1000)), Ok(Asset { free_float: 1000, ..a }));
    assert_eq!(a.update(Some(0), Some(0)), Ok(Asset { price_usdc: 0, free_float: 0, ..a }));
    assert_eq!(a.update(None, Some(1001)), Err(ErrorCode::InvalidFreeFloat));
    assert_eq!(a.update(Some(5), Some(u64::MAX)), Err(ErrorCode::InvalidFreeFloat));
}

#[test]
fn dividend_open_takes_its_index_from_the_address() {
    let mut bytes = [0u8; 32];
    bytes[0] = 200;
    bytes[1] = 7;
    let d = Dividend::open(k(2), &Key::new(bytes), 50, 10, 99);
    assert_eq!(
        d,
        Dividend {
            asset_mint: k(2),
            index: 200,
            total_amount: 50,
            supply_circ_at_open: 10,
            created_at: 99,
            is_closed: false,
        }
    );
    assert_eq!(d.close(), Dividend { is_closed: true, ..d });
    assert_eq!(d.close().close(), d.close());
}

#[test]
fn dividend_claim_checks_the_flag_first() {
    let open = Dividend { is_closed: false, ..round() };
    assert_eq!(open.claim(10), Ok(100_000));
    assert_eq!(round().claim(10), Err(RwaError::DividendClosed));
    let empty = Dividend { supply_circ_at_open: 0, ..open };
    assert_eq!(empty.claim(10), Err(RwaError::MathOverflow));
    assert_eq!(empty.close().claim(10), Err(RwaError::DividendClosed));
}
