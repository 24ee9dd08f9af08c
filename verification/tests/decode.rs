use warlock::account::{Pubkey, RawAccount};
use warlock::decode::{
    decode, try_decode_miner, try_decode_quarry, try_decode_rewarder, DecodeError, DecodedRecord,
    Miner, Quarry, RecordKind, Rewarder, MINER_ACCOUNT_LEN, QUARRY_ACCOUNT_LEN,
    REWARDER_ACCOUNT_LEN,
};

const REWARDER_TAG: [u8; 8] = [0x53, 0x03, 0xcb, 0xae, 0xf4, 0x1e, 0xac, 0xc6];
const QUARRY_TAG: [u8; 8] = [0xf3, 0xf8, 0x36, 0xb6, 0xf0, 0x55, 0x09, 0x4d];
const MINER_TAG: [u8; 8] = [0xdf, 0x71, 0x0f, 0x36, 0x7b, 0x7a, 0x8c, 0x64];

fn key(seed: u8) -> Vec<u8> {
    (0..32u16).map(|i| seed.wrapping_add(i as u8)).collect()
}

fn rewarder_buffer() -> Vec<u8> {
    let mut b = Vec::new();
    b.extend_from_slice(&REWARDER_TAG);
    b.extend_from_slice(&key(10)); // base
    b.push(254); // bump
    b.extend_from_slice(&key(20)); // authority
    b.extend_from_slice(&key(30)); // pending_authority
    b.extend_from_slice(&513u16.to_le_bytes()); // num_quarries
    b.extend_from_slice(&9_000_000_000u64.to_le_bytes()); // annual_rewards_rate
    b.extend_from_slice(&123_456_789u64.to_le_bytes()); // total_rewards_shares
    b.extend_from_slice(&key(40)); // mint_wrapper
    b.extend_from_slice(&key(50)); // rewards_token_mint
    b.extend_from_slice(&key(60)); // claim_fee_token_account
    b.extend_from_slice(&5000u64.to_le_bytes()); // max_claim_fee_kbps
    b.extend_from_slice(&key(70)); // pause_authority
    b.push(1); // is_paused
    assert_eq!(b.len(), REWARDER_ACCOUNT_LEN);
    b
}

fn quarry_buffer() -> Vec<u8> {
    let mut b = Vec::new();
    b.extend_from_slice(&QUARRY_TAG);
    b.extend_from_slice(&key(11)); // rewarder_key
    b.extend_from_slice(&key(21)); // token_mint_key
    b.push(253); // bump
    b.extend_from_slice(&7u16.to_le_bytes()); // index
    b.push(6); // token_mint_decimals
    b.extend_from_slice(&(-5i64).to_le_bytes()); // famine_ts
    b.extend_from_slice(&1_660_000_000i64.to_le_bytes()); // last_update_ts
    b.extend_from_slice(&340_282_366_920_938_463_463_374_607_431_768_211_455u128.to_le_bytes()); // rewards_per_token_stored
    b.extend_from_slice(&42u64.to_le_bytes()); // annual_rewards_rate
    b.extend_from_slice(&43u64.to_le_bytes()); // rewards_share
    b.extend_from_slice(&44u64.to_le_bytes()); // total_tokens_deposited
    b.extend_from_slice(&45u64.to_le_bytes()); // num_miners
    assert_eq!(b.len(), QUARRY_ACCOUNT_LEN);
    b
}

fn miner_buffer() -> Vec<u8> {
    let mut b = Vec::new();
    b.extend_from_slice(&MINER_TAG);
    b.extend_from_slice(&key(12)); // quarry_key
    b.extend_from_slice(&key(22)); // authority
    b.push(252); // bump
    b.extend_from_slice(&key(32)); // token_vault_key
    b.extend_from_slice(&77u64.to_le_bytes()); // rewards_earned
    b.extend_from_slice(&18_446_744_073_709_551_616u128.to_le_bytes()); // rewards_per_token_paid
    b.extend_from_slice(&88u64.to_le_bytes()); // balance
    b.extend_from_slice(&99u64.to_le_bytes()); // index
    assert_eq!(b.len(), MINER_ACCOUNT_LEN);
    b
}

fn assert_key(k: &Pubkey, seed: u8) {
    assert_eq!(k.as_bytes().as_slice(), key(seed).as_slice());
}

#[test]
fn rewarder_decodes_well_formed_buffer() {
    let w: Rewarder = try_decode_rewarder(&rewarder_buffer()).unwrap();
    assert_key(&w.base, 10);
    assert_eq!(w.bump, 254);
    assert_key(&w.authority, 20);
    assert_key(&w.pending_authority, 30);
    assert_eq!(w.num_quarries, 513);
    assert_eq!(w.annual_rewards_rate, 9_000_000_000);
    assert_eq!(w.total_rewards_shares, 123_456_789);
    assert_key(&w.mint_wrapper, 40);
    assert_key(&w.rewards_token_mint, 50);
    assert_key(&w.claim_fee_token_account, 60);
    assert_eq!(w.max_claim_fee_kbps, 5000);
    assert_key(&w.pause_authority, 70);
    assert!(w.is_paused);
}

#[test]
fn rewarder_pause_flag_zero_is_false() {
    let mut b = rewarder_buffer();
    b[259] = 0;
    let w = try_decode_rewarder(&b).unwrap();
    assert!(!w.is_paused);
}

#[test]
fn rewarder_invalid_pause_flag_is_rejected() {
    let mut b = rewarder_buffer();
    b[259] = 2;
    assert_eq!(try_decode_rewarder(&b).unwrap_err(), DecodeError::InvalidData);
}

#[test]
fn rewarder_wrong_tag_is_rejected() {
    let mut b = rewarder_buffer();
    b[0..8].copy_from_slice(&QUARRY_TAG);
    assert_eq!(try_decode_rewarder(&b).unwrap_err(), DecodeError::WrongType);
}

#[test]
fn rewarder_truncated_is_rejected() {
    let b = rewarder_buffer();
    assert_eq!(
        try_decode_rewarder(&b[..REWARDER_ACCOUNT_LEN - 1].to_vec()).unwrap_err(),
        DecodeError::Truncated
    );
    assert_eq!(try_decode_rewarder(&b[..8].to_vec()).unwrap_err(), DecodeError::Truncated);
    assert_eq!(try_decode_rewarder(&vec![0x53, 0x03]).unwrap_err(), DecodeError::Truncated);
    assert_eq!(try_decode_rewarder(&Vec::new()).unwrap_err(), DecodeError::Truncated);
}

#[test]
fn rewarder_trailing_bytes_are_ignored() {
    let mut b = rewarder_buffer();
    b.extend_from_slice(&[0xaa; 40]);
    let w = try_decode_rewarder(&b).unwrap();
    assert_eq!(w.max_claim_fee_kbps, 5000);
}

#[test]
fn quarry_decodes_well_formed_buffer() {
    let q: Quarry = try_decode_quarry(&quarry_buffer()).unwrap();
    assert_key(&q.rewarder_key, 11);
    assert_key(&q.token_mint_key, 21);
    assert_eq!(q.bump, 253);
    assert_eq!(q.index, 7);
    assert_eq!(q.token_mint_decimals, 6);
    assert_eq!(q.famine_ts, -5);
    assert_eq!(q.last_update_ts, 1_660_000_000);
    assert_eq!(q.rewards_per_token_stored, u128::MAX);
    assert_eq!(q.annual_rewards_rate, 42);
    assert_eq!(q.rewards_share, 43);
    assert_eq!(q.total_tokens_deposited, 44);
    assert_eq!(q.num_miners, 45);
}

#[test]
fn quarry_extreme_timestamps_decode_exactly() {
    let mut b = quarry_buffer();
    b[76..84].copy_from_slice(&i64::MIN.to_le_bytes());
    b[84..92].copy_from_slice(&i64::MAX.to_le_bytes());
    let q = try_decode_quarry(&b).unwrap();
    assert_eq!(q.famine_ts, i64::MIN);
    assert_eq!(q.last_update_ts, i64::MAX);
}

#[test]
fn quarry_wrong_tag_is_rejected() {
    let mut b = quarry_buffer();
    b[0..8].copy_from_slice(&MINER_TAG);
    assert_eq!(try_decode_quarry(&b).unwrap_err(), DecodeError::WrongType);
}

#[test]
fn quarry_truncated_is_rejected() {
    let b = quarry_buffer();
    assert_eq!(
        try_decode_quarry(&b[..QUARRY_ACCOUNT_LEN - 1].to_vec()).unwrap_err(),
        DecodeError::Truncated
    );
    assert_eq!(try_decode_quarry(&b[..3].to_vec()).unwrap_err(), DecodeError::Truncated);
}

#[test]
fn miner_decodes_well_formed_buffer() {
    let m: Miner = try_decode_miner(&miner_buffer()).unwrap();
    assert_key(&m.quarry_key, 12);
    assert_key(&m.authority, 22);
    assert_eq!(m.bump, 252);
    assert_key(&m.token_vault_key, 32);
    assert_eq!(m.rewards_earned, 77);
    assert_eq!(m.rewards_per_token_paid, 1u128 << 64);
    assert_eq!(m.balance, 88);
    assert_eq!(m.index, 99);
}

#[test]
fn miner_wrong_tag_is_rejected() {
    let mut b = miner_buffer();
    b[0..8].copy_from_slice(&REWARDER_TAG);
    assert_eq!(try_decode_miner(&b).unwrap_err(), DecodeError::WrongType);
}

#[test]
fn miner_truncated_is_rejected() {
    let b = miner_buffer();
    assert_eq!(
        try_decode_miner(&b[..MINER_ACCOUNT_LEN - 1].to_vec()).unwrap_err(),
        DecodeError::Truncated
    );
    assert_eq!(try_decode_miner(&b[..7].to_vec()).unwrap_err(), DecodeError::Truncated);
}

#[test]
fn decode_table_dispatches_on_expected_kind() {
    match decode(&rewarder_buffer(), RecordKind::Rewarder).unwrap() {
        DecodedRecord::Rewarder(w) => assert_eq!(w.num_quarries, 513),
        _ => panic!("expected a rewarder record"),
    }
    match decode(&quarry_buffer(), RecordKind::Quarry).unwrap() {
        DecodedRecord::Quarry(q) => assert_eq!(q.index, 7),
        _ => panic!("expected a quarry record"),
    }
    match decode(&miner_buffer(), RecordKind::Miner).unwrap() {
        DecodedRecord::Miner(m) => assert_eq!(m.index, 99),
        _ => panic!("expected a miner record"),
    }
    assert_eq!(
        decode(&rewarder_buffer(), RecordKind::Miner).unwrap_err(),
        DecodeError::WrongType
    );
    assert_eq!(
        decode(&miner_buffer(), RecordKind::Quarry).unwrap_err(),
        DecodeError::WrongType
    );
}

#[test]
fn wrap_reads_the_account_data_bytes() {
    let owner = Pubkey::from_bytes(key(90)).unwrap();
    let account = RawAccount { owner, data: rewarder_buffer() };
    let w = Rewarder::wrap(&account).unwrap();
    assert_eq!(w.bump, 254);

    let owner = Pubkey::from_bytes(key(90)).unwrap();
    let bad = RawAccount { owner, data: vec![1, 2, 3] };
    assert_eq!(Rewarder::wrap(&bad).unwrap_err(), DecodeError::Truncated);
}

#[test]
fn pubkey_requires_exactly_32_bytes() {
    assert!(Pubkey::from_bytes(vec![0u8; 31]).is_none());
    assert!(Pubkey::from_bytes(vec![0u8; 33]).is_none());
    assert!(Pubkey::from_bytes(Vec::new()).is_none());
    let k = Pubkey::from_bytes(key(5)).unwrap();
    assert_eq!(k.as_bytes().len(), 32);
}
