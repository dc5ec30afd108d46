use plasma::plasma::plasma_utils::{PoolHeader, POOL_HEADER_LEN};
use plasma::{token_amount, PlasmaAmm, PoolAccount, PoolAccountError, TokenAccountError, UpdateError};

fn token_account(amount: u64) -> Vec<u8> {
    let mut data = vec![0xAAu8; 165];
    data[64..72].copy_from_slice(&amount.to_le_bytes());
    data
}

/// A pool account: the header's fields in Borsh order, then `extra` bytes.
fn pool_data(base_mint: [u8; 32], base_vault: [u8; 32], quote_mint: [u8; 32], quote_vault: [u8; 32], extra: usize) -> Vec<u8> {
    let mut d = Vec::new();
    d.extend_from_slice(&[116u8, 210, 187, 119, 196, 196, 52, 137]);
    d.extend_from_slice(&77u64.to_le_bytes());
    // base params
    d.extend_from_slice(&6u32.to_le_bytes());
    d.extend_from_slice(&254u32.to_le_bytes());
    d.extend_from_slice(&base_mint);
    d.extend_from_slice(&base_vault);
    // quote params
    d.extend_from_slice(&9u32.to_le_bytes());
    d.extend_from_slice(&253u32.to_le_bytes());
    d.extend_from_slice(&quote_mint);
    d.extend_from_slice(&quote_vault);
    // fee recipients
    for i in 0..3u64 {
        d.extend_from_slice(&[40 + i as u8; 32]);
        d.extend_from_slice(&(100 + i).to_le_bytes());
        d.extend_from_slice(&(200 + i).to_le_bytes());
        d.extend_from_slice(&(300 + i).to_le_bytes());
    }
    for i in 0..12u64 {
        d.extend_from_slice(&(1000 + i).to_le_bytes());
    }
    d.extend_from_slice(&88u64.to_le_bytes());
    for i in 0..12u64 {
        d.extend_from_slice(&(2000 + i).to_le_bytes());
    }
    d.extend(std::iter::repeat(0u8).take(extra));
    d
}

fn clock_data(slot: u64) -> Vec<u8> {
    let clock = solana_clock::Clock { slot, epoch_start_timestamp: 5, epoch: 6, leader_schedule_epoch: 7, unix_timestamp: 8 };
    bincode::serialize(&clock).unwrap()
}

fn sample_amm() -> PlasmaAmm {
    let data = pool_data([1; 32], [2; 32], [3; 32], [4; 32], 96);
    PlasmaAmm::from_keyed_account([9; 32], &data, 500).unwrap()
}

#[test]
fn token_amount_reads_offset_64() {
    assert_eq!(token_amount(&token_account(0)), Ok(0));
    assert_eq!(token_amount(&token_account(1_000_000_007)), Ok(1_000_000_007));
    assert_eq!(token_amount(&token_account(u64::MAX)), Ok(u64::MAX));
    let mut longer = token_account(42);
    longer.extend_from_slice(&[1, 2, 3]);
    assert_eq!(token_amount(&longer), Ok(42));
}

#[test]
fn token_amount_rejects_short_data() {
    assert_eq!(token_amount(&[0u8; 164]), Err(TokenAccountError::InvalidLength { len: 164 }));
    assert_eq!(token_amount(&[]), Err(TokenAccountError::InvalidLength { len: 0 }));
}

#[test]
fn pool_header_is_read_field_by_field() {
    let data = pool_data([1; 32], [2; 32], [3; 32], [4; 32], 0);
    assert_eq!(data.len(), POOL_HEADER_LEN);
    let h = PoolHeader::read(&data).unwrap();
    assert_eq!(h.discriminator, plasma::plasma::plasma_utils::POOL_DISCRIMINATOR);
    assert_eq!(h.sequence_number, 77);
    assert_eq!(h.base_params.decimals, 6);
    assert_eq!(h.base_params.vault_bump, 254);
    assert_eq!(h.base_params.mint_key, [1; 32]);
    assert_eq!(h.base_params.vault_key, [2; 32]);
    assert_eq!(h.quote_params.decimals, 9);
    assert_eq!(h.quote_params.vault_bump, 253);
    assert_eq!(h.quote_params.mint_key, [3; 32]);
    assert_eq!(h.quote_params.vault_key, [4; 32]);
    for i in 0..3 {
        let r = h.fee_recipients.recipients[i];
        assert_eq!(r.recipient, [40 + i as u8; 32]);
        assert_eq!(r.shares, 100 + i as u64);
        assert_eq!(r.total_accumulated_quote_fees, 200 + i as u64);
        assert_eq!(r.collected_quote_fees, 300 + i as u64);
    }
    for i in 0..12 {
        assert_eq!(h.fee_recipients._padding[i], 1000 + i as u64);
        assert_eq!(h.padding[i], 2000 + i as u64);
    }
    assert_eq!(h.swap_sequence_number, 88);
}

#[test]
fn pool_account_needs_exactly_one_account() {
    let mut data = pool_data([1; 32], [2; 32], [3; 32], [4; 32], 96);
    for (i, b) in data[POOL_HEADER_LEN..].iter_mut().enumerate() {
        *b = i as u8;
    }
    let account = PoolAccount::try_from_slice(&data).unwrap();
    assert_eq!(account.header.base_params.mint_key, [1; 32]);
    assert_eq!(account.amm.to_vec(), (0u8..96).collect::<Vec<u8>>());
    // A header alone is not a pool account.
    assert!(matches!(
        PoolAccount::try_from_slice(&data[..POOL_HEADER_LEN]),
        Err(PoolAccountError::InvalidLength { len: 528 })
    ));
    assert!(matches!(
        PoolAccount::try_from_slice(&data[..623]),
        Err(PoolAccountError::InvalidLength { len: 623 })
    ));
    // Trailing bytes are refused.
    let mut longer = data.clone();
    longer.push(0);
    assert!(matches!(
        PoolAccount::try_from_slice(&longer),
        Err(PoolAccountError::InvalidLength { len: 625 })
    ));
}

#[test]
fn from_keyed_account_starts_empty() {
    let amm = sample_amm();
    assert_eq!(amm.pool_address, [9; 32]);
    assert_eq!(amm.base_vault_amount, 0);
    assert_eq!(amm.quote_vault_amount, 0);
    assert_eq!(amm.slot, 500);
    assert_eq!(amm.key(), [9; 32]);
    assert!(matches!(
        PlasmaAmm::from_keyed_account([9; 32], &[0u8; 10], 1),
        Err(PoolAccountError::InvalidLength { len: 10 })
    ));
    let longer = pool_data([1; 32], [2; 32], [3; 32], [4; 32], 97);
    assert!(matches!(
        PlasmaAmm::from_keyed_account([9; 32], &longer, 1),
        Err(PoolAccountError::InvalidLength { len: 625 })
    ));
}

#[test]
fn reserve_mints_and_accounts_to_update() {
    let amm = sample_amm();
    assert_eq!(amm.get_reserve_mints(), vec![[1; 32], [3; 32]]);
    let keys = amm.get_accounts_to_update();
    assert_eq!(keys.len(), 4);
    assert_eq!(keys[0], [9; 32]);
    assert_eq!(keys[1], [2; 32]);
    assert_eq!(keys[2], [4; 32]);
    assert_eq!(keys[3], solana_sdk_ids::sysvar::clock::ID.to_bytes());
    assert_eq!(amm.label(), "Plasma");
    assert_eq!(amm.program_id(), plasma::plasma::keys::ID);
    assert_eq!(amm.get_accounts_len(), 9);
}

#[test]
fn update_reads_vaults_pool_and_clock() {
    let mut amm = sample_amm();
    let new_pool = pool_data([1; 32], [5; 32], [3; 32], [6; 32], 96);
    let r = amm.update(
        Some(&token_account(1_000)),
        Some(&token_account(2_000)),
        Some(&new_pool),
        Some(&clock_data(123_456)),
    );
    assert_eq!(r, Ok(()));
    assert_eq!(amm.base_vault_amount, 1_000);
    assert_eq!(amm.quote_vault_amount, 2_000);
    assert_eq!(amm.plasma_amm.header.base_params.vault_key, [5; 32]);
    assert_eq!(amm.plasma_amm.header.quote_params.vault_key, [6; 32]);
    assert_eq!(amm.slot, 123_456);
}

#[test]
fn update_missing_vault_changes_nothing() {
    let mut amm = sample_amm();
    let r = amm.update(None, Some(&token_account(2_000)), None, None);
    assert_eq!(r, Err(UpdateError::AccountNotFound { key: [2; 32] }));
    assert_eq!(amm.base_vault_amount, 0);
    let r = amm.update(Some(&token_account(1)), None, None, None);
    assert_eq!(r, Err(UpdateError::AccountNotFound { key: [4; 32] }));
    assert_eq!(amm.base_vault_amount, 0);
    let r = amm.update(Some(&token_account(1)), Some(&[0u8; 3]), None, None);
    assert_eq!(r, Err(UpdateError::TokenAccount(TokenAccountError::InvalidLength { len: 3 })));
    assert_eq!(amm.base_vault_amount, 0);
    assert_eq!(amm.quote_vault_amount, 0);
}

#[test]
fn update_keeps_vault_amounts_when_pool_fails() {
    let mut amm = sample_amm();
    let r = amm.update(Some(&token_account(11)), Some(&token_account(22)), Some(&[0u8; 100]), None);
    assert_eq!(r, Err(UpdateError::PoolAccount(PoolAccountError::InvalidLength { len: 100 })));
    assert_eq!(amm.base_vault_amount, 11);
    assert_eq!(amm.quote_vault_amount, 22);
    assert_eq!(amm.plasma_amm.header.base_params.vault_key, [2; 32]);
    assert_eq!(amm.slot, 500);

    // A pool account with trailing bytes is refused, and the pool state stays.
    let longer = pool_data([1; 32], [5; 32], [3; 32], [6; 32], 97);
    let r = amm.update(Some(&token_account(33)), Some(&token_account(44)), Some(&longer), Some(&clock_data(9)));
    assert_eq!(r, Err(UpdateError::PoolAccount(PoolAccountError::InvalidLength { len: 625 })));
    assert_eq!(amm.base_vault_amount, 33);
    assert_eq!(amm.quote_vault_amount, 44);
    assert_eq!(amm.plasma_amm.header.base_params.vault_key, [2; 32]);
    assert_eq!(amm.slot, 500);

    let r = amm.update(Some(&token_account(11)), Some(&token_account(22)), None, None);
    assert_eq!(r, Err(UpdateError::AccountNotFound { key: [9; 32] }));
}

#[test]
fn update_clock_errors() {
    let mut amm = sample_amm();
    let new_pool = pool_data([1; 32], [5; 32], [3; 32], [6; 32], 96);
    let r = amm.update(Some(&token_account(1)), Some(&token_account(2)), Some(&new_pool), None);
    assert_eq!(r, Err(UpdateError::AccountNotFound { key: solana_sdk_ids::sysvar::clock::ID.to_bytes() }));
    assert_eq!(amm.plasma_amm.header.base_params.vault_key, [5; 32]);
    assert_eq!(amm.slot, 500);
    let r = amm.update(Some(&token_account(1)), Some(&token_account(2)), Some(&new_pool), Some(&[0u8; 39]));
    assert_eq!(r, Err(UpdateError::Clock));
    assert_eq!(amm.slot, 500);
}

#[test]
fn quote_direction() {
    let amm = sample_amm();
    assert_eq!(amm.quote_out_amount(&[3; 32], 10, 20), 10);
    assert_eq!(amm.quote_out_amount(&[1; 32], 10, 20), 20);
    assert!(amm.is_quote_to_base(&[3; 32]));
    assert!(!amm.is_quote_to_base(&[1; 32]));
    assert!(!amm.is_quote_to_base(&[7; 32]));
}
