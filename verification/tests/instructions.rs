use plasma::plasma::plasma_utils::{id, ID};
use plasma::plasma::plasma_utils::{
    add_liquidity, get_log_authority, get_lp_position_address, get_vault_address, initialize_lp_position,
    initialize_pool, remove_liquidity, swap, transfer_liquidity, AccountMeta, AddLiquidityParams,
    InitializePoolParams, ProtocolFeeRecipientParams, Side, SwapParams, SwapType,
};
use plasma::PlasmaAmm;
use solana_pubkey::Pubkey;

fn program() -> Pubkey {
    Pubkey::new_from_array(ID)
}

fn pda(seeds: &[&[u8]]) -> [u8; 32] {
    Pubkey::find_program_address(seeds, &program()).0.to_bytes()
}

fn meta(key: [u8; 32], is_signer: bool, is_writable: bool) -> (Vec<u8>, bool, bool) {
    (key.to_vec(), is_signer, is_writable)
}

fn view(metas: &[AccountMeta]) -> Vec<(Vec<u8>, bool, bool)> {
    metas.iter().map(|m| (m.pubkey.to_vec(), m.is_signer, m.is_writable)).collect()
}

fn token_program() -> [u8; 32] {
    spl_token_interface::ID.to_bytes()
}

#[test]
fn program_id_is_declared_address() {
    let expected: Pubkey = "srAMMzfVHVAtgSJc8iH6CfKzuWuUTzLHVCE81QU1rgi".parse().unwrap();
    assert_eq!(id(), expected.to_bytes());
    assert_eq!(ID, expected.to_bytes());
}

#[test]
fn derived_addresses_match_solana() {
    let pool = [7u8; 32];
    let mint = [8u8; 32];
    let trader = [9u8; 32];
    let (vault, bump) = get_vault_address(&ID, &pool, &mint).unwrap();
    let expected = Pubkey::find_program_address(&[b"vault", &pool, &mint], &program());
    assert_eq!((vault, bump), (expected.0.to_bytes(), expected.1));
    let (lp, lp_bump) = get_lp_position_address(&ID, &pool, &trader).unwrap();
    let expected = Pubkey::find_program_address(&[b"lp_position", &pool, &trader], &program());
    assert_eq!((lp, lp_bump), (expected.0.to_bytes(), expected.1));
    assert_eq!(get_log_authority(&ID), Some(pda(&[b"log"])));
    // Different mints give different vaults.
    assert_ne!(get_vault_address(&ID, &pool, &[10u8; 32]).unwrap().0, vault);
}

#[test]
fn swap_instruction_layout() {
    let pool = [1u8; 32];
    let trader = [2u8; 32];
    let base_mint = [3u8; 32];
    let quote_mint = [4u8; 32];
    let base_acct = [5u8; 32];
    let quote_acct = [6u8; 32];
    let params = SwapParams { side: Side::Sell, swap_type: SwapType::ExactIn { amount_in: 1_000, min_amount_out: 990 } };
    let ix = swap(&pool, &trader, &base_mint, &quote_mint, &base_acct, &quote_acct, params).unwrap();
    assert_eq!(ix.program_id, ID);
    assert_eq!(
        view(&ix.accounts),
        vec![
            meta(ID, false, false),
            meta(pda(&[b"log"]), false, false),
            meta(pool, false, true),
            meta(trader, true, false),
            meta(base_acct, false, true),
            meta(quote_acct, false, true),
            meta(pda(&[b"vault", &pool, &base_mint]), false, true),
            meta(pda(&[b"vault", &pool, &quote_mint]), false, true),
            meta(token_program(), false, false),
        ]
    );
    let mut expected = vec![0u8];
    expected.extend(borsh::to_vec(&(1u8, 0u8, 1_000u64, 990u64)).unwrap());
    assert_eq!(ix.data, expected);
    assert_eq!(ix.data, vec![0, 1, 0, 232, 3, 0, 0, 0, 0, 0, 0, 222, 3, 0, 0, 0, 0, 0, 0]);

    let params = SwapParams { side: Side::Buy, swap_type: SwapType::ExactOut { amount_out: 5, max_amount_in: u64::MAX } };
    let ix = swap(&pool, &trader, &base_mint, &quote_mint, &base_acct, &quote_acct, params).unwrap();
    let mut expected = vec![0u8];
    expected.extend(borsh::to_vec(&(0u8, 1u8, 5u64, u64::MAX)).unwrap());
    assert_eq!(ix.data, expected);
}

#[test]
fn initialize_pool_layout() {
    let pool = [1u8; 32];
    let creator = [2u8; 32];
    let base_mint = [3u8; 32];
    let quote_mint = [4u8; 32];
    let params = InitializePoolParams {
        lp_fee_in_bps: 25,
        protocol_fee_allocation_in_pct: 10,
        fee_recipients_params: [
            ProtocolFeeRecipientParams { recipient: [11; 32], shares: 1 },
            ProtocolFeeRecipientParams { recipient: [12; 32], shares: 2 },
            ProtocolFeeRecipientParams { recipient: [13; 32], shares: 3 },
        ],
        num_slots_to_vest_lp_shares: Some(1500),
    };
    let ix = initialize_pool(&pool, &creator, &base_mint, &quote_mint, params).unwrap();
    assert_eq!(
        view(&ix.accounts),
        vec![
            meta(ID, false, false),
            meta(pda(&[b"log"]), false, false),
            meta(pool, false, true),
            meta(creator, true, true),
            meta(base_mint, false, false),
            meta(quote_mint, false, false),
            meta(pda(&[b"vault", &pool, &base_mint]), false, true),
            meta(pda(&[b"vault", &pool, &quote_mint]), false, true),
            meta([0; 32], false, false),
            meta(token_program(), false, false),
        ]
    );
    let mut expected = vec![6u8];
    expected.extend(
        borsh::to_vec(&(
            25u64,
            10u64,
            [([11u8; 32], 1u64), ([12u8; 32], 2u64), ([13u8; 32], 3u64)],
            Some(1500u64),
        ))
        .unwrap(),
    );
    assert_eq!(ix.data, expected);

    let mut no_vesting = params;
    no_vesting.num_slots_to_vest_lp_shares = None;
    let ix = initialize_pool(&pool, &creator, &base_mint, &quote_mint, no_vesting).unwrap();
    assert_eq!(ix.data.len(), 1 + 8 + 8 + 3 * 40 + 1);
    assert_eq!(*ix.data.last().unwrap(), 0);
}

#[test]
fn lp_position_instructions() {
    let pool = [1u8; 32];
    let payer = [2u8; 32];
    let owner = [3u8; 32];
    let ix = initialize_lp_position(&pool, &payer, &owner).unwrap();
    assert_eq!(
        view(&ix.accounts),
        vec![
            meta(ID, false, false),
            meta(pda(&[b"log"]), false, false),
            meta(pool, false, true),
            meta(payer, true, true),
            meta(owner, false, false),
            meta(pda(&[b"lp_position", &pool, &owner]), false, true),
            meta([0; 32], false, false),
        ]
    );
    assert_eq!(ix.data, vec![5u8]);

    let dst = [4u8; 32];
    let ix = transfer_liquidity(&pool, &payer, &dst).unwrap();
    assert_eq!(
        view(&ix.accounts),
        vec![
            meta(ID, false, false),
            meta(pda(&[b"log"]), false, false),
            meta(pool, false, true),
            meta(payer, true, true),
            meta(pda(&[b"lp_position", &pool, &payer]), false, true),
            meta(pda(&[b"lp_position", &pool, &dst]), false, true),
        ]
    );
    assert_eq!(ix.data, vec![9u8]);
}

#[test]
fn liquidity_instructions() {
    let pool = [1u8; 32];
    let trader = [2u8; 32];
    let base_mint = [3u8; 32];
    let quote_mint = [4u8; 32];
    let base_acct = [5u8; 32];
    let quote_acct = [6u8; 32];
    let params = AddLiquidityParams { desired_base_amount_in: 100, desired_quote_amount_in: 200, initial_lp_shares: None };
    let ix = add_liquidity(&pool, &trader, &base_mint, &base_acct, &quote_mint, &quote_acct, params).unwrap();
    let expected_accounts = vec![
        meta(ID, false, false),
        meta(pda(&[b"log"]), false, false),
        meta(pool, false, true),
        meta(trader, true, false),
        meta(pda(&[b"lp_position", &pool, &trader]), false, true),
        meta(base_acct, false, true),
        meta(quote_acct, false, true),
        meta(pda(&[b"vault", &pool, &base_mint]), false, true),
        meta(pda(&[b"vault", &pool, &quote_mint]), false, true),
        meta(token_program(), false, false),
    ];
    assert_eq!(view(&ix.accounts), expected_accounts);
    let mut expected = vec![1u8];
    expected.extend(borsh::to_vec(&(100u64, 200u64, None::<u64>)).unwrap());
    assert_eq!(ix.data, expected);

    let ix = remove_liquidity(&pool, &trader, &base_mint, &quote_mint, &base_acct, &quote_acct, 777).unwrap();
    assert_eq!(view(&ix.accounts), expected_accounts);
    let mut expected = vec![2u8];
    expected.extend(777u64.to_le_bytes());
    assert_eq!(ix.data, expected);
}

fn pool_with_mints(base_mint: [u8; 32], quote_mint: [u8; 32]) -> PlasmaAmm {
    let mut d = vec![0u8; 16];
    d.extend_from_slice(&[0u8; 8]);
    d.extend_from_slice(&base_mint);
    d.extend_from_slice(&[0u8; 32]);
    d.extend_from_slice(&[0u8; 8]);
    d.extend_from_slice(&quote_mint);
    d.extend_from_slice(&[0u8; 32]);
    d.resize(624, 0);
    PlasmaAmm::from_keyed_account([20; 32], &d, 0).unwrap()
}

#[test]
fn router_swap_sells_base_and_buys_with_quote() {
    let base_mint = [3u8; 32];
    let quote_mint = [4u8; 32];
    let amm = pool_with_mints(base_mint, quote_mint);
    let source = [30u8; 32];
    let destination = [31u8; 32];
    let authority = [32u8; 32];

    // Paying in the base mint: a sell; the source is the base account.
    let ix = amm.get_swap_and_account_metas(50, 40, &base_mint, &source, &destination, &authority).unwrap();
    assert_eq!(ix.accounts.len(), amm.get_accounts_len());
    assert_eq!(ix.accounts[3].pubkey, authority);
    assert_eq!(ix.accounts[4].pubkey, source);
    assert_eq!(ix.accounts[5].pubkey, destination);
    assert_eq!(&ix.data[..3], &[0u8, 1, 0]);

    // Paying in the quote mint: a buy; the source is the quote account.
    let ix = amm.get_swap_and_account_metas(50, 40, &quote_mint, &source, &destination, &authority).unwrap();
    assert_eq!(ix.accounts[4].pubkey, destination);
    assert_eq!(ix.accounts[5].pubkey, source);
    assert_eq!(&ix.data[..3], &[0u8, 0, 0]);
    assert_eq!(&ix.data[3..11], &50u64.to_le_bytes());
    assert_eq!(&ix.data[11..19], &40u64.to_le_bytes());
}
