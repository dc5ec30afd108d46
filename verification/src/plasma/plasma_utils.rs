//! The Plasma program's accounts and instructions: the parameter types, their
//! Borsh byte layout, and the instructions that a client sends.
use vstd::prelude::*;
pub use crate::plasma::keys::{ID, id};
use crate::plasma::keys::{
    Pubkey,
    spl_token_program_id,
    system_program_id,
    program_key,
    token_program_key,
    system_program_key,
    program_address,
    seeds_view,
    try_find_program_address,
    vault_seed,
    lp_position_seed,
    log_seed,
    key_to_vec,
};
use crate::plasma::wire::{
    append_key,
    append_u64,
    u64_bytes,
    le_value,
    read_key,
    read_u32_le,
    read_u64_le,
    law_u64_bytes_round_trip,
};

verus! {

const SWAP_DISCRIMINATOR: u8 = 0;

const ADD_LIQUIDITY_DISCRIMINATOR: u8 = 1;

const REMOVE_LIQUIDITY_DISCRIMINATOR: u8 = 2;

const INITIALIZE_LP_POSITION_DISCRIMINATOR: u8 = 5;

const INITIALIZE_POOL_DISCRIMINATOR: u8 = 6;

const TRANSFER_LIQUIDITY_DISCRIMINATOR: u8 = 9;

/// The size in bytes of a pool account.
pub const POOL_LEN: u64 = 624;

/// The first eight bytes of every pool account.
pub const POOL_DISCRIMINATOR: [u8; 8] = [116, 210, 187, 119, 196, 196, 52, 137];

// ---------------------------------------------------------------------------
// Instructions.
// ---------------------------------------------------------------------------

/// An account that an instruction reads or writes.
#[derive(Clone, Copy, Debug)]
pub struct AccountMeta {
    pub pubkey: Pubkey,
    pub is_signer: bool,
    pub is_writable: bool,
}

impl View for AccountMeta {
    type V = (Seq<u8>, bool, bool);

    open spec fn view(&self) -> (Seq<u8>, bool, bool) {
        (self.pubkey@, self.is_signer, self.is_writable)
    }
}

/// The view of an account that an instruction writes.
pub open spec fn writable(key: Seq<u8>, is_signer: bool) -> (Seq<u8>, bool, bool) {
    (key, is_signer, true)
}

/// The view of an account that an instruction only reads.
pub open spec fn readonly(key: Seq<u8>, is_signer: bool) -> (Seq<u8>, bool, bool) {
    (key, is_signer, false)
}

/// The views of a list of accounts.
pub open spec fn metas_view(metas: Seq<AccountMeta>) -> Seq<(Seq<u8>, bool, bool)> {
    metas.map_values(|m: AccountMeta| m@)
}

impl AccountMeta {
    /// An account that the instruction writes.
    pub fn new(pubkey: Pubkey, is_signer: bool) -> (meta: AccountMeta)
        ensures
            meta@ == writable(pubkey@, is_signer),
    {
        AccountMeta { pubkey, is_signer, is_writable: true }
    }

    /// An account that the instruction only reads.
    pub fn new_readonly(pubkey: Pubkey, is_signer: bool) -> (meta: AccountMeta)
        ensures
            meta@ == readonly(pubkey@, is_signer),
    {
        AccountMeta { pubkey, is_signer, is_writable: false }
    }
}

/// An instruction to a program: the program, the accounts, and the data.
#[derive(Clone, Debug)]
pub struct Instruction {
    pub program_id: Pubkey,
    pub accounts: Vec<AccountMeta>,
    pub data: Vec<u8>,
}

// ---------------------------------------------------------------------------
// Parameter types and their Borsh bytes.
// ---------------------------------------------------------------------------

/// A share of the protocol fee for one recipient, as given when a pool is made.
#[derive(Debug, Default, Copy, Clone)]
pub struct ProtocolFeeRecipientParams {
    pub recipient: Pubkey,
    pub shares: u64,
}

/// The parameters of a new pool.
#[derive(Clone, Copy, Debug, Default)]
pub struct InitializePoolParams {
    pub lp_fee_in_bps: u64,
    pub protocol_fee_allocation_in_pct: u64,
    pub fee_recipients_params: [ProtocolFeeRecipientParams; 3],
    /// This is the number of slots that the LP shares will be vested over
    /// If this value is not a multiple of the leader slot window, it will be rounded down
    pub num_slots_to_vest_lp_shares: Option<u64>,
}

/// The parameters of a deposit of liquidity.
#[derive(Clone, Copy, Debug, Default)]
pub struct AddLiquidityParams {
    pub desired_base_amount_in: u64,
    pub desired_quote_amount_in: u64,
    pub initial_lp_shares: Option<u64>,
}

/// A liquidity provider's position in a pool.
#[derive(Debug, Copy, Clone)]
pub struct LpPosition {
    reward_factor_snapshot: i128,
    pub lp_shares: u64,
    pub withdrawable_lp_shares: u64,
    uncollected_fees: u64,
    collected_fees: u64,
    pub pending_shares_to_vest: (u64, u64),
}

/// The direction of a swap: `Buy` pays quote tokens for base tokens, `Sell`
/// pays base tokens for quote tokens.
#[derive(Debug, Clone, Copy, PartialEq, Eq, Structural)]
pub enum Side {
    Buy,
    Sell,
}

/// The parameters of a swap.
#[derive(Clone, Copy, Debug)]
pub struct SwapParams {
    pub side: Side,
    pub swap_type: SwapType,
}

/// What a swap fixes: the amount in, or the amount out.
#[derive(Clone, Copy, Debug)]
pub enum SwapType {
    ExactIn { amount_in: u64, min_amount_out: u64 },
    ExactOut { amount_out: u64, max_amount_in: u64 },
}

/// The Borsh bytes of an `Option<u64>`: a tag byte, then the value if any.
pub open spec fn option_u64_bytes(value: Option<u64>) -> Seq<u8> {
    match value {
        None => seq![0u8],
        Some(v) => seq![1u8] + u64_bytes(v),
    }
}

/// The Borsh byte of a `Side`: the variant's index.
pub open spec fn side_byte(side: Side) -> u8 {
    match side {
        Side::Buy => 0,
        Side::Sell => 1,
    }
}

/// The Borsh bytes of a `SwapType`: the variant's index, then its fields.
pub open spec fn swap_type_bytes(swap_type: SwapType) -> Seq<u8> {
    match swap_type {
        SwapType::ExactIn { amount_in, min_amount_out } => seq![0u8] + u64_bytes(amount_in)
            + u64_bytes(min_amount_out),
        SwapType::ExactOut { amount_out, max_amount_in } => seq![1u8] + u64_bytes(amount_out)
            + u64_bytes(max_amount_in),
    }
}

/// The Borsh bytes of `SwapParams`.
pub open spec fn swap_params_bytes(params: SwapParams) -> Seq<u8> {
    seq![side_byte(params.side)] + swap_type_bytes(params.swap_type)
}

/// The Borsh bytes of `AddLiquidityParams`.
pub open spec fn add_liquidity_params_bytes(params: AddLiquidityParams) -> Seq<u8> {
    u64_bytes(params.desired_base_amount_in) + u64_bytes(params.desired_quote_amount_in)
        + option_u64_bytes(params.initial_lp_shares)
}

/// The Borsh bytes of `ProtocolFeeRecipientParams`.
pub open spec fn fee_recipient_params_bytes(params: ProtocolFeeRecipientParams) -> Seq<u8> {
    params.recipient@ + u64_bytes(params.shares)
}

/// The Borsh bytes of `InitializePoolParams`.
pub open spec fn initialize_pool_params_bytes(params: InitializePoolParams) -> Seq<u8> {
    u64_bytes(params.lp_fee_in_bps) + u64_bytes(params.protocol_fee_allocation_in_pct)
        + fee_recipient_params_bytes(params.fee_recipients_params[0])
        + fee_recipient_params_bytes(params.fee_recipients_params[1])
        + fee_recipient_params_bytes(params.fee_recipients_params[2]) + option_u64_bytes(
        params.num_slots_to_vest_lp_shares,
    )
}

/// Appends the Borsh bytes of an `Option<u64>`.
fn append_option_u64(buf: &mut Vec<u8>, value: Option<u64>)
    ensures
        final(buf)@ == old(buf)@ + option_u64_bytes(value),
{
    match value {
        None => {
            buf.push(0u8);
            proof {
                assert(final(buf)@ =~= old(buf)@ + seq![0u8]);
            }
        },
        Some(v) => {
            buf.push(1u8);
            append_u64(buf, v);
            proof {
                assert(final(buf)@ =~= old(buf)@ + (seq![1u8] + u64_bytes(v)));
            }
        },
    }
}

impl SwapParams {
    /// Appends the Borsh bytes of the parameters to `buf`.
    pub fn write_borsh(&self, buf: &mut Vec<u8>)
        ensures
            final(buf)@ == old(buf)@ + swap_params_bytes(*self),
    {
        let side_tag: u8 = match self.side {
            Side::Buy => 0,
            Side::Sell => 1,
        };
        buf.push(side_tag);
        let ghost after_side = buf@;
        match self.swap_type {
            SwapType::ExactIn { amount_in, min_amount_out } => {
                buf.push(0u8);
                append_u64(buf, amount_in);
                append_u64(buf, min_amount_out);
            },
            SwapType::ExactOut { amount_out, max_amount_in } => {
                buf.push(1u8);
                append_u64(buf, amount_out);
                append_u64(buf, max_amount_in);
            },
        }
        proof {
            assert(buf@ =~= old(buf)@ + swap_params_bytes(*self));
        }
    }
}

impl AddLiquidityParams {
    /// Appends the Borsh bytes of the parameters to `buf`.
    pub fn write_borsh(&self, buf: &mut Vec<u8>)
        ensures
            final(buf)@ == old(buf)@ + add_liquidity_params_bytes(*self),
    {
        append_u64(buf, self.desired_base_amount_in);
        append_u64(buf, self.desired_quote_amount_in);
        append_option_u64(buf, self.initial_lp_shares);
        proof {
            assert(buf@ =~= old(buf)@ + add_liquidity_params_bytes(*self));
        }
    }
}

impl ProtocolFeeRecipientParams {
    /// Appends the Borsh bytes of the parameters to `buf`.
    pub fn write_borsh(&self, buf: &mut Vec<u8>)
        ensures
            final(buf)@ == old(buf)@ + fee_recipient_params_bytes(*self),
    {
        append_key(buf, &self.recipient);
        append_u64(buf, self.shares);
        proof {
            assert(buf@ =~= old(buf)@ + fee_recipient_params_bytes(*self));
        }
    }
}

impl InitializePoolParams {
    /// Appends the Borsh bytes of the parameters to `buf`.
    pub fn write_borsh(&self, buf: &mut Vec<u8>)
        ensures
            final(buf)@ == old(buf)@ + initialize_pool_params_bytes(*self),
    {
        append_u64(buf, self.lp_fee_in_bps);
        append_u64(buf, self.protocol_fee_allocation_in_pct);
        self.fee_recipients_params[0].write_borsh(buf);
        self.fee_recipients_params[1].write_borsh(buf);
        self.fee_recipients_params[2].write_borsh(buf);
        append_option_u64(buf, self.num_slots_to_vest_lp_shares);
        proof {
            assert(buf@ =~= old(buf)@ + initialize_pool_params_bytes(*self));
        }
    }
}

// ---------------------------------------------------------------------------
// Reading the parameter bytes back.
// ---------------------------------------------------------------------------

/// The bytes of `SwapParams` read back as the parameters: the side's byte (0
/// for `Buy`, 1 for `Sell`), the swap type's byte (0 for `ExactIn`, 1 for
/// `ExactOut`), then its first and its second amount, little-endian, whatever
/// the side.
pub proof fn law_swap_params_bytes_read_back(params: SwapParams)
    ensures
        swap_params_bytes(params).len() == 18,
        params.side == Side::Buy ==> swap_params_bytes(params)[0] == 0,
        params.side == Side::Sell ==> swap_params_bytes(params)[0] == 1,
        params.swap_type matches SwapType::ExactIn { amount_in, min_amount_out } ==> {
            &&& swap_params_bytes(params)[1] == 0
            &&& le_value(swap_params_bytes(params).subrange(2, 10)) == amount_in
            &&& le_value(swap_params_bytes(params).subrange(10, 18)) == min_amount_out
        },
        params.swap_type matches SwapType::ExactOut { amount_out, max_amount_in } ==> {
            &&& swap_params_bytes(params)[1] == 1
            &&& le_value(swap_params_bytes(params).subrange(2, 10)) == amount_out
            &&& le_value(swap_params_bytes(params).subrange(10, 18)) == max_amount_in
        },
{
    let s = swap_params_bytes(params);
    match params.swap_type {
        SwapType::ExactIn { amount_in: x, min_amount_out: y } => {
            law_u64_bytes_round_trip(x);
            law_u64_bytes_round_trip(y);
            assert(s.subrange(2, 10) =~= u64_bytes(x));
            assert(s.subrange(10, 18) =~= u64_bytes(y));
        },
        SwapType::ExactOut { amount_out: x, max_amount_in: y } => {
            law_u64_bytes_round_trip(x);
            law_u64_bytes_round_trip(y);
            assert(s.subrange(2, 10) =~= u64_bytes(x));
            assert(s.subrange(10, 18) =~= u64_bytes(y));
        },
    }
}

/// The bytes of an `Option<u64>` read back as the option: a 0 byte alone for
/// `None`, a 1 byte and the value, little-endian, for `Some`.
pub proof fn law_option_u64_bytes_read_back(value: Option<u64>)
    ensures
        value is None ==> option_u64_bytes(value) == seq![0u8],
        value matches Some(v) ==> {
            &&& option_u64_bytes(value).len() == 9
            &&& option_u64_bytes(value)[0] == 1
            &&& le_value(option_u64_bytes(value).subrange(1, 9)) == v
        },
{
    if let Some(v) = value {
        law_u64_bytes_round_trip(v);
        assert(option_u64_bytes(value).subrange(1, 9) =~= u64_bytes(v));
    }
}

/// The bytes of `AddLiquidityParams` read back as the parameters: the base
/// amount, the quote amount, then the initial shares as an option.
pub proof fn law_add_liquidity_params_bytes_read_back(params: AddLiquidityParams)
    ensures
        le_value(add_liquidity_params_bytes(params).subrange(0, 8)) == params.desired_base_amount_in,
        le_value(add_liquidity_params_bytes(params).subrange(8, 16))
            == params.desired_quote_amount_in,
        add_liquidity_params_bytes(params).subrange(16, add_liquidity_params_bytes(params).len() as int)
            == option_u64_bytes(params.initial_lp_shares),
        params.initial_lp_shares is None ==> add_liquidity_params_bytes(params) =~= u64_bytes(
            params.desired_base_amount_in,
        ) + u64_bytes(params.desired_quote_amount_in) + seq![0u8],
        params.initial_lp_shares matches Some(v) ==> {
            &&& add_liquidity_params_bytes(params).len() == 25
            &&& add_liquidity_params_bytes(params)[16] == 1
            &&& le_value(add_liquidity_params_bytes(params).subrange(17, 25)) == v
        },
{
    let s = add_liquidity_params_bytes(params);
    law_u64_bytes_round_trip(params.desired_base_amount_in);
    law_u64_bytes_round_trip(params.desired_quote_amount_in);
    law_option_u64_bytes_read_back(params.initial_lp_shares);
    assert(s.subrange(0, 8) =~= u64_bytes(params.desired_base_amount_in));
    assert(s.subrange(8, 16) =~= u64_bytes(params.desired_quote_amount_in));
    assert(s.subrange(16, s.len() as int) =~= option_u64_bytes(params.initial_lp_shares));
    if let Some(v) = params.initial_lp_shares {
        assert(s.subrange(17, 25) =~= option_u64_bytes(params.initial_lp_shares).subrange(1, 9));
    }
}

/// The bytes of `InitializePoolParams` read back as the parameters: the fee,
/// the protocol's part of it, the three recipients (each an address and its
/// shares), then the vesting period as an option.
pub proof fn law_initialize_pool_params_bytes_read_back(params: InitializePoolParams)
    ensures
        le_value(initialize_pool_params_bytes(params).subrange(0, 8)) == params.lp_fee_in_bps,
        le_value(initialize_pool_params_bytes(params).subrange(8, 16))
            == params.protocol_fee_allocation_in_pct,
        forall|i: int|
            0 <= i < 3 ==> {
                &&& initialize_pool_params_bytes(params).subrange(16 + 40 * i, 48 + 40 * i)
                    == (#[trigger] params.fee_recipients_params[i]).recipient@
                &&& le_value(initialize_pool_params_bytes(params).subrange(48 + 40 * i, 56 + 40 * i))
                    == params.fee_recipients_params[i].shares
            },
        initialize_pool_params_bytes(params).subrange(
            136,
            initialize_pool_params_bytes(params).len() as int,
        ) == option_u64_bytes(params.num_slots_to_vest_lp_shares),
{
    let s = initialize_pool_params_bytes(params);
    let r = params.fee_recipients_params;
    law_u64_bytes_round_trip(params.lp_fee_in_bps);
    law_u64_bytes_round_trip(params.protocol_fee_allocation_in_pct);
    law_u64_bytes_round_trip(r[0].shares);
    law_u64_bytes_round_trip(r[1].shares);
    law_u64_bytes_round_trip(r[2].shares);
    assert(s.subrange(0, 8) =~= u64_bytes(params.lp_fee_in_bps));
    assert(s.subrange(8, 16) =~= u64_bytes(params.protocol_fee_allocation_in_pct));
    assert(s.subrange(16, 48) =~= r[0].recipient@);
    assert(s.subrange(48, 56) =~= u64_bytes(r[0].shares));
    assert(s.subrange(56, 88) =~= r[1].recipient@);
    assert(s.subrange(88, 96) =~= u64_bytes(r[1].shares));
    assert(s.subrange(96, 128) =~= r[2].recipient@);
    assert(s.subrange(128, 136) =~= u64_bytes(r[2].shares));
    assert(s.subrange(136, s.len() as int) =~= option_u64_bytes(params.num_slots_to_vest_lp_shares));
    assert forall|i: int| 0 <= i < 3 implies {
        &&& s.subrange(16 + 40 * i, 48 + 40 * i) == (#[trigger] params.fee_recipients_params[i]).recipient@
        &&& le_value(s.subrange(48 + 40 * i, 56 + 40 * i)) == params.fee_recipients_params[i].shares
    } by {
        if i == 0 {
        } else if i == 1 {
        } else {
        }
    }
}

// ---------------------------------------------------------------------------
// Derived addresses.
// ---------------------------------------------------------------------------

/// The address of the vault that holds `mint` for `pool`, if one is found.
pub open spec fn vault_address(program_id: Seq<u8>, pool: Seq<u8>, mint: Seq<u8>) -> Option<
    (Pubkey, u8),
> {
    program_address(seq![vault_seed(), pool, mint], program_id)
}

/// The address of the liquidity position of `trader` in `pool`, if one is
/// found.
pub open spec fn lp_position_address(program_id: Seq<u8>, pool: Seq<u8>, trader: Seq<u8>) -> Option<
    (Pubkey, u8),
> {
    program_address(seq![lp_position_seed(), pool, trader], program_id)
}

/// The address of the program's log authority, if one is found.
pub open spec fn log_authority(program_id: Seq<u8>) -> Option<Pubkey> {
    match program_address(seq![log_seed()], program_id) {
        Some(found) => Some(found.0),
        None => None,
    }
}

/// The vault address (and bump seed) of `mint` in `pool`; `None` when the
/// search finds no address.
pub fn get_vault_address(plasma_program_id: &Pubkey, pool: &Pubkey, mint: &Pubkey) -> (found:
    Option<(Pubkey, u8)>)
    ensures
        found == vault_address(plasma_program_id@, pool@, mint@),
{
    let seed: Vec<u8> = vec![118u8, 97, 117, 108, 116];
    let mut seeds: Vec<Vec<u8>> = Vec::new();
    seeds.push(seed);
    seeds.push(key_to_vec(pool));
    seeds.push(key_to_vec(mint));
    proof {
        assert(seeds_view(seeds@) =~= seq![vault_seed(), pool@, mint@]);
    }
    try_find_program_address(&seeds, plasma_program_id)
}

/// The liquidity position address (and bump seed) of `trader` in `pool`;
/// `None` when the search finds no address.
pub fn get_lp_position_address(plasma_program_id: &Pubkey, pool: &Pubkey, trader: &Pubkey) -> (found:
    Option<(Pubkey, u8)>)
    ensures
        found == lp_position_address(plasma_program_id@, pool@, trader@),
{
    let seed: Vec<u8> = vec![108u8, 112, 95, 112, 111, 115, 105, 116, 105, 111, 110];
    let mut seeds: Vec<Vec<u8>> = Vec::new();
    seeds.push(seed);
    seeds.push(key_to_vec(pool));
    seeds.push(key_to_vec(trader));
    proof {
        assert(seeds_view(seeds@) =~= seq![lp_position_seed(), pool@, trader@]);
    }
    try_find_program_address(&seeds, plasma_program_id)
}

/// The log authority address of the program; `None` when the search finds no
/// address.
pub fn get_log_authority(plasma_program_id: &Pubkey) -> (key: Option<Pubkey>)
    ensures
        key == log_authority(plasma_program_id@),
{
    let seed: Vec<u8> = vec![108u8, 111, 103];
    let mut seeds: Vec<Vec<u8>> = Vec::new();
    seeds.push(seed);
    proof {
        assert(seeds_view(seeds@) =~= seq![log_seed()]);
    }
    match try_find_program_address(&seeds, plasma_program_id) {
        Some(found) => Some(found.0),
        None => None,
    }
}

// ---------------------------------------------------------------------------
// The instructions.  Each is `None` exactly when one of the addresses that it
// derives is not found.
// ---------------------------------------------------------------------------

/// The vault addresses of both mints of a pool, and the log authority, are
/// found.
pub open spec fn pool_addresses_found(pool_key: Seq<u8>, base_mint: Seq<u8>, quote_mint: Seq<u8>) -> bool {
    &&& log_authority(program_key()) is Some
    &&& vault_address(program_key(), pool_key, base_mint) is Some
    &&& vault_address(program_key(), pool_key, quote_mint) is Some
}

/// The accounts of the instruction that makes a pool.
pub open spec fn initialize_pool_accounts(
    pool_key: Seq<u8>,
    pool_creator: Seq<u8>,
    base_mint: Seq<u8>,
    quote_mint: Seq<u8>,
) -> Seq<(Seq<u8>, bool, bool)> {
    seq![
        readonly(program_key(), false),
        readonly(log_authority(program_key()).unwrap()@, false),
        writable(pool_key, false),
        writable(pool_creator, true),
        readonly(base_mint, false),
        readonly(quote_mint, false),
        writable(vault_address(program_key(), pool_key, base_mint).unwrap().0@, false),
        writable(vault_address(program_key(), pool_key, quote_mint).unwrap().0@, false),
        readonly(system_program_key(), false),
        readonly(token_program_key(), false),
    ]
}

/// The instruction that makes a pool.
pub fn initialize_pool(
    pool_key: &Pubkey,
    pool_creator: &Pubkey,
    base_mint: &Pubkey,
    quote_mint: &Pubkey,
    params: InitializePoolParams,
) -> (ix: Option<Instruction>)
    ensures
        ix is Some <==> pool_addresses_found(pool_key@, base_mint@, quote_mint@),
        ix matches Some(ix) ==> {
            &&& ix.program_id@ == program_key()
            &&& metas_view(ix.accounts@) == initialize_pool_accounts(
                pool_key@,
                pool_creator@,
                base_mint@,
                quote_mint@,
            )
            &&& ix.data@ == seq![6u8] + initialize_pool_params_bytes(params)
        },
{
    let program = id();
    let base_vault = match get_vault_address(&program, pool_key, base_mint) {
        Some(found) => found.0,
        None => {
            return None;
        },
    };
    let quote_vault = match get_vault_address(&program, pool_key, quote_mint) {
        Some(found) => found.0,
        None => {
            return None;
        },
    };
    let log_authority = match get_log_authority(&program) {
        Some(key) => key,
        None => {
            return None;
        },
    };

    let mut accounts: Vec<AccountMeta> = Vec::new();
    accounts.push(AccountMeta::new_readonly(program, false));
    accounts.push(AccountMeta::new_readonly(log_authority, false));
    accounts.push(AccountMeta::new(*pool_key, false));
    accounts.push(AccountMeta::new(*pool_creator, true));
    accounts.push(AccountMeta::new_readonly(*base_mint, false));
    accounts.push(AccountMeta::new_readonly(*quote_mint, false));
    accounts.push(AccountMeta::new(base_vault, false));
    accounts.push(AccountMeta::new(quote_vault, false));
    accounts.push(AccountMeta::new_readonly(system_program_id(), false));
    accounts.push(AccountMeta::new_readonly(spl_token_program_id(), false));

    let mut data: Vec<u8> = Vec::new();
    data.push(INITIALIZE_POOL_DISCRIMINATOR);
    params.write_borsh(&mut data);

    proof {
        assert(metas_view(accounts@) =~= initialize_pool_accounts(
            pool_key@,
            pool_creator@,
            base_mint@,
            quote_mint@,
        ));
        assert(data@ =~= seq![6u8] + initialize_pool_params_bytes(params));
    }
    Some(Instruction { program_id: program, accounts, data })
}

/// The log authority and the liquidity position of `owner` in the pool are
/// found.
pub open spec fn lp_position_found(pool_key: Seq<u8>, owner: Seq<u8>) -> bool {
    &&& log_authority(program_key()) is Some
    &&& lp_position_address(program_key(), pool_key, owner) is Some
}

/// The accounts of the instruction that opens a liquidity position.
pub open spec fn initialize_lp_position_accounts(
    pool_key: Seq<u8>,
    payer: Seq<u8>,
    lp_position_owner: Seq<u8>,
) -> Seq<(Seq<u8>, bool, bool)> {
    seq![
        readonly(program_key(), false),
        readonly(log_authority(program_key()).unwrap()@, false),
        writable(pool_key, false),
        writable(payer, true),
        readonly(lp_position_owner, false),
        writable(lp_position_address(program_key(), pool_key, lp_position_owner).unwrap().0@, false),
        readonly(system_program_key(), false),
    ]
}

/// The instruction that opens a liquidity position for `lp_position_owner`.
pub fn initialize_lp_position(pool_key: &Pubkey, payer: &Pubkey, lp_position_owner: &Pubkey) -> (ix:
    Option<Instruction>)
    ensures
        ix is Some <==> lp_position_found(pool_key@, lp_position_owner@),
        ix matches Some(ix) ==> {
            &&& ix.program_id@ == program_key()
            &&& metas_view(ix.accounts@) == initialize_lp_position_accounts(
                pool_key@,
                payer@,
                lp_position_owner@,
            )
            &&& ix.data@ == seq![5u8]
        },
{
    let program = id();
    let log_authority = match get_log_authority(&program) {
        Some(key) => key,
        None => {
            return None;
        },
    };
    let lp_position_key = match get_lp_position_address(&program, pool_key, lp_position_owner) {
        Some(found) => found.0,
        None => {
            return None;
        },
    };

    let mut accounts: Vec<AccountMeta> = Vec::new();
    accounts.push(AccountMeta::new_readonly(program, false));
    accounts.push(AccountMeta::new_readonly(log_authority, false));
    accounts.push(AccountMeta::new(*pool_key, false));
    accounts.push(AccountMeta::new(*payer, true));
    accounts.push(AccountMeta::new_readonly(*lp_position_owner, false));
    accounts.push(AccountMeta::new(lp_position_key, false));
    accounts.push(AccountMeta::new_readonly(system_program_id(), false));

    let mut data: Vec<u8> = Vec::new();
    data.push(INITIALIZE_LP_POSITION_DISCRIMINATOR);

    proof {
        assert(metas_view(accounts@) =~= initialize_lp_position_accounts(
            pool_key@,
            payer@,
            lp_position_owner@,
        ));
        assert(data@ =~= seq![5u8]);
    }
    Some(Instruction { program_id: program, accounts, data })
}

/// The accounts of the instruction that deposits liquidity.
pub open spec fn add_liquidity_accounts(
    pool_key: Seq<u8>,
    trader: Seq<u8>,
    base_mint: Seq<u8>,
    base_mint_account_key: Seq<u8>,
    quote_mint: Seq<u8>,
    quote_mint_account_key: Seq<u8>,
) -> Seq<(Seq<u8>, bool, bool)> {
    seq![
        readonly(program_key(), false),
        readonly(log_authority(program_key()).unwrap()@, false),
        writable(pool_key, false),
        readonly(trader, true),
        writable(lp_position_address(program_key(), pool_key, trader).unwrap().0@, false),
        writable(base_mint_account_key, false),
        writable(quote_mint_account_key, false),
        writable(vault_address(program_key(), pool_key, base_mint).unwrap().0@, false),
        writable(vault_address(program_key(), pool_key, quote_mint).unwrap().0@, false),
        readonly(token_program_key(), false),
    ]
}

/// The instruction that deposits liquidity from `trader`'s token accounts.
pub fn add_liquidity(
    pool_key: &Pubkey,
    trader: &Pubkey,
    base_mint: &Pubkey,
    base_mint_account_key: &Pubkey,
    quote_mint: &Pubkey,
    quote_mint_account_key: &Pubkey,
    params: AddLiquidityParams,
) -> (ix: Option<Instruction>)
    ensures
        ix is Some <==> pool_addresses_found(pool_key@, base_mint@, quote_mint@) && lp_position_found(
            pool_key@,
            trader@,
        ),
        ix matches Some(ix) ==> {
            &&& ix.program_id@ == program_key()
            &&& metas_view(ix.accounts@) == add_liquidity_accounts(
                pool_key@,
                trader@,
                base_mint@,
                base_mint_account_key@,
                quote_mint@,
                quote_mint_account_key@,
            )
            &&& ix.data@ == seq![1u8] + add_liquidity_params_bytes(params)
        },
{
    let program = id();
    let log_authority = match get_log_authority(&program) {
        Some(key) => key,
        None => {
            return None;
        },
    };
    let lp_position_key = match get_lp_position_address(&program, pool_key, trader) {
        Some(found) => found.0,
        None => {
            return None;
        },
    };
    let base_vault_key = match get_vault_address(&program, pool_key, base_mint) {
        Some(found) => found.0,
        None => {
            return None;
        },
    };
    let quote_vault_key = match get_vault_address(&program, pool_key, quote_mint) {
        Some(found) => found.0,
        None => {
            return None;
        },
    };

    let mut accounts: Vec<AccountMeta> = Vec::new();
    accounts.push(AccountMeta::new_readonly(program, false));
    accounts.push(AccountMeta::new_readonly(log_authority, false));
    accounts.push(AccountMeta::new(*pool_key, false));
    accounts.push(AccountMeta::new_readonly(*trader, true));
    accounts.push(AccountMeta::new(lp_position_key, false));
    accounts.push(AccountMeta::new(*base_mint_account_key, false));
    accounts.push(AccountMeta::new(*quote_mint_account_key, false));
    accounts.push(AccountMeta::new(base_vault_key, false));
    accounts.push(AccountMeta::new(quote_vault_key, false));
    accounts.push(AccountMeta::new_readonly(spl_token_program_id(), false));

    let mut data: Vec<u8> = Vec::new();
    data.push(ADD_LIQUIDITY_DISCRIMINATOR);
    params.write_borsh(&mut data);

    proof {
        assert(metas_view(accounts@) =~= add_liquidity_accounts(
            pool_key@,
            trader@,
            base_mint@,
            base_mint_account_key@,
            quote_mint@,
            quote_mint_account_key@,
        ));
        assert(data@ =~= seq![1u8] + add_liquidity_params_bytes(params));
    }
    Some(Instruction { program_id: program, accounts, data })
}

/// The accounts of the instruction that moves a liquidity position.
pub open spec fn transfer_liquidity_accounts(pool_key: Seq<u8>, src: Seq<u8>, dst: Seq<u8>) -> Seq<
    (Seq<u8>, bool, bool),
> {
    seq![
        readonly(program_key(), false),
        readonly(log_authority(program_key()).unwrap()@, false),
        writable(pool_key, false),
        writable(src, true),
        writable(lp_position_address(program_key(), pool_key, src).unwrap().0@, false),
        writable(lp_position_address(program_key(), pool_key, dst).unwrap().0@, false),
    ]
}

/// The instruction that moves `src`'s liquidity position to `dst`.
pub fn transfer_liquidity(pool_key: &Pubkey, src: &Pubkey, dst: &Pubkey) -> (ix: Option<Instruction>)
    ensures
        ix is Some <==> lp_position_found(pool_key@, src@) && lp_position_found(pool_key@, dst@),
        ix matches Some(ix) ==> {
            &&& ix.program_id@ == program_key()
            &&& metas_view(ix.accounts@) == transfer_liquidity_accounts(pool_key@, src@, dst@)
            &&& ix.data@ == seq![9u8]
        },
{
    let program = id();
    let log_authority = match get_log_authority(&program) {
        Some(key) => key,
        None => {
            return None;
        },
    };
    let src_lp_position_key = match get_lp_position_address(&program, pool_key, src) {
        Some(found) => found.0,
        None => {
            return None;
        },
    };
    let dst_lp_position_key = match get_lp_position_address(&program, pool_key, dst) {
        Some(found) => found.0,
        None => {
            return None;
        },
    };

    let mut accounts: Vec<AccountMeta> = Vec::new();
    accounts.push(AccountMeta::new_readonly(program, false));
    accounts.push(AccountMeta::new_readonly(log_authority, false));
    accounts.push(AccountMeta::new(*pool_key, false));
    accounts.push(AccountMeta::new(*src, true));
    accounts.push(AccountMeta::new(src_lp_position_key, false));
    accounts.push(AccountMeta::new(dst_lp_position_key, false));

    let mut data: Vec<u8> = Vec::new();
    data.push(TRANSFER_LIQUIDITY_DISCRIMINATOR);

    proof {
        assert(metas_view(accounts@) =~= transfer_liquidity_accounts(pool_key@, src@, dst@));
        assert(data@ =~= seq![9u8]);
    }
    Some(Instruction { program_id: program, accounts, data })
}

/// The accounts of the instruction that withdraws liquidity.
pub open spec fn remove_liquidity_accounts(
    pool_key: Seq<u8>,
    trader: Seq<u8>,
    base_mint: Seq<u8>,
    quote_mint: Seq<u8>,
    base_account_key: Seq<u8>,
    quote_account_key: Seq<u8>,
) -> Seq<(Seq<u8>, bool, bool)> {
    seq![
        readonly(program_key(), false),
        readonly(log_authority(program_key()).unwrap()@, false),
        writable(pool_key, false),
        readonly(trader, true),
        writable(lp_position_address(program_key(), pool_key, trader).unwrap().0@, false),
        writable(base_account_key, false),
        writable(quote_account_key, false),
        writable(vault_address(program_key(), pool_key, base_mint).unwrap().0@, false),
        writable(vault_address(program_key(), pool_key, quote_mint).unwrap().0@, false),
        readonly(token_program_key(), false),
    ]
}

/// The instruction that withdraws `shares` of `trader`'s liquidity into the
/// given token accounts.
pub fn remove_liquidity(
    pool_key: &Pubkey,
    trader: &Pubkey,
    base_mint: &Pubkey,
    quote_mint: &Pubkey,
    base_account_key: &Pubkey,
    quote_account_key: &Pubkey,
    shares: u64,
) -> (ix: Option<Instruction>)
    ensures
        ix is Some <==> pool_addresses_found(pool_key@, base_mint@, quote_mint@) && lp_position_found(
            pool_key@,
            trader@,
        ),
        ix matches Some(ix) ==> {
            &&& ix.program_id@ == program_key()
            &&& metas_view(ix.accounts@) == remove_liquidity_accounts(
                pool_key@,
                trader@,
                base_mint@,
                quote_mint@,
                base_account_key@,
                quote_account_key@,
            )
            &&& ix.data@ == seq![2u8] + u64_bytes(shares)
        },
{
    let program = id();
    let log_authority = match get_log_authority(&program) {
        Some(key) => key,
        None => {
            return None;
        },
    };
    let lp_position_key = match get_lp_position_address(&program, pool_key, trader) {
        Some(found) => found.0,
        None => {
            return None;
        },
    };
    let base_vault_key = match get_vault_address(&program, pool_key, base_mint) {
        Some(found) => found.0,
        None => {
            return None;
        },
    };
    let quote_vault_key = match get_vault_address(&program, pool_key, quote_mint) {
        Some(found) => found.0,
        None => {
            return None;
        },
    };

    let mut accounts: Vec<AccountMeta> = Vec::new();
    accounts.push(AccountMeta::new_readonly(program, false));
    accounts.push(AccountMeta::new_readonly(log_authority, false));
    accounts.push(AccountMeta::new(*pool_key, false));
    accounts.push(AccountMeta::new_readonly(*trader, true));
    accounts.push(AccountMeta::new(lp_position_key, false));
    accounts.push(AccountMeta::new(*base_account_key, false));
    accounts.push(AccountMeta::new(*quote_account_key, false));
    accounts.push(AccountMeta::new(base_vault_key, false));
    accounts.push(AccountMeta::new(quote_vault_key, false));
    accounts.push(AccountMeta::new_readonly(spl_token_program_id(), false));

    let mut data: Vec<u8> = Vec::new();
    data.push(REMOVE_LIQUIDITY_DISCRIMINATOR);
    append_u64(&mut data, shares);

    proof {
        assert(metas_view(accounts@) =~= remove_liquidity_accounts(
            pool_key@,
            trader@,
            base_mint@,
            quote_mint@,
            base_account_key@,
            quote_account_key@,
        ));
        assert(data@ =~= seq![2u8] + u64_bytes(shares));
    }
    Some(Instruction { program_id: program, accounts, data })
}

/// The accounts of the swap instruction.
pub open spec fn swap_accounts(
    pool_key: Seq<u8>,
    trader: Seq<u8>,
    base_mint: Seq<u8>,
    quote_mint: Seq<u8>,
    base_account_key: Seq<u8>,
    quote_account_key: Seq<u8>,
) -> Seq<(Seq<u8>, bool, bool)> {
    seq![
        readonly(program_key(), false),
        readonly(log_authority(program_key()).unwrap()@, false),
        writable(pool_key, false),
        readonly(trader, true),
        writable(base_account_key, false),
        writable(quote_account_key, false),
        writable(vault_address(program_key(), pool_key, base_mint).unwrap().0@, false),
        writable(vault_address(program_key(), pool_key, quote_mint).unwrap().0@, false),
        readonly(token_program_key(), false),
    ]
}

/// The instruction that swaps between `trader`'s base and quote token
/// accounts.
pub fn swap(
    pool_key: &Pubkey,
    trader: &Pubkey,
    base_mint: &Pubkey,
    quote_mint: &Pubkey,
    base_account_key: &Pubkey,
    quote_account_key: &Pubkey,
    params: SwapParams,
) -> (ix: Option<Instruction>)
    ensures
        ix is Some <==> pool_addresses_found(pool_key@, base_mint@, quote_mint@),
        ix matches Some(ix) ==> {
            &&& ix.program_id@ == program_key()
            &&& metas_view(ix.accounts@) == swap_accounts(
                pool_key@,
                trader@,
                base_mint@,
                quote_mint@,
                base_account_key@,
                quote_account_key@,
            )
            &&& ix.data@ == seq![0u8] + swap_params_bytes(params)
        },
{
    let program = id();
    let log_authority = match get_log_authority(&program) {
        Some(key) => key,
        None => {
            return None;
        },
    };
    let base_vault_key = match get_vault_address(&program, pool_key, base_mint) {
        Some(found) => found.0,
        None => {
            return None;
        },
    };
    let quote_vault_key = match get_vault_address(&program, pool_key, quote_mint) {
        Some(found) => found.0,
        None => {
            return None;
        },
    };

    let mut accounts: Vec<AccountMeta> = Vec::new();
    accounts.push(AccountMeta::new_readonly(program, false));
    accounts.push(AccountMeta::new_readonly(log_authority, false));
    accounts.push(AccountMeta::new(*pool_key, false));
    accounts.push(AccountMeta::new_readonly(*trader, true));
    accounts.push(AccountMeta::new(*base_account_key, false));
    accounts.push(AccountMeta::new(*quote_account_key, false));
    accounts.push(AccountMeta::new(base_vault_key, false));
    accounts.push(AccountMeta::new(quote_vault_key, false));
    accounts.push(AccountMeta::new_readonly(spl_token_program_id(), false));

    let mut data: Vec<u8> = Vec::new();
    data.push(SWAP_DISCRIMINATOR);
    params.write_borsh(&mut data);

    proof {
        assert(metas_view(accounts@) =~= swap_accounts(
            pool_key@,
            trader@,
            base_mint@,
            quote_mint@,
            base_account_key@,
            quote_account_key@,
        ));
        assert(data@ =~= seq![0u8] + swap_params_bytes(params));
    }
    Some(Instruction { program_id: program, accounts, data })
}

// ---------------------------------------------------------------------------
// The pool account's header.
// ---------------------------------------------------------------------------

/// The number of bytes of a `PoolHeader` in the Borsh format.
pub const POOL_HEADER_LEN: usize = 528;

/// The header of a pool account.
#[derive(Debug, Copy, Clone)]
pub struct PoolHeader {
    pub discriminator: [u8; 8],
    pub sequence_number: u64,
    pub base_params: TokenParams,
    pub quote_params: TokenParams,
    pub fee_recipients: ProtocolFeeRecipients,
    pub swap_sequence_number: u64,
    pub padding: [u64; 12],
}

/// One of the two tokens of a pool.
#[derive(Debug, Copy, Clone)]
pub struct TokenParams {
    /// Number of decimals for the token (e.g. 9 for SOL, 6 for USDC).
    pub decimals: u32,
    /// Bump used for generating the PDA for the pool's token vault.
    pub vault_bump: u32,
    /// Pubkey of the token mint.
    pub mint_key: Pubkey,
    /// Pubkey of the token vault.
    pub vault_key: Pubkey,
}

/// A recipient of protocol fees and what it has earned.
#[derive(Debug, Default, Copy, Clone)]
pub struct ProtocolFeeRecipient {
    pub recipient: Pubkey,
    pub shares: u64,
    pub total_accumulated_quote_fees: u64,
    pub collected_quote_fees: u64,
}

/// The protocol fee recipients of a pool.
#[derive(Debug, Default, Copy, Clone)]
pub struct ProtocolFeeRecipients {
    pub recipients: [ProtocolFeeRecipient; 3],
    pub _padding: [u64; 12],
}

/// `a` holds the `n` little-endian `u64`s laid out from `offset` in `s`.
pub open spec fn u64s_at(a: Seq<u64>, s: Seq<u8>, offset: int, n: int) -> bool {
    &&& a.len() == n
    &&& forall|i: int|
        0 <= i < n ==> #[trigger] a[i] == le_value(s.subrange(offset + 8 * i, offset + 8 * i + 8))
}

/// `p` is the `TokenParams` laid out from `offset` in `s` (72 bytes).
pub open spec fn token_params_at(p: TokenParams, s: Seq<u8>, offset: int) -> bool {
    &&& p.decimals == le_value(s.subrange(offset, offset + 4))
    &&& p.vault_bump == le_value(s.subrange(offset + 4, offset + 8))
    &&& p.mint_key@ == s.subrange(offset + 8, offset + 40)
    &&& p.vault_key@ == s.subrange(offset + 40, offset + 72)
}

/// `r` is the `ProtocolFeeRecipient` laid out from `offset` in `s` (56 bytes).
pub open spec fn fee_recipient_at(r: ProtocolFeeRecipient, s: Seq<u8>, offset: int) -> bool {
    &&& r.recipient@ == s.subrange(offset, offset + 32)
    &&& r.shares == le_value(s.subrange(offset + 32, offset + 40))
    &&& r.total_accumulated_quote_fees == le_value(s.subrange(offset + 40, offset + 48))
    &&& r.collected_quote_fees == le_value(s.subrange(offset + 48, offset + 56))
}

/// `r` is the `ProtocolFeeRecipients` laid out from `offset` in `s` (264 bytes).
pub open spec fn fee_recipients_at(r: ProtocolFeeRecipients, s: Seq<u8>, offset: int) -> bool {
    &&& fee_recipient_at(r.recipients[0], s, offset)
    &&& fee_recipient_at(r.recipients[1], s, offset + 56)
    &&& fee_recipient_at(r.recipients[2], s, offset + 112)
    &&& u64s_at(r._padding@, s, offset + 168, 12)
}

/// `h` is the `PoolHeader` laid out at the start of `s` (528 bytes), in the
/// order in which its fields are declared.
pub open spec fn pool_header_at(h: PoolHeader, s: Seq<u8>) -> bool {
    &&& h.discriminator@ == s.subrange(0, 8)
    &&& h.sequence_number == le_value(s.subrange(8, 16))
    &&& token_params_at(h.base_params, s, 16)
    &&& token_params_at(h.quote_params, s, 88)
    &&& fee_recipients_at(h.fee_recipients, s, 160)
    &&& h.swap_sequence_number == le_value(s.subrange(424, 432))
    &&& u64s_at(h.padding@, s, 432, 12)
}

fn read_u64_array(data: &[u8], offset: usize) -> (values: [u64; 12])
    requires
        offset + 96 <= data.len(),
    ensures
        u64s_at(values@, data@, offset as int, 12),
{
    let mut values = [0u64; 12];
    let mut i: usize = 0;
    while i < 12
        invariant
            0 <= i <= 12,
            offset + 96 <= data.len(),
            values@.len() == 12,
            forall|j: int|
                0 <= j < i ==> #[trigger] values@[j] == le_value(
                    data@.subrange(offset + 8 * j, offset + 8 * j + 8),
                ),
        decreases 12 - i,
    {
        values[i] = read_u64_le(data, offset + 8 * i);
        i = i + 1;
    }
    values
}

fn read_8_bytes(data: &[u8], offset: usize) -> (bytes: [u8; 8])
    requires
        offset + 8 <= data.len(),
    ensures
        bytes@ == data@.subrange(offset as int, offset + 8),
{
    let mut bytes = [0u8; 8];
    let mut i: usize = 0;
    while i < 8
        invariant
            0 <= i <= 8,
            offset + 8 <= data.len(),
            forall|j: int| 0 <= j < i ==> bytes@[j] == data@[offset + j],
        decreases 8 - i,
    {
        bytes[i] = data[offset + i];
        i = i + 1;
    }
    proof {
        assert(bytes@ =~= data@.subrange(offset as int, offset + 8));
    }
    bytes
}

impl TokenParams {
    fn read(data: &[u8], offset: usize) -> (params: TokenParams)
        requires
            offset + 72 <= data.len(),
        ensures
            token_params_at(params, data@, offset as int),
    {
        TokenParams {
            decimals: read_u32_le(data, offset),
            vault_bump: read_u32_le(data, offset + 4),
            mint_key: read_key(data, offset + 8),
            vault_key: read_key(data, offset + 40),
        }
    }
}

impl ProtocolFeeRecipient {
    fn read(data: &[u8], offset: usize) -> (recipient: ProtocolFeeRecipient)
        requires
            offset + 56 <= data.len(),
        ensures
            fee_recipient_at(recipient, data@, offset as int),
    {
        ProtocolFeeRecipient {
            recipient: read_key(data, offset),
            shares: read_u64_le(data, offset + 32),
            total_accumulated_quote_fees: read_u64_le(data, offset + 40),
            collected_quote_fees: read_u64_le(data, offset + 48),
        }
    }
}

impl ProtocolFeeRecipients {
    fn read(data: &[u8], offset: usize) -> (recipients: ProtocolFeeRecipients)
        requires
            offset + 264 <= data.len(),
        ensures
            fee_recipients_at(recipients, data@, offset as int),
    {
        let r0 = ProtocolFeeRecipient::read(data, offset);
        let r1 = ProtocolFeeRecipient::read(data, offset + 56);
        let r2 = ProtocolFeeRecipient::read(data, offset + 112);
        ProtocolFeeRecipients { recipients: [r0, r1, r2], _padding: read_u64_array(data, offset + 168) }
    }
}

impl PoolHeader {
    /// Reads the header from the first 528 bytes of a pool account's data,
    /// in the Borsh layout: `None` when there are fewer bytes.
    pub fn read(data: &[u8]) -> (header: Option<PoolHeader>)
        ensures
            header is Some <==> data@.len() >= POOL_HEADER_LEN,
            header matches Some(h) ==> pool_header_at(h, data@),
    {
        if data.len() < POOL_HEADER_LEN {
            return None;
        }
        Some(
            PoolHeader {
                discriminator: read_8_bytes(data, 0),
                sequence_number: read_u64_le(data, 8),
                base_params: TokenParams::read(data, 16),
                quote_params: TokenParams::read(data, 88),
                fee_recipients: ProtocolFeeRecipients::read(data, 160),
                swap_sequence_number: read_u64_le(data, 424),
                padding: read_u64_array(data, 432),
            },
        )
    }
}

// ---------------------------------------------------------------------------
// What each instruction signs with, writes and reads.
// ---------------------------------------------------------------------------

/// The swap: the program and the log authority are read; the pool is written;
/// the trader signs and is only read; the trader's base and quote token
/// accounts, then the vaults of the base mint and of the quote mint, are
/// written; the token program is read.
pub proof fn law_swap_accounts(
    pool: Seq<u8>,
    trader: Seq<u8>,
    base_mint: Seq<u8>,
    quote_mint: Seq<u8>,
    base_account: Seq<u8>,
    quote_account: Seq<u8>,
)
    requires
        program_address(seq![seq![108u8, 111, 103]], program_key()) is Some,
    ensures
        swap_accounts(pool, trader, base_mint, quote_mint, base_account, quote_account) == seq![
            (program_key(), false, false),
            (program_address(seq![seq![108u8, 111, 103]], program_key()).unwrap().0@, false, false),
            (pool, false, true),
            (trader, true, false),
            (base_account, false, true),
            (quote_account, false, true),
            (program_address(seq![seq![118u8, 97, 117, 108, 116], pool, base_mint], program_key()).unwrap().0@, false, true),
            (program_address(seq![seq![118u8, 97, 117, 108, 116], pool, quote_mint], program_key()).unwrap().0@, false, true),
            (token_program_key(), false, false),
        ],
{
    assert(vault_seed() == seq![118u8, 97, 117, 108, 116]);
    assert(log_seed() == seq![108u8, 111, 103]);
}

/// Making a pool: the creator signs and pays (written); the two mints are
/// read; the pool and the two vaults, of the base mint then of the quote
/// mint, are written; the system and token programs are read.
pub proof fn law_initialize_pool_accounts(
    pool: Seq<u8>,
    creator: Seq<u8>,
    base_mint: Seq<u8>,
    quote_mint: Seq<u8>,
)
    requires
        program_address(seq![seq![108u8, 111, 103]], program_key()) is Some,
    ensures
        initialize_pool_accounts(pool, creator, base_mint, quote_mint) == seq![
            (program_key(), false, false),
            (program_address(seq![seq![108u8, 111, 103]], program_key()).unwrap().0@, false, false),
            (pool, false, true),
            (creator, true, true),
            (base_mint, false, false),
            (quote_mint, false, false),
            (program_address(seq![seq![118u8, 97, 117, 108, 116], pool, base_mint], program_key()).unwrap().0@, false, true),
            (program_address(seq![seq![118u8, 97, 117, 108, 116], pool, quote_mint], program_key()).unwrap().0@, false, true),
            (system_program_key(), false, false),
            (token_program_key(), false, false),
        ],
{
    assert(vault_seed() == seq![118u8, 97, 117, 108, 116]);
    assert(log_seed() == seq![108u8, 111, 103]);
}

/// Opening a position: the payer signs and is written; the owner is read; the
/// owner's position address is written.
pub proof fn law_initialize_lp_position_accounts(pool: Seq<u8>, payer: Seq<u8>, owner: Seq<u8>)
    requires
        program_address(seq![seq![108u8, 111, 103]], program_key()) is Some,
    ensures
        initialize_lp_position_accounts(pool, payer, owner) == seq![
            (program_key(), false, false),
            (program_address(seq![seq![108u8, 111, 103]], program_key()).unwrap().0@, false, false),
            (pool, false, true),
            (payer, true, true),
            (owner, false, false),
            (program_address(seq![seq![108u8, 112, 95, 112, 111, 115, 105, 116, 105, 111, 110], pool, owner], program_key()).unwrap().0@, false, true),
            (system_program_key(), false, false),
        ],
{
    assert(lp_position_seed() == seq![108u8, 112, 95, 112, 111, 115, 105, 116, 105, 111, 110]);
    assert(log_seed() == seq![108u8, 111, 103]);
}

/// Depositing and withdrawing: the trader signs and is only read; the
/// trader's position, the trader's base and quote token accounts, and the
/// vaults of the base and the quote mint are written, in that order.
pub proof fn law_liquidity_accounts(
    pool: Seq<u8>,
    trader: Seq<u8>,
    base_mint: Seq<u8>,
    quote_mint: Seq<u8>,
    base_account: Seq<u8>,
    quote_account: Seq<u8>,
)
    requires
        program_address(seq![seq![108u8, 111, 103]], program_key()) is Some,
    ensures
        add_liquidity_accounts(pool, trader, base_mint, base_account, quote_mint, quote_account)
            == seq![
            (program_key(), false, false),
            (program_address(seq![seq![108u8, 111, 103]], program_key()).unwrap().0@, false, false),
            (pool, false, true),
            (trader, true, false),
            (program_address(seq![seq![108u8, 112, 95, 112, 111, 115, 105, 116, 105, 111, 110], pool, trader], program_key()).unwrap().0@, false, true),
            (base_account, false, true),
            (quote_account, false, true),
            (program_address(seq![seq![118u8, 97, 117, 108, 116], pool, base_mint], program_key()).unwrap().0@, false, true),
            (program_address(seq![seq![118u8, 97, 117, 108, 116], pool, quote_mint], program_key()).unwrap().0@, false, true),
            (token_program_key(), false, false),
        ],
        remove_liquidity_accounts(pool, trader, base_mint, quote_mint, base_account, quote_account)
            == add_liquidity_accounts(pool, trader, base_mint, base_account, quote_mint, quote_account),
{
    assert(vault_seed() == seq![118u8, 97, 117, 108, 116]);
    assert(lp_position_seed() == seq![108u8, 112, 95, 112, 111, 115, 105, 116, 105, 111, 110]);
    assert(log_seed() == seq![108u8, 111, 103]);
}

/// Moving a position: the source owner signs and is written; the source's
/// position, then the destination's, are written.
pub proof fn law_transfer_liquidity_accounts(pool: Seq<u8>, src: Seq<u8>, dst: Seq<u8>)
    requires
        program_address(seq![seq![108u8, 111, 103]], program_key()) is Some,
    ensures
        transfer_liquidity_accounts(pool, src, dst) == seq![
            (program_key(), false, false),
            (program_address(seq![seq![108u8, 111, 103]], program_key()).unwrap().0@, false, false),
            (pool, false, true),
            (src, true, true),
            (program_address(seq![seq![108u8, 112, 95, 112, 111, 115, 105, 116, 105, 111, 110], pool, src], program_key()).unwrap().0@, false, true),
            (program_address(seq![seq![108u8, 112, 95, 112, 111, 115, 105, 116, 105, 111, 110], pool, dst], program_key()).unwrap().0@, false, true),
        ],
{
    assert(lp_position_seed() == seq![108u8, 112, 95, 112, 111, 115, 105, 116, 105, 111, 110]);
    assert(log_seed() == seq![108u8, 111, 103]);
}

/// Where each field of a pool header stands in the account's bytes.
pub proof fn law_pool_header_layout(h: PoolHeader, s: Seq<u8>)
    requires
        pool_header_at(h, s),
    ensures
        h.discriminator@ == s.subrange(0, 8),
        h.sequence_number == le_value(s.subrange(8, 16)),
        h.base_params.decimals == le_value(s.subrange(16, 20)),
        h.base_params.vault_bump == le_value(s.subrange(20, 24)),
        h.base_params.mint_key@ == s.subrange(24, 56),
        h.base_params.vault_key@ == s.subrange(56, 88),
        h.quote_params.decimals == le_value(s.subrange(88, 92)),
        h.quote_params.vault_bump == le_value(s.subrange(92, 96)),
        h.quote_params.mint_key@ == s.subrange(96, 128),
        h.quote_params.vault_key@ == s.subrange(128, 160),
        forall|i: int|
            0 <= i < 3 ==> {
                &&& (#[trigger] h.fee_recipients.recipients[i]).recipient@ == s.subrange(
                    160 + 56 * i,
                    192 + 56 * i,
                )
                &&& h.fee_recipients.recipients[i].shares == le_value(
                    s.subrange(192 + 56 * i, 200 + 56 * i),
                )
                &&& h.fee_recipients.recipients[i].total_accumulated_quote_fees == le_value(
                    s.subrange(200 + 56 * i, 208 + 56 * i),
                )
                &&& h.fee_recipients.recipients[i].collected_quote_fees == le_value(
                    s.subrange(208 + 56 * i, 216 + 56 * i),
                )
            },
        forall|i: int|
            0 <= i < 12 ==> #[trigger] h.fee_recipients._padding@[i] == le_value(
                s.subrange(328 + 8 * i, 336 + 8 * i),
            ),
        h.swap_sequence_number == le_value(s.subrange(424, 432)),
        forall|i: int|
            0 <= i < 12 ==> #[trigger] h.padding@[i] == le_value(s.subrange(432 + 8 * i, 440 + 8 * i)),
{
    assert forall|i: int| 0 <= i < 3 implies {
        &&& (#[trigger] h.fee_recipients.recipients[i]).recipient@ == s.subrange(
            160 + 56 * i,
            192 + 56 * i,
        )
        &&& h.fee_recipients.recipients[i].shares == le_value(s.subrange(192 + 56 * i, 200 + 56 * i))
        &&& h.fee_recipients.recipients[i].total_accumulated_quote_fees == le_value(
            s.subrange(200 + 56 * i, 208 + 56 * i),
        )
        &&& h.fee_recipients.recipients[i].collected_quote_fees == le_value(
            s.subrange(208 + 56 * i, 216 + 56 * i),
        )
    } by {
        if i == 0 {
        } else if i == 1 {
        } else {
        }
    }
    assert forall|i: int| 0 <= i < 12 implies #[trigger] h.fee_recipients._padding@[i] == le_value(
        s.subrange(328 + 8 * i, 336 + 8 * i),
    ) by {
        assert(h.fee_recipients._padding@[i] == le_value(
            s.subrange(160 + 168 + 8 * i, 160 + 168 + 8 * i + 8),
        ));
    }
    assert forall|i: int| 0 <= i < 12 implies #[trigger] h.padding@[i] == le_value(
        s.subrange(432 + 8 * i, 440 + 8 * i),
    ) by {
        assert(h.padding@[i] == le_value(s.subrange(432 + 8 * i, 432 + 8 * i + 8)));
    }
}

} // verus!
