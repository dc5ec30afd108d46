//! A client of the Plasma AMM program: the pool's state as a router reads it,
//! the accounts it needs, and the swap it sends.
use vstd::prelude::*;

pub mod plasma;

use crate::plasma::keys::{
    Pubkey,
    id,
    program_key,
    program_address,
    clock_sysvar_id,
    clock_sysvar_key,
    same_key,
};
use crate::plasma::plasma_utils::{
    Instruction,
    PoolHeader,
    POOL_HEADER_LEN,
    POOL_LEN,
    Side,
    SwapParams,
    SwapType,
    metas_view,
    pool_header_at,
    swap,
    swap_accounts,
    pool_addresses_found,
    swap_params_bytes,
};
use crate::plasma::wire::le_value;

verus! {

/// The size of an SPL token account.
const TOKEN_ACCOUNT_LEN: usize = 165;

/// Where the amount stands in an SPL token account.
const AMOUNT_OFFSET: usize = 64;

/// The size of the clock sysvar in the bincode format.
pub const CLOCK_LEN: usize = 40;

/// Why a token account could not be read.
#[derive(Debug, Clone, Copy, PartialEq, Eq)]
pub enum TokenAccountError {
    /// The data is shorter than a token account.
    InvalidLength { len: usize },
}

/// Why a pool account could not be read.
#[derive(Debug, Clone, Copy, PartialEq, Eq)]
pub enum PoolAccountError {
    /// The data is not exactly one pool account (`POOL_LEN` bytes).
    InvalidLength { len: usize },
}

/// Why an update of the pool's state failed.
#[derive(Debug, Clone, Copy, PartialEq, Eq)]
pub enum UpdateError {
    /// The account with this address was not supplied.
    AccountNotFound { key: Pubkey },
    /// A vault could not be read as a token account.
    TokenAccount(TokenAccountError),
    /// The pool account could not be read.
    PoolAccount(PoolAccountError),
    /// The clock sysvar could not be read.
    Clock,
}

/// What reading a token account gives: its amount, the little-endian `u64` at
/// bytes 64..72, or an error when the data is shorter than 165 bytes.
pub open spec fn token_amount_result(data: Seq<u8>) -> Result<u64, TokenAccountError> {
    if data.len() < 165 {
        Err(TokenAccountError::InvalidLength { len: data.len() as usize })
    } else {
        Ok(le_value(data.subrange(64, 72)) as u64)
    }
}

/// The amount of tokens held by an SPL token account, read from its data.
pub fn token_amount(data: &[u8]) -> (amount: Result<u64, TokenAccountError>)
    ensures
        amount == token_amount_result(data@),
        amount is Ok <==> data@.len() >= 165,
        amount matches Ok(v) ==> v == le_value(data@.subrange(64, 72)),
{
    if data.len() < TOKEN_ACCOUNT_LEN {
        return Err(TokenAccountError::InvalidLength { len: data.len() });
    }
    let value = crate::plasma::wire::read_u64_le(data, AMOUNT_OFFSET);
    Ok(value)
}

/// `bincode::deserialize::<solana_clock::Clock>`, keeping the slot.  The clock
/// is five 8-byte integers, the slot first; bincode's default options read
/// them little-endian and accept trailing bytes, and fail on fewer than 40
/// bytes.
#[verifier::external_body]
fn deserialize_clock_slot(data: &[u8]) -> (slot: Option<u64>)
    ensures
        slot is Some <==> data@.len() >= 40,
        slot matches Some(s) ==> s == le_value(data@.subrange(0, 8)),
{
    match bincode::deserialize::<solana_clock::Clock>(data) {
        Ok(clock) => Some(clock.slot),
        Err(_) => None,
    }
}

/// The number of bytes of the pool's AMM state, which follows its header in
/// a pool account.
pub const POOL_AMM_STATE_LEN: usize = 96;

/// A pool account: its header, read field by field, and the bytes of the
/// pool's AMM state, kept as they are.
#[derive(Debug, Copy, Clone)]
pub struct PoolAccount {
    pub header: PoolHeader,
    pub amm: [u8; 96],
}

/// `a` is the pool account that the bytes `s` hold: its header laid out from
/// the start, its AMM state the bytes after the header.
pub open spec fn pool_account_at(a: PoolAccount, s: Seq<u8>) -> bool {
    &&& pool_header_at(a.header, s)
    &&& a.amm@ == s.subrange(POOL_HEADER_LEN as int, POOL_LEN as int)
}

fn read_amm_state(data: &[u8]) -> (state: [u8; 96])
    requires
        data.len() == POOL_LEN,
    ensures
        state@ == data@.subrange(POOL_HEADER_LEN as int, POOL_LEN as int),
{
    let mut state = [0u8; 96];
    let mut i: usize = 0;
    while i < POOL_AMM_STATE_LEN
        invariant
            0 <= i <= POOL_AMM_STATE_LEN,
            data.len() == POOL_LEN,
            forall|j: int| 0 <= j < i ==> state@[j] == data@[POOL_HEADER_LEN + j],
        decreases POOL_AMM_STATE_LEN - i,
    {
        state[i] = data[POOL_HEADER_LEN + i];
        i = i + 1;
    }
    proof {
        assert(state@ =~= data@.subrange(POOL_HEADER_LEN as int, POOL_LEN as int));
    }
    state
}

impl PoolAccount {
    /// Reads a pool account from its data, which must be exactly one pool
    /// account of `POOL_LEN` bytes.
    pub fn try_from_slice(data: &[u8]) -> (account: Result<PoolAccount, PoolAccountError>)
        ensures
            account is Ok <==> data@.len() == POOL_LEN,
            account matches Ok(a) ==> pool_account_at(a, data@),
            account matches Err(e) ==> e == (PoolAccountError::InvalidLength {
                len: data@.len() as usize,
            }),
    {
        if data.len() as u64 != POOL_LEN {
            return Err(PoolAccountError::InvalidLength { len: data.len() });
        }
        match PoolHeader::read(data) {
            Some(header) => Ok(PoolAccount { header, amm: read_amm_state(data) }),
            None => Err(PoolAccountError::InvalidLength { len: data.len() }),
        }
    }
}

/// A Plasma pool as a router sees it: the pool account, the amounts in its
/// two vaults, and the slot of the last update.
#[derive(Clone)]
pub struct PlasmaAmm {
    pub pool_address: Pubkey,
    pub plasma_amm: PoolAccount,
    pub base_vault_amount: u64,
    pub quote_vault_amount: u64,
    pub slot: u64,
}

/// The base mint of a pool.
pub open spec fn base_mint(amm: PlasmaAmm) -> Seq<u8> {
    amm.plasma_amm.header.base_params.mint_key@
}

/// The quote mint of a pool.
pub open spec fn quote_mint(amm: PlasmaAmm) -> Seq<u8> {
    amm.plasma_amm.header.quote_params.mint_key@
}

/// The side of a swap that pays in `source_mint`: `Buy` when it pays in the
/// quote mint, `Sell` otherwise.
pub open spec fn swap_side(amm: PlasmaAmm, source_mint: Seq<u8>) -> Side {
    if source_mint == quote_mint(amm) {
        Side::Buy
    } else {
        Side::Sell
    }
}

/// The trader's base and quote token accounts of a swap that pays in
/// `source_mint`: the source account is the base account when it pays in the
/// base mint, otherwise the destination account is.
pub open spec fn user_token_accounts(
    amm: PlasmaAmm,
    source_mint: Seq<u8>,
    source_token_account: Seq<u8>,
    destination_token_account: Seq<u8>,
) -> (Seq<u8>, Seq<u8>) {
    if source_mint == base_mint(amm) {
        (source_token_account, destination_token_account)
    } else {
        (destination_token_account, source_token_account)
    }
}

/// The bytes of an account that may be missing.
pub open spec fn data_view(data: Option<&[u8]>) -> Option<Seq<u8>> {
    match data {
        Some(d) => Some(d@),
        None => None,
    }
}

/// What an update from the given accounts does: `post` is the state after it
/// and `result` what it returns, when `pre` is the state before it.  The vaults
/// are read first, and their amounts stored together; then the pool account;
/// then the clock.  A failure stops the update there: what was stored before
/// it stays.
pub open spec fn update_outcome(
    pre: PlasmaAmm,
    base_vault: Option<Seq<u8>>,
    quote_vault: Option<Seq<u8>>,
    pool: Option<Seq<u8>>,
    clock: Option<Seq<u8>>,
    post: PlasmaAmm,
    result: Result<(), UpdateError>,
) -> bool {
    match base_vault {
        None => {
            &&& result == Err::<(), UpdateError>(
                UpdateError::AccountNotFound { key: pre.plasma_amm.header.base_params.vault_key },
            )
            &&& post == pre
        },
        Some(b) => match token_amount_result(b) {
            Err(e) => result == Err::<(), UpdateError>(UpdateError::TokenAccount(e)) && post == pre,
            Ok(base_amount) => match quote_vault {
                None => {
                    &&& result == Err::<(), UpdateError>(
                        UpdateError::AccountNotFound {
                            key: pre.plasma_amm.header.quote_params.vault_key,
                        },
                    )
                    &&& post == pre
                },
                Some(q) => match token_amount_result(q) {
                    Err(e) => result == Err::<(), UpdateError>(UpdateError::TokenAccount(e)) && post
                        == pre,
                    Ok(quote_amount) => {
                        &&& post.pool_address == pre.pool_address
                        &&& post.base_vault_amount == base_amount
                        &&& post.quote_vault_amount == quote_amount
                        &&& pool_update_outcome(pre, pool, clock, post, result)
                    },
                },
            },
        },
    }
}

/// What an update does once both vaults are read: reads the pool account,
/// then the clock.
pub open spec fn pool_update_outcome(
    pre: PlasmaAmm,
    pool: Option<Seq<u8>>,
    clock: Option<Seq<u8>>,
    post: PlasmaAmm,
    result: Result<(), UpdateError>,
) -> bool {
    match pool {
        None => {
            &&& result == Err::<(), UpdateError>(
                UpdateError::AccountNotFound { key: pre.pool_address },
            )
            &&& post.plasma_amm == pre.plasma_amm
            &&& post.slot == pre.slot
        },
        Some(p) => if p.len() != POOL_LEN {
            &&& result == Err::<(), UpdateError>(
                UpdateError::PoolAccount(PoolAccountError::InvalidLength { len: p.len() as usize }),
            )
            &&& post.plasma_amm == pre.plasma_amm
            &&& post.slot == pre.slot
        } else {
            &&& pool_account_at(post.plasma_amm, p)
            &&& match clock {
                None => {
                    &&& result matches Err(UpdateError::AccountNotFound { key }) && key@
                        == clock_sysvar_key()
                    &&& post.slot == pre.slot
                },
                Some(c) => if c.len() < CLOCK_LEN {
                    result == Err::<(), UpdateError>(UpdateError::Clock) && post.slot == pre.slot
                } else {
                    result == Ok::<(), UpdateError>(()) && post.slot == le_value(c.subrange(0, 8))
                },
            }
        },
    }
}

impl PlasmaAmm {
    /// Reads a pool from its account and starts it with empty vaults at `slot`.
    pub fn from_keyed_account(key: Pubkey, data: &[u8], slot: u64) -> (amm: Result<
        PlasmaAmm,
        PoolAccountError,
    >)
        ensures
            amm is Ok <==> data@.len() == POOL_LEN,
            amm matches Ok(a) ==> {
                &&& a.pool_address == key
                &&& pool_account_at(a.plasma_amm, data@)
                &&& a.base_vault_amount == 0
                &&& a.quote_vault_amount == 0
                &&& a.slot == slot
            },
            amm matches Err(e) ==> e == (PoolAccountError::InvalidLength {
                len: data@.len() as usize,
            }),
    {
        let pool_account = PoolAccount::try_from_slice(data)?;
        Ok(
            PlasmaAmm {
                pool_address: key,
                plasma_amm: pool_account,
                base_vault_amount: 0,
                quote_vault_amount: 0,
                slot,
            },
        )
    }

    /// The name of the exchange.
    pub fn label(&self) -> (label: String)
        ensures
            label@ == seq!['P', 'l', 'a', 's', 'm', 'a'],
    {
        let label = "Plasma".to_owned();
        proof {
            reveal_strlit("Plasma");
        }
        label
    }

    /// The address of the Plasma program.
    pub fn program_id(&self) -> (key: Pubkey)
        ensures
            key@ == program_key(),
    {
        id()
    }

    /// The address of the pool account.
    pub fn key(&self) -> (key: Pubkey)
        ensures
            key == self.pool_address,
    {
        self.pool_address
    }

    /// The two mints that the pool trades: base, then quote.
    pub fn get_reserve_mints(&self) -> (mints: Vec<Pubkey>)
        ensures
            mints@ == seq![
                self.plasma_amm.header.base_params.mint_key,
                self.plasma_amm.header.quote_params.mint_key,
            ],
    {
        let mut mints: Vec<Pubkey> = Vec::new();
        mints.push(self.plasma_amm.header.base_params.mint_key);
        mints.push(self.plasma_amm.header.quote_params.mint_key);
        proof {
            assert(mints@ =~= seq![
                self.plasma_amm.header.base_params.mint_key,
                self.plasma_amm.header.quote_params.mint_key,
            ]);
        }
        mints
    }

    /// The accounts that `update` reads: the pool, its two vaults, and the
    /// clock sysvar.
    pub fn get_accounts_to_update(&self) -> (keys: Vec<Pubkey>)
        ensures
            keys@.len() == 4,
            keys@[0] == self.pool_address,
            keys@[1] == self.plasma_amm.header.base_params.vault_key,
            keys@[2] == self.plasma_amm.header.quote_params.vault_key,
            keys@[3]@ == clock_sysvar_key(),
    {
        let mut keys: Vec<Pubkey> = Vec::new();
        keys.push(self.pool_address);
        keys.push(self.plasma_amm.header.base_params.vault_key);
        keys.push(self.plasma_amm.header.quote_params.vault_key);
        keys.push(clock_sysvar_id());
        keys
    }

    /// The number of accounts that a swap on this pool uses.
    pub fn get_accounts_len(&self) -> (len: usize)
        ensures
            len == 9,
    {
        9
    }

    /// Whether a quote for `input_mint` buys base tokens with quote tokens.
    pub fn is_quote_to_base(&self, input_mint: &Pubkey) -> (buys_base: bool)
        ensures
            buys_base == (input_mint@ == self.plasma_amm.header.quote_params.mint_key@),
    {
        same_key(input_mint, &self.plasma_amm.header.quote_params.mint_key)
    }

    /// The amount out of a quote for `input_mint`, picked from the two amounts
    /// that a simulated swap transfers: the base amount when the quote buys
    /// base tokens, the quote amount otherwise.
    pub fn quote_out_amount(
        &self,
        input_mint: &Pubkey,
        base_amount_to_transfer: u64,
        quote_amount_to_transfer: u64,
    ) -> (out_amount: u64)
        ensures
            out_amount == if input_mint@ == self.plasma_amm.header.quote_params.mint_key@ {
                base_amount_to_transfer
            } else {
                quote_amount_to_transfer
            },
    {
        if self.is_quote_to_base(input_mint) {
            base_amount_to_transfer
        } else {
            quote_amount_to_transfer
        }
    }

    /// Refreshes the state from the accounts that `get_accounts_to_update`
    /// names, each `None` when it was not found.  The vaults are read first and
    /// their amounts stored together; then the pool account; then the clock.  A
    /// failure stops the update there and keeps what was stored before it.
    pub fn update(
        &mut self,
        base_vault_data: Option<&[u8]>,
        quote_vault_data: Option<&[u8]>,
        pool_data: Option<&[u8]>,
        clock_data: Option<&[u8]>,
    ) -> (result: Result<(), UpdateError>)
        ensures
            update_outcome(
                *old(self),
                data_view(base_vault_data),
                data_view(quote_vault_data),
                data_view(pool_data),
                data_view(clock_data),
                *final(self),
                result,
            ),
            // The update succeeds exactly when all four accounts are there and
            // readable.
            result is Ok <==> {
                &&& base_vault_data is Some && base_vault_data.unwrap()@.len() >= 165
                &&& quote_vault_data is Some && quote_vault_data.unwrap()@.len() >= 165
                &&& pool_data is Some && pool_data.unwrap()@.len() == POOL_LEN
                &&& clock_data is Some && clock_data.unwrap()@.len() >= 40
            },
            // A vault that is missing or unreadable changes nothing.
            (base_vault_data is None || base_vault_data.unwrap()@.len() < 165
                || quote_vault_data is None || quote_vault_data.unwrap()@.len() < 165) ==> (*final(self)
                == *old(self)),
            // Once both vaults are read, their amounts are stored.
            (base_vault_data is Some && base_vault_data.unwrap()@.len() >= 165
                && quote_vault_data is Some && quote_vault_data.unwrap()@.len() >= 165) ==> {
                &&& final(self).base_vault_amount == le_value(
                    base_vault_data.unwrap()@.subrange(64, 72),
                )
                &&& final(self).quote_vault_amount == le_value(
                    quote_vault_data.unwrap()@.subrange(64, 72),
                )
            },
            // Once the pool account is read, the whole stored pool account is the
            // one it holds: its header and its AMM state.
            (base_vault_data is Some && base_vault_data.unwrap()@.len() >= 165
                && quote_vault_data is Some && quote_vault_data.unwrap()@.len() >= 165
                && pool_data is Some && pool_data.unwrap()@.len() == POOL_LEN) ==> {
                &&& final(self).plasma_amm.amm@ == pool_data.unwrap()@.subrange(528, 624)
                &&& final(self).plasma_amm.header.base_params.mint_key@
                    == pool_data.unwrap()@.subrange(24, 56)
                &&& final(self).plasma_amm.header.base_params.vault_key@
                    == pool_data.unwrap()@.subrange(56, 88)
                &&& final(self).plasma_amm.header.quote_params.mint_key@
                    == pool_data.unwrap()@.subrange(96, 128)
                &&& final(self).plasma_amm.header.quote_params.vault_key@
                    == pool_data.unwrap()@.subrange(128, 160)
                &&& pool_header_at(final(self).plasma_amm.header, pool_data.unwrap()@)
            },
            // A successful update stores the clock's slot.
            result is Ok ==> final(self).slot == le_value(clock_data.unwrap()@.subrange(0, 8)),
            final(self).pool_address == old(self).pool_address,
    {
        let base_vault_key = self.plasma_amm.header.base_params.vault_key;
        let base_vault_account = match base_vault_data {
            Some(d) => d,
            None => {
                return Err(UpdateError::AccountNotFound { key: base_vault_key });
            },
        };
        let base_vault_amount = match token_amount(base_vault_account) {
            Ok(a) => a,
            Err(e) => {
                return Err(UpdateError::TokenAccount(e));
            },
        };

        let quote_vault_key = self.plasma_amm.header.quote_params.vault_key;
        let quote_vault_account = match quote_vault_data {
            Some(d) => d,
            None => {
                return Err(UpdateError::AccountNotFound { key: quote_vault_key });
            },
        };
        let quote_vault_amount = match token_amount(quote_vault_account) {
            Ok(a) => a,
            Err(e) => {
                return Err(UpdateError::TokenAccount(e));
            },
        };

        self.base_vault_amount = base_vault_amount;
        self.quote_vault_amount = quote_vault_amount;

        let plasma_amm_data = match pool_data {
            Some(d) => d,
            None => {
                return Err(UpdateError::AccountNotFound { key: self.pool_address });
            },
        };
        let plasma_amm = match PoolAccount::try_from_slice(plasma_amm_data) {
            Ok(a) => a,
            Err(e) => {
                return Err(UpdateError::PoolAccount(e));
            },
        };
        self.plasma_amm = plasma_amm;

        let clock_account = match clock_data {
            Some(d) => d,
            None => {
                return Err(UpdateError::AccountNotFound { key: clock_sysvar_id() });
            },
        };
        let slot = match deserialize_clock_slot(clock_account) {
            Some(s) => s,
            None => {
                return Err(UpdateError::Clock);
            },
        };
        self.slot = slot;
        Ok(())
    }

    /// The swap instruction for a router's exact-in swap of `in_amount` of
    /// `source_mint` for at least `out_amount` of the other mint, signed by
    /// `token_transfer_authority`.  A router takes its accounts.  `None` when
    /// the pool's vault addresses or the log authority are not found.
    pub fn get_swap_and_account_metas(
        &self,
        in_amount: u64,
        out_amount: u64,
        source_mint: &Pubkey,
        source_token_account: &Pubkey,
        destination_token_account: &Pubkey,
        token_transfer_authority: &Pubkey,
    ) -> (ix: Option<Instruction>)
        ensures
            ix is Some <==> pool_addresses_found(
                self.pool_address@,
                self.plasma_amm.header.base_params.mint_key@,
                self.plasma_amm.header.quote_params.mint_key@,
            ),
            ix matches Some(ix) ==> ix.program_id@ == program_key(),
            ix matches Some(ix) ==> metas_view(ix.accounts@) == swap_accounts(
                self.pool_address@,
                token_transfer_authority@,
                self.plasma_amm.header.base_params.mint_key@,
                self.plasma_amm.header.quote_params.mint_key@,
                user_token_accounts(
                    *self,
                    source_mint@,
                    source_token_account@,
                    destination_token_account@,
                ).0,
                user_token_accounts(
                    *self,
                    source_mint@,
                    source_token_account@,
                    destination_token_account@,
                ).1,
            ),
            ix matches Some(ix) ==> ix.data@ == seq![0u8] + swap_params_bytes(
                SwapParams {
                    side: swap_side(*self, source_mint@),
                    swap_type: SwapType::ExactIn { amount_in: in_amount, min_amount_out: out_amount },
                },
            ),
            // Account by account: the trader signs; the source account is the
            // base account when the swap pays in the base mint; accounts 6 and 7
            // are the vaults of the base mint and of the quote mint.
            ix matches Some(ix) ==> {
                &&& ix.accounts@.len() == 9
                &&& ix.accounts@[3].pubkey@ == token_transfer_authority@
                &&& ix.accounts@[3].is_signer
                &&& ix.accounts@[4].pubkey@ == (if source_mint@
                    == self.plasma_amm.header.base_params.mint_key@ {
                    source_token_account@
                } else {
                    destination_token_account@
                })
                &&& ix.accounts@[5].pubkey@ == (if source_mint@
                    == self.plasma_amm.header.base_params.mint_key@ {
                    destination_token_account@
                } else {
                    source_token_account@
                })
                &&& ix.accounts@[6].pubkey@ == program_address(
                    seq![seq![118u8, 97, 117, 108, 116], self.pool_address@, self.plasma_amm.header.base_params.mint_key@],
                    program_key(),
                ).unwrap().0@
                &&& ix.accounts@[7].pubkey@ == program_address(
                    seq![seq![118u8, 97, 117, 108, 116], self.pool_address@, self.plasma_amm.header.quote_params.mint_key@],
                    program_key(),
                ).unwrap().0@
                &&& ix.data@[1] == (if source_mint@ == self.plasma_amm.header.quote_params.mint_key@ {
                    0u8
                } else {
                    1u8
                })
            },
    {
        let (user_base_ata, user_quote_ata) = if same_key(
            source_mint,
            &self.plasma_amm.header.base_params.mint_key,
        ) {
            (source_token_account, destination_token_account)
        } else {
            (destination_token_account, source_token_account)
        };

        let side = if same_key(source_mint, &self.plasma_amm.header.quote_params.mint_key) {
            Side::Buy
        } else {
            Side::Sell
        };

        let swap_instruction_data = SwapParams {
            side,
            swap_type: SwapType::ExactIn { amount_in: in_amount, min_amount_out: out_amount },
        };

        let ix = swap(
            &self.pool_address,
            token_transfer_authority,
            &self.plasma_amm.header.base_params.mint_key,
            &self.plasma_amm.header.quote_params.mint_key,
            user_base_ata,
            user_quote_ata,
            swap_instruction_data,
        );
        proof {
            if ix is Some {
                let i = ix.unwrap();
                let metas = metas_view(i.accounts@);
                assert(metas.len() == i.accounts@.len());
                assert(metas[3] == i.accounts@[3]@);
                assert(metas[4] == i.accounts@[4]@);
                assert(metas[5] == i.accounts@[5]@);
                assert(metas[6] == i.accounts@[6]@);
                assert(metas[7] == i.accounts@[7]@);
                assert(i.data@[1] == swap_params_bytes(swap_instruction_data)[0]);
            }
        }
        ix
    }
}

/// The direction of a quote and the side of the swap that carries it out
/// agree: a quote that pays in the quote mint buys base tokens, and its swap
/// is a `Buy`; any other is a `Sell`.
pub proof fn law_quote_direction_is_swap_side(amm: PlasmaAmm, input_mint: Pubkey)
    ensures
        (input_mint@ == quote_mint(amm)) == (swap_side(amm, input_mint@) == Side::Buy),
{
}

/// A swap on a pool uses as many accounts as `get_accounts_len` says.
pub proof fn law_swap_account_count(
    pool_key: Seq<u8>,
    trader: Seq<u8>,
    base: Seq<u8>,
    quote: Seq<u8>,
    base_account: Seq<u8>,
    quote_account: Seq<u8>,
)
    ensures
        swap_accounts(pool_key, trader, base, quote, base_account, quote_account).len() == 9,
{
}

} // verus!
