//! Account addresses: the program's own address, the addresses of the
//! programs it calls, and the addresses it derives.
use vstd::prelude::*;

verus! {

/// An account address: 32 bytes.
pub type Pubkey = [u8; 32];

/// The address of the Plasma program, `srAMMzfVHVAtgSJc8iH6CfKzuWuUTzLHVCE81QU1rgi`.
pub open spec fn program_key() -> Seq<u8> {
    seq![
        13u8, 6, 160, 146, 10, 228, 52, 37, 187, 203, 193, 227, 142, 69, 91, 255,
        226, 135, 246, 50, 221, 239, 177, 193, 236, 190, 203, 243, 95, 113, 243, 115,
    ]
}

/// The address of the SPL token program, `TokenkegQfeZyiNwAJbNbGKPFXCWuBvf9Ss623VQ5DA`.
pub open spec fn token_program_key() -> Seq<u8> {
    seq![
        6u8, 221, 246, 225, 215, 101, 161, 147, 217, 203, 225, 70, 206, 235, 121, 172,
        28, 180, 133, 237, 95, 91, 55, 145, 58, 140, 245, 133, 126, 255, 0, 169,
    ]
}

/// The address of the system program, `11111111111111111111111111111111`:
/// 32 zero bytes.
pub open spec fn system_program_key() -> Seq<u8> {
    Seq::new(32, |i: int| 0u8)
}

/// The address of the clock sysvar, `SysvarC1ock11111111111111111111111111111111`.
pub open spec fn clock_sysvar_key() -> Seq<u8> {
    seq![
        6u8, 167, 213, 23, 24, 199, 116, 201, 40, 86, 99, 152, 105, 29, 94, 182,
        139, 94, 184, 163, 155, 75, 109, 92, 115, 85, 91, 33, 0, 0, 0, 0,
    ]
}

/// The address of the Plasma program.
pub const ID: Pubkey = [
    13, 6, 160, 146, 10, 228, 52, 37, 187, 203, 193, 227, 142, 69, 91, 255, 226, 135, 246, 50, 221,
    239, 177, 193, 236, 190, 203, 243, 95, 113, 243, 115,
];

/// The address of the Plasma program.
pub fn id() -> (key: Pubkey)
    ensures
        key@ == program_key(),
{
    let key = ID;
    proof {
        assert(key@ =~= program_key());
    }
    key
}

/// `spl_token_interface::ID`, read as bytes: the crate declares it from the
/// base58 text `TokenkegQfeZyiNwAJbNbGKPFXCWuBvf9Ss623VQ5DA`, whose bytes
/// `token_program_key` lists.
#[verifier::external_body]
pub(crate) fn spl_token_program_id() -> (key: Pubkey)
    ensures
        key@ == token_program_key(),
{
    spl_token_interface::ID.to_bytes()
}

/// `solana_sdk_ids::system_program::ID`, read as bytes: the crate declares it
/// from the base58 text `11111111111111111111111111111111`, 32 zero bytes.
#[verifier::external_body]
pub(crate) fn system_program_id() -> (key: Pubkey)
    ensures
        key@ == system_program_key(),
{
    solana_sdk_ids::system_program::ID.to_bytes()
}

/// `solana_sdk_ids::sysvar::clock::ID`, read as bytes: the crate declares it
/// from the base58 text `SysvarC1ock11111111111111111111111111111111`, whose
/// bytes `clock_sysvar_key` lists.
#[verifier::external_body]
pub(crate) fn clock_sysvar_id() -> (key: Pubkey)
    ensures
        key@ == clock_sysvar_key(),
{
    solana_sdk_ids::sysvar::clock::ID.to_bytes()
}

/// Whether two addresses are the same.
pub fn same_key(a: &Pubkey, b: &Pubkey) -> (same: bool)
    ensures
        same == (a@ == b@),
{
    let mut i: usize = 0;
    while i < 32
        invariant
            0 <= i <= 32,
            forall|j: int| 0 <= j < i ==> a@[j] == b@[j],
        decreases 32 - i,
    {
        if a[i] != b[i] {
            return false;
        }
        i = i + 1;
    }
    proof {
        assert(a@ =~= b@);
    }
    true
}

/// The program-derived address, and its bump seed, that
/// `solana_pubkey::Pubkey::try_find_program_address` finds for `seeds` under
/// the program `program_id`, or `None` where it finds none.
pub uninterp spec fn program_address(seeds: Seq<Seq<u8>>, program_id: Seq<u8>) -> Option<
    (Pubkey, u8),
>;

/// The views of a list of seeds.
pub open spec fn seeds_view(seeds: Seq<Vec<u8>>) -> Seq<Seq<u8>> {
    seeds.map_values(|s: Vec<u8>| s@)
}

/// `solana_pubkey::Pubkey::try_find_program_address`.  The search hashes the
/// seeds with a bump seed from 255 down and keeps the first hash that is not a
/// curve point; it gives `None` for 16 seeds or more, for a seed longer than 32
/// bytes, or when no bump seed gives an address off the curve.  Its result is a
/// function of the seeds and the program address alone, named by
/// `program_address`; which inputs give `None` is not stated here.
#[verifier::external_body]
pub(crate) fn try_find_program_address(seeds: &Vec<Vec<u8>>, program_id: &Pubkey) -> (found:
    Option<(Pubkey, u8)>)
    ensures
        found == program_address(seeds_view(seeds@), program_id@),
{
    let seed_slices: Vec<&[u8]> = seeds.iter().map(|s| s.as_slice()).collect();
    match solana_pubkey::Pubkey::try_find_program_address(
        &seed_slices,
        &solana_pubkey::Pubkey::new_from_array(*program_id),
    ) {
        Some((address, bump)) => Some((address.to_bytes(), bump)),
        None => None,
    }
}

/// The seed text `vault`.
pub open spec fn vault_seed() -> Seq<u8> {
    seq![118u8, 97, 117, 108, 116]
}

/// The seed text `lp_position`.
pub open spec fn lp_position_seed() -> Seq<u8> {
    seq![108u8, 112, 95, 112, 111, 115, 105, 116, 105, 111, 110]
}

/// The seed text `log`.
pub open spec fn log_seed() -> Seq<u8> {
    seq![108u8, 111, 103]
}

/// The 32 bytes of an address, as a vector.
pub(crate) fn key_to_vec(key: &Pubkey) -> (bytes: Vec<u8>)
    ensures
        bytes@ == key@,
{
    let mut bytes: Vec<u8> = Vec::new();
    crate::plasma::wire::append_key(&mut bytes, key);
    bytes
}

} // verus!
