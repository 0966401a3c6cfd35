//! Where the programs' accounts live: the seeds of each program-derived
//! account, the addresses derived from them, the staker's token account,
//! and the signer seeds with which the program authorizes transfers out of
//! its own accounts.

use vstd::prelude::*;
use vstd::string::StringSliceAdditionalSpecFns;
use crate::constants::{
    ASSOCIATED_TOKEN_PROGRAM_ID, OWNER_ADDRESS, POOL_INFO_SEED, STAKE_INFO_SEED, TOKEN_PROGRAM_ID,
    TOKEN_SEED, TOTAL_STATS_SEED, USER_INFO_SEED, VAULT_SEED,
};
use solana_program::pubkey::Pubkey;

verus! {

/// The most seeds a program address may be derived from, the bump seed
/// included.
pub const MAX_SEEDS: usize = 16;

/// The most bytes a single seed may hold.
pub const MAX_SEED_LEN: usize = 32;

/// The program-derived address, with its bump seed, that
/// `Pubkey::try_find_program_address` finds for `seeds` under `program_id`.
pub uninterp spec fn program_address(seeds: Seq<Seq<u8>>, program_id: Seq<u8>) -> Option<
    (Seq<u8>, u8),
>;

/// Seeds that the address search refuses: too many of them, counting the
/// bump seed it appends, or one that is too long.
pub open spec fn seeds_too_large(seeds: Seq<Seq<u8>>) -> bool {
    ||| seeds.len() >= MAX_SEEDS
    ||| exists|i: int| 0 <= i < seeds.len() && #[trigger] seeds[i].len() > MAX_SEED_LEN
}

/// Calls `solana_program::pubkey::Pubkey::try_find_program_address`.
///
/// Claims that the result is the named function `program_address` of the
/// seeds and the program id, and that it is `None` when the seeds are too
/// many or one is too long (the source returns early on both). Which
/// address is found, and that one is found at all otherwise, is left
/// unsaid: it rests on a hash.
#[verifier::external_body]
fn try_find_program_address(seeds: &Vec<Vec<u8>>, program_id: &[u8; 32]) -> (found: Option<
    ([u8; 32], u8),
>)
    ensures
        found.deep_view() == program_address(seeds.deep_view(), program_id@),
        seeds_too_large(seeds.deep_view()) ==> found is None,
{
    let seed_slices: Vec<&[u8]> = seeds.iter().map(|seed| seed.as_slice()).collect();
    let program = Pubkey::new_from_array(*program_id);
    match Pubkey::try_find_program_address(&seed_slices, &program) {
        Some((address, bump)) => Some((address.to_bytes(), bump)),
        None => None,
    }
}

/// The bytes of a seed given as text.
fn seed_bytes(seed: &str) -> (bytes: Vec<u8>)
    ensures
        bytes@ == seed.spec_bytes(),
{
    vstd::slice::slice_to_vec(seed.as_bytes())
}

/// A seed of one byte.
fn single_byte(byte: u8) -> (bytes: Vec<u8>)
    ensures
        bytes@ == seq![byte],
{
    let mut bytes: Vec<u8> = Vec::new();
    bytes.push(byte);
    bytes
}

/// The bytes of an address.
fn address_bytes(address: &[u8; 32]) -> (bytes: Vec<u8>)
    ensures
        bytes@ == address@,
{
    vstd::slice::slice_to_vec(vstd::array::array_as_slice(address))
}

/// The seeds a list of byte vectors stands for.
proof fn lemma_seeds_view(seeds: &Vec<Vec<u8>>)
    ensures
        seeds.deep_view() =~= Seq::new(seeds@.len(), |i: int| seeds@[i]@),
{
    assert forall|i: int| 0 <= i < seeds@.len() implies #[trigger] seeds@[i].deep_view()
        =~= seeds@[i]@ by {}
}

/// Seeds of the program's token vault.
pub open spec fn vault_seeds() -> Seq<Seq<u8>> {
    seq![VAULT_SEED.spec_bytes()]
}

/// Seeds of a staker's `StakeInfo` account.
pub open spec fn stake_info_seeds(staker: Seq<u8>) -> Seq<Seq<u8>> {
    seq![STAKE_INFO_SEED.spec_bytes(), staker]
}

/// Seeds of the token account that holds a staker's locked tokens.
pub open spec fn stake_account_seeds(staker: Seq<u8>) -> Seq<Seq<u8>> {
    seq![TOKEN_SEED.spec_bytes(), staker]
}

/// Seeds of the pool program's totals account.
pub open spec fn total_stats_seeds() -> Seq<Seq<u8>> {
    seq![TOTAL_STATS_SEED.spec_bytes()]
}

/// Seeds of a user's position in a pool.
pub open spec fn user_info_seeds(user: Seq<u8>, pool: Seq<u8>) -> Seq<Seq<u8>> {
    seq![USER_INFO_SEED.spec_bytes(), user, pool]
}

/// Seeds of the token account that holds a user's tokens staked in a pool.
pub open spec fn pool_stake_account_seeds(user: Seq<u8>, pool: Seq<u8>) -> Seq<Seq<u8>> {
    seq![TOKEN_SEED.spec_bytes(), user, pool]
}

/// Seeds of a wallet's associated token account for a mint.
pub open spec fn associated_token_seeds(wallet: Seq<u8>, mint: Seq<u8>) -> Seq<Seq<u8>> {
    seq![wallet, TOKEN_PROGRAM_ID@, mint]
}

/// Seeds of a pool of the staking program, named by its id.
pub open spec fn named_pool_seeds(id: Seq<u8>) -> Seq<Seq<u8>> {
    seq![id, POOL_INFO_SEED.spec_bytes()]
}

/// Seeds of a pool of the pool program, named by its yield and duration.
pub open spec fn pool_seeds(apy: u8, duration: u8) -> Seq<Seq<u8>> {
    seq![POOL_INFO_SEED.spec_bytes(), seq![apy], seq![duration]]
}

/// The seeds with which the program signs for the vault.
pub fn vault_signer_seeds(bump: u8) -> (seeds: Vec<Vec<u8>>)
    ensures
        seeds.deep_view() == vault_seeds().push(seq![bump]),
{
    let mut seeds: Vec<Vec<u8>> = Vec::new();
    seeds.push(seed_bytes(VAULT_SEED));
    seeds.push(single_byte(bump));
    proof {
        lemma_seeds_view(&seeds);
        assert(seeds.deep_view() =~= vault_seeds().push(seq![bump]));
    }
    seeds
}

/// The seeds with which the program signs for a staker's stake account.
pub fn stake_account_signer_seeds(staker: &[u8; 32], bump: u8) -> (seeds: Vec<Vec<u8>>)
    ensures
        seeds.deep_view() == stake_account_seeds(staker@).push(seq![bump]),
{
    let mut seeds: Vec<Vec<u8>> = Vec::new();
    seeds.push(seed_bytes(TOKEN_SEED));
    seeds.push(address_bytes(staker));
    seeds.push(single_byte(bump));
    proof {
        lemma_seeds_view(&seeds);
        assert(seeds.deep_view() =~= stake_account_seeds(staker@).push(seq![bump]));
    }
    seeds
}

/// Address and bump seed of the staking program's token vault.
pub fn vault_address(program_id: &[u8; 32]) -> (found: Option<([u8; 32], u8)>)
    ensures
        found.deep_view() == program_address(vault_seeds(), program_id@),
{
    let mut seeds: Vec<Vec<u8>> = Vec::new();
    seeds.push(seed_bytes(VAULT_SEED));
    proof {
        lemma_seeds_view(&seeds);
        assert(seeds.deep_view() =~= vault_seeds());
    }
    try_find_program_address(&seeds, program_id)
}

/// Address and bump seed of a staker's `StakeInfo` account.
pub fn stake_info_address(program_id: &[u8; 32], staker: &[u8; 32]) -> (found: Option<
    ([u8; 32], u8),
>)
    ensures
        found.deep_view() == program_address(stake_info_seeds(staker@), program_id@),
{
    let mut seeds: Vec<Vec<u8>> = Vec::new();
    seeds.push(seed_bytes(STAKE_INFO_SEED));
    seeds.push(address_bytes(staker));
    proof {
        lemma_seeds_view(&seeds);
        assert(seeds.deep_view() =~= stake_info_seeds(staker@));
    }
    try_find_program_address(&seeds, program_id)
}

/// Address and bump seed of a staker's stake account.
pub fn stake_account_address(program_id: &[u8; 32], staker: &[u8; 32]) -> (found: Option<
    ([u8; 32], u8),
>)
    ensures
        found.deep_view() == program_address(stake_account_seeds(staker@), program_id@),
{
    let mut seeds: Vec<Vec<u8>> = Vec::new();
    seeds.push(seed_bytes(TOKEN_SEED));
    seeds.push(address_bytes(staker));
    proof {
        lemma_seeds_view(&seeds);
        assert(seeds.deep_view() =~= stake_account_seeds(staker@));
    }
    try_find_program_address(&seeds, program_id)
}

/// Address and bump seed of the staking program's pool named `id`. An id
/// longer than a seed may be has no address.
pub fn named_pool_address(program_id: &[u8; 32], id: &str) -> (found: Option<([u8; 32], u8)>)
    ensures
        found.deep_view() == program_address(named_pool_seeds(id.spec_bytes()), program_id@),
        id.spec_bytes().len() > MAX_SEED_LEN ==> found is None,
{
    let mut seeds: Vec<Vec<u8>> = Vec::new();
    seeds.push(seed_bytes(id));
    seeds.push(seed_bytes(POOL_INFO_SEED));
    proof {
        lemma_seeds_view(&seeds);
        assert(seeds.deep_view() =~= named_pool_seeds(id.spec_bytes()));
        assert(seeds.deep_view()[0].len() == id.spec_bytes().len());
    }
    try_find_program_address(&seeds, program_id)
}

/// Address and bump seed of the pool program's pool with yield `apy` and
/// duration `duration` months.
pub fn pool_address(program_id: &[u8; 32], apy: u8, duration: u8) -> (found: Option<
    ([u8; 32], u8),
>)
    ensures
        found.deep_view() == program_address(pool_seeds(apy, duration), program_id@),
{
    let mut seeds: Vec<Vec<u8>> = Vec::new();
    seeds.push(seed_bytes(POOL_INFO_SEED));
    seeds.push(single_byte(apy));
    seeds.push(single_byte(duration));
    proof {
        lemma_seeds_view(&seeds);
        assert(seeds.deep_view() =~= pool_seeds(apy, duration));
    }
    try_find_program_address(&seeds, program_id)
}

/// Address and bump seed of the pool program's totals account.
pub fn total_stats_address(program_id: &[u8; 32]) -> (found: Option<([u8; 32], u8)>)
    ensures
        found.deep_view() == program_address(total_stats_seeds(), program_id@),
{
    let mut seeds: Vec<Vec<u8>> = Vec::new();
    seeds.push(seed_bytes(TOTAL_STATS_SEED));
    proof {
        lemma_seeds_view(&seeds);
        assert(seeds.deep_view() =~= total_stats_seeds());
    }
    try_find_program_address(&seeds, program_id)
}

/// Address and bump seed of a user's position in the pool at `pool`.
pub fn user_info_address(program_id: &[u8; 32], user: &[u8; 32], pool: &[u8; 32]) -> (found:
    Option<([u8; 32], u8)>)
    ensures
        found.deep_view() == program_address(user_info_seeds(user@, pool@), program_id@),
{
    let mut seeds: Vec<Vec<u8>> = Vec::new();
    seeds.push(seed_bytes(USER_INFO_SEED));
    seeds.push(address_bytes(user));
    seeds.push(address_bytes(pool));
    proof {
        lemma_seeds_view(&seeds);
        assert(seeds.deep_view() =~= user_info_seeds(user@, pool@));
    }
    try_find_program_address(&seeds, program_id)
}

/// Address and bump seed of the token account that holds a user's tokens
/// staked in the pool at `pool`.
pub fn pool_stake_account_address(program_id: &[u8; 32], user: &[u8; 32], pool: &[u8; 32]) -> (found:
    Option<([u8; 32], u8)>)
    ensures
        found.deep_view() == program_address(pool_stake_account_seeds(user@, pool@), program_id@),
{
    let mut seeds: Vec<Vec<u8>> = Vec::new();
    seeds.push(seed_bytes(TOKEN_SEED));
    seeds.push(address_bytes(user));
    seeds.push(address_bytes(pool));
    proof {
        lemma_seeds_view(&seeds);
        assert(seeds.deep_view() =~= pool_stake_account_seeds(user@, pool@));
    }
    try_find_program_address(&seeds, program_id)
}

/// Address and bump seed of the associated token account that must hold a
/// staker's tokens of `mint`: the token program's account derived from the
/// staker, the token program id and the mint under the associated token
/// program.
pub fn user_token_account_address(staker: &[u8; 32], mint: &[u8; 32]) -> (found: Option<
    ([u8; 32], u8),
>)
    ensures
        found.deep_view() == program_address(
            associated_token_seeds(staker@, mint@),
            ASSOCIATED_TOKEN_PROGRAM_ID@,
        ),
{
    let mut seeds: Vec<Vec<u8>> = Vec::new();
    seeds.push(address_bytes(staker));
    seeds.push(address_bytes(&TOKEN_PROGRAM_ID));
    seeds.push(address_bytes(mint));
    proof {
        lemma_seeds_view(&seeds);
        assert(seeds.deep_view() =~= associated_token_seeds(staker@, mint@));
    }
    try_find_program_address(&seeds, &ASSOCIATED_TOKEN_PROGRAM_ID)
}

/// Whether `signer` is the owner, the only one allowed to initialize the
/// pool program and to create pools.
pub fn is_owner(signer: &[u8; 32]) -> (owner: bool)
    ensures
        owner == (signer@ == OWNER_ADDRESS@),
{
    let owner_address = OWNER_ADDRESS;
    let mut i: usize = 0;
    while i < 32
        invariant
            i <= 32,
            owner_address@ == OWNER_ADDRESS@,
            forall|j: int| 0 <= j < i ==> signer@[j] == owner_address@[j],
        decreases 32 - i,
    {
        if signer[i] != owner_address[i] {
            return false;
        }
        i = i + 1;
    }
    proof {
        assert(signer@ =~= OWNER_ADDRESS@);
    }
    true
}

/// The seeds of each account are its fixed name followed by the whole of
/// each varying part, in order, each one seed of its own: so accounts of
/// different stakers, users, pools, ids or mints get different seeds.
pub proof fn lemma_seeds_hold_their_parts(
    staker: Seq<u8>,
    other_staker: Seq<u8>,
    pool: Seq<u8>,
    other_pool: Seq<u8>,
    id: Seq<u8>,
    other_id: Seq<u8>,
    mint: Seq<u8>,
    other_mint: Seq<u8>,
    apy: u8,
    duration: u8,
    other_apy: u8,
    other_duration: u8,
)
    ensures
        vault_seeds().len() == 1 && vault_seeds()[0] == VAULT_SEED.spec_bytes(),
        total_stats_seeds().len() == 1 && total_stats_seeds()[0] == TOTAL_STATS_SEED.spec_bytes(),
        stake_info_seeds(staker).len() == 2 && stake_info_seeds(staker)[0]
            == STAKE_INFO_SEED.spec_bytes() && stake_info_seeds(staker)[1] == staker,
        stake_account_seeds(staker).len() == 2 && stake_account_seeds(staker)[0]
            == TOKEN_SEED.spec_bytes() && stake_account_seeds(staker)[1] == staker,
        named_pool_seeds(id).len() == 2 && named_pool_seeds(id)[0] == id && named_pool_seeds(id)[1]
            == POOL_INFO_SEED.spec_bytes(),
        pool_seeds(apy, duration).len() == 3 && pool_seeds(apy, duration)[0]
            == POOL_INFO_SEED.spec_bytes() && pool_seeds(apy, duration)[1] == seq![apy]
            && pool_seeds(apy, duration)[2] == seq![duration],
        user_info_seeds(staker, pool).len() == 3 && user_info_seeds(staker, pool)[0]
            == USER_INFO_SEED.spec_bytes() && user_info_seeds(staker, pool)[1] == staker
            && user_info_seeds(staker, pool)[2] == pool,
        pool_stake_account_seeds(staker, pool).len() == 3 && pool_stake_account_seeds(staker, pool)[0]
            == TOKEN_SEED.spec_bytes() && pool_stake_account_seeds(staker, pool)[1] == staker
            && pool_stake_account_seeds(staker, pool)[2] == pool,
        associated_token_seeds(staker, mint).len() == 3 && associated_token_seeds(staker, mint)[0]
            == staker && associated_token_seeds(staker, mint)[1] == TOKEN_PROGRAM_ID@
            && associated_token_seeds(staker, mint)[2] == mint,
        staker != other_staker ==> stake_info_seeds(staker) != stake_info_seeds(other_staker)
            && stake_account_seeds(staker) != stake_account_seeds(other_staker),
        id != other_id ==> named_pool_seeds(id) != named_pool_seeds(other_id),
        (apy, duration) != (other_apy, other_duration) ==> pool_seeds(apy, duration) != pool_seeds(
            other_apy,
            other_duration,
        ),
        (staker, pool) != (other_staker, other_pool) ==> user_info_seeds(staker, pool)
            != user_info_seeds(other_staker, other_pool) && pool_stake_account_seeds(staker, pool)
            != pool_stake_account_seeds(other_staker, other_pool),
        (staker, mint) != (other_staker, other_mint) ==> associated_token_seeds(staker, mint)
            != associated_token_seeds(other_staker, other_mint),
{
    if staker != other_staker {
        assert(stake_info_seeds(staker)[1] != stake_info_seeds(other_staker)[1]);
        assert(stake_account_seeds(staker)[1] != stake_account_seeds(other_staker)[1]);
    }
    if id != other_id {
        assert(named_pool_seeds(id)[0] != named_pool_seeds(other_id)[0]);
    }
    if (apy, duration) != (other_apy, other_duration) {
        if apy != other_apy {
            assert(pool_seeds(apy, duration)[1][0] != pool_seeds(other_apy, other_duration)[1][0]);
        } else {
            assert(pool_seeds(apy, duration)[2][0] != pool_seeds(other_apy, other_duration)[2][0]);
        }
    }
    if (staker, pool) != (other_staker, other_pool) {
        if staker != other_staker {
            assert(user_info_seeds(staker, pool)[1] != user_info_seeds(other_staker, other_pool)[1]);
            assert(pool_stake_account_seeds(staker, pool)[1] != pool_stake_account_seeds(
                other_staker,
                other_pool,
            )[1]);
        } else {
            assert(user_info_seeds(staker, pool)[2] != user_info_seeds(other_staker, other_pool)[2]);
            assert(pool_stake_account_seeds(staker, pool)[2] != pool_stake_account_seeds(
                other_staker,
                other_pool,
            )[2]);
        }
    }
    if (staker, mint) != (other_staker, other_mint) {
        if staker != other_staker {
            assert(associated_token_seeds(staker, mint)[0] != associated_token_seeds(
                other_staker,
                other_mint,
            )[0]);
        } else {
            assert(associated_token_seeds(staker, mint)[2] != associated_token_seeds(
                other_staker,
                other_mint,
            )[2]);
        }
    }
}

} // verus!
