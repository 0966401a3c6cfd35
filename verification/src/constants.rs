//! Seeds, program ids and the pool owner's address.

use vstd::prelude::*;

verus! {

/// Seed of the program's token vault account.
pub const VAULT_SEED: &'static str = "vault";

/// First seed of a staker's `StakeInfo` account.
pub const STAKE_INFO_SEED: &'static str = "stake_info";

/// Seed that names pool accounts.
pub const POOL_INFO_SEED: &'static str = "pool_info";

/// First seed of a staker's token account held by the program.
pub const TOKEN_SEED: &'static str = "token";

/// Seed of the pool program's totals account.
pub const TOTAL_STATS_SEED: &'static str = "total_stats";

/// First seed of a user's position in a pool.
pub const USER_INFO_SEED: &'static str = "user_info";

/// Id of the staking program (`5uZhUDD6LCJ2jBawQenSPAzu67gAZwdFhq9wx1QUT6LL`).
pub const STAKING_PROGRAM_ID: [u8; 32] = [
    72, 229, 235, 214, 1, 84, 138, 211, 125, 136, 198, 191, 134, 123, 70, 161, 159, 212, 228, 168,
    4, 15, 141, 171, 243, 208, 254, 183, 16, 47, 7, 181,
];

/// Id of the pool program (`7hLwfa4J2tiBGUcgb54qvxqPDeZuK9pxFn5UpShfhVSe`).
pub const POOL_PROGRAM_ID: [u8; 32] = [
    99, 123, 231, 41, 140, 128, 45, 86, 64, 92, 118, 185, 217, 108, 79, 247, 23, 172, 70, 30, 22,
    32, 114, 82, 1, 32, 161, 169, 60, 232, 94, 31,
];

/// Id of the token program (`TokenkegQfeZyiNwAJbNbGKPFXCWuBvf9Ss623VQ5DA`).
pub const TOKEN_PROGRAM_ID: [u8; 32] = [
    6, 221, 246, 225, 215, 101, 161, 147, 217, 203, 225, 70, 206, 235, 121, 172, 28, 180, 133, 237,
    95, 91, 55, 145, 58, 140, 245, 133, 126, 255, 0, 169,
];

/// Id of the associated token account program
/// (`ATokenGPvbdGVxr1b2hvZbsiqW5xWH25efTNsLJA8knL`).
pub const ASSOCIATED_TOKEN_PROGRAM_ID: [u8; 32] = [
    140, 151, 37, 143, 78, 36, 137, 241, 187, 61, 16, 41, 20, 142, 13, 131, 11, 90, 19, 153, 218,
    255, 16, 132, 4, 142, 123, 216, 219, 233, 248, 89,
];

/// The only signer allowed to initialize the pool program and create pools
/// (`4bRYs66kGxujekaRGHJjvjP4g7SCou28FZJ8LPDsyDnR`).
pub const OWNER_ADDRESS: [u8; 32] = [
    53, 100, 144, 252, 100, 78, 27, 42, 235, 103, 72, 37, 81, 154, 169, 0, 24, 30, 118, 158, 171,
    133, 108, 138, 180, 49, 58, 170, 243, 14, 227, 90,
];

} // verus!
