use solana_program::pubkey::Pubkey;
use staking_program::address::{
    is_owner, named_pool_address, pool_address, pool_stake_account_address, total_stats_address,
    user_info_address, stake_account_address, stake_account_signer_seeds,
    stake_info_address, user_token_account_address, vault_address, vault_signer_seeds,
};
use staking_program::constants::{
    ASSOCIATED_TOKEN_PROGRAM_ID, TOKEN_PROGRAM_ID,
    OWNER_ADDRESS, POOL_INFO_SEED, POOL_PROGRAM_ID, STAKE_INFO_SEED, STAKING_PROGRAM_ID, TOKEN_SEED,
    VAULT_SEED,
};
use std::str::FromStr;

fn key(text: &str) -> [u8; 32] {
    Pubkey::from_str(text).unwrap().to_bytes()
}

fn find(seeds: &[&[u8]], program: &[u8; 32]) -> ([u8; 32], u8) {
    let (address, bump) = Pubkey::find_program_address(seeds, &Pubkey::new_from_array(*program));
    (address.to_bytes(), bump)
}

#[test]
fn constants_match_their_text() {
    assert_eq!(OWNER_ADDRESS, key("4bRYs66kGxujekaRGHJjvjP4g7SCou28FZJ8LPDsyDnR"));
    assert_eq!(STAKING_PROGRAM_ID, key("5uZhUDD6LCJ2jBawQenSPAzu67gAZwdFhq9wx1QUT6LL"));
    assert_eq!(POOL_PROGRAM_ID, key("7hLwfa4J2tiBGUcgb54qvxqPDeZuK9pxFn5UpShfhVSe"));
    assert_eq!(VAULT_SEED, "vault");
    assert_eq!(STAKE_INFO_SEED, "stake_info");
    assert_eq!(POOL_INFO_SEED, "pool_info");
    assert_eq!(TOKEN_SEED, "token");
}

#[test]
fn owner_check() {
    assert!(is_owner(&OWNER_ADDRESS));
    let mut other = OWNER_ADDRESS;
    other[31] ^= 1;
    assert!(!is_owner(&other));
    assert!(!is_owner(&[0u8; 32]));
}

#[test]
fn vault_address_is_derived_from_its_seed() {
    let found = vault_address(&STAKING_PROGRAM_ID).unwrap();
    assert_eq!(found, find(&[b"vault"], &STAKING_PROGRAM_ID));
    assert_ne!(found.0, STAKING_PROGRAM_ID);
}

#[test]
fn staker_addresses() {
    let staker = key("4bRYs66kGxujekaRGHJjvjP4g7SCou28FZJ8LPDsyDnR");
    let info = stake_info_address(&STAKING_PROGRAM_ID, &staker).unwrap();
    let account = stake_account_address(&STAKING_PROGRAM_ID, &staker).unwrap();
    assert_eq!(info, find(&[b"stake_info", &staker], &STAKING_PROGRAM_ID));
    assert_eq!(account, find(&[b"token", &staker], &STAKING_PROGRAM_ID));
    assert_ne!(info.0, account.0);
}

#[test]
fn pool_addresses() {
    let named = named_pool_address(&STAKING_PROGRAM_ID, "gold").unwrap();
    assert_eq!(named, find(&[b"gold", b"pool_info"], &STAKING_PROGRAM_ID));
    let pool = pool_address(&POOL_PROGRAM_ID, 12, 3).unwrap();
    assert_eq!(pool, find(&[b"pool_info", &[12], &[3]], &POOL_PROGRAM_ID));
    assert_ne!(pool_address(&POOL_PROGRAM_ID, 12, 4).unwrap().0, pool.0);
}

#[test]
fn pool_id_too_long_has_no_address() {
    let id = "an identifier far longer than a seed may be";
    assert!(named_pool_address(&STAKING_PROGRAM_ID, id).is_none());
    let at_limit = "abcdefghijklmnopqrstuvwxyz012345";
    assert_eq!(at_limit.len(), 32);
    assert!(named_pool_address(&STAKING_PROGRAM_ID, at_limit).is_some());
}

#[test]
fn signer_seeds() {
    assert_eq!(vault_signer_seeds(254), vec![b"vault".to_vec(), vec![254]]);
    let staker = [7u8; 32];
    assert_eq!(stake_account_signer_seeds(&staker, 9), vec![b"token".to_vec(), staker.to_vec(), vec![9]]);
}

#[test]
fn signer_seeds_sign_for_the_derived_address() {
    let staker = [3u8; 32];
    let (address, bump) = stake_account_address(&STAKING_PROGRAM_ID, &staker).unwrap();
    let seeds = stake_account_signer_seeds(&staker, bump);
    let slices: Vec<&[u8]> = seeds.iter().map(|s| s.as_slice()).collect();
    let created =
        Pubkey::create_program_address(&slices, &Pubkey::new_from_array(STAKING_PROGRAM_ID)).unwrap();
    assert_eq!(created.to_bytes(), address);
}

#[test]
fn user_token_account_is_associated_account() {
    let staker = [5u8; 32];
    let mint = [6u8; 32];
    let (address, _) = user_token_account_address(&staker, &mint).unwrap();
    let expected = anchor_spl::associated_token::get_associated_token_address(
        &Pubkey::new_from_array(staker),
        &Pubkey::new_from_array(mint),
    );
    assert_eq!(address, expected.to_bytes());
    assert_ne!(address, staker);
    assert_ne!(address, mint);
}

#[test]
fn token_program_ids() {
    assert_eq!(TOKEN_PROGRAM_ID, anchor_spl::token::ID.to_bytes());
    assert_eq!(ASSOCIATED_TOKEN_PROGRAM_ID, anchor_spl::associated_token::ID.to_bytes());
}

#[test]
fn pool_program_addresses() {
    let user = [1u8; 32];
    let pool = pool_address(&POOL_PROGRAM_ID, 10, 12).unwrap().0;
    assert_eq!(total_stats_address(&POOL_PROGRAM_ID).unwrap(), find(&[b"total_stats"], &POOL_PROGRAM_ID));
    assert_eq!(
        user_info_address(&POOL_PROGRAM_ID, &user, &pool).unwrap(),
        find(&[b"user_info", &user, &pool], &POOL_PROGRAM_ID)
    );
    assert_eq!(
        pool_stake_account_address(&POOL_PROGRAM_ID, &user, &pool).unwrap(),
        find(&[b"token", &user, &pool], &POOL_PROGRAM_ID)
    );
}
