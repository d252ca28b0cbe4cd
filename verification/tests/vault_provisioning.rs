//! Checks of custody-vault provisioning against the real
//! associated-token-account derivation.

use anchor_lang::prelude::Pubkey;
use anchor_spl::associated_token::get_associated_token_address;
use bawls_staking::error::StakingError;
use bawls_staking::state::{initialize, Config};
use bawls_staking::vault::{create_vault, vault_provisioning, VaultAction};

fn key(b: u8) -> [u8; 32] {
    [b; 32]
}

fn fresh_config() -> Config {
    let authority = key(1);
    let (config, _pool, _event) = initialize(authority, authority, key(2), key(3), 254, 253, 0)
        .expect("authority initializes itself");
    config
}

fn derived(config_key: &[u8; 32], mint: &[u8; 32]) -> [u8; 32] {
    get_associated_token_address(
        &Pubkey::new_from_array(*config_key),
        &Pubkey::new_from_array(*mint),
    )
    .to_bytes()
}

fn token_program() -> [u8; 32] {
    anchor_spl::token::ID.to_bytes()
}

fn system_program() -> [u8; 32] {
    anchor_lang::system_program::ID.to_bytes()
}

#[test]
fn create_vault_accepts_the_derived_address() {
    let config = fresh_config();
    let config_key = key(40);
    let vault = derived(&config_key, &config.token_mint);

    // Not owned by the token program yet: the account must be created.
    let r = create_vault(
        &config,
        &config_key,
        &config.token_mint,
        &vault,
        &system_program(),
        &token_program(),
    );
    assert_eq!(r, Ok(VaultAction::CreateAccount));
}

#[test]
fn create_vault_twice_is_idempotent() {
    let config = fresh_config();
    let config_key = key(40);
    let vault = derived(&config_key, &config.token_mint);

    let first = create_vault(
        &config,
        &config_key,
        &config.token_mint,
        &vault,
        &system_program(),
        &token_program(),
    );
    assert_eq!(first, Ok(VaultAction::CreateAccount));

    // After the runtime created the account, the token program owns it:
    // the same call now accepts the existing account instead of asking
    // for a second one.
    let second = create_vault(
        &config,
        &config_key,
        &config.token_mint,
        &vault,
        &token_program(),
        &token_program(),
    );
    assert_eq!(second, Ok(VaultAction::AlreadyExists));
}

#[test]
fn create_vault_refuses_a_foreign_address() {
    let config = fresh_config();
    let config_key = key(40);

    // An address that is not the derived one is refused, even a
    // plausible-looking one derived for another owner.
    let other = derived(&key(41), &config.token_mint);
    let r = create_vault(
        &config,
        &config_key,
        &config.token_mint,
        &other,
        &system_program(),
        &token_program(),
    );
    assert_eq!(r, Err(StakingError::VaultOwnershipMismatch));

    let r = create_vault(
        &config,
        &config_key,
        &config.token_mint,
        &config_key,
        &system_program(),
        &token_program(),
    );
    assert_eq!(r, Err(StakingError::VaultOwnershipMismatch));
}

#[test]
fn create_vault_checks_the_version_tag() {
    let mut config = fresh_config();
    config.version = 2;
    let config_key = key(40);
    let vault = derived(&config_key, &config.token_mint);
    let r = create_vault(
        &config,
        &config_key,
        &config.token_mint,
        &vault,
        &system_program(),
        &token_program(),
    );
    assert_eq!(r, Err(StakingError::VersionMismatch));
}

#[test]
fn vault_provisioning_decides_on_the_expected_address() {
    let expected = key(50);
    let token = token_program();
    let system = system_program();
    assert_eq!(
        vault_provisioning(&expected, &expected, &system, &token),
        Ok(VaultAction::CreateAccount)
    );
    assert_eq!(
        vault_provisioning(&expected, &expected, &token, &token),
        Ok(VaultAction::AlreadyExists)
    );
    assert_eq!(
        vault_provisioning(&expected, &key(51), &system, &token),
        Err(StakingError::VaultOwnershipMismatch)
    );
}
