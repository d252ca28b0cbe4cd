//! Custody vault provisioning. The vault is a token account at a
//! deterministic address derived from the configuration record and the
//! token mint, owned by the program rather than by any private key.
//! Provisioning verifies the supplied address against that derivation
//! and asks the runtime to create the account only if it does not exist
//! yet, so a repeated call is a no-op rather than an error.

use vstd::prelude::*;
use crate::error::StakingError;
use crate::state::{keys_equal, AccountKey, Config, EXPECTED_VERSION};

verus! {

broadcast use vstd::array::group_array_axioms;

/// The custody address that the runtime's deterministic derivation
/// yields for a wallet and a mint.
pub uninterp spec fn derived_vault_key(owner: Seq<u8>, mint: Seq<u8>) -> Seq<u8>;

/// Relies on `anchor_spl::associated_token::get_associated_token_address`
/// for the associated-token-account derivation: the resulting address is
/// a function of the owner and mint addresses alone.
#[verifier::external_body]
fn derive_vault_address(owner: &AccountKey, mint: &AccountKey) -> (r: AccountKey)
    ensures
        r@ == derived_vault_key(owner@, mint@),
{
    anchor_spl::associated_token::get_associated_token_address(
        &anchor_lang::prelude::Pubkey::new_from_array(*owner),
        &anchor_lang::prelude::Pubkey::new_from_array(*mint),
    ).to_bytes()
}

/// What the runtime must do about the custody account after a
/// successful provisioning call.
#[derive(Clone, Copy, Debug, PartialEq, Eq, Structural)]
pub enum VaultAction {
    /// The custody account does not exist yet: create it.
    CreateAccount,
    /// The custody account already exists: leave it alone.
    AlreadyExists,
}

/// Decides what to do about a supplied vault account, given the expected
/// derived address: refuse an address that does not match, create the
/// account when no token account owns that address yet (the account's
/// owning program is not the token program), and otherwise accept the
/// existing account as is.
pub fn vault_provisioning(
    expected_vault: &AccountKey,
    vault: &AccountKey,
    vault_owner_program: &AccountKey,
    token_program: &AccountKey,
) -> (r: Result<VaultAction, StakingError>)
    ensures
        *vault != *expected_vault ==> r == Err::<VaultAction, StakingError>(
            StakingError::VaultOwnershipMismatch,
        ),
        *vault == *expected_vault && *vault_owner_program != *token_program ==> r == Ok::<
            VaultAction,
            StakingError,
        >(VaultAction::CreateAccount),
        *vault == *expected_vault && *vault_owner_program == *token_program ==> r == Ok::<
            VaultAction,
            StakingError,
        >(VaultAction::AlreadyExists),
{
    if !keys_equal(vault, expected_vault) {
        return Err(StakingError::VaultOwnershipMismatch);
    }
    if !keys_equal(vault_owner_program, token_program) {
        Ok(VaultAction::CreateAccount)
    } else {
        Ok(VaultAction::AlreadyExists)
    }
}

/// The provisioning transition over the derived custody address: the
/// version check, then the address check, then the create-or-accept
/// decision on whether a token account already owns the address.
pub open spec fn create_vault_transition(
    cfg: Config,
    config_key: AccountKey,
    token_mint: AccountKey,
    vault: AccountKey,
    vault_owner_program: AccountKey,
    token_program: AccountKey,
) -> Result<VaultAction, StakingError> {
    if cfg.version != EXPECTED_VERSION {
        Err(StakingError::VersionMismatch)
    } else if vault@ != derived_vault_key(config_key@, token_mint@) {
        Err(StakingError::VaultOwnershipMismatch)
    } else if vault_owner_program != token_program {
        Ok(VaultAction::CreateAccount)
    } else {
        Ok(VaultAction::AlreadyExists)
    }
}

/// Provisions the custody vault for `(config_key, token_mint)`: checks
/// the supplied `vault` address against the deterministic derivation and
/// tells the runtime whether the account still has to be created.
/// `vault_owner_program` is the program currently owning the supplied
/// account, and `token_program` the token program's identity; the two
/// are equal exactly when the custody account already exists.
pub fn create_vault(
    cfg: &Config,
    config_key: &AccountKey,
    token_mint: &AccountKey,
    vault: &AccountKey,
    vault_owner_program: &AccountKey,
    token_program: &AccountKey,
) -> (r: Result<VaultAction, StakingError>)
    ensures
        r == create_vault_transition(
            *cfg,
            *config_key,
            *token_mint,
            *vault,
            *vault_owner_program,
            *token_program,
        ),
{
    if cfg.version != EXPECTED_VERSION {
        return Err(StakingError::VersionMismatch);
    }
    let expected = derive_vault_address(config_key, token_mint);
    let result = vault_provisioning(&expected, vault, vault_owner_program, token_program);
    proof {
        if vault@ == derived_vault_key(config_key@, token_mint@) {
            assert(*vault =~= expected);
        }
    }
    result
}

/// Provisioning is idempotent: once one call has succeeded and the
/// custody account exists (the token program owns the derived address),
/// every further call with the same inputs succeeds without asking for a
/// second account.
pub proof fn lemma_create_vault_idempotent(
    cfg: Config,
    config_key: AccountKey,
    token_mint: AccountKey,
    vault: AccountKey,
    vault_owner_program: AccountKey,
    token_program: AccountKey,
)
    requires
        create_vault_transition(
            cfg,
            config_key,
            token_mint,
            vault,
            vault_owner_program,
            token_program,
        ) is Ok,
    ensures
        create_vault_transition(
            cfg,
            config_key,
            token_mint,
            vault,
            token_program,
            token_program,
        ) == Ok::<VaultAction, StakingError>(VaultAction::AlreadyExists),
{
}

} // verus!
