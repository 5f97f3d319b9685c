//! Locking: the administrator closes withdrawals until a given time.

use crate::errors::VaultError;
use crate::pubkey::Pubkey;
use crate::state::vault::Vault;
use vstd::prelude::*;

verus! {

/// The accounts of a lock.
#[derive(Clone, Copy, Debug, PartialEq, Eq)]
pub struct LockVault {
    /// The vault to lock.
    pub vault: Vault,
    /// The administrator, who has signed.
    pub authority: Pubkey,
}

/// Locks the vault until `unlock_timestamp`: refused with `Unauthorized`
/// exactly if the signer is not the vault's administrator. A vault that is
/// locked already is locked anew, with the new time.
pub fn lock_vault(ctx: &mut LockVault, unlock_timestamp: i64) -> (r: Result<(), VaultError>)
    ensures
        old(ctx).vault.authority == old(ctx).authority ==> r is Ok && *final(ctx) == (LockVault {
            vault: old(ctx).vault.locked(unlock_timestamp),
            ..*old(ctx)
        }),
        old(ctx).vault.authority != old(ctx).authority ==> r == Err::<(), VaultError>(
            VaultError::Unauthorized,
        ) && *final(ctx) == *old(ctx),
{
    if !(ctx.vault.authority == ctx.authority) {
        return Err(VaultError::Unauthorized);
    }
    let mut vault = ctx.vault;
    vault.lock(unlock_timestamp);
    ctx.vault = vault;
    Ok(())
}

} // verus!
