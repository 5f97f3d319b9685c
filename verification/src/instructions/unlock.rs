//! Unlocking: the administrator opens withdrawals again.

use crate::errors::VaultError;
use crate::pubkey::Pubkey;
use crate::state::vault::Vault;
use vstd::prelude::*;

verus! {

/// The accounts of an unlock.
#[derive(Clone, Copy, Debug, PartialEq, Eq)]
pub struct UnlockVault {
    /// The vault to unlock.
    pub vault: Vault,
    /// The administrator, who has signed.
    pub authority: Pubkey,
}

/// What an unlock at time `now` comes to: `Unauthorized` if the signer is not
/// the vault's administrator, and else what `Vault::unlocked_at` says:
/// `VaultLocked` if `now` is before the vault's unlock time, and otherwise the
/// vault with withdrawals open.
pub open spec fn unlocking(ctx: UnlockVault, now: i64) -> Result<Vault, VaultError> {
    if ctx.vault.authority != ctx.authority {
        Err(VaultError::Unauthorized)
    } else {
        ctx.vault.unlocked_at(now)
    }
}

/// Unlocks the vault at time `now`; see `unlocking`. On an error the vault is
/// left as it was.
pub fn unlock_vault(ctx: &mut UnlockVault, now: i64) -> (r: Result<(), VaultError>)
    ensures
        match unlocking(*old(ctx), now) {
            Ok(v) => r is Ok && *final(ctx) == (UnlockVault { vault: v, ..*old(ctx) }),
            Err(e) => r == Err::<(), VaultError>(e) && *final(ctx) == *old(ctx),
        },
{
    if !(ctx.vault.authority == ctx.authority) {
        return Err(VaultError::Unauthorized);
    }
    let mut vault = ctx.vault;
    match vault.unlock(now) {
        Err(e) => {
            return Err(e);
        },
        Ok(()) => {},
    }
    ctx.vault = vault;
    Ok(())
}

} // verus!
