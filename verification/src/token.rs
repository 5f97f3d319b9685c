//! What the vault sees of the token program: custodial accounts as plain
//! values, and the transfers that an operation asks for.
//!
//! The library never moves a balance. An operation that succeeds hands back
//! the transfer to perform; the caller performs it with the token program and
//! gives up the whole operation if the transfer fails.

use crate::authority::VaultAuthority;
use crate::pubkey::Pubkey;
use vstd::prelude::*;

verus! {

/// A custodial account of the token program, as far as the vault reads it.
#[derive(Clone, Copy, Debug, PartialEq, Eq)]
pub struct TokenAccount {
    /// The address of the account.
    pub key: Pubkey,
    /// Who may move tokens out of the account.
    pub owner: Pubkey,
    /// The balance.
    pub amount: u64,
}

/// Who authorizes a transfer.
#[derive(Clone, Copy, Debug, PartialEq, Eq)]
pub enum Authorization {
    /// The owner of the source account, who has signed the operation.
    Owner(Pubkey),
    /// The vault's derived authority, which the program signs for.
    Vault(VaultAuthority),
}

/// A transfer for the token program to perform.
#[derive(Clone, Copy, Debug, PartialEq, Eq)]
pub struct Transfer {
    /// The account to take from.
    pub from: Pubkey,
    /// The account to give to.
    pub to: Pubkey,
    /// Who authorizes the transfer.
    pub authorization: Authorization,
    /// The amount to move.
    pub amount: u64,
}

impl Transfer {
    /// The address that authorizes the transfer: the owner, or the address of
    /// the vault's derived authority.
    pub open spec fn authority_spec(self) -> Pubkey {
        match self.authorization {
            Authorization::Owner(key) => key,
            Authorization::Vault(authority) => authority.spec_address(),
        }
    }

    /// The address that authorizes the transfer: the owner, or the address of
    /// the vault's derived authority.
    pub fn authority(&self) -> (key: Pubkey)
        ensures
            key == self.authority_spec(),
    {
        match self.authorization {
            Authorization::Owner(key) => key,
            Authorization::Vault(authority) => authority.address(),
        }
    }

    /// The seeds that the program signs the transfer with: those of the
    /// vault's authority, and none where the owner has signed.
    pub fn signer_seeds(&self) -> (seeds: Option<Vec<Vec<u8>>>)
        ensures
            match self.authorization {
                Authorization::Owner(_) => seeds is None,
                Authorization::Vault(authority) => seeds matches Some(s) && s.deep_view()
                    == crate::authority::authority_seeds(
                    authority.spec_vault(),
                    authority.spec_bump(),
                ),
            },
    {
        match self.authorization {
            Authorization::Owner(_) => None,
            Authorization::Vault(authority) => Some(authority.seeds()),
        }
    }
}

} // verus!
