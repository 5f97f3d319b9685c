//! The vault's derived authority: the address that signs for the vault's
//! custodial accounts, derived from the vault's own address and a fixed label.
//!
//! No key pair stands behind such an address. Only the program can sign for
//! it, by presenting the seeds that it was derived from. A `VaultAuthority`
//! holds those seeds together with the address, and can only be had by
//! deriving the address anew and comparing it with the one presented.

use crate::errors::VaultError;
use crate::pubkey::Pubkey;
use vstd::prelude::*;

verus! {

/// The program-derived address for `seeds` under the program `program_id`, as
/// `Pubkey::create_program_address` of `anchor_lang` computes it: `None` where
/// it finds no valid address for these seeds.
pub uninterp spec fn program_address(seeds: Seq<Seq<u8>>, program_id: Seq<u8>) -> Option<Seq<u8>>;

/// Calls `anchor_lang::prelude::Pubkey::create_program_address`.
///
/// Trusted, not proved: that what the call returns depends on the seeds and
/// on the program's address alone, so that it can go by the name
/// `program_address`. An address that the call returns is handed on as it
/// is; an error of the call, whichever it is, is handed on as `None`.
#[verifier::external_body]
fn create_program_address(seeds: &Vec<Vec<u8>>, program_id: &Pubkey) -> (address: Option<Pubkey>)
    ensures
        program_address(seeds.deep_view(), program_id.bytes@) == (match address {
            Some(a) => Some(a.bytes@),
            None => None::<Seq<u8>>,
        }),
{
    let parts: Vec<&[u8]> = seeds.iter().map(|s| s.as_slice()).collect();
    let id = anchor_lang::prelude::Pubkey::new_from_array(program_id.bytes);
    match anchor_lang::prelude::Pubkey::create_program_address(&parts, &id) {
        Ok(key) => Some(Pubkey { bytes: key.to_bytes() }),
        Err(_) => None,
    }
}

/// The label that the vault's authority is derived under: the bytes of
/// "authority".
pub open spec fn authority_label() -> Seq<u8> {
    seq![97u8, 117u8, 116u8, 104u8, 111u8, 114u8, 105u8, 116u8, 121u8]
}

/// The seeds of the authority of the vault at `vault`: the label, the vault's
/// address, and the bump seed.
pub open spec fn authority_seeds(vault: Pubkey, bump: u8) -> Seq<Seq<u8>> {
    seq![authority_label(), vault.bytes@, seq![bump]]
}

/// The address of the authority of the vault at `vault` under the program
/// `program_id`, if these seeds give one.
pub open spec fn authority_address(program_id: Pubkey, vault: Pubkey, bump: u8) -> Option<
    Seq<u8>,
> {
    program_address(authority_seeds(vault, bump), program_id.bytes@)
}

/// The seeds of the authority of the vault at `vault`, for the derivation and
/// for signing.
pub fn signer_seeds(vault: &Pubkey, bump: u8) -> (seeds: Vec<Vec<u8>>)
    ensures
        seeds.deep_view() == authority_seeds(*vault, bump),
{
    let mut label: Vec<u8> = Vec::new();
    label.push(97u8);
    label.push(117u8);
    label.push(116u8);
    label.push(104u8);
    label.push(111u8);
    label.push(114u8);
    label.push(105u8);
    label.push(116u8);
    label.push(121u8);
    let mut key: Vec<u8> = Vec::new();
    let mut i: usize = 0;
    while i < 32
        invariant
            i <= 32,
            key@ == vault.bytes@.subrange(0, i as int),
        decreases 32 - i,
    {
        key.push(vault.bytes[i]);
        i += 1;
    }
    let mut last: Vec<u8> = Vec::new();
    last.push(bump);
    let mut seeds: Vec<Vec<u8>> = Vec::new();
    seeds.push(label);
    seeds.push(key);
    seeds.push(last);
    proof {
        assert(seeds@[0].deep_view() =~= authority_label());
        assert(seeds@[1].deep_view() =~= vault.bytes@);
        assert(seeds@[2].deep_view() =~= seq![bump]);
        assert(seeds.deep_view() =~= authority_seeds(*vault, bump));
    }
    seeds
}

/// What follows the derivation: the address presented is accepted exactly if
/// it is the one derived.
pub fn accept(derived: Option<Pubkey>, presented: &Pubkey) -> (r: Result<Pubkey, VaultError>)
    ensures
        r == (if derived == Some(*presented) {
            Ok::<Pubkey, VaultError>(*presented)
        } else {
            Err::<Pubkey, VaultError>(VaultError::Unauthorized)
        }),
{
    match derived {
        Some(address) => {
            if address == *presented {
                Ok(address)
            } else {
                Err(VaultError::Unauthorized)
            }
        },
        None => Err(VaultError::Unauthorized),
    }
}

/// The right to sign for the custodial accounts of one vault: the seeds of the
/// vault's authority, and the address that they derive.
#[derive(Clone, Copy, Debug, PartialEq, Eq)]
pub struct VaultAuthority {
    program_id: Pubkey,
    vault: Pubkey,
    bump: u8,
    address: Pubkey,
}

impl VaultAuthority {
    #[verifier::type_invariant]
    spec fn genuine(self) -> bool {
        authority_address(self.program_id, self.vault, self.bump) == Some(self.address.bytes@)
    }

    /// The program that the authority signs under.
    pub closed spec fn spec_program_id(&self) -> Pubkey {
        self.program_id
    }

    /// The vault that the authority signs for.
    pub closed spec fn spec_vault(&self) -> Pubkey {
        self.vault
    }

    /// The bump seed of the derivation.
    pub closed spec fn spec_bump(&self) -> u8 {
        self.bump
    }

    /// The derived address.
    pub closed spec fn spec_address(&self) -> Pubkey {
        self.address
    }

    /// Derives the authority of the vault at `vault` under the program
    /// `program_id`, and accepts the address `presented` exactly if it is the
    /// derived one; otherwise the answer is `Unauthorized`.
    pub fn verify(program_id: &Pubkey, vault: &Pubkey, bump: u8, presented: &Pubkey) -> (r: Result<
        VaultAuthority,
        VaultError,
    >)
        ensures
            authority_address(*program_id, *vault, bump) == Some(presented.bytes@) ==> {
                &&& r matches Ok(a)
                &&& a.spec_program_id() == *program_id
                &&& a.spec_vault() == *vault
                &&& a.spec_bump() == bump
                &&& a.spec_address() == *presented
            },
            authority_address(*program_id, *vault, bump) != Some(presented.bytes@) ==> r == Err::<
                VaultAuthority,
                VaultError,
            >(VaultError::Unauthorized),
    {
        let seeds = signer_seeds(vault, bump);
        let derived = create_program_address(&seeds, program_id);
        proof {
            if let Some(a) = derived {
                if a.bytes@ == presented.bytes@ {
                    assert(a.bytes =~= presented.bytes);
                }
            }
        }
        match accept(derived, presented) {
            Ok(address) => Ok(
                VaultAuthority { program_id: *program_id, vault: *vault, bump, address },
            ),
            Err(e) => Err(e),
        }
    }

    /// The program that the authority signs under.
    #[verifier::when_used_as_spec(spec_program_id)]
    pub fn program_id(&self) -> (key: Pubkey)
        ensures
            key == self.spec_program_id(),
    {
        self.program_id
    }

    /// The vault that the authority signs for.
    #[verifier::when_used_as_spec(spec_vault)]
    pub fn vault(&self) -> (key: Pubkey)
        ensures
            key == self.spec_vault(),
    {
        self.vault
    }

    /// The bump seed of the derivation.
    #[verifier::when_used_as_spec(spec_bump)]
    pub fn bump(&self) -> (bump: u8)
        ensures
            bump == self.spec_bump(),
    {
        self.bump
    }

    /// The derived address. It is the one that the seeds give.
    #[verifier::when_used_as_spec(spec_address)]
    pub fn address(&self) -> (key: Pubkey)
        ensures
            key == self.spec_address(),
            authority_address(self.spec_program_id(), self.spec_vault(), self.spec_bump()) == Some(
                key.bytes@,
            ),
    {
        proof {
            use_type_invariant(self);
        }
        self.address
    }

    /// The seeds to sign with.
    pub fn seeds(&self) -> (seeds: Vec<Vec<u8>>)
        ensures
            seeds.deep_view() == authority_seeds(self.spec_vault(), self.spec_bump()),
    {
        signer_seeds(&self.vault, self.bump)
    }
}

} // verus!
