use token_vault::authority::{accept, signer_seeds, VaultAuthority};
use token_vault::errors::VaultError;
use token_vault::pubkey::Pubkey;
use token_vault::token::{Authorization, Transfer};

fn key(tag: u8) -> Pubkey {
    Pubkey::new_from_array([tag; 32])
}

fn outside(key: &Pubkey) -> anchor_lang::prelude::Pubkey {
    anchor_lang::prelude::Pubkey::new_from_array(key.to_bytes())
}

/// The authority's address and bump as the outside crate finds them.
fn found(program_id: &Pubkey, vault: &Pubkey) -> (Pubkey, u8) {
    let (address, bump) = anchor_lang::prelude::Pubkey::find_program_address(
        &[b"authority", &vault.to_bytes()],
        &outside(program_id),
    );
    (Pubkey::new_from_array(address.to_bytes()), bump)
}

#[test]
fn seeds_are_label_vault_and_bump() {
    let seeds = signer_seeds(&key(5), 251);
    assert_eq!(seeds, vec![b"authority".to_vec(), vec![5u8; 32], vec![251u8]]);
}

#[test]
fn accept_takes_the_derived_address_only() {
    assert_eq!(accept(Some(key(1)), &key(1)), Ok(key(1)));
    assert_eq!(accept(Some(key(1)), &key(2)), Err(VaultError::Unauthorized));
    assert_eq!(accept(None, &key(1)), Err(VaultError::Unauthorized));
}

#[test]
fn verify_accepts_the_derived_address() {
    let program_id = key(42);
    let vault = key(7);
    let (address, bump) = found(&program_id, &vault);
    let authority = VaultAuthority::verify(&program_id, &vault, bump, &address).unwrap();
    assert_eq!(authority.program_id(), program_id);
    assert_eq!(authority.vault(), vault);
    assert_eq!(authority.bump(), bump);
    assert_eq!(authority.address(), address);
    assert_eq!(authority.seeds(), vec![b"authority".to_vec(), vec![7u8; 32], vec![bump]]);
    // The address is a hash: none of what went into it.
    assert_ne!(address, program_id);
    assert_ne!(address, vault);
}

#[test]
fn verify_agrees_with_the_outside_derivation() {
    let program_id = key(42);
    let vault = key(7);
    let (address, bump) = found(&program_id, &vault);
    let direct = anchor_lang::prelude::Pubkey::create_program_address(
        &[b"authority", &vault.to_bytes(), &[bump]],
        &outside(&program_id),
    )
    .unwrap();
    assert_eq!(direct.to_bytes(), address.to_bytes());
    assert!(VaultAuthority::verify(&program_id, &vault, bump, &address).is_ok());
}

#[test]
fn verify_refuses_any_other_address() {
    let program_id = key(42);
    let vault = key(7);
    let (address, bump) = found(&program_id, &vault);
    assert_eq!(
        VaultAuthority::verify(&program_id, &vault, bump, &vault),
        Err(VaultError::Unauthorized)
    );
    assert_eq!(
        VaultAuthority::verify(&program_id, &vault, bump, &program_id),
        Err(VaultError::Unauthorized)
    );
    let mut bytes = address.to_bytes();
    bytes[0] ^= 1;
    assert_eq!(
        VaultAuthority::verify(&program_id, &vault, bump, &Pubkey::new_from_array(bytes)),
        Err(VaultError::Unauthorized)
    );
}

#[test]
fn verify_refuses_the_address_of_another_vault_or_program() {
    let program_id = key(42);
    let vault = key(7);
    let (address, bump) = found(&program_id, &vault);
    assert_eq!(
        VaultAuthority::verify(&program_id, &key(8), bump, &address),
        Err(VaultError::Unauthorized)
    );
    assert_eq!(
        VaultAuthority::verify(&key(43), &vault, bump, &address),
        Err(VaultError::Unauthorized)
    );
}

#[test]
fn verify_refuses_another_bump() {
    let program_id = key(42);
    let vault = key(7);
    let (address, bump) = found(&program_id, &vault);
    assert_eq!(
        VaultAuthority::verify(&program_id, &vault, bump.wrapping_sub(1), &address),
        Err(VaultError::Unauthorized)
    );
}

#[test]
fn verify_refuses_seeds_that_derive_no_address() {
    // The outside search takes the highest bump that derives an address:
    // every bump above it derives none.
    let program_id = key(42);
    let mut tag = 0u8;
    loop {
        let vault = key(tag);
        let (address, bump) = found(&program_id, &vault);
        if bump < 255 {
            assert_eq!(
                VaultAuthority::verify(&program_id, &vault, 255, &address),
                Err(VaultError::Unauthorized)
            );
            assert!(anchor_lang::prelude::Pubkey::create_program_address(
                &[b"authority", &vault.to_bytes(), &[255u8]],
                &outside(&program_id),
            )
            .is_err());
            break;
        }
        tag += 1;
    }
}

#[test]
fn a_transfer_names_who_authorizes_it() {
    let program_id = key(42);
    let vault = key(7);
    let (address, bump) = found(&program_id, &vault);
    let authority = VaultAuthority::verify(&program_id, &vault, bump, &address).unwrap();
    let by_owner = Transfer {
        from: key(1),
        to: key(2),
        authorization: Authorization::Owner(key(3)),
        amount: 4,
    };
    assert_eq!(by_owner.authority(), key(3));
    assert_eq!(by_owner.signer_seeds(), None);
    let by_vault = Transfer {
        from: key(1),
        to: key(2),
        authorization: Authorization::Vault(authority),
        amount: 4,
    };
    assert_eq!(by_vault.authority(), address);
    assert_eq!(
        by_vault.signer_seeds(),
        Some(vec![b"authority".to_vec(), vec![7u8; 32], vec![bump]])
    );
}
