use anchor_lang::solana_program::pubkey::Pubkey;
use atx_points_exchange::{
    config_seeds, exchange_record_seeds, find_config_address, find_exchange_record_address,
    find_user_points_address, find_vault_authority_address, user_points_seeds,
    vault_authority_seeds, vault_signer_seeds, PublicKey,
};

fn program_id() -> PublicKey {
    let mut bytes = [0u8; 32];
    for (i, b) in bytes.iter_mut().enumerate() {
        *b = (i as u8).wrapping_mul(37).wrapping_add(5);
    }
    PublicKey::new_from_array(bytes)
}

fn user() -> PublicKey {
    PublicKey::new_from_array([7u8; 32])
}

fn expected(seeds: &[&[u8]], program: &PublicKey) -> (PublicKey, u8) {
    let (address, bump) = Pubkey::find_program_address(seeds, &Pubkey::new_from_array(program.bytes));
    (PublicKey::new_from_array(address.to_bytes()), bump)
}

#[test]
fn seeds_are_the_prefixes_and_keys() {
    assert_eq!(config_seeds(), vec![b"global-config".to_vec()]);
    assert_eq!(user_points_seeds(&user()), vec![b"user-points".to_vec(), vec![7u8; 32]]);
    assert_eq!(
        exchange_record_seeds(0x0102_0304_0506_0708),
        vec![b"exchange-record".to_vec(), vec![8, 7, 6, 5, 4, 3, 2, 1]]
    );
    assert_eq!(
        vault_authority_seeds(&user()),
        vec![b"vault-authority".to_vec(), vec![7u8; 32]]
    );
    assert_eq!(
        vault_signer_seeds(&user(), 251),
        vec![b"vault-authority".to_vec(), vec![7u8; 32], vec![251]]
    );
}

#[test]
fn config_address_is_the_runtime_derivation() {
    let found = find_config_address(&program_id()).unwrap();
    assert_eq!(found, expected(&[b"global-config"], &program_id()));
    assert!(!found.0.same_as(&program_id()));
}

#[test]
fn user_points_address_is_the_runtime_derivation() {
    let found = find_user_points_address(&program_id(), &user()).unwrap();
    assert_eq!(found, expected(&[b"user-points", &[7u8; 32]], &program_id()));
    assert!(!found.0.same_as(&user()));
    let other = find_user_points_address(&program_id(), &PublicKey::new_from_array([8u8; 32])).unwrap();
    assert!(!found.0.same_as(&other.0));
}

#[test]
fn exchange_record_address_is_the_runtime_derivation() {
    let found = find_exchange_record_address(&program_id(), 3).unwrap();
    assert_eq!(found, expected(&[b"exchange-record", &3u64.to_le_bytes()], &program_id()));
    let next = find_exchange_record_address(&program_id(), 4).unwrap();
    assert!(!found.0.same_as(&next.0));
}

#[test]
fn vault_authority_address_is_the_runtime_derivation() {
    let config = find_config_address(&program_id()).unwrap().0;
    let found = find_vault_authority_address(&program_id(), &config).unwrap();
    assert_eq!(found, expected(&[b"vault-authority", &config.bytes], &program_id()));
    assert!(!found.0.same_as(&config));
}
