use erkamons::addresses::{
    edition_address, metadata_address, owner_storage_address, Address, EDITION_SEED,
    METADATA_NAMESPACE, METADATA_SEED, OWNER_STORAGE_NAMESPACE,
};
use erkamons::instructions::mint_instructions;
use erkamons::model::MintError;

#[test]
fn derivation_is_reproducible_and_collision_free() {
    let owner = Address::Key(7);
    let supply = Address::Key(9);
    let a = owner_storage_address(owner, supply).unwrap();
    let b = owner_storage_address(owner, supply).unwrap();
    assert_eq!(a, b);
    let m = metadata_address(supply).unwrap();
    let e = edition_address(supply).unwrap();
    assert_ne!(a, m);
    assert_ne!(a, e);
    assert_ne!(m, e);
    assert_ne!(m, owner);
    assert_ne!(m, supply);
}

#[test]
fn derivation_matches_namespaces_and_seeds() {
    let owner = Address::Key(7);
    let supply = Address::Key(9);
    assert_eq!(
        owner_storage_address(owner, supply).unwrap(),
        erkamons::addresses::derive(OWNER_STORAGE_NAMESPACE, 7, 9)
    );
    assert_eq!(
        metadata_address(supply).unwrap(),
        erkamons::addresses::derive(METADATA_NAMESPACE, 9, METADATA_SEED)
    );
    assert_eq!(
        edition_address(supply).unwrap(),
        erkamons::addresses::derive(METADATA_NAMESPACE, 9, EDITION_SEED)
    );
}

#[test]
fn derivation_needs_signer_capable_seeds() {
    let supply = Address::Key(9);
    let derived = metadata_address(supply).unwrap();
    assert!(owner_storage_address(derived, supply).is_none());
    assert!(metadata_address(derived).is_none());
    assert!(edition_address(derived).is_none());
}

fn key(byte: u8) -> Vec<u8> {
    vec![byte; 32]
}

#[test]
fn mint_instructions_build_both_messages() {
    let r = mint_instructions(
        &key(1),
        &key(2),
        &key(3),
        &key(4),
        &key(5),
        &key(6),
        &key(7),
        String::from("Erkamon #1"),
        String::from("ERK"),
        String::from("https://example.test/1.json"),
    );
    let (create_metadata, create_edition) = r.unwrap();
    assert_eq!(create_metadata.program_id, mpl_token_metadata::ID);
    assert_eq!(create_edition.program_id, mpl_token_metadata::ID);
    assert_eq!(create_metadata.accounts.len(), 7);
    assert_eq!(create_edition.accounts.len(), 9);
    assert_eq!(
        create_metadata.accounts[0].pubkey,
        solana_program::pubkey::Pubkey::new_from_array([1u8; 32])
    );
    assert_eq!(
        create_edition.accounts[0].pubkey,
        solana_program::pubkey::Pubkey::new_from_array([2u8; 32])
    );
    assert!(!create_metadata.data.is_empty());
    assert!(!create_edition.data.is_empty());
    assert_ne!(create_metadata.data, create_edition.data);
}

#[test]
fn mint_instructions_reject_short_key() {
    let r = mint_instructions(
        &vec![1u8; 31],
        &key(2),
        &key(3),
        &key(4),
        &key(5),
        &key(6),
        &key(7),
        String::from("Erkamon #1"),
        String::from("ERK"),
        String::from("https://example.test/1.json"),
    );
    assert_eq!(r.unwrap_err(), MintError::AccountMismatch);
}

#[test]
fn mint_instructions_reject_over_length_symbol() {
    let r = mint_instructions(
        &key(1),
        &key(2),
        &key(3),
        &key(4),
        &key(5),
        &key(6),
        &key(7),
        String::from("Erkamon #1"),
        String::from("ERKERKERKER"),
        String::from("https://example.test/1.json"),
    );
    assert_eq!(r.unwrap_err(), MintError::DelegatedCallFailed);
}
