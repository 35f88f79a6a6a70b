use anchor_lang::solana_program::hash::hash;
use anchor_lang::solana_program::pubkey::Pubkey;
use model_registry::addressing::derive_config_address;
use model_registry::addressing::derive_model_address;
use model_registry::addressing::derive_version_address;
use model_registry::state::AccountId;

const PROGRAM_ID: [u8; 32] = [7u8; 32];

#[test]
fn config_address_matches_direct_derivation() {
    let pid = Pubkey::new_from_array(PROGRAM_ID);
    let expected = Pubkey::try_find_program_address(&[b"config"], &pid).unwrap();
    let got = derive_config_address(&AccountId::new(PROGRAM_ID)).unwrap();
    assert_eq!(got.0.bytes, expected.0.to_bytes());
    assert_eq!(got.1, expected.1);
}

#[test]
fn model_address_matches_direct_derivation() {
    let pid = Pubkey::new_from_array(PROGRAM_ID);
    let publisher = [1u8; 32];
    let name = b"resnet50";
    let expected = Pubkey::try_find_program_address(
        &[b"model", &publisher, hash(name).to_bytes().as_ref()],
        &pid,
    )
    .unwrap();
    let got = derive_model_address(
        &AccountId::new(PROGRAM_ID),
        &AccountId::new(publisher),
        &name.to_vec(),
    )
    .unwrap();
    assert_eq!(got.0.bytes, expected.0.to_bytes());
    assert_eq!(got.1, expected.1);
}

#[test]
fn model_address_depends_on_the_name_bytes() {
    // Distinct names must hash to distinct seed material and so to
    // distinct addresses; this fails if the name were used unhashed too,
    // since these names differ only beyond the seed length limit's worth
    // of shared prefix.
    let program_id = AccountId::new(PROGRAM_ID);
    let publisher = AccountId::new([1u8; 32]);
    let a = derive_model_address(&program_id, &publisher, &b"resnet50".to_vec()).unwrap();
    let b = derive_model_address(&program_id, &publisher, &b"resnet51".to_vec()).unwrap();
    assert_ne!(a.0.bytes, b.0.bytes);

    // A name far over 32 bytes still derives (the hash keeps the key
    // material fixed-width).
    let long_name = vec![b'n'; 64];
    assert!(derive_model_address(&program_id, &publisher, &long_name).is_some());
}

#[test]
fn version_address_matches_direct_derivation() {
    let pid = Pubkey::new_from_array(PROGRAM_ID);
    let model = [3u8; 32];
    let expected =
        Pubkey::try_find_program_address(&[b"version", &model, &2u32.to_le_bytes()], &pid)
            .unwrap();
    let got = derive_version_address(&AccountId::new(PROGRAM_ID), &AccountId::new(model), 2)
        .unwrap();
    assert_eq!(got.0.bytes, expected.0.to_bytes());
    assert_eq!(got.1, expected.1);
}

#[test]
fn version_addresses_are_distinct_per_version() {
    let program_id = AccountId::new(PROGRAM_ID);
    let model = AccountId::new([3u8; 32]);
    let v1 = derive_version_address(&program_id, &model, 1).unwrap();
    let v2 = derive_version_address(&program_id, &model, 2).unwrap();
    let v256 = derive_version_address(&program_id, &model, 256).unwrap();
    assert_ne!(v1.0.bytes, v2.0.bytes);
    assert_ne!(v2.0.bytes, v256.0.bytes);
}
