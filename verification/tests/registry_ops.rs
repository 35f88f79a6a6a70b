use model_registry::errors::ModelRegistryError;
use model_registry::registry::Registry;
use model_registry::state::AccountId;
use model_registry::state::License;
use model_registry::state::RegistryConfig;

fn id(byte: u8) -> AccountId {
    AccountId::new([byte; 32])
}

fn fresh_registry(authority: AccountId) -> Registry {
    Registry::initialize(authority)
}

#[test]
fn initialize_sets_authority_and_zero_counters() {
    let authority = id(1);
    let reg = fresh_registry(authority);
    let config = reg.get_config();
    assert_eq!(config.authority, authority);
    assert_eq!(config.total_models, 0);
    assert_eq!(config.total_versions, 0);
}

#[test]
fn publish_then_read_matches_example() {
    let publisher = id(1);
    let address = id(2);
    let h1 = [0x11u8; 32];
    let mut reg = fresh_registry(id(9));
    let ev = reg
        .publish_model(
            &publisher,
            &address,
            b"resnet50".to_vec(),
            h1,
            b"ar://meta1".to_vec(),
            0,
            1_700_000_000,
        )
        .unwrap();
    assert_eq!(ev.model, address);
    assert_eq!(ev.publisher, publisher);
    assert_eq!(ev.model_name, b"resnet50".to_vec());
    assert_eq!(ev.weights_hash, h1);
    assert_eq!(ev.metadata_uri, b"ar://meta1".to_vec());
    assert_eq!(ev.license, License::MIT);
    assert_eq!(ev.timestamp, 1_700_000_000);

    let index = reg.find_model(&publisher, &b"resnet50".to_vec()).unwrap();
    let model = reg.get_model(index);
    assert_eq!(model.version_count, 1);
    assert_eq!(model.license, License::MIT);
    assert_eq!(model.weights_hash, h1);
    assert_eq!(model.metadata_uri, b"ar://meta1".to_vec());
    assert!(!model.is_deprecated);
    assert_eq!(model.created_at, 1_700_000_000);
    assert_eq!(model.updated_at, 1_700_000_000);

    let v1 = reg.get_version(index, 1).unwrap();
    assert_eq!(v1.version, 1);
    assert_eq!(v1.weights_hash, h1);
    assert_eq!(v1.metadata_uri, b"ar://meta1".to_vec());
    assert_eq!(v1.model, address);

    assert_eq!(reg.get_config().total_models, 1);
    assert_eq!(reg.get_config().total_versions, 1);
}

#[test]
fn add_version_appends_and_updates_model() {
    let publisher = id(1);
    let address = id(2);
    let h1 = [0x11u8; 32];
    let h2 = [0x22u8; 32];
    let mut reg = fresh_registry(id(9));
    reg.publish_model(
        &publisher,
        &address,
        b"resnet50".to_vec(),
        h1,
        b"ar://meta1".to_vec(),
        0,
        100,
    )
    .unwrap();
    let index = reg.find_model(&publisher, &b"resnet50".to_vec()).unwrap();

    let ev = reg
        .add_version(&publisher, index, h2, b"ar://meta2".to_vec(), 200)
        .unwrap();
    assert_eq!(ev.model, address);
    assert_eq!(ev.version, 2);
    assert_eq!(ev.weights_hash, h2);
    assert_eq!(ev.metadata_uri, b"ar://meta2".to_vec());
    assert_eq!(ev.timestamp, 200);

    let model = reg.get_model(index);
    assert_eq!(model.version_count, 2);
    assert_eq!(model.weights_hash, h2);
    assert_eq!(model.updated_at, 200);
    assert_eq!(model.created_at, 100);

    let v2 = reg.get_version(index, 2).unwrap();
    assert_eq!(v2.version, 2);
    assert_eq!(v2.weights_hash, h2);
    assert_eq!(v2.metadata_uri, b"ar://meta2".to_vec());

    // Version 1 is unchanged, byte for byte.
    let v1 = reg.get_version(index, 1).unwrap();
    assert_eq!(v1.version, 1);
    assert_eq!(v1.weights_hash, h1);
    assert_eq!(v1.metadata_uri, b"ar://meta1".to_vec());
    assert_eq!(v1.created_at, 100);

    assert_eq!(reg.get_config().total_models, 1);
    assert_eq!(reg.get_config().total_versions, 2);
}

#[test]
fn k_versions_yield_dense_history() {
    let publisher = id(1);
    let mut reg = fresh_registry(id(9));
    reg.publish_model(
        &publisher,
        &id(2),
        b"m".to_vec(),
        [1u8; 32],
        b"u1".to_vec(),
        0,
        1,
    )
    .unwrap();
    let index = reg.find_model(&publisher, &b"m".to_vec()).unwrap();
    for k in 2u8..=5 {
        reg.add_version(&publisher, index, [k; 32], vec![b'u', k], i64::from(k))
            .unwrap();
    }
    let model = reg.get_model(index);
    assert_eq!(model.version_count, 5);
    assert_eq!(model.weights_hash, [5u8; 32]);
    for k in 1u32..=5 {
        let v = reg.get_version(index, k).unwrap();
        assert_eq!(v.version, k);
        assert_eq!(v.weights_hash, [k as u8; 32]);
    }
    assert!(reg.get_version(index, 0).is_none());
    assert!(reg.get_version(index, 6).is_none());
    assert_eq!(reg.get_config().total_versions, 5);
}

#[test]
fn publish_same_key_twice_fails_and_changes_nothing() {
    let publisher = id(1);
    let mut reg = fresh_registry(id(9));
    reg.publish_model(
        &publisher,
        &id(2),
        b"m".to_vec(),
        [1u8; 32],
        b"u1".to_vec(),
        0,
        1,
    )
    .unwrap();
    let before = reg.clone();
    let err = reg
        .publish_model(
            &publisher,
            &id(3),
            b"m".to_vec(),
            [2u8; 32],
            b"u2".to_vec(),
            1,
            2,
        )
        .unwrap_err();
    assert_eq!(err, ModelRegistryError::ModelAlreadyExists);
    assert_eq!(reg, before);
}

#[test]
fn same_name_under_other_publisher_is_a_new_slot() {
    let alice = id(1);
    let bob = id(2);
    let mut reg = fresh_registry(id(9));
    reg.publish_model(&alice, &id(3), b"m".to_vec(), [1u8; 32], b"u1".to_vec(), 0, 1)
        .unwrap();
    reg.publish_model(&bob, &id(4), b"m".to_vec(), [2u8; 32], b"u2".to_vec(), 1, 2)
        .unwrap();
    assert_eq!(reg.get_config().total_models, 2);
    let ia = reg.find_model(&alice, &b"m".to_vec()).unwrap();
    let ib = reg.find_model(&bob, &b"m".to_vec()).unwrap();
    assert_ne!(ia, ib);
    assert_eq!(reg.get_model(ia).license, License::MIT);
    assert_eq!(reg.get_model(ib).license, License::Apache2);
}

#[test]
fn name_and_uri_boundaries() {
    let publisher = id(1);
    let mut reg = fresh_registry(id(9));

    // 64-byte name and 128-byte URI are accepted.
    let name64 = vec![b'n'; 64];
    let uri128 = vec![b'u'; 128];
    reg.publish_model(&publisher, &id(2), name64.clone(), [1u8; 32], uri128.clone(), 0, 1)
        .unwrap();
    let index = reg.find_model(&publisher, &name64).unwrap();
    assert_eq!(reg.get_model(index).model_name, name64);
    assert_eq!(reg.get_model(index).metadata_uri, uri128);

    // 65-byte name is rejected.
    let err = reg
        .publish_model(&publisher, &id(3), vec![b'n'; 65], [1u8; 32], b"u".to_vec(), 0, 1)
        .unwrap_err();
    assert_eq!(err, ModelRegistryError::ModelNameTooLong);

    // 129-byte URI is rejected.
    let err = reg
        .publish_model(&publisher, &id(3), b"other".to_vec(), [1u8; 32], vec![b'u'; 129], 0, 1)
        .unwrap_err();
    assert_eq!(err, ModelRegistryError::MetadataUriTooLong);

    // Empty name and empty URI are rejected.
    let err = reg
        .publish_model(&publisher, &id(3), Vec::new(), [1u8; 32], b"u".to_vec(), 0, 1)
        .unwrap_err();
    assert_eq!(err, ModelRegistryError::ModelNameEmpty);
    let err = reg
        .publish_model(&publisher, &id(3), b"other".to_vec(), [1u8; 32], Vec::new(), 0, 1)
        .unwrap_err();
    assert_eq!(err, ModelRegistryError::MetadataUriEmpty);

    // The URI rules hold for add_version and update_metadata too.
    let err = reg
        .add_version(&publisher, index, [2u8; 32], Vec::new(), 2)
        .unwrap_err();
    assert_eq!(err, ModelRegistryError::MetadataUriEmpty);
    let err = reg
        .add_version(&publisher, index, [2u8; 32], vec![b'u'; 129], 2)
        .unwrap_err();
    assert_eq!(err, ModelRegistryError::MetadataUriTooLong);
    let err = reg
        .update_metadata(&publisher, index, Vec::new(), 2)
        .unwrap_err();
    assert_eq!(err, ModelRegistryError::MetadataUriEmpty);
    let err = reg
        .update_metadata(&publisher, index, vec![b'u'; 129], 2)
        .unwrap_err();
    assert_eq!(err, ModelRegistryError::MetadataUriTooLong);
}

#[test]
fn invalid_license_fails_closed() {
    let publisher = id(1);
    let mut reg = fresh_registry(id(9));
    for code in 5u8..=7 {
        let err = reg
            .publish_model(&publisher, &id(2), b"m".to_vec(), [1u8; 32], b"u".to_vec(), code, 1)
            .unwrap_err();
        assert_eq!(err, ModelRegistryError::InvalidLicense);
    }
    assert_eq!(reg.get_config().total_models, 0);
}

#[test]
fn license_codes_round_trip() {
    let all = [
        (0u8, License::MIT),
        (1, License::Apache2),
        (2, License::GPL3),
        (3, License::CreativeCommons),
        (4, License::Custom),
    ];
    for (code, license) in all {
        assert_eq!(License::from_code(code).unwrap(), license);
        assert_eq!(license.code(), code);
    }
    assert_eq!(
        License::from_code(255).unwrap_err(),
        ModelRegistryError::InvalidLicense
    );
}

#[test]
fn update_metadata_changes_only_uri_and_timestamp() {
    let publisher = id(1);
    let mut reg = fresh_registry(id(9));
    reg.publish_model(&publisher, &id(2), b"m".to_vec(), [1u8; 32], b"u1".to_vec(), 2, 1)
        .unwrap();
    let index = reg.find_model(&publisher, &b"m".to_vec()).unwrap();
    let ev = reg
        .update_metadata(&publisher, index, b"u2".to_vec(), 5)
        .unwrap();
    assert_eq!(ev.old_metadata_uri, b"u1".to_vec());
    assert_eq!(ev.new_metadata_uri, b"u2".to_vec());
    assert_eq!(ev.timestamp, 5);
    let model = reg.get_model(index);
    assert_eq!(model.metadata_uri, b"u2".to_vec());
    assert_eq!(model.updated_at, 5);
    assert_eq!(model.weights_hash, [1u8; 32]);
    assert_eq!(model.version_count, 1);
    // The frozen version-1 snapshot keeps the URI it was published with.
    assert_eq!(reg.get_version(index, 1).unwrap().metadata_uri, b"u1".to_vec());
    assert_eq!(reg.get_config().total_versions, 1);
}

#[test]
fn deprecation_is_one_way() {
    let publisher = id(1);
    let mut reg = fresh_registry(id(9));
    reg.publish_model(&publisher, &id(2), b"m".to_vec(), [1u8; 32], b"u1".to_vec(), 0, 1)
        .unwrap();
    let index = reg.find_model(&publisher, &b"m".to_vec()).unwrap();

    let ev = reg.deprecate_model(&publisher, index, 7).unwrap();
    assert_eq!(ev.publisher, publisher);
    assert_eq!(ev.timestamp, 7);
    assert!(reg.get_model(index).is_deprecated);

    // Further versions are refused.
    let err = reg
        .add_version(&publisher, index, [2u8; 32], b"u2".to_vec(), 8)
        .unwrap_err();
    assert_eq!(err, ModelRegistryError::ModelDeprecated);
    assert_eq!(reg.get_model(index).version_count, 1);

    // Deprecating twice is refused.
    let err = reg.deprecate_model(&publisher, index, 9).unwrap_err();
    assert_eq!(err, ModelRegistryError::AlreadyDeprecated);

    // Metadata updates and ownership transfer remain permitted.
    reg.update_metadata(&publisher, index, b"u3".to_vec(), 10).unwrap();
    reg.transfer_ownership(&publisher, index, id(5), 11).unwrap();
    assert!(reg.get_model(index).is_deprecated);
}

#[test]
fn unauthorized_callers_change_nothing() {
    let publisher = id(1);
    let intruder = id(2);
    let mut reg = fresh_registry(id(9));
    reg.publish_model(&publisher, &id(3), b"m".to_vec(), [1u8; 32], b"u1".to_vec(), 0, 1)
        .unwrap();
    let index = reg.find_model(&publisher, &b"m".to_vec()).unwrap();
    let before = reg.clone();

    let err = reg
        .add_version(&intruder, index, [2u8; 32], b"u2".to_vec(), 2)
        .unwrap_err();
    assert_eq!(err, ModelRegistryError::UnauthorizedPublisher);
    let err = reg
        .update_metadata(&intruder, index, b"u2".to_vec(), 2)
        .unwrap_err();
    assert_eq!(err, ModelRegistryError::UnauthorizedPublisher);
    let err = reg.deprecate_model(&intruder, index, 2).unwrap_err();
    assert_eq!(err, ModelRegistryError::UnauthorizedPublisher);
    let err = reg
        .transfer_ownership(&intruder, index, intruder, 2)
        .unwrap_err();
    assert_eq!(err, ModelRegistryError::UnauthorizedPublisher);

    assert_eq!(reg, before);
}

#[test]
fn transfer_hands_over_the_sole_mutation_right() {
    let alice = id(1);
    let bob = id(2);
    let mut reg = fresh_registry(id(9));
    reg.publish_model(&alice, &id(3), b"m".to_vec(), [1u8; 32], b"u1".to_vec(), 0, 1)
        .unwrap();
    let index = reg.find_model(&alice, &b"m".to_vec()).unwrap();

    let ev = reg.transfer_ownership(&alice, index, bob, 2).unwrap();
    assert_eq!(ev.old_publisher, alice);
    assert_eq!(ev.new_publisher, bob);
    assert_eq!(reg.get_model(index).publisher, bob);

    // The old publisher may no longer mutate.
    let err = reg
        .add_version(&alice, index, [2u8; 32], b"u2".to_vec(), 3)
        .unwrap_err();
    assert_eq!(err, ModelRegistryError::UnauthorizedPublisher);

    // The new publisher may.
    reg.add_version(&bob, index, [2u8; 32], b"u2".to_vec(), 3).unwrap();
    assert_eq!(reg.get_model(index).version_count, 2);

    // The slot key stays with the creating publisher: Alice cannot
    // republish the name she transferred away ...
    let err = reg
        .publish_model(&alice, &id(4), b"m".to_vec(), [3u8; 32], b"u3".to_vec(), 0, 4)
        .unwrap_err();
    assert_eq!(err, ModelRegistryError::ModelAlreadyExists);
    // ... while Bob's own slot for that name is still free.
    reg.publish_model(&bob, &id(5), b"m".to_vec(), [3u8; 32], b"u3".to_vec(), 0, 4)
        .unwrap();
    assert_eq!(reg.get_config().total_models, 2);
}

#[test]
fn counter_overflow_is_surfaced_not_wrapped() {
    let publisher = id(1);
    let mut reg = fresh_registry(id(9));
    reg.publish_model(&publisher, &id(2), b"m".to_vec(), [1u8; 32], b"u1".to_vec(), 0, 1)
        .unwrap();
    let index = reg.find_model(&publisher, &b"m".to_vec()).unwrap();

    // Drive the global version counter to its ceiling; the next version
    // must fail loudly instead of wrapping.
    reg.config = RegistryConfig { total_versions: u64::MAX, ..*reg.get_config() };
    let err = reg
        .add_version(&publisher, index, [2u8; 32], b"u2".to_vec(), 2)
        .unwrap_err();
    assert_eq!(err, ModelRegistryError::ArithmeticOverflow);
    assert_eq!(reg.get_model(index).version_count, 1);
    assert_eq!(reg.get_config().total_versions, u64::MAX);

    // The same ceiling on the model counter blocks publishing.
    reg.config = RegistryConfig { total_models: u64::MAX, total_versions: 0, ..*reg.get_config() };
    let err = reg
        .publish_model(&publisher, &id(4), b"other".to_vec(), [1u8; 32], b"u".to_vec(), 0, 3)
        .unwrap_err();
    assert_eq!(err, ModelRegistryError::ArithmeticOverflow);
}

#[test]
fn find_model_misses_absent_keys() {
    let publisher = id(1);
    let mut reg = fresh_registry(id(9));
    assert!(reg.find_model(&publisher, &b"m".to_vec()).is_none());
    reg.publish_model(&publisher, &id(2), b"m".to_vec(), [1u8; 32], b"u".to_vec(), 0, 1)
        .unwrap();
    assert!(reg.find_model(&publisher, &b"other".to_vec()).is_none());
    assert!(reg.find_model(&id(7), &b"m".to_vec()).is_none());
    assert!(reg.find_model(&publisher, &b"m".to_vec()).is_some());
}
