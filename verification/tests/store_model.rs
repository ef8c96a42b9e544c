use wallet_store::store::WalletStore;

#[test]
fn round_trip_single_save() {
    let mut store = WalletStore::new();
    store.save_wallet("blob-contents", "addr").unwrap();
    assert_eq!(store.read_wallet().unwrap(), "blob-contents");
}

#[test]
fn round_trip_data_and_address() {
    let mut store = WalletStore::new();
    store.save_wallet("keystore payload", "public address").unwrap();
    assert_eq!(store.read_wallet().unwrap(), "keystore payload");
    assert_eq!(store.read_address().unwrap(), "public address");
}

#[test]
fn overwrite_takes_last_save() {
    let mut store = WalletStore::new();
    store.save_wallet("first", "a1").unwrap();
    store.save_wallet("second", "a2").unwrap();
    assert_eq!(store.read_wallet().unwrap(), "second");
    assert_eq!(store.read_address().unwrap(), "a2");
}

#[test]
fn exists_false_before_save_true_after() {
    let mut store = WalletStore::new();
    assert!(!store.wallet_exists());
    store.save_wallet("blob", "addr").unwrap();
    assert!(store.wallet_exists());
}

#[test]
fn read_before_save_is_not_found() {
    let mut store = WalletStore::new();
    let err = store.read_wallet().unwrap_err();
    assert!(err.is_not_found());
    assert_eq!(err.into_message(), "No wallet file found.");
}

#[test]
fn read_address_before_save_is_not_found() {
    let mut store = WalletStore::new();
    let err = store.read_address().unwrap_err();
    assert!(err.is_not_found());
    assert_eq!(err.into_message(), "No wallet address file found.");
}

#[test]
fn every_operation_creates_the_directory() {
    let mut store = WalletStore::new();
    assert!(!store.dir_exists);
    let _ = store.read_wallet();
    assert!(store.dir_exists);

    let mut store = WalletStore::new();
    let _ = store.read_address();
    assert!(store.dir_exists);

    let mut store = WalletStore::new();
    let _ = store.wallet_exists();
    assert!(store.dir_exists);

    let mut store = WalletStore::new();
    store.save_wallet("blob", "addr").unwrap();
    assert!(store.dir_exists);
}

#[test]
fn save_succeeds_with_no_preexisting_directory() {
    let mut store = WalletStore::new();
    assert!(!store.dir_exists);
    let message = store.save_wallet("blob", "addr").unwrap();
    assert_eq!(message, "Saved successfully");
}

#[test]
fn failed_keystore_write_reports_io_and_changes_no_file() {
    let mut store = WalletStore::new();
    store.save_wallet("old", "old-addr").unwrap();
    let err = store
        .save_wallet_with("new", "new-addr", Err(String::from("disk full")), Ok(()))
        .unwrap_err();
    assert!(!err.is_not_found());
    assert_eq!(err.into_message(), "disk full");
    assert_eq!(store.read_wallet().unwrap(), "old");
    assert_eq!(store.read_address().unwrap(), "old-addr");
}

#[test]
fn failed_address_write_leaves_keystore_updated() {
    let mut store = WalletStore::new();
    store.save_wallet("old", "old-addr").unwrap();
    let err = store
        .save_wallet_with("new", "new-addr", Ok(()), Err(String::from("permission denied")))
        .unwrap_err();
    assert!(!err.is_not_found());
    assert_eq!(err.into_message(), "permission denied");
    assert_eq!(store.read_wallet().unwrap(), "new");
    assert_eq!(store.read_address().unwrap(), "old-addr");
}

#[test]
fn concrete_scenario() {
    let mut store = WalletStore::new();
    store.save_wallet("ENCRYPTED_BLOB_1", "0xABC123").unwrap();
    assert_eq!(store.read_wallet().unwrap(), "ENCRYPTED_BLOB_1");
    assert_eq!(store.read_address().unwrap(), "0xABC123");
    assert!(store.wallet_exists());
    store.save_wallet("ENCRYPTED_BLOB_2", "").unwrap();
    assert_eq!(store.read_wallet().unwrap(), "ENCRYPTED_BLOB_2");
}

#[test]
fn empty_contents_round_trip() {
    let mut store = WalletStore::new();
    store.save_wallet("", "").unwrap();
    assert_eq!(store.read_wallet().unwrap(), "");
    assert_eq!(store.read_address().unwrap(), "");
    assert!(store.wallet_exists());
}
