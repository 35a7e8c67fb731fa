use dcprov::cmd::DcProvError;
use dcprov::credentials::{
    credential_entry, delete_dracoon_env, deletion_allowed, deletion_outcome, entry_outcome,
    get_dracoon_env, lookup_outcome, set_dracoon_env, storage_outcome, SERVICE_NAME,
};

/// The tests keep their tokens in the in-memory store of `keyring`, so that
/// they leave the store of the machine alone.
fn use_mock_store() {
    keyring::set_default_credential_builder(keyring::mock::default_credential_builder());
}

#[test]
fn service_name_is_the_name_of_the_client() {
    assert_eq!(SERVICE_NAME, "dcprov");
}

#[test]
fn token_that_was_never_stored_is_no_account() {
    use_mock_store();
    let entry = credential_entry("https://never-stored.example.com").unwrap();
    assert!(matches!(get_dracoon_env(&entry), Err(DcProvError::InvalidAccount)));
}

#[test]
fn delete_of_token_that_is_not_there_is_invalid_account() {
    use_mock_store();
    let entry = credential_entry("https://nothing-to-delete.example.com").unwrap();
    let r = delete_dracoon_env(&entry);
    assert!(matches!(r, Err(DcProvError::InvalidAccount)));
    assert!(!matches!(r, Err(DcProvError::CredentialDeletionFailed)));
    assert!(!matches!(r, Err(DcProvError::CredentialStorageFailed)));
}

#[test]
fn stored_token_is_found_again() {
    use_mock_store();
    let entry = credential_entry("https://stored.example.com").unwrap();
    assert!(set_dracoon_env(&entry, "SECRET-REDACTED").is_ok());
    assert_eq!(get_dracoon_env(&entry).unwrap(), "SECRET-REDACTED");
}

#[test]
fn stored_token_is_replaced_by_the_next() {
    use_mock_store();
    let entry = credential_entry("https://replaced.example.com").unwrap();
    set_dracoon_env(&entry, "first").unwrap();
    set_dracoon_env(&entry, "second").unwrap();
    assert_eq!(get_dracoon_env(&entry).unwrap(), "second");
}

#[test]
fn deleted_token_is_gone() {
    use_mock_store();
    let entry = credential_entry("https://deleted.example.com").unwrap();
    set_dracoon_env(&entry, "token").unwrap();
    assert!(delete_dracoon_env(&entry).is_ok());
    assert!(matches!(get_dracoon_env(&entry), Err(DcProvError::InvalidAccount)));
    assert!(matches!(delete_dracoon_env(&entry), Err(DcProvError::InvalidAccount)));
}

#[test]
fn store_that_refuses_a_token_fails_the_storage() {
    assert!(storage_outcome(Ok(())).is_ok());
    assert!(matches!(
        storage_outcome(Err(keyring::Error::NoEntry)),
        Err(DcProvError::CredentialStorageFailed)
    ));
    assert!(deletion_outcome(Ok(())).is_ok());
    assert!(matches!(
        deletion_outcome(Err(keyring::Error::NoEntry)),
        Err(DcProvError::CredentialDeletionFailed)
    ));
    assert!(deletion_allowed(Ok("token".to_string())).is_ok());
    assert!(matches!(
        deletion_allowed(Err(keyring::Error::NoEntry)),
        Err(DcProvError::InvalidAccount)
    ));
    assert_eq!(lookup_outcome(Ok("token".to_string())).unwrap(), "token");
    assert!(matches!(
        lookup_outcome(Err(keyring::Error::NoStorageAccess("locked".into()))),
        Err(DcProvError::InvalidAccount)
    ));
}

#[test]
fn failure_of_the_store_is_reported_in_the_terms_of_the_client() {
    use_mock_store();
    let entry = credential_entry("https://failing.example.com").unwrap();
    let mock: &keyring::mock::MockCredential = entry.get_credential().downcast_ref().unwrap();
    mock.set_error(keyring::Error::Invalid("service".to_string(), "refused".to_string()));
    assert!(matches!(
        set_dracoon_env(&entry, "token"),
        Err(DcProvError::CredentialStorageFailed)
    ));
    set_dracoon_env(&entry, "token").unwrap();
    mock.set_error(keyring::Error::NoStorageAccess("locked".into()));
    assert!(matches!(get_dracoon_env(&entry), Err(DcProvError::InvalidAccount)));
    assert_eq!(get_dracoon_env(&entry).unwrap(), "token");
    mock.set_error(keyring::Error::NoStorageAccess("locked".into()));
    assert!(matches!(delete_dracoon_env(&entry), Err(DcProvError::InvalidAccount)));
    assert_eq!(get_dracoon_env(&entry).unwrap(), "token");
}

#[test]
fn handle_that_could_not_be_had_fails_the_storage() {
    use_mock_store();
    let entry = keyring::Entry::new(SERVICE_NAME, "https://handle.example.com").unwrap();
    entry.set_password("kept").unwrap();
    let passed = entry_outcome(Ok(entry)).unwrap();
    assert_eq!(get_dracoon_env(&passed).unwrap(), "kept");
    assert!(matches!(
        entry_outcome(Err(keyring::Error::TooLong("user".to_string(), 8))),
        Err(DcProvError::CredentialStorageFailed)
    ));
}
