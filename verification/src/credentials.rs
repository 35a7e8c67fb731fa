//! The stored token of an endpoint. The platform's secret store keeps one
//! token per service and address; this module reads, writes and deletes it
//! and says in the client's own terms how that went.

use crate::cmd::models::DcProvError;
use vstd::prelude::*;

verus! {

/// The name of the service under which tokens are stored.
pub const SERVICE_NAME: &'static str = "dcprov";

/// `keyring::Entry`, the handle of one stored secret.
#[verifier::external_type_specification]
#[verifier::external_body]
pub struct ExEntry(keyring::Entry);

/// `keyring::Error`, carried through as it came.
#[verifier::external_type_specification]
#[verifier::external_body]
pub struct ExKeyringError(keyring::Error);

/// `keyring::Entry::new`. Whether a handle can be had depends on the
/// platform and its store, so nothing is promised of the outcome.
#[verifier::external_body]
fn entry_of(service: &str, address: &str) -> (r: Result<keyring::Entry, keyring::Error>) {
    keyring::Entry::new(service, address)
}

/// `keyring::Entry::get_password`. What is stored depends on the platform
/// and on what happened before, so nothing is promised of the outcome.
#[verifier::external_body]
fn stored_secret(entry: &keyring::Entry) -> (r: Result<String, keyring::Error>) {
    entry.get_password()
}

/// `keyring::Entry::set_password`. Whether the store takes the secret
/// depends on the platform, so nothing is promised of the outcome.
#[verifier::external_body]
fn store_secret(entry: &keyring::Entry, secret: &str) -> (r: Result<(), keyring::Error>) {
    entry.set_password(secret)
}

/// `keyring::Entry::delete_credential`. Whether the store lets go of the
/// secret depends on the platform, so nothing is promised of the outcome.
#[verifier::external_body]
fn delete_secret(entry: &keyring::Entry) -> (r: Result<(), keyring::Error>) {
    entry.delete_credential()
}

/// What an attempt to get the handle of a stored token amounts to: the
/// handle as it came, or the finding that the store cannot be used for the
/// address.
pub fn entry_outcome(made: Result<keyring::Entry, keyring::Error>) -> (r: Result<
    keyring::Entry,
    DcProvError,
>)
    ensures
        match made {
            Ok(entry) => r == Ok::<keyring::Entry, DcProvError>(entry),
            Err(_) => r matches Err(DcProvError::CredentialStorageFailed),
        },
{
    match made {
        Ok(entry) => Ok(entry),
        Err(_) => Err(DcProvError::CredentialStorageFailed),
    }
}

/// What a lookup in the store amounts to: the token, or the finding that
/// the account has none.
pub fn lookup_outcome(found: Result<String, keyring::Error>) -> (r: Result<String, DcProvError>)
    ensures
        match found {
            Ok(token) => r == Ok::<String, DcProvError>(token),
            Err(_) => r matches Err(DcProvError::InvalidAccount),
        },
{
    match found {
        Ok(token) => Ok(token),
        Err(_) => Err(DcProvError::InvalidAccount),
    }
}

/// What an attempt to store a token amounts to.
pub fn storage_outcome(stored: Result<(), keyring::Error>) -> (r: Result<(), DcProvError>)
    ensures
        stored is Ok ==> r is Ok,
        stored is Err ==> r matches Err(DcProvError::CredentialStorageFailed),
{
    match stored {
        Ok(_) => Ok(()),
        Err(_) => Err(DcProvError::CredentialStorageFailed),
    }
}

/// Whether a stored token may be deleted: only one that is there. Where
/// the lookup found none, the account is invalid; that is no failure of
/// the store.
pub fn deletion_allowed(found: Result<String, keyring::Error>) -> (r: Result<(), DcProvError>)
    ensures
        found is Ok ==> r is Ok,
        found is Err ==> r matches Err(DcProvError::InvalidAccount),
{
    match found {
        Ok(_) => Ok(()),
        Err(_) => Err(DcProvError::InvalidAccount),
    }
}

/// What an attempt to delete a token that is there amounts to.
pub fn deletion_outcome(deleted: Result<(), keyring::Error>) -> (r: Result<(), DcProvError>)
    ensures
        deleted is Ok ==> r is Ok,
        deleted is Err ==> r matches Err(DcProvError::CredentialDeletionFailed),
{
    match deleted {
        Ok(_) => Ok(()),
        Err(_) => Err(DcProvError::CredentialDeletionFailed),
    }
}

/// The handle of the token that is stored for `address`.
pub fn credential_entry(address: &str) -> (r: Result<keyring::Entry, DcProvError>)
    ensures
        r matches Err(e) ==> e is CredentialStorageFailed,
{
    entry_outcome(entry_of(SERVICE_NAME, address))
}

/// Stores `secret` as the token of the entry.
pub fn set_dracoon_env(entry: &keyring::Entry, secret: &str) -> (r: Result<(), DcProvError>)
    ensures
        r matches Err(e) ==> e is CredentialStorageFailed,
{
    storage_outcome(store_secret(entry, secret))
}

/// The token that is stored for the entry.
pub fn get_dracoon_env(entry: &keyring::Entry) -> (r: Result<String, DcProvError>)
    ensures
        r matches Err(e) ==> e is InvalidAccount,
{
    lookup_outcome(stored_secret(entry))
}

/// Deletes the token that is stored for the entry. Nothing is deleted
/// where none is found.
pub fn delete_dracoon_env(entry: &keyring::Entry) -> (r: Result<(), DcProvError>)
    ensures
        r matches Err(e) ==> e is InvalidAccount || e is CredentialDeletionFailed,
{
    match deletion_allowed(stored_secret(entry)) {
        Err(e) => Err(e),
        Ok(_) => deletion_outcome(delete_secret(entry)),
    }
}

} // verus!
