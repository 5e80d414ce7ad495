use vstd::prelude::*;

use crate::error::StorageError;
use crate::models::{GetItemResponse, OptionsRequest};

verus! {

/// `keyring::Entry`, a handle on one credential of the local OS store,
/// declared so that it can pass through verified code; opaque here.
#[verifier::external_type_specification]
#[verifier::external_body]
pub struct ExEntry(keyring::Entry);

/// `keyring::Error`, the store's failure report, declared so that it can
/// pass through verified code; opaque here.
#[verifier::external_type_specification]
#[verifier::external_body]
pub struct ExKeyringError(keyring::Error);

/// The store's answer to a deletion, with "no such credential" told apart
/// from every other failure.
#[derive(Clone, Copy, Debug, PartialEq, Eq, Structural)]
pub enum RemoveOutcome {
    /// A credential existed and was deleted.
    Removed,
    /// No credential existed for the entry.
    Missing,
    /// The store failed the deletion for another reason.
    Failed,
}

/// Relies on `keyring::Entry::new`: builds a handle scoped by service and
/// account names; fails when the active credential store rejects them.
#[verifier::external_body]
fn entry_for(service: &str, key: &str) -> (r: Result<keyring::Entry, keyring::Error>) {
    keyring::Entry::new(service, key)
}

/// Relies on `keyring::Entry::get_password`: reads the stored secret,
/// reporting `NoEntry` when none was ever set. The outcome depends on the
/// machine's credential store, so nothing more is promised of it.
#[verifier::external_body]
fn read_password(entry: &keyring::Entry) -> (r: Result<String, keyring::Error>) {
    entry.get_password()
}

/// Relies on `keyring::Entry::set_password`: persists the given secret in
/// the underlying store. Whether the store accepts the write is its own.
#[verifier::external_body]
fn write_password(entry: &keyring::Entry, value: &str) -> (r: Result<(), keyring::Error>) {
    entry.set_password(value)
}

/// Relies on `keyring::Entry::delete_credential`: deletes the stored
/// credential, reporting `NoEntry` when none existed. The arms only tell
/// the store's outcomes apart.
#[verifier::external_body]
fn delete_credential(entry: &keyring::Entry) -> (r: RemoveOutcome) {
    match entry.delete_credential() {
        Ok(()) => RemoveOutcome::Removed,
        Err(keyring::Error::NoEntry) => RemoveOutcome::Missing,
        Err(_) => RemoveOutcome::Failed,
    }
}

/// What the desktop read policy yields for a given store lookup: a found
/// secret is the response's value, and every failure collapses to an
/// absent value.
pub open spec fn spec_get_response(lookup: Result<String, keyring::Error>) -> GetItemResponse {
    match lookup {
        Ok(data) => GetItemResponse { data: Some(data) },
        Err(_) => GetItemResponse { data: None },
    }
}

/// What the desktop write policy yields: an accepted write echoes the
/// written value, and a rejected one is a backend failure.
pub open spec fn spec_set_result(written: Result<(), keyring::Error>, value: String) -> Result<
    String,
    StorageError,
> {
    match written {
        Ok(_) => Ok(value),
        Err(_) => Err(StorageError::BackendError),
    }
}

/// What the removal policy yields: whether a credential existed and was
/// removed, with any other store failure a backend failure.
pub open spec fn spec_remove_result(outcome: RemoveOutcome) -> Result<bool, StorageError> {
    match outcome {
        RemoveOutcome::Removed => Ok(true),
        RemoveOutcome::Missing => Ok(false),
        RemoveOutcome::Failed => Err(StorageError::BackendError),
    }
}

/// Applies the desktop read policy: read failures are never surfaced,
/// only distinguished as found or absent.
pub fn get_response_of(lookup: Result<String, keyring::Error>) -> (r: GetItemResponse)
    ensures
        r == spec_get_response(lookup),
{
    match lookup {
        Ok(data) => GetItemResponse { data: Some(data) },
        Err(_) => GetItemResponse { data: None },
    }
}

/// Applies the desktop write policy to what the store answered.
pub fn set_result_of(written: Result<(), keyring::Error>, value: String) -> (r: Result<
    String,
    StorageError,
>)
    ensures
        r == spec_set_result(written, value),
{
    match written {
        Ok(_) => Ok(value),
        Err(_) => Err(StorageError::BackendError),
    }
}

/// Applies the removal policy to what the store answered.
pub fn remove_result_of(outcome: RemoveOutcome) -> (r: Result<bool, StorageError>)
    ensures
        r == spec_remove_result(outcome),
{
    match outcome {
        RemoveOutcome::Removed => Ok(true),
        RemoveOutcome::Missing => Ok(false),
        RemoveOutcome::Failed => Err(StorageError::BackendError),
    }
}

/// Removing a credential the store does not hold reports `false`, never
/// an error.
pub proof fn lemma_remove_missing_reports_false()
    ensures
        spec_remove_result(RemoveOutcome::Missing) == Ok::<bool, StorageError>(false),
{
}

/// The desktop credential gateway: each operation is one call against the
/// local OS credential manager, scoped by this gateway's service name and
/// the request's key.
pub struct SecureStorage {
    /// The credential-store namespace, the hosting application's product
    /// name, supplied at construction.
    pub service: String,
}

impl SecureStorage {
    /// A gateway scoped to the given service name.
    pub fn new(service: String) -> (r: SecureStorage)
        ensures
            r.service == service,
    {
        SecureStorage { service }
    }

    /// Desktop credential stores addressed here expose no per-entry sync
    /// toggle, so the hint is ignored.
    pub fn set_synchronize_keychain(&self, _payload: OptionsRequest) {
    }

    /// Reads the entry for the request's key. A request without a key is
    /// the caller's error; otherwise the read always succeeds, with every
    /// store failure collapsed to an absent value by the read policy.
    pub fn get_item(&self, payload: OptionsRequest) -> (r: Result<GetItemResponse, StorageError>)
        ensures
            payload.read_valid() <==> r is Ok,
            !payload.read_valid() ==> r == Err::<GetItemResponse, StorageError>(StorageError::InvalidRequest),
    {
        let key = match payload.prefixed_key {
            Some(k) => k,
            None => {
                return Err(StorageError::InvalidRequest);
            },
        };
        let lookup = match entry_for(self.service.as_str(), key.as_str()) {
            Ok(entry) => read_password(&entry),
            Err(e) => Err(e),
        };
        Ok(get_response_of(lookup))
    }

    /// Writes the request's value under its key. A request without a key
    /// or without a value is the caller's error; a write the store accepts
    /// echoes the written value, and one it rejects is a backend failure.
    pub fn set_item(&self, payload: OptionsRequest) -> (r: Result<String, StorageError>)
        ensures
            !payload.write_valid() <==> r == Err::<String, StorageError>(StorageError::InvalidRequest),
            payload.write_valid() ==> (r == Ok::<String, StorageError>(payload.data.unwrap()) || r
                == Err::<String, StorageError>(StorageError::BackendError)),
    {
        let OptionsRequest { prefixed_key, data, .. } = payload;
        let key = match prefixed_key {
            Some(k) => k,
            None => {
                return Err(StorageError::InvalidRequest);
            },
        };
        let value = match data {
            Some(v) => v,
            None => {
                return Err(StorageError::InvalidRequest);
            },
        };
        let written = match entry_for(self.service.as_str(), key.as_str()) {
            Ok(entry) => write_password(&entry, value.as_str()),
            Err(e) => Err(e),
        };
        set_result_of(written, value)
    }

    /// Deletes the entry for the request's key. A request without a key is
    /// the caller's error; the result reports whether a credential existed
    /// and was removed, and any other store failure is a backend failure.
    pub fn remove_item(&self, payload: OptionsRequest) -> (r: Result<bool, StorageError>)
        ensures
            !payload.read_valid() <==> r == Err::<bool, StorageError>(StorageError::InvalidRequest),
            payload.read_valid() ==> (r == Ok::<bool, StorageError>(true) || r == Ok::<bool, StorageError>(false)
                || r == Err::<bool, StorageError>(StorageError::BackendError)),
    {
        let key = match payload.prefixed_key {
            Some(k) => k,
            None => {
                return Err(StorageError::InvalidRequest);
            },
        };
        let outcome = match entry_for(self.service.as_str(), key.as_str()) {
            Ok(entry) => delete_credential(&entry),
            Err(_) => RemoveOutcome::Failed,
        };
        remove_result_of(outcome)
    }
}

} // verus!
