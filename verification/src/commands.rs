use vstd::prelude::*;

use crate::desktop;
use crate::desktop::spec_get_response;
use crate::error::StorageError;
use crate::mobile::spec_forward;
use crate::mobile::BridgeFault;
use crate::models::GetItemResponse;
use crate::models::OptionsRequest;

verus! {

/// Routes a read to the active gateway: the desktop gateway, the one
/// variant whose backend this library reaches directly. (The mobile
/// variant's calls are planned and interpreted for the host runtime to
/// perform instead.)
pub fn get_item(storage: &desktop::SecureStorage, payload: OptionsRequest) -> (r: Result<
    GetItemResponse,
    StorageError,
>)
    ensures
        payload.read_valid() <==> r is Ok,
        !payload.read_valid() ==> r == Err::<GetItemResponse, StorageError>(StorageError::InvalidRequest),
{
    storage.get_item(payload)
}

/// Routes a write to the active gateway, returning whatever it returns:
/// the value written, or the failure.
pub fn set_item(storage: &desktop::SecureStorage, payload: OptionsRequest) -> (r: Result<
    String,
    StorageError,
>)
    ensures
        !payload.write_valid() <==> r == Err::<String, StorageError>(StorageError::InvalidRequest),
        payload.write_valid() ==> (r == Ok::<String, StorageError>(payload.data.unwrap()) || r == Err::<
            String,
            StorageError,
        >(StorageError::BackendError)),
{
    storage.set_item(payload)
}

/// Routes a removal to the active gateway, returning whether an entry
/// existed and was removed.
pub fn remove_item(storage: &desktop::SecureStorage, payload: OptionsRequest) -> (r: Result<
    bool,
    StorageError,
>)
    ensures
        !payload.read_valid() <==> r == Err::<bool, StorageError>(StorageError::InvalidRequest),
        payload.read_valid() ==> (r == Ok::<bool, StorageError>(true) || r == Ok::<bool, StorageError>(false) || r
            == Err::<bool, StorageError>(StorageError::BackendError)),
{
    storage.remove_item(payload)
}

/// Routes the sync-flag toggle to the active gateway. The operation is
/// best effort: no failure is surfaced to the caller.
pub fn set_synchronize_keychain(storage: &desktop::SecureStorage, payload: OptionsRequest) {
    storage.set_synchronize_keychain(payload)
}

/// A key never written reads back as an absent value, not as an error, on
/// both backends: the desktop read policy collapses the store's failure
/// report into a successful response with an absent value, and the mobile
/// reply policy returns the bridge's successful absent reply verbatim.
pub proof fn lemma_never_written_reads_absent(
    store_reply: Result<String, keyring::Error>,
    bridge_reply: Result<GetItemResponse, BridgeFault>,
)
    requires
        store_reply is Err,
        bridge_reply matches Ok(resp) && resp.data is None,
    ensures
        spec_get_response(store_reply).data is None,
        spec_forward(bridge_reply) matches Ok(resp) && resp.data is None,
{
}

} // verus!
