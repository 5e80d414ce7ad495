use vstd::prelude::*;

use crate::error::StorageError;
use crate::models::OptionsRequest;

verus! {

/// The methods the natively registered plugin understands.
#[derive(Clone, Copy, Debug, PartialEq, Eq, Structural)]
pub enum MethodName {
    GetItem,
    SetItem,
    RemoveItem,
    SetSynchronizeKeychain,
}

/// One planned invocation of the native plugin: which method to run, and
/// the request to forward to it unmodified.
pub struct PluginCall {
    pub method: MethodName,
    pub payload: OptionsRequest,
}

/// A native-side failure. Whatever the plugin reported is opaque by the
/// time it crosses the bridge.
#[derive(Clone, Copy, Debug, PartialEq, Eq, Structural)]
pub struct BridgeFault;

/// The mobile credential gateway. It keeps no state of its own: the
/// natively registered plugin handle lives with the host runtime, which
/// performs each planned call and hands the reply back to be interpreted.
pub struct SecureStorage;

/// What the mobile reply policy yields: a reply the native side delivered
/// is returned verbatim, and a native failure is propagated as a backend
/// failure, never collapsed to an absent value.
pub open spec fn spec_forward<T>(reply: Result<T, BridgeFault>) -> Result<T, StorageError> {
    match reply {
        Ok(value) => Ok(value),
        Err(_) => Err(StorageError::BackendError),
    }
}

impl MethodName {
    /// The method name as the plugin bridge spells it.
    pub fn as_str(&self) -> (r: &'static str)
        ensures
            self is GetItem ==> r@ == "getItem"@,
            self is SetItem ==> r@ == "setItem"@,
            self is RemoveItem ==> r@ == "removeItem"@,
            self is SetSynchronizeKeychain ==> r@ == "setSynchronizeKeychain"@,
    {
        match self {
            MethodName::GetItem => "getItem",
            MethodName::SetItem => "setItem",
            MethodName::RemoveItem => "removeItem",
            MethodName::SetSynchronizeKeychain => "setSynchronizeKeychain",
        }
    }
}

impl SecureStorage {
    /// A gateway for the platform's registered plugin handle.
    pub fn new() -> SecureStorage {
        SecureStorage
    }

    /// Plans a read. A request without a key is rejected before any bridge
    /// call is planned; otherwise the request goes to `getItem` unmodified.
    pub fn get_item(&self, payload: OptionsRequest) -> (r: Result<PluginCall, StorageError>)
        ensures
            !payload.read_valid() <==> r == Err::<PluginCall, StorageError>(StorageError::InvalidRequest),
            payload.read_valid() ==> (r matches Ok(call) && call.method is GetItem && call.payload
                == payload),
    {
        if payload.prefixed_key.is_none() {
            return Err(StorageError::InvalidRequest);
        }
        Ok(PluginCall { method: MethodName::GetItem, payload })
    }

    /// Plans a write. A request without a key or without a value is
    /// rejected before any bridge call is planned; otherwise the request
    /// goes to `setItem` unmodified.
    pub fn set_item(&self, payload: OptionsRequest) -> (r: Result<PluginCall, StorageError>)
        ensures
            !payload.write_valid() <==> r == Err::<PluginCall, StorageError>(StorageError::InvalidRequest),
            payload.write_valid() ==> (r matches Ok(call) && call.method is SetItem && call.payload
                == payload),
    {
        if payload.prefixed_key.is_none() || payload.data.is_none() {
            return Err(StorageError::InvalidRequest);
        }
        Ok(PluginCall { method: MethodName::SetItem, payload })
    }

    /// Plans a removal. A request without a key is rejected before any
    /// bridge call is planned; otherwise the request goes to `removeItem`
    /// unmodified.
    pub fn remove_item(&self, payload: OptionsRequest) -> (r: Result<PluginCall, StorageError>)
        ensures
            !payload.read_valid() <==> r == Err::<PluginCall, StorageError>(StorageError::InvalidRequest),
            payload.read_valid() ==> (r matches Ok(call) && call.method is RemoveItem
                && call.payload == payload),
    {
        if payload.prefixed_key.is_none() {
            return Err(StorageError::InvalidRequest);
        }
        Ok(PluginCall { method: MethodName::RemoveItem, payload })
    }

    /// Plans the sync-flag toggle. The operation is fire and forget: no
    /// request shape is rejected, and the host surfaces no failure of it.
    pub fn set_synchronize_keychain(&self, payload: OptionsRequest) -> (r: PluginCall)
        ensures
            r.method is SetSynchronizeKeychain,
            r.payload == payload,
    {
        PluginCall { method: MethodName::SetSynchronizeKeychain, payload }
    }

    /// Interprets the bridge's reply to a planned call: a delivered reply
    /// is returned verbatim, and a native failure is a backend failure.
    pub fn interpret_reply<T>(&self, reply: Result<T, BridgeFault>) -> (r: Result<T, StorageError>)
        ensures
            r == spec_forward(reply),
    {
        match reply {
            Ok(value) => Ok(value),
            Err(_) => Err(StorageError::BackendError),
        }
    }
}

} // verus!
