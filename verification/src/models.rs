use vstd::prelude::*;

verus! {

/// A single storage operation's input: which entry it addresses, what to
/// write, and platform hints that only some backends honor.
#[derive(Clone, Debug, PartialEq, Eq)]
pub struct OptionsRequest {
    /// Identifies the credential entry; absence is a caller error.
    pub prefixed_key: Option<String>,
    /// The value to store; required only for write operations.
    pub data: Option<String>,
    /// Keychain synchronization hint; ignored by backends without one.
    pub sync: Option<bool>,
    /// Accessibility-class hint; ignored by backends without one.
    pub keychain_access: Option<u32>,
}

/// A read's output. An absent value means "not found", never an error.
#[derive(Clone, Debug, PartialEq, Eq)]
pub struct GetItemResponse {
    pub data: Option<String>,
}

impl OptionsRequest {
    /// A read or a removal is well-formed when the entry key is present.
    pub open spec fn read_valid(&self) -> bool {
        self.prefixed_key is Some
    }

    /// A write is well-formed when both the key and the value are present.
    pub open spec fn write_valid(&self) -> bool {
        self.prefixed_key is Some && self.data is Some
    }
}

} // verus!
