use secure_storage::error::StorageError;
use secure_storage::mobile::BridgeFault;
use secure_storage::mobile::MethodName;
use secure_storage::mobile::SecureStorage;
use secure_storage::models::GetItemResponse;
use secure_storage::models::OptionsRequest;

fn request(key: Option<&str>, data: Option<&str>) -> OptionsRequest {
    OptionsRequest {
        prefixed_key: key.map(|k| k.to_string()),
        data: data.map(|d| d.to_string()),
        sync: None,
        keychain_access: None,
    }
}

#[test]
fn get_plan_forwards_request_unmodified() {
    let gateway = SecureStorage::new();
    let call = gateway
        .get_item(request(Some("token"), None))
        .expect("a valid read plans a call");
    assert_eq!(call.method, MethodName::GetItem);
    assert_eq!(call.payload, request(Some("token"), None));
}

#[test]
fn get_plan_without_key_is_invalid_request() {
    let gateway = SecureStorage::new();
    let planned = gateway.get_item(request(None, None));
    assert!(matches!(planned, Err(StorageError::InvalidRequest)));
}

#[test]
fn set_plan_forwards_request_unmodified() {
    let gateway = SecureStorage::new();
    let call = gateway
        .set_item(request(Some("token"), Some("abc123")))
        .expect("a valid write plans a call");
    assert_eq!(call.method, MethodName::SetItem);
    assert_eq!(call.payload, request(Some("token"), Some("abc123")));
}

#[test]
fn set_plan_without_key_or_value_is_invalid_request() {
    let gateway = SecureStorage::new();
    let no_key = gateway.set_item(request(None, Some("abc123")));
    assert!(matches!(no_key, Err(StorageError::InvalidRequest)));
    let no_value = gateway.set_item(request(Some("token"), None));
    assert!(matches!(no_value, Err(StorageError::InvalidRequest)));
}

#[test]
fn remove_plan_forwards_request_unmodified() {
    let gateway = SecureStorage::new();
    let call = gateway
        .remove_item(request(Some("token"), None))
        .expect("a valid removal plans a call");
    assert_eq!(call.method, MethodName::RemoveItem);
    assert_eq!(call.payload, request(Some("token"), None));
}

#[test]
fn remove_plan_without_key_is_invalid_request() {
    let gateway = SecureStorage::new();
    let planned = gateway.remove_item(request(None, None));
    assert!(matches!(planned, Err(StorageError::InvalidRequest)));
}

#[test]
fn sync_plan_takes_any_request_shape() {
    let gateway = SecureStorage::new();
    let call = gateway.set_synchronize_keychain(request(None, None));
    assert_eq!(call.method, MethodName::SetSynchronizeKeychain);
    assert_eq!(call.payload, request(None, None));
}

#[test]
fn delivered_reply_is_returned_verbatim() {
    let gateway = SecureStorage::new();
    let reply = Ok(GetItemResponse {
        data: Some("abc123".to_string()),
    });
    let interpreted = gateway.interpret_reply(reply);
    assert_eq!(
        interpreted,
        Ok(GetItemResponse {
            data: Some("abc123".to_string())
        })
    );
}

#[test]
fn delivered_absent_reply_stays_absent_not_error() {
    let gateway = SecureStorage::new();
    let reply = Ok(GetItemResponse { data: None });
    let interpreted = gateway.interpret_reply(reply);
    assert_eq!(interpreted, Ok(GetItemResponse { data: None }));
}

#[test]
fn native_failure_is_backend_error() {
    let gateway = SecureStorage::new();
    let reply: Result<bool, BridgeFault> = Err(BridgeFault);
    let interpreted = gateway.interpret_reply(reply);
    assert_eq!(interpreted, Err(StorageError::BackendError));
}

#[test]
fn method_names_match_the_wire_spelling() {
    assert_eq!(MethodName::GetItem.as_str(), "getItem");
    assert_eq!(MethodName::SetItem.as_str(), "setItem");
    assert_eq!(MethodName::RemoveItem.as_str(), "removeItem");
    assert_eq!(
        MethodName::SetSynchronizeKeychain.as_str(),
        "setSynchronizeKeychain"
    );
}
