use manipulator_backend::credentials::{
    get_password, lookup_response, store_password, store_response, CredentialFailure,
    SERVICE_NAME,
};
use manipulator_backend::error::CommandError;

#[test]
fn service_name_is_fixed() {
    assert_eq!(SERVICE_NAME, "mega-manipipulator");
}

#[test]
fn store_response_success() {
    assert!(store_response(Ok(())).is_ok());
}

#[test]
fn store_response_entry_unavailable() {
    let r = store_response(Err(CredentialFailure::EntryUnavailable("NoStorageAccess".to_string())));
    match r {
        Err(CommandError::CredentialStoreError(m)) => assert_eq!(
            m,
            "Failed fetching the password entry to write to. NoStorageAccess"
        ),
        other => panic!("unexpected {:?}", other),
    }
}

#[test]
fn store_response_write_rejected() {
    let r = store_response(Err(CredentialFailure::OperationFailed("PlatformFailure".to_string())));
    match r {
        Err(e @ CommandError::CredentialStoreError(_)) => {
            assert_eq!(e.into_message(), "Failed setting password. PlatformFailure")
        }
        other => panic!("unexpected {:?}", other),
    }
}

#[test]
fn lookup_response_returns_password_unchanged() {
    let r = lookup_response(Ok("s3cr3t pass".to_string()));
    assert_eq!(r.unwrap(), "s3cr3t pass");
}

#[test]
fn lookup_response_entry_unavailable() {
    let r = lookup_response(Err(CredentialFailure::EntryUnavailable("x".to_string())));
    match r {
        Err(CommandError::CredentialLookupError(m)) => {
            assert_eq!(m, "Failed getting password entry to read from. x")
        }
        other => panic!("unexpected {:?}", other),
    }
}

#[test]
fn lookup_response_no_entry() {
    let r = lookup_response(Err(CredentialFailure::OperationFailed("NoEntry".to_string())));
    match r {
        Err(CommandError::CredentialLookupError(m)) => {
            assert_eq!(m, "Failed getting password. NoEntry")
        }
        other => panic!("unexpected {:?}", other),
    }
}

#[test]
fn never_stored_username_fails_lookup() {
    let r = get_password("user-that-was-never-stored-7c1f".to_string());
    match r {
        Err(CommandError::CredentialLookupError(m)) => {
            assert!(
                m.starts_with("Failed getting password. ")
                    || m.starts_with("Failed getting password entry to read from. ")
            );
            assert!(m.ends_with(')') || m.ends_with("NoEntry"));
        }
        other => panic!("unexpected {:?}", other),
    }
}

#[test]
fn store_then_retrieve_returns_stored_password() {
    let user = "round-trip-user-3a9e".to_string();
    match store_password(user.clone(), "correct horse".to_string()) {
        Ok(()) => {
            assert_eq!(get_password(user).unwrap(), "correct horse");
        }
        Err(CommandError::CredentialStoreError(m)) => {
            // Without a reachable platform store the write is refused; the
            // error then names the step and carries the store's diagnostic.
            assert!(
                m.starts_with("Failed setting password. ")
                    || m.starts_with("Failed fetching the password entry to write to. ")
            );
            assert!(get_password(user).is_err());
        }
        Err(other) => panic!("unexpected {:?}", other),
    }
}
