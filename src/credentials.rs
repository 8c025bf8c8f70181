use vstd::prelude::*;
use crate::error::CommandError;

verus! {

/// The service under which every credential of the application is kept.
pub const SERVICE_NAME: &'static str = "mega-manipipulator";

#[verifier::external_type_specification]
#[verifier::external_body]
pub struct ExEntry(keyring::Entry);

#[verifier::external_type_specification]
#[verifier::external_body]
pub struct ExKeyringError(keyring::Error);

/// Relies on keyring's `Entry::new`: it builds the entry for a service and
/// user with the platform's default store, or reports why it cannot.
/// Nothing is promised of which.
pub assume_specification[ keyring::Entry::new ](service: &str, user: &str) -> keyring::Result<
    keyring::Entry,
>;

/// Relies on keyring's `Entry::set_password`: it writes the password into
/// the platform store, or reports why it cannot. Nothing is promised of which.
pub assume_specification[ keyring::Entry::set_password ](
    entry: &keyring::Entry,
    password: &str,
) -> keyring::Result<()>;

/// Relies on keyring's `Entry::get_password`: it reads the password saved
/// for the entry, or reports why it cannot. Nothing is promised of which.
pub assume_specification[ keyring::Entry::get_password ](entry: &keyring::Entry) -> keyring::Result<
    String,
>;

/// Relies on the `Debug` impl of keyring's `Error`: the diagnostic text
/// that a failure message embeds.
#[verifier::external_body]
fn describe_keyring_error(e: &keyring::Error) -> String {
    format!("{:?}", e)
}

/// Where a secret-store operation failed, with the store's diagnostic.
#[derive(Debug)]
pub enum CredentialFailure {
    /// No entry could be opened for the service and user.
    EntryUnavailable(String),
    /// The entry was opened, but reading or writing it failed.
    OperationFailed(String),
}

/// The text reported when storing a password fails.
pub open spec fn store_failure_text(f: CredentialFailure) -> Seq<char> {
    match f {
        CredentialFailure::EntryUnavailable(d) => "Failed fetching the password entry to write to. "@
            + d@,
        CredentialFailure::OperationFailed(d) => "Failed setting password. "@ + d@,
    }
}

/// The text reported when retrieving a password fails.
pub open spec fn lookup_failure_text(f: CredentialFailure) -> Seq<char> {
    match f {
        CredentialFailure::EntryUnavailable(d) => "Failed getting password entry to read from. "@
            + d@,
        CredentialFailure::OperationFailed(d) => "Failed getting password. "@ + d@,
    }
}

/// The response to a store request, given what the secret store did.
pub fn store_response(outcome: Result<(), CredentialFailure>) -> (r: Result<(), CommandError>)
    ensures
        r is Ok <==> outcome is Ok,
        outcome matches Err(f) ==> r matches Err(e) && e is CredentialStoreError && e.text()
            == store_failure_text(f),
{
    match outcome {
        Ok(()) => Ok(()),
        Err(CredentialFailure::EntryUnavailable(d)) => {
            let m = String::from_str("Failed fetching the password entry to write to. ").concat(
                d.as_str(),
            );
            Err(CommandError::CredentialStoreError(m))
        },
        Err(CredentialFailure::OperationFailed(d)) => {
            let m = String::from_str("Failed setting password. ").concat(d.as_str());
            Err(CommandError::CredentialStoreError(m))
        },
    }
}

/// The response to a lookup request, given what the secret store did: the
/// password it returned, unchanged, or a lookup error.
pub fn lookup_response(outcome: Result<String, CredentialFailure>) -> (r: Result<
    String,
    CommandError,
>)
    ensures
        outcome matches Ok(p) ==> r matches Ok(q) && q@ == p@,
        outcome matches Err(f) ==> r matches Err(e) && e is CredentialLookupError && e.text()
            == lookup_failure_text(f),
{
    match outcome {
        Ok(p) => Ok(p),
        Err(CredentialFailure::EntryUnavailable(d)) => {
            let m = String::from_str("Failed getting password entry to read from. ").concat(
                d.as_str(),
            );
            Err(CommandError::CredentialLookupError(m))
        },
        Err(CredentialFailure::OperationFailed(d)) => {
            let m = String::from_str("Failed getting password. ").concat(d.as_str());
            Err(CommandError::CredentialLookupError(m))
        },
    }
}

/// Saves `password` for `username` under the application's service. The
/// outcome depends on the platform store: on failure the error is a
/// store error whose text names the step that failed.
pub fn store_password(username: String, password: String) -> (r: Result<(), CommandError>)
    ensures
        r matches Err(e) ==> e is CredentialStoreError && exists|f: CredentialFailure|
            e.text() == #[trigger] store_failure_text(f),
{
    let outcome = match keyring::Entry::new(SERVICE_NAME, username.as_str()) {
        Ok(entry) => match entry.set_password(password.as_str()) {
            Ok(()) => Ok(()),
            Err(e) => Err(CredentialFailure::OperationFailed(describe_keyring_error(&e))),
        },
        Err(e) => Err(CredentialFailure::EntryUnavailable(describe_keyring_error(&e))),
    };
    let ghost g = outcome;
    let r = store_response(outcome);
    proof {
        if let Err(f) = g {
            assert(store_failure_text(f) == r->Err_0.text());
        }
    }
    r
}

/// Reads the password saved for `username` under the application's
/// service. The outcome depends on the platform store: on failure the
/// error is a lookup error whose text names the step that failed.
pub fn get_password(username: String) -> (r: Result<String, CommandError>)
    ensures
        r matches Err(e) ==> e is CredentialLookupError && exists|f: CredentialFailure|
            e.text() == #[trigger] lookup_failure_text(f),
{
    let outcome = match keyring::Entry::new(SERVICE_NAME, username.as_str()) {
        Ok(entry) => match entry.get_password() {
            Ok(p) => Ok(p),
            Err(e) => Err(CredentialFailure::OperationFailed(describe_keyring_error(&e))),
        },
        Err(e) => Err(CredentialFailure::EntryUnavailable(describe_keyring_error(&e))),
    };
    let ghost g = outcome;
    let r = lookup_response(outcome);
    proof {
        if let Err(f) = g {
            assert(lookup_failure_text(f) == r->Err_0.text());
        }
    }
    r
}

} // verus!
