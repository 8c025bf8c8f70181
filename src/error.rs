use vstd::prelude::*;

verus! {

/// The failures a command reports to the front end. Each carries the
/// text that the front end shows, which embeds the diagnostic of the
/// library that failed.
#[derive(Debug)]
pub enum CommandError {
    /// The secret store could not be opened for writing, or refused the write.
    CredentialStoreError(String),
    /// The secret store could not be opened for reading, or holds no such entry.
    CredentialLookupError(String),
    /// Setting up the destination or copying a file failed.
    CopyError(String),
}

impl CommandError {
    /// The text carried by the error, whatever its kind.
    pub open spec fn text(self) -> Seq<char> {
        match self {
            CommandError::CredentialStoreError(m) => m@,
            CommandError::CredentialLookupError(m) => m@,
            CommandError::CopyError(m) => m@,
        }
    }

    /// The text that the front end receives for this error.
    pub fn into_message(self) -> (r: String)
        ensures
            r@ == self.text(),
    {
        match self {
            CommandError::CredentialStoreError(m) => m,
            CommandError::CredentialLookupError(m) => m,
            CommandError::CopyError(m) => m,
        }
    }
}

} // verus!
