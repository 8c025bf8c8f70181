use vstd::prelude::*;
use crate::error::CommandError;
use fs_extra::dir::CopyOptions;

verus! {

#[verifier::external_type_specification]
pub struct ExCopyOptions(fs_extra::dir::CopyOptions);

#[verifier::external_type_specification]
#[verifier::external_body]
pub struct ExFsError(fs_extra::error::Error);

/// Relies on fs_extra's `CopyOptions::new`: the documented defaults.
pub assume_specification[ fs_extra::dir::CopyOptions::new ]() -> (r: CopyOptions)
    ensures
        !r.overwrite,
        !r.skip_exist,
        r.buffer_size == 64000,
        !r.copy_inside,
        !r.content_only,
        r.depth == 0,
;

/// Relies on fs_extra's `dir::create` without erasing: it creates one
/// directory, or reports why it cannot.
#[verifier::external_body]
fn create_dir(path: &str) -> Result<(), fs_extra::error::Error> {
    fs_extra::dir::create(path, false)
}

/// Relies on the `kind` field of fs_extra's `Error`: whether the failure
/// was that the path already exists.
#[verifier::external_body]
fn is_already_exists(e: &fs_extra::error::Error) -> bool {
    matches!(e.kind, fs_extra::error::ErrorKind::AlreadyExists)
}

/// Relies on the `Debug` impl of fs_extra's `Error`: the diagnostic text
/// that a copy error carries.
#[verifier::external_body]
fn describe_fs_error(e: &fs_extra::error::Error) -> String {
    format!("{:?}", e)
}

/// Relies on fs_extra's `copy_items` with the single item `source`: it
/// copies it into `dest` with the given options, or reports why it cannot.
#[verifier::external_body]
fn copy_item(source: &str, dest: &str, options: &CopyOptions) -> Result<
    u64,
    fs_extra::error::Error,
> {
    fs_extra::copy_items(&[source], dest, options)
}

/// The options of every copy: existing files are overwritten, and all
/// else is left at the defaults, so a directory is copied recursively
/// under its own name.
pub fn overwrite_options() -> (r: CopyOptions)
    ensures
        r.overwrite,
        !r.skip_exist,
        r.buffer_size == 64000,
        !r.copy_inside,
        !r.content_only,
        r.depth == 0,
{
    let mut options = CopyOptions::new();
    options.overwrite = true;
    options
}

/// What creating the destination directory led to.
#[derive(Debug)]
pub enum DestinationSetup {
    Created,
    AlreadyExists,
    /// Any other failure, with the filesystem's diagnostic.
    Failed(String),
}

/// The error that ends a copy before it starts: none when the destination
/// was created or was already there, a copy error carrying the diagnostic
/// otherwise.
pub fn setup_error(setup: DestinationSetup) -> (r: Option<CommandError>)
    ensures
        r is None <==> !(setup is Failed),
        setup matches DestinationSetup::Failed(d) ==> r matches Some(e) && e is CopyError
            && e.text() == d@,
{
    match setup {
        DestinationSetup::Failed(d) => Some(CommandError::CopyError(d)),
        _ => None,
    }
}

/// The response to a copy request, given what the copy did: success, or a
/// copy error carrying the filesystem's diagnostic unchanged.
pub fn copy_response(copied: Result<u64, String>) -> (r: Result<(), CommandError>)
    ensures
        r is Ok <==> copied is Ok,
        copied matches Err(d) ==> r matches Err(e) && e is CopyError && e.text() == d@,
{
    match copied {
        Ok(_) => Ok(()),
        Err(d) => Err(CommandError::CopyError(d)),
    }
}

/// Copies `source` recursively into `dest`, overwriting existing files.
/// The destination directory is created first; that it exists already is
/// no failure. The outcome depends on the filesystem: any failure is a
/// copy error, and files copied before it stay in place.
pub fn copy_dir(source: String, dest: String) -> (r: Result<(), CommandError>)
    ensures
        r matches Err(e) ==> e is CopyError,
{
    let setup = match create_dir(dest.as_str()) {
        Ok(()) => DestinationSetup::Created,
        Err(e) => if is_already_exists(&e) {
            DestinationSetup::AlreadyExists
        } else {
            DestinationSetup::Failed(describe_fs_error(&e))
        },
    };
    if let Some(e) = setup_error(setup) {
        return Err(e);
    }
    let options = overwrite_options();
    let copied = match copy_item(source.as_str(), dest.as_str(), &options) {
        Ok(n) => Ok(n),
        Err(e) => Err(describe_fs_error(&e)),
    };
    copy_response(copied)
}

} // verus!
