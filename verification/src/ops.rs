//! Outcome decisions and result texts of the command surface.
//!
//! The copy loops and registries decide the hard cases; what remains of each
//! command is a small decision (which remote primitive a delete uses, whether
//! an authentication attempt counts as accepted) and the human-readable
//! summary a successful command reports. Both are kept here, exactly
//! specified, so the I/O layer only relays them.

use vstd::prelude::*;

use crate::errors::SftpError;
use crate::errors::SftpErrorView;
use crate::text::spec_decimal;
use crate::text::u64_to_decimal;

verus! {

/// Which remote primitive a delete request uses.
#[derive(Debug, Clone, Copy, PartialEq, Eq, Structural)]
pub enum RemoteDeleteOp {
    /// Remove a directory.
    Rmdir,
    /// Unlink a file.
    Unlink,
}

/// The delete branch: the caller's flag picks the primitive; the target's
/// actual type is not independently verified.
pub fn delete_operation(is_dir: bool) -> (r: RemoteDeleteOp)
    ensures
        r == (if is_dir {
            RemoteDeleteOp::Rmdir
        } else {
            RemoteDeleteOp::Unlink
        }),
{
    if is_dir {
        RemoteDeleteOp::Rmdir
    } else {
        RemoteDeleteOp::Unlink
    }
}

/// The decision after a password authentication attempt: only a session the
/// peer reports as authenticated may proceed; anything else is an
/// authentication failure.
pub fn auth_check(authenticated: bool) -> (r: Result<(), SftpError>)
    ensures
        r is Ok <==> authenticated,
        r is Err ==> r->Err_0@ == SftpErrorView::Authentication("credentials rejected"@),
{
    if authenticated {
        Ok(())
    } else {
        Err(SftpError::Authentication(String::from_str("credentials rejected")))
    }
}

/// The summary of a successful pre-flight connection test.
pub fn test_connection_summary() -> (r: String)
    ensures
        r@ == "connection successful"@,
{
    String::from_str("connection successful")
}

/// The summary of a finished download, quoting the bytes moved.
pub fn download_summary(bytes: u64) -> (r: String)
    ensures
        r@ == "download complete: "@ + spec_decimal(bytes as nat) + " bytes"@,
{
    String::from_str("download complete: ").concat(u64_to_decimal(bytes).as_str()).concat(" bytes")
}

/// The summary of a finished upload from a local file.
pub fn upload_summary() -> (r: String)
    ensures
        r@ == "upload complete"@,
{
    String::from_str("upload complete")
}

/// The summary of a finished upload of an already-decoded byte payload.
pub fn upload_data_summary(file_name: &str) -> (r: String)
    ensures
        r@ == "file "@ + file_name@ + " uploaded"@,
{
    String::from_str("file ").concat(file_name).concat(" uploaded")
}

/// The summary of a created remote directory.
pub fn create_directory_summary() -> (r: String)
    ensures
        r@ == "directory created"@,
{
    String::from_str("directory created")
}

/// The summary of a deleted remote entry.
pub fn delete_summary() -> (r: String)
    ensures
        r@ == "deleted"@,
{
    String::from_str("deleted")
}

/// The summary of a disconnect; absence of the session reports the same.
pub fn disconnect_summary() -> (r: String)
    ensures
        r@ == "disconnected"@,
{
    String::from_str("disconnected")
}

/// The summary of a delivered cancel request.
pub fn cancel_summary(transfer_id: &str) -> (r: String)
    ensures
        r@ == "transfer "@ + transfer_id@ + " cancelled"@,
{
    String::from_str("transfer ").concat(transfer_id).concat(" cancelled")
}

/// The diagnostic for a registered session whose working directory could be
/// queried.
pub fn connection_active_summary(cwd: &str) -> (r: String)
    ensures
        r@ == "connection active, current directory: "@ + cwd@,
{
    String::from_str("connection active, current directory: ").concat(cwd)
}

/// The diagnostic for a registered session whose working directory query
/// failed: presence in the registry, not full health, is what is asserted,
/// so this is still a success.
pub fn connection_active_no_cwd_summary(detail: &str) -> (r: String)
    ensures
        r@ == "connection active, but the working directory is unavailable: "@ + detail@,
{
    String::from_str("connection active, but the working directory is unavailable: ").concat(detail)
}

} // verus!
