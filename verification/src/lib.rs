//! Core engine of an SFTP client: a session registry, a directory lister,
//! a chunked transfer controller with progress reporting and cooperative
//! cancellation, and a cancellation registry.
//!
//! The engine is pure logic: network and file I/O stay with the caller, which
//! hands decoded bytes, raw directory entries and observed chunk sizes in and
//! receives structured events and results back.

pub mod cancel;
pub mod errors;
pub mod listing;
pub mod names;
pub mod ops;
pub mod session;
pub mod text;
pub mod transfer;

pub use cancel::CancelRegistry;
pub use errors::SftpError;
pub use listing::FileInfo;
pub use listing::RawDirEntry;
pub use session::SessionRegistry;
pub use session::SftpConnectionInfo;
pub use transfer::ProgressEvent;
pub use transfer::TransferProgress;
pub use transfer::TransferStatus;
