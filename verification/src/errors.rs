//! The error taxonomy of the launcher core.
//!
//! Failures of the verified operations are `NotFound` and
//! `AlreadyRegistered`; the remaining variants describe failures that the
//! surrounding application observes at its I/O edges (network, file
//! system, protocol handshake, malformed inbound messages) and hands back
//! into the library as plain values. `Paused` is the cooperative-abort
//! outcome of a transfer attempt: error-shaped, but recognisable by its
//! message so that callers do not treat it as fatal.

use vstd::prelude::*;
use vstd::string::StringExecFns;

verus! {

#[derive(Debug)]
pub enum LauncherError {
    /// The given download or session id is not registered.
    NotFound,
    /// A download with the given id is already registered.
    AlreadyRegistered,
    /// Connecting to the remote host or transferring data failed.
    Network { message: String },
    /// A transfer attempt stopped because its pause flag was set.
    Paused,
    /// The downloaded buffer is not a valid archive.
    ArchiveFormat,
    /// Creating, writing or chmodding a file or directory failed.
    Filesystem { message: String },
    /// The protocol upgrade of an inbound connection failed.
    Handshake { message: String },
    /// An inbound message could not be decoded.
    Serialization { message: String },
}

impl LauncherError {
    /// The human-readable message of this error, as the download
    /// manager's terminal events and command replies carry it. The
    /// session server reports its own failures in its own words at the
    /// socket edge, so a session error never surfaces with a download
    /// message.
    pub open spec fn describe_spec(&self) -> Seq<char> {
        match self {
            LauncherError::NotFound => "Download not found"@,
            LauncherError::AlreadyRegistered => "Download already registered"@,
            LauncherError::Network { message } => "Network error: "@ + message@,
            LauncherError::Paused => "Download paused"@,
            LauncherError::ArchiveFormat => "Invalid archive"@,
            LauncherError::Filesystem { message } => "Filesystem error: "@ + message@,
            LauncherError::Handshake { message } => "Handshake failed: "@ + message@,
            LauncherError::Serialization { message } => "Malformed message: "@ + message@,
        }
    }

    /// Renders [`Self::describe_spec`].
    pub fn describe(&self) -> (r: String)
        ensures
            r@ == self.describe_spec(),
    {
        match self {
            LauncherError::NotFound => String::from_str("Download not found"),
            LauncherError::AlreadyRegistered => String::from_str("Download already registered"),
            LauncherError::Network { message } => String::from_str("Network error: ").concat(
                message.as_str(),
            ),
            LauncherError::Paused => String::from_str("Download paused"),
            LauncherError::ArchiveFormat => String::from_str("Invalid archive"),
            LauncherError::Filesystem { message } => String::from_str("Filesystem error: ").concat(
                message.as_str(),
            ),
            LauncherError::Handshake { message } => String::from_str("Handshake failed: ").concat(
                message.as_str(),
            ),
            LauncherError::Serialization { message } => String::from_str(
                "Malformed message: ",
            ).concat(message.as_str()),
        }
    }

    /// True of the cooperative-abort outcome and of nothing else.
    pub fn is_pause(&self) -> (r: bool)
        ensures
            r == (self is Paused),
    {
        match self {
            LauncherError::Paused => true,
            _ => false,
        }
    }
}

} // verus!
