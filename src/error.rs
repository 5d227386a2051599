//! The failures that the acquisition engine reports.
//!
//! Failures that arise outside the library (network, filesystem, trash) carry
//! the outside error's message, so that they can be reported precisely.

use vstd::prelude::*;
use crate::host::{HostArch, HostOS};

verus! {

/// Failures of the command-line tool as a whole.
#[derive(Debug, Clone)]
pub enum Error {
    /// No directory from the working directory upwards holds `Package.swift`.
    CannotFindProject,
    /// The project's configuration file could not be parsed.
    InvalidConfig { message: String },
    /// Acquiring or installing the toolchain failed.
    Toolchain(ToolchainError),
    /// An interactive prompt failed.
    Inquire { message: String },
    /// A filesystem operation failed.
    Io { message: String },
}

/// Failures of resolving, downloading and installing a toolchain.
#[derive(Debug, Clone)]
pub enum ToolchainError {
    /// No recent release carries the embedded-toolchain tag suffix.
    LatestReleaseMissing { candidates: Vec<String> },
    /// No asset of the release suits the host.
    ReleaseAssetMissing {
        allowed_os: HostOS,
        allowed_arches: Vec<HostArch>,
        candidates: Vec<String>,
    },
    /// The asset's name does not end in a file name.
    InvalidAssetName { name: String },
    /// The downloaded archive's digest differs from the published one.
    ChecksumMismatch { expected: String, actual: String },
    /// The archive could not be unpacked.
    Extract(ExtractError),
    /// The operation observed the cancellation signal.
    Cancelled,
    /// A request to the release feed failed.
    GitHubApi { message: String },
    /// Downloading the asset or its checksum failed.
    Reqwest { message: String },
    /// Moving a previous installation to the trash failed.
    Trash { message: String },
    /// A filesystem operation failed.
    Io { message: String },
}

/// Failures of unpacking an archive.
#[derive(Debug, Clone)]
pub enum ExtractError {
    /// Disk images can only be mounted on macOS.
    DmgNotSupported,
    /// The unpacked archive holds no directory.
    ContentsNotFound,
    /// Walking a directory tree failed.
    WalkDir { message: String },
    /// Mounting or reading a disk image failed.
    Dmg { message: String },
    /// Reading or unpacking a ZIP archive failed.
    Zip { message: String },
}

impl From<ToolchainError> for Error {
    fn from(e: ToolchainError) -> (r: Error)
        ensures
            r == Error::Toolchain(e),
    {
        Error::Toolchain(e)
    }
}

impl vstd::std_specs::convert::FromSpecImpl<ToolchainError> for Error {
    open spec fn obeys_from_spec() -> bool {
        true
    }

    open spec fn from_spec(e: ToolchainError) -> Error {
        Error::Toolchain(e)
    }
}

impl From<ExtractError> for ToolchainError {
    fn from(e: ExtractError) -> (r: ToolchainError)
        ensures
            r == ToolchainError::Extract(e),
    {
        ToolchainError::Extract(e)
    }
}

impl vstd::std_specs::convert::FromSpecImpl<ExtractError> for ToolchainError {
    open spec fn obeys_from_spec() -> bool {
        true
    }

    open spec fn from_spec(e: ExtractError) -> ToolchainError {
        ToolchainError::Extract(e)
    }
}

} // verus!
