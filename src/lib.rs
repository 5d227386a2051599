//! Acquisition engine for the Arm Toolchain for Embedded: release and asset
//! resolution, resumable download planning, checksum verification, archive
//! format dispatch and the cross-device relocation protocol.
//!
//! Everything here is plain computation over values; the program around it
//! performs the network and filesystem work and feeds the results back in.

pub mod text;
pub mod paths;
pub mod host;
pub mod cancel;
pub mod error;
pub mod version;
pub mod release;
pub mod checksum;
pub mod download;
pub mod extract;
pub mod client;
pub mod project;
