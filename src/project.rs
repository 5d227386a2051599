//! The Swift project that a toolchain is installed for.

use vstd::prelude::*;
use crate::paths::{join_path, path_joined};
use crate::text::{eq_ignore_ascii_case, fold_ascii};
use crate::version::ToolchainVersion;

verus! {

/// The file whose presence marks a project's root directory.
pub const PROJECT_MARKER: &'static str = "Package.swift";

/// The name of a project's configuration file, in its root directory.
pub const CONFIG_FILE_NAME: &'static str = "v5.toml";

/// A project, by its root directory.
#[derive(Debug, Clone)]
pub struct Project {
    path: String,
}

impl Project {
    /// The project's root directory.
    pub closed spec fn root(&self) -> Seq<char> {
        self.path@
    }

    /// The project rooted at `path`.
    pub fn new(path: &str) -> (r: Project)
        ensures
            r.root() == path@,
    {
        Project { path: String::from_str(path) }
    }

    /// The project's root directory.
    pub fn path(&self) -> (r: &str)
        ensures
            r@ == self.root(),
    {
        self.path.as_str()
    }

    /// Where the project's configuration file is.
    pub fn config_path(&self) -> (r: String)
        ensures
            r@ == path_joined(self.root(), CONFIG_FILE_NAME@),
    {
        join_path(self.path.as_str(), CONFIG_FILE_NAME)
    }

    /// Whether a directory entry with this name marks a project root; the
    /// name is compared without regard to ASCII case.
    pub fn is_root_marker(file_name: &str) -> (r: bool)
        ensures
            r == (fold_ascii(file_name@) == fold_ascii(PROJECT_MARKER@)),
    {
        eq_ignore_ascii_case(file_name, PROJECT_MARKER)
    }
}

/// A project's configuration.
#[derive(Debug, Clone)]
pub struct ProjectConfig {
    /// The toolchain version the project asks for.
    pub llvm_version: String,
}

impl ProjectConfig {
    /// The toolchain version the project asks for.
    pub fn toolchain_version(&self) -> (r: ToolchainVersion)
        ensures
            r.name@ == self.llvm_version@,
    {
        ToolchainVersion::named(self.llvm_version.as_str())
    }
}

} // verus!
