//! Toolchain versions and the release tags they are published under.

use vstd::prelude::*;
use crate::text::{concat3, strip_prefix, strip_prefix_or_keep, strip_suffix, strip_suffix_or_keep};

verus! {

/// The text in front of a version name in a release tag.
pub const RELEASE_PREFIX: &'static str = "release-";

/// The text after a version name in a release tag; it marks the embedded
/// toolchain's releases.
pub const RELEASE_SUFFIX: &'static str = "-ATfE";

/// The version name that a release tag stands for: the tag without the
/// release prefix and suffix, each removed only where present.
pub open spec fn version_name_of_tag(tag: Seq<char>) -> Seq<char> {
    strip_suffix_or_keep(strip_prefix_or_keep(tag, RELEASE_PREFIX@), RELEASE_SUFFIX@)
}

/// The release tag under which a version is published.
pub open spec fn tag_of_version_name(name: Seq<char>) -> Seq<char> {
    RELEASE_PREFIX@ + name + RELEASE_SUFFIX@
}

/// A normalized toolchain version name. Two versions are equal when their
/// names are.
#[derive(Debug, Clone)]
pub struct ToolchainVersion {
    pub name: String,
}

impl ToolchainVersion {
    /// The version with the given name.
    pub fn named(name: &str) -> (r: ToolchainVersion)
        ensures
            r.name@ == name@,
    {
        ToolchainVersion { name: String::from_str(name) }
    }

    /// The version that a release tag stands for.
    pub fn from_tag_name(tag_name: &str) -> (r: ToolchainVersion)
        ensures
            r.name@ == version_name_of_tag(tag_name@),
    {
        let name = strip_prefix(tag_name, RELEASE_PREFIX);
        let name = strip_suffix(name, RELEASE_SUFFIX);
        ToolchainVersion { name: String::from_str(name) }
    }

    /// The release tag under which this version is published.
    pub fn to_tag_name(&self) -> (r: String)
        ensures
            r@ == tag_of_version_name(self.name@),
    {
        concat3(RELEASE_PREFIX, self.name.as_str(), RELEASE_SUFFIX)
    }

    /// The version as shown to users: its name after a `v`.
    pub fn to_display(&self) -> (r: String)
        ensures
            r@ == "v"@ + self.name@,
    {
        let mut s = String::from_str("v");
        s.append(self.name.as_str());
        s
    }
}

impl PartialEq for ToolchainVersion {
    fn eq(&self, other: &ToolchainVersion) -> (r: bool) {
        self.name == other.name
    }
}

impl vstd::std_specs::cmp::PartialEqSpecImpl for ToolchainVersion {
    open spec fn obeys_eq_spec() -> bool {
        true
    }

    open spec fn eq_spec(&self, other: &ToolchainVersion) -> bool {
        self.name@ == other.name@
    }
}

/// Reading a version back from the tag it is published under gives the
/// same version name.
pub proof fn lemma_tag_round_trip(name: Seq<char>)
    ensures
        version_name_of_tag(tag_of_version_name(name)) == name,
{
    let tag = tag_of_version_name(name);
    let p = RELEASE_PREFIX@;
    let x = RELEASE_SUFFIX@;
    assert(tag.take(p.len() as int) =~= p);
    assert(tag.skip(p.len() as int) =~= name + x);
    let rest = name + x;
    assert(rest.skip(rest.len() - x.len()) =~= x);
    assert(rest.take(rest.len() - x.len()) =~= name);
}

} // verus!
