//! The host operating system and architecture, and the tokens that stand for
//! them in release asset names.

use vstd::prelude::*;
use crate::text::str_eq;

verus! {

/// An operating system for which toolchain archives are published.
#[derive(Debug, Clone, Copy, PartialEq, Eq, Structural)]
pub enum HostOS {
    Darwin,
    Linux,
    Windows,
}

/// The asset-name token of an operating system.
pub open spec fn os_token(os: HostOS) -> Seq<char> {
    match os {
        HostOS::Darwin => "Darwin"@,
        HostOS::Linux => "Linux"@,
        HostOS::Windows => "Windows"@,
    }
}

/// The operating system that a target OS name (as Rust's `target_os` spells it)
/// stands for, if archives are published for it.
pub open spec fn os_for_target(target_os: Seq<char>) -> Option<HostOS> {
    if target_os == "macos"@ {
        Some(HostOS::Darwin)
    } else if target_os == "linux"@ {
        Some(HostOS::Linux)
    } else if target_os == "windows"@ {
        Some(HostOS::Windows)
    } else {
        None
    }
}

impl HostOS {
    /// The operating system of a host whose `target_os` is `target_os`; `None`
    /// where no toolchain is published for it.
    pub fn current(target_os: &str) -> (r: Option<HostOS>)
        ensures
            r == os_for_target(target_os@),
    {
        if str_eq(target_os, "macos") {
            Some(HostOS::Darwin)
        } else if str_eq(target_os, "linux") {
            Some(HostOS::Linux)
        } else if str_eq(target_os, "windows") {
            Some(HostOS::Windows)
        } else {
            None
        }
    }

    /// The token that names this operating system in asset file names.
    pub fn as_ref(&self) -> (r: &'static str)
        ensures
            r@ == os_token(*self),
    {
        match self {
            HostOS::Darwin => "Darwin",
            HostOS::Linux => "Linux",
            HostOS::Windows => "Windows",
        }
    }
}

/// A processor architecture for which toolchain archives are published.
#[derive(Debug, Clone, Copy, PartialEq, Eq, Structural)]
pub enum HostArch {
    Universal,
    AAarch64,
    X86_64,
}

/// The asset-name token of an architecture.
pub open spec fn arch_token(arch: HostArch) -> Seq<char> {
    match arch {
        HostArch::Universal => "universal"@,
        HostArch::AAarch64 => "AAarch64"@,
        HostArch::X86_64 => "x86_64"@,
    }
}

/// The architectures whose archives run on a host with the given `target_os`
/// and `target_arch`, most specific first.
pub open spec fn arches_for_target(target_os: Seq<char>, target_arch: Seq<char>) -> Seq<HostArch> {
    let native: Seq<HostArch> = if target_arch == "x86_64"@ {
        seq![HostArch::X86_64]
    } else if target_arch == "aarch64"@ {
        seq![HostArch::AAarch64]
    } else {
        seq![]
    };
    if target_os == "macos"@ && native.len() > 0 {
        native.push(HostArch::Universal)
    } else {
        native
    }
}

impl HostArch {
    /// The architectures whose archives run on a host with the given
    /// `target_os` and `target_arch`; `None` where there are none.
    pub fn current(target_os: &str, target_arch: &str) -> (r: Option<Vec<HostArch>>)
        ensures
            arches_for_target(target_os@, target_arch@).len() == 0 ==> r is None,
            arches_for_target(target_os@, target_arch@).len() > 0 ==> (r matches Some(v)
                && v@ == arches_for_target(target_os@, target_arch@)),
    {
        let mut arches: Vec<HostArch> = Vec::new();
        if str_eq(target_arch, "x86_64") {
            arches.push(HostArch::X86_64);
        } else if str_eq(target_arch, "aarch64") {
            arches.push(HostArch::AAarch64);
        }
        if str_eq(target_os, "macos") && arches.len() > 0 {
            arches.push(HostArch::Universal);
        }
        assert(arches@ =~= arches_for_target(target_os@, target_arch@));
        if arches.len() == 0 {
            None
        } else {
            Some(arches)
        }
    }

    /// The token that names this architecture in asset file names.
    pub fn as_ref(&self) -> (r: &'static str)
        ensures
            r@ == arch_token(*self),
    {
        match self {
            HostArch::Universal => "universal",
            HostArch::AAarch64 => "AAarch64",
            HostArch::X86_64 => "x86_64",
        }
    }
}

} // verus!
