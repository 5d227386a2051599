use swift_v5::client::ToolchainClient;
use swift_v5::error::ToolchainError;
use swift_v5::host::{HostArch, HostOS};
use swift_v5::release::{asset_name_suits, Asset, Release, ToolchainRelease};
use swift_v5::version::ToolchainVersion;

fn asset(name: &str) -> Asset {
    Asset {
        name: name.to_string(),
        browser_download_url: format!("https://example.com/{name}"),
        size: 1000,
    }
}

fn release(tag: &str, names: &[&str]) -> Release {
    Release {
        tag_name: tag.to_string(),
        assets: names.iter().map(|n| asset(n)).collect(),
    }
}

#[test]
fn host_os_from_target() {
    assert!(matches!(HostOS::current("linux"), Some(HostOS::Linux)));
    assert!(matches!(HostOS::current("macos"), Some(HostOS::Darwin)));
    assert!(matches!(HostOS::current("windows"), Some(HostOS::Windows)));
    assert!(HostOS::current("freebsd").is_none());
    assert_eq!(HostOS::Darwin.as_ref(), "Darwin");
}

#[test]
fn host_arch_from_target() {
    assert_eq!(HostArch::current("linux", "x86_64"), Some(vec![HostArch::X86_64]));
    assert_eq!(
        HostArch::current("macos", "aarch64"),
        Some(vec![HostArch::AAarch64, HostArch::Universal])
    );
    assert_eq!(
        HostArch::current("macos", "x86_64"),
        Some(vec![HostArch::X86_64, HostArch::Universal])
    );
    assert_eq!(HostArch::current("linux", "riscv64"), None);
    assert_eq!(HostArch::current("macos", "powerpc"), None);
    assert_eq!(HostArch::Universal.as_ref(), "universal");
    assert_eq!(HostArch::X86_64.as_ref(), "x86_64");
}

#[test]
fn version_from_tag_strips_prefix_and_suffix() {
    assert_eq!(ToolchainVersion::from_tag_name("release-1.2.0-ATfE").name, "1.2.0");
    assert_eq!(ToolchainVersion::from_tag_name("release-20.1.0").name, "20.1.0");
    assert_eq!(ToolchainVersion::from_tag_name("20.1.0-ATfE").name, "20.1.0");
    assert_eq!(ToolchainVersion::from_tag_name("nightly").name, "nightly");
}

#[test]
fn version_tag_and_display() {
    let v = ToolchainVersion::named("1.2.0");
    assert_eq!(v.to_tag_name(), "release-1.2.0-ATfE");
    assert_eq!(v.to_display(), "v1.2.0");
    assert!(v == ToolchainVersion::from_tag_name(&v.to_tag_name()));
    assert!(v != ToolchainVersion::named("1.2.1"));
}

#[test]
fn release_version_follows_tag() {
    let r = ToolchainRelease::new(release("release-19.1.5-ATfE", &[]));
    assert_eq!(r.version().name, "19.1.5");
    assert_eq!(r.tag_name(), "release-19.1.5-ATfE");
}

#[test]
fn asset_needs_os_arch_and_extension() {
    let arches = [HostArch::X86_64];
    assert!(asset_name_suits("ATfE-20.1.0-Linux-x86_64.tar.xz", HostOS::Linux, &arches));
    // without the OS token
    assert!(!asset_name_suits("ATfE-20.1.0-x86_64.tar.xz", HostOS::Linux, &arches));
    // without the architecture token
    assert!(!asset_name_suits("ATfE-20.1.0-Linux.tar.xz", HostOS::Linux, &arches));
    // an extension outside the allowed set
    assert!(!asset_name_suits("ATfE-20.1.0-Linux-x86_64.tar.gz", HostOS::Linux, &arches));
    // no extension at all
    assert!(!asset_name_suits("ATfE-20.1.0-Linux-x86_64", HostOS::Linux, &arches));
    assert!(asset_name_suits(
        "ATfE-20.1.0-Darwin-universal.dmg",
        HostOS::Darwin,
        &[HostArch::AAarch64, HostArch::Universal]
    ));
    assert!(asset_name_suits("ATfE-20.1.0-Windows-x86_64.zip", HostOS::Windows, &arches));
}

#[test]
fn asset_for_takes_first_match() {
    let r = ToolchainRelease::new(release(
        "release-20.1.0-ATfE",
        &[
            "ATfE-20.1.0-Darwin-universal.dmg",
            "ATfE-20.1.0-Linux-AArch64.tar.xz",
            "ATfE-20.1.0-Linux-x86_64.tar.xz",
            "ATfE-20.1.0-Linux-x86_64.zip",
        ],
    ));
    let a = r.asset_for(HostOS::Linux, &[HostArch::X86_64]).unwrap();
    assert_eq!(a.name, "ATfE-20.1.0-Linux-x86_64.tar.xz");
    let a = r.asset_for(HostOS::Darwin, &[HostArch::X86_64, HostArch::Universal]).unwrap();
    assert_eq!(a.name, "ATfE-20.1.0-Darwin-universal.dmg");
}

#[test]
fn asset_for_reports_candidates() {
    let names = ["ATfE-20.1.0-Darwin-universal.dmg", "ATfE-20.1.0-Linux-x86_64.tar.xz"];
    let r = ToolchainRelease::new(release("release-20.1.0-ATfE", &names));
    match r.asset_for(HostOS::Windows, &[HostArch::X86_64]) {
        Err(ToolchainError::ReleaseAssetMissing { allowed_os, allowed_arches, candidates }) => {
            assert_eq!(allowed_os, HostOS::Windows);
            assert_eq!(allowed_arches, vec![HostArch::X86_64]);
            assert_eq!(candidates, names.to_vec());
        }
        other => panic!("unexpected result: {other:?}"),
    }
}

#[test]
fn latest_release_takes_first_embedded_tag() {
    let client = ToolchainClient::new("/data/toolchains", "/cache");
    let releases = vec![
        release("release-21.0.0", &[]),
        release("release-20.1.0-ATfE", &[]),
        release("release-19.1.5-ATfE", &[]),
    ];
    let r = client.latest_release(releases).unwrap();
    assert_eq!(r.version().name, "20.1.0");
}

#[test]
fn latest_release_missing_lists_tags() {
    let client = ToolchainClient::new("/data/toolchains", "/cache");
    let releases = vec![release("release-21.0.0", &[]), release("v2", &[])];
    match client.latest_release(releases) {
        Err(ToolchainError::LatestReleaseMissing { candidates }) => {
            assert_eq!(candidates, vec!["release-21.0.0".to_string(), "v2".to_string()]);
        }
        Err(e) => panic!("unexpected error: {e:?}"),
        Ok(_) => panic!("no release should have been chosen"),
    }
}

#[test]
fn install_path_is_version_under_root() {
    let client = ToolchainClient::new("/data/toolchains", "/cache");
    assert_eq!(client.install_path_for(&ToolchainVersion::named("1.2.0")), "/data/toolchains/1.2.0");
    assert_eq!(client.toolchains_path(), "/data/toolchains");
    assert_eq!(client.cache_path(), "/cache");
}

#[test]
fn archive_destination_in_cache() {
    let client = ToolchainClient::new("/data/toolchains", "/cache");
    let p = client.archive_destination(&asset("ATfE-1.2.0-Linux-x86_64.tar.xz")).unwrap();
    assert_eq!(p.file_name, "ATfE-1.2.0-Linux-x86_64.tar.xz");
    assert_eq!(p.path, "/cache/ATfE-1.2.0-Linux-x86_64.tar.xz");
    let p = client.archive_destination(&asset("nested/archive.zip")).unwrap();
    assert_eq!(p.file_name, "archive.zip");
}

#[test]
fn archive_destination_rejects_nameless_asset() {
    let client = ToolchainClient::new("/data/toolchains", "/cache");
    match client.archive_destination(&asset("archives/..")) {
        Err(ToolchainError::InvalidAssetName { name }) => assert_eq!(name, "archives/.."),
        other => panic!("unexpected result: {other:?}"),
    }
}
