//! The toolchain client: where toolchains and downloads live, which release
//! is the latest, and what happens to a downloaded archive.

use vstd::prelude::*;
use crate::checksum::verify_checksum;
use crate::error::{ExtractError, ToolchainError};
use crate::extract::{archive_format, ArchiveFormat};
use crate::host::HostOS;
use crate::paths::{file_name, join_path, path_file_name, path_joined};
use crate::release::{Asset, Release, ToolchainRelease};
use crate::text::{ends_with, fold_ascii, str_ends_with};
use crate::version::{version_name_of_tag, ToolchainVersion, RELEASE_SUFFIX};

verus! {

/// The owner of the repository that publishes the toolchain.
pub const REPO_OWNER: &'static str = "arm";

/// The repository that publishes the toolchain.
pub const REPO_NAME: &'static str = "arm-toolchain";

/// The tags of a list of releases, in order.
pub open spec fn release_tags(releases: Seq<Release>) -> Seq<Seq<char>> {
    releases.map_values(|r: Release| r.tag_name@)
}

/// Whether a release belongs to the embedded toolchain.
pub open spec fn is_embedded_release(r: Release) -> bool {
    ends_with(r.tag_name@, RELEASE_SUFFIX@)
}

/// Where a downloaded archive is cached.
#[derive(Debug, Clone)]
pub struct ArchivePath {
    /// The archive's file name, taken from the asset name.
    pub file_name: String,
    /// The file in the cache directory.
    pub path: String,
}

/// What to unpack a verified archive with, and where to.
#[derive(Debug, Clone)]
pub struct Extraction {
    pub format: ArchiveFormat,
    pub destination: String,
}

/// Installs toolchains under one directory, one subdirectory per version,
/// and caches downloads in another.
#[derive(Debug, Clone)]
pub struct ToolchainClient {
    toolchains_path: String,
    cache_path: String,
}

impl ToolchainClient {
    /// The directory that holds one subdirectory per installed version.
    pub closed spec fn toolchains_root(&self) -> Seq<char> {
        self.toolchains_path@
    }

    /// The directory that holds downloaded archives.
    pub closed spec fn cache_root(&self) -> Seq<char> {
        self.cache_path@
    }

    /// A client that installs under `toolchains_path` and caches downloads
    /// in `cache_path`.
    pub fn new(toolchains_path: &str, cache_path: &str) -> (r: ToolchainClient)
        ensures
            r.toolchains_root() == toolchains_path@,
            r.cache_root() == cache_path@,
    {
        ToolchainClient {
            toolchains_path: String::from_str(toolchains_path),
            cache_path: String::from_str(cache_path),
        }
    }

    /// The directory that holds one subdirectory per installed version.
    pub fn toolchains_path(&self) -> (r: &str)
        ensures
            r@ == self.toolchains_root(),
    {
        self.toolchains_path.as_str()
    }

    /// The directory that holds downloaded archives.
    pub fn cache_path(&self) -> (r: &str)
        ensures
            r@ == self.cache_root(),
    {
        self.cache_path.as_str()
    }

    /// The directory in which the given version is, or would be, installed.
    pub fn install_path_for(&self, version: &ToolchainVersion) -> (r: String)
        ensures
            r@ == path_joined(self.toolchains_root(), version.name@),
    {
        join_path(self.toolchains_path.as_str(), version.name.as_str())
    }

    /// Where the asset's archive is cached: its file name in the cache
    /// directory. An asset name without a file name is refused.
    pub fn archive_destination(&self, asset: &Asset) -> (r: Result<ArchivePath, ToolchainError>)
        ensures
            match path_file_name(asset.name@) {
                Some(n) => r matches Ok(p) && p.file_name@ == n && p.path@ == path_joined(
                    self.cache_root(),
                    n,
                ),
                None => r matches Err(ToolchainError::InvalidAssetName { name }) && name@
                    == asset.name@,
            },
    {
        match file_name(asset.name.as_str()) {
            Some(n) => {
                let path = join_path(self.cache_path.as_str(), n.as_str());
                Ok(ArchivePath { file_name: n, path })
            },
            None => Err(ToolchainError::InvalidAssetName { name: asset.name.clone() }),
        }
    }

    /// The latest embedded-toolchain release among a page of releases,
    /// newest first: the first whose tag carries the embedded suffix.
    /// Otherwise an error that lists every tag seen.
    pub fn latest_release(&self, releases: Vec<Release>) -> (r: Result<
        ToolchainRelease,
        ToolchainError,
    >)
        ensures
            match r {
                Ok(t) => exists|i: int|
                    0 <= i < releases@.len() && is_embedded_release(releases@[i]) && t.record()
                        == releases@[i] && forall|j: int|
                        0 <= j < i ==> !is_embedded_release(#[trigger] releases@[j]),
                Err(e) => (forall|j: int|
                    0 <= j < releases@.len() ==> !is_embedded_release(#[trigger] releases@[j]))
                    && (e matches ToolchainError::LatestReleaseMissing { candidates }
                    && candidates@.map_values(|c: String| c@) == release_tags(releases@)),
            },
    {
        let ghost all = releases@;
        let mut pending = releases;
        let mut i: usize = 0;
        while i < pending.len()
            invariant
                all == releases@,
                pending@ == all,
                i <= all.len(),
                forall|j: int| 0 <= j < i ==> !is_embedded_release(#[trigger] all[j]),
            decreases all.len() - i,
        {
            if str_ends_with(pending[i].tag_name.as_str(), RELEASE_SUFFIX) {
                let found = pending.remove(i);
                let t = ToolchainRelease::new(found);
                assert(t.record() == all[i as int] && is_embedded_release(all[i as int]));
                return Ok(t);
            }
            i = i + 1;
        }
        let mut candidates: Vec<String> = Vec::new();
        let mut k: usize = 0;
        while k < pending.len()
            invariant
                pending@ == all,
                k <= all.len(),
                candidates@.map_values(|c: String| c@) == release_tags(all).take(k as int),
            decreases all.len() - k,
        {
            let ghost before = candidates@.map_values(|c: String| c@);
            candidates.push(pending[k].tag_name.clone());
            assert(candidates@.map_values(|c: String| c@) =~= before.push(all[k as int].tag_name@));
            assert(release_tags(all).take(k + 1) =~= release_tags(all).take(k as int).push(
                all[k as int].tag_name@,
            ));
            k = k + 1;
        }
        assert(release_tags(all).take(k as int) =~= release_tags(all));
        Err(ToolchainError::LatestReleaseMissing { candidates })
    }

    /// What to do with a downloaded archive once both its digest and the
    /// published one are known. The digests are compared first, and a
    /// mismatch never reaches extraction; then the cancellation signal (as
    /// observed in `cancelled`) is honoured; disk images are refused on hosts
    /// other than macOS; otherwise the archive is unpacked, by its format,
    /// into the release version's install directory.
    pub fn plan_extraction(
        &self,
        release: &ToolchainRelease,
        file_name: &str,
        host: HostOS,
        actual_checksum: String,
        expected_checksum: String,
        cancelled: bool,
    ) -> (r: Result<Extraction, ToolchainError>)
        requires
            archive_format(file_name@) is Some,
        ensures
            fold_ascii(actual_checksum@) != fold_ascii(expected_checksum@) ==> (r matches Err(
                ToolchainError::ChecksumMismatch { expected, actual },
            ) && expected@ == expected_checksum@ && actual@ == actual_checksum@),
            fold_ascii(actual_checksum@) == fold_ascii(expected_checksum@) && cancelled ==> (
            r matches Err(ToolchainError::Cancelled)),
            fold_ascii(actual_checksum@) == fold_ascii(expected_checksum@) && !cancelled
                && archive_format(file_name@) == Some(ArchiveFormat::Dmg) && host
                != HostOS::Darwin ==> (r matches Err(
                ToolchainError::Extract(ExtractError::DmgNotSupported),
            )),
            fold_ascii(actual_checksum@) == fold_ascii(expected_checksum@) && !cancelled && !(
            archive_format(file_name@) == Some(ArchiveFormat::Dmg) && host != HostOS::Darwin)
                ==> (r matches Ok(x) && Some(x.format) == archive_format(file_name@)
                && x.destination@ == path_joined(
                self.toolchains_root(),
                version_name_of_tag(release.record().tag_name@),
            )),
    {
        verify_checksum(actual_checksum, expected_checksum)?;
        if cancelled {
            return Err(ToolchainError::Cancelled);
        }
        let format = ArchiveFormat::from_file_name(file_name).unwrap();
        if format == ArchiveFormat::Dmg && host != HostOS::Darwin {
            return Err(ToolchainError::Extract(ExtractError::DmgNotSupported));
        }
        let destination = self.install_path_for(release.version());
        Ok(Extraction { format, destination })
    }
}

} // verus!
