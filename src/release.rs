//! Releases of the toolchain, their assets, and the choice of the asset that
//! suits a host.

use vstd::prelude::*;
use vstd::string::*;
use crate::error::ToolchainError;
use crate::host::{arch_token, os_token, HostArch, HostOS};
use crate::text::{
    contains_str, find_char, lemma_split_nonempty, split_on, split_str, str_eq, str_find_char,
};
use crate::version::{version_name_of_tag, ToolchainVersion};

verus! {

/// One downloadable file of a release.
#[derive(Debug, Clone)]
pub struct Asset {
    /// The file name, e.g. `ATfE-20.1.0-Linux-x86_64.tar.xz`.
    pub name: String,
    /// Where the file can be downloaded; its checksum sits at this URL with
    /// `.sha256` appended.
    pub browser_download_url: String,
    /// The declared size of the file in bytes.
    pub size: u64,
}

/// A release as the release feed describes it.
#[derive(Debug, Clone)]
pub struct Release {
    pub tag_name: String,
    pub assets: Vec<Asset>,
}

/// The file extensions of archives that can be installed.
pub open spec fn allowed_extension(ext: Seq<char>) -> bool {
    ext == "dmg"@ || ext == "tar.xz"@ || ext == "zip"@
}

/// The tokens of an asset name and its extension: the name is split at each
/// `-`, and the last piece loses everything from its first `.` on, which is
/// the extension. `None` when the last piece has no `.`.
pub open spec fn name_tokens(name: Seq<char>) -> Option<(Seq<Seq<char>>, Seq<char>)> {
    let pieces = split_on(name, '-');
    let last = pieces.last();
    match find_char(last, '.') {
        Some(i) => Some((pieces.update(pieces.len() - 1, last.take(i)), last.skip(i + 1))),
        None => None,
    }
}

/// Whether a token list names one of the given architectures.
pub open spec fn names_an_arch(tokens: Seq<Seq<char>>, arches: Seq<HostArch>) -> bool {
    exists|k: int| 0 <= k < arches.len() && tokens.contains(arch_token(#[trigger] arches[k]))
}

/// Whether an asset name suits a host: its tokens hold the operating
/// system's token and one of the architectures' tokens, and its extension is
/// an installable archive's.
pub open spec fn asset_suits(name: Seq<char>, os: HostOS, arches: Seq<HostArch>) -> bool {
    match name_tokens(name) {
        Some((tokens, ext)) => tokens.contains(os_token(os)) && names_an_arch(tokens, arches)
            && allowed_extension(ext),
        None => false,
    }
}

/// An asset is selected only when its name carries the operating system's
/// token, an allowed architecture's token and an allowed extension; taking
/// either token out of the name leaves it unselectable.
pub proof fn lemma_selection_needs_tokens(name: Seq<char>, os: HostOS, arches: Seq<HostArch>)
    ensures
        asset_suits(name, os, arches) <==> (name_tokens(name) matches Some((tokens, ext))
            && tokens.contains(os_token(os)) && names_an_arch(tokens, arches)
            && allowed_extension(ext)),
{
}

/// The names of a list of assets, in order.
pub open spec fn asset_names(assets: Seq<Asset>) -> Seq<Seq<char>> {
    assets.map_values(|a: Asset| a.name@)
}

fn names_an_arch_exec(tokens: &Vec<String>, arches: &[HostArch]) -> (r: bool)
    ensures
        r == names_an_arch(tokens@.map_values(|t: String| t@), arches@),
{
    let ghost toks = tokens@.map_values(|t: String| t@);
    let mut k: usize = 0;
    while k < arches.len()
        invariant
            toks == tokens@.map_values(|t: String| t@),
            k <= arches@.len(),
            forall|j: int| 0 <= j < k ==> !toks.contains(arch_token(#[trigger] arches@[j])),
        decreases arches@.len() - k,
    {
        if contains_str(tokens, arches[k].as_ref()) {
            return true;
        }
        k = k + 1;
    }
    false
}

/// Whether an asset name suits a host; see `asset_suits`.
pub fn asset_name_suits(name: &str, os: HostOS, arches: &[HostArch]) -> (r: bool)
    ensures
        r == asset_suits(name@, os, arches@),
{
    let mut pieces = split_str(name, '-');
    let ghost spec_pieces = split_on(name@, '-');
    proof {
        lemma_split_nonempty(name@, '-');
    }
    let last_idx = pieces.len() - 1;
    let last = pieces[last_idx].clone();
    assert(last@ == spec_pieces.last());
    match str_find_char(last.as_str(), '.') {
        None => false,
        Some(dot) => {
            let len = last.as_str().unicode_len();
            let stem = String::from_str(last.as_str().substring_char(0, dot));
            let ext = last.as_str().substring_char(dot + 1, len);
            pieces.set(last_idx, stem);
            assert(pieces@.map_values(|t: String| t@) =~= spec_pieces.update(
                last_idx as int,
                spec_pieces.last().take(dot as int),
            ));
            let correct_os = contains_str(&pieces, os.as_ref());
            let correct_arch = names_an_arch_exec(&pieces, arches);
            let correct_ext = str_eq(ext, "dmg") || str_eq(ext, "tar.xz") || str_eq(ext, "zip");
            correct_os && correct_arch && correct_ext
        },
    }
}

/// A fetched release together with the toolchain version its tag stands for.
pub struct ToolchainRelease {
    release: Release,
    version: ToolchainVersion,
}

impl ToolchainRelease {
    #[verifier::type_invariant]
    spec fn version_follows_tag(&self) -> bool {
        self.version.name@ == version_name_of_tag(self.release.tag_name@)
    }

    /// The release record.
    pub closed spec fn record(&self) -> Release {
        self.release
    }

    /// Wraps a fetched release; its version is derived from the tag once, here.
    pub fn new(release: Release) -> (r: ToolchainRelease)
        ensures
            r.record() == release,
    {
        let version = ToolchainVersion::from_tag_name(release.tag_name.as_str());
        ToolchainRelease { release, version }
    }

    /// The version that the release's tag stands for.
    pub fn version(&self) -> (r: &ToolchainVersion)
        ensures
            r.name@ == version_name_of_tag(self.record().tag_name@),
    {
        proof {
            use_type_invariant(self);
        }
        &self.version
    }

    /// The release's tag.
    pub fn tag_name(&self) -> (r: &String)
        ensures
            *r == self.record().tag_name,
    {
        &self.release.tag_name
    }

    /// The release's assets, in feed order.
    pub fn assets(&self) -> (r: &Vec<Asset>)
        ensures
            *r == self.record().assets,
    {
        &self.release.assets
    }

    /// The first asset, in feed order, whose name suits the operating system
    /// and one of the architectures; otherwise an error that lists every
    /// asset name.
    pub fn asset_for(&self, os: HostOS, allowed_arches: &[HostArch]) -> (r: Result<
        &Asset,
        ToolchainError,
    >)
        ensures
            match r {
                Ok(a) => exists|i: int|
                    0 <= i < self.record().assets@.len() && *a == self.record().assets@[i]
                        && asset_suits(a.name@, os, allowed_arches@) && forall|j: int|
                        0 <= j < i ==> !asset_suits(
                            #[trigger] self.record().assets@[j].name@,
                            os,
                            allowed_arches@,
                        ),
                Err(e) => (forall|j: int|
                    0 <= j < self.record().assets@.len() ==> !asset_suits(
                        #[trigger] self.record().assets@[j].name@,
                        os,
                        allowed_arches@,
                    )) && (e matches ToolchainError::ReleaseAssetMissing {
                    allowed_os,
                    allowed_arches: arches,
                    candidates,
                } && allowed_os == os && arches@ == allowed_arches@
                    && candidates@.map_values(|c: String| c@) == asset_names(
                    self.record().assets@,
                )),
            },
    {
        let assets = &self.release.assets;
        let mut i: usize = 0;
        while i < assets.len()
            invariant
                assets == &self.release.assets,
                i <= assets@.len(),
                forall|j: int|
                    0 <= j < i ==> !asset_suits(#[trigger] assets@[j].name@, os, allowed_arches@),
            decreases assets@.len() - i,
        {
            if asset_name_suits(assets[i].name.as_str(), os, allowed_arches) {
                assert(self.record().assets@[i as int] == assets@[i as int]);
                return Ok(&assets[i]);
            }
            i = i + 1;
        }
        let mut arches: Vec<HostArch> = Vec::new();
        let mut k: usize = 0;
        while k < allowed_arches.len()
            invariant
                k <= allowed_arches@.len(),
                arches@ == allowed_arches@.take(k as int),
            decreases allowed_arches@.len() - k,
        {
            arches.push(allowed_arches[k]);
            assert(allowed_arches@.take(k + 1) =~= allowed_arches@.take(k as int).push(
                allowed_arches@[k as int],
            ));
            k = k + 1;
        }
        assert(allowed_arches@.take(k as int) =~= allowed_arches@);
        let candidates = collect_names(assets);
        Err(ToolchainError::ReleaseAssetMissing { allowed_os: os, allowed_arches: arches, candidates })
    }
}

/// The names of the given assets, in order.
pub fn collect_names(assets: &Vec<Asset>) -> (r: Vec<String>)
    ensures
        r@.map_values(|c: String| c@) == asset_names(assets@),
{
    let mut names: Vec<String> = Vec::new();
    let mut i: usize = 0;
    while i < assets.len()
        invariant
            i <= assets@.len(),
            names@.map_values(|c: String| c@) == asset_names(assets@).take(i as int),
        decreases assets@.len() - i,
    {
        let ghost before = names@.map_values(|c: String| c@);
        names.push(assets[i].name.clone());
        assert(names@.map_values(|c: String| c@) =~= before.push(assets@[i as int].name@));
        assert(asset_names(assets@).take(i + 1) =~= asset_names(assets@).take(i as int).push(
            assets@[i as int].name@,
        ));
        i = i + 1;
    }
    assert(asset_names(assets@).take(i as int) =~= asset_names(assets@));
    names
}

} // verus!
