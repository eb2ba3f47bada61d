//! Tools, releases and the naming scheme that ties a release's assets to
//! platforms.
use vstd::prelude::*;
use crate::error::{ProvisionError, ProvisionErrorView};
use crate::platform::{arch_token, archive_extension, archive_suffix, binary_extension, os_token, Os, PlatformTag};

verus! {

/// The external tool to provision.
#[derive(Clone, Debug, PartialEq, Eq)]
pub struct Tool {
    /// Name of the executable, as searched on the path and used in file names.
    pub name: String,
    /// Identifier of the upstream repository in the release feed.
    pub repository: String,
    /// Where the executable lies inside an unpacked archive: empty, or a
    /// relative directory that ends in `/`.
    pub binary_dir: String,
}

pub struct ToolView {
    pub name: Seq<char>,
    pub repository: Seq<char>,
    pub binary_dir: Seq<char>,
}

impl View for Tool {
    type V = ToolView;

    open spec fn view(&self) -> ToolView {
        ToolView { name: self.name@, repository: self.repository@, binary_dir: self.binary_dir@ }
    }
}

/// One downloadable file of a release.
#[derive(Clone, Debug, PartialEq, Eq)]
pub struct Asset {
    pub name: String,
    pub download_url: String,
}

pub struct AssetView {
    pub name: Seq<char>,
    pub download_url: Seq<char>,
}

impl View for Asset {
    type V = AssetView;

    open spec fn view(&self) -> AssetView {
        AssetView { name: self.name@, download_url: self.download_url@ }
    }
}

/// One upstream release: its version and its assets, in the feed's order.
#[derive(Clone, Debug, PartialEq, Eq)]
pub struct Release {
    pub version: String,
    pub assets: Vec<Asset>,
}

pub struct ReleaseView {
    pub version: Seq<char>,
    pub assets: Seq<AssetView>,
}

impl View for Release {
    type V = ReleaseView;

    open spec fn view(&self) -> ReleaseView {
        ReleaseView {
            version: self.version@,
            assets: self.assets@.map_values(|a: Asset| a@),
        }
    }
}

/// Which releases of a repository are eligible.
#[derive(Clone, Copy, Debug, PartialEq, Eq, Structural)]
pub struct ReleaseFilter {
    /// Only releases with at least one asset.
    pub require_assets: bool,
    /// Pre-releases too.
    pub pre_release: bool,
}

/// The filter every resolution uses: the release must have at least one
/// asset and must not be a pre-release.
pub open spec fn stable_with_assets() -> ReleaseFilter {
    ReleaseFilter { require_assets: true, pre_release: false }
}

impl ReleaseFilter {
    /// The filter every resolution uses: the release must have at least one
    /// asset and must not be a pre-release.
    pub fn stable_with_assets() -> (r: ReleaseFilter)
        ensures
            r == stable_with_assets(),
    {
        ReleaseFilter { require_assets: true, pre_release: false }
    }
}

/// Name of the asset built for `platform`:
/// `<tool>-<version>-<os>-<arch>.tar.gz`.
pub open spec fn asset_file_name(tool: Seq<char>, version: Seq<char>, platform: PlatformTag) -> Seq<char> {
    tool + "-"@ + version + "-"@ + os_token(platform.os) + "-"@ + arch_token(
        platform.os,
        platform.arch,
    ) + archive_extension()
}

/// Name of the directory that holds one installed version: `<tool>-<version>`.
pub open spec fn version_directory(tool: Seq<char>, version: Seq<char>) -> Seq<char> {
    tool + "-"@ + version
}

/// Path of the executable of one installed version, relative to the working
/// directory.
pub open spec fn binary_path(tool: ToolView, version: Seq<char>, os: Os) -> Seq<char> {
    version_directory(tool.name, version) + "/"@ + tool.binary_dir + tool.name + binary_extension(os)
}

/// Position of the first asset called `name`, if there is one.
pub open spec fn position_of(assets: Seq<AssetView>, name: Seq<char>) -> Option<int>
    decreases assets.len(),
{
    if assets.len() == 0 {
        None
    } else {
        match position_of(assets.drop_last(), name) {
            Some(i) => Some(i),
            None => if assets.last().name == name {
                Some(assets.len() - 1)
            } else {
                None
            },
        }
    }
}

/// `position_of` finds an asset exactly when one carries the name, and then
/// the earliest such asset.
pub proof fn lemma_position_of(assets: Seq<AssetView>, name: Seq<char>)
    ensures
        match position_of(assets, name) {
            Some(i) => 0 <= i < assets.len() && assets[i].name == name && forall|j: int|
                0 <= j < i ==> assets[j].name != name,
            None => forall|j: int| 0 <= j < assets.len() ==> assets[j].name != name,
        },
    decreases assets.len(),
{
    if assets.len() > 0 {
        let rest = assets.drop_last();
        lemma_position_of(rest, name);
        match position_of(rest, name) {
            Some(i) => {
                assert(rest[i] == assets[i]);
                assert forall|j: int| 0 <= j < i implies assets[j].name != name by {
                    assert(rest[j] == assets[j]);
                }
            },
            None => {
                assert forall|j: int| 0 <= j < rest.len() implies assets[j].name != name by {
                    assert(rest[j] == assets[j]);
                }
            },
        }
    }
}

/// One version materialised in the working directory.
#[derive(Clone, Debug, PartialEq, Eq)]
pub struct InstalledVersion {
    /// The directory of this version, directly below the working directory.
    pub version_directory: String,
    /// The executable inside that directory.
    pub binary_path: String,
}

pub struct InstalledVersionView {
    pub version_directory: Seq<char>,
    pub binary_path: Seq<char>,
}

impl View for InstalledVersion {
    type V = InstalledVersionView;

    open spec fn view(&self) -> InstalledVersionView {
        InstalledVersionView {
            version_directory: self.version_directory@,
            binary_path: self.binary_path@,
        }
    }
}

/// Where `version` of `tool` lives once installed.
pub open spec fn installed_version(tool: ToolView, version: Seq<char>, os: Os) -> InstalledVersionView {
    InstalledVersionView {
        version_directory: version_directory(tool.name, version),
        binary_path: binary_path(tool, version, os),
    }
}

/// The executable of an installed version lies inside its version directory.
pub proof fn lemma_binary_lies_in_version_directory(tool: ToolView, version: Seq<char>, os: Os)
    ensures
        ({
            let dir = version_directory(tool.name, version);
            let path = binary_path(tool, version, os);
            &&& dir.len() < path.len()
            &&& path.subrange(0, dir.len() as int) == dir
            &&& path[dir.len() as int] == '/'
        }),
{
    reveal_strlit("/");
    let dir = version_directory(tool.name, version);
    let path = binary_path(tool, version, os);
    assert("/"@.len() == 1);
    assert("/"@[0] == '/');
    assert(path.subrange(0, dir.len() as int) =~= dir);
}

/// The outcome of selecting the asset for a platform: the asset, or the error
/// that names the file that was sought.
pub open spec fn selection(release: ReleaseView, tool: Seq<char>, platform: PlatformTag) -> Result<
    AssetView,
    ProvisionErrorView,
> {
    let sought = asset_file_name(tool, release.version, platform);
    match position_of(release.assets, sought) {
        Some(i) => Ok(release.assets[i]),
        None => Err(ProvisionErrorView::AssetNotFound(sought)),
    }
}

/// Selection succeeds exactly when some asset carries the expected name; it
/// then yields the first such asset of the release, and otherwise fails with
/// the name that was sought.
pub proof fn lemma_selection_is_exact(release: ReleaseView, tool: Seq<char>, platform: PlatformTag)
    ensures
        ({
            let sought = asset_file_name(tool, release.version, platform);
            match selection(release, tool, platform) {
                Ok(asset) => asset.name == sought && exists|i: int|
                    0 <= i < release.assets.len() && release.assets[i] == asset && forall|j: int|
                        0 <= j < i ==> release.assets[j].name != sought,
                Err(e) => e == ProvisionErrorView::AssetNotFound(sought) && forall|j: int|
                    0 <= j < release.assets.len() ==> release.assets[j].name != sought,
            }
        }),
{
    let sought = asset_file_name(tool, release.version, platform);
    lemma_position_of(release.assets, sought);
}

/// Name of the asset built for `platform`.
pub fn asset_name(tool: &str, version: &str, platform: PlatformTag) -> (r: String)
    ensures
        r@ == asset_file_name(tool@, version@, platform),
{
    let mut out = String::from_str(tool);
    out.append("-");
    out.append(version);
    out.append("-");
    out.append(platform.os_token());
    out.append("-");
    out.append(platform.arch_token());
    out.append(archive_suffix());
    out
}

/// Name of the directory that holds one installed version.
pub fn version_dir(tool: &str, version: &str) -> (r: String)
    ensures
        r@ == version_directory(tool@, version@),
{
    let mut out = String::from_str(tool);
    out.append("-");
    out.append(version);
    out
}

impl Tool {
    pub fn new(name: String, repository: String, binary_dir: String) -> (r: Tool)
        ensures
            r@ == (ToolView { name: name@, repository: repository@, binary_dir: binary_dir@ }),
    {
        Tool { name, repository, binary_dir }
    }

    /// Where `version` of this tool lives once installed.
    pub fn installed_version(&self, version: &str, os: Os) -> (r: InstalledVersion)
        ensures
            r@ == installed_version(self@, version@, os),
    {
        InstalledVersion {
            version_directory: version_dir(self.name.as_str(), version),
            binary_path: self.binary_path(version, os),
        }
    }

    /// Path of the executable of the installed `version`, relative to the
    /// working directory.
    pub fn binary_path(&self, version: &str, os: Os) -> (r: String)
        ensures
            r@ == binary_path(self@, version@, os),
    {
        let mut out = version_dir(self.name.as_str(), version);
        out.append("/");
        out.append(self.binary_dir.as_str());
        out.append(self.name.as_str());
        out.append(os.binary_extension());
        out
    }
}

impl Release {
    /// Picks the asset built for `platform`: the first one whose name is
    /// exactly the expected file name. There is no second candidate.
    pub fn select_asset(&self, tool: &str, platform: PlatformTag) -> (r: Result<&Asset, ProvisionError>)
        ensures
            match r {
                Ok(a) => selection(self@, tool@, platform) == Ok::<AssetView, ProvisionErrorView>(a@),
                Err(e) => selection(self@, tool@, platform) == Err::<AssetView, ProvisionErrorView>(e@),
            },
    {
        let sought = asset_name(tool, self.version.as_str(), platform);
        let ghost assets = self@.assets;
        let mut i: usize = 0;
        while i < self.assets.len()
            invariant
                i <= self.assets.len(),
                assets == self@.assets,
                sought@ == asset_file_name(tool@, self@.version, platform),
                assets.len() == self.assets.len(),
                forall|j: int| 0 <= j < i ==> assets[j].name != sought@,
            decreases self.assets.len() - i,
        {
            if self.assets[i].name == sought {
                proof {
                    lemma_position_of(assets, sought@);
                    assert(assets[i as int] == self.assets@[i as int]@);
                }
                return Ok(&self.assets[i]);
            }
            proof {
                assert(assets[i as int] == self.assets@[i as int]@);
            }
            i += 1;
        }
        proof {
            lemma_position_of(assets, sought@);
        }
        Err(ProvisionError::AssetNotFound(sought))
    }
}

} // verus!
