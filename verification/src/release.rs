//! Releases, their assets, and the names that an installation goes by.

use crate::error::ResolveError;
use crate::text::joined;
use vstd::prelude::*;
use vstd::string::*;

verus! {

/// The family of the host's operating system.
#[derive(Clone, Copy, Debug, PartialEq, Eq, Structural)]
pub enum Os {
    Mac,
    Linux,
    Windows,
}

/// One of the launcher scripts of an installation.
#[derive(Clone, Copy, Debug, PartialEq, Eq, Structural)]
pub enum Script {
    /// The launcher of the language server itself.
    LanguageServer,
    Launch,
    DebugAdapter,
}

/// A downloadable file of a release.
#[derive(Debug)]
pub struct ReleaseAsset {
    pub name: String,
    pub download_url: String,
}

/// A release: its version and what can be downloaded of it.
#[derive(Debug)]
pub struct Release {
    pub version: String,
    pub assets: Vec<ReleaseAsset>,
}

/// What is needed to install one release: its version, where its archive is,
/// and the host's operating system.
#[derive(Debug)]
pub struct InstallPlan {
    pub version: String,
    pub download_url: String,
    pub os: Os,
}

/// The name of the archive of a version: `elixir-ls-VERSION.zip`.
pub open spec fn spec_asset_name(version: Seq<char>) -> Seq<char> {
    "elixir-ls-"@ + version + ".zip"@
}

/// The name of the directory of a version: `elixir-ls-VERSION`.
pub open spec fn spec_version_dir(version: Seq<char>) -> Seq<char> {
    "elixir-ls-"@ + version
}

/// The file extension of the launcher scripts: `sh` on macOS and Linux, `bat`
/// on Windows.
pub open spec fn spec_script_extension(os: Os) -> Seq<char> {
    match os {
        Os::Mac | Os::Linux => "sh"@,
        Os::Windows => "bat"@,
    }
}

/// The file name of a script without its extension.
pub open spec fn spec_script_stem(script: Script) -> Seq<char> {
    match script {
        Script::LanguageServer => "language_server"@,
        Script::Launch => "launch"@,
        Script::DebugAdapter => "debug_adapter"@,
    }
}

/// The path of a script of a version: `elixir-ls-VERSION/STEM.EXTENSION`.
pub open spec fn spec_script_path(version: Seq<char>, os: Os, script: Script) -> Seq<char> {
    spec_version_dir(version) + "/"@ + spec_script_stem(script) + "."@ + spec_script_extension(os)
}

/// The index of the first asset at or after `from` that is named `name`.
pub open spec fn spec_find_asset_from(assets: Seq<ReleaseAsset>, name: Seq<char>, from: int) -> Option<
    int,
>
    decreases assets.len() - from,
{
    if from < 0 || from >= assets.len() {
        None
    } else if assets[from].name@ == name {
        Some(from)
    } else {
        spec_find_asset_from(assets, name, from + 1)
    }
}

/// The index of the first asset that is named `name`.
pub open spec fn spec_find_asset(assets: Seq<ReleaseAsset>, name: Seq<char>) -> Option<int> {
    spec_find_asset_from(assets, name, 0)
}

/// `spec_find_asset_from` gives the least index from `from` on whose asset
/// has the name, and `None` exactly when there is no such index.
pub proof fn lemma_find_asset_from(assets: Seq<ReleaseAsset>, name: Seq<char>, from: int)
    requires
        0 <= from,
    ensures
        match spec_find_asset_from(assets, name, from) {
            Some(i) => {
                &&& from <= i < assets.len()
                &&& assets[i].name@ == name
                &&& forall|j: int| from <= j < i ==> assets[j].name@ != name
            },
            None => forall|j: int| from <= j < assets.len() ==> assets[j].name@ != name,
        },
    decreases assets.len() - from,
{
    if from < assets.len() && assets[from].name@ != name {
        lemma_find_asset_from(assets, name, from + 1);
    }
}

/// The plan for a release on a host, or the error if the release lacks the
/// archive.
pub open spec fn spec_plan_install(release: Release, os: Os) -> Result<InstallPlan, ResolveError> {
    match spec_find_asset(release.assets@, spec_asset_name(release.version@)) {
        Some(i) => Ok(
            InstallPlan {
                version: release.version,
                download_url: release.assets@[i].download_url,
                os,
            },
        ),
        None => Err(ResolveError::AssetNotFound(release.version)),
    }
}

pub fn asset_name(version: &str) -> (name: String)
    ensures
        name@ == spec_asset_name(version@),
{
    let mut name = joined("elixir-ls-", version);
    name.append(".zip");
    name
}

pub fn version_dir(version: &str) -> (name: String)
    ensures
        name@ == spec_version_dir(version@),
{
    joined("elixir-ls-", version)
}

pub fn script_extension(os: Os) -> (extension: &'static str)
    ensures
        extension@ == spec_script_extension(os),
{
    match os {
        Os::Mac | Os::Linux => "sh",
        Os::Windows => "bat",
    }
}

pub fn script_path(version: &str, os: Os, script: Script) -> (path: String)
    ensures
        path@ == spec_script_path(version@, os, script),
{
    let stem = match script {
        Script::LanguageServer => "language_server",
        Script::Launch => "launch",
        Script::DebugAdapter => "debug_adapter",
    };
    let mut path = version_dir(version);
    path.append("/");
    path.append(stem);
    path.append(".");
    path.append(script_extension(os));
    path
}

/// The index of the first asset that is named `name`: `Some` exactly when an
/// asset has the name, and then the least such index.
pub fn find_asset(assets: &Vec<ReleaseAsset>, name: &String) -> (found: Option<usize>)
    ensures
        match found {
            Some(i) => {
                &&& i < assets.len()
                &&& assets[i as int].name@ == name@
                &&& forall|j: int| 0 <= j < i ==> assets[j].name@ != name@
                &&& spec_find_asset(assets@, name@) == Some(i as int)
            },
            None => {
                &&& forall|j: int| 0 <= j < assets.len() ==> assets[j].name@ != name@
                &&& spec_find_asset(assets@, name@).is_none()
            },
        },
{
    let mut i: usize = 0;
    while i < assets.len()
        invariant
            i <= assets.len(),
            spec_find_asset(assets@, name@) == spec_find_asset_from(assets@, name@, i as int),
        decreases assets.len() - i,
    {
        if assets[i].name == *name {
            proof {
                lemma_find_asset_from(assets@, name@, 0);
            }
            return Some(i);
        }
        i += 1;
    }
    proof {
        lemma_find_asset_from(assets@, name@, 0);
    }
    None
}

/// Picks the archive of the release and fixes what an installation needs.
/// Fails exactly when no asset of the release has the archive's name.
pub fn plan_install(release: Release, os: Os) -> (plan: Result<InstallPlan, ResolveError>)
    ensures
        plan == spec_plan_install(release, os),
{
    let Release { version, assets } = release;
    let expected = asset_name(version.as_str());
    match find_asset(&assets, &expected) {
        Some(i) => {
            let download_url = assets[i].download_url.clone();
            Ok(InstallPlan { version, download_url, os })
        },
        None => Err(ResolveError::AssetNotFound(version)),
    }
}

impl InstallPlan {
    /// The directory that the release is unpacked into.
    pub open spec fn spec_version_dir(&self) -> Seq<char> {
        spec_version_dir(self.version@)
    }

    /// The path of one of the launcher scripts.
    pub open spec fn spec_script_path(&self, script: Script) -> Seq<char> {
        spec_script_path(self.version@, self.os, script)
    }

    /// The path of the language server's launcher.
    pub open spec fn spec_binary_path(&self) -> Seq<char> {
        self.spec_script_path(Script::LanguageServer)
    }

    pub fn version_dir(&self) -> (name: String)
        ensures
            name@ == self.spec_version_dir(),
    {
        version_dir(self.version.as_str())
    }

    pub fn script_path(&self, script: Script) -> (path: String)
        ensures
            path@ == self.spec_script_path(script),
    {
        script_path(self.version.as_str(), self.os, script)
    }

    pub fn binary_path(&self) -> (path: String)
        ensures
            path@ == self.spec_binary_path(),
    {
        self.script_path(Script::LanguageServer)
    }
}

} // verus!
