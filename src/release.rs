use vstd::prelude::*;
use vstd::string::StringExecFns;
use crate::platform::{archive_ext_of, arch_token_of, os_token_of, Architecture, Os, PlatformTokens};

verus! {

/// The upstream repository whose releases carry the server binary.
pub const REPO_NAME: &'static str = "buildkite/buildkite-mcp-server";

/// The name of the server binary, and the stem of its asset and directory names.
pub const BINARY_NAME: &'static str = "buildkite-mcp-server";

/// One file attached to a release.
#[derive(Debug)]
pub struct Asset {
    pub name: String,
    pub download_url: String,
}

/// A release of the upstream repository, with its attached assets in order.
#[derive(Debug)]
pub struct Release {
    pub version: String,
    pub assets: Vec<Asset>,
}

/// `{binary}_{os}_{arch}.{ext}`: the name of the asset for a platform.
pub open spec fn asset_name_for(os: Os, arch: Architecture) -> Seq<char> {
    BINARY_NAME@ + "_"@ + os_token_of(os) + "_"@ + arch_token_of(arch) + "."@ + archive_ext_of(os)
}

/// `{binary}-{version}`: the directory that holds one version of the binary.
pub open spec fn version_dir_for(version: Seq<char>) -> Seq<char> {
    BINARY_NAME@ + "-"@ + version
}

/// `{dir}/{binary}`: where the binary lies inside its version directory.
pub open spec fn binary_path_for(dir: Seq<char>) -> Seq<char> {
    dir + "/"@ + BINARY_NAME@
}

/// The names of a sequence of assets.
pub open spec fn asset_names(assets: Seq<Asset>) -> Seq<Seq<char>> {
    assets.map_values(|a: Asset| a.name@)
}

/// `i` is the position of the first asset named `name`.
pub open spec fn is_first_match(assets: Seq<Asset>, name: Seq<char>, i: int) -> bool {
    &&& 0 <= i < assets.len()
    &&& assets[i].name@ == name
    &&& forall|j: int| 0 <= j < i ==> assets[j].name@ != name
}

/// Builds the expected asset name from the platform's tokens.
pub fn expected_asset_name(tokens: &PlatformTokens) -> (r: String)
    ensures
        forall|os: Os, arch: Architecture|
            tokens.describes(os, arch) ==> r@ == #[trigger] asset_name_for(os, arch),
{
    String::from_str(BINARY_NAME)
        .concat("_")
        .concat(tokens.os_token.as_str())
        .concat("_")
        .concat(tokens.arch_token.as_str())
        .concat(".")
        .concat(tokens.archive_ext.as_str())
}

/// Finds the first asset whose name equals `name` exactly.
pub fn find_asset(assets: &Vec<Asset>, name: &String) -> (r: Option<usize>)
    ensures
        r matches Some(i) ==> is_first_match(assets@, name@, i as int),
        r is None ==> forall|j: int| 0 <= j < assets@.len() ==> assets@[j].name@ != name@,
{
    let mut i: usize = 0;
    while i < assets.len()
        invariant
            0 <= i <= assets@.len(),
            forall|j: int| 0 <= j < i ==> assets@[j].name@ != name@,
        decreases assets@.len() - i,
    {
        if assets[i].name == *name {
            return Some(i);
        }
        i = i + 1;
    }
    None
}

/// The directory for one release version.
pub fn version_directory(version: &String) -> (r: String)
    ensures
        r@ == version_dir_for(version@),
{
    String::from_str(BINARY_NAME).concat("-").concat(version.as_str())
}

/// The path of the binary inside a version directory.
pub fn binary_path_in(dir: &String) -> (r: String)
    ensures
        r@ == binary_path_for(dir@),
{
    dir.clone().concat("/").concat(BINARY_NAME)
}

} // verus!
