//! Names of the release artifact and of the places an installed version
//! occupies in the storage root.

use vstd::prelude::*;
use crate::platform::{arch_text, os_text, PlatformTag};

verus! {

/// Name of the language-server binary.
pub const BINARY_NAME: &'static str = "text-language-server";

/// Repository whose releases carry the binary.
pub const GITHUB_REPO: &'static str = "Lev1ty/text-language-server";

/// `<binary-name>-<arch>-<os>.tar.gz`
pub open spec fn asset_name_of(platform: PlatformTag) -> Seq<char> {
    BINARY_NAME@ + "-"@ + arch_text(platform.arch) + "-"@ + os_text(platform.os) + ".tar.gz"@
}

/// `<binary-name>-<version>`
pub open spec fn version_dir_of(version: Seq<char>) -> Seq<char> {
    BINARY_NAME@ + "-"@ + version
}

/// `<version-dir>/<binary-name>`
pub open spec fn binary_path_of(version: Seq<char>) -> Seq<char> {
    version_dir_of(version) + "/"@ + BINARY_NAME@
}

/// Name of the artifact published for a platform.
pub fn asset_name(platform: PlatformTag) -> (r: String)
    ensures
        r@ == asset_name_of(platform),
{
    let mut name = String::from_str(BINARY_NAME);
    name.append("-");
    name.append(platform.arch.as_str());
    name.append("-");
    name.append(platform.os.as_str());
    name.append(".tar.gz");
    name
}

/// Directory, relative to the storage root, that holds one installed version.
pub fn version_dir(version: &str) -> (r: String)
    ensures
        r@ == version_dir_of(version@),
{
    let mut dir = String::from_str(BINARY_NAME);
    dir.append("-");
    dir.append(version);
    dir
}

/// Path, relative to the storage root, of the binary of one installed version.
pub fn binary_path(version: &str) -> (r: String)
    ensures
        r@ == binary_path_of(version@),
{
    let mut path = version_dir(version);
    path.append("/");
    path.append(BINARY_NAME);
    path
}

} // verus!
