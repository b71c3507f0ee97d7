//! Releases as the registry describes them, and the choice of the asset that
//! fits a platform.

use vstd::prelude::*;
use crate::error::{ResolveError, ResolveErrorView};
use crate::layout::{asset_name, asset_name_of};
use crate::platform::PlatformTag;

verus! {

/// One downloadable file of a release.
#[derive(Clone, Debug, PartialEq, Eq)]
pub struct Asset {
    pub name: String,
    pub download_url: String,
}

/// A release: its version tag and its assets, in the registry's order.
#[derive(Clone, Debug, PartialEq, Eq)]
pub struct Release {
    pub version: String,
    pub assets: Vec<Asset>,
}

/// What is to be installed: a version and where its archive is fetched from.
#[derive(Clone, Debug, PartialEq, Eq)]
pub struct Located {
    pub version: String,
    pub download_url: String,
}

/// An `Asset` with its texts as character sequences.
pub struct AssetView {
    pub name: Seq<char>,
    pub download_url: Seq<char>,
}

/// A `Release` with its texts as character sequences.
pub struct ReleaseView {
    pub version: Seq<char>,
    pub assets: Seq<AssetView>,
}

/// A `Located` with its texts as character sequences.
pub struct LocatedView {
    pub version: Seq<char>,
    pub download_url: Seq<char>,
}

impl View for Asset {
    type V = AssetView;

    open spec fn view(&self) -> AssetView {
        AssetView { name: self.name@, download_url: self.download_url@ }
    }
}

impl View for Release {
    type V = ReleaseView;

    open spec fn view(&self) -> ReleaseView {
        ReleaseView {
            version: self.version@,
            assets: Seq::new(self.assets@.len(), |i: int| self.assets@[i]@),
        }
    }
}

impl View for Located {
    type V = LocatedView;

    open spec fn view(&self) -> LocatedView {
        LocatedView { version: self.version@, download_url: self.download_url@ }
    }
}

/// Whether `i` is the position of the first asset called `name`.
pub open spec fn is_first_named(assets: Seq<AssetView>, name: Seq<char>, i: int) -> bool {
    &&& 0 <= i < assets.len()
    &&& assets[i].name == name
    &&& forall|j: int| 0 <= j < i ==> assets[j].name != name
}

/// Whether some asset is called `name`.
pub open spec fn has_named(assets: Seq<AssetView>, name: Seq<char>) -> bool {
    exists|i: int| 0 <= i < assets.len() && #[trigger] assets[i].name == name
}

/// The first asset called `name`.
pub open spec fn first_named(assets: Seq<AssetView>, name: Seq<char>) -> Option<AssetView> {
    if has_named(assets, name) {
        Some(assets[choose|i: int| is_first_named(assets, name, i)])
    } else {
        None
    }
}

/// The release's asset for the platform: the first one whose name is exactly
/// the platform's asset name. Without one, the name that was looked for is
/// reported.
pub open spec fn locate_in(release: ReleaseView, platform: PlatformTag) -> Result<
    LocatedView,
    ResolveErrorView,
> {
    match first_named(release.assets, asset_name_of(platform)) {
        Some(asset) => Ok(
            LocatedView { version: release.version, download_url: asset.download_url },
        ),
        None => Err(ResolveErrorView::AssetNotFound(asset_name_of(platform))),
    }
}

/// At most one position is that of the first asset called `name`, and there
/// is one exactly when some asset has the name.
pub proof fn lemma_first_named(assets: Seq<AssetView>, name: Seq<char>, i: int)
    requires
        is_first_named(assets, name, i),
    ensures
        has_named(assets, name),
        first_named(assets, name) == Some(assets[i]),
{
    let k = choose|k: int| is_first_named(assets, name, k);
    assert(is_first_named(assets, name, k));
    if k < i {
        assert(assets[k].name != name);
    }
    if i < k {
        assert(assets[i].name != name);
    }
}

/// Position of the first asset called `name`, if any asset is.
pub fn find_asset(assets: &Vec<Asset>, name: &String) -> (r: Option<usize>)
    ensures
        r is Some <==> has_named(Seq::new(assets@.len(), |i: int| assets@[i]@), name@),
        r matches Some(i) ==> is_first_named(
            Seq::new(assets@.len(), |i: int| assets@[i]@),
            name@,
            i as int,
        ),
{
    let ghost views = Seq::new(assets@.len(), |i: int| assets@[i]@);
    let mut i: usize = 0;
    while i < assets.len()
        invariant
            0 <= i <= assets.len(),
            views == Seq::new(assets@.len(), |i: int| assets@[i]@),
            forall|j: int| 0 <= j < i ==> views[j].name != name@,
        decreases assets.len() - i,
    {
        if assets[i].name == *name {
            assert(views[i as int].name == name@);
            return Some(i);
        }
        i += 1;
    }
    None
}

/// Picks from a release the archive to install on the platform.
///
/// Succeeds exactly when an asset is called `<binary-name>-<arch>-<os>.tar.gz`;
/// the first such asset is taken. No other name is considered.
pub fn locate(release: &Release, platform: PlatformTag) -> (r: Result<Located, ResolveError>)
    ensures
        r is Ok <==> has_named(release@.assets, asset_name_of(platform)),
        match r {
            Ok(found) => locate_in(release@, platform) == Ok::<LocatedView, ResolveErrorView>(
                found@,
            ),
            Err(e) => locate_in(release@, platform) == Err::<LocatedView, ResolveErrorView>(e@),
        },
{
    let wanted = asset_name(platform);
    match find_asset(&release.assets, &wanted) {
        Some(i) => {
            proof {
                lemma_first_named(release@.assets, wanted@, i as int);
            }
            Ok(
                Located {
                    version: release.version.clone(),
                    download_url: release.assets[i].download_url.clone(),
                },
            )
        },
        None => Err(ResolveError::AssetNotFound(wanted)),
    }
}

} // verus!
