//! Release metadata as handed back by the remote release source, and the
//! selection of the asset that matches the platform's expected file name.

use vstd::prelude::*;

verus! {

/// One downloadable file attached to a release.
#[derive(Clone, Debug, PartialEq, Eq)]
pub struct Asset {
    /// File name of the asset.
    pub name: String,
    /// Where the asset can be downloaded from.
    pub download_url: String,
}

/// Metadata of a release: its version string and its assets, in the order
/// the release source lists them.
#[derive(Clone, Debug, PartialEq, Eq)]
pub struct ReleaseInfo {
    /// Version string of the release, as published.
    pub version: String,
    /// The release's downloadable assets.
    pub assets: Vec<Asset>,
}

/// Whether some asset in the sequence bears the given file name.
pub open spec fn spec_has_asset(assets: Seq<Asset>, name: Seq<char>) -> bool {
    exists|i: int| 0 <= i < assets.len() && assets[i].name@ == name
}

/// The download URL of the first asset with the given file name, if any:
/// `Some(url)` exactly when such an asset exists, and then `url` is the URL
/// of the earliest one.
pub fn select_asset(assets: &Vec<Asset>, name: &String) -> (r: Option<String>)
    ensures
        r is Some <==> spec_has_asset(assets@, name@),
        r matches Some(url) ==> exists|i: int|
            0 <= i < assets@.len() && assets@[i].name@ == name@ && url@
                == assets@[i].download_url@ && (forall|j: int|
                0 <= j < i ==> assets@[j].name@ != name@),
{
    let n = assets.len();
    for k in 0..n
        invariant
            n == assets@.len(),
            forall|j: int| 0 <= j < k ==> assets@[j].name@ != name@,
    {
        if assets[k].name == *name {
            let url = assets[k].download_url.clone();
            proof {
                assert(0 <= k < assets@.len() && assets@[k as int].name@ == name@ && url@
                    == assets@[k as int].download_url@ && (forall|j: int|
                    0 <= j < k ==> assets@[j].name@ != name@));
            }
            return Some(url);
        }
    }
    None
}

} // verus!
