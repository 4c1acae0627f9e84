//! Release metadata and the selection of an asset by name.

use vstd::prelude::*;

verus! {

/// A downloadable file attached to a release.
#[derive(Clone, Debug, PartialEq, Eq)]
pub struct Asset {
    pub name: String,
    pub download_url: String,
}

/// A published version of the tool with the assets attached to it, in the publisher's order.
#[derive(Clone, Debug, PartialEq, Eq)]
pub struct Release {
    pub version: String,
    pub assets: Vec<Asset>,
}

/// What an asset is: its name and its address, as text.
pub struct AssetModel {
    pub name: Seq<char>,
    pub download_url: Seq<char>,
}

/// What a release is: its version and its assets in order.
pub struct ReleaseModel {
    pub version: Seq<char>,
    pub assets: Seq<AssetModel>,
}

impl View for Asset {
    type V = AssetModel;

    open spec fn view(&self) -> AssetModel {
        AssetModel { name: self.name@, download_url: self.download_url@ }
    }
}

impl View for Release {
    type V = ReleaseModel;

    open spec fn view(&self) -> ReleaseModel {
        ReleaseModel {
            version: self.version@,
            assets: Seq::new(self.assets@.len(), |i: int| self.assets@[i]@),
        }
    }
}

/// The position of the first asset with exactly the given name, if there is one.
pub open spec fn first_named(assets: Seq<AssetModel>, name: Seq<char>) -> Option<int> {
    if exists|i: int| 0 <= i < assets.len() && assets[i].name == name {
        Some(
            choose|i: int|
                0 <= i < assets.len() && assets[i].name == name && forall|j: int|
                    0 <= j < i ==> assets[j].name != name,
        )
    } else {
        None
    }
}

/// Whether `at` is where the first asset named `name` stands, or says rightly that none is.
pub open spec fn is_first_named(assets: Seq<AssetModel>, name: Seq<char>, at: Option<int>) -> bool {
    match at {
        Some(i) => 0 <= i < assets.len() && assets[i].name == name && forall|j: int|
            0 <= j < i ==> assets[j].name != name,
        None => forall|j: int| 0 <= j < assets.len() ==> assets[j].name != name,
    }
}

/// A position in a list of assets, as a mathematical integer.
pub open spec fn position_model(at: Option<usize>) -> Option<int> {
    match at {
        Some(i) => Some(i as int),
        None => None,
    }
}

/// The first match is unique: whatever position meets `is_first_named` is `first_named`.
pub proof fn first_named_is_unique(assets: Seq<AssetModel>, name: Seq<char>, at: Option<int>)
    requires
        is_first_named(assets, name, at),
    ensures
        at == first_named(assets, name),
{
    match at {
        Some(i) => {
            let k = choose|k: int|
                0 <= k < assets.len() && assets[k].name == name && forall|j: int|
                    0 <= j < k ==> assets[j].name != name;
            assert(0 <= k < assets.len() && assets[k].name == name && forall|j: int|
                0 <= j < k ==> assets[j].name != name);
            assert(k == i) by {
                if k < i {
                    assert(assets[k].name != name);
                }
                if i < k {
                    assert(assets[i].name != name);
                }
            }
        },
        None => {},
    }
}

impl Release {
    /// Searches the assets in order for one whose name is exactly `name`, and
    /// gives the position of the first.
    pub fn find_asset(&self, name: &String) -> (r: Option<usize>)
        ensures
            is_first_named(self@.assets, name@, position_model(r)),
            position_model(r) == first_named(self@.assets, name@),
    {
        let mut i: usize = 0;
        while i < self.assets.len()
            invariant
                i <= self.assets.len(),
                forall|j: int| 0 <= j < i ==> self@.assets[j].name != name@,
            decreases self.assets.len() - i,
        {
            if self.assets[i].name == *name {
                proof {
                    assert(self@.assets[i as int].name == name@);
                    first_named_is_unique(self@.assets, name@, Some(i as int));
                }
                return Some(i);
            }
            i += 1;
        }
        proof {
            first_named_is_unique(self@.assets, name@, None);
        }
        None
    }
}

} // verus!
