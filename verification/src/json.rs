//! JSON values as the release listing needs them, and what is read from a
//! release: its files and its version.

use vstd::prelude::*;
use crate::order::{descending, sort_descending};
use crate::release::ReleaseAsset;
use crate::strings::{has_prefix, str_strip_prefix};

verus! {

/// A JSON value. An object keeps its members in the order of the document.
#[derive(Debug)]
pub enum Json {
    Null,
    Bool(bool),
    /// A number, as its text.
    Number(String),
    Text(String),
    Array(Vec<Json>),
    Object(Vec<(String, Json)>),
}

/// The value of the first member from `from` on whose key is `key`.
pub open spec fn member_from(members: Seq<(String, Json)>, key: Seq<char>, from: int) -> Option<
    Json,
>
    decreases members.len() - from,
{
    if from < 0 || from >= members.len() {
        None
    } else if members[from].0@ == key {
        Some(members[from].1)
    } else {
        member_from(members, key, from + 1)
    }
}

impl Json {
    /// The member called `key`, if this is an object that has one.
    pub open spec fn spec_get(&self, key: Seq<char>) -> Option<Json> {
        match self {
            Json::Object(members) => member_from(members@, key, 0),
            _ => None,
        }
    }

    /// The text, if this is a string.
    pub open spec fn spec_as_str(&self) -> Option<Seq<char>> {
        match self {
            Json::Text(text) => Some(text@),
            _ => None,
        }
    }

    /// The items, if this is an array.
    pub open spec fn spec_as_array(&self) -> Option<Seq<Json>> {
        match self {
            Json::Array(items) => Some(items@),
            _ => None,
        }
    }

    /// The text of the member called `key`, if there is one and it is a string.
    pub open spec fn spec_text_of(&self, key: Seq<char>) -> Option<Seq<char>> {
        match self.spec_get(key) {
            Some(value) => value.spec_as_str(),
            None => None,
        }
    }

    /// The member called `key`, if this is an object that has one.
    pub fn get(&self, key: &str) -> (member: Option<&Json>)
        ensures
            match member {
                Some(value) => self.spec_get(key@) == Some(*value),
                None => self.spec_get(key@) is None,
            },
    {
        match self {
            Json::Object(members) => {
                let wanted = key.to_owned();
                let mut i: usize = 0;
                while i < members.len()
                    invariant
                        i <= members.len(),
                        wanted@ == key@,
                        self.spec_get(key@) == member_from(members@, key@, 0),
                        member_from(members@, key@, 0) == member_from(members@, key@, i as int),
                    decreases members.len() - i,
                {
                    if members[i].0 == wanted {
                        return Some(&members[i].1);
                    }
                    i += 1;
                }
                None
            },
            _ => None,
        }
    }

    /// The text, if this is a string.
    pub fn as_str(&self) -> (text: Option<&str>)
        ensures
            match text {
                Some(t) => self.spec_as_str() == Some(t@),
                None => self.spec_as_str() is None,
            },
    {
        match self {
            Json::Text(text) => Some(text.as_str()),
            _ => None,
        }
    }

    /// The items, if this is an array.
    pub fn as_array(&self) -> (items: Option<&Vec<Json>>)
        ensures
            match items {
                Some(v) => self.spec_as_array() == Some(v@),
                None => self.spec_as_array() is None,
            },
    {
        match self {
            Json::Array(items) => Some(items),
            _ => None,
        }
    }

    /// The text of the member called `key`, if there is one and it is a string.
    pub fn text_of(&self, key: &str) -> (text: Option<&str>)
        ensures
            match text {
                Some(t) => self.spec_text_of(key@) == Some(t@),
                None => self.spec_text_of(key@) is None,
            },
    {
        match self.get(key) {
            Some(value) => value.as_str(),
            None => None,
        }
    }
}

/// The name and the download address of a file of a release, if the item
/// states both as strings.
pub open spec fn asset_of(item: Json) -> Option<(Seq<char>, Seq<char>)> {
    match (item.spec_text_of("name"@), item.spec_text_of("browser_download_url"@)) {
        (Some(name), Some(url)) => Some((name, url)),
        _ => None,
    }
}

/// The files that the first `n` items describe, in their order.
pub open spec fn assets_upto(items: Seq<Json>, n: int) -> Seq<(Seq<char>, Seq<char>)>
    decreases n,
{
    if n <= 0 {
        Seq::empty()
    } else {
        match asset_of(items[n - 1]) {
            Some(asset) => assets_upto(items, n - 1).push(asset),
            None => assets_upto(items, n - 1),
        }
    }
}

/// Name and download address of each file.
pub open spec fn asset_pairs(files: Seq<ReleaseAsset>) -> Seq<(Seq<char>, Seq<char>)> {
    files.map_values(|f: ReleaseAsset| (f.name@, f.download_url@))
}

/// The release has no member `assets` that is an array.
#[derive(Debug, Clone, Copy, PartialEq, Eq, Structural)]
pub struct NoAssets;

/// The files of a release: of each item of its `assets` that states a name
/// and a download address, these two.
pub fn release_assets(release: &Json) -> (files: Result<Vec<ReleaseAsset>, NoAssets>)
    ensures
        match release.spec_get("assets"@) {
            Some(Json::Array(items)) => files matches Ok(f) && asset_pairs(f@) == assets_upto(
                items@,
                items@.len() as int,
            ),
            _ => files is Err,
        },
{
    let assets = match release.get("assets") {
        Some(value) => match value.as_array() {
            Some(assets) => assets,
            None => {
                return Err(NoAssets);
            },
        },
        None => {
            return Err(NoAssets);
        },
    };
    let mut files: Vec<ReleaseAsset> = Vec::new();
    let mut i: usize = 0;
    while i < assets.len()
        invariant
            i <= assets.len(),
            asset_pairs(files@) == assets_upto(assets@, i as int),
        decreases assets.len() - i,
    {
        let ghost before = files@;
        let name = assets[i].text_of("name");
        let download_url = assets[i].text_of("browser_download_url");
        match (name, download_url) {
            (Some(name), Some(download_url)) => {
                files.push(
                    ReleaseAsset { name: name.to_owned(), download_url: download_url.to_owned() },
                );
                assert(asset_pairs(files@) =~= asset_pairs(before).push((name@, download_url@)));
            },
            _ => {},
        }
        i += 1;
    }
    Ok(files)
}

/// The version that a release is tagged with: its `tag_name` without the
/// leading `v`, if it is a string that starts with one.
pub open spec fn version_of(release: Json) -> Option<Seq<char>> {
    match release.spec_text_of("tag_name"@) {
        Some(tag) => if has_prefix(tag, "v"@) {
            Some(tag.subrange("v"@.len() as int, tag.len() as int))
        } else {
            None
        },
        None => None,
    }
}

/// The versions of the first `n` releases, in their order.
pub open spec fn versions_upto(releases: Seq<Json>, n: int) -> Seq<Seq<char>>
    decreases n,
{
    if n <= 0 {
        Seq::empty()
    } else {
        match version_of(releases[n - 1]) {
            Some(version) => versions_upto(releases, n - 1).push(version),
            None => versions_upto(releases, n - 1),
        }
    }
}

/// The versions of the releases that are tagged with one, in the order of
/// the listing.
pub fn release_versions(releases: &Vec<Json>) -> (versions: Vec<String>)
    ensures
        versions.deep_view() == versions_upto(releases@, releases@.len() as int),
{
    let mut versions: Vec<String> = Vec::new();
    let mut i: usize = 0;
    while i < releases.len()
        invariant
            i <= releases.len(),
            versions.deep_view() == versions_upto(releases@, i as int),
        decreases releases.len() - i,
    {
        let ghost before = versions.deep_view();
        if let Some(tag_name) = releases[i].text_of("tag_name") {
            if let Some(version) = str_strip_prefix(tag_name, "v") {
                versions.push(version.to_owned());
                assert(versions.deep_view() =~= before.push(version@));
            }
        }
        i += 1;
    }
    versions
}

/// The versions that a listing of releases offers, the last in the order of
/// texts first.
pub fn available_releases(releases: &Vec<Json>) -> (versions: Vec<String>)
    ensures
        descending(versions.deep_view()),
        versions.deep_view().to_multiset() == versions_upto(
            releases@,
            releases@.len() as int,
        ).to_multiset(),
{
    let versions = release_versions(releases);
    sort_descending(&versions)
}

} // verus!
