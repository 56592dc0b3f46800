//! Releases of the prebuilt binary: which file of a release fits a platform
//! and a version, and under which name a downloaded file is cached.

use vstd::prelude::*;
use vstd::string::StringExecFns;
use crate::strings::{
    has_suffix, is_substring, lowercase, str_contains, str_ends_with, to_lowercase,
};

verus! {

/// A file of a release.
#[derive(Debug, Clone)]
pub struct ReleaseAsset {
    pub name: String,
    pub download_url: String,
}

/// How well a file fits what was asked for.
#[derive(Debug, Clone, Copy, PartialEq, Eq, Structural)]
pub enum MatchQuality {
    /// The file's name holds the version and a keyword of the platform.
    VersionAndPlatform,
    /// The file's name holds a keyword of the platform, but not the version.
    PlatformOnly,
    /// The file is a shared library; its name says nothing of the platform.
    Fallback,
}

/// The file that was chosen from a release.
#[derive(Debug, Clone, Copy, PartialEq, Eq, Structural)]
pub struct FileMatch {
    /// Index of the file among those of the release.
    pub index: usize,
    pub quality: MatchQuality,
}

/// The names of the files of a release.
pub open spec fn asset_names(files: Seq<ReleaseAsset>) -> Seq<Seq<char>> {
    files.map_values(|f: ReleaseAsset| f.name@)
}

/// The keywords by which the files for a platform are recognized. A
/// platform that is not listed is its own keyword.
pub open spec fn spec_platform_keywords(platform: Seq<char>) -> Seq<Seq<char>> {
    if platform == "arm64-v8a"@ {
        seq!["android-arm64"@, "arm64"@]
    } else if platform == "armeabi-v7a"@ {
        seq!["android-arm"@, "arm"@]
    } else if platform == "x86"@ {
        seq!["android-x86"@, "x86"@]
    } else if platform == "x86_64"@ {
        seq!["android-x86_64"@, "x86_64"@]
    } else if platform == "linux-x86_64"@ {
        seq!["linux-x86_64"@]
    } else {
        seq![platform]
    }
}

/// Whether the lowercase form of `name` holds that of one of the keywords.
pub open spec fn names_platform(name: Seq<char>, keywords: Seq<Seq<char>>) -> bool {
    exists|k: int|
        0 <= k < keywords.len() && is_substring(lowercase(name), lowercase(#[trigger] keywords[k]))
}

/// Whether the lowercase form of `name` holds that of the version.
pub open spec fn names_version(name: Seq<char>, version: Seq<char>) -> bool {
    is_substring(lowercase(name), lowercase(version))
}

/// Whether `name` holds both the version and a keyword of the platform.
pub open spec fn fits_exactly(name: Seq<char>, keywords: Seq<Seq<char>>, version: Seq<char>) -> bool {
    names_version(name, version) && names_platform(name, keywords)
}

/// Whether `name` is that of a shared library.
pub open spec fn is_shared_library(name: Seq<char>) -> bool {
    has_suffix(name, ".so"@)
}

/// The keywords by which the files for `platform` are recognized.
pub fn platform_keywords(platform: &str) -> (keywords: Vec<String>)
    ensures
        keywords.deep_view() == spec_platform_keywords(platform@),
{
    let platform = platform.to_owned();
    let mut keywords: Vec<String> = Vec::new();
    if platform == "arm64-v8a".to_owned() {
        keywords.push("android-arm64".to_owned());
        keywords.push("arm64".to_owned());
    } else if platform == "armeabi-v7a".to_owned() {
        keywords.push("android-arm".to_owned());
        keywords.push("arm".to_owned());
    } else if platform == "x86".to_owned() {
        keywords.push("android-x86".to_owned());
        keywords.push("x86".to_owned());
    } else if platform == "x86_64".to_owned() {
        keywords.push("android-x86_64".to_owned());
        keywords.push("x86_64".to_owned());
    } else if platform == "linux-x86_64".to_owned() {
        keywords.push("linux-x86_64".to_owned());
    } else {
        keywords.push(platform);
    }
    assert(keywords.deep_view() =~= spec_platform_keywords(platform@));
    keywords
}

/// Tells whether the lowercase form of `name` holds that of one of the keywords.
fn name_has_keyword(name: &str, keywords: &Vec<String>) -> (found: bool)
    ensures
        found == names_platform(name@, keywords.deep_view()),
{
    let filename = to_lowercase(name);
    let mut k: usize = 0;
    while k < keywords.len()
        invariant
            k <= keywords.len(),
            filename@ == lowercase(name@),
            forall|m: int|
                0 <= m < k ==> !is_substring(
                    lowercase(name@),
                    lowercase(#[trigger] keywords.deep_view()[m]),
                ),
        decreases keywords.len() - k,
    {
        let keyword = to_lowercase(keywords[k].as_str());
        assert(keywords.deep_view()[k as int] == keywords@[k as int]@);
        if str_contains(filename.as_str(), keyword.as_str()) {
            return true;
        }
        k += 1;
    }
    false
}

/// Chooses the file of a release for a platform and a version.
///
/// The first file whose name holds the version and a keyword of the
/// platform is chosen. Failing that, the first whose name holds a keyword of
/// the platform. Failing that, the first shared library. Names, keywords and
/// version are compared in lowercase; the `.so` ending is not.
pub fn find_matching_file(files: &[ReleaseAsset], platform: &str, frida_version: &str) -> (found:
    Option<FileMatch>)
    ensures
        ({
            let names = asset_names(files@);
            let keywords = spec_platform_keywords(platform@);
            let version = frida_version@;
            match found {
                Some(m) => {
                    &&& m.index < names.len()
                    &&& match m.quality {
                        MatchQuality::VersionAndPlatform => {
                            &&& fits_exactly(names[m.index as int], keywords, version)
                            &&& forall|j: int|
                                0 <= j < m.index ==> !fits_exactly(
                                    #[trigger] names[j],
                                    keywords,
                                    version,
                                )
                        },
                        MatchQuality::PlatformOnly => {
                            &&& forall|j: int|
                                0 <= j < names.len() ==> !fits_exactly(
                                    #[trigger] names[j],
                                    keywords,
                                    version,
                                )
                            &&& names_platform(names[m.index as int], keywords)
                            &&& forall|j: int|
                                0 <= j < m.index ==> !names_platform(#[trigger] names[j], keywords)
                        },
                        MatchQuality::Fallback => {
                            &&& forall|j: int|
                                0 <= j < names.len() ==> !names_platform(
                                    #[trigger] names[j],
                                    keywords,
                                )
                            &&& is_shared_library(names[m.index as int])
                            &&& forall|j: int|
                                0 <= j < m.index ==> !is_shared_library(#[trigger] names[j])
                        },
                    }
                },
                None => forall|j: int|
                    0 <= j < names.len() ==> !names_platform(#[trigger] names[j], keywords)
                        && !is_shared_library(names[j]),
            }
        }),
{
    let platform_keywords = platform_keywords(platform);
    let ghost names = asset_names(files@);
    let ghost keywords = spec_platform_keywords(platform@);
    let version_lower = to_lowercase(frida_version);

    let mut i: usize = 0;
    while i < files.len()
        invariant
            i <= files.len(),
            names == asset_names(files@),
            keywords == spec_platform_keywords(platform@),
            platform_keywords.deep_view() == keywords,
            version_lower@ == lowercase(frida_version@),
            forall|j: int| 0 <= j < i ==> !fits_exactly(#[trigger] names[j], keywords, frida_version@),
        decreases files.len() - i,
    {
        let filename = to_lowercase(files[i].name.as_str());
        if str_contains(filename.as_str(), version_lower.as_str()) && name_has_keyword(
            files[i].name.as_str(),
            &platform_keywords,
        ) {
            return Some(FileMatch { index: i, quality: MatchQuality::VersionAndPlatform });
        }
        i += 1;
    }

    let mut i: usize = 0;
    while i < files.len()
        invariant
            i <= files.len(),
            names == asset_names(files@),
            keywords == spec_platform_keywords(platform@),
            platform_keywords.deep_view() == keywords,
            forall|j: int|
                0 <= j < names.len() ==> !fits_exactly(#[trigger] names[j], keywords, frida_version@),
            forall|j: int| 0 <= j < i ==> !names_platform(#[trigger] names[j], keywords),
        decreases files.len() - i,
    {
        if name_has_keyword(files[i].name.as_str(), &platform_keywords) {
            return Some(FileMatch { index: i, quality: MatchQuality::PlatformOnly });
        }
        i += 1;
    }

    let mut i: usize = 0;
    while i < files.len()
        invariant
            i <= files.len(),
            names == asset_names(files@),
            keywords == spec_platform_keywords(platform@),
            forall|j: int| 0 <= j < names.len() ==> !names_platform(#[trigger] names[j], keywords),
            forall|j: int| 0 <= j < i ==> !is_shared_library(#[trigger] names[j]),
        decreases files.len() - i,
    {
        if str_ends_with(files[i].name.as_str(), ".so") {
            return Some(FileMatch { index: i, quality: MatchQuality::Fallback });
        }
        i += 1;
    }
    None
}

/// The name under which the prebuilt binary for a platform and a version is cached.
pub open spec fn spec_cache_file_name(platform: Seq<char>, frida_version: Seq<char>) -> Seq<char> {
    "fripack-inject-"@ + platform + "-"@ + frida_version + ".so"@
}

/// The name under which the prebuilt binary for a platform and a version is cached.
pub fn cache_file_name(platform: &str, frida_version: &str) -> (file_name: String)
    ensures
        file_name@ == spec_cache_file_name(platform@, frida_version@),
{
    "fripack-inject-".to_owned().concat(platform).concat("-").concat(frida_version).concat(".so")
}

} // verus!
