use fripack::json::{release_assets, release_versions, Json, NoAssets};
use fripack::release::{
    cache_file_name, find_matching_file, platform_keywords, FileMatch, MatchQuality, ReleaseAsset,
};

fn assets(names: &[&str]) -> Vec<ReleaseAsset> {
    names
        .iter()
        .map(|n| ReleaseAsset {
            name: n.to_string(),
            download_url: format!("https://example.invalid/{}", n),
        })
        .collect()
}

fn found(index: usize, quality: MatchQuality) -> Option<FileMatch> {
    Some(FileMatch { index, quality })
}

#[test]
fn keywords_of_the_known_platforms() {
    assert_eq!(platform_keywords("arm64-v8a"), vec!["android-arm64", "arm64"]);
    assert_eq!(platform_keywords("armeabi-v7a"), vec!["android-arm", "arm"]);
    assert_eq!(platform_keywords("x86"), vec!["android-x86", "x86"]);
    assert_eq!(platform_keywords("x86_64"), vec!["android-x86_64", "x86_64"]);
    assert_eq!(platform_keywords("linux-x86_64"), vec!["linux-x86_64"]);
    assert_eq!(platform_keywords("riscv64"), vec!["riscv64"]);
    assert_eq!(platform_keywords(""), vec![""]);
    assert_eq!(platform_keywords("ARM64-V8A"), vec!["ARM64-V8A"]);
}

#[test]
fn version_and_platform_win() {
    let files = assets(&[
        "fripack-inject-17.5.0-android-arm64.so",
        "fripack-inject-17.5.1-android-x86.so",
        "fripack-inject-17.5.1-android-arm64.so",
        "fripack-inject-17.5.1-arm64.so",
    ]);
    assert_eq!(
        find_matching_file(&files, "arm64-v8a", "17.5.1"),
        found(2, MatchQuality::VersionAndPlatform)
    );
    assert_eq!(
        find_matching_file(&files, "x86", "17.5.1"),
        found(1, MatchQuality::VersionAndPlatform)
    );
}

#[test]
fn comparison_ignores_case() {
    let files = assets(&["Fripack-Inject-V17.5.1-ANDROID-ARM64.SO"]);
    assert_eq!(
        find_matching_file(&files, "arm64-v8a", "17.5.1"),
        found(0, MatchQuality::VersionAndPlatform)
    );
    let files = assets(&["inject-rc1-riscv.so"]);
    assert_eq!(find_matching_file(&files, "RISCV", "RC1"), found(0, MatchQuality::VersionAndPlatform));
}

#[test]
fn platform_alone_is_second_best() {
    let files = assets(&["notes.txt", "inject-16.0.0-android-arm.so", "inject-16.0.0-arm64.so"]);
    assert_eq!(
        find_matching_file(&files, "arm64-v8a", "17.5.1"),
        found(2, MatchQuality::PlatformOnly)
    );
    // "arm" is a keyword of armeabi-v7a and occurs in both names.
    assert_eq!(
        find_matching_file(&files, "armeabi-v7a", "17.5.1"),
        found(1, MatchQuality::PlatformOnly)
    );
}

#[test]
fn any_shared_library_is_the_fallback() {
    let files = assets(&["readme.md", "inject.SO", "inject-mips.so", "other.so"]);
    assert_eq!(find_matching_file(&files, "arm64-v8a", "17.5.1"), found(2, MatchQuality::Fallback));
}

#[test]
fn nothing_fits() {
    assert_eq!(find_matching_file(&assets(&["readme.md", "lib.dll"]), "arm64-v8a", "1"), None);
    assert_eq!(find_matching_file(&[], "arm64-v8a", "1"), None);
}

#[test]
fn empty_keyword_occurs_in_every_name() {
    let files = assets(&["a.txt", "b-1.0.txt"]);
    assert_eq!(find_matching_file(&files, "", "1.0"), found(1, MatchQuality::VersionAndPlatform));
    assert_eq!(find_matching_file(&files, "", "2.0"), found(0, MatchQuality::PlatformOnly));
}

#[test]
fn cache_files_are_named_after_platform_and_version() {
    assert_eq!(cache_file_name("arm64-v8a", "17.5.1"), "fripack-inject-arm64-v8a-17.5.1.so");
    assert_eq!(cache_file_name("", ""), "fripack-inject--.so");
}

fn object(members: Vec<(&str, Json)>) -> Json {
    Json::Object(members.into_iter().map(|(k, v)| (k.to_string(), v)).collect())
}

fn string(value: &str) -> Json {
    Json::Text(value.to_string())
}

#[test]
fn json_accessors() {
    let value = object(vec![("a", string("x")), ("b", Json::Null), ("a", string("y"))]);
    assert_eq!(value.get("a").unwrap().as_str(), Some("x"));
    assert!(value.get("b").unwrap().as_str().is_none());
    assert!(value.get("c").is_none());
    assert_eq!(value.text_of("a"), Some("x"));
    assert_eq!(value.text_of("b"), None);
    assert_eq!(value.text_of("c"), None);
    assert!(string("x").get("a").is_none());
    assert!(Json::Array(vec![]).as_str().is_none());
    assert_eq!(Json::Array(vec![Json::Bool(true)]).as_array().unwrap().len(), 1);
    assert!(value.as_array().is_none());
    assert!(Json::Number("1".to_string()).as_str().is_none());
}

#[test]
fn assets_are_read_from_a_release() {
    let release = object(vec![
        ("tag_name", string("17.5.1")),
        (
            "assets",
            Json::Array(vec![
                object(vec![("name", string("a.so")), ("browser_download_url", string("u/a"))]),
                object(vec![("name", string("no-url.so"))]),
                object(vec![("name", Json::Number("7".to_string())), ("browser_download_url", string("u/n"))]),
                Json::Null,
                object(vec![("browser_download_url", string("u/b")), ("name", string("b.so")), ("size", Json::Number("3".to_string()))]),
            ]),
        ),
    ]);
    let files = release_assets(&release).unwrap();
    let pairs: Vec<(&str, &str)> =
        files.iter().map(|f| (f.name.as_str(), f.download_url.as_str())).collect();
    assert_eq!(pairs, vec![("a.so", "u/a"), ("b.so", "u/b")]);
}

#[test]
fn release_without_asset_list_is_an_error() {
    assert_eq!(release_assets(&object(vec![])).err(), Some(NoAssets));
    assert_eq!(release_assets(&object(vec![("assets", string("none"))])).err(), Some(NoAssets));
    assert_eq!(release_assets(&Json::Null).err(), Some(NoAssets));
    assert!(release_assets(&object(vec![("assets", Json::Array(vec![]))])).unwrap().is_empty());
}

#[test]
fn versions_are_the_tags_without_their_v() {
    let releases = vec![
        object(vec![("tag_name", string("v17.5.1"))]),
        object(vec![("tag_name", string("17.5.0"))]),
        object(vec![("name", string("v1"))]),
        object(vec![("tag_name", string("vv2"))]),
        object(vec![("tag_name", string("v"))]),
        object(vec![("tag_name", Json::Bool(true))]),
        object(vec![("tag_name", string("v16.0.0"))]),
    ];
    assert_eq!(release_versions(&releases), vec!["17.5.1", "v2", "", "16.0.0"]);
    assert!(release_versions(&Vec::new()).is_empty());
}
