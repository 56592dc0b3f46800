use fripack::json::{available_releases, Json};
use fripack::order::sort_descending;
use fripack::search::{search_step, SearchStep, ALTERNATE_CONFIG_FILE_NAME, CONFIG_FILE_NAME};

fn texts(values: &[&str]) -> Vec<String> {
    values.iter().map(|v| v.to_string()).collect()
}

#[test]
fn sorts_from_last_to_first() {
    assert_eq!(
        sort_descending(&texts(&["16.0.0", "17.5.1", "9.1", "17.5.0", "17.10.0"])),
        texts(&["9.1", "17.5.1", "17.5.0", "17.10.0", "16.0.0"])
    );
    assert_eq!(sort_descending(&texts(&["a", "b", "c"])), texts(&["c", "b", "a"]));
    assert_eq!(sort_descending(&texts(&["c", "b", "a"])), texts(&["c", "b", "a"]));
}

#[test]
fn prefix_comes_before_what_it_starts() {
    assert_eq!(sort_descending(&texts(&["", "ab", "a", "abc"])), texts(&["abc", "ab", "a", ""]));
}

#[test]
fn order_is_that_of_the_code_points() {
    assert_eq!(
        sort_descending(&texts(&["z", "é", "\u{1F600}", "Z", "\u{ffff}", "~"])),
        texts(&["\u{1F600}", "\u{ffff}", "é", "~", "z", "Z"])
    );
}

#[test]
fn sort_keeps_every_text() {
    let input = texts(&["b", "a", "b", "", "a", "b"]);
    let sorted = sort_descending(&input);
    assert_eq!(sorted, texts(&["b", "b", "b", "a", "a", ""]));
    assert!(sort_descending(&Vec::new()).is_empty());
    assert_eq!(sort_descending(&texts(&["only"])), texts(&["only"]));
}

#[test]
fn sort_agrees_with_std() {
    let input: Vec<String> =
        (0..200u32).map(|i| format!("{}.{}", (i * 7919) % 23, (i * 104729) % 17)).collect();
    let mut expected = input.clone();
    expected.sort_by(|a, b| b.cmp(a));
    assert_eq!(sort_descending(&input), expected);
}

#[test]
fn available_releases_are_sorted_versions() {
    let release = |tag: &str| {
        Json::Object(vec![("tag_name".to_string(), Json::Text(tag.to_string()))])
    };
    let releases =
        vec![release("v16.7.0"), release("nightly"), release("v17.5.1"), release("v17.0.0")];
    assert_eq!(available_releases(&releases), texts(&["17.5.1", "17.0.0", "16.7.0"]));
}

#[test]
fn search_prefers_the_first_name_and_climbs() {
    assert_eq!(CONFIG_FILE_NAME, "fripack.json");
    assert_eq!(ALTERNATE_CONFIG_FILE_NAME, "fripack.config.json");
    assert_eq!(search_step(true, true, true), SearchStep::UseConfigFile);
    assert_eq!(search_step(true, false, false), SearchStep::UseConfigFile);
    assert_eq!(search_step(false, true, true), SearchStep::UseAlternateFile);
    assert_eq!(search_step(false, true, false), SearchStep::UseAlternateFile);
    assert_eq!(search_step(false, false, true), SearchStep::Ascend);
    assert_eq!(search_step(false, false, false), SearchStep::GiveUp);
}
