use jomai::path_string_normalization::normalize_string;
use jomai::path_string_normalization::PathStringNormalizationExt;

#[test]
fn composed_text_stays_as_it_is() {
    assert_eq!(normalize_string("/w/caf\u{e9}.md"), "/w/caf\u{e9}.md");
    assert_eq!(normalize_string("/w/plain.md"), "/w/plain.md");
    assert_eq!(normalize_string(""), "");
}

#[test]
fn decomposed_text_is_composed() {
    assert_eq!(normalize_string("/w/cafe\u{301}.md"), "/w/caf\u{e9}.md");
    assert_eq!(normalize_string("\u{30cf}\u{309a}"), "\u{30d1}");
    assert_ne!(normalize_string("/w/cafe\u{301}.md"), "/w/cafe\u{301}.md");
}

#[test]
fn normalizing_twice_changes_nothing() {
    let once = normalize_string("/w/cafe\u{301}/\u{30cf}\u{309a}.md");
    let twice = normalize_string(&once);
    assert_eq!(once, twice);
}

#[test]
fn both_spellings_give_the_same_key() {
    let composed = "/w/caf\u{e9}.md";
    let decomposed = "/w/cafe\u{301}.md";
    assert_eq!(composed.to_normalized_path_string(), decomposed.to_normalized_path_string());
    assert_eq!(
        composed.to_string().to_normalized_path_string(),
        decomposed.to_string().to_normalized_path_string()
    );
    let chars: Vec<char> = decomposed.chars().collect();
    assert_eq!(chars.to_normalized_path_string(), composed);
}
