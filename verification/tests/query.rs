use jomai::query::escape_like_pattern;
use jomai::query::escape_query;
use jomai::query::make_tag_query;
use jomai::query::search_query;
use jomai::query::under_path_pattern;

#[test]
fn test_escape_query() {
    assert_eq!(escape_query("a+b"), "a\\+b");
    assert_eq!(escape_query("a^b"), "a\\^b");
    assert_eq!(escape_query("a:b"), "a\\:b");
    assert_eq!(escape_query("a`b"), "a\\`b");
    assert_eq!(escape_query("a{b"), "a\\{b");
    assert_eq!(escape_query("a}b"), "a\\}b");
    assert_eq!(escape_query("a\"b"), "a\\\"b");
    assert_eq!(escape_query("a[b"), "a\\[b");
    assert_eq!(escape_query("a]b"), "a\\]b");
    assert_eq!(escape_query("a(b"), "a\\(b");
    assert_eq!(escape_query("a)b"), "a\\)b");
    assert_eq!(escape_query("a~b"), "a\\~b");
    assert_eq!(escape_query("a!b"), "a\\!b");
    assert_eq!(escape_query("a*b"), "a\\*b");
    assert_eq!(escape_query("a\\b"), "a\\\\b");
}

#[test]
fn escape_query_trims() {
    assert_eq!(escape_query("  a b \n"), "a b");
    assert_eq!(escape_query("\u{3000}日本\u{3000}"), "日本");
    assert_eq!(escape_query("   "), "");
    assert_eq!(escape_query(""), "");
    assert_eq!(escape_query(" (a) "), "\\(a\\)");
}

#[test]
fn like_pattern_doubles_the_escapes_it_wrote() {
    assert_eq!(escape_like_pattern("plain"), "plain");
    assert_eq!(escape_like_pattern("50%"), "50\\\\%");
    assert_eq!(escape_like_pattern("a_b"), "a\\\\_b");
    assert_eq!(escape_like_pattern("a\\b"), "a\\\\b");
    assert_eq!(escape_like_pattern(""), "");
}

#[test]
fn tag_query_names_every_tag_field() {
    assert_eq!(
        make_tag_query(&vec!["x".to_string()]),
        "(tag_en:\"x\" OR tag_ja:\"x\" OR tag_ngram:\"x\")"
    );
    assert_eq!(
        make_tag_query(&vec!["x".to_string(), "y z".to_string()]),
        "(tag_en:\"x\" OR tag_ja:\"x\" OR tag_ngram:\"x\") AND (tag_en:\"y z\" OR tag_ja:\"y z\" OR tag_ngram:\"y z\")"
    );
    assert_eq!(make_tag_query(&Vec::new()), "");
}

#[test]
fn query_with_and_without_tags() {
    let none: Vec<String> = Vec::new();
    assert_eq!(search_query(" Hello ", &none), " Hello ");
    assert_eq!(search_query("", &none), "");
    let tags = vec!["x".to_string()];
    assert_eq!(
        search_query(" Hello ", &tags),
        "Hello AND (tag_en:\"x\" OR tag_ja:\"x\" OR tag_ngram:\"x\")"
    );
    assert_eq!(search_query("", &tags), "(tag_en:\"x\" OR tag_ja:\"x\" OR tag_ngram:\"x\")");
    assert_eq!(search_query("  ", &tags), "(tag_en:\"x\" OR tag_ja:\"x\" OR tag_ngram:\"x\")");
}

#[test]
fn pattern_for_everything_under_a_path() {
    assert_eq!(under_path_pattern("/w"), "/w/.*");
    assert_eq!(under_path_pattern("/cafe\u{301}"), "/caf\u{e9}/.*");
}
