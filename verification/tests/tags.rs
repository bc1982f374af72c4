use appbase_backend::tags::{display_tags, generate_all_tags, normalize_tags, process_keywords};
use appbase_backend::text::{chars_of, contains_chars, join, prefix, split_trimmed};

fn sorted(mut v: Vec<String>) -> Vec<String> {
    v.sort();
    v
}

#[test]
fn keywords_are_trimmed_and_lowercased() {
    assert_eq!(process_keywords(" Rust , ,Systems "), vec!["rust".to_string(), "systems".to_string()]);
}

#[test]
fn keywords_of_empty_text_are_none() {
    assert!(process_keywords("").is_empty());
    assert!(process_keywords(" , ,, ").is_empty());
}

#[test]
fn keywords_keep_order_and_repeats() {
    assert_eq!(process_keywords("b,a,B"), vec!["b", "a", "b"]);
}

#[test]
fn display_tags_keep_case() {
    assert_eq!(display_tags(" Rust ,, Systems/Storage "), vec!["Rust", "Systems/Storage"]);
}

#[test]
fn normalized_tags_are_lower_case() {
    assert_eq!(normalize_tags("Rust, Systems/Storage"), vec!["rust", "systems/storage"]);
}

#[test]
fn path_tag_expands_to_segments_and_prefixes() {
    assert_eq!(sorted(generate_all_tags("a/b/c")), vec!["a", "a/b", "a/b/c", "b", "c"]);
}

#[test]
fn plain_tag_expands_to_itself() {
    assert_eq!(generate_all_tags("rust"), vec!["rust"]);
}

#[test]
fn two_segment_tag_is_found_under_both_segments_and_the_path() {
    let tags = generate_all_tags("a/b");
    assert!(tags.contains(&"a".to_string()));
    assert!(tags.contains(&"b".to_string()));
    assert!(tags.contains(&"a/b".to_string()));
    assert!(!tags.contains(&"a/c".to_string()));
    assert_eq!(tags.len(), 3);
}

#[test]
fn expansion_has_no_duplicates() {
    let tags = generate_all_tags("a/b, a/c, A");
    assert_eq!(sorted(tags), vec!["a", "a/b", "a/c", "b", "c"]);
}

#[test]
fn expansion_of_mixed_tags() {
    assert_eq!(
        sorted(generate_all_tags("Rust, Systems/Storage")),
        vec!["rust", "storage", "systems", "systems/storage"]
    );
}

#[test]
fn segments_are_trimmed_in_paths() {
    assert_eq!(sorted(generate_all_tags("a / b")), vec!["a", "a / b", "a/b", "b"]);
}

#[test]
fn empty_segments_stay() {
    assert_eq!(sorted(generate_all_tags("a//b")), vec!["", "a", "a/", "a//b", "b"]);
}

#[test]
fn expansion_of_empty_text_is_empty() {
    assert!(generate_all_tags("").is_empty());
    assert!(generate_all_tags(" , ").is_empty());
}

#[test]
fn split_trimmed_keeps_empty_pieces() {
    assert_eq!(split_trimmed("a, ,b,", ','), vec!["a", "", "b", ""]);
    assert_eq!(split_trimmed("", ','), vec![""]);
}

#[test]
fn join_puts_separator_between() {
    let parts = vec!["a".to_string(), "b".to_string(), "c".to_string()];
    assert_eq!(join(&parts, ", "), "a, b, c");
    assert_eq!(join(&Vec::new(), ", "), "");
    assert_eq!(join(&vec!["x".to_string()], ", "), "x");
}

#[test]
fn contains_finds_runs() {
    let s = chars_of("hello world");
    assert!(contains_chars(&s, &chars_of("lo w")));
    assert!(contains_chars(&s, &chars_of("")));
    assert!(contains_chars(&s, &chars_of("hello world")));
    assert!(!contains_chars(&s, &chars_of("worlds")));
    assert!(!contains_chars(&chars_of(""), &chars_of("a")));
}

#[test]
fn prefix_counts_characters() {
    assert_eq!(prefix("héllo", 2), "hé");
    assert_eq!(prefix("ab", 5), "ab");
    assert_eq!(prefix("abc", 0), "");
}

#[test]
fn lower_casing_is_unicode() {
    assert_eq!(process_keywords("ÄRGER, Ünïcode"), vec!["ärger", "ünïcode"]);
}

#[test]
fn trimming_is_unicode() {
    assert_eq!(display_tags("\u{a0}tag\u{2003},\tnext\n"), vec!["tag", "next"]);
}
