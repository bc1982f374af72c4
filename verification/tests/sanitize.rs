use appbase_backend::jobs::PostDraft;
use appbase_backend::sanitize::{
    find_from, mask_code_blocks, replace_first_in, sanitize_markdown_content, strip_all_html,
};
use appbase_backend::text::chars_of;

fn text(v: &[char]) -> String {
    v.iter().collect()
}

#[test]
fn markup_is_stripped_from_short_fields() {
    assert_eq!(strip_all_html("plain title"), "plain title");
    assert_eq!(strip_all_html("<b>Bold</b> title"), "Bold title");
    assert_eq!(strip_all_html("a <script>alert(1)</script>b"), "a b");
    assert_eq!(strip_all_html("R&D"), "R&amp;D");
    assert_eq!(strip_all_html("Rust, Systems/Storage"), "Rust, Systems/Storage");
    assert_eq!(strip_all_html(""), "");
}

#[test]
fn markdown_outside_code_is_escaped_once() {
    assert_eq!(sanitize_markdown_content("a < b && c > d"), "a &lt; b &amp;&amp; c &gt; d");
    assert_eq!(sanitize_markdown_content("&lt;script&gt;"), "&lt;script&gt;");
    assert_eq!(sanitize_markdown_content("&amp;lt;"), "&amp;lt;");
    assert_eq!(sanitize_markdown_content("# Title\n\n*text* \"quoted\""), "# Title\n\n*text* \"quoted\"");
    assert_eq!(sanitize_markdown_content(""), "");
}

#[test]
fn fenced_code_is_kept_letter_for_letter() {
    let input = "before <b>\n```html\n<b>&amp;</b>\n```\nafter <i>";
    let want = "before &lt;b&gt;\n```html\n<b>&amp;</b>\n```\nafter &lt;i&gt;";
    assert_eq!(sanitize_markdown_content(input), want);
    assert_eq!(sanitize_markdown_content("``````<a>"), "``````&lt;a&gt;");
    assert_eq!(sanitize_markdown_content("```<a>```<b>```<c>```"), "```<a>```&lt;b&gt;```<c>```");
}

#[test]
fn fence_without_end_opens_no_block() {
    assert_eq!(sanitize_markdown_content("```rust\n<b>"), "```rust\n&lt;b&gt;");
    assert_eq!(sanitize_markdown_content("````<b>"), "````&lt;b&gt;");
    assert_eq!(sanitize_markdown_content("```<a>```<b>```<c>"), "```<a>```&lt;b&gt;```&lt;c&gt;");
}

#[test]
fn many_blocks_are_numbered_in_decimal() {
    let mut input = String::new();
    let mut want = String::new();
    for i in 0..12 {
        input.push_str(&format!("<{}>```<code {}>```", i, i));
        want.push_str(&format!("&lt;{}&gt;```<code {}>```", i, i));
    }
    assert_eq!(sanitize_markdown_content(&input), want);
}

#[test]
fn a_placeholder_in_the_text_takes_the_block() {
    let input = "__CODE_BLOCK_PLACEHOLDER_0__ and ```x```";
    assert_eq!(sanitize_markdown_content(input), "```x``` and __CODE_BLOCK_PLACEHOLDER_0__");
}

#[test]
fn blocks_are_masked_in_order() {
    let (masked, blocks) = mask_code_blocks(&chars_of("a```1```b```2```c```"));
    assert_eq!(text(&masked), "a__CODE_BLOCK_PLACEHOLDER_0__b__CODE_BLOCK_PLACEHOLDER_1__c```");
    let blocks: Vec<String> = blocks.iter().map(|b| text(b)).collect();
    assert_eq!(blocks, vec!["```1```", "```2```"]);
    let (masked, blocks) = mask_code_blocks(&chars_of("no code"));
    assert_eq!(text(&masked), "no code");
    assert!(blocks.is_empty());
}

#[test]
fn search_finds_first_occurrence_from_a_position() {
    let s = chars_of("abcabc");
    assert_eq!(find_from(&s, &chars_of("bc"), 0), Some(1));
    assert_eq!(find_from(&s, &chars_of("bc"), 1), Some(1));
    assert_eq!(find_from(&s, &chars_of("bc"), 2), Some(4));
    assert_eq!(find_from(&s, &chars_of("bc"), 5), None);
    assert_eq!(find_from(&s, &chars_of("bc"), 99), None);
    assert_eq!(find_from(&s, &chars_of("abcabcd"), 0), None);
    assert_eq!(find_from(&s, &chars_of(""), 6), Some(6));
    assert_eq!(find_from(&s, &chars_of(""), 7), None);
}

#[test]
fn replacement_touches_the_first_occurrence_only() {
    let out = replace_first_in(chars_of("x-y-z"), &chars_of("-"), &chars_of("++"));
    assert_eq!(text(&out), "x++y-z");
    let out = replace_first_in(chars_of("xyz"), &chars_of("-"), &chars_of("++"));
    assert_eq!(text(&out), "xyz");
    let out = replace_first_in(chars_of("ab"), &chars_of("ab"), &chars_of(""));
    assert_eq!(text(&out), "");
}

#[test]
fn drafts_are_cleaned_field_by_field() {
    let d = PostDraft {
        title: "<i>T</i>".to_string(),
        summary: "<p>S</p>".to_string(),
        content: "<b> ```<b>```".to_string(),
        tags: "a, <u>b</u>".to_string(),
        search_keywords: "k<br>".to_string(),
        cover_image: Some("<img src=x>pic.png".to_string()),
        has_call_to_action: Some(true),
    }
    .sanitize();
    assert_eq!(d.title, "T");
    assert_eq!(d.summary, "S");
    assert_eq!(d.content, "&lt;b&gt; ```<b>```");
    assert_eq!(d.tags, "a, b");
    assert_eq!(d.search_keywords, "k");
    assert_eq!(d.cover_image.as_deref(), Some("pic.png"));
    assert_eq!(d.has_call_to_action, Some(true));
}
