use resource_pipeline::extract::{extract_main_content, select_content, RENDERED_CONTENT_BUDGET};
use resource_pipeline::text::{normalize_text, truncate_chars, usize_to_string};

#[test]
fn normalize_collapses_runs_and_trims() {
    assert_eq!(normalize_text("  a\t\tb\n c  "), "a b c");
    assert_eq!(normalize_text("plain"), "plain");
    assert_eq!(normalize_text(""), "");
    assert_eq!(normalize_text("\u{3000}\u{3000}"), "");
    assert_eq!(normalize_text("日本\u{3000}語"), "日本 語");
}

#[test]
fn truncate_counts_characters_not_bytes() {
    assert_eq!(truncate_chars("abcdef", 4), "abcd");
    assert_eq!(truncate_chars("abc", 10), "abc");
    assert_eq!(truncate_chars("あいうえお", 3), "あいう");
    assert_eq!(truncate_chars("abc", 0), "");
}

#[test]
fn decimal_rendering_exact() {
    assert_eq!(usize_to_string(0), "0");
    assert_eq!(usize_to_string(7), "7");
    assert_eq!(usize_to_string(42), "42");
    assert_eq!(usize_to_string(1005), "1005");
}

#[test]
fn short_article_falls_back_to_body_text() {
    let article = "x".repeat(50);
    let filler = "y".repeat(500);
    let html = format!(
        "<html><head><title>T</title></head><body><article>{}</article>{}</body></html>",
        article, filler
    );
    let content = extract_main_content(&html);
    assert_eq!(content, format!("{} {}", article, filler));
}

#[test]
fn long_article_wins_over_body() {
    let article = "z".repeat(150);
    let html = format!(
        "<html><body><article>{}</article><p>{}</p></body></html>",
        article,
        "w".repeat(400)
    );
    assert_eq!(extract_main_content(&html), article);
}

#[test]
fn encyclopedia_container_beats_generic_article() {
    let a = "a".repeat(200);
    let b = "b".repeat(300);
    let html = format!(
        "<html><body><article>{}</article><div id=\"mw-content-text\">{}</div></body></html>",
        b, a
    );
    assert_eq!(extract_main_content(&html), a);
}

#[test]
fn content_is_truncated_to_the_budget() {
    let big = "k".repeat(4000);
    let html = format!("<html><body><article>{}</article></body></html>", big);
    let content = extract_main_content(&html);
    assert_eq!(content.chars().count(), 3000);
    assert_eq!(content, "k".repeat(3000));
}

#[test]
fn extracted_body_text_is_normalized() {
    let filler = "x".repeat(120);
    let html = format!(
        "<html><body><p>one</p><p>two   three {}</p></body></html>",
        filler
    );
    assert_eq!(
        extract_main_content(&html),
        format!("one two three {}", filler)
    );
}

#[test]
fn select_content_threshold_is_strict() {
    let candidates = vec![Some("a".repeat(101))];
    assert_eq!(select_content(&candidates, 100, 3000), "a".repeat(101));
    let candidates = vec![Some("b".repeat(100))];
    assert_eq!(
        select_content(&candidates, 100, 3000),
        "Could not extract content"
    );
}

#[test]
fn select_content_sentinel_when_nothing_matches() {
    let candidates = vec![Some("short".to_string()), None];
    assert_eq!(
        select_content(&candidates, 100, 3000),
        "Could not extract content"
    );
}

#[test]
fn rendered_budget_is_tighter() {
    let candidates = vec![Some("r".repeat(2500))];
    let picked = select_content(&candidates, 100, RENDERED_CONTENT_BUDGET);
    assert_eq!(picked, "r".repeat(2000));
}

#[test]
fn sub_threshold_body_yields_the_sentinel() {
    // The whole-document body is the last candidate of the chain and sits
    // under the same threshold: a document whose body text never clears it
    // extracts the sentinel, a deliberate soft failure.
    let html = format!("<html><body><p>{}</p></body></html>", "s".repeat(80));
    assert_eq!(extract_main_content(&html), "Could not extract content");
}
