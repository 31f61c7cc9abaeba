use resource_pipeline::fetch::{page_to_content, FetchError};

#[test]
fn page_title_is_trimmed_and_content_extracted() {
    let filler = "c".repeat(200);
    let html = format!(
        "<html><head><title>  My Page </title></head><body><main>{}</main></body></html>",
        filler
    );
    let scraped = page_to_content("https://example.test/page", &html);
    assert_eq!(scraped.url, "https://example.test/page");
    assert_eq!(scraped.title.as_deref(), Some("My Page"));
    assert_eq!(scraped.content, filler);
}

#[test]
fn page_title_keeps_inner_whitespace() {
    // Only the ends are trimmed: whatever stands inside the title stays.
    let html = "<html><head><title> A  B </title></head><body></body></html>";
    let scraped = page_to_content("u", html);
    assert_eq!(scraped.title.as_deref(), Some("A  B"));
}

#[test]
fn missing_title_stays_absent() {
    let filler = "h".repeat(150);
    let html = format!("<html><body><p>{}</p></body></html>", filler);
    let scraped = page_to_content("u", &html);
    assert!(scraped.title.is_none());
    assert_eq!(scraped.content, filler);
}

#[test]
fn content_never_exceeds_the_budget() {
    let html = format!(
        "<html><body><main>{}</main></body></html>",
        "q".repeat(5000)
    );
    let scraped = page_to_content("u", &html);
    assert!(scraped.content.chars().count() <= 3000);
}

#[test]
fn timeout_error_text_names_the_timeout() {
    let text = FetchError::Timeout("30s elapsed".to_string()).text();
    assert_eq!(text, "request timed out: 30s elapsed");
    assert!(text.contains("timed out"));
}

#[test]
fn network_error_text() {
    assert_eq!(
        FetchError::Network("connection refused".to_string()).text(),
        "network error: connection refused"
    );
}

#[test]
fn init_error_text() {
    assert_eq!(
        FetchError::Init("no backend".to_string()).text(),
        "initialization failed: no backend"
    );
}

#[test]
fn parse_error_text() {
    assert_eq!(
        FetchError::Parse("bad markup".to_string()).text(),
        "parse error: bad markup"
    );
}
