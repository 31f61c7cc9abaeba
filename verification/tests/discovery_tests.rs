use resource_pipeline::discovery::{
    assemble_links, build_page_url, build_search_url, collect_candidate_links,
};

#[test]
fn search_url_encodes_query() {
    let url = build_search_url("Japan Economy", 3);
    assert_eq!(
        url,
        "https://ja.wikipedia.org/w/api.php?action=opensearch&search=Japan%20Economy&limit=3&namespace=0&format=json"
    );
}

#[test]
fn search_url_caps_limit_at_five() {
    let url = build_search_url("x", 9);
    assert!(url.contains("&limit=5&"));
    let url = build_search_url("x", 0);
    assert!(url.contains("&limit=0&"));
}

#[test]
fn page_url_prefixes_and_encodes() {
    assert_eq!(
        build_page_url("東京"),
        "https://ja.wikipedia.org/wiki/%E6%9D%B1%E4%BA%AC"
    );
    assert_eq!(build_page_url("Tokyo"), "https://ja.wikipedia.org/wiki/Tokyo");
}

#[test]
fn assemble_dedups_repeated_titles() {
    let titles = vec!["A".to_string(), "A".to_string(), "B".to_string(), "C".to_string()];
    let links = assemble_links(&titles, "A", true, 3);
    assert_eq!(
        links,
        vec![
            "https://ja.wikipedia.org/wiki/A".to_string(),
            "https://ja.wikipedia.org/wiki/B".to_string(),
        ]
    );
}

#[test]
fn assemble_caps_at_max_results() {
    let titles = vec![
        "A".to_string(),
        "B".to_string(),
        "C".to_string(),
        "D".to_string(),
    ];
    let links = assemble_links(&titles, "E", true, 3);
    assert_eq!(links.len(), 3);
    for i in 0..links.len() {
        for j in (i + 1)..links.len() {
            assert_ne!(links[i], links[j]);
        }
    }
}

#[test]
fn assemble_appends_direct_when_probe_succeeded_and_room_left() {
    let titles = vec!["A".to_string()];
    let links = assemble_links(&titles, "B", true, 3);
    assert_eq!(
        links,
        vec![
            "https://ja.wikipedia.org/wiki/A".to_string(),
            "https://ja.wikipedia.org/wiki/B".to_string(),
        ]
    );
    let links = assemble_links(&titles, "B", false, 3);
    assert_eq!(links, vec!["https://ja.wikipedia.org/wiki/A".to_string()]);
}

#[test]
fn assemble_empty_titles_yield_empty_or_direct() {
    let titles: Vec<String> = Vec::new();
    assert!(assemble_links(&titles, "Q", false, 3).is_empty());
    assert_eq!(
        assemble_links(&titles, "Q", true, 3),
        vec!["https://ja.wikipedia.org/wiki/Q".to_string()]
    );
}

#[test]
fn collect_parses_opensearch_body() {
    let body = r#"["query",["Tokyo","Osaka"],["",""],["https://x","https://y"]]"#;
    let links = collect_candidate_links(body, "query", false, 3);
    assert_eq!(
        links,
        vec![
            "https://ja.wikipedia.org/wiki/Tokyo".to_string(),
            "https://ja.wikipedia.org/wiki/Osaka".to_string(),
        ]
    );
}

#[test]
fn collect_skips_non_string_titles() {
    let body = r#"["q",["Tokyo",7,"Osaka"],[],[]]"#;
    let links = collect_candidate_links(body, "q", false, 5);
    assert_eq!(
        links,
        vec![
            "https://ja.wikipedia.org/wiki/Tokyo".to_string(),
            "https://ja.wikipedia.org/wiki/Osaka".to_string(),
        ]
    );
}

#[test]
fn collect_with_unreadable_body_yields_direct_only() {
    let links = collect_candidate_links("not json", "Tokyo", true, 3);
    assert_eq!(links, vec!["https://ja.wikipedia.org/wiki/Tokyo".to_string()]);
    let links = collect_candidate_links("not json", "Tokyo", false, 3);
    assert!(links.is_empty());
}
