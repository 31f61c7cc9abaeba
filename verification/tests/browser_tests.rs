use resource_pipeline::browser::{filter_search_anchors, str_starts_with};

#[test]
fn prefix_test_is_exact() {
    assert!(str_starts_with("https://a.example/x", "https://a.example"));
    assert!(!str_starts_with("https://b.example/x", "https://a.example"));
    assert!(str_starts_with("abc", ""));
    assert!(!str_starts_with("ab", "abc"));
}

#[test]
fn anchors_to_the_engine_itself_are_dropped() {
    let anchors = vec![
        "https://search.example/settings".to_string(),
        "https://one.example/a".to_string(),
        "https://search.example/more".to_string(),
        "https://two.example/b".to_string(),
    ];
    let links = filter_search_anchors(&anchors, "https://search.example", 5);
    assert_eq!(
        links,
        vec![
            "https://one.example/a".to_string(),
            "https://two.example/b".to_string(),
        ]
    );
}

#[test]
fn anchor_pick_caps_and_dedups() {
    let anchors = vec![
        "https://one.example/a".to_string(),
        "https://one.example/a".to_string(),
        "https://two.example/b".to_string(),
        "https://three.example/c".to_string(),
    ];
    let links = filter_search_anchors(&anchors, "https://search.example", 2);
    assert_eq!(
        links,
        vec![
            "https://one.example/a".to_string(),
            "https://two.example/b".to_string(),
        ]
    );
}
