use resource_pipeline::fetch::{FetchError, ScrapedContent};
use resource_pipeline::pipeline::{Action, Event, PipelineState, Status, SubtopicInfo};

fn subtopic(topic: &str, name: &str, hint: Option<&str>) -> SubtopicInfo {
    SubtopicInfo {
        name: name.to_string(),
        topic_name: topic.to_string(),
        template_type: hint.map(|h| h.to_string()),
    }
}

fn scraped(url: &str, title: Option<&str>, body: &str) -> ScrapedContent {
    ScrapedContent {
        url: url.to_string(),
        title: title.map(|t| t.to_string()),
        content: body.to_string(),
    }
}

#[test]
fn happy_path_with_two_urls() {
    let mut p = PipelineState::new(vec!["s1".to_string()]);

    let a = p.step(Event::Started);
    assert!(matches!(a, Action::LookupSubtopic { ref subtopic_id } if subtopic_id == "s1"));

    let a = p.step(Event::LookupDone {
        info: Some(subtopic("Japan", "Economy", Some("technical"))),
    });
    match &a {
        Action::Discover { query, max_results } => {
            assert_eq!(query, "Japan Economy 仕組み 技術");
            assert_eq!(*max_results, 3);
        }
        _ => panic!("expected a discovery action"),
    }

    let a = p.step(Event::DiscoverDone {
        links: Ok(vec!["u1".to_string(), "u2".to_string()]),
    });
    assert!(matches!(a, Action::CreateAndFetch { ref url, .. } if url == "u1"));
    assert_eq!(p.records.len(), 1);
    assert_eq!(p.records[0].status, Status::Pending);
    assert_eq!(p.records[0].url, "u1");
    assert_eq!(p.records[0].subtopic_id, "s1");

    let a = p.step(Event::FetchDone {
        outcome: Ok(scraped("u1", Some("T"), "body text")),
    });
    assert!(matches!(a, Action::CreateAndFetch { ref url, .. } if url == "u2"));
    assert_eq!(p.records[0].status, Status::Completed);
    assert_eq!(p.records[0].title.as_deref(), Some("T"));
    assert_eq!(p.records[0].summary.as_deref(), Some("body text"));
    assert_eq!(p.records[0].full_content.as_deref(), Some("body text"));
    assert_eq!(p.records[1].status, Status::Pending);

    let a = p.step(Event::FetchDone {
        outcome: Err(FetchError::Network("down".to_string())),
    });
    match &a {
        Action::Finished { message } => {
            assert_eq!(
                message,
                "Scraping completed. Successfully scraped 1 of 2 resources"
            );
        }
        _ => panic!("expected the run to finish"),
    }
    assert_eq!(p.records[1].status, Status::Failed);
    assert_eq!(
        p.records[1].full_content.as_deref(),
        Some("Error: network error: down")
    );
    assert!(p.records[1].title.is_none());

    let s = p.summary();
    assert_eq!(s.attempted, 2);
    assert_eq!(s.succeeded, 1);
}

#[test]
fn summary_is_truncated_to_two_hundred_characters() {
    let mut p = PipelineState::new(vec!["s".to_string()]);
    p.step(Event::Started);
    p.step(Event::LookupDone {
        info: Some(subtopic("t", "n", None)),
    });
    p.step(Event::DiscoverDone {
        links: Ok(vec!["u".to_string()]),
    });
    let body = "b".repeat(500);
    p.step(Event::FetchDone {
        outcome: Ok(scraped("u", None, &body)),
    });
    assert_eq!(p.records[0].summary.as_deref(), Some("b".repeat(200).as_str()));
    assert_eq!(p.records[0].full_content.as_deref(), Some(body.as_str()));
}

#[test]
fn failed_lookup_skips_subtopic_but_not_batch() {
    let ids = vec!["s1".to_string(), "s2".to_string(), "s3".to_string()];
    let mut p = PipelineState::new(ids);

    // Subtopic s1: one URL, fetched fine.
    let a = p.step(Event::Started);
    assert!(matches!(a, Action::LookupSubtopic { ref subtopic_id } if subtopic_id == "s1"));
    p.step(Event::LookupDone {
        info: Some(subtopic("t", "one", None)),
    });
    p.step(Event::DiscoverDone {
        links: Ok(vec!["u1".to_string()]),
    });
    let a = p.step(Event::FetchDone {
        outcome: Ok(scraped("u1", None, "first body")),
    });
    assert!(matches!(a, Action::LookupSubtopic { ref subtopic_id } if subtopic_id == "s2"));

    // Subtopic s2: its lookup fails; the pipeline moves on without a record.
    let a = p.step(Event::LookupDone { info: None });
    assert!(matches!(a, Action::LookupSubtopic { ref subtopic_id } if subtopic_id == "s3"));

    // Subtopic s3: two URLs, both fetched fine.
    p.step(Event::LookupDone {
        info: Some(subtopic("t", "three", None)),
    });
    p.step(Event::DiscoverDone {
        links: Ok(vec!["u3a".to_string(), "u3b".to_string()]),
    });
    p.step(Event::FetchDone {
        outcome: Ok(scraped("u3a", None, "third body a")),
    });
    let a = p.step(Event::FetchDone {
        outcome: Ok(scraped("u3b", None, "third body b")),
    });
    assert!(matches!(a, Action::Finished { .. }));

    let s = p.summary();
    assert_eq!(s.attempted, 3);
    assert_eq!(s.succeeded, 3);
    assert!(p.records.iter().all(|r| r.subtopic_id != "s2"));
}

#[test]
fn timeout_marks_record_failed_and_run_continues() {
    let mut p = PipelineState::new(vec!["s".to_string()]);
    p.step(Event::Started);
    p.step(Event::LookupDone {
        info: Some(subtopic("t", "n", None)),
    });
    p.step(Event::DiscoverDone {
        links: Ok(vec!["u1".to_string(), "u2".to_string()]),
    });
    let a = p.step(Event::FetchDone {
        outcome: Err(FetchError::Timeout("no response within 30s".to_string())),
    });
    // The next URL is still fetched: the timeout did not abort anything.
    assert!(matches!(a, Action::CreateAndFetch { ref url, .. } if url == "u2"));
    assert_eq!(p.records[0].status, Status::Failed);
    let text = p.records[0].full_content.as_deref().unwrap();
    assert!(text.contains("timed out"));
    let a = p.step(Event::FetchDone {
        outcome: Ok(scraped("u2", None, "fine")),
    });
    assert!(matches!(a, Action::Finished { .. }));
    assert_eq!(p.summary().succeeded, 1);
    assert_eq!(p.summary().attempted, 2);
}

#[test]
fn discovery_error_skips_remaining_steps_of_subtopic() {
    let mut p = PipelineState::new(vec!["s1".to_string(), "s2".to_string()]);
    p.step(Event::Started);
    p.step(Event::LookupDone {
        info: Some(subtopic("t", "n", None)),
    });
    let a = p.step(Event::DiscoverDone {
        links: Err(FetchError::Network("search backend down".to_string())),
    });
    assert!(matches!(a, Action::LookupSubtopic { ref subtopic_id } if subtopic_id == "s2"));
    assert!(p.records.is_empty());
}

#[test]
fn empty_discovery_creates_no_records() {
    let mut p = PipelineState::new(vec!["s".to_string()]);
    p.step(Event::Started);
    p.step(Event::LookupDone {
        info: Some(subtopic("t", "n", None)),
    });
    let a = p.step(Event::DiscoverDone { links: Ok(Vec::new()) });
    match &a {
        Action::Finished { message } => {
            assert_eq!(
                message,
                "Scraping completed. Successfully scraped 0 of 0 resources"
            );
        }
        _ => panic!("expected the run to finish"),
    }
    assert!(p.records.is_empty());
}

#[test]
fn two_runs_keep_independent_record_sets() {
    let drive = |p: &mut PipelineState| {
        p.step(Event::Started);
        p.step(Event::LookupDone {
            info: Some(subtopic("t", "n", None)),
        });
        p.step(Event::DiscoverDone {
            links: Ok(vec!["u".to_string()]),
        });
        p.step(Event::FetchDone {
            outcome: Ok(scraped("u", None, "same body")),
        });
    };

    let mut first = PipelineState::new(vec!["s".to_string()]);
    drive(&mut first);
    assert_eq!(first.records.len(), 1);

    // The second run starts from its own empty record set and never merges
    // with or updates the first run's records.
    let mut second = PipelineState::new(vec!["s".to_string()]);
    assert!(second.records.is_empty());
    drive(&mut second);

    assert_eq!(first.records.len(), 1);
    assert_eq!(second.records.len(), 1);
    assert_eq!(first.records[0].status, Status::Completed);
    assert_eq!(second.records[0].status, Status::Completed);
    assert_eq!(
        first.records[0].full_content,
        second.records[0].full_content
    );
}
