use pydigger::{
    extract_name_version, freshness_gate, get_pypi_path, get_pypi_project_file,
    get_pypi_project_path, parse_rss_from_str, plan_entry, Args, CollectStats, EntryPlan,
    FeedEntry, Gate, Status,
};

fn entry(link: Option<&str>, date: Option<&str>) -> FeedEntry {
    FeedEntry {
        title: Some("t".to_string()),
        link: link.map(String::from),
        pub_date: date.map(String::from),
    }
}

#[test]
fn extracts_name_and_version() {
    assert_eq!(
        extract_name_version("https://pypi.org/project/foo-bar/1.2.3/"),
        Some(("foo-bar".to_string(), "1.2.3".to_string()))
    );
    assert_eq!(
        extract_name_version("https://pypi.org/project/foo/0.1"),
        Some(("foo".to_string(), "0.1".to_string()))
    );
    assert_eq!(
        extract_name_version("see https://pypi.org/project/a/b/c/"),
        Some(("a".to_string(), "b".to_string()))
    );
}

#[test]
fn rejects_other_links() {
    assert_eq!(extract_name_version("https://pypi.org/project/foo/"), None);
    assert_eq!(extract_name_version("https://pypi.org/project//1.0/"), None);
    assert_eq!(extract_name_version("https://pypi.org/simple/foo/1.0/"), None);
    assert_eq!(extract_name_version("https://pypiXorg/project/foo/1.0/"), None);
    assert_eq!(extract_name_version(""), None);
}

#[test]
fn freshness_gate_boundary() {
    let t = 1_700_000_000;
    assert_eq!(freshness_gate(Some(t), t), Gate::Skip);
    assert_eq!(freshness_gate(Some(t), t + 1), Gate::Proceed);
    assert_eq!(freshness_gate(Some(t + 5), t), Gate::Skip);
    assert_eq!(freshness_gate(None, t), Gate::Proceed);
}

#[test]
fn plan_entry_outcomes() {
    match plan_entry(&entry(Some("https://pypi.org/project/foo/1.0/"), None)) {
        EntryPlan::Done(s) => assert_eq!(s, Status::MissingDateError),
        other => panic!("unexpected {:?}", other),
    }
    match plan_entry(&entry(Some("https://pypi.org/project/foo/1.0/"), Some("yesterday"))) {
        EntryPlan::Done(s) => assert_eq!(s, Status::DateError),
        other => panic!("unexpected {:?}", other),
    }
    match plan_entry(&entry(None, Some("Mon, 01 Jan 2024 00:00:00 GMT"))) {
        EntryPlan::NoLink => {}
        other => panic!("unexpected {:?}", other),
    }
    match plan_entry(&entry(Some("https://example.com/x"), Some("Mon, 01 Jan 2024 00:00:00 GMT"))) {
        EntryPlan::Done(s) => assert_eq!(s, Status::Success),
        other => panic!("unexpected {:?}", other),
    }
    match plan_entry(&entry(
        Some("https://pypi.org/project/foo/1.0/"),
        Some("Mon, 01 Jan 2024 01:00:00 +0100"),
    )) {
        EntryPlan::Lookup { name, version, pub_date } => {
            assert_eq!(name, "foo");
            assert_eq!(version, "1.0");
            assert_eq!(pub_date, 1_704_067_200);
        }
        other => panic!("unexpected {:?}", other),
    }
}

#[test]
fn run_statistics_count_each_outcome() {
    let mut cs = CollectStats::new(100, 5);
    cs.record(Status::Success);
    cs.record(Status::DateError);
    cs.record(Status::MissingDateError);
    cs.record(Status::Skipping);
    cs.record_failure();
    cs.finish(7);
    assert_eq!(cs.downloaded_projects, 1);
    assert_eq!(cs.error_projects, 3);
    assert_eq!(cs.skipped_projects, 1);
    assert_eq!(cs.projects_in_rss, 5);
    assert_eq!(cs.start_date, 100);
    assert_eq!(cs.elapsed_time, 7);
}

/// Two feed entries: the first names a package with no stored record, the
/// second one whose stored record is newer than the entry.
#[test]
fn two_entry_feed_yields_one_success_one_skip() {
    let feed = vec![
        entry(Some("https://pypi.org/project/fresh/1.0/"), Some("Mon, 01 Jan 2024 00:00:00 GMT")),
        entry(Some("https://pypi.org/project/known/2.0/"), Some("Mon, 01 Jan 2024 00:00:00 GMT")),
    ];
    let stored = |name: &str| if name == "known" { Some(1_704_067_200 + 60) } else { None };
    let mut cs = CollectStats::new(0, feed.len() as u32);
    let args = Args { limit: None, report: false, download: true, log: None };
    for e in feed.iter().take(args.entries_to_visit(feed.len())) {
        match plan_entry(e) {
            EntryPlan::Done(s) => cs.record(s),
            EntryPlan::NoLink => cs.record_failure(),
            EntryPlan::Lookup { name, pub_date, .. } => match freshness_gate(stored(&name), pub_date) {
                Gate::Skip => cs.record(Status::Skipping),
                Gate::Proceed => cs.record(Status::Success),
            },
        }
    }
    assert_eq!(cs.downloaded_projects, 1);
    assert_eq!(cs.skipped_projects, 1);
    assert_eq!(cs.error_projects, 0);
}

#[test]
fn run_limit() {
    let args = Args { limit: Some(3), report: false, download: true, log: None };
    assert_eq!(args.entries_to_visit(10), 3);
    assert_eq!(args.entries_to_visit(2), 2);
    let all = Args { limit: None, report: false, download: true, log: None };
    assert_eq!(all.entries_to_visit(10), 10);
}

#[test]
fn storage_paths() {
    assert_eq!(get_pypi_path(), "data/pypi");
    assert_eq!(get_pypi_project_path("Requests"), "data/pypi/re");
    assert_eq!(get_pypi_project_path("ab"), "data/pypi");
    assert_eq!(get_pypi_project_path("abc"), "data/pypi/ab");
    assert_eq!(get_pypi_project_file("Flask"), "data/pypi/fl/Flask.json");
    assert_eq!(get_pypi_project_file("x"), "data/pypi/x.json");
}

#[test]
fn reads_rss_feed() {
    let xml = r#"<?xml version="1.0"?>
<rss version="2.0"><channel><title>PyPI</title><link>https://pypi.org/</link><description>d</description>
<item><title>foo 1.0</title><link>https://pypi.org/project/foo/1.0/</link><pubDate>Mon, 01 Jan 2024 00:00:00 GMT</pubDate></item>
<item><title>bar 2.0</title><link>https://pypi.org/project/bar/2.0/</link></item>
</channel></rss>"#;
    let entries = parse_rss_from_str(xml).unwrap();
    assert_eq!(entries.len(), 2);
    assert_eq!(entries[0].title.as_deref(), Some("foo 1.0"));
    assert_eq!(entries[0].link.as_deref(), Some("https://pypi.org/project/foo/1.0/"));
    assert_eq!(entries[0].pub_date.as_deref(), Some("Mon, 01 Jan 2024 00:00:00 GMT"));
    assert_eq!(entries[1].pub_date, None);
    assert!(parse_rss_from_str("not xml at all").is_err());
}
