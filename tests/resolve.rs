use pydigger::{analyze_project, Info, MyProject, PyPiProject};

fn info(project_urls: Option<Vec<(&str, Option<&str>)>>, home_page: Option<&str>, download_url: Option<&str>) -> Info {
    Info {
        author: Some("Ann Author".to_string()),
        bugtrack_url: None,
        classifiers: vec![],
        description: String::new(),
        description_content_type: None,
        docs_url: None,
        download_url: download_url.map(String::from),
        home_page: home_page.map(String::from),
        keywords: None,
        license: Some("MIT".to_string()),
        license_expression: None,
        maintainer: None,
        name: "demo".to_string(),
        package_url: None,
        platform: None,
        project_url: None,
        project_urls: project_urls.map(|v| {
            v.into_iter()
                .map(|(k, u)| (k.to_string(), u.map(String::from)))
                .collect()
        }),
        release_url: None,
        requires_dist: None,
        requires_python: None,
        summary: Some("A demo".to_string()),
        version: "1.0".to_string(),
        yanked: None,
        yanked_reason: None,
    }
}

fn analyze(i: Info) -> MyProject {
    analyze_project(&PyPiProject { info: i, urls: None }, 1_700_000_000)
}

fn consistent(p: &MyProject) -> bool {
    p.repository.is_some() == p.repository_source.is_some()
        && p.download.is_some() == p.download_source.is_some()
        && p.home_page.is_some() == p.home_page_source.is_some()
}

#[test]
fn source_beats_homepage() {
    let p = analyze(info(Some(vec![("Source", Some("A")), ("Homepage", Some("B"))]), None, None));
    assert_eq!(p.repository.as_deref(), Some("A"));
    assert_eq!(p.repository_source.as_deref(), Some("project_urls.source"));
    assert_eq!(p.home_page.as_deref(), Some("B"));
    assert_eq!(p.home_page_source.as_deref(), Some("project_urls.homepage"));
}

#[test]
fn source_beats_homepage_in_any_order() {
    let p = analyze(info(Some(vec![("Homepage", Some("B")), ("Source", Some("A"))]), None, None));
    assert_eq!(p.repository.as_deref(), Some("A"));
    assert_eq!(p.repository_source.as_deref(), Some("project_urls.source"));
}

#[test]
fn empty_urls_fall_back_to_info_home_page() {
    let p = analyze(info(Some(vec![]), Some("H"), None));
    assert_eq!(p.repository.as_deref(), Some("H"));
    assert_eq!(p.repository_source.as_deref(), Some("info.home_page"));
    assert_eq!(p.home_page.as_deref(), Some("H"));
    assert_eq!(p.home_page_source.as_deref(), Some("info.home_page"));
    assert!(consistent(&p));
}

#[test]
fn precedence_chain_and_normalized_labels() {
    let p = analyze(info(
        Some(vec![
            ("GitHub", Some("G")),
            ("Repository", Some("R")),
            ("Source Code", Some("SC")),
            ("Download!", Some("D")),
        ]),
        Some("H"),
        Some("DU"),
    ));
    assert_eq!(p.repository.as_deref(), Some("SC"));
    assert_eq!(p.repository_source.as_deref(), Some("project_urls.sourcecode"));
    assert_eq!(p.download.as_deref(), Some("D"));
    assert_eq!(p.download_source.as_deref(), Some("project_urls.download"));
    assert_eq!(p.home_page.as_deref(), Some("H"));
    assert_eq!(p.home_page_source.as_deref(), Some("info.home_page"));

    let p = analyze(info(Some(vec![("github", Some("G")), ("repository", Some("R"))]), None, None));
    assert_eq!(p.repository.as_deref(), Some("R"));
    assert_eq!(p.repository_source.as_deref(), Some("project_urls.repository"));

    let p = analyze(info(Some(vec![("GITHUB", Some("G")), ("Docs", Some("X"))]), None, None));
    assert_eq!(p.repository.as_deref(), Some("G"));
    assert_eq!(p.repository_source.as_deref(), Some("project_urls.github"));
}

#[test]
fn homepage_label_is_last_resort_repository() {
    let p = analyze(info(Some(vec![("Home-Page", Some("B"))]), Some("H"), None));
    assert_eq!(p.repository.as_deref(), Some("B"));
    assert_eq!(p.repository_source.as_deref(), Some("project_urls.homepage"));
    assert_eq!(p.home_page.as_deref(), Some("B"));
}

#[test]
fn download_falls_back_to_info_download_url() {
    let p = analyze(info(None, None, Some("DU")));
    assert_eq!(p.download.as_deref(), Some("DU"));
    assert_eq!(p.download_source.as_deref(), Some("info.download_url"));
    assert_eq!(p.repository, None);
    assert_eq!(p.repository_source, None);
    assert_eq!(p.home_page, None);
    assert!(consistent(&p));
}

#[test]
fn non_string_values_are_ignored() {
    let p = analyze(info(Some(vec![("Source", None), ("Repository", Some("R"))]), None, None));
    assert_eq!(p.repository.as_deref(), Some("R"));
    assert_eq!(p.project_urls, vec![("Repository".to_string(), "R".to_string())]);
}

#[test]
fn analyze_copies_metadata() {
    let p = analyze(info(None, None, None));
    assert_eq!(p.name, "demo");
    assert_eq!(p.version, "1.0");
    assert_eq!(p.summary.as_deref(), Some("A demo"));
    assert_eq!(p.license.as_deref(), Some("MIT"));
    assert_eq!(p.author.as_deref(), Some("Ann Author"));
    assert_eq!(p.pub_date, 1_700_000_000);
    assert_eq!(p.has_github_actions, None);
    assert!(consistent(&p));
}

#[test]
fn repository_url_of_stored_record() {
    let mut p = analyze(info(None, Some("H"), None));
    p.repository = None;
    p.repository_source = None;
    p.project_urls = vec![("Home page".to_string(), "B".to_string()), ("Source".to_string(), "A".to_string())];
    assert_eq!(p.get_repository_url().as_deref(), Some("A"));
    p.project_urls = vec![];
    assert_eq!(p.get_repository_url().as_deref(), Some("H"));
    p.repository = Some("R".to_string());
    assert_eq!(p.get_repository_url().as_deref(), Some("R"));
    let s = p.smaller();
    assert_eq!(s.name, "demo");
    assert_eq!(s.pub_date, 1_700_000_000);
}
