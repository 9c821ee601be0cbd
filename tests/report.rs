use pydigger::{
    begin_probe, generate_report, create_license_report, create_vcs_report, license_bucket,
    probe_step, LicenseBucket, MyProject, ProbeAction, ProbeEvent, RepoHost, PAGE_SIZE,
};

fn project(name: &str, pub_date: i64) -> MyProject {
    MyProject {
        name: name.to_string(),
        version: "1.0".to_string(),
        summary: None,
        license: None,
        license_expression: None,
        home_page: None,
        home_page_source: None,
        maintainer: None,
        author: None,
        repository: None,
        repository_source: None,
        download: None,
        download_source: None,
        pub_date,
        project_urls: vec![],
        has_github_actions: None,
        has_gitlab_pipeline: None,
        has_dependabot: None,
    }
}

fn with_repo(name: &str, url: &str) -> MyProject {
    let mut p = project(name, 0);
    p.repository = Some(url.to_string());
    p.repository_source = Some("project_urls.source".to_string());
    p
}

fn count_of(licenses: &[(String, u32)], name: &str) -> u32 {
    licenses.iter().find(|(k, _)| k == name).map(|(_, c)| *c).unwrap()
}

#[test]
fn license_length_threshold() {
    let twenty = "abcdefghijklmnopqrst";
    let nineteen = "abcdefghijklmnopqrs";
    assert_eq!(twenty.chars().count(), 20);
    assert_eq!(license_bucket(twenty), LicenseBucket::Long);
    assert_eq!(license_bucket(nineteen), LicenseBucket::Bad);
    assert_eq!(license_bucket("MIT"), LicenseBucket::Known(22));
    assert_eq!(license_bucket("ASL"), LicenseBucket::Known(0));
    assert_eq!(license_bucket("mit"), LicenseBucket::Bad);
}

#[test]
fn license_report_buckets() {
    let mut a = project("a", 0);
    a.license = Some("  MIT  ".to_string());
    let mut b = project("b", 0);
    b.license = Some("whatever".to_string());
    b.license_expression = Some("Apache-2.0".to_string());
    let c = project("c", 0);
    let mut d = project("d", 0);
    d.license = Some("abcdefghijklmnopqrs".to_string());
    let mut e = project("e", 0);
    e.license = Some(" abcdefghijklmnopqrst ".to_string());
    let lr = create_license_report(&vec![a, b, c, d, e]);
    assert_eq!(lr.licenses.len(), 26);
    assert_eq!(count_of(&lr.licenses, "MIT"), 1);
    assert_eq!(count_of(&lr.licenses, "Apache-2.0"), 1);
    assert_eq!(count_of(&lr.licenses, "GNU"), 0);
    assert_eq!(lr.no_license_count, 1);
    assert_eq!(lr.no_license[0].name, "c");
    assert_eq!(lr.bad_license_count, 1);
    assert_eq!(lr.bad_license[0].name, "d");
    assert_eq!(lr.long_license_count, 1);
    assert_eq!(lr.long_license[0].name, "e");
}

#[test]
fn vcs_report_buckets_and_sums() {
    let mut gh_yes = with_repo("gh1", "https://github.com/o/r");
    gh_yes.has_github_actions = Some(true);
    let mut gh_no = with_repo("gh2", " https://github.com/o/r2 ");
    gh_no.has_github_actions = Some(false);
    let gh_unknown = with_repo("gh3", "https://github.com/o/r3");
    let mut gl = with_repo("gl", "https://gitlab.com/o/r");
    gl.has_gitlab_pipeline = Some(true);
    let other = with_repo("bb", "https://bitbucket.org/o/r");
    let bad = with_repo("bad", "not a repository");
    let none = project("none", 0);
    let mut by_home = project("home", 0);
    by_home.home_page = Some("https://gitlab.com/x/y".to_string());
    let all = vec![gh_yes, gh_no, gh_unknown, gl, other, bad, none, by_home];
    let total = all.len() as u32;
    let vr = create_vcs_report(&all);
    assert_eq!(vr.github_count, 3);
    assert_eq!(vr.gitlab_count, 2);
    assert_eq!(vr.no_vcs_count, 1);
    assert_eq!(vr.bad_vcs_count, 1);
    assert_eq!(vr.hosts, vec![
        ("github".to_string(), 3),
        ("gitlab".to_string(), 2),
        ("other".to_string(), 1),
    ]);
    assert_eq!(vr.has_github_actions_count, 1);
    assert_eq!(vr.has_github_actions[0].name, "gh1");
    assert_eq!(vr.no_github_actions_count, 1);
    assert_eq!(vr.no_github_actions[0].name, "gh2");
    assert_eq!(vr.has_gitlab_pipeline_count, 1);
    assert_eq!(vr.no_gitlab_pipeline_count, 0);
    assert_eq!(vr.bad_vcs[0].name, "bad");
    assert_eq!(
        vr.no_vcs_count + vr.bad_vcs_count + vr.github_count + vr.gitlab_count + vr.hosts[2].1,
        total
    );
}

#[test]
fn exemplar_lists_are_capped() {
    let all: Vec<MyProject> = (0..(PAGE_SIZE as i64 + 30)).map(|i| project(&format!("p{i}"), i)).collect();
    let r = generate_report(all);
    assert_eq!(r.total, PAGE_SIZE + 30);
    assert_eq!(r.projects.len(), PAGE_SIZE);
    assert_eq!(r.license.no_license_count as usize, PAGE_SIZE + 30);
    assert_eq!(r.license.no_license.len(), PAGE_SIZE);
    assert_eq!(r.vcs.no_vcs_count as usize, PAGE_SIZE + 30);
    assert_eq!(r.vcs.no_vcs.len(), PAGE_SIZE);
}

#[test]
fn report_is_newest_first() {
    let r = generate_report(vec![project("old", 10), project("new", 30), project("mid", 20)]);
    assert_eq!(r.total, 3);
    let names: Vec<&str> = r.projects.iter().map(|p| p.name.as_str()).collect();
    assert_eq!(names, vec!["new", "mid", "old"]);
    assert_eq!(r.license.no_license[0].name, "new");
}

#[test]
fn empty_report() {
    let r = generate_report(vec![]);
    assert_eq!(r.total, 0);
    assert!(r.projects.is_empty());
    assert_eq!(r.license.no_license_count, 0);
    assert_eq!(r.vcs.no_vcs_count, 0);
}

#[test]
fn probe_github_flow() {
    let mut p = with_repo("x", "https://github.com/o/r");
    let (url, host) = begin_probe(&mut p).unwrap();
    assert_eq!(url, "https://github.com/o/r");
    assert_eq!(host, RepoHost::GitHub);
    assert_eq!(p.has_github_actions, Some(false));
    assert_eq!(p.has_dependabot, Some(false));
    assert_eq!(p.has_gitlab_pipeline, None);
    assert_eq!(probe_step(&mut p, host, ProbeEvent::UrlChecked(true)), ProbeAction::Checkout);
    assert_eq!(probe_step(&mut p, host, ProbeEvent::CheckedOut(true)), ProbeAction::InspectGitHub);
    let a = probe_step(&mut p, host, ProbeEvent::GitHubInspected { workflows: true, dependabot: false });
    assert_eq!(a, ProbeAction::Finish);
    assert_eq!(p.has_github_actions, Some(true));
    assert_eq!(p.has_dependabot, Some(false));
}

#[test]
fn probe_failures_keep_baseline() {
    let mut p = with_repo("x", "https://gitlab.com/o/r");
    let (_, host) = begin_probe(&mut p).unwrap();
    assert_eq!(host, RepoHost::GitLab);
    assert_eq!(p.has_gitlab_pipeline, Some(false));
    assert_eq!(probe_step(&mut p, host, ProbeEvent::UrlChecked(false)), ProbeAction::Finish);
    assert_eq!(probe_step(&mut p, host, ProbeEvent::CheckedOut(false)), ProbeAction::Finish);
    assert_eq!(p.has_gitlab_pipeline, Some(false));
    assert_eq!(probe_step(&mut p, host, ProbeEvent::CheckedOut(true)), ProbeAction::InspectGitLab);
    probe_step(&mut p, host, ProbeEvent::GitLabInspected { pipeline: true });
    assert_eq!(p.has_gitlab_pipeline, Some(true));
}

#[test]
fn probe_skips_other_and_missing() {
    let mut p = with_repo("x", "https://bitbucket.org/o/r");
    assert!(begin_probe(&mut p).is_none());
    assert_eq!(p.has_github_actions, None);
    let mut q = with_repo("y", "ftp://somewhere");
    assert!(begin_probe(&mut q).is_none());
    let mut n = project("z", 0);
    assert!(begin_probe(&mut n).is_none());
    assert_eq!(n.has_gitlab_pipeline, None);
}
