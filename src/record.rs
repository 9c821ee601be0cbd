//! The persisted package record and the metadata document it is built from.

use vstd::prelude::*;

verus! {

/// How many records a report page and each exemplar list hold at most.
pub const PAGE_SIZE: usize = 50;

/// The resolved, persisted metadata of one package.
#[derive(Debug, Clone)]
pub struct MyProject {
    pub name: String,
    pub version: String,
    pub summary: Option<String>,
    pub license: Option<String>,
    pub license_expression: Option<String>,
    pub home_page: Option<String>,
    pub home_page_source: Option<String>,
    pub maintainer: Option<String>,
    pub author: Option<String>,
    pub repository: Option<String>,
    pub repository_source: Option<String>,
    pub download: Option<String>,
    pub download_source: Option<String>,
    /// Unix epoch seconds of the feed entry that produced the record.
    pub pub_date: i64,
    /// Label and URL of each project URL the package declares.
    pub project_urls: Vec<(String, String)>,
    pub has_github_actions: Option<bool>,
    pub has_gitlab_pipeline: Option<bool>,
    pub has_dependabot: Option<bool>,
}

/// The part of a record that a report lists.
#[derive(Debug, Clone)]
pub struct MyFilteredProject {
    pub name: String,
    pub version: String,
    pub summary: Option<String>,
    pub pub_date: i64,
}

/// The metadata document that the package index serves for one release.
#[derive(Debug, Clone)]
pub struct PyPiProject {
    pub info: Info,
    pub urls: Option<Vec<UrlInfo>>,
}

/// The `info` part of a metadata document.
#[derive(Debug, Clone)]
pub struct Info {
    pub author: Option<String>,
    pub bugtrack_url: Option<String>,
    pub classifiers: Vec<String>,
    pub description: String,
    pub description_content_type: Option<String>,
    pub docs_url: Option<String>,
    pub download_url: Option<String>,
    pub home_page: Option<String>,
    pub keywords: Option<String>,
    pub license: Option<String>,
    pub license_expression: Option<String>,
    pub maintainer: Option<String>,
    pub name: String,
    pub package_url: Option<String>,
    pub platform: Option<String>,
    pub project_url: Option<String>,
    /// Label and value of each declared project URL, in document order;
    /// `None` where the value is not a string.
    pub project_urls: Option<Vec<(String, Option<String>)>>,
    pub release_url: Option<String>,
    pub requires_dist: Option<Vec<String>>,
    pub requires_python: Option<String>,
    pub summary: Option<String>,
    pub version: String,
    pub yanked: Option<bool>,
    pub yanked_reason: Option<String>,
}

/// One distribution file of a release.
#[derive(Debug, Clone)]
pub struct UrlInfo {
    pub url: String,
    pub packagetype: Option<String>,
    pub filename: Option<String>,
}

/// The characters of an optional string.
pub open spec fn opt_view(o: Option<String>) -> Option<Seq<char>> {
    match o {
        Some(s) => Some(s@),
        None => None,
    }
}

/// A copy of an optional string.
pub fn clone_opt(o: &Option<String>) -> (r: Option<String>)
    ensures
        r == *o,
{
    match o {
        Some(s) => Some(s.clone()),
        None => None,
    }
}

/// The listing of a record.
pub open spec fn filtered_of(p: MyProject) -> MyFilteredProject {
    MyFilteredProject { name: p.name, version: p.version, summary: p.summary, pub_date: p.pub_date }
}

impl MyProject {
    /// Each resolved URL carries its provenance, and each provenance its URL.
    pub open spec fn sources_consistent(&self) -> bool {
        &&& (self.repository is Some <==> self.repository_source is Some)
        &&& (self.download is Some <==> self.download_source is Some)
        &&& (self.home_page is Some <==> self.home_page_source is Some)
    }

    /// The listing of this record: name, version, summary and date.
    pub fn smaller(&self) -> (r: MyFilteredProject)
        ensures
            r == filtered_of(*self),
    {
        MyFilteredProject {
            name: self.name.clone(),
            version: self.version.clone(),
            summary: clone_opt(&self.summary),
            pub_date: self.pub_date,
        }
    }
}

} // verus!
