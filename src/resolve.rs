//! Identity resolution: canonical repository, download and home-page URLs of
//! a package, each with the field it came from.

use vstd::prelude::*;
use vstd::string::*;

use crate::record::{clone_opt, opt_view, Info, MyProject, PyPiProject};
use crate::text::{normalize_url, normalized, same_text};

verus! {

/// Project URLs as labels and optional values.
pub open spec fn info_entries(s: Seq<(String, Option<String>)>) -> Seq<(Seq<char>, Option<Seq<char>>)> {
    s.map_values(|e: (String, Option<String>)| (e.0@, opt_view(e.1)))
}

/// The project URLs a stored record keeps, as labels and values.
pub open spec fn record_entries(s: Seq<(String, String)>) -> Seq<(Seq<char>, Option<Seq<char>>)> {
    s.map_values(|e: (String, String)| (e.0@, Some(e.1@)))
}

/// The project URLs of a metadata document; none where it declares none.
pub open spec fn info_url_entries(info: Info) -> Seq<(Seq<char>, Option<Seq<char>>)> {
    match info.project_urls {
        Some(u) => info_entries(u@),
        None => Seq::empty(),
    }
}

/// The value of the first entry with a string value whose normalized label is
/// `label`.
pub open spec fn first_value(urls: Seq<(Seq<char>, Option<Seq<char>>)>, label: Seq<char>) -> Option<
    Seq<char>,
>
    decreases urls.len(),
{
    if urls.len() == 0 {
        None
    } else {
        match first_value(urls.drop_last(), label) {
            Some(v) => Some(v),
            None => {
                let e = urls.last();
                if e.1 is Some && normalized(e.0) == label {
                    e.1
                } else {
                    None
                }
            },
        }
    }
}

/// A URL found under `label`, tagged with `source`.
pub open spec fn tagged(urls: Seq<(Seq<char>, Option<Seq<char>>)>, label: Seq<char>, source: Seq<char>) -> Option<
    (Seq<char>, Seq<char>),
> {
    match first_value(urls, label) {
        Some(u) => Some((u, source)),
        None => None,
    }
}

/// The repository URL that the labels give, by precedence:
/// source, sourcecode, repository, github, homepage.
pub open spec fn label_repository(urls: Seq<(Seq<char>, Option<Seq<char>>)>) -> Option<(Seq<char>, Seq<char>)> {
    if first_value(urls, "source"@) is Some {
        tagged(urls, "source"@, "project_urls.source"@)
    } else if first_value(urls, "sourcecode"@) is Some {
        tagged(urls, "sourcecode"@, "project_urls.sourcecode"@)
    } else if first_value(urls, "repository"@) is Some {
        tagged(urls, "repository"@, "project_urls.repository"@)
    } else if first_value(urls, "github"@) is Some {
        tagged(urls, "github"@, "project_urls.github"@)
    } else {
        tagged(urls, "homepage"@, "project_urls.homepage"@)
    }
}

/// The home page and its provenance: the homepage label, else the document's
/// home-page field.
pub open spec fn resolved_home_page(urls: Seq<(Seq<char>, Option<Seq<char>>)>, home: Option<Seq<char>>) -> Option<
    (Seq<char>, Seq<char>),
> {
    if first_value(urls, "homepage"@) is Some {
        tagged(urls, "homepage"@, "project_urls.homepage"@)
    } else {
        match home {
            Some(h) => Some((h, "info.home_page"@)),
            None => None,
        }
    }
}

/// The download URL and its provenance: the download label, else the
/// document's download-url field.
pub open spec fn resolved_download(urls: Seq<(Seq<char>, Option<Seq<char>>)>, download: Option<Seq<char>>) -> Option<
    (Seq<char>, Seq<char>),
> {
    if first_value(urls, "download"@) is Some {
        tagged(urls, "download"@, "project_urls.download"@)
    } else {
        match download {
            Some(d) => Some((d, "info.download_url"@)),
            None => None,
        }
    }
}

/// The repository URL and its provenance: the labels by precedence, else the
/// resolved home page, tagged as coming from the document's home-page field.
pub open spec fn resolved_repository(urls: Seq<(Seq<char>, Option<Seq<char>>)>, home: Option<Seq<char>>) -> Option<
    (Seq<char>, Seq<char>),
> {
    match label_repository(urls) {
        Some(r) => Some(r),
        None => match resolved_home_page(urls, home) {
            Some(h) => Some((h.0, "info.home_page"@)),
            None => None,
        },
    }
}

/// The URL part of a resolution.
pub open spec fn url_part(r: Option<(Seq<char>, Seq<char>)>) -> Option<Seq<char>> {
    match r {
        Some(x) => Some(x.0),
        None => None,
    }
}

/// The provenance part of a resolution.
pub open spec fn source_part(r: Option<(Seq<char>, Seq<char>)>) -> Option<Seq<char>> {
    match r {
        Some(x) => Some(x.1),
        None => None,
    }
}

/// The URL a report files a record under: its repository, else what its
/// labels give, else its home page.
pub open spec fn repository_url_of(p: MyProject) -> Option<Seq<char>> {
    match p.repository {
        Some(r) => Some(r@),
        None => match label_repository(record_entries(p.project_urls@)) {
            Some(x) => Some(x.0),
            None => opt_view(p.home_page),
        },
    }
}

/// The first value found under each label that resolution reads.
struct LabelHits {
    source: Option<String>,
    sourcecode: Option<String>,
    repository: Option<String>,
    github: Option<String>,
    homepage: Option<String>,
    download: Option<String>,
}

impl LabelHits {
    spec fn matches(&self, urls: Seq<(Seq<char>, Option<Seq<char>>)>) -> bool {
        &&& opt_view(self.source) == first_value(urls, "source"@)
        &&& opt_view(self.sourcecode) == first_value(urls, "sourcecode"@)
        &&& opt_view(self.repository) == first_value(urls, "repository"@)
        &&& opt_view(self.github) == first_value(urls, "github"@)
        &&& opt_view(self.homepage) == first_value(urls, "homepage"@)
        &&& opt_view(self.download) == first_value(urls, "download"@)
    }
}

/// Keeps `value` in `hit` when nothing is there yet and the normalized label
/// is `label`.
fn take_if_match(hit: &mut Option<String>, key: &str, label: &str, value: &String)
    ensures
        *final(hit) == (if *old(hit) is None && key@ == label@ {
            Some(*value)
        } else {
            *old(hit)
        }),
{
    if hit.is_none() && same_text(key, label) {
        *hit = Some(value.clone());
    }
}

fn scan_labels(urls: &Vec<(String, Option<String>)>) -> (r: LabelHits)
    ensures
        r.matches(info_entries(urls@)),
{
    let mut hits = LabelHits {
        source: None,
        sourcecode: None,
        repository: None,
        github: None,
        homepage: None,
        download: None,
    };
    let ghost all = info_entries(urls@);
    let mut i: usize = 0;
    while i < urls.len()
        invariant
            i <= urls.len(),
            all == info_entries(urls@),
            hits.matches(all.subrange(0, i as int)),
        decreases urls.len() - i,
    {
        let ghost before = all.subrange(0, i as int);
        proof {
            let next = all.subrange(0, i + 1);
            assert(next.drop_last() =~= before);
            assert(next.last() == all[i as int]);
        }
        let entry = &urls[i];
        match &entry.1 {
            Some(value) => {
                let key = normalize_url(entry.0.as_str());
                take_if_match(&mut hits.source, key.as_str(), "source", value);
                take_if_match(&mut hits.sourcecode, key.as_str(), "sourcecode", value);
                take_if_match(&mut hits.repository, key.as_str(), "repository", value);
                take_if_match(&mut hits.github, key.as_str(), "github", value);
                take_if_match(&mut hits.homepage, key.as_str(), "homepage", value);
                take_if_match(&mut hits.download, key.as_str(), "download", value);
            },
            None => {},
        }
        i = i + 1;
    }
    assert(all.subrange(0, urls.len() as int) =~= all);
    hits
}


/// An optional URL with its provenance, as characters.
pub open spec fn pair_view(r: Option<(String, String)>) -> Option<(Seq<char>, Seq<char>)> {
    match r {
        Some(x) => Some((x.0@, x.1@)),
        None => None,
    }
}

/// The string-valued project URLs of a document, in order.
pub open spec fn string_urls(s: Seq<(String, Option<String>)>) -> Seq<(Seq<char>, Seq<char>)>
    decreases s.len(),
{
    if s.len() == 0 {
        Seq::empty()
    } else {
        match s.last().1 {
            Some(v) => string_urls(s.drop_last()).push((s.last().0@, v@)),
            None => string_urls(s.drop_last()),
        }
    }
}

/// A record's project URLs as characters.
pub open spec fn stored_urls(s: Seq<(String, String)>) -> Seq<(Seq<char>, Seq<char>)> {
    s.map_values(|e: (String, String)| (e.0@, e.1@))
}

/// The six URL fields of `p` are what resolution gives for `info`.
pub open spec fn resolved_from(p: MyProject, info: Info) -> bool {
    let urls = info_url_entries(info);
    let home = opt_view(info.home_page);
    let repo = resolved_repository(urls, home);
    let page = resolved_home_page(urls, home);
    let down = resolved_download(urls, opt_view(info.download_url));
    &&& opt_view(p.repository) == url_part(repo)
    &&& opt_view(p.repository_source) == source_part(repo)
    &&& opt_view(p.home_page) == url_part(page)
    &&& opt_view(p.home_page_source) == source_part(page)
    &&& opt_view(p.download) == url_part(down)
    &&& opt_view(p.download_source) == source_part(down)
}

/// `a` and `b` agree on every field but the six URL fields.
pub open spec fn same_but_urls(a: MyProject, b: MyProject) -> bool {
    &&& a.name == b.name
    &&& a.version == b.version
    &&& a.summary == b.summary
    &&& a.license == b.license
    &&& a.license_expression == b.license_expression
    &&& a.maintainer == b.maintainer
    &&& a.author == b.author
    &&& a.pub_date == b.pub_date
    &&& a.project_urls == b.project_urls
    &&& a.has_github_actions == b.has_github_actions
    &&& a.has_gitlab_pipeline == b.has_gitlab_pipeline
    &&& a.has_dependabot == b.has_dependabot
}

/// Resolution never leaves a URL without its provenance or a provenance
/// without its URL, for repository, download and home page alike.
pub proof fn law_resolution_tags_every_url(p: MyProject, info: Info)
    requires
        resolved_from(p, info),
    ensures
        p.sources_consistent(),
{
}

fn pick(hit: &Option<String>, source: &str) -> (r: Option<(String, String)>)
    ensures
        pair_view(r) == (match opt_view(*hit) {
            Some(u) => Some((u, source@)),
            None => None,
        }),
{
    match hit {
        Some(u) => Some((u.clone(), String::from_str(source))),
        None => None,
    }
}

fn split(r: Option<(String, String)>) -> (out: (Option<String>, Option<String>))
    ensures
        opt_view(out.0) == url_part(pair_view(r)),
        opt_view(out.1) == source_part(pair_view(r)),
{
    match r {
        Some(x) => (Some(x.0), Some(x.1)),
        None => (None, None),
    }
}

fn repository_by_labels(hits: &LabelHits) -> (r: Option<(String, String)>)
    ensures
        forall|urls: Seq<(Seq<char>, Option<Seq<char>>)>|
            hits.matches(urls) ==> pair_view(r) == #[trigger] label_repository(urls),
{
    let mut repo = pick(&hits.source, "project_urls.source");
    if repo.is_none() {
        repo = pick(&hits.sourcecode, "project_urls.sourcecode");
    }
    if repo.is_none() {
        repo = pick(&hits.repository, "project_urls.repository");
    }
    if repo.is_none() {
        repo = pick(&hits.github, "project_urls.github");
    }
    if repo.is_none() {
        repo = pick(&hits.homepage, "project_urls.homepage");
    }
    repo
}

fn no_hits() -> (r: LabelHits)
    ensures
        r.matches(Seq::empty()),
{
    LabelHits {
        source: None,
        sourcecode: None,
        repository: None,
        github: None,
        homepage: None,
        download: None,
    }
}

fn as_info_entries(v: &Vec<(String, String)>) -> (r: Vec<(String, Option<String>)>)
    ensures
        info_entries(r@) == record_entries(v@),
{
    let mut out: Vec<(String, Option<String>)> = Vec::new();
    let mut i: usize = 0;
    while i < v.len()
        invariant
            i <= v.len(),
            out@.len() == i,
            info_entries(out@) =~= record_entries(v@.subrange(0, i as int)),
        decreases v.len() - i,
    {
        let ghost before = out@;
        let k = v[i].0.clone();
        let val = v[i].1.clone();
        out.push((k, Some(val)));
        proof {
            let next = v@.subrange(0, i + 1);
            assert(out@ == before.push((k, Some(val))));
            assert forall|j: int| 0 <= j < out@.len() implies #[trigger] info_entries(out@)[j]
                == record_entries(next)[j] by {
                if j < i {
                    assert(out@[j] == before[j]);
                    assert(next[j] == v@.subrange(0, i as int)[j]);
                    assert(info_entries(before)[j] == record_entries(v@.subrange(0, i as int))[j]);
                }
            }
        }
        i = i + 1;
    }
    assert(v@.subrange(0, v.len() as int) =~= v@);
    out
}

fn string_valued(v: &Vec<(String, Option<String>)>) -> (r: Vec<(String, String)>)
    ensures
        stored_urls(r@) == string_urls(v@),
{
    let mut out: Vec<(String, String)> = Vec::new();
    let mut i: usize = 0;
    while i < v.len()
        invariant
            i <= v.len(),
            stored_urls(out@) =~= string_urls(v@.subrange(0, i as int)),
        decreases v.len() - i,
    {
        let ghost before = out@;
        proof {
            let next = v@.subrange(0, i + 1);
            assert(next.drop_last() =~= v@.subrange(0, i as int));
            assert(next.last() == v@[i as int]);
        }
        match &v[i].1 {
            Some(value) => {
                out.push((v[i].0.clone(), value.clone()));
                assert(stored_urls(out@) =~= stored_urls(before).push((v@[i as int].0@, value@)));
            },
            None => {},
        }
        i = i + 1;
    }
    assert(v@.subrange(0, v.len() as int) =~= v@);
    out
}

impl MyProject {
    /// Resolves the repository, home-page and download URLs, with their
    /// provenance, from a metadata document; the other fields stay.
    pub fn process_urls(&mut self, project: &PyPiProject)
        ensures
            resolved_from(*final(self), project.info),
            same_but_urls(*old(self), *final(self)),
            final(self).sources_consistent(),
    {
        let hits = match &project.info.project_urls {
            Some(u) => scan_labels(u),
            None => no_hits(),
        };
        let ghost urls = info_url_entries(project.info);
        let mut repo = repository_by_labels(&hits);
        let mut home = pick(&hits.homepage, "project_urls.homepage");
        if home.is_none() {
            if let Some(h) = &project.info.home_page {
                home = Some((h.clone(), String::from_str("info.home_page")));
            }
        }
        let mut down = pick(&hits.download, "project_urls.download");
        if down.is_none() {
            if let Some(d) = &project.info.download_url {
                down = Some((d.clone(), String::from_str("info.download_url")));
            }
        }
        if repo.is_none() {
            if let Some(h) = &home {
                repo = Some((h.0.clone(), String::from_str("info.home_page")));
            }
        }
        assert(pair_view(repo) == resolved_repository(urls, opt_view(project.info.home_page)));
        let (r, rs) = split(repo);
        let (h, hs) = split(home);
        let (d, ds) = split(down);
        self.repository = r;
        self.repository_source = rs;
        self.home_page = h;
        self.home_page_source = hs;
        self.download = d;
        self.download_source = ds;
    }

    /// The URL a report files this record under: its repository, else the
    /// project URL with the highest-precedence label, else its home page.
    pub fn get_repository_url(&self) -> (r: Option<String>)
        ensures
            opt_view(r) == repository_url_of(*self),
    {
        match &self.repository {
            Some(r) => Some(r.clone()),
            None => {
                let entries = as_info_entries(&self.project_urls);
                let hits = scan_labels(&entries);
                match repository_by_labels(&hits) {
                    Some(x) => Some(x.0),
                    None => clone_opt(&self.home_page),
                }
            },
        }
    }
}

/// Builds the record of a package from its metadata document and the date of
/// the feed entry that announced it; the repository is not probed yet.
pub fn analyze_project(project: &PyPiProject, pub_date: i64) -> (r: MyProject)
    ensures
        r.name == project.info.name,
        r.version == project.info.version,
        r.summary == project.info.summary,
        r.license == project.info.license,
        r.license_expression == project.info.license_expression,
        r.maintainer == project.info.maintainer,
        r.author == project.info.author,
        r.pub_date == pub_date,
        stored_urls(r.project_urls@) == (match project.info.project_urls {
            Some(u) => string_urls(u@),
            None => Seq::empty(),
        }),
        r.has_github_actions is None,
        r.has_gitlab_pipeline is None,
        r.has_dependabot is None,
        resolved_from(r, project.info),
        r.sources_consistent(),
{
    let info = &project.info;
    let project_urls = match &info.project_urls {
        Some(u) => string_valued(u),
        None => Vec::new(),
    };
    let mut p = MyProject {
        name: info.name.clone(),
        version: info.version.clone(),
        summary: clone_opt(&info.summary),
        license: clone_opt(&info.license),
        license_expression: clone_opt(&info.license_expression),
        home_page: None,
        home_page_source: None,
        maintainer: clone_opt(&info.maintainer),
        author: clone_opt(&info.author),
        repository: None,
        repository_source: None,
        download: None,
        download_source: None,
        pub_date,
        project_urls,
        has_github_actions: None,
        has_gitlab_pipeline: None,
        has_dependabot: None,
    };
    p.process_urls(project);
    p
}

} // verus!
