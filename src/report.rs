//! The summary report: totals, a page of the most recent records, and
//! license and VCS/CI buckets, each with a count and capped exemplars.

use vstd::prelude::*;

use crate::probe::{classify_host, repo_host_of, RepoHost};
use crate::record::{filtered_of, MyFilteredProject, MyProject, PAGE_SIZE};
use crate::resolve::repository_url_of;
use crate::text::{same_text, trim, trimmed_of};
use vstd::string::*;

verus! {

/// At most the first `PAGE_SIZE` items of `s`.
pub open spec fn capped<T>(s: Seq<T>) -> Seq<T> {
    if s.len() <= PAGE_SIZE {
        s
    } else {
        s.take(PAGE_SIZE as int)
    }
}

proof fn lemma_capped_push<T>(s: Seq<T>, x: T)
    ensures
        capped(s.push(x)) == (if s.len() < PAGE_SIZE {
            capped(s).push(x)
        } else {
            capped(s)
        }),
{
    if s.len() >= PAGE_SIZE {
        assert(s.push(x).take(PAGE_SIZE as int) =~= capped(s));
    }
}

/// A running bucket: how many records fell into it and the first of them.
struct Tally {
    count: u32,
    list: Vec<MyFilteredProject>,
}

impl Tally {
    spec fn tracks(&self, members: Seq<MyFilteredProject>) -> bool {
        &&& self.count == members.len()
        &&& self.list@ == capped(members)
    }

    fn new() -> (r: Tally)
        ensures
            r.tracks(Seq::empty()),
    {
        Tally { count: 0, list: Vec::new() }
    }

    fn add(&mut self, p: &MyProject)
        requires
            old(self).count < u32::MAX,
        ensures
            forall|m: Seq<MyFilteredProject>|
                old(self).tracks(m) ==> #[trigger] final(self).tracks(m.push(filtered_of(*p))),
    {
        self.count = self.count + 1;
        if self.list.len() < PAGE_SIZE {
            self.list.push(p.smaller());
        }
        proof {
            let ghost after = *self;
            assert forall|m: Seq<MyFilteredProject>| old(self).tracks(m) implies #[trigger] after.tracks(
                m.push(filtered_of(*p)),
            ) by {
                lemma_capped_push(m, filtered_of(*p));
            }
        }
    }
}

/// The license identifiers and spellings that the report counts by name.
pub open spec fn known_licenses() -> Seq<Seq<char>> {
    seq![
        "ASL"@, "AFL-3.0"@, "AGPL"@, "AGPL-3"@, "AGPL-3.0-only"@, "Apache"@, "Apache-2.0"@,
        "Apache 2"@, "Apache 2.0"@, "Apache 2.0 license"@, "Apache 2.0 License"@,
        "Apache License 2.0"@, "BSD-2-Clause"@, "BSD-3-Clause"@, "LGPL-3"@, "CC BY-NC-SA 4.0"@,
        "GNU"@, "GNU GPL v3.0"@, "GPL-2.0-or-later"@, "GPL-3.0-or-later"@, "GPL-3.0-only"@,
        "GPLv3+"@, "MIT"@, "MIT License"@, "MIT OR Apache-2.0"@, "Proprietary"@,
    ]
}

fn known_license_names() -> (r: Vec<&'static str>)
    ensures
        r@.len() == known_licenses().len(),
        forall|i: int| 0 <= i < r@.len() ==> #[trigger] r@[i]@ == known_licenses()[i],
{
    let r = vec![
        "ASL", "AFL-3.0", "AGPL", "AGPL-3", "AGPL-3.0-only", "Apache", "Apache-2.0", "Apache 2",
        "Apache 2.0", "Apache 2.0 license", "Apache 2.0 License", "Apache License 2.0",
        "BSD-2-Clause", "BSD-3-Clause", "LGPL-3", "CC BY-NC-SA 4.0", "GNU", "GNU GPL v3.0",
        "GPL-2.0-or-later", "GPL-3.0-or-later", "GPL-3.0-only", "GPLv3+", "MIT", "MIT License",
        "MIT OR Apache-2.0", "Proprietary",
    ];
    r
}

/// Length below which an unknown license is a bad token rather than a text.
pub const LONG_LICENSE_LEN: usize = 20;

/// Where a trimmed license value falls.
#[derive(Debug, Clone, Copy, PartialEq, Eq, Structural)]
pub enum LicenseBucket {
    /// The known license at this position of the registry.
    Known(usize),
    /// An unknown value shorter than `LONG_LICENSE_LEN` characters.
    Bad,
    /// An unknown value of `LONG_LICENSE_LEN` characters or more.
    Long,
}

/// The first position below `n` of `t` in the registry.
pub open spec fn known_index(t: Seq<char>, n: int) -> Option<int>
    decreases n,
{
    if n <= 0 {
        None
    } else {
        match known_index(t, n - 1) {
            Some(i) => Some(i),
            None => if known_licenses()[n - 1] == t {
                Some(n - 1)
            } else {
                None
            },
        }
    }
}

proof fn lemma_known_index_grows(t: Seq<char>, n: int, m: int)
    requires
        n <= m,
        known_index(t, n) is Some,
    ensures
        known_index(t, m) == known_index(t, n),
        0 <= known_index(t, n)->0 < n,
    decreases m - n,
{
    if n < m {
        lemma_known_index_grows(t, n, m - 1);
    } else {
        lemma_known_index_bounds(t, n);
    }
}

proof fn lemma_known_index_bounds(t: Seq<char>, n: int)
    ensures
        known_index(t, n) matches Some(i) ==> 0 <= i < n,
    decreases n,
{
    if n > 0 {
        lemma_known_index_bounds(t, n - 1);
    }
}

/// The bucket of a trimmed license value.
pub open spec fn bucket_of(t: Seq<char>) -> LicenseBucket {
    match known_index(t, known_licenses().len() as int) {
        Some(i) => LicenseBucket::Known(i as usize),
        None => if t.len() < LONG_LICENSE_LEN {
            LicenseBucket::Bad
        } else {
            LicenseBucket::Long
        },
    }
}

/// The license value a record is judged by: its license expression, else its
/// legacy license.
pub open spec fn license_value(p: MyProject) -> Option<Seq<char>> {
    match p.license_expression {
        Some(e) => Some(e@),
        None => match p.license {
            Some(l) => Some(l@),
            None => None,
        },
    }
}

/// The bucket of a record; `None` where it has no license value.
pub open spec fn license_class(p: MyProject) -> Option<LicenseBucket> {
    match license_value(p) {
        Some(v) => Some(bucket_of(trimmed_of(v))),
        None => None,
    }
}

/// The listings of the records of `ps` in license class `c`, in order.
pub open spec fn license_members(ps: Seq<MyProject>, c: Option<LicenseBucket>) -> Seq<MyFilteredProject>
    decreases ps.len(),
{
    if ps.len() == 0 {
        Seq::empty()
    } else if license_class(ps.last()) == c {
        license_members(ps.drop_last(), c).push(filtered_of(ps.last()))
    } else {
        license_members(ps.drop_last(), c)
    }
}

proof fn lemma_license_members_len(ps: Seq<MyProject>, c: Option<LicenseBucket>)
    ensures
        license_members(ps, c).len() <= ps.len(),
    decreases ps.len(),
{
    if ps.len() > 0 {
        lemma_license_members_len(ps.drop_last(), c);
    }
}

/// Files a trimmed license value into its bucket.
pub fn license_bucket(trimmed: &str) -> (r: LicenseBucket)
    ensures
        r == bucket_of(trimmed@),
        r matches LicenseBucket::Known(k) ==> k < known_licenses().len(),
{
    proof {
        lemma_known_index_bounds(trimmed@, known_licenses().len() as int);
    }
    let names = known_license_names();
    let mut i: usize = 0;
    while i < names.len()
        invariant
            i <= names@.len(),
            names@.len() == known_licenses().len(),
            forall|j: int| 0 <= j < names@.len() ==> #[trigger] names@[j]@ == known_licenses()[j],
            known_index(trimmed@, i as int) is None,
        decreases names.len() - i,
    {
        if same_text(trimmed, names[i]) {
            proof {
                assert(known_index(trimmed@, i + 1) == Some(i as int));
                lemma_known_index_grows(trimmed@, i + 1, known_licenses().len() as int);
            }
            return LicenseBucket::Known(i);
        }
        i = i + 1;
    }
    if trimmed.unicode_len() < LONG_LICENSE_LEN {
        LicenseBucket::Bad
    } else {
        LicenseBucket::Long
    }
}

/// An unknown license value is a bad token below `LONG_LICENSE_LEN`
/// characters and a long text from there on: one of 20 characters is long,
/// one of 19 is bad.
pub proof fn law_license_length_threshold(t: Seq<char>)
    requires
        known_index(t, known_licenses().len() as int) is None,
    ensures
        t.len() < LONG_LICENSE_LEN ==> bucket_of(t) == LicenseBucket::Bad,
        t.len() >= LONG_LICENSE_LEN ==> bucket_of(t) == LicenseBucket::Long,
        t.len() == 20 ==> bucket_of(t) == LicenseBucket::Long,
        t.len() == 19 ==> bucket_of(t) == LicenseBucket::Bad,
{
}

/// License summary: a counter per known license, and the records without a
/// license, with an unknown short one, and with an unknown long one.
#[derive(Debug)]
pub struct LicenseReport {
    /// Each known license, in registry order, with the number of records under it.
    pub licenses: Vec<(String, u32)>,
    pub no_license_count: u32,
    pub no_license: Vec<MyFilteredProject>,
    pub bad_license_count: u32,
    pub bad_license: Vec<MyFilteredProject>,
    pub long_license_count: u32,
    pub long_license: Vec<MyFilteredProject>,
}

/// `lr` is the license summary of `ps`.
pub open spec fn license_report_of(lr: LicenseReport, ps: Seq<MyProject>) -> bool {
    &&& lr.licenses@.len() == known_licenses().len()
    &&& forall|i: int|
        0 <= i < lr.licenses@.len() ==> {
            &&& (#[trigger] lr.licenses@[i]).0@ == known_licenses()[i]
            &&& lr.licenses@[i].1 == license_members(ps, Some(LicenseBucket::Known(i as usize))).len()
        }
    &&& lr.no_license_count == license_members(ps, None).len()
    &&& lr.no_license@ == capped(license_members(ps, None))
    &&& lr.bad_license_count == license_members(ps, Some(LicenseBucket::Bad)).len()
    &&& lr.bad_license@ == capped(license_members(ps, Some(LicenseBucket::Bad)))
    &&& lr.long_license_count == license_members(ps, Some(LicenseBucket::Long)).len()
    &&& lr.long_license@ == capped(license_members(ps, Some(LicenseBucket::Long)))
}

fn license_of(p: &MyProject) -> (r: Option<&String>)
    ensures
        license_value(*p) == (match r {
            Some(s) => Some(s@),
            None => None,
        }),
{
    match &p.license_expression {
        Some(e) => Some(e),
        None => match &p.license {
            Some(l) => Some(l),
            None => None,
        },
    }
}

/// Buckets every record by its license.
pub fn create_license_report(projects: &Vec<MyProject>) -> (lr: LicenseReport)
    requires
        projects@.len() <= u32::MAX,
    ensures
        license_report_of(lr, projects@),
{
    let names = known_license_names();
    let mut counts: Vec<u32> = Vec::new();
    while counts.len() < names.len()
        invariant
            counts@.len() <= names@.len(),
            forall|j: int| 0 <= j < counts@.len() ==> #[trigger] counts@[j] == 0,
        decreases names.len() - counts.len(),
    {
        counts.push(0);
    }
    let mut none = Tally::new();
    let mut bad = Tally::new();
    let mut long = Tally::new();
    let ghost ps = projects@;
    let mut i: usize = 0;
    while i < projects.len()
        invariant
            ps == projects@,
            ps.len() <= u32::MAX,
            i <= ps.len(),
            names@.len() == known_licenses().len(),
            forall|j: int| 0 <= j < names@.len() ==> #[trigger] names@[j]@ == known_licenses()[j],
            counts@.len() == names@.len(),
            forall|j: int|
                0 <= j < counts@.len() ==> #[trigger] counts@[j] == license_members(
                    ps.subrange(0, i as int),
                    Some(LicenseBucket::Known(j as usize)),
                ).len(),
            none.tracks(license_members(ps.subrange(0, i as int), None)),
            bad.tracks(license_members(ps.subrange(0, i as int), Some(LicenseBucket::Bad))),
            long.tracks(license_members(ps.subrange(0, i as int), Some(LicenseBucket::Long))),
        decreases ps.len() - i,
    {
        let ghost pre = ps.subrange(0, i as int);
        let ghost next = ps.subrange(0, i + 1);
        proof {
            assert(next.drop_last() =~= pre);
            assert(next.last() == ps[i as int]);
            lemma_license_members_len(pre, None);
            lemma_license_members_len(pre, Some(LicenseBucket::Bad));
            lemma_license_members_len(pre, Some(LicenseBucket::Long));
        }
        let p = &projects[i];
        match license_of(p) {
            None => {
                none.add(p);
            },
            Some(value) => {
                let t = trim(value.as_str());
                match license_bucket(t.as_str()) {
                    LicenseBucket::Known(k) => {
                        proof {
                            lemma_license_members_len(pre, Some(LicenseBucket::Known(k)));
                        }
                        let c = counts[k];
                        counts.set(k, c + 1);
                        proof {
                            assert forall|j: int| 0 <= j < counts@.len() implies #[trigger] counts@[j]
                                == license_members(next, Some(LicenseBucket::Known(j as usize))).len() by {
                                if j != k as int {
                                    assert(Some(LicenseBucket::Known(j as usize)) != Some(
                                        LicenseBucket::Known(k),
                                    ));
                                }
                            }
                        }
                    },
                    LicenseBucket::Bad => {
                        bad.add(p);
                    },
                    LicenseBucket::Long => {
                        long.add(p);
                    },
                }
            },
        }
        i = i + 1;
    }
    assert(ps.subrange(0, ps.len() as int) =~= ps);
    let mut licenses: Vec<(String, u32)> = Vec::new();
    let mut j: usize = 0;
    while j < names.len()
        invariant
            j <= names@.len(),
            names@.len() == known_licenses().len(),
            forall|k: int| 0 <= k < names@.len() ==> #[trigger] names@[k]@ == known_licenses()[k],
            counts@.len() == names@.len(),
            licenses@.len() == j,
            forall|k: int|
                0 <= k < j ==> (#[trigger] licenses@[k]).0@ == names@[k]@ && licenses@[k].1
                    == counts@[k],
        decreases names.len() - j,
    {
        licenses.push((String::from_str(names[j]), counts[j]));
        j = j + 1;
    }
    LicenseReport {
        licenses,
        no_license_count: none.count,
        no_license: none.list,
        bad_license_count: bad.count,
        bad_license: bad.list,
        long_license_count: long.count,
        long_license: long.list,
    }
}


/// Where a record's repository URL falls.
#[derive(Debug, Clone, Copy, PartialEq, Eq, Structural)]
pub enum VcsClass {
    /// No repository URL at all.
    NoVcs,
    /// A URL that is no recognized repository URL.
    BadVcs,
    GitHub,
    GitLab,
    /// A recognized repository on another host.
    Other,
}

/// The CI sub-bucket of a record on GitHub or GitLab.
#[derive(Debug, Clone, Copy, PartialEq, Eq, Structural)]
pub enum CiMark {
    ActionsFound,
    ActionsMissing,
    PipelineFound,
    PipelineMissing,
    /// Not on GitHub or GitLab, or never probed.
    Unchecked,
}

/// The VCS class of a record, from its trimmed repository URL.
pub open spec fn vcs_class(p: MyProject) -> VcsClass {
    match repository_url_of(p) {
        None => VcsClass::NoVcs,
        Some(u) => match repo_host_of(trimmed_of(u)) {
            RepoHost::GitHub => VcsClass::GitHub,
            RepoHost::GitLab => VcsClass::GitLab,
            RepoHost::Other => VcsClass::Other,
            RepoHost::Unrecognized => VcsClass::BadVcs,
        },
    }
}

/// The CI sub-bucket of a record.
pub open spec fn ci_mark(p: MyProject) -> CiMark {
    match vcs_class(p) {
        VcsClass::GitHub => match p.has_github_actions {
            Some(true) => CiMark::ActionsFound,
            Some(false) => CiMark::ActionsMissing,
            None => CiMark::Unchecked,
        },
        VcsClass::GitLab => match p.has_gitlab_pipeline {
            Some(true) => CiMark::PipelineFound,
            Some(false) => CiMark::PipelineMissing,
            None => CiMark::Unchecked,
        },
        _ => CiMark::Unchecked,
    }
}

/// The listings of the records of `ps` in VCS class `c`, in order.
pub open spec fn vcs_members(ps: Seq<MyProject>, c: VcsClass) -> Seq<MyFilteredProject>
    decreases ps.len(),
{
    if ps.len() == 0 {
        Seq::empty()
    } else if vcs_class(ps.last()) == c {
        vcs_members(ps.drop_last(), c).push(filtered_of(ps.last()))
    } else {
        vcs_members(ps.drop_last(), c)
    }
}

/// The listings of the records of `ps` in CI sub-bucket `m`, in order.
pub open spec fn ci_members(ps: Seq<MyProject>, m: CiMark) -> Seq<MyFilteredProject>
    decreases ps.len(),
{
    if ps.len() == 0 {
        Seq::empty()
    } else if ci_mark(ps.last()) == m {
        ci_members(ps.drop_last(), m).push(filtered_of(ps.last()))
    } else {
        ci_members(ps.drop_last(), m)
    }
}

proof fn lemma_vcs_members_len(ps: Seq<MyProject>, c: VcsClass)
    ensures
        vcs_members(ps, c).len() <= ps.len(),
    decreases ps.len(),
{
    if ps.len() > 0 {
        lemma_vcs_members_len(ps.drop_last(), c);
    }
}

proof fn lemma_ci_members_len(ps: Seq<MyProject>, m: CiMark)
    ensures
        ci_members(ps, m).len() <= ps.len(),
    decreases ps.len(),
{
    if ps.len() > 0 {
        lemma_ci_members_len(ps.drop_last(), m);
    }
}

/// VCS/CI summary: records by repository host, and GitHub and GitLab
/// records by whether CI configuration was found.
#[derive(Debug)]
pub struct VCSReport {
    /// The number of records per host: "github", "gitlab" and "other", in that order.
    pub hosts: Vec<(String, u32)>,
    pub no_vcs_count: u32,
    pub no_vcs: Vec<MyFilteredProject>,
    pub bad_vcs_count: u32,
    pub bad_vcs: Vec<MyFilteredProject>,
    pub github_count: u32,
    pub github_projects: Vec<MyFilteredProject>,
    pub gitlab_count: u32,
    pub gitlab_projects: Vec<MyFilteredProject>,
    pub no_github_actions_count: u32,
    pub no_github_actions: Vec<MyFilteredProject>,
    pub has_github_actions_count: u32,
    pub has_github_actions: Vec<MyFilteredProject>,
    pub has_gitlab_pipeline_count: u32,
    pub has_gitlab_pipeline: Vec<MyFilteredProject>,
    pub no_gitlab_pipeline_count: u32,
    pub no_gitlab_pipeline: Vec<MyFilteredProject>,
}

/// `vr` is the VCS/CI summary of `ps`.
pub open spec fn vcs_report_of(vr: VCSReport, ps: Seq<MyProject>) -> bool {
    &&& vr.hosts@.len() == 3
    &&& vr.hosts@[0].0@ == "github"@ && vr.hosts@[0].1 == vcs_members(ps, VcsClass::GitHub).len()
    &&& vr.hosts@[1].0@ == "gitlab"@ && vr.hosts@[1].1 == vcs_members(ps, VcsClass::GitLab).len()
    &&& vr.hosts@[2].0@ == "other"@ && vr.hosts@[2].1 == vcs_members(ps, VcsClass::Other).len()
    &&& vr.no_vcs_count == vcs_members(ps, VcsClass::NoVcs).len()
    &&& vr.no_vcs@ == capped(vcs_members(ps, VcsClass::NoVcs))
    &&& vr.bad_vcs_count == vcs_members(ps, VcsClass::BadVcs).len()
    &&& vr.bad_vcs@ == capped(vcs_members(ps, VcsClass::BadVcs))
    &&& vr.github_count == vcs_members(ps, VcsClass::GitHub).len()
    &&& vr.github_projects@ == capped(vcs_members(ps, VcsClass::GitHub))
    &&& vr.gitlab_count == vcs_members(ps, VcsClass::GitLab).len()
    &&& vr.gitlab_projects@ == capped(vcs_members(ps, VcsClass::GitLab))
    &&& vr.has_github_actions_count == ci_members(ps, CiMark::ActionsFound).len()
    &&& vr.has_github_actions@ == capped(ci_members(ps, CiMark::ActionsFound))
    &&& vr.no_github_actions_count == ci_members(ps, CiMark::ActionsMissing).len()
    &&& vr.no_github_actions@ == capped(ci_members(ps, CiMark::ActionsMissing))
    &&& vr.has_gitlab_pipeline_count == ci_members(ps, CiMark::PipelineFound).len()
    &&& vr.has_gitlab_pipeline@ == capped(ci_members(ps, CiMark::PipelineFound))
    &&& vr.no_gitlab_pipeline_count == ci_members(ps, CiMark::PipelineMissing).len()
    &&& vr.no_gitlab_pipeline@ == capped(ci_members(ps, CiMark::PipelineMissing))
}

/// Buckets every record by the host of its repository URL and, on GitHub and
/// GitLab, by its CI flag.
pub fn create_vcs_report(projects: &Vec<MyProject>) -> (vr: VCSReport)
    requires
        projects@.len() <= u32::MAX,
    ensures
        vcs_report_of(vr, projects@),
{
    let mut no_vcs = Tally::new();
    let mut bad_vcs = Tally::new();
    let mut github = Tally::new();
    let mut gitlab = Tally::new();
    let mut other: u32 = 0;
    let mut actions_yes = Tally::new();
    let mut actions_no = Tally::new();
    let mut pipeline_yes = Tally::new();
    let mut pipeline_no = Tally::new();
    let ghost ps = projects@;
    let mut i: usize = 0;
    while i < projects.len()
        invariant
            ps == projects@,
            ps.len() <= u32::MAX,
            i <= ps.len(),
            no_vcs.tracks(vcs_members(ps.subrange(0, i as int), VcsClass::NoVcs)),
            bad_vcs.tracks(vcs_members(ps.subrange(0, i as int), VcsClass::BadVcs)),
            github.tracks(vcs_members(ps.subrange(0, i as int), VcsClass::GitHub)),
            gitlab.tracks(vcs_members(ps.subrange(0, i as int), VcsClass::GitLab)),
            other == vcs_members(ps.subrange(0, i as int), VcsClass::Other).len(),
            actions_yes.tracks(ci_members(ps.subrange(0, i as int), CiMark::ActionsFound)),
            actions_no.tracks(ci_members(ps.subrange(0, i as int), CiMark::ActionsMissing)),
            pipeline_yes.tracks(ci_members(ps.subrange(0, i as int), CiMark::PipelineFound)),
            pipeline_no.tracks(ci_members(ps.subrange(0, i as int), CiMark::PipelineMissing)),
        decreases ps.len() - i,
    {
        let ghost pre = ps.subrange(0, i as int);
        proof {
            let next = ps.subrange(0, i + 1);
            assert(next.drop_last() =~= pre);
            assert(next.last() == ps[i as int]);
            lemma_vcs_members_len(pre, VcsClass::NoVcs);
            lemma_vcs_members_len(pre, VcsClass::BadVcs);
            lemma_vcs_members_len(pre, VcsClass::GitHub);
            lemma_vcs_members_len(pre, VcsClass::GitLab);
            lemma_vcs_members_len(pre, VcsClass::Other);
            lemma_ci_members_len(pre, CiMark::ActionsFound);
            lemma_ci_members_len(pre, CiMark::ActionsMissing);
            lemma_ci_members_len(pre, CiMark::PipelineFound);
            lemma_ci_members_len(pre, CiMark::PipelineMissing);
        }
        let p = &projects[i];
        match p.get_repository_url() {
            None => {
                no_vcs.add(p);
            },
            Some(url) => {
                let t = trim(url.as_str());
                match classify_host(t.as_str()) {
                    RepoHost::GitHub => {
                        github.add(p);
                        match p.has_github_actions {
                            Some(true) => actions_yes.add(p),
                            Some(false) => actions_no.add(p),
                            None => {},
                        }
                    },
                    RepoHost::GitLab => {
                        gitlab.add(p);
                        match p.has_gitlab_pipeline {
                            Some(true) => pipeline_yes.add(p),
                            Some(false) => pipeline_no.add(p),
                            None => {},
                        }
                    },
                    RepoHost::Other => {
                        other = other + 1;
                    },
                    RepoHost::Unrecognized => {
                        bad_vcs.add(p);
                    },
                }
            },
        }
        i = i + 1;
    }
    assert(ps.subrange(0, ps.len() as int) =~= ps);
    let hosts = vec![
        (String::from_str("github"), github.count),
        (String::from_str("gitlab"), gitlab.count),
        (String::from_str("other"), other),
    ];
    VCSReport {
        hosts,
        no_vcs_count: no_vcs.count,
        no_vcs: no_vcs.list,
        bad_vcs_count: bad_vcs.count,
        bad_vcs: bad_vcs.list,
        github_count: github.count,
        github_projects: github.list,
        gitlab_count: gitlab.count,
        gitlab_projects: gitlab.list,
        no_github_actions_count: actions_no.count,
        no_github_actions: actions_no.list,
        has_github_actions_count: actions_yes.count,
        has_github_actions: actions_yes.list,
        has_gitlab_pipeline_count: pipeline_yes.count,
        has_gitlab_pipeline: pipeline_yes.list,
        no_gitlab_pipeline_count: pipeline_no.count,
        no_gitlab_pipeline: pipeline_no.list,
    }
}


/// The whole report: how many records there are, the most recent of them,
/// and the license and VCS/CI summaries.
#[derive(Debug)]
pub struct Report {
    pub total: usize,
    pub projects: Vec<MyFilteredProject>,
    pub license: LicenseReport,
    pub vcs: VCSReport,
}

/// `s` runs from the most recent record to the oldest.
pub open spec fn newest_first(s: Seq<MyProject>) -> bool {
    forall|i: int, j: int| 0 <= i < j < s.len() ==> s[i].pub_date >= s[j].pub_date
}

/// The listings of all records of `s`, in order.
pub open spec fn listings(s: Seq<MyProject>) -> Seq<MyFilteredProject> {
    s.map_values(|p: MyProject| filtered_of(p))
}

/// `r` is the report of the records `s`, taken in this order.
pub open spec fn report_of(r: Report, s: Seq<MyProject>) -> bool {
    &&& r.total == s.len()
    &&& r.projects@ == capped(listings(s))
    &&& license_report_of(r.license, s)
    &&& vcs_report_of(r.vcs, s)
}

/// Relies on `slice::sort_by`: a permutation of the records, ordered by the
/// comparison, which here puts later publication dates first.
#[verifier::external_body]
fn sort_newest_first(v: &mut Vec<MyProject>)
    ensures
        final(v)@.to_multiset() == old(v)@.to_multiset(),
        newest_first(final(v)@),
{
    v.sort_by(|a, b| b.pub_date.cmp(&a.pub_date))
}

/// The listings of the first records, at most `PAGE_SIZE` of them.
fn first_page(projects: &Vec<MyProject>) -> (r: Vec<MyFilteredProject>)
    ensures
        r@ == capped(listings(projects@)),
{
    let n = if projects.len() < PAGE_SIZE {
        projects.len()
    } else {
        PAGE_SIZE
    };
    let mut page: Vec<MyFilteredProject> = Vec::new();
    let mut i: usize = 0;
    while i < n
        invariant
            n <= projects@.len(),
            n <= PAGE_SIZE,
            n == projects@.len() || n == PAGE_SIZE,
            i <= n,
            page@ =~= listings(projects@).take(i as int),
        decreases n - i,
    {
        page.push(projects[i].smaller());
        i = i + 1;
    }
    assert(page@ =~= capped(listings(projects@)));
    page
}

/// Orders the records from the most recent to the oldest and reports on them.
pub fn generate_report(projects: Vec<MyProject>) -> (r: Report)
    requires
        projects@.len() <= u32::MAX,
    ensures
        exists|s: Seq<MyProject>|
            newest_first(s) && s.to_multiset() == projects@.to_multiset() && #[trigger] report_of(
                r,
                s,
            ),
{
    let mut sorted = projects;
    sort_newest_first(&mut sorted);
    proof {
        sorted@.to_multiset_ensures();
        projects@.to_multiset_ensures();
    }
    let license = create_license_report(&sorted);
    let vcs = create_vcs_report(&sorted);
    let page = first_page(&sorted);
    let r = Report { total: sorted.len(), projects: page, license, vcs };
    assert(report_of(r, sorted@));
    r
}


proof fn lemma_vcs_partition(ps: Seq<MyProject>)
    ensures
        vcs_members(ps, VcsClass::NoVcs).len() + vcs_members(ps, VcsClass::BadVcs).len()
            + vcs_members(ps, VcsClass::GitHub).len() + vcs_members(ps, VcsClass::GitLab).len()
            + vcs_members(ps, VcsClass::Other).len() == ps.len(),
    decreases ps.len(),
{
    if ps.len() > 0 {
        lemma_vcs_partition(ps.drop_last());
    }
}

/// Every record falls into exactly one VCS bucket: the no-VCS, bad-VCS,
/// GitHub, GitLab and other-host counts add up to the number of records.
pub proof fn law_vcs_counts_partition(vr: VCSReport, ps: Seq<MyProject>)
    requires
        vcs_report_of(vr, ps),
    ensures
        vr.no_vcs_count + vr.bad_vcs_count + vr.github_count + vr.gitlab_count + vr.hosts@[2].1
            == ps.len(),
{
    lemma_vcs_partition(ps);
}

/// The number of records of `ps` under the known licenses below `n`.
pub open spec fn known_total(ps: Seq<MyProject>, n: int) -> int
    decreases n,
{
    if n <= 0 {
        0
    } else {
        known_total(ps, n - 1) + license_members(ps, Some(LicenseBucket::Known((n - 1) as usize))).len()
    }
}

/// The sum of the first `n` license counters.
pub open spec fn counter_sum(l: Seq<(String, u32)>, n: int) -> int
    decreases n,
{
    if n <= 0 {
        0
    } else {
        counter_sum(l, n - 1) + l[n - 1].1
    }
}

proof fn lemma_known_total_push(pre: Seq<MyProject>, x: MyProject, n: int)
    requires
        0 <= n <= known_licenses().len(),
    ensures
        known_total(pre.push(x), n) == known_total(pre, n) + (if license_class(x) matches Some(
            LicenseBucket::Known(k),
        ) && k < n {
            1int
        } else {
            0int
        }),
    decreases n,
{
    let ps = pre.push(x);
    assert(ps.drop_last() =~= pre);
    if n > 0 {
        lemma_known_total_push(pre, x, n - 1);
    }
}

proof fn lemma_license_partition(ps: Seq<MyProject>)
    ensures
        license_members(ps, None).len() + license_members(ps, Some(LicenseBucket::Bad)).len()
            + license_members(ps, Some(LicenseBucket::Long)).len() + known_total(
            ps,
            known_licenses().len() as int,
        ) == ps.len(),
    decreases ps.len(),
{
    if ps.len() > 0 {
        let pre = ps.drop_last();
        let x = ps.last();
        assert(pre.push(x) =~= ps);
        lemma_license_partition(pre);
        lemma_known_total_push(pre, x, known_licenses().len() as int);
        if let Some(v) = license_value(x) {
            lemma_known_index_bounds(trimmed_of(v), known_licenses().len() as int);
        }
    } else {
        lemma_known_total_zero(ps, known_licenses().len() as int);
    }
}

proof fn lemma_known_total_zero(ps: Seq<MyProject>, n: int)
    requires
        ps.len() == 0,
    ensures
        known_total(ps, n) == 0,
    decreases n,
{
    if n > 0 {
        lemma_known_total_zero(ps, n - 1);
    }
}

proof fn lemma_counter_sum(lr: LicenseReport, ps: Seq<MyProject>, n: int)
    requires
        license_report_of(lr, ps),
        0 <= n <= known_licenses().len(),
    ensures
        counter_sum(lr.licenses@, n) == known_total(ps, n),
    decreases n,
{
    if n > 0 {
        lemma_counter_sum(lr, ps, n - 1);
        assert(lr.licenses@[n - 1].1 == license_members(
            ps,
            Some(LicenseBucket::Known((n - 1) as usize)),
        ).len());
    }
}

/// Every record falls into exactly one license bucket: the known-license
/// counters, the no-license, bad-license and long-license counts add up to
/// the number of records.
pub proof fn law_license_counts_partition(lr: LicenseReport, ps: Seq<MyProject>)
    requires
        license_report_of(lr, ps),
    ensures
        lr.no_license_count + lr.bad_license_count + lr.long_license_count + counter_sum(
            lr.licenses@,
            lr.licenses@.len() as int,
        ) == ps.len(),
{
    lemma_license_partition(ps);
    lemma_counter_sum(lr, ps, known_licenses().len() as int);
}

/// The page of recent records and every exemplar list hold at most
/// `PAGE_SIZE` records, however many records a bucket counts.
pub proof fn law_exemplars_capped(r: Report, s: Seq<MyProject>)
    requires
        report_of(r, s),
    ensures
        r.projects@.len() <= PAGE_SIZE,
        r.license.no_license@.len() <= PAGE_SIZE,
        r.license.bad_license@.len() <= PAGE_SIZE,
        r.license.long_license@.len() <= PAGE_SIZE,
        r.vcs.no_vcs@.len() <= PAGE_SIZE,
        r.vcs.bad_vcs@.len() <= PAGE_SIZE,
        r.vcs.github_projects@.len() <= PAGE_SIZE,
        r.vcs.gitlab_projects@.len() <= PAGE_SIZE,
        r.vcs.has_github_actions@.len() <= PAGE_SIZE,
        r.vcs.no_github_actions@.len() <= PAGE_SIZE,
        r.vcs.has_gitlab_pipeline@.len() <= PAGE_SIZE,
        r.vcs.no_gitlab_pipeline@.len() <= PAGE_SIZE,
{
}

} // verus!
