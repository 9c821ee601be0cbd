//! Ingestion decisions: reading feed entries, the freshness gate, run
//! statistics and where records are stored.

use vstd::prelude::*;
use vstd::string::*;

use crate::record::opt_view;
use crate::text::{lower_of, lowercase};

verus! {

/// One announcement of the package index's update feed.
#[derive(Debug, Clone)]
pub struct FeedEntry {
    pub title: Option<String>,
    pub link: Option<String>,
    /// The publication date as the feed writes it (RFC 2822).
    pub pub_date: Option<String>,
}

/// A feed entry as characters: title, link and publication date.
pub open spec fn entry_view(e: FeedEntry) -> (Option<Seq<char>>, Option<Seq<char>>, Option<Seq<char>>) {
    (opt_view(e.title), opt_view(e.link), opt_view(e.pub_date))
}

/// What the rss crate reads from a document: its items' titles, links and
/// publication dates, or nothing where the document is no RSS channel.
pub uninterp spec fn feed_items_of(xml: Seq<char>) -> Option<
    Seq<(Option<Seq<char>>, Option<Seq<char>>, Option<Seq<char>>)>,
>;

/// Relies on `rss::Channel::read_from` with `items`, and on the `title`,
/// `link` and `pub_date` of each item; all depend on the document alone.
#[verifier::external_body]
fn read_channel(xml: &str) -> (r: Result<Vec<FeedEntry>, String>)
    ensures
        r is Ok <==> feed_items_of(xml@) is Some,
        r matches Ok(v) ==> v@.map_values(|e: FeedEntry| entry_view(e)) == feed_items_of(xml@)->0,
{
    match rss::Channel::read_from(xml.as_bytes()) {
        Ok(channel) => Ok(channel.items().iter().map(|i| FeedEntry {
            title: i.title().map(String::from),
            link: i.link().map(String::from),
            pub_date: i.pub_date().map(String::from),
        }).collect()),
        Err(e) => Err(e.to_string()),
    }
}

/// Reads the entries of an RSS document, in feed order; the error describes
/// why the document could not be read.
pub fn parse_rss_from_str(rss_str: &str) -> (r: Result<Vec<FeedEntry>, String>)
    ensures
        r is Ok <==> feed_items_of(rss_str@) is Some,
        r matches Ok(v) ==> v@.map_values(|e: FeedEntry| entry_view(e)) == feed_items_of(
            rss_str@,
        )->0,
{
    read_channel(rss_str)
}

/// The part of a project link before the package name.
pub open spec fn link_prefix() -> Seq<char> {
    "https://pypi.org/project/"@
}

/// The first position at or after `i` that holds a slash, or the end.
pub open spec fn seg_end(s: Seq<char>, i: int) -> int
    decreases s.len() - i,
{
    if i >= s.len() || i < 0 {
        s.len() as int
    } else if s[i] == '/' {
        i
    } else {
        seg_end(s, i + 1)
    }
}

/// Where the package name of a link matched at `p` starts.
pub open spec fn name_start(p: int) -> int {
    p + link_prefix().len()
}

/// A project link starts at `p`: the prefix, a non-empty name, a slash and a
/// non-empty version.
pub open spec fn link_match_at(s: Seq<char>, p: int) -> bool {
    let a = name_start(p);
    let e = seg_end(s, a);
    &&& 0 <= p
    &&& a <= s.len()
    &&& s.subrange(p, a) == link_prefix()
    &&& a < e < s.len()
    &&& e + 1 < seg_end(s, e + 1)
}

/// The package name of a link matched at `p`.
pub open spec fn name_at(s: Seq<char>, p: int) -> Seq<char> {
    s.subrange(name_start(p), seg_end(s, name_start(p)))
}

/// The version of a link matched at `p`.
pub open spec fn version_at(s: Seq<char>, p: int) -> Seq<char> {
    let e = seg_end(s, name_start(p));
    s.subrange(e + 1, seg_end(s, e + 1))
}

/// Whether `pat` occurs in `s` at position `p`.
fn occurs_at(s: &str, n: usize, p: usize, pat: &str) -> (r: bool)
    requires
        n == s@.len(),
        p <= n,
    ensures
        r == (p + pat@.len() <= n && s@.subrange(p as int, p + pat@.len()) == pat@),
{
    let m = pat.unicode_len();
    if m > n - p {
        return false;
    }
    let mut k: usize = 0;
    while k < m
        invariant
            m == pat@.len(),
            n == s@.len(),
            p + m <= n,
            k <= m,
            forall|j: int| 0 <= j < k ==> s@[p + j] == pat@[j],
        decreases m - k,
    {
        if s.get_char(p + k) != pat.get_char(k) {
            assert(s@.subrange(p as int, p + m)[k as int] != pat@[k as int]);
            return false;
        }
        k = k + 1;
    }
    assert(s@.subrange(p as int, p + m) =~= pat@);
    true
}

/// The first slash at or after `i`, or the end.
fn find_seg_end(s: &str, n: usize, i: usize) -> (r: usize)
    requires
        n == s@.len(),
        i <= n,
    ensures
        r == seg_end(s@, i as int),
        i <= r <= n,
{
    let mut j = i;
    while j < n && s.get_char(j) != '/'
        invariant
            n == s@.len(),
            i <= j <= n,
            seg_end(s@, i as int) == seg_end(s@, j as int),
        decreases n - j,
    {
        j = j + 1;
    }
    j
}

/// The name and version of the first project link in `link`, a link of the
/// form `https://pypi.org/project/NAME/VERSION/` (the last slash optional).
pub fn extract_name_version(link: &str) -> (r: Option<(String, String)>)
    ensures
        r is None ==> forall|p: int| !link_match_at(link@, p),
        r matches Some(nv) ==> exists|p: int|
            {
                &&& link_match_at(link@, p)
                &&& forall|q: int| q < p ==> !link_match_at(link@, q)
                &&& nv.0@ == name_at(link@, p)
                &&& nv.1@ == version_at(link@, p)
            },
{
    proof {
        reveal_strlit("https://pypi.org/project/");
    }
    let prefix = "https://pypi.org/project/";
    assert(prefix@.len() == 25);
    let n = link.unicode_len();
    let mut p: usize = 0;
    while p < n
        invariant
            n == link@.len(),
            prefix@.len() == 25,
            prefix@ == link_prefix(),
            forall|q: int| q < p ==> !link_match_at(link@, q),
        decreases n - p,
    {
        if occurs_at(link, n, p, prefix) {
            let a = p + 25;
            let e = find_seg_end(link, n, a);
            if a < e && e < n {
                let e2 = find_seg_end(link, n, e + 1);
                if e + 1 < e2 {
                    let name = link.substring_char(a, e);
                    let version = link.substring_char(e + 1, e2);
                    assert(link_match_at(link@, p as int));
                    assert(name@ == name_at(link@, p as int));
                    assert(version@ == version_at(link@, p as int));
                    return Some((String::from_str(name), String::from_str(version)));
                }
            }
        }
        p = p + 1;
    }
    assert forall|q: int| !link_match_at(link@, q) by {
        if q >= n {
            assert(name_start(q) > link@.len());
        }
    }
    None
}


/// What chrono reads from an RFC 2822 date: its Unix epoch seconds, or
/// nothing where the text is no such date.
pub uninterp spec fn rfc2822_seconds(s: Seq<char>) -> Option<i64>;

/// Relies on `chrono::DateTime::parse_from_rfc2822` and `DateTime::timestamp`:
/// the instant a date names, in seconds, depends on the text alone.
#[verifier::external_body]
fn parse_rfc2822(s: &str) -> (r: Option<i64>)
    ensures
        r == rfc2822_seconds(s@),
{
    chrono::DateTime::parse_from_rfc2822(s).ok().map(|d| d.timestamp())
}

/// How the processing of one feed entry ended.
#[derive(Debug, Clone, Copy, PartialEq, Eq, Structural)]
pub enum Status {
    /// Processed and saved.
    Success,
    /// The publication date is there but unreadable.
    DateError,
    /// The entry has no publication date.
    MissingDateError,
    /// The stored record is already current.
    Skipping,
}

/// Whether a feed entry goes on to full processing.
#[derive(Debug, Clone, Copy, PartialEq, Eq, Structural)]
pub enum Gate {
    Proceed,
    Skip,
}

/// The freshness gate: skip where a stored record is at least as recent as
/// the entry.
pub open spec fn gate_of(stored: Option<i64>, entry_pub_date: i64) -> Gate {
    match stored {
        Some(t) => if t >= entry_pub_date {
            Gate::Skip
        } else {
            Gate::Proceed
        },
        None => Gate::Proceed,
    }
}

/// Decides whether a feed entry dated `entry_pub_date` is processed, given
/// the date of the stored record of its package, if there is one.
pub fn freshness_gate(stored: Option<i64>, entry_pub_date: i64) -> (g: Gate)
    ensures
        g == gate_of(stored, entry_pub_date),
{
    match stored {
        Some(t) => if t >= entry_pub_date {
            Gate::Skip
        } else {
            Gate::Proceed
        },
        None => Gate::Proceed,
    }
}

/// A stored record dated `t` is current for an entry of the same date, and
/// not for an entry one second later; with no stored record every entry
/// proceeds.
pub proof fn law_freshness_boundary(t: i64)
    ensures
        gate_of(Some(t), t) == Gate::Skip,
        t < i64::MAX ==> gate_of(Some(t), (t + 1) as i64) == Gate::Proceed,
        gate_of(None, t) == Gate::Proceed,
{
}

/// What to do with a feed entry before anything is fetched.
#[derive(Debug)]
pub enum EntryPlan {
    /// Processing ends here with this status.
    Done(Status),
    /// The entry has no link: it is abandoned.
    NoLink,
    /// Look up the stored record of `name` and pass the entry's date through
    /// the freshness gate.
    Lookup { name: String, version: String, pub_date: i64 },
}

/// The plan for a feed entry: its date first (missing, then unreadable), then
/// its link; a link that names no project is done as a success.
pub fn plan_entry(entry: &FeedEntry) -> (r: EntryPlan)
    ensures
        entry.pub_date is None ==> r == EntryPlan::Done(Status::MissingDateError),
        entry.pub_date matches Some(d) ==> {
            match rfc2822_seconds(d@) {
                None => r == EntryPlan::Done(Status::DateError),
                Some(t) => match entry.link {
                    None => r == EntryPlan::NoLink,
                    Some(l) => if forall|p: int| !link_match_at(l@, p) {
                        r == EntryPlan::Done(Status::Success)
                    } else {
                        r matches EntryPlan::Lookup { name, version, pub_date } && pub_date == t
                            && exists|p: int|
                            {
                                &&& link_match_at(l@, p)
                                &&& forall|q: int| q < p ==> !link_match_at(l@, q)
                                &&& name@ == name_at(l@, p)
                                &&& version@ == version_at(l@, p)
                            }
                    },
                },
            }
        },
{
    let date = match &entry.pub_date {
        None => {
            return EntryPlan::Done(Status::MissingDateError);
        },
        Some(d) => d,
    };
    let pub_date = match parse_rfc2822(date.as_str()) {
        None => {
            return EntryPlan::Done(Status::DateError);
        },
        Some(t) => t,
    };
    let link = match &entry.link {
        None => {
            return EntryPlan::NoLink;
        },
        Some(l) => l,
    };
    match extract_name_version(link.as_str()) {
        None => EntryPlan::Done(Status::Success),
        Some((name, version)) => EntryPlan::Lookup { name, version, pub_date },
    }
}

/// The statistics of one ingestion run.
#[derive(Debug, Clone)]
pub struct CollectStats {
    /// Unix epoch seconds when the run started.
    pub start_date: i64,
    /// How many entries the feed held.
    pub projects_in_rss: u32,
    pub downloaded_projects: u32,
    /// Entries with a missing or unreadable date, or abandoned on an error.
    pub error_projects: u32,
    pub skipped_projects: u32,
    /// Seconds the run took.
    pub elapsed_time: i64,
}

impl CollectStats {
    /// How many entries the run has accounted for.
    pub open spec fn tallied(&self) -> int {
        self.downloaded_projects + self.error_projects + self.skipped_projects
    }

    /// The statistics of a run that starts at `start_date` on a feed of
    /// `projects_in_rss` entries.
    pub fn new(start_date: i64, projects_in_rss: u32) -> (r: CollectStats)
        ensures
            r.start_date == start_date,
            r.projects_in_rss == projects_in_rss,
            r.downloaded_projects == 0,
            r.error_projects == 0,
            r.skipped_projects == 0,
            r.elapsed_time == 0,
    {
        CollectStats {
            start_date,
            projects_in_rss,
            downloaded_projects: 0,
            error_projects: 0,
            skipped_projects: 0,
            elapsed_time: 0,
        }
    }

    /// Counts the status of one visited entry.
    pub fn record(&mut self, status: Status)
        requires
            old(self).tallied() < u32::MAX,
        ensures
            final(self).start_date == old(self).start_date,
            final(self).projects_in_rss == old(self).projects_in_rss,
            final(self).elapsed_time == old(self).elapsed_time,
            final(self).downloaded_projects == old(self).downloaded_projects + (if status
                == Status::Success {
                1int
            } else {
                0
            }),
            final(self).error_projects == old(self).error_projects + (if status == Status::DateError
                || status == Status::MissingDateError {
                1int
            } else {
                0
            }),
            final(self).skipped_projects == old(self).skipped_projects + (if status
                == Status::Skipping {
                1int
            } else {
                0
            }),
            final(self).tallied() == old(self).tallied() + 1,
    {
        match status {
            Status::Success => self.downloaded_projects = self.downloaded_projects + 1,
            Status::DateError => self.error_projects = self.error_projects + 1,
            Status::MissingDateError => self.error_projects = self.error_projects + 1,
            Status::Skipping => self.skipped_projects = self.skipped_projects + 1,
        }
    }

    /// Counts a visited entry that was abandoned on an error (no link, or a
    /// failed fetch).
    pub fn record_failure(&mut self)
        requires
            old(self).tallied() < u32::MAX,
        ensures
            *final(self) == (CollectStats { error_projects: (old(self).error_projects + 1) as u32, ..*old(self) }),
            final(self).tallied() == old(self).tallied() + 1,
    {
        self.error_projects = self.error_projects + 1;
    }

    /// Sets how many seconds the run took.
    pub fn finish(&mut self, elapsed_time: i64)
        ensures
            *final(self) == (CollectStats { elapsed_time, ..*old(self) }),
    {
        self.elapsed_time = elapsed_time;
    }
}

/// How much the run logs.
#[derive(Debug, Clone, Copy, PartialEq, Eq, Structural)]
pub enum LogLevel {
    Trace,
    Debug,
    Info,
    Warn,
    Error,
}

/// The run's options.
#[derive(Debug, Clone)]
pub struct Args {
    /// Visit at most this many feed entries.
    pub limit: Option<usize>,
    /// Generate a report from the stored records.
    pub report: bool,
    /// Ingest the feed.
    pub download: bool,
    pub log: Option<LogLevel>,
}

impl Args {
    /// How many of `available` feed entries the run visits: all, or the
    /// first `limit` of them.
    pub fn entries_to_visit(&self, available: usize) -> (r: usize)
        ensures
            r == (match self.limit {
                Some(l) => if l < available {
                    l
                } else {
                    available
                },
                None => available,
            }),
    {
        match self.limit {
            Some(l) => if l < available {
                l
            } else {
                available
            },
            None => available,
        }
    }
}

/// The directory under which records are stored.
pub open spec fn pypi_path() -> Seq<char> {
    "data/pypi"@
}

/// The directory of the record of `name`: sharded by the first two
/// characters of the lowercased name where it is longer than two.
pub open spec fn project_dir(name: Seq<char>) -> Seq<char> {
    let l = lower_of(name);
    if l.len() > 2 {
        pypi_path() + "/"@ + l.take(2)
    } else {
        pypi_path()
    }
}

/// The directory under which records are stored.
pub fn get_pypi_path() -> (r: String)
    ensures
        r@ == pypi_path(),
{
    String::from_str("data/pypi")
}

/// The directory that holds the record of the package `name`.
pub fn get_pypi_project_path(name: &str) -> (r: String)
    ensures
        r@ == project_dir(name@),
{
    let dir = get_pypi_path();
    let lower = lowercase(name);
    if lower.as_str().unicode_len() > 2 {
        let first_two = lower.as_str().substring_char(0, 2);
        assert(first_two@ == lower@.take(2));
        dir.concat("/").concat(first_two)
    } else {
        dir
    }
}

/// The file that holds the record of the package `name`.
pub fn get_pypi_project_file(name: &str) -> (r: String)
    ensures
        r@ == project_dir(name@) + "/"@ + name@ + ".json"@,
{
    get_pypi_project_path(name).concat("/").concat(name).concat(".json")
}

} // verus!
