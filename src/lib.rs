//! Incremental ingestion of package-index metadata, resolution of each
//! package's canonical source-control identity, repository probing, and a
//! bucketed summary report.

pub mod ingest;
pub mod probe;
pub mod record;
pub mod report;
pub mod resolve;
pub mod text;

pub use ingest::{
    extract_name_version, freshness_gate, get_pypi_path, get_pypi_project_file,
    get_pypi_project_path, parse_rss_from_str, plan_entry, Args, CollectStats, EntryPlan,
    FeedEntry, Gate, LogLevel, Status,
};
pub use probe::{begin_probe, probe_step, ProbeAction, ProbeEvent, RepoHost};
pub use record::{Info, MyFilteredProject, MyProject, PyPiProject, UrlInfo, PAGE_SIZE};
pub use report::{
    generate_report, create_license_report, create_vcs_report, license_bucket, LicenseBucket,
    LicenseReport, Report, VCSReport,
};
pub use resolve::analyze_project;
pub use text::{normalize_url, same_text};
