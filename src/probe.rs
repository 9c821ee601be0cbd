//! Repository probing: host classification of a repository URL and the
//! decisions of a probe run.

use vstd::prelude::*;

use crate::record::MyProject;
use crate::resolve::repository_url_of;

verus! {

/// The hosting platform of a repository URL.
#[derive(Debug, Clone, Copy, PartialEq, Eq, Structural)]
pub enum RepoHost {
    GitHub,
    GitLab,
    /// A recognized repository URL on another platform.
    Other,
    /// A URL that is no recognized repository URL.
    Unrecognized,
}

/// What git-digger makes of a URL: its host, or no recognized repository.
pub uninterp spec fn repo_host_of(url: Seq<char>) -> RepoHost;

/// Relies on `git_digger::Repository::from_url`, with `is_github` and
/// `is_gitlab` on its result, which depend on the URL alone.
#[verifier::external_body]
pub(crate) fn classify_host(url: &str) -> (r: RepoHost)
    ensures
        r == repo_host_of(url@),
{
    match git_digger::Repository::from_url(url) {
        Err(_) => RepoHost::Unrecognized,
        Ok(repo) => if repo.is_github() {
            RepoHost::GitHub
        } else if repo.is_gitlab() {
            RepoHost::GitLab
        } else {
            RepoHost::Other
        },
    }
}


/// The next step of a probe, which the caller performs.
#[derive(Debug, Clone, Copy, PartialEq, Eq, Structural)]
pub enum ProbeAction {
    /// The probe is over.
    Finish,
    /// Check that the repository URL answers, without a checkout.
    VerifyUrl,
    /// Make a shallow checkout into a scoped temporary directory.
    Checkout,
    /// Look for workflow definitions and a dependency-update-bot
    /// configuration in the GitHub checkout.
    InspectGitHub,
    /// Look for a pipeline configuration in the GitLab checkout.
    InspectGitLab,
}

/// What the caller found when it performed a step.
#[derive(Debug, Clone, Copy, PartialEq, Eq, Structural)]
pub enum ProbeEvent {
    UrlChecked(bool),
    CheckedOut(bool),
    GitHubInspected { workflows: bool, dependabot: bool },
    GitLabInspected { pipeline: bool },
}

/// `a` is `b` with the CI flags of a first look at `host`: `false` for each
/// flag the host has, the rest untouched.
pub open spec fn baseline_of(b: MyProject, host: RepoHost) -> MyProject {
    match host {
        RepoHost::GitHub => MyProject {
            has_github_actions: Some(false),
            has_dependabot: Some(false),
            ..b
        },
        RepoHost::GitLab => MyProject { has_gitlab_pipeline: Some(false), ..b },
        _ => b,
    }
}

/// Starts probing a record: classifies the host of its repository URL and
/// sets the flags of a GitHub or GitLab host to `false`. Returns the URL and
/// host to verify, or `None` where there is nothing to probe.
pub fn begin_probe(project: &mut MyProject) -> (r: Option<(String, RepoHost)>)
    ensures
        match repository_url_of(*old(project)) {
            None => r is None && *final(project) == *old(project),
            Some(u) => {
                let host = repo_host_of(u);
                &&& *final(project) == baseline_of(*old(project), host)
                &&& (host == RepoHost::GitHub || host == RepoHost::GitLab) ==> (r matches Some(x)
                    && x.0@ == u && x.1 == host)
                &&& !(host == RepoHost::GitHub || host == RepoHost::GitLab) ==> r is None
            },
        },
{
    let url = match project.get_repository_url() {
        None => {
            return None;
        },
        Some(u) => u,
    };
    let host = classify_host(url.as_str());
    match host {
        RepoHost::GitHub => {
            project.has_github_actions = Some(false);
            project.has_dependabot = Some(false);
            Some((url, host))
        },
        RepoHost::GitLab => {
            project.has_gitlab_pipeline = Some(false);
            Some((url, host))
        },
        _ => None,
    }
}

/// The step after `event` on a repository at `host`, and the flags it sets.
pub open spec fn step_of(p: MyProject, host: RepoHost, event: ProbeEvent) -> (MyProject, ProbeAction) {
    match event {
        ProbeEvent::UrlChecked(ok) => (p, if ok {
            ProbeAction::Checkout
        } else {
            ProbeAction::Finish
        }),
        ProbeEvent::CheckedOut(ok) => (p, if !ok {
            ProbeAction::Finish
        } else if host == RepoHost::GitHub {
            ProbeAction::InspectGitHub
        } else if host == RepoHost::GitLab {
            ProbeAction::InspectGitLab
        } else {
            ProbeAction::Finish
        }),
        ProbeEvent::GitHubInspected { workflows, dependabot } => (
            MyProject {
                has_github_actions: if workflows {
                    Some(true)
                } else {
                    p.has_github_actions
                },
                has_dependabot: if dependabot {
                    Some(true)
                } else {
                    p.has_dependabot
                },
                ..p
            },
            ProbeAction::Finish,
        ),
        ProbeEvent::GitLabInspected { pipeline } => (
            MyProject {
                has_gitlab_pipeline: if pipeline {
                    Some(true)
                } else {
                    p.has_gitlab_pipeline
                },
                ..p
            },
            ProbeAction::Finish,
        ),
    }
}

/// Takes what the caller found and decides the next step of the probe of a
/// repository at `host`: a failed check or checkout ends it with the flags
/// as they are; a finding turns its flag to `true`.
pub fn probe_step(project: &mut MyProject, host: RepoHost, event: ProbeEvent) -> (a: ProbeAction)
    ensures
        (*final(project), a) == step_of(*old(project), host, event),
{
    match event {
        ProbeEvent::UrlChecked(ok) => if ok {
            ProbeAction::Checkout
        } else {
            ProbeAction::Finish
        },
        ProbeEvent::CheckedOut(ok) => if !ok {
            ProbeAction::Finish
        } else {
            match host {
                RepoHost::GitHub => ProbeAction::InspectGitHub,
                RepoHost::GitLab => ProbeAction::InspectGitLab,
                _ => ProbeAction::Finish,
            }
        },
        ProbeEvent::GitHubInspected { workflows, dependabot } => {
            if workflows {
                project.has_github_actions = Some(true);
            }
            if dependabot {
                project.has_dependabot = Some(true);
            }
            ProbeAction::Finish
        },
        ProbeEvent::GitLabInspected { pipeline } => {
            if pipeline {
                project.has_gitlab_pipeline = Some(true);
            }
            ProbeAction::Finish
        },
    }
}

} // verus!
