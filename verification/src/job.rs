//! A download bound to its template: where its places are, which commands
//! its steps run, and what it ended with.
//!
//! Every template can be given a download, also one whose repository is not
//! registered: such a download still finds a cache entry that is there, and
//! fails only where it would have to fetch.

use vstd::prelude::*;
use vstd::string::StringExecFns;
use crate::config::{strings_view, Repo, RepoView, Template};
use crate::download::{Download, Event, Failure, Phase, Place, RetryPolicy};
use crate::error::{CheckoutStep, EntryKind, Error, ErrorView};
use crate::manager::{lemma_first_repo, TemplateManager};
use crate::paths::{Location, LocationView};

verus! {

/// One argument of a command.
#[derive(Debug, PartialEq, Eq)]
pub enum Arg {
    /// The text as it stands.
    Text(String),
    /// The path of the working directory of the checkout.
    TempDir,
}

/// What an `Arg` is.
pub enum ArgView {
    Text(Seq<char>),
    TempDir,
}

impl View for Arg {
    type V = ArgView;

    open spec fn view(&self) -> ArgView {
        match *self {
            Arg::Text(t) => ArgView::Text(t@),
            Arg::TempDir => ArgView::TempDir,
        }
    }
}

/// A command for the version-control client `git`.
#[derive(Debug, PartialEq, Eq)]
pub struct GitCommand {
    pub args: Vec<Arg>,
    /// Whether the command runs in the working directory of the checkout.
    pub in_temp_dir: bool,
    /// The time the command may take, in seconds.
    pub timeout_secs: u64,
}

/// What a `GitCommand` is.
pub struct GitCommandView {
    pub args: Seq<ArgView>,
    pub in_temp_dir: bool,
    pub timeout_secs: u64,
}

/// The views of a sequence of arguments, in order.
pub open spec fn args_view(v: Seq<Arg>) -> Seq<ArgView> {
    v.map_values(|a: Arg| a@)
}

impl View for GitCommand {
    type V = GitCommandView;

    open spec fn view(&self) -> GitCommandView {
        GitCommandView {
            args: args_view(self.args@),
            in_temp_dir: self.in_temp_dir,
            timeout_secs: self.timeout_secs,
        }
    }
}

/// The download of one template from its repository into the cache under
/// `cache_dir`.
#[derive(Debug, PartialEq, Eq)]
pub struct DownloadJob {
    pub template: Template,
    /// The template's repository, if it is registered.
    pub repo: Option<Repo>,
    pub cache_dir: Location,
    pub run: Download,
}

/// The view of an optional repository.
pub open spec fn opt_repo_view(repo: Option<Repo>) -> Option<RepoView> {
    match repo {
        Some(r) => Some(r@),
        None => None,
    }
}

/// The name of the working directory of a checkout of the repository `name`.
pub open spec fn temp_name(name: Seq<char>) -> Seq<char> {
    "temp_"@ + name
}

/// An argument that is text.
pub open spec fn text(t: Seq<char>) -> ArgView {
    ArgView::Text(t)
}

impl DownloadJob {
    /// The path of a place of this download.
    pub open spec fn path_spec(self, place: Place) -> LocationView {
        let root = self.cache_dir@;
        match place {
            Place::CacheEntry => root.join(seq![self.template@.repo, self.template@.id]),
            Place::CacheParent => root.join(seq![self.template@.repo]),
            Place::TempDir => root.join(seq![temp_name(self.template@.repo)]),
            Place::Source => root.join(
                seq![temp_name(self.template@.repo), self.template@.path],
            ),
        }
    }

    /// The command that a step of the checkout runs in the repository given.
    pub open spec fn command_in(self, repo: RepoView, step: CheckoutStep) -> GitCommandView {
        match step {
            CheckoutStep::Clone => GitCommandView {
                args: seq![
                    text("clone"@),
                    text("--no-checkout"@),
                    text("--filter=blob:none"@),
                    text("--sparse"@),
                    text(repo.url),
                    ArgView::TempDir,
                ],
                in_temp_dir: false,
                timeout_secs: 300,
            },
            CheckoutStep::SparseSet => GitCommandView {
                args: seq![text("sparse-checkout"@), text("set"@), text(self.template@.path)],
                in_temp_dir: true,
                timeout_secs: 60,
            },
            CheckoutStep::Checkout => GitCommandView {
                args: seq![text("checkout"@), text(repo.branch)],
                in_temp_dir: true,
                timeout_secs: 120,
            },
        }
    }

    /// The command that a step of the checkout runs: none where the
    /// template's repository is not registered.
    pub open spec fn command_spec(self, step: CheckoutStep) -> Option<GitCommandView> {
        match self.repo {
            Some(repo) => Some(self.command_in(repo@, step)),
            None => None,
        }
    }

    /// The error that a failure of this download is reported as.
    pub open spec fn error_spec(self, failure: Failure) -> ErrorView {
        match failure {
            Failure::Io(place, cause) => ErrorView::IoError {
                location: self.path_spec(place),
                cause: cause@,
            },
            Failure::Spawn(step, cause) => ErrorView::IoError {
                location: LocationView::of(seq!["git"@]),
                cause: cause@,
            },
            Failure::Process(step, status) => ErrorView::ProcessFailed { step, status },
            Failure::Timeout(step) => ErrorView::Timeout { step },
            Failure::PathNotFound => ErrorView::PathNotFound { path: self.template@.path },
            Failure::NoRepository => ErrorView::NotFound {
                kind: EntryKind::Repository,
                key: self.template@.repo,
            },
        }
    }

    /// The outcome of a download that is over: the error, if there was one.
    pub open spec fn outcome(self) -> Option<ErrorView> {
        match self.run.failure {
            None => None,
            Some(failure) => Some(self.error_spec(failure)),
        }
    }

    /// The path of a place of this download.
    pub fn path_of(&self, place: Place) -> (r: Location)
        ensures
            r@ == self.path_spec(place),
    {
        let root = self.cache_dir.clone();
        let out = match place {
            Place::CacheEntry => root.join(self.template.repo.clone()).join(
                self.template.id.clone(),
            ),
            Place::CacheParent => root.join(self.template.repo.clone()),
            Place::TempDir => root.join(
                String::from_str("temp_").concat(self.template.repo.as_str()),
            ),
            Place::Source => root.join(
                String::from_str("temp_").concat(self.template.repo.as_str()),
            ).join(self.template.path.clone()),
        };
        assert(out@.parts =~= self.path_spec(place).parts);
        out
    }

    /// The command that a step of the checkout runs: none where the
    /// template's repository is not registered.
    pub fn command(&self, step: CheckoutStep) -> (r: Option<GitCommand>)
        ensures
            match self.command_spec(step) {
                Some(c) => r is Some && r->Some_0@ == c,
                None => r is None,
            },
    {
        let repo = match &self.repo {
            Some(repo) => repo,
            None => {
                return None;
            },
        };
        let mut args: Vec<Arg> = Vec::new();
        match step {
            CheckoutStep::Clone => {
                args.push(Arg::Text(String::from_str("clone")));
                args.push(Arg::Text(String::from_str("--no-checkout")));
                args.push(Arg::Text(String::from_str("--filter=blob:none")));
                args.push(Arg::Text(String::from_str("--sparse")));
                args.push(Arg::Text(repo.url.clone()));
                args.push(Arg::TempDir);
            },
            CheckoutStep::SparseSet => {
                args.push(Arg::Text(String::from_str("sparse-checkout")));
                args.push(Arg::Text(String::from_str("set")));
                args.push(Arg::Text(self.template.path.clone()));
            },
            CheckoutStep::Checkout => {
                args.push(Arg::Text(String::from_str("checkout")));
                args.push(Arg::Text(repo.branch.clone()));
            },
        }
        assert(args_view(args@) =~= self.command_in(repo@, step).args);
        let in_temp_dir = match step {
            CheckoutStep::Clone => false,
            _ => true,
        };
        Some(GitCommand { args, in_temp_dir, timeout_secs: step.timeout_secs() })
    }

    /// What the download ended with, once it is over.
    pub fn result(&self) -> (r: Option<Result<(), Error>>)
        ensures
            r is Some <==> self.run.finished(),
            self.run.finished() ==> match self.run.failure {
                None => r == Some(Ok::<(), Error>(())),
                Some(failure) => r->Some_0 is Err && r->Some_0->Err_0@ == self.error_spec(failure),
            },
    {
        if !self.run.is_finished() {
            return None;
        }
        match &self.run.failure {
            None => Some(Ok(())),
            Some(failure) => {
                let error = match failure {
                    Failure::Io(place, cause) => Error::IoError {
                        location: self.path_of(*place),
                        cause: cause.clone(),
                    },
                    Failure::Spawn(step, cause) => {
                        let mut parts: Vec<String> = Vec::new();
                        parts.push(String::from_str("git"));
                        assert(strings_view(parts@) =~= seq!["git"@]);
                        Error::IoError { location: Location::of(parts), cause: cause.clone() }
                    },
                    Failure::Process(step, status) => Error::ProcessFailed {
                        step: *step,
                        status: *status,
                    },
                    Failure::Timeout(step) => Error::Timeout { step: *step },
                    Failure::PathNotFound => Error::PathNotFound {
                        path: self.template.path.clone(),
                    },
                    Failure::NoRepository => Error::NotFound {
                        kind: EntryKind::Repository,
                        key: self.template.repo.clone(),
                    },
                };
                Some(Err(error))
            },
        }
    }
}

impl TemplateManager {
    /// The first repository that the template is bound to, if there is one.
    pub open spec fn repo_of(self, template: Template) -> Option<RepoView> {
        match self.config@.repo_index(template@.repo) {
            Some(i) => Some(self.config@.repos[i]),
            None => None,
        }
    }

    /// Whether `job` is a download of `template` as this manager prepares
    /// it: with the template's repository, if that is registered, and with
    /// the manager's cache.
    pub open spec fn prepares(self, job: DownloadJob, template: Template) -> bool {
        &&& job.template@ == template@
        &&& opt_repo_view(job.repo) == self.repo_of(template)
        &&& job.cache_dir@ == self.cache_root()
        &&& job.run.registered == self.config@.has_repo(template@.repo)
    }

    /// The skip check comes first. A download that this manager prepared,
    /// once told whether the cache entry exists, is over with success where
    /// the entry exists and the download is not forced, whether or not the
    /// template's repository is registered. Otherwise, where the repository
    /// is not registered, it is over with that error, and has asked for
    /// nothing that changes the file system. Otherwise the checkout begins.
    pub proof fn law_skip_check_comes_first(self, job: DownloadJob, template: Template, found: bool)
        requires
            self.prepares(job, template),
            job.run == Download::initial(job.run.force, job.run.policy, job.run.registered),
        ensures
            !job.run.pending_spec().mutates(),
            ({
                let moved = DownloadJob { run: job.run.next(Event::Exists(found)), ..job };
                if found && !job.run.force {
                    moved.run.finished() && moved.outcome() is None
                } else if !self.config@.has_repo(template@.repo) {
                    moved.run.finished() && moved.outcome() == Some(
                        ErrorView::NotFound { kind: EntryKind::Repository, key: template@.repo },
                    )
                } else {
                    moved.run.phase == Phase::ProbeStaleTemp && moved.run.failure is None
                }
            }),
    {
    }

    /// Prepares the download of `template` with the retry policy given. The
    /// download has not asked for anything yet. It can be prepared for every
    /// template: whether the template's repository is registered matters
    /// only once the download has found that it has to fetch.
    pub fn download_template_with(
        &self,
        template: &Template,
        force: bool,
        policy: RetryPolicy,
    ) -> (r: DownloadJob)
        ensures
            self.prepares(r, *template),
            r.run == Download::initial(force, policy, self.config@.has_repo(template@.repo)),
    {
        proof {
            lemma_first_repo(self.config@.repos, template@.repo);
        }
        let repo = match self.get_repo_by_name(template.repo.as_str()) {
            None => None,
            Some(repo) => Some(repo.clone()),
        };
        let registered = repo.is_some();
        DownloadJob {
            template: template.clone(),
            repo,
            cache_dir: self.cache_dir.clone(),
            run: Download::start(force, policy, registered),
        }
    }

    /// Prepares the download of `template`, with three tries for each removal
    /// and half a second between them.
    pub fn download_template(&self, template: &Template, force: bool) -> (r: DownloadJob)
        ensures
            self.prepares(r, *template),
            r.run == Download::initial(
                force,
                RetryPolicy { attempts: 3, backoff_ms: 500 },
                self.config@.has_repo(template@.repo),
            ),
    {
        self.download_template_with(template, force, RetryPolicy::standard())
    }
}

} // verus!
