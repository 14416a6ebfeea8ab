use mammoth_cli::config::{Config, Repo, Template};
use mammoth_cli::download::{Action, Download, Event, Failure, Phase, Place, RetryPolicy};
use mammoth_cli::error::{CheckoutStep, EntryKind, Error};
use mammoth_cli::job::{Arg, DownloadJob, GitCommand};
use mammoth_cli::manager::TemplateManager;
use mammoth_cli::paths::Location;

fn s(text: &str) -> String {
    text.to_string()
}

fn strings(items: &[&str]) -> Vec<String> {
    items.iter().map(|s| s.to_string()).collect()
}

fn at(parts: &[&str]) -> Location {
    Location::of(strings(parts))
}

fn ok() -> Event {
    Event::Exited { success: true, status: Some(0) }
}

/// Feeds the events to the download and lists the actions it asked for,
/// the last being the one that is pending after the last event.
fn drive(download: &mut Download, events: Vec<Event>) -> Vec<Action> {
    let mut asked = vec![download.pending()];
    for event in events {
        download.advance(event);
        asked.push(download.pending());
    }
    asked
}

fn manager() -> TemplateManager {
    TemplateManager::from_parts(
        Config {
            repos: vec![Repo {
                name: s("main"),
                url: s("https://example.com/t.git"),
                branch: s("trunk"),
                auth_token: None,
                username: None,
            }],
            templates: vec![template("vue", "main"), template("lost", "gone")],
        },
        strings(&["/home/u/.cache", "mammoth-cli", "templates"]),
    )
}

fn template(id: &str, repo: &str) -> Template {
    Template {
        id: s(id),
        name: s("T"),
        repo: s(repo),
        path: s("templates/vue"),
        description: s("d"),
        language: s("vue"),
        tags: vec![],
    }
}

fn job(force: bool) -> DownloadJob {
    let m = manager();
    m.download_template(&m.config.templates[0], force)
}

#[test]
fn a_cached_template_is_not_downloaded_again() {
    let mut d = Download::start(false, RetryPolicy::standard(), true);
    let asked = drive(&mut d, vec![Event::Exists(true)]);
    assert_eq!(asked, vec![Action::Probe(Place::CacheEntry), Action::Done]);
    assert!(d.is_finished());
    assert_eq!(d.failure, None);
}

#[test]
fn a_second_download_asks_only_whether_the_entry_exists() {
    for _ in 0..2 {
        let mut j = job(false);
        assert_eq!(j.run.pending(), Action::Probe(Place::CacheEntry));
        j.run.advance(Event::Exists(true));
        assert_eq!(j.run.pending(), Action::Done);
        assert_eq!(j.result(), Some(Ok(())));
    }
}

#[test]
fn a_download_into_an_empty_cache_runs_every_step() {
    let mut d = Download::start(false, RetryPolicy::standard(), true);
    let asked = drive(
        &mut d,
        vec![
            Event::Exists(false),
            Event::Exists(false),
            Event::Completed,
            ok(),
            ok(),
            ok(),
            Event::Completed,
            Event::Exists(true),
            Event::Exists(false),
            Event::Completed,
            Event::Exists(true),
            Event::Completed,
        ],
    );
    assert_eq!(
        asked,
        vec![
            Action::Probe(Place::CacheEntry),
            Action::Probe(Place::TempDir),
            Action::CreateDirs(Place::TempDir),
            Action::RunGit(CheckoutStep::Clone),
            Action::RunGit(CheckoutStep::SparseSet),
            Action::RunGit(CheckoutStep::Checkout),
            Action::CreateDirs(Place::CacheParent),
            Action::Probe(Place::Source),
            Action::Probe(Place::CacheEntry),
            Action::CopyTree,
            Action::Probe(Place::TempDir),
            Action::RemoveTree(Place::TempDir),
            Action::Done,
        ]
    );
    assert_eq!(d.failure, None);
}

#[test]
fn a_forced_download_replaces_the_cache_entry() {
    let mut d = Download::start(true, RetryPolicy::standard(), true);
    let asked = drive(
        &mut d,
        vec![
            Event::Exists(true),
            Event::Exists(true),
            Event::Completed,
            Event::Completed,
            ok(),
            ok(),
            ok(),
            Event::Completed,
            Event::Exists(true),
            Event::Exists(true),
            Event::Completed,
            Event::Completed,
            Event::Exists(true),
            Event::Completed,
        ],
    );
    assert_eq!(
        asked,
        vec![
            Action::Probe(Place::CacheEntry),
            Action::Probe(Place::TempDir),
            Action::RemoveTree(Place::TempDir),
            Action::CreateDirs(Place::TempDir),
            Action::RunGit(CheckoutStep::Clone),
            Action::RunGit(CheckoutStep::SparseSet),
            Action::RunGit(CheckoutStep::Checkout),
            Action::CreateDirs(Place::CacheParent),
            Action::Probe(Place::Source),
            Action::Probe(Place::CacheEntry),
            Action::RemoveTree(Place::CacheEntry),
            Action::CopyTree,
            Action::Probe(Place::TempDir),
            Action::RemoveTree(Place::TempDir),
            Action::Done,
        ]
    );
    assert_eq!(d.failure, None);
}

fn at_step(step: CheckoutStep) -> Download {
    Download {
        force: true,
        registered: true,
        policy: RetryPolicy::standard(),
        phase: Phase::Git(step),
        failure: None,
        cleanup_warning: None,
    }
}

#[test]
fn a_timeout_fails_the_step_and_removes_the_working_directory() {
    for step in [CheckoutStep::Clone, CheckoutStep::SparseSet, CheckoutStep::Checkout] {
        let mut d = at_step(step);
        let asked = drive(&mut d, vec![Event::TimedOut, Event::Exists(true), Event::Completed]);
        assert_eq!(
            asked,
            vec![
                Action::RunGit(step),
                Action::Probe(Place::TempDir),
                Action::RemoveTree(Place::TempDir),
                Action::Done,
            ]
        );
        assert_eq!(d.failure, Some(Failure::Timeout(step)));
    }
}

#[test]
fn a_failed_process_is_reported_with_its_status() {
    let mut d = at_step(CheckoutStep::SparseSet);
    drive(
        &mut d,
        vec![Event::Exited { success: false, status: Some(128) }, Event::Exists(false)],
    );
    assert!(d.is_finished());
    assert_eq!(d.failure, Some(Failure::Process(CheckoutStep::SparseSet, Some(128))));
}

#[test]
fn a_client_that_cannot_start_is_reported() {
    let mut d = at_step(CheckoutStep::Clone);
    drive(&mut d, vec![Event::Failed(s("No such file")), Event::Exists(false)]);
    assert!(d.is_finished());
    assert_eq!(d.failure, Some(Failure::Spawn(CheckoutStep::Clone, s("No such file"))));
}

#[test]
fn a_missing_subtree_is_path_not_found() {
    let mut d = Download { phase: Phase::ProbeSource, ..at_step(CheckoutStep::Clone) };
    let asked = drive(&mut d, vec![Event::Exists(false), Event::Exists(true), Event::Completed]);
    assert_eq!(
        asked,
        vec![
            Action::Probe(Place::Source),
            Action::Probe(Place::TempDir),
            Action::RemoveTree(Place::TempDir),
            Action::Done,
        ]
    );
    assert_eq!(d.failure, Some(Failure::PathNotFound));
}

#[test]
fn a_removal_is_tried_three_times_with_pauses() {
    let mut d = Download { phase: Phase::ProbeEntry, ..at_step(CheckoutStep::Clone) };
    let asked = drive(
        &mut d,
        vec![
            Event::Exists(true),
            Event::Failed(s("busy 1")),
            Event::Completed,
            Event::Failed(s("busy 2")),
            Event::Completed,
            Event::Failed(s("busy 3")),
        ],
    );
    assert_eq!(
        asked,
        vec![
            Action::Probe(Place::CacheEntry),
            Action::RemoveTree(Place::CacheEntry),
            Action::Pause(500),
            Action::RemoveTree(Place::CacheEntry),
            Action::Pause(500),
            Action::RemoveTree(Place::CacheEntry),
            Action::Probe(Place::TempDir),
        ]
    );
    assert_eq!(d.failure, Some(Failure::Io(Place::CacheEntry, s("busy 3"))));
}

#[test]
fn a_removal_that_succeeds_on_a_later_try_goes_on() {
    let mut d = Download { phase: Phase::ProbeEntry, ..at_step(CheckoutStep::Clone) };
    let asked = drive(
        &mut d,
        vec![Event::Exists(true), Event::Failed(s("busy")), Event::Completed, Event::Completed],
    );
    assert_eq!(asked.last(), Some(&Action::CopyTree));
    assert_eq!(d.failure, None);
}

#[test]
fn the_policy_sets_tries_and_pause() {
    let policy = RetryPolicy { attempts: 2, backoff_ms: 0 };
    let mut d = Download { policy, phase: Phase::ProbeTemp, ..at_step(CheckoutStep::Clone) };
    let asked = drive(
        &mut d,
        vec![Event::Exists(true), Event::Failed(s("a")), Event::Completed, Event::Failed(s("b"))],
    );
    assert_eq!(
        asked,
        vec![
            Action::Probe(Place::TempDir),
            Action::RemoveTree(Place::TempDir),
            Action::Pause(0),
            Action::RemoveTree(Place::TempDir),
            Action::Done,
        ]
    );
    assert_eq!(d.failure, Some(Failure::Io(Place::TempDir, s("b"))));
    assert_eq!(policy.retries(), 1);
    assert_eq!(RetryPolicy { attempts: 0, backoff_ms: 0 }.retries(), 0);
    assert_eq!(RetryPolicy::standard(), RetryPolicy { attempts: 3, backoff_ms: 500 });
}

#[test]
fn a_policy_without_tries_still_tries_once() {
    let policy = RetryPolicy { attempts: 0, backoff_ms: 9 };
    let mut d = Download { policy, phase: Phase::ProbeEntry, ..at_step(CheckoutStep::Clone) };
    let asked = drive(&mut d, vec![Event::Exists(true), Event::Failed(s("busy"))]);
    assert_eq!(
        asked,
        vec![
            Action::Probe(Place::CacheEntry),
            Action::RemoveTree(Place::CacheEntry),
            Action::Probe(Place::TempDir),
        ]
    );
}

#[test]
fn a_failed_cleanup_does_not_hide_the_download_s_failure() {
    let mut d = at_step(CheckoutStep::Checkout);
    drive(
        &mut d,
        vec![
            Event::TimedOut,
            Event::Exists(true),
            Event::Failed(s("1")),
            Event::Completed,
            Event::Failed(s("2")),
            Event::Completed,
            Event::Failed(s("3")),
        ],
    );
    assert!(d.is_finished());
    assert_eq!(d.failure, Some(Failure::Timeout(CheckoutStep::Checkout)));
    assert_eq!(d.cleanup_warning, Some(s("3")));
}

#[test]
fn a_failed_cleanup_fails_a_download_that_went_well() {
    let policy = RetryPolicy { attempts: 1, backoff_ms: 0 };
    let mut d = Download { policy, phase: Phase::Copy, ..at_step(CheckoutStep::Clone) };
    drive(&mut d, vec![Event::Completed, Event::Exists(true), Event::Failed(s("locked"))]);
    assert!(d.is_finished());
    assert_eq!(d.failure, Some(Failure::Io(Place::TempDir, s("locked"))));
    assert_eq!(d.cleanup_warning, None);
}

#[test]
fn a_stale_working_directory_that_cannot_be_removed_ends_the_download() {
    let policy = RetryPolicy { attempts: 1, backoff_ms: 0 };
    let mut d = Download::start(true, policy, true);
    let asked = drive(
        &mut d,
        vec![Event::Exists(false), Event::Exists(true), Event::Failed(s("locked"))],
    );
    assert_eq!(asked.last(), Some(&Action::Done));
    assert_eq!(d.failure, Some(Failure::Io(Place::TempDir, s("locked"))));
}

#[test]
fn a_working_directory_that_cannot_be_created_ends_the_download() {
    let mut d = Download::start(true, RetryPolicy::standard(), true);
    drive(&mut d, vec![Event::Exists(false), Event::Exists(false), Event::Failed(s("denied"))]);
    assert!(d.is_finished());
    assert_eq!(d.failure, Some(Failure::Io(Place::TempDir, s("denied"))));
}

#[test]
fn events_that_do_not_answer_are_ignored() {
    let mut d = Download::start(false, RetryPolicy::standard(), true);
    for event in [Event::Completed, Event::TimedOut, Event::Failed(s("x")), ok()] {
        d.advance(event);
        assert_eq!(d, Download::start(false, RetryPolicy::standard(), true));
    }
    let mut done = Download { phase: Phase::Finished, ..at_step(CheckoutStep::Clone) };
    done.advance(Event::Exists(true));
    assert_eq!(done.phase, Phase::Finished);
    assert_eq!(done.pending(), Action::Done);
}

#[test]
fn steps_have_their_timeouts() {
    assert_eq!(CheckoutStep::Clone.timeout_secs(), 300);
    assert_eq!(CheckoutStep::SparseSet.timeout_secs(), 60);
    assert_eq!(CheckoutStep::Checkout.timeout_secs(), 120);
}

#[test]
fn a_job_knows_its_places() {
    let j = job(false);
    let root = ["/home/u/.cache", "mammoth-cli", "templates"];
    assert_eq!(j.path_of(Place::CacheEntry), at(&[root[0], root[1], root[2], "main", "vue"]));
    assert_eq!(j.path_of(Place::CacheParent), at(&[root[0], root[1], root[2], "main"]));
    assert_eq!(j.path_of(Place::TempDir), at(&[root[0], root[1], root[2], "temp_main"]));
    assert_eq!(
        j.path_of(Place::Source),
        at(&[root[0], root[1], root[2], "temp_main", "templates/vue"])
    );
    let m = manager();
    assert_eq!(m.get_template_cache_path(&m.config.templates[0]), j.path_of(Place::CacheEntry));
}

#[test]
fn a_job_knows_its_commands() {
    let j = job(false);
    assert_eq!(
        j.command(CheckoutStep::Clone),
        Some(GitCommand {
            args: vec![
                Arg::Text(s("clone")),
                Arg::Text(s("--no-checkout")),
                Arg::Text(s("--filter=blob:none")),
                Arg::Text(s("--sparse")),
                Arg::Text(s("https://example.com/t.git")),
                Arg::TempDir,
            ],
            in_temp_dir: false,
            timeout_secs: 300,
        })
    );
    assert_eq!(
        j.command(CheckoutStep::SparseSet),
        Some(GitCommand {
            args: vec![
                Arg::Text(s("sparse-checkout")),
                Arg::Text(s("set")),
                Arg::Text(s("templates/vue")),
            ],
            in_temp_dir: true,
            timeout_secs: 60,
        })
    );
    assert_eq!(
        j.command(CheckoutStep::Checkout),
        Some(GitCommand {
            args: vec![Arg::Text(s("checkout")), Arg::Text(s("trunk"))],
            in_temp_dir: true,
            timeout_secs: 120,
        })
    );
}

#[test]
fn a_job_reports_its_failure_as_an_error() {
    let mut j = job(true);
    assert_eq!(j.result(), None);
    j.run = Download { phase: Phase::Finished, failure: None, ..at_step(CheckoutStep::Clone) };
    assert_eq!(j.result(), Some(Ok(())));
    let cases = vec![
        (Failure::Timeout(CheckoutStep::Clone), Error::Timeout { step: CheckoutStep::Clone }),
        (
            Failure::Process(CheckoutStep::Checkout, None),
            Error::ProcessFailed { step: CheckoutStep::Checkout, status: None },
        ),
        (Failure::PathNotFound, Error::PathNotFound { path: s("templates/vue") }),
        (
            Failure::Spawn(CheckoutStep::Clone, s("no git")),
            Error::IoError { location: at(&["git"]), cause: s("no git") },
        ),
        (
            Failure::Io(Place::TempDir, s("busy")),
            Error::IoError {
                location: at(&["/home/u/.cache", "mammoth-cli", "templates", "temp_main"]),
                cause: s("busy"),
            },
        ),
    ];
    for (failure, error) in cases {
        j.run.failure = Some(failure);
        assert_eq!(j.result(), Some(Err(error)));
    }
}

#[test]
fn download_errors_read_as_sentences() {
    assert_eq!(
        Error::Timeout { step: CheckoutStep::Clone }.message(),
        "Git clone timed out after 5 minutes"
    );
    assert_eq!(
        Error::Timeout { step: CheckoutStep::SparseSet }.message(),
        "Sparse checkout timed out"
    );
    assert_eq!(Error::Timeout { step: CheckoutStep::Checkout }.message(), "Git checkout timed out");
    assert_eq!(
        Error::ProcessFailed { step: CheckoutStep::Clone, status: Some(1) }.message(),
        "Failed to clone repository"
    );
    assert_eq!(
        Error::ProcessFailed { step: CheckoutStep::SparseSet, status: None }.message(),
        "Failed to set sparse checkout"
    );
    assert_eq!(
        Error::ProcessFailed { step: CheckoutStep::Checkout, status: None }.message(),
        "Failed to checkout branch"
    );
    assert_eq!(
        Error::PathNotFound { path: s("a/b") }.message(),
        "Template path 'a/b' not found in repository"
    );
    assert_eq!(
        Error::IoError { location: at(&[]), cause: s("denied") }.message(),
        "File system operation failed: denied"
    );
}

#[test]
fn a_cached_template_without_repository_is_left_alone() {
    let m = manager();
    let mut j = m.download_template(&m.config.templates[1], false);
    assert_eq!(j.repo, None);
    assert_eq!(j.run.pending(), Action::Probe(Place::CacheEntry));
    j.run.advance(Event::Exists(true));
    assert_eq!(j.run.pending(), Action::Done);
    assert_eq!(j.result(), Some(Ok(())));
}

#[test]
fn a_template_without_repository_cannot_be_fetched() {
    let m = manager();
    for (force, found) in [(false, false), (true, false), (true, true)] {
        let mut j = m.download_template(&m.config.templates[1], force);
        let asked = drive(&mut j.run, vec![Event::Exists(found)]);
        assert_eq!(asked, vec![Action::Probe(Place::CacheEntry), Action::Done]);
        assert_eq!(
            j.result(),
            Some(Err(Error::NotFound { kind: EntryKind::Repository, key: s("gone") }))
        );
        assert_eq!(j.command(CheckoutStep::Clone), None);
    }
}

#[test]
fn a_prepared_download_has_asked_for_nothing() {
    let m = manager();
    let j = m.download_template(&m.config.templates[0], true);
    assert_eq!(j.template, m.config.templates[0]);
    assert_eq!(j.repo, Some(m.config.repos[0].clone()));
    assert_eq!(&j.cache_dir, m.cache_dir());
    assert_eq!(j.run, Download::start(true, RetryPolicy::standard(), true));
    let k = m.download_template_with(
        &m.config.templates[1],
        false,
        RetryPolicy { attempts: 5, backoff_ms: 1 },
    );
    assert_eq!(k.run, Download::start(false, RetryPolicy { attempts: 5, backoff_ms: 1 }, false));
}
