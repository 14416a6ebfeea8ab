use mammoth_cli::batch::BatchDownload;
use mammoth_cli::config::{Config, Repo, Template};
use mammoth_cli::download::{Action, Event, Place, RetryPolicy};
use mammoth_cli::error::{CheckoutStep, EntryKind, Error};
use mammoth_cli::manager::TemplateManager;

fn s(text: &str) -> String {
    text.to_string()
}

fn template(id: &str, repo: &str) -> Template {
    Template {
        id: s(id),
        name: s("T"),
        repo: s(repo),
        path: s("p"),
        description: s("d"),
        language: s("vue"),
        tags: vec![],
    }
}

fn manager(templates: Vec<Template>) -> TemplateManager {
    TemplateManager::from_parts(
        Config {
            repos: vec![Repo {
                name: s("main"),
                url: s("u"),
                branch: s("b"),
                auth_token: None,
                username: None,
            }],
            templates,
        },
        vec![s("cache")],
    )
}

fn refused(repo: &str) -> Result<(), Error> {
    Err(Error::NotFound { kind: EntryKind::Repository, key: s(repo) })
}

/// Answers every action of the download under way until it is over: its
/// cache entry is there as `cached` says, nothing else exists, and the
/// version-control client runs out of time.
fn run_one(batch: &mut BatchDownload, cached: bool) {
    let started = batch.outcomes.len();
    while !batch.is_finished() && batch.outcomes.len() == started {
        let event = match batch.pending() {
            Action::Probe(Place::CacheEntry) => Event::Exists(cached),
            Action::Probe(_) => Event::Exists(false),
            Action::RunGit(_) => Event::TimedOut,
            _ => Event::Completed,
        };
        batch.advance(event);
    }
}

fn current(batch: &BatchDownload) -> Option<String> {
    batch.current.as_ref().map(|j| j.template.id.clone())
}

#[test]
fn an_empty_registry_gives_a_finished_batch() {
    let batch = manager(vec![]).download_all_templates(false);
    assert!(batch.is_finished());
    assert_eq!(batch.pending(), Action::Done);
    assert!(batch.outcomes.is_empty());
}

#[test]
fn there_is_one_outcome_for_each_template() {
    let m = manager(vec![
        template("a", "main"),
        template("b", "gone"),
        template("c", "main"),
        template("d", "lost"),
    ]);
    let mut batch = m.download_all_templates(false);
    assert_eq!(current(&batch), Some(s("a")));
    run_one(&mut batch, false);
    assert_eq!(batch.outcomes.len(), 1);
    assert_eq!(current(&batch), Some(s("b")));
    run_one(&mut batch, false);
    assert_eq!(current(&batch), Some(s("c")));
    run_one(&mut batch, true);
    assert_eq!(current(&batch), Some(s("d")));
    run_one(&mut batch, true);
    assert!(batch.is_finished());
    assert_eq!(
        batch.outcomes,
        vec![Err(Error::Timeout { step: CheckoutStep::Clone }), refused("gone"), Ok(()), Ok(())]
    );
}

#[test]
fn every_template_is_asked_about_its_cache_entry_first() {
    let m = manager(vec![template("a", "gone"), template("b", "main")]);
    let mut batch = m.download_all_templates(true);
    assert!(batch.outcomes.is_empty());
    assert_eq!(current(&batch), Some(s("a")));
    assert_eq!(batch.pending(), Action::Probe(Place::CacheEntry));
    assert!(batch.force);
    assert_eq!(batch.policy, RetryPolicy::standard());
    batch.advance(Event::Exists(true));
    assert_eq!(batch.outcomes, vec![refused("gone")]);
    assert_eq!(current(&batch), Some(s("b")));
    assert_eq!(batch.pending(), Action::Probe(Place::CacheEntry));
    batch.advance(Event::Exists(true));
    assert_eq!(batch.pending(), Action::Probe(Place::TempDir));
    assert_eq!(batch.outcomes.len(), 1);
}

#[test]
fn cached_templates_without_repository_are_left_alone() {
    let m = manager(vec![template("a", "gone"), template("b", "lost")]);
    let mut batch = m.download_all_templates(false);
    assert!(!batch.is_finished());
    batch.advance(Event::Exists(true));
    batch.advance(Event::Exists(false));
    assert!(batch.is_finished());
    assert_eq!(batch.outcomes, vec![Ok(()), refused("lost")]);
}

#[test]
fn a_finished_batch_takes_no_events() {
    let m = manager(vec![template("a", "main")]);
    let mut batch = m.download_all_templates_with(false, RetryPolicy { attempts: 1, backoff_ms: 0 });
    run_one(&mut batch, true);
    assert!(batch.is_finished());
    let before = batch.outcomes.clone();
    batch.advance(Event::Exists(true));
    assert!(batch.is_finished());
    assert_eq!(batch.outcomes, before);
}
