use mammoth_cli::clean::{Clean, CleanAction, CleanEvent, CleanPhase, CleanPlace};
use mammoth_cli::config::{Config, Repo};
use mammoth_cli::error::Error;
use mammoth_cli::manager::TemplateManager;
use mammoth_cli::paths::Location;

fn s(text: &str) -> String {
    text.to_string()
}

fn manager() -> TemplateManager {
    TemplateManager::from_parts(
        Config {
            repos: vec![Repo {
                name: s("main"),
                url: s("u"),
                branch: s("b"),
                auth_token: None,
                username: None,
            }],
            templates: vec![],
        },
        vec![s("cache"), s("templates")],
    )
}

fn drive(clean: &mut Clean, events: Vec<CleanEvent>) -> Vec<CleanAction> {
    let mut asked = vec![clean.pending()];
    for event in events {
        clean.advance(event);
        asked.push(clean.pending());
    }
    asked
}

#[test]
fn a_refused_cleaning_does_nothing() {
    let mut m = manager();
    let before = m.config.clone();
    let mut clean = m.clean_templates(true, false);
    let asked = drive(&mut clean, vec![CleanEvent::Answer(false)]);
    assert_eq!(asked, vec![CleanAction::Confirm, CleanAction::Done]);
    assert!(clean.cancelled);
    assert_eq!(m.finish_clean(&clean), Some(Ok(false)));
    assert_eq!(m.config, before);
}

#[test]
fn cleaning_the_cache_keeps_the_registry() {
    let mut m = manager();
    let before = m.config.clone();
    let mut clean = m.clean_templates(false, false);
    let asked = drive(
        &mut clean,
        vec![
            CleanEvent::Answer(true),
            CleanEvent::Exists(true),
            CleanEvent::Completed,
            CleanEvent::Completed,
        ],
    );
    assert_eq!(
        asked,
        vec![
            CleanAction::Confirm,
            CleanAction::Probe(CleanPlace::CacheRoot),
            CleanAction::RemoveTree,
            CleanAction::CreateDirs,
            CleanAction::Done,
        ]
    );
    assert_eq!(m.finish_clean(&clean), Some(Ok(true)));
    assert_eq!(m.config, before);
}

#[test]
fn cleaning_everything_empties_the_registry() {
    let mut m = manager();
    let mut clean = m.clean_templates(true, true);
    let asked = drive(
        &mut clean,
        vec![
            CleanEvent::Exists(false),
            CleanEvent::Completed,
            CleanEvent::Exists(true),
            CleanEvent::Completed,
        ],
    );
    assert_eq!(
        asked,
        vec![
            CleanAction::Probe(CleanPlace::CacheRoot),
            CleanAction::CreateDirs,
            CleanAction::Probe(CleanPlace::ConfigFile),
            CleanAction::RemoveFile,
            CleanAction::Done,
        ]
    );
    assert_eq!(m.finish_clean(&clean), Some(Ok(true)));
    assert_eq!(m.config, Config::empty());
    assert_eq!(m.cache_dir(), &Location::of(vec![s("cache"), s("templates")]));
}

#[test]
fn failed_removals_are_warnings() {
    let mut m = manager();
    let mut clean = m.clean_templates(true, true);
    drive(
        &mut clean,
        vec![
            CleanEvent::Exists(true),
            CleanEvent::Failed(s("busy")),
            CleanEvent::Completed,
            CleanEvent::Exists(true),
            CleanEvent::Failed(s("denied")),
        ],
    );
    assert!(clean.is_finished());
    assert_eq!(clean.cache_warning, Some(s("busy")));
    assert_eq!(clean.config_warning, Some(s("denied")));
    assert_eq!(clean.failure, None);
    assert_eq!(m.finish_clean(&clean), Some(Ok(true)));
    assert_eq!(m.config, Config::empty());
}

#[test]
fn a_cache_that_cannot_be_created_again_fails_the_cleaning() {
    let mut m = manager();
    let before = m.config.clone();
    let mut clean = m.clean_templates(true, true);
    let asked = drive(&mut clean, vec![CleanEvent::Exists(false), CleanEvent::Failed(s("full"))]);
    assert_eq!(asked.last(), Some(&CleanAction::Done));
    assert_eq!(
        m.finish_clean(&clean),
        Some(Err(Error::IoError {
            location: Location::of(vec![s("cache"), s("templates")]),
            cause: s("full"),
        }))
    );
    assert_eq!(m.config, before);
}

#[test]
fn a_cleaning_under_way_has_no_result() {
    let mut m = manager();
    let before = m.config.clone();
    let clean = m.clean_templates(true, true);
    assert_eq!(clean.phase, CleanPhase::ProbeCache);
    assert_eq!(m.finish_clean(&clean), None);
    assert_eq!(m.config, before);
}

#[test]
fn events_that_do_not_answer_change_nothing() {
    let m = manager();
    let mut clean = m.clean_templates(false, false);
    clean.advance(CleanEvent::Completed);
    clean.advance(CleanEvent::Exists(true));
    clean.advance(CleanEvent::Failed(s("x")));
    assert_eq!(clean, m.clean_templates(false, false));
}

#[test]
fn the_question_says_what_is_removed() {
    assert_eq!(
        Clean::question(true),
        "This will remove ALL templates, cache, and configuration. Are you sure?"
    );
    assert_eq!(Clean::question(false), "This will remove ALL cached template files. Are you sure?");
}
