use mammoth_cli::config::{Config, Repo, Template};
use mammoth_cli::error::{EntryKind, Error};
use mammoth_cli::manager::TemplateManager;

fn manager() -> TemplateManager {
    TemplateManager::from_parts(Config::empty(), vec!["cache".to_string()])
}

fn s(text: &str) -> String {
    text.to_string()
}

#[test]
fn add_repo_appends_the_repository() {
    let mut m = manager();
    assert_eq!(m.add_repo(s("main"), s("https://example.com/a.git"), s("trunk")), Ok(()));
    assert_eq!(
        m.config.repos,
        vec![Repo {
            name: s("main"),
            url: s("https://example.com/a.git"),
            branch: s("trunk"),
            auth_token: None,
            username: None,
        }]
    );
    assert!(m.config.templates.is_empty());
}

#[test]
fn add_repo_twice_fails_and_changes_nothing() {
    let mut m = manager();
    m.add_repo(s("main"), s("u1"), s("b1")).unwrap();
    let before = m.config.clone();
    let again = m.add_repo(s("main"), s("u2"), s("b2"));
    assert_eq!(again, Err(Error::AlreadyExists { kind: EntryKind::Repository, key: s("main") }));
    assert_eq!(m.config, before);
    assert_eq!(again.unwrap_err().message(), "Repository 'main' already exists");
}

#[test]
fn remove_repo_in_use_fails() {
    let mut m = manager();
    m.add_repo(s("main"), s("u"), s("b")).unwrap();
    m.add_template(s("t"), s("T"), s("main"), s("p"), s("d"), s("vue"), None).unwrap();
    let before = m.config.clone();
    let r = m.remove_repo("main");
    assert_eq!(r, Err(Error::InUse { repo: s("main") }));
    assert_eq!(m.config, before);
    assert_eq!(
        r.unwrap_err().message(),
        "Cannot remove repository 'main' - it is used by templates"
    );
}

#[test]
fn remove_repo_unused_succeeds() {
    let mut m = manager();
    m.add_repo(s("a"), s("u"), s("b")).unwrap();
    m.add_repo(s("b"), s("u"), s("b")).unwrap();
    assert_eq!(m.remove_repo("a"), Ok(()));
    assert_eq!(m.config.repos.len(), 1);
    assert_eq!(m.config.repos[0].name, "b");
}

#[test]
fn remove_repo_missing_is_not_found() {
    let mut m = manager();
    let r = m.remove_repo("ghost");
    assert_eq!(r, Err(Error::NotFound { kind: EntryKind::Repository, key: s("ghost") }));
    assert_eq!(r.unwrap_err().message(), "Repository 'ghost' not found");
}

#[test]
fn remove_repo_checks_use_before_presence() {
    let mut m = TemplateManager::from_parts(
        Config {
            repos: vec![],
            templates: vec![Template {
                id: s("t"),
                name: s("T"),
                repo: s("ghost"),
                path: s("p"),
                description: s("d"),
                language: s("vue"),
                tags: vec![],
            }],
        },
        vec![],
    );
    assert_eq!(m.remove_repo("ghost"), Err(Error::InUse { repo: s("ghost") }));
}

#[test]
fn add_template_without_repo_is_not_found() {
    let mut m = manager();
    let r = m.add_template(s(""), s(""), s("nowhere"), s(""), s(""), s(""), None);
    assert_eq!(r, Err(Error::NotFound { kind: EntryKind::Repository, key: s("nowhere") }));
    assert!(m.config.templates.is_empty());
}

#[test]
fn add_template_checks_the_repository_before_the_identifier() {
    let mut m = manager();
    m.add_repo(s("main"), s("u"), s("b")).unwrap();
    m.add_template(s("t"), s("T"), s("main"), s("p"), s("d"), s("vue"), None).unwrap();
    let r = m.add_template(s("t"), s("T"), s("other"), s("p"), s("d"), s("vue"), None);
    assert_eq!(r, Err(Error::NotFound { kind: EntryKind::Repository, key: s("other") }));
}

#[test]
fn add_template_twice_fails() {
    let mut m = manager();
    m.add_repo(s("main"), s("u"), s("b")).unwrap();
    m.add_template(s("t"), s("T"), s("main"), s("p"), s("d"), s("vue"), None).unwrap();
    let before = m.config.clone();
    let r = m.add_template(s("t"), s("T2"), s("main"), s("p2"), s("d2"), s("ts"), None);
    assert_eq!(r, Err(Error::AlreadyExists { kind: EntryKind::Template, key: s("t") }));
    assert_eq!(m.config, before);
    assert_eq!(r.unwrap_err().message(), "Template with ID 't' already exists");
}

#[test]
fn add_template_parses_the_tags() {
    let mut m = manager();
    m.add_repo(s("main"), s("u"), s("b")).unwrap();
    m.add_template(
        s("t"),
        s("T"),
        s("main"),
        s("p"),
        s("d"),
        s("vue"),
        Some(s(" web, vue ,,web,  ")),
    )
    .unwrap();
    assert_eq!(m.config.templates[0].tags, vec![s("web"), s("vue")]);
    assert_eq!(m.config.templates[0].id, "t");
    assert_eq!(m.config.templates[0].language, "vue");
}

#[test]
fn remove_template_removes_the_first_match() {
    let mut m = manager();
    m.add_repo(s("main"), s("u"), s("b")).unwrap();
    m.add_template(s("a"), s("A"), s("main"), s("p"), s("d"), s("vue"), None).unwrap();
    m.add_template(s("b"), s("B"), s("main"), s("p"), s("d"), s("vue"), None).unwrap();
    assert_eq!(m.remove_template("a"), Ok(()));
    assert_eq!(m.config.templates.len(), 1);
    assert_eq!(m.config.templates[0].id, "b");
    let r = m.remove_template("a");
    assert_eq!(r, Err(Error::NotFound { kind: EntryKind::Template, key: s("a") }));
    assert_eq!(r.unwrap_err().message(), "Template 'a' not found");
}

#[test]
fn lookups_find_the_first_entry() {
    let mut m = manager();
    m.add_repo(s("main"), s("u"), s("b")).unwrap();
    m.add_template(s("a"), s("A"), s("main"), s("p"), s("d"), s("vue"), None).unwrap();
    assert_eq!(m.get_repo_by_name("main").map(|r| r.url.clone()), Some(s("u")));
    assert_eq!(m.get_repo_by_name("Main"), None);
    assert_eq!(m.get_template_by_id("a").map(|t| t.name.clone()), Some(s("A")));
    assert_eq!(m.get_template_by_id(""), None);
}
