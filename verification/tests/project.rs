use mammoth_cli::config::{Config, ProjectConfig, Repo, Template};
use mammoth_cli::error::{EntryKind, Error};
use mammoth_cli::generate::{generate_project, GenerateEvent, GenerateStep};
use mammoth_cli::manager::TemplateManager;
use mammoth_cli::package::update_package_json;
use mammoth_cli::paths::Location;
use mammoth_cli::project::{Reply, SetupPhase};

fn s(text: &str) -> String {
    text.to_string()
}

fn template(id: &str, description: &str) -> Template {
    Template {
        id: s(id),
        name: s("T"),
        repo: s("main"),
        path: s("p"),
        description: s(description),
        language: s("ts"),
        tags: vec![],
    }
}

fn manager() -> TemplateManager {
    TemplateManager::from_parts(
        Config {
            repos: vec![Repo {
                name: s("main"),
                url: s("u"),
                branch: s("b"),
                auth_token: None,
                username: None,
            }],
            templates: vec![template("vue", "A Vue starter"), template("lib", "A library")],
        },
        vec![s("cache")],
    )
}

fn project() -> ProjectConfig {
    ProjectConfig {
        name: s("demo"),
        author: s("Ada"),
        description: s("A demo"),
        output_dir: s("out"),
        template: template("vue", "A Vue starter"),
    }
}

#[test]
fn everything_is_asked_for_when_nothing_is_given() {
    let m = manager();
    let mut setup = m.get_project_config(None, None, ".").unwrap();
    assert_eq!(setup.pending(), SetupPhase::SelectTemplate);
    assert_eq!(setup.choice_labels(), vec![s("vue - A Vue starter"), s("lib - A library")]);
    setup.advance(Reply::Choice(1));
    assert_eq!(setup.pending(), SetupPhase::ProjectName);
    setup.advance(Reply::Text(s("demo")));
    assert_eq!(setup.pending(), SetupPhase::Author);
    setup.advance(Reply::Text(s("Ada")));
    assert_eq!(setup.pending(), SetupPhase::Description);
    setup.advance(Reply::Text(s("A demo")));
    assert_eq!(setup.pending(), SetupPhase::OutputDir);
    setup.advance(Reply::Text(s("out")));
    assert_eq!(setup.pending(), SetupPhase::Confirm);
    assert_eq!(
        setup.summary(),
        vec![
            s("Name: demo"),
            s("Author: Ada"),
            s("Description: A demo"),
            s("Template: lib"),
            s("Language: ts"),
            s("Output Directory: out"),
        ]
    );
    assert_eq!(setup.config(), None);
    setup.advance(Reply::Answer(true));
    assert!(setup.is_finished());
    assert_eq!(
        setup.config(),
        Some(ProjectConfig {
            name: s("demo"),
            author: s("Ada"),
            description: s("A demo"),
            output_dir: s("out"),
            template: template("lib", "A library"),
        })
    );
}

#[test]
fn what_is_given_is_not_asked_for() {
    let m = manager();
    let mut setup = m.get_project_config(Some("vue"), Some("demo"), "out").unwrap();
    assert_eq!(setup.pending(), SetupPhase::Author);
    setup.advance(Reply::Text(s("Ada")));
    setup.advance(Reply::Text(s("A demo")));
    assert_eq!(setup.pending(), SetupPhase::Confirm);
    setup.advance(Reply::Answer(true));
    assert_eq!(setup.config(), Some(project()));
}

#[test]
fn a_refused_setup_describes_no_project() {
    let m = manager();
    let mut setup = m.get_project_config(Some("vue"), Some("demo"), "out").unwrap();
    setup.advance(Reply::Text(s("Ada")));
    setup.advance(Reply::Text(s("A demo")));
    setup.advance(Reply::Answer(false));
    assert!(setup.is_finished());
    assert!(setup.cancelled);
    assert_eq!(setup.config(), None);
}

#[test]
fn an_unknown_template_is_not_found() {
    let r = manager().get_project_config(Some("nope"), None, ".");
    assert_eq!(r, Err(Error::NotFound { kind: EntryKind::Template, key: s("nope") }));
}

#[test]
fn without_templates_there_is_nothing_to_choose() {
    let m = TemplateManager::from_parts(Config::empty(), vec![]);
    let r = m.get_project_config(None, None, ".");
    assert_eq!(r, Err(Error::NoTemplates));
    assert_eq!(
        r.unwrap_err().message(),
        "No templates available. Add templates first with 'template add'"
    );
}

#[test]
fn replies_that_do_not_fit_change_nothing() {
    let m = manager();
    let mut setup = m.get_project_config(None, Some("demo"), ".").unwrap();
    let before = m.get_project_config(None, Some("demo"), ".").unwrap();
    setup.advance(Reply::Choice(2));
    setup.advance(Reply::Text(s("x")));
    setup.advance(Reply::Answer(true));
    assert_eq!(setup, before);
    setup.advance(Reply::Choice(0));
    assert_eq!(setup.pending(), SetupPhase::Author);
}

#[test]
fn questions_have_their_words() {
    assert_eq!(SetupPhase::SelectTemplate.label(), "Choose a template");
    assert_eq!(SetupPhase::ProjectName.label(), "Project name");
    assert_eq!(SetupPhase::ProjectName.initial_text(), "my-awesome-project");
    assert_eq!(SetupPhase::Author.label(), "Author name");
    assert_eq!(SetupPhase::Author.initial_text(), "Your Name");
    assert_eq!(SetupPhase::Description.label(), "Project description");
    assert_eq!(SetupPhase::Description.initial_text(), "A wonderful project");
    assert_eq!(SetupPhase::OutputDir.label(), "Output directory");
    assert_eq!(SetupPhase::OutputDir.initial_text(), ".");
    assert_eq!(SetupPhase::Confirm.label(), "Do you want to proceed with project generation?");
    assert_eq!(SetupPhase::Finished.label(), "");
}

#[test]
fn files_are_copied_from_the_cache_entry() {
    let m = manager();
    let t = &m.config.templates[0];
    assert_eq!(
        m.copy_template_files(t, true),
        Ok(Location::of(vec![s("cache"), s("main"), s("vue")]))
    );
    let r = m.copy_template_files(t, false);
    assert_eq!(r, Err(Error::NotFound { kind: EntryKind::CacheEntry, key: s("vue") }));
    assert_eq!(
        r.unwrap_err().message(),
        "Template 'vue' not cached. Run 'template download vue' first"
    );
}

#[test]
fn a_generation_runs_its_steps_in_order() {
    let mut g = generate_project(&project());
    let mut steps = vec![g.pending()];
    for event in [
        GenerateEvent::Completed,
        GenerateEvent::Completed,
        GenerateEvent::Exists(true),
        GenerateEvent::Completed,
        GenerateEvent::Exists(true),
        GenerateEvent::Completed,
        GenerateEvent::Completed,
    ] {
        assert_eq!(g.result(), None);
        g.advance(event);
        steps.push(g.pending());
    }
    assert_eq!(
        steps,
        vec![
            GenerateStep::CreateDir,
            GenerateStep::Download,
            GenerateStep::ProbeCache,
            GenerateStep::CopyFiles,
            GenerateStep::ProbePackageJson,
            GenerateStep::UpdatePackageJson,
            GenerateStep::InitGit,
            GenerateStep::Finished,
        ]
    );
    assert_eq!(g.result(), Some(Ok(())));
}

#[test]
fn a_project_without_package_json_skips_its_update() {
    let mut g = generate_project(&project());
    for event in [
        GenerateEvent::Completed,
        GenerateEvent::Completed,
        GenerateEvent::Exists(true),
        GenerateEvent::Completed,
        GenerateEvent::Exists(false),
    ] {
        g.advance(event);
    }
    assert_eq!(g.pending(), GenerateStep::InitGit);
    g.advance(GenerateEvent::Completed);
    assert_eq!(g.result(), Some(Ok(())));
}

#[test]
fn the_first_failure_ends_the_generation() {
    let mut g = generate_project(&project());
    g.advance(GenerateEvent::Failed(s("denied")));
    assert_eq!(
        g.result(),
        Some(Err(Error::IoError {
            location: Location::of(vec![s("out"), s("demo")]),
            cause: s("denied"),
        }))
    );
    g.advance(GenerateEvent::Completed);
    assert!(g.is_finished());

    let mut g = generate_project(&project());
    g.advance(GenerateEvent::Completed);
    g.advance(GenerateEvent::Refused(Error::PathNotFound { path: s("p") }));
    assert_eq!(g.result(), Some(Err(Error::PathNotFound { path: s("p") })));

    let mut g = generate_project(&project());
    g.advance(GenerateEvent::Completed);
    g.advance(GenerateEvent::Completed);
    g.advance(GenerateEvent::Exists(false));
    assert_eq!(
        g.result(),
        Some(Err(Error::NotFound { kind: EntryKind::CacheEntry, key: s("vue") }))
    );

    let mut g = generate_project(&project());
    for event in [
        GenerateEvent::Completed,
        GenerateEvent::Completed,
        GenerateEvent::Exists(true),
        GenerateEvent::Completed,
        GenerateEvent::Exists(true),
        GenerateEvent::Failed(s("read-only")),
    ] {
        g.advance(event);
    }
    assert_eq!(
        g.result(),
        Some(Err(Error::IoError {
            location: Location::of(vec![s("out"), s("demo"), s("package.json")]),
            cause: s("read-only"),
        }))
    );
}

#[test]
fn reports_that_do_not_fit_the_step_change_nothing() {
    let mut g = generate_project(&project());
    g.advance(GenerateEvent::Exists(true));
    g.advance(GenerateEvent::Refused(Error::NoTemplates));
    assert_eq!(g.pending(), GenerateStep::CreateDir);
    g.advance(GenerateEvent::Completed);
    g.advance(GenerateEvent::Failed(s("x")));
    assert_eq!(g.pending(), GenerateStep::Download);
    assert_eq!(g.result(), None);
}

#[test]
fn steps_have_their_messages_and_paths() {
    assert_eq!(GenerateStep::CreateDir.message(), "Creating project directory...");
    assert_eq!(GenerateStep::Download.message(), "Getting template files...");
    assert_eq!(GenerateStep::UpdatePackageJson.message(), "Updating project configuration...");
    assert_eq!(GenerateStep::InitGit.message(), "Finalizing project...");
    assert_eq!(GenerateStep::Finished.message(), "Project generation completed!");
    assert_eq!(project().project_path(), Location::of(vec![s("out"), s("demo")]));
    assert_eq!(
        project().package_json_path(),
        Location::of(vec![s("out"), s("demo"), s("package.json")])
    );
}

#[test]
fn the_project_is_written_into_package_json() {
    let text = r#"{"name":"template","version":"1.0.0","private":true,"author":7}"#;
    let updated = update_package_json(text, &project()).unwrap();
    let doc: serde_json::Value = serde_json::from_str(&updated).unwrap();
    assert_eq!(doc["name"], serde_json::Value::String(s("demo")));
    assert_eq!(doc["author"], serde_json::Value::String(s("Ada")));
    assert_eq!(doc["description"], serde_json::Value::String(s("A demo")));
    assert_eq!(doc["version"], serde_json::Value::String(s("1.0.0")));
    assert_eq!(doc["private"], serde_json::Value::Bool(true));
    assert_eq!(doc.as_object().map(|o| o.len()), Some(5));
    assert!(updated.contains('\n'));
}

#[test]
fn a_document_that_is_no_object_is_left_alone() {
    let updated = update_package_json("[1, 2]", &project()).unwrap();
    let doc: serde_json::Value = serde_json::from_str(&updated).unwrap();
    assert_eq!(doc.as_array().map(|a| a.len()), Some(2));
    assert_eq!(update_package_json("\"text\"", &project()), Ok(s("\"text\"")));
}

#[test]
fn text_that_is_not_json_is_a_parse_error() {
    let r = update_package_json("{ name: ", &project());
    assert!(matches!(r, Err(Error::ParseError { .. })));
}
