use mammoth_cli::config::{Config, Repo, Template};
use mammoth_cli::error::{Error, IssueKind, ValidationIssue};
use mammoth_cli::manager::TemplateManager;
use mammoth_cli::validate::validate;

fn s(text: &str) -> String {
    text.to_string()
}

fn repo(name: &str, url: &str, branch: &str) -> Repo {
    Repo { name: s(name), url: s(url), branch: s(branch), auth_token: None, username: None }
}

fn template(id: &str, name: &str, repo: &str, path: &str) -> Template {
    Template {
        id: s(id),
        name: s(name),
        repo: s(repo),
        path: s(path),
        description: s(""),
        language: s(""),
        tags: vec![],
    }
}

fn issue(kind: IssueKind, subject: &str, target: &str) -> ValidationIssue {
    ValidationIssue { kind, subject: s(subject), target: s(target) }
}

fn manager() -> TemplateManager {
    TemplateManager::from_parts(Config::empty(), vec![])
}

#[test]
fn a_sound_registry_has_no_findings() {
    let config = Config {
        repos: vec![repo("main", "u", "b")],
        templates: vec![template("t", "T", "main", "p")],
    };
    let report = validate(&config);
    assert!(report.errors.is_empty());
    assert!(report.warnings.is_empty());
    assert_eq!(manager().validate_import_config(&config), Ok(vec![]));
}

#[test]
fn an_empty_registry_has_no_findings() {
    let report = validate(&Config::empty());
    assert!(report.errors.is_empty());
    assert!(report.warnings.is_empty());
}

#[test]
fn empty_name_and_dangling_reference_give_an_error_and_a_warning() {
    let config = Config {
        repos: vec![repo("", "u", "b")],
        templates: vec![template("t", "T", "gone", "p")],
    };
    let report = validate(&config);
    assert_eq!(report.errors, vec![issue(IssueKind::RepoNameEmpty, "", "")]);
    assert_eq!(report.warnings, vec![issue(IssueKind::DanglingRepo, "t", "gone")]);
    assert_eq!(
        manager().validate_import_config(&config),
        Err(Error::ValidationFailed {
            errors: vec![issue(IssueKind::RepoNameEmpty, "", "")],
            warnings: vec![issue(IssueKind::DanglingRepo, "t", "gone")],
        })
    );
}

#[test]
fn a_failed_validation_hands_out_every_error_and_every_warning() {
    let config = Config {
        repos: vec![repo("", "u", "main"), repo("r2", "", "")],
        templates: vec![template("t1", "n", "ghost", "p")],
    };
    assert_eq!(
        manager().validate_import_config(&config),
        Err(Error::ValidationFailed {
            errors: vec![
                issue(IssueKind::RepoNameEmpty, "", ""),
                issue(IssueKind::RepoUrlEmpty, "r2", ""),
                issue(IssueKind::RepoBranchEmpty, "r2", ""),
            ],
            warnings: vec![issue(IssueKind::DanglingRepo, "t1", "ghost")],
        })
    );
}

#[test]
fn every_error_is_listed_in_order() {
    let config = Config {
        repos: vec![repo("", "", ""), repo("r", "", "b")],
        templates: vec![template("", "", "", ""), template("t", "", "r", "")],
    };
    let report = validate(&config);
    assert_eq!(
        report.errors,
        vec![
            issue(IssueKind::RepoNameEmpty, "", ""),
            issue(IssueKind::RepoUrlEmpty, "", ""),
            issue(IssueKind::RepoBranchEmpty, "", ""),
            issue(IssueKind::RepoUrlEmpty, "r", ""),
            issue(IssueKind::TemplateIdEmpty, "", ""),
            issue(IssueKind::TemplateNameEmpty, "", ""),
            issue(IssueKind::TemplateRepoEmpty, "", ""),
            issue(IssueKind::TemplatePathEmpty, "", ""),
            issue(IssueKind::TemplateNameEmpty, "t", ""),
            issue(IssueKind::TemplatePathEmpty, "t", ""),
        ]
    );
    assert!(report.warnings.is_empty());
}

#[test]
fn an_empty_reference_dangles_unless_a_repository_has_no_name() {
    let with = Config {
        repos: vec![repo("", "u", "b")],
        templates: vec![template("t", "T", "", "p")],
    };
    assert!(validate(&with).warnings.is_empty());
    let without = Config { repos: vec![], templates: vec![template("t", "T", "", "p")] };
    assert_eq!(validate(&without).warnings, vec![issue(IssueKind::DanglingRepo, "t", "")]);
}

#[test]
fn warnings_alone_do_not_fail_the_validation() {
    let config = Config { repos: vec![], templates: vec![template("t", "T", "gone", "p")] };
    assert_eq!(
        manager().validate_import_config(&config),
        Ok(vec![issue(IssueKind::DanglingRepo, "t", "gone")])
    );
}

#[test]
fn findings_read_as_sentences() {
    assert_eq!(issue(IssueKind::RepoNameEmpty, "", "").message(), "Repository name cannot be empty");
    assert_eq!(
        issue(IssueKind::RepoUrlEmpty, "r", "").message(),
        "Repository 'r' URL cannot be empty"
    );
    assert_eq!(
        issue(IssueKind::RepoBranchEmpty, "r", "").message(),
        "Repository 'r' branch cannot be empty"
    );
    assert_eq!(issue(IssueKind::TemplateIdEmpty, "", "").message(), "Template ID cannot be empty");
    assert_eq!(
        issue(IssueKind::TemplateNameEmpty, "t", "").message(),
        "Template 't' name cannot be empty"
    );
    assert_eq!(
        issue(IssueKind::TemplateRepoEmpty, "t", "").message(),
        "Template 't' repository cannot be empty"
    );
    assert_eq!(
        issue(IssueKind::TemplatePathEmpty, "t", "").message(),
        "Template 't' path cannot be empty"
    );
    assert_eq!(
        issue(IssueKind::DanglingRepo, "t", "gone").message(),
        "Template 't' references non-existent repository 'gone'"
    );
}

#[test]
fn validation_failure_reads_as_a_sentence() {
    let e = Error::ValidationFailed {
        errors: vec![issue(IssueKind::RepoNameEmpty, "", "")],
        warnings: vec![],
    };
    assert_eq!(e.message(), "Configuration validation failed");
}
