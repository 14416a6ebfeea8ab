//! Validation of a registry that comes from outside.
//!
//! A field that must not be empty and is empty is an error; a template bound
//! to a repository that the registry does not hold is a warning. Nothing
//! stops at the first finding: every finding is listed, in the order of the
//! entries.

use vstd::prelude::*;
use crate::config::{
    repos_view, templates_view, Config, ConfigView, Repo, RepoView, Template, TemplateView,
};
use crate::error::{issues_view, IssueKind, IssueView, ValidationIssue};
use crate::manager::{find_repo, lemma_first_repo};

verus! {

/// The findings of a validation.
#[derive(Debug, PartialEq, Eq)]
pub struct ValidationReport {
    pub errors: Vec<ValidationIssue>,
    pub warnings: Vec<ValidationIssue>,
}

/// A finding of `kind` about the entry `subject`.
pub open spec fn issue(kind: IssueKind, subject: Seq<char>) -> IssueView {
    IssueView { kind, subject, target: Seq::empty() }
}

/// `found` with one finding more, where `absent` holds.
pub open spec fn note(found: Seq<IssueView>, absent: bool, finding: IssueView) -> Seq<IssueView> {
    if absent {
        found.push(finding)
    } else {
        found
    }
}

/// The errors in one repository: an empty name, URL or branch, in this order.
pub open spec fn repo_errors(repo: RepoView) -> Seq<IssueView> {
    let a = note(Seq::empty(), repo.name.len() == 0, issue(IssueKind::RepoNameEmpty, repo.name));
    let b = note(a, repo.url.len() == 0, issue(IssueKind::RepoUrlEmpty, repo.name));
    note(b, repo.branch.len() == 0, issue(IssueKind::RepoBranchEmpty, repo.name))
}

/// The errors in one template: an empty identifier, name, repository or
/// path, in this order.
pub open spec fn template_errors(template: TemplateView) -> Seq<IssueView> {
    let a = note(
        Seq::empty(),
        template.id.len() == 0,
        issue(IssueKind::TemplateIdEmpty, template.id),
    );
    let b = note(a, template.name.len() == 0, issue(IssueKind::TemplateNameEmpty, template.id));
    let c = note(b, template.repo.len() == 0, issue(IssueKind::TemplateRepoEmpty, template.id));
    note(c, template.path.len() == 0, issue(IssueKind::TemplatePathEmpty, template.id))
}

/// The finding that `template` is bound to a repository that is not there.
pub open spec fn dangling(template: TemplateView) -> IssueView {
    IssueView { kind: IssueKind::DanglingRepo, subject: template.id, target: template.repo }
}

/// The errors in a sequence of repositories, entry by entry.
pub open spec fn all_repo_errors(repos: Seq<RepoView>) -> Seq<IssueView>
    decreases repos.len(),
{
    if repos.len() == 0 {
        Seq::empty()
    } else {
        all_repo_errors(repos.drop_last()) + repo_errors(repos.last())
    }
}

/// The errors in a sequence of templates, entry by entry.
pub open spec fn all_template_errors(templates: Seq<TemplateView>) -> Seq<IssueView>
    decreases templates.len(),
{
    if templates.len() == 0 {
        Seq::empty()
    } else {
        all_template_errors(templates.drop_last()) + template_errors(templates.last())
    }
}

/// The dangling references among `templates`, given the repositories of
/// `registry`.
pub open spec fn all_dangling(templates: Seq<TemplateView>, registry: ConfigView) -> Seq<
    IssueView,
>
    decreases templates.len(),
{
    if templates.len() == 0 {
        Seq::empty()
    } else {
        note(
            all_dangling(templates.drop_last(), registry),
            !registry.has_repo(templates.last().repo),
            dangling(templates.last()),
        )
    }
}

impl ConfigView {
    /// Every error in the registry: those of the repositories, then those of
    /// the templates.
    pub open spec fn errors(self) -> Seq<IssueView> {
        all_repo_errors(self.repos) + all_template_errors(self.templates)
    }

    /// Every warning in the registry.
    pub open spec fn warnings(self) -> Seq<IssueView> {
        all_dangling(self.templates, self)
    }

    /// Whether no field that must be filled is empty.
    pub open spec fn fields_filled(self) -> bool {
        &&& forall|i: int|
            0 <= i < self.repos.len() ==> (#[trigger] self.repos[i]).name.len() > 0
                && self.repos[i].url.len() > 0 && self.repos[i].branch.len() > 0
        &&& forall|i: int|
            0 <= i < self.templates.len() ==> (#[trigger] self.templates[i]).id.len() > 0
                && self.templates[i].name.len() > 0 && self.templates[i].repo.len() > 0
                && self.templates[i].path.len() > 0
    }

    /// There is no error exactly where every field that must be filled is
    /// filled, and every listed error is one.
    pub proof fn law_errors_are_the_empty_fields(self)
        ensures
            self.errors().len() == 0 <==> self.fields_filled(),
            forall|i: int| 0 <= i < self.errors().len() ==> (#[trigger] self.errors()[i]).kind.is_error(),
    {
        lemma_repo_errors(self.repos);
        lemma_template_errors(self.templates);
    }

    /// There is no warning exactly where every template is bound to a
    /// repository of the registry, and every listed warning is a dangling
    /// reference.
    pub proof fn law_warnings_are_the_dangling_references(self)
        ensures
            self.warnings().len() == 0 <==> self.references_resolve(),
            forall|i: int|
                0 <= i < self.warnings().len() ==> (#[trigger] self.warnings()[i]).kind
                    == IssueKind::DanglingRepo,
    {
        lemma_dangling(self.templates, self);
    }
}

/// What `all_repo_errors` lists.
pub proof fn lemma_repo_errors(repos: Seq<RepoView>)
    ensures
        all_repo_errors(repos).len() == 0 <==> forall|i: int|
            0 <= i < repos.len() ==> (#[trigger] repos[i]).name.len() > 0 && repos[i].url.len() > 0
                && repos[i].branch.len() > 0,
        forall|i: int|
            0 <= i < all_repo_errors(repos).len() ==> (#[trigger] all_repo_errors(
                repos,
            )[i]).kind.is_error(),
    decreases repos.len(),
{
    if repos.len() > 0 {
        let front = repos.drop_last();
        lemma_repo_errors(front);
        assert forall|i: int| 0 <= i < front.len() implies (#[trigger] repos[i]) == front[i] by {}
        if all_repo_errors(repos).len() == 0 {
            assert forall|i: int| 0 <= i < repos.len() implies (#[trigger] repos[i]).name.len() > 0
                && repos[i].url.len() > 0 && repos[i].branch.len() > 0 by {
                if i < front.len() {
                    assert(repos[i] == front[i]);
                }
            }
        } else {
            if all_repo_errors(front).len() > 0 {
                let i = choose|i: int|
                    0 <= i < front.len() && !((#[trigger] front[i]).name.len() > 0
                        && front[i].url.len() > 0 && front[i].branch.len() > 0);
                assert(repos[i] == front[i]);
            } else {
                assert(repos[repos.len() - 1] == repos.last());
            }
        }
    }
}

/// What `all_template_errors` lists.
pub proof fn lemma_template_errors(templates: Seq<TemplateView>)
    ensures
        all_template_errors(templates).len() == 0 <==> forall|i: int|
            0 <= i < templates.len() ==> (#[trigger] templates[i]).id.len() > 0
                && templates[i].name.len() > 0 && templates[i].repo.len() > 0
                && templates[i].path.len() > 0,
        forall|i: int|
            0 <= i < all_template_errors(templates).len() ==> (#[trigger] all_template_errors(
                templates,
            )[i]).kind.is_error(),
    decreases templates.len(),
{
    if templates.len() > 0 {
        let front = templates.drop_last();
        lemma_template_errors(front);
        if all_template_errors(templates).len() == 0 {
            assert forall|i: int| 0 <= i < templates.len() implies (#[trigger] templates[i]).id.len()
                > 0 && templates[i].name.len() > 0 && templates[i].repo.len() > 0
                && templates[i].path.len() > 0 by {
                if i < front.len() {
                    assert(templates[i] == front[i]);
                }
            }
        } else {
            if all_template_errors(front).len() > 0 {
                let i = choose|i: int|
                    0 <= i < front.len() && !((#[trigger] front[i]).id.len() > 0
                        && front[i].name.len() > 0 && front[i].repo.len() > 0
                        && front[i].path.len() > 0);
                assert(templates[i] == front[i]);
            } else {
                assert(templates[templates.len() - 1] == templates.last());
            }
        }
    }
}

/// What `all_dangling` lists.
pub proof fn lemma_dangling(templates: Seq<TemplateView>, registry: ConfigView)
    ensures
        all_dangling(templates, registry).len() == 0 <==> forall|i: int|
            0 <= i < templates.len() ==> registry.has_repo((#[trigger] templates[i]).repo),
        forall|i: int|
            0 <= i < all_dangling(templates, registry).len() ==> (#[trigger] all_dangling(
                templates,
                registry,
            )[i]).kind == IssueKind::DanglingRepo,
    decreases templates.len(),
{
    if templates.len() > 0 {
        let front = templates.drop_last();
        lemma_dangling(front, registry);
        if all_dangling(templates, registry).len() == 0 {
            assert forall|i: int| 0 <= i < templates.len() implies registry.has_repo(
                (#[trigger] templates[i]).repo,
            ) by {
                if i < front.len() {
                    assert(templates[i] == front[i]);
                }
            }
        } else {
            if all_dangling(front, registry).len() > 0 {
                let i = choose|i: int|
                    0 <= i < front.len() && !registry.has_repo((#[trigger] front[i]).repo);
                assert(templates[i] == front[i]);
            } else {
                assert(templates[templates.len() - 1] == templates.last());
            }
        }
    }
}

/// A finding of `kind` about the entry `subject`.
fn finding(kind: IssueKind, subject: &String) -> (r: ValidationIssue)
    ensures
        r@ == issue(kind, subject@),
{
    ValidationIssue { kind, subject: subject.clone(), target: String::new() }
}

/// Adds the errors of one repository to `errors`.
fn check_repo(repo: &Repo, errors: &mut Vec<ValidationIssue>)
    ensures
        issues_view(final(errors)@) == issues_view(old(errors)@) + repo_errors(repo@),
{
    let ghost start = issues_view(errors@);
    if repo.name.as_str().is_empty() {
        errors.push(finding(IssueKind::RepoNameEmpty, &repo.name));
    }
    let ghost a = issues_view(errors@);
    assert(a =~= start + note(
        Seq::empty(),
        repo@.name.len() == 0,
        issue(IssueKind::RepoNameEmpty, repo@.name),
    ));
    if repo.url.as_str().is_empty() {
        errors.push(finding(IssueKind::RepoUrlEmpty, &repo.name));
    }
    let ghost b = issues_view(errors@);
    assert(b =~= note(a, repo@.url.len() == 0, issue(IssueKind::RepoUrlEmpty, repo@.name)));
    if repo.branch.as_str().is_empty() {
        errors.push(finding(IssueKind::RepoBranchEmpty, &repo.name));
    }
    assert(issues_view(errors@) =~= note(
        b,
        repo@.branch.len() == 0,
        issue(IssueKind::RepoBranchEmpty, repo@.name),
    ));
    assert(issues_view(errors@) =~= start + repo_errors(repo@));
}

/// Adds the errors of one template to `errors`.
fn check_template(template: &Template, errors: &mut Vec<ValidationIssue>)
    ensures
        issues_view(final(errors)@) == issues_view(old(errors)@) + template_errors(template@),
{
    let ghost start = issues_view(errors@);
    if template.id.as_str().is_empty() {
        errors.push(finding(IssueKind::TemplateIdEmpty, &template.id));
    }
    let ghost a = issues_view(errors@);
    assert(a =~= start + note(
        Seq::empty(),
        template@.id.len() == 0,
        issue(IssueKind::TemplateIdEmpty, template@.id),
    ));
    if template.name.as_str().is_empty() {
        errors.push(finding(IssueKind::TemplateNameEmpty, &template.id));
    }
    let ghost b = issues_view(errors@);
    assert(b =~= note(
        a,
        template@.name.len() == 0,
        issue(IssueKind::TemplateNameEmpty, template@.id),
    ));
    if template.repo.as_str().is_empty() {
        errors.push(finding(IssueKind::TemplateRepoEmpty, &template.id));
    }
    let ghost c = issues_view(errors@);
    assert(c =~= note(
        b,
        template@.repo.len() == 0,
        issue(IssueKind::TemplateRepoEmpty, template@.id),
    ));
    if template.path.as_str().is_empty() {
        errors.push(finding(IssueKind::TemplatePathEmpty, &template.id));
    }
    assert(issues_view(errors@) =~= note(
        c,
        template@.path.len() == 0,
        issue(IssueKind::TemplatePathEmpty, template@.id),
    ));
    assert(issues_view(errors@) =~= start + template_errors(template@));
}

/// Lists every error and every warning in `registry`.
pub fn validate(registry: &Config) -> (r: ValidationReport)
    ensures
        issues_view(r.errors@) == registry@.errors(),
        issues_view(r.warnings@) == registry@.warnings(),
{
    let mut errors: Vec<ValidationIssue> = Vec::new();
    let mut warnings: Vec<ValidationIssue> = Vec::new();
    let ghost repos = registry@.repos;
    let ghost templates = registry@.templates;
    let mut i: usize = 0;
    assert(repos.take(0) =~= Seq::<RepoView>::empty());
    assert(issues_view(errors@) =~= Seq::<IssueView>::empty());
    while i < registry.repos.len()
        invariant
            i <= registry.repos.len(),
            repos == repos_view(registry.repos@),
            issues_view(errors@) == all_repo_errors(repos.take(i as int)),
        decreases registry.repos.len() - i,
    {
        proof {
            assert(repos.take(i + 1).drop_last() =~= repos.take(i as int));
            assert(repos.take(i + 1).last() == registry.repos@[i as int]@);
        }
        check_repo(&registry.repos[i], &mut errors);
        i += 1;
    }
    assert(repos.take(i as int) =~= repos);
    let mut k: usize = 0;
    assert(templates.take(0) =~= Seq::<TemplateView>::empty());
    assert(issues_view(warnings@) =~= Seq::<IssueView>::empty());
    assert(issues_view(errors@) =~= all_repo_errors(repos) + all_template_errors(templates.take(0)));
    while k < registry.templates.len()
        invariant
            k <= registry.templates.len(),
            repos == registry@.repos,
            templates == templates_view(registry.templates@),
            templates == registry@.templates,
            issues_view(errors@) == all_repo_errors(repos) + all_template_errors(
                templates.take(k as int),
            ),
            issues_view(warnings@) == all_dangling(templates.take(k as int), registry@),
        decreases registry.templates.len() - k,
    {
        let template = &registry.templates[k];
        let ghost found = issues_view(warnings@);
        proof {
            assert(templates.take(k + 1).drop_last() =~= templates.take(k as int));
            assert(templates.take(k + 1).last() == template@);
            lemma_first_repo(registry@.repos, template@.repo);
        }
        check_template(template, &mut errors);
        if find_repo(&registry.repos, template.repo.as_str()).is_none() {
            warnings.push(
                ValidationIssue {
                    kind: IssueKind::DanglingRepo,
                    subject: template.id.clone(),
                    target: template.repo.clone(),
                },
            );
            assert(issues_view(warnings@) =~= found.push(dangling(template@)));
        }
        assert(issues_view(errors@) =~= all_repo_errors(repos) + all_template_errors(
            templates.take(k + 1),
        ));
        k += 1;
    }
    assert(templates.take(k as int) =~= templates);
    ValidationReport { errors, warnings }
}

} // verus!
