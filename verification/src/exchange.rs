//! Bringing a registry in from outside, and handing the registry out.
//!
//! A registry that comes in is validated, then merged into the manager's
//! registry key by key, or put in its place. Nothing is changed unless the
//! whole import succeeds.

use vstd::prelude::*;
use vstd::pervasive::VecAdditionalExecFns;
use vstd::string::StringExecFns;
use crate::config::{
    clone_opt, first_repo, first_template, ids_unique, names_unique, repos_view, templates_view,
    Config, ConfigView, Repo, RepoView, Template, TemplateView,
};
use crate::error::{issues_view, Error, ErrorView, IssueView, ValidationIssue};
use crate::manager::{
    find_repo, find_template, lemma_first_repo, lemma_first_template, TemplateManager,
};
use crate::text::str_eq;
use crate::validate::validate;

verus! {

/// What an import does with the entries that are already registered.
#[derive(Debug, Clone, Copy, PartialEq, Eq, Structural)]
pub enum ImportMode {
    /// Entries with a key that is registered are updated, the others added.
    Merge,
    /// The registry is replaced as a whole.
    Overwrite,
}

/// How many entries a merge took in.
#[derive(Debug, Clone, Copy, PartialEq, Eq, Structural)]
pub struct MergeCounts {
    pub repos: usize,
    pub templates: usize,
}

/// What an import did: the warnings of the validation (none where it was
/// skipped) and, for a merge, the number of entries taken in.
#[derive(Debug, PartialEq, Eq)]
pub struct ImportReport {
    pub warnings: Vec<ValidationIssue>,
    pub merged: Option<MergeCounts>,
}

/// What a validated file holds: its warnings and the number of its entries.
#[derive(Debug, PartialEq, Eq)]
pub struct FileReport {
    pub warnings: Vec<ValidationIssue>,
    pub repos: usize,
    pub templates: usize,
}

/// `repos` after one repository has come in: where its name is registered,
/// the first repository of that name gets its URL and branch and keeps the
/// rest; otherwise it is added at the end.
pub open spec fn upsert_repo(repos: Seq<RepoView>, incoming: RepoView) -> Seq<RepoView> {
    match first_repo(repos, incoming.name) {
        Some(i) => repos.update(
            i,
            RepoView { url: incoming.url, branch: incoming.branch, ..repos[i] },
        ),
        None => repos.push(incoming),
    }
}

/// `templates` after one template has come in: where its identifier is
/// registered, it takes the place of the first template of that identifier;
/// otherwise it is added at the end.
pub open spec fn upsert_template(templates: Seq<TemplateView>, incoming: TemplateView) -> Seq<
    TemplateView,
> {
    match first_template(templates, incoming.id) {
        Some(i) => templates.update(i, incoming),
        None => templates.push(incoming),
    }
}

/// `repos` after each of `incoming` has come in, in order.
pub open spec fn merge_repos(repos: Seq<RepoView>, incoming: Seq<RepoView>) -> Seq<RepoView>
    decreases incoming.len(),
{
    if incoming.len() == 0 {
        repos
    } else {
        upsert_repo(merge_repos(repos, incoming.drop_last()), incoming.last())
    }
}

/// `templates` after each of `incoming` has come in, in order.
pub open spec fn merge_templates(templates: Seq<TemplateView>, incoming: Seq<TemplateView>) -> Seq<
    TemplateView,
>
    decreases incoming.len(),
{
    if incoming.len() == 0 {
        templates
    } else {
        upsert_template(merge_templates(templates, incoming.drop_last()), incoming.last())
    }
}

/// The mode that a word names.
pub open spec fn mode_named(word: Seq<char>) -> Option<ImportMode> {
    if word == "merge"@ {
        Some(ImportMode::Merge)
    } else if word == "overwrite"@ {
        Some(ImportMode::Overwrite)
    } else {
        None
    }
}

impl ConfigView {
    /// The registry after `incoming` has been merged into it.
    pub open spec fn merge(self, incoming: ConfigView) -> ConfigView {
        ConfigView {
            repos: merge_repos(self.repos, incoming.repos),
            templates: merge_templates(self.templates, incoming.templates),
        }
    }

    /// The registry after an import of `incoming`.
    pub open spec fn import(self, incoming: ConfigView, mode: ImportMode) -> ConfigView {
        match mode {
            ImportMode::Merge => self.merge(incoming),
            ImportMode::Overwrite => incoming,
        }
    }
}

/// The mode that a word names: `merge` or `overwrite`, in exactly these
/// letters. Any other word names none.
pub fn parse_import_mode(mode: &str) -> (r: Option<ImportMode>)
    ensures
        r == mode_named(mode@),
{
    if str_eq(mode, "merge") {
        Some(ImportMode::Merge)
    } else if str_eq(mode, "overwrite") {
        Some(ImportMode::Overwrite)
    } else {
        None
    }
}

/// Takes one repository into `repos`.
pub fn take_in_repo(repos: &mut Vec<Repo>, incoming: Repo)
    ensures
        repos_view(final(repos)@) == upsert_repo(repos_view(old(repos)@), incoming@),
{
    match find_repo(repos, incoming.name.as_str()) {
        Some(i) => {
            let kept = &repos[i];
            let updated = Repo {
                name: kept.name.clone(),
                url: incoming.url,
                branch: incoming.branch,
                auth_token: clone_opt(&kept.auth_token),
                username: clone_opt(&kept.username),
            };
            repos.set(i, updated);
            assert(repos_view(repos@) =~= upsert_repo(repos_view(old(repos)@), incoming@));
        },
        None => {
            repos.push(incoming);
            assert(repos_view(repos@) =~= upsert_repo(repos_view(old(repos)@), incoming@));
        },
    }
}

/// Takes one template into `templates`.
pub fn take_in_template(templates: &mut Vec<Template>, incoming: Template)
    ensures
        templates_view(final(templates)@) == upsert_template(
            templates_view(old(templates)@),
            incoming@,
        ),
{
    match find_template(templates, incoming.id.as_str()) {
        Some(i) => {
            templates.set(i, incoming);
            assert(templates_view(templates@) =~= upsert_template(
                templates_view(old(templates)@),
                incoming@,
            ));
        },
        None => {
            templates.push(incoming);
            assert(templates_view(templates@) =~= upsert_template(
                templates_view(old(templates)@),
                incoming@,
            ));
        },
    }
}

impl TemplateManager {
    /// Merges `import_config` into the registry, key by key, and counts the
    /// entries that came in.
    pub fn merge_config(&mut self, import_config: Config) -> (r: MergeCounts)
        ensures
            final(self).cache_root() == old(self).cache_root(),
            final(self).config@ == old(self).config@.merge(import_config@),
            r.repos == import_config@.repos.len(),
            r.templates == import_config@.templates.len(),
    {
        let Config { repos, templates } = import_config;
        let counts = MergeCounts { repos: repos.len(), templates: templates.len() };
        let ghost coming = repos_view(repos@);
        assert(coming.take(0) =~= Seq::<RepoView>::empty());
        for repo in it: repos
            invariant
                coming == repos_view(it.seq()),
                self.cache_dir == old(self).cache_dir,
                self.config.templates == old(self).config.templates,
                repos_view(self.config.repos@) == merge_repos(
                    old(self).config@.repos,
                    coming.take(it.index()),
                ),
        {
            proof {
                assert(coming.take(it.index() + 1).drop_last() =~= coming.take(it.index()));
                assert(coming.take(it.index() + 1).last() == repo@);
            }
            take_in_repo(&mut self.config.repos, repo);
        }
        assert(coming.take(coming.len() as int) =~= coming);
        let ghost arriving = templates_view(templates@);
        assert(arriving.take(0) =~= Seq::<TemplateView>::empty());
        for template in it: templates
            invariant
                arriving == templates_view(it.seq()),
                self.cache_dir == old(self).cache_dir,
                repos_view(self.config.repos@) == merge_repos(old(self).config@.repos, coming),
                templates_view(self.config.templates@) == merge_templates(
                    old(self).config@.templates,
                    arriving.take(it.index()),
                ),
        {
            proof {
                assert(arriving.take(it.index() + 1).drop_last() =~= arriving.take(it.index()));
                assert(arriving.take(it.index() + 1).last() == template@);
            }
            take_in_template(&mut self.config.templates, template);
        }
        assert(arriving.take(arriving.len() as int) =~= arriving);
        counts
    }

    /// The registry as it is handed out. `include_cache` is reserved: the
    /// state of the cache is no part of what is handed out.
    pub fn export_config(&self, include_cache: bool) -> (r: Config)
        ensures
            r@ == self.config@,
    {
        self.config.clone()
    }
}

impl TemplateManager {
    /// Validates a registry that is to come in: fails if it has errors, with
    /// all its errors and all its warnings, and gives its warnings otherwise.
    pub fn validate_import_config(&self, import_config: &Config) -> (r: Result<
        Vec<ValidationIssue>,
        Error,
    >)
        ensures
            r is Ok <==> import_config@.errors().len() == 0,
            r is Ok ==> issues_view(r->Ok_0@) == import_config@.warnings(),
            r is Err ==> r->Err_0@ == (ErrorView::ValidationFailed {
                errors: import_config@.errors(),
                warnings: import_config@.warnings(),
            }),
    {
        let report = validate(import_config);
        if report.errors.len() > 0 {
            Err(Error::ValidationFailed { errors: report.errors, warnings: report.warnings })
        } else {
            Ok(report.warnings)
        }
    }

    /// Validates what was read from a file: `parsed` is the registry that the
    /// file holds, or the reason why it holds none.
    pub fn validate_config_file(&self, parsed: Result<Config, String>) -> (r: Result<
        FileReport,
        Error,
    >)
        ensures
            match parsed {
                Err(cause) => r is Err && r->Err_0@ == (ErrorView::ParseError { cause: cause@ }),
                Ok(found) => if found@.errors().len() > 0 {
                    r is Err && r->Err_0@ == (ErrorView::ValidationFailed {
                        errors: found@.errors(),
                        warnings: found@.warnings(),
                    })
                } else {
                    r is Ok && issues_view(r->Ok_0.warnings@) == found@.warnings() && r->Ok_0.repos
                        == found@.repos.len() && r->Ok_0.templates == found@.templates.len()
                },
            },
    {
        match parsed {
            Err(cause) => Err(Error::ParseError { cause }),
            Ok(found) => {
                match self.validate_import_config(&found) {
                    Err(e) => Err(e),
                    Ok(warnings) => Ok(
                        FileReport {
                            warnings,
                            repos: found.repos.len(),
                            templates: found.templates.len(),
                        },
                    ),
                }
            },
        }
    }

    /// Puts a registry that has come in to use: merged into the manager's
    /// registry, or in its place. A merge says how many entries it took in.
    pub fn apply_import(&mut self, incoming: Config, mode: ImportMode) -> (r: Option<MergeCounts>)
        ensures
            final(self).cache_root() == old(self).cache_root(),
            final(self).config@ == old(self).config@.import(incoming@, mode),
            r == match mode {
                ImportMode::Merge => Some(
                    MergeCounts {
                        repos: incoming@.repos.len() as usize,
                        templates: incoming@.templates.len() as usize,
                    },
                ),
                ImportMode::Overwrite => None,
            },
    {
        match mode {
            ImportMode::Merge => Some(self.merge_config(incoming)),
            ImportMode::Overwrite => {
                self.config = incoming;
                None
            },
        }
    }

    /// Imports what was read from a file: `parsed` is the registry that the
    /// file holds, or the reason why it holds none. The registry is validated
    /// unless `skip_validation` is set; then `mode`, which must be `merge` or
    /// `overwrite`, says what is done with it. Where the import fails,
    /// nothing changes.
    pub fn import_config(
        &mut self,
        parsed: Result<Config, String>,
        mode: &str,
        skip_validation: bool,
    ) -> (r: Result<ImportReport, Error>)
        ensures
            final(self).cache_root() == old(self).cache_root(),
            r is Err ==> final(self).config@ == old(self).config@,
            match parsed {
                Err(cause) => r is Err && r->Err_0@ == (ErrorView::ParseError { cause: cause@ }),
                Ok(incoming) => if !skip_validation && incoming@.errors().len() > 0 {
                    r is Err && r->Err_0@ == (ErrorView::ValidationFailed {
                        errors: incoming@.errors(),
                        warnings: incoming@.warnings(),
                    })
                } else {
                    match mode_named(mode@) {
                        None => r is Err && r->Err_0@ == (ErrorView::InvalidMode { value: mode@ }),
                        Some(m) => r is Ok && final(self).config@ == old(self).config@.import(
                            incoming@,
                            m,
                        ) && issues_view(r->Ok_0.warnings@) == (if skip_validation {
                            Seq::<IssueView>::empty()
                        } else {
                            incoming@.warnings()
                        }) && r->Ok_0.merged == (match m {
                            ImportMode::Merge => Some(
                                MergeCounts {
                                    repos: incoming@.repos.len() as usize,
                                    templates: incoming@.templates.len() as usize,
                                },
                            ),
                            ImportMode::Overwrite => None,
                        }),
                    }
                },
            },
    {
        let incoming = match parsed {
            Err(cause) => {
                return Err(Error::ParseError { cause });
            },
            Ok(found) => found,
        };
        let warnings = if skip_validation {
            let none: Vec<ValidationIssue> = Vec::new();
            assert(issues_view(none@) =~= Seq::<IssueView>::empty());
            none
        } else {
            match self.validate_import_config(&incoming) {
                Err(e) => {
                    return Err(e);
                },
                Ok(found) => found,
            }
        };
        match parse_import_mode(mode) {
            None => Err(Error::InvalidMode { value: String::from_str(mode) }),
            Some(m) => {
                let merged = self.apply_import(incoming, m);
                Ok(ImportReport { warnings, merged })
            },
        }
    }
}

/// A repository that comes in is registered afterwards with its URL and
/// branch, at the place where its name was first registered or else at the
/// end. Every repository of another name stays as and where it was, and
/// distinct names stay distinct.
pub proof fn law_upsert_repo(repos: Seq<RepoView>, incoming: RepoView)
    ensures
        upsert_repo(repos, incoming).len() >= repos.len(),
        first_repo(upsert_repo(repos, incoming), incoming.name) == Some(
            match first_repo(repos, incoming.name) {
                Some(i) => i,
                None => repos.len() as int,
            },
        ),
        ({
            let at = first_repo(upsert_repo(repos, incoming), incoming.name)->Some_0;
            let now = upsert_repo(repos, incoming)[at];
            now.name == incoming.name && now.url == incoming.url && now.branch == incoming.branch
        }),
        forall|j: int|
            0 <= j < repos.len() && (#[trigger] repos[j]).name != incoming.name ==> upsert_repo(
                repos,
                incoming,
            )[j] == repos[j],
        forall|j: int|
            0 <= j < repos.len() ==> (#[trigger] upsert_repo(repos, incoming)[j]).name
                == repos[j].name,
        names_unique(repos) ==> names_unique(upsert_repo(repos, incoming)),
{
    let after = upsert_repo(repos, incoming);
    lemma_first_repo(repos, incoming.name);
    lemma_first_repo(after, incoming.name);
    match first_repo(repos, incoming.name) {
        Some(i) => {
            assert(after[i].name == incoming.name);
            assert forall|j: int| 0 <= j < i implies (#[trigger] after[j]).name
                != incoming.name by {
                assert(after[j] == repos[j]);
            }
        },
        None => {
            assert(after[repos.len() as int] == incoming);
            assert forall|j: int| 0 <= j < repos.len() implies (#[trigger] after[j]).name
                != incoming.name by {
                assert(after[j] == repos[j]);
            }
        },
    }
    assert forall|j: int| 0 <= j < repos.len() implies (#[trigger] after[j]).name
        == repos[j].name by {}
    if names_unique(repos) {
        assert forall|i: int, j: int| 0 <= i < j < after.len() implies (#[trigger] after[i]).name
            != (#[trigger] after[j]).name by {
            assert(after[i].name == repos[i].name);
            if j < repos.len() {
                assert(after[j].name == repos[j].name);
            }
        }
    }
}

/// A template that comes in is registered afterwards as it came, at the
/// place where its identifier was first registered or else at the end. Every
/// template of another identifier stays as and where it was, and distinct
/// identifiers stay distinct.
pub proof fn law_upsert_template(templates: Seq<TemplateView>, incoming: TemplateView)
    ensures
        upsert_template(templates, incoming).len() >= templates.len(),
        first_template(upsert_template(templates, incoming), incoming.id) == Some(
            match first_template(templates, incoming.id) {
                Some(i) => i,
                None => templates.len() as int,
            },
        ),
        upsert_template(templates, incoming)[first_template(
            upsert_template(templates, incoming),
            incoming.id,
        )->Some_0] == incoming,
        forall|j: int|
            0 <= j < templates.len() && (#[trigger] templates[j]).id != incoming.id
                ==> upsert_template(templates, incoming)[j] == templates[j],
        forall|j: int|
            0 <= j < templates.len() ==> (#[trigger] upsert_template(templates, incoming)[j]).id
                == templates[j].id,
        ids_unique(templates) ==> ids_unique(upsert_template(templates, incoming)),
{
    let after = upsert_template(templates, incoming);
    lemma_first_template(templates, incoming.id);
    lemma_first_template(after, incoming.id);
    match first_template(templates, incoming.id) {
        Some(i) => {
            assert(after[i].id == incoming.id);
            assert forall|j: int| 0 <= j < i implies (#[trigger] after[j]).id != incoming.id by {
                assert(after[j] == templates[j]);
            }
        },
        None => {
            assert(after[templates.len() as int] == incoming);
            assert forall|j: int| 0 <= j < templates.len() implies (#[trigger] after[j]).id
                != incoming.id by {
                assert(after[j] == templates[j]);
            }
        },
    }
    assert forall|j: int| 0 <= j < templates.len() implies (#[trigger] after[j]).id
        == templates[j].id by {}
    if ids_unique(templates) {
        assert forall|i: int, j: int| 0 <= i < j < after.len() implies (#[trigger] after[i]).id != (
        #[trigger] after[j]).id by {
            assert(after[i].id == templates[i].id);
            if j < templates.len() {
                assert(after[j].id == templates[j].id);
            }
        }
    }
}

impl ConfigView {
    /// A merge keeps distinct keys distinct, whatever comes in.
    pub proof fn law_merge_keeps_keys_unique(self, incoming: ConfigView)
        requires
            self.keys_unique(),
        ensures
            self.merge(incoming).keys_unique(),
    {
        lemma_merge_repos_unique(self.repos, incoming.repos);
        lemma_merge_templates_unique(self.templates, incoming.templates);
    }

    /// After a merge, the first repository of each name that came in has the
    /// URL and the branch of the last one that came in under that name.
    pub proof fn law_merged_repo_is_taken_over(self, incoming: ConfigView, k: int)
        requires
            0 <= k < incoming.repos.len(),
            forall|j: int|
                k < j < incoming.repos.len() ==> (#[trigger] incoming.repos[j]).name
                    != incoming.repos[k].name,
        ensures
            self.merge(incoming).repo_index(incoming.repos[k].name) is Some,
            ({
                let at = self.merge(incoming).repo_index(incoming.repos[k].name)->Some_0;
                let now = self.merge(incoming).repos[at];
                now.name == incoming.repos[k].name && now.url == incoming.repos[k].url
                    && now.branch == incoming.repos[k].branch
            }),
    {
        lemma_merged_repo(self.repos, incoming.repos, k);
    }

    /// After a merge, the first template of each identifier that came in is
    /// the last one that came in under that identifier.
    pub proof fn law_merged_template_is_taken_over(self, incoming: ConfigView, k: int)
        requires
            0 <= k < incoming.templates.len(),
            forall|j: int|
                k < j < incoming.templates.len() ==> (#[trigger] incoming.templates[j]).id
                    != incoming.templates[k].id,
        ensures
            self.merge(incoming).template_index(incoming.templates[k].id) is Some,
            self.merge(incoming).templates[self.merge(incoming).template_index(
                incoming.templates[k].id,
            )->Some_0] == incoming.templates[k],
    {
        lemma_merged_template(self.templates, incoming.templates, k);
    }

    /// What is handed out can be taken back: a registry that is overwritten
    /// with what another handed out is that other registry, and a registry
    /// with distinct keys that takes in what it handed out itself, merged or
    /// overwritten, is what it was.
    pub proof fn law_taking_back_what_was_handed_out(self, other: ConfigView, mode: ImportMode)
        ensures
            other.import(self, ImportMode::Overwrite) == self,
            self.keys_unique() ==> self.import(self, mode) == self,
    {
        if self.keys_unique() {
            lemma_merge_own_repos(self.repos, self.repos.len() as int);
            lemma_merge_own_templates(self.templates, self.templates.len() as int);
            assert(self.repos.take(self.repos.len() as int) =~= self.repos);
            assert(self.templates.take(self.templates.len() as int) =~= self.templates);
        }
    }

    /// A merge loses nothing: every name and every identifier that was
    /// registered is registered afterwards, at the place where it was.
    pub proof fn law_merge_keeps_what_was_registered(self, incoming: ConfigView)
        ensures
            self.merge(incoming).repos.len() >= self.repos.len(),
            self.merge(incoming).templates.len() >= self.templates.len(),
            forall|j: int|
                0 <= j < self.repos.len() ==> (#[trigger] self.merge(incoming).repos[j]).name
                    == self.repos[j].name,
            forall|j: int|
                0 <= j < self.templates.len() ==> (#[trigger] self.merge(incoming).templates[j]).id
                    == self.templates[j].id,
    {
        lemma_merge_repos_keeps(self.repos, incoming.repos);
        lemma_merge_templates_keeps(self.templates, incoming.templates);
    }
}

proof fn lemma_merge_own_repos(repos: Seq<RepoView>, n: int)
    requires
        names_unique(repos),
        0 <= n <= repos.len(),
    ensures
        merge_repos(repos, repos.take(n)) == repos,
    decreases n,
{
    if n > 0 {
        lemma_merge_own_repos(repos, n - 1);
        assert(repos.take(n).drop_last() =~= repos.take(n - 1));
        assert(repos.take(n).last() == repos[n - 1]);
        lemma_first_repo(repos, repos[n - 1].name);
        assert(upsert_repo(repos, repos[n - 1]) =~= repos);
    }
}

proof fn lemma_merge_own_templates(templates: Seq<TemplateView>, n: int)
    requires
        ids_unique(templates),
        0 <= n <= templates.len(),
    ensures
        merge_templates(templates, templates.take(n)) == templates,
    decreases n,
{
    if n > 0 {
        lemma_merge_own_templates(templates, n - 1);
        assert(templates.take(n).drop_last() =~= templates.take(n - 1));
        assert(templates.take(n).last() == templates[n - 1]);
        lemma_first_template(templates, templates[n - 1].id);
        assert(upsert_template(templates, templates[n - 1]) =~= templates);
    }
}

proof fn lemma_merge_repos_unique(repos: Seq<RepoView>, incoming: Seq<RepoView>)
    requires
        names_unique(repos),
    ensures
        names_unique(merge_repos(repos, incoming)),
    decreases incoming.len(),
{
    if incoming.len() > 0 {
        lemma_merge_repos_unique(repos, incoming.drop_last());
        law_upsert_repo(merge_repos(repos, incoming.drop_last()), incoming.last());
    }
}

proof fn lemma_merge_templates_unique(templates: Seq<TemplateView>, incoming: Seq<TemplateView>)
    requires
        ids_unique(templates),
    ensures
        ids_unique(merge_templates(templates, incoming)),
    decreases incoming.len(),
{
    if incoming.len() > 0 {
        lemma_merge_templates_unique(templates, incoming.drop_last());
        law_upsert_template(merge_templates(templates, incoming.drop_last()), incoming.last());
    }
}

proof fn lemma_merge_repos_keeps(repos: Seq<RepoView>, incoming: Seq<RepoView>)
    ensures
        merge_repos(repos, incoming).len() >= repos.len(),
        forall|j: int|
            0 <= j < repos.len() ==> (#[trigger] merge_repos(repos, incoming)[j]).name
                == repos[j].name,
    decreases incoming.len(),
{
    if incoming.len() > 0 {
        let before = merge_repos(repos, incoming.drop_last());
        lemma_merge_repos_keeps(repos, incoming.drop_last());
        law_upsert_repo(before, incoming.last());
        assert forall|j: int| 0 <= j < repos.len() implies (#[trigger] merge_repos(
            repos,
            incoming,
        )[j]).name == repos[j].name by {
            assert(before[j].name == repos[j].name);
        }
    }
}

proof fn lemma_merge_templates_keeps(templates: Seq<TemplateView>, incoming: Seq<TemplateView>)
    ensures
        merge_templates(templates, incoming).len() >= templates.len(),
        forall|j: int|
            0 <= j < templates.len() ==> (#[trigger] merge_templates(templates, incoming)[j]).id
                == templates[j].id,
    decreases incoming.len(),
{
    if incoming.len() > 0 {
        let before = merge_templates(templates, incoming.drop_last());
        lemma_merge_templates_keeps(templates, incoming.drop_last());
        law_upsert_template(before, incoming.last());
        assert forall|j: int| 0 <= j < templates.len() implies (#[trigger] merge_templates(
            templates,
            incoming,
        )[j]).id == templates[j].id by {
            assert(before[j].id == templates[j].id);
        }
    }
}

proof fn lemma_merged_repo(repos: Seq<RepoView>, incoming: Seq<RepoView>, k: int)
    requires
        0 <= k < incoming.len(),
        forall|j: int| k < j < incoming.len() ==> (#[trigger] incoming[j]).name != incoming[k].name,
    ensures
        first_repo(merge_repos(repos, incoming), incoming[k].name) is Some,
        ({
            let at = first_repo(merge_repos(repos, incoming), incoming[k].name)->Some_0;
            let now = merge_repos(repos, incoming)[at];
            now.name == incoming[k].name && now.url == incoming[k].url && now.branch
                == incoming[k].branch
        }),
    decreases incoming.len(),
{
    let front = incoming.drop_last();
    let before = merge_repos(repos, front);
    let after = merge_repos(repos, incoming);
    let name = incoming[k].name;
    law_upsert_repo(before, incoming.last());
    if k < incoming.len() - 1 {
        assert forall|j: int| k < j < front.len() implies (#[trigger] front[j]).name
            != front[k].name by {
            assert(front[j] == incoming[j]);
        }
        lemma_merged_repo(repos, front, k);
        assert(incoming[incoming.len() - 1].name != name);
        lemma_first_repo(before, name);
        lemma_first_repo(after, name);
        let at = first_repo(before, name)->Some_0;
        assert(after[at] == before[at]);
        assert forall|j: int| 0 <= j < at implies (#[trigger] after[j]).name != name by {
            assert(after[j].name == before[j].name);
        }
    }
}

proof fn lemma_merged_template(templates: Seq<TemplateView>, incoming: Seq<TemplateView>, k: int)
    requires
        0 <= k < incoming.len(),
        forall|j: int| k < j < incoming.len() ==> (#[trigger] incoming[j]).id != incoming[k].id,
    ensures
        first_template(merge_templates(templates, incoming), incoming[k].id) is Some,
        merge_templates(templates, incoming)[first_template(
            merge_templates(templates, incoming),
            incoming[k].id,
        )->Some_0] == incoming[k],
    decreases incoming.len(),
{
    let front = incoming.drop_last();
    let before = merge_templates(templates, front);
    let after = merge_templates(templates, incoming);
    let id = incoming[k].id;
    law_upsert_template(before, incoming.last());
    if k < incoming.len() - 1 {
        assert forall|j: int| k < j < front.len() implies (#[trigger] front[j]).id
            != front[k].id by {
            assert(front[j] == incoming[j]);
        }
        lemma_merged_template(templates, front, k);
        assert(incoming[incoming.len() - 1].id != id);
        lemma_first_template(before, id);
        lemma_first_template(after, id);
        let at = first_template(before, id)->Some_0;
        assert(after[at] == before[at]);
        assert forall|j: int| 0 <= j < at implies (#[trigger] after[j]).id != id by {
            assert(after[j].id == before[j].id);
        }
    }
}

} // verus!
