//! The template manager: the registry together with the root of its cache,
//! and the operations that look entries up, add them and remove them.
//!
//! An operation that fails leaves the registry as it was. Writing the
//! registry to disk after an operation that succeeded is the caller's part.

use vstd::prelude::*;
use vstd::string::StringExecFns;
use crate::config::{
    bound_to, first_repo, first_template, opt_view, repos_view, strings_view,
    templates_view, Config, ConfigView, Repo, RepoView, Template, TemplateView,
};
use crate::error::{EntryKind, Error, ErrorView};
use crate::paths::{Location, LocationView};
use crate::tags::{parse_tags, tags_from};
use crate::text::str_eq;

verus! {

/// The registry and the directory under which templates are cached.
#[derive(Debug, PartialEq, Eq)]
pub struct TemplateManager {
    pub config: Config,
    /// The path of the cache's root.
    pub cache_dir: Location,
}

impl ConfigView {
    /// The registry with one more repository at the end.
    pub open spec fn with_repo(self, repo: RepoView) -> ConfigView {
        ConfigView { repos: self.repos.push(repo), ..self }
    }

    /// The registry without the repository at position `i`.
    pub open spec fn without_repo(self, i: int) -> ConfigView {
        ConfigView { repos: self.repos.remove(i), ..self }
    }

    /// The registry with one more template at the end.
    pub open spec fn with_template(self, template: TemplateView) -> ConfigView {
        ConfigView { templates: self.templates.push(template), ..self }
    }

    /// The registry without the template at position `i`.
    pub open spec fn without_template(self, i: int) -> ConfigView {
        ConfigView { templates: self.templates.remove(i), ..self }
    }
}

/// `first_repo` finds the least position that holds the name, and finds
/// nothing only where no position holds it.
pub proof fn lemma_first_repo(repos: Seq<RepoView>, name: Seq<char>)
    ensures
        match first_repo(repos, name) {
            Some(i) => 0 <= i < repos.len() && repos[i].name == name && forall|j: int|
                0 <= j < i ==> (#[trigger] repos[j]).name != name,
            None => forall|j: int| 0 <= j < repos.len() ==> (#[trigger] repos[j]).name != name,
        },
    decreases repos.len(),
{
    if repos.len() > 0 {
        let front = repos.drop_last();
        lemma_first_repo(front, name);
        assert forall|j: int| 0 <= j < front.len() implies (#[trigger] repos[j]).name
            == front[j].name by {}
    }
}

/// `first_template` finds the least position that holds the identifier, and
/// finds nothing only where no position holds it.
pub proof fn lemma_first_template(templates: Seq<TemplateView>, id: Seq<char>)
    ensures
        match first_template(templates, id) {
            Some(i) => 0 <= i < templates.len() && templates[i].id == id && forall|j: int|
                0 <= j < i ==> (#[trigger] templates[j]).id != id,
            None => forall|j: int|
                0 <= j < templates.len() ==> (#[trigger] templates[j]).id != id,
        },
    decreases templates.len(),
{
    if templates.len() > 0 {
        let front = templates.drop_last();
        lemma_first_template(front, id);
        assert forall|j: int| 0 <= j < front.len() implies (#[trigger] templates[j]).id
            == front[j].id by {}
    }
}

/// The least position in `repos` of a repository called `name`.
pub fn find_repo(repos: &Vec<Repo>, name: &str) -> (r: Option<usize>)
    ensures
        match r {
            Some(i) => i < repos.len() && first_repo(repos_view(repos@), name@) == Some(i as int),
            None => first_repo(repos_view(repos@), name@) is None,
        },
{
    let mut i: usize = 0;
    while i < repos.len()
        invariant
            i <= repos.len(),
            forall|j: int| 0 <= j < i ==> (#[trigger] repos_view(repos@)[j]).name != name@,
        decreases repos.len() - i,
    {
        if str_eq(repos[i].name.as_str(), name) {
            proof {
                lemma_first_repo(repos_view(repos@), name@);
                assert(repos_view(repos@)[i as int].name == name@);
            }
            return Some(i);
        }
        i += 1;
    }
    proof {
        lemma_first_repo(repos_view(repos@), name@);
    }
    None
}

/// The least position in `templates` of a template with identifier `id`.
pub fn find_template(templates: &Vec<Template>, id: &str) -> (r: Option<usize>)
    ensures
        match r {
            Some(i) => i < templates.len() && first_template(templates_view(templates@), id@)
                == Some(i as int),
            None => first_template(templates_view(templates@), id@) is None,
        },
{
    let mut i: usize = 0;
    while i < templates.len()
        invariant
            i <= templates.len(),
            forall|j: int| 0 <= j < i ==> (#[trigger] templates_view(templates@)[j]).id != id@,
        decreases templates.len() - i,
    {
        if str_eq(templates[i].id.as_str(), id) {
            proof {
                lemma_first_template(templates_view(templates@), id@);
                assert(templates_view(templates@)[i as int].id == id@);
            }
            return Some(i);
        }
        i += 1;
    }
    proof {
        lemma_first_template(templates_view(templates@), id@);
    }
    None
}

/// Whether some template in `templates` is bound to the repository `name`.
pub fn any_template_uses(templates: &Vec<Template>, name: &str) -> (r: bool)
    ensures
        r == bound_to(templates_view(templates@), name@),
{
    let mut i: usize = 0;
    while i < templates.len()
        invariant
            i <= templates.len(),
            forall|j: int| 0 <= j < i ==> (#[trigger] templates_view(templates@)[j]).repo != name@,
        decreases templates.len() - i,
    {
        if str_eq(templates[i].repo.as_str(), name) {
            assert(templates_view(templates@)[i as int].repo == name@);
            return true;
        }
        i += 1;
    }
    false
}

impl Clone for TemplateManager {
    fn clone(&self) -> (r: Self)
        ensures
            r.config@ == self.config@,
            r.cache_root() == self.cache_root(),
    {
        TemplateManager {
            config: self.config.clone(),
            cache_dir: self.cache_dir.clone(),
        }
    }
}

impl TemplateManager {
    /// The path of the cache's root.
    pub open spec fn cache_root(self) -> LocationView {
        self.cache_dir@
    }

    /// A manager of the given registry, with its cache under `cache_dir`, a
    /// path given by its parts.
    pub fn from_parts(config: Config, cache_dir: Vec<String>) -> (r: TemplateManager)
        ensures
            r.config == config,
            r.cache_root() == LocationView::of(strings_view(cache_dir@)),
    {
        TemplateManager { config, cache_dir: Location::of(cache_dir) }
    }

    /// The path of the cache's root.
    pub fn cache_dir(&self) -> (r: &Location)
        ensures
            r@ == self.cache_root(),
    {
        &self.cache_dir
    }

    /// The first template with identifier `id`.
    pub fn get_template_by_id(&self, id: &str) -> (r: Option<&Template>)
        ensures
            match self.config@.template_index(id@) {
                Some(i) => r is Some && *r->Some_0 == self.config.templates@[i],
                None => r is None,
            },
            r is Some <==> self.config@.has_template(id@),
    {
        proof {
            lemma_first_template(self.config@.templates, id@);
        }
        match find_template(&self.config.templates, id) {
            Some(i) => Some(&self.config.templates[i]),
            None => None,
        }
    }

    /// The first repository called `name`.
    pub fn get_repo_by_name(&self, name: &str) -> (r: Option<&Repo>)
        ensures
            match self.config@.repo_index(name@) {
                Some(i) => r is Some && *r->Some_0 == self.config.repos@[i],
                None => r is None,
            },
            r is Some <==> self.config@.has_repo(name@),
    {
        proof {
            lemma_first_repo(self.config@.repos, name@);
        }
        match find_repo(&self.config.repos, name) {
            Some(i) => Some(&self.config.repos[i]),
            None => None,
        }
    }

    /// Registers a repository under a name that no repository has yet.
    pub fn add_repo(&mut self, name: String, url: String, branch: String) -> (r: Result<(), Error>)
        ensures
            final(self).cache_root() == old(self).cache_root(),
            r is Err <==> old(self).config@.has_repo(name@),
            r is Ok ==> final(self).config@ == old(self).config@.with_repo(
                RepoView {
                    name: name@,
                    url: url@,
                    branch: branch@,
                    auth_token: None,
                    username: None,
                },
            ),
            r is Err ==> final(self).config@ == old(self).config@ && r->Err_0@
                == (ErrorView::AlreadyExists { kind: EntryKind::Repository, key: name@ }),
    {
        proof {
            lemma_first_repo(self.config@.repos, name@);
        }
        if find_repo(&self.config.repos, name.as_str()).is_some() {
            return Err(Error::AlreadyExists { kind: EntryKind::Repository, key: name });
        }
        let repo = Repo { name, url, branch, auth_token: None, username: None };
        self.config.repos.push(repo);
        assert(final(self).config@.repos =~= old(self).config@.repos.push(repo@));
        Ok(())
    }

    /// Removes the repository called `name`, unless a template is bound to it.
    pub fn remove_repo(&mut self, name: &str) -> (r: Result<(), Error>)
        ensures
            final(self).cache_root() == old(self).cache_root(),
            r is Ok <==> !old(self).config@.repo_in_use(name@) && old(self).config@.has_repo(
                name@,
            ),
            r is Ok ==> final(self).config@ == old(self).config@.without_repo(
                old(self).config@.repo_index(name@)->Some_0,
            ),
            r is Err ==> final(self).config@ == old(self).config@,
            old(self).config@.repo_in_use(name@) ==> r is Err && r->Err_0@ == (ErrorView::InUse {
                repo: name@,
            }),
            !old(self).config@.repo_in_use(name@) && !old(self).config@.has_repo(name@) ==> r is Err
                && r->Err_0@ == (ErrorView::NotFound { kind: EntryKind::Repository, key: name@ }),
    {
        proof {
            lemma_first_repo(self.config@.repos, name@);
        }
        if any_template_uses(&self.config.templates, name) {
            return Err(Error::InUse { repo: String::from_str(name) });
        }
        match find_repo(&self.config.repos, name) {
            Some(i) => {
                self.config.repos.remove(i);
                assert(final(self).config@.repos =~= old(self).config@.repos.remove(i as int));
                Ok(())
            },
            None => Err(Error::NotFound { kind: EntryKind::Repository, key: String::from_str(name) }),
        }
    }

    /// Removes the template with identifier `id`.
    pub fn remove_template(&mut self, id: &str) -> (r: Result<(), Error>)
        ensures
            final(self).cache_root() == old(self).cache_root(),
            r is Ok <==> old(self).config@.has_template(id@),
            r is Ok ==> final(self).config@ == old(self).config@.without_template(
                old(self).config@.template_index(id@)->Some_0,
            ),
            r is Err ==> final(self).config@ == old(self).config@ && r->Err_0@
                == (ErrorView::NotFound { kind: EntryKind::Template, key: id@ }),
    {
        proof {
            lemma_first_template(self.config@.templates, id@);
        }
        match find_template(&self.config.templates, id) {
            Some(i) => {
                self.config.templates.remove(i);
                assert(final(self).config@.templates =~= old(self).config@.templates.remove(
                    i as int,
                ));
                Ok(())
            },
            None => Err(Error::NotFound { kind: EntryKind::Template, key: String::from_str(id) }),
        }
    }
}

impl TemplateManager {
    /// Registers a template under an identifier that no template has yet, and
    /// binds it to a registered repository. `tags` is a comma-separated list.
    pub fn add_template(
        &mut self,
        id: String,
        name: String,
        repo: String,
        path: String,
        description: String,
        language: String,
        tags: Option<String>,
    ) -> (r: Result<(), Error>)
        ensures
            final(self).cache_root() == old(self).cache_root(),
            r is Ok <==> old(self).config@.has_repo(repo@) && !old(self).config@.has_template(id@),
            r is Ok ==> final(self).config@ == old(self).config@.with_template(
                TemplateView {
                    id: id@,
                    name: name@,
                    repo: repo@,
                    path: path@,
                    description: description@,
                    language: language@,
                    tags: tags_from(opt_view(tags)),
                },
            ),
            r is Err ==> final(self).config@ == old(self).config@,
            !old(self).config@.has_repo(repo@) ==> r is Err && r->Err_0@ == (ErrorView::NotFound {
                kind: EntryKind::Repository,
                key: repo@,
            }),
            old(self).config@.has_repo(repo@) && old(self).config@.has_template(id@) ==> r is Err
                && r->Err_0@ == (ErrorView::AlreadyExists { kind: EntryKind::Template, key: id@ }),
    {
        proof {
            lemma_first_repo(self.config@.repos, repo@);
            lemma_first_template(self.config@.templates, id@);
        }
        if find_repo(&self.config.repos, repo.as_str()).is_none() {
            return Err(Error::NotFound { kind: EntryKind::Repository, key: repo });
        }
        if find_template(&self.config.templates, id.as_str()).is_some() {
            return Err(Error::AlreadyExists { kind: EntryKind::Template, key: id });
        }
        let tag_list = match &tags {
            Some(t) => parse_tags(t.as_str()),
            None => Vec::new(),
        };
        assert(strings_view(tag_list@) =~= tags_from(opt_view(tags)));
        let template = Template { id, name, repo, path, description, language, tags: tag_list };
        self.config.templates.push(template);
        assert(final(self).config@.templates =~= old(self).config@.templates.push(template@));
        Ok(())
    }
}

impl ConfigView {
    /// A repository that has been added is registered: adding one of the
    /// same name again is refused. What else is registered does not change.
    pub proof fn law_added_repo_is_registered(self, repo: RepoView, name: Seq<char>)
        ensures
            self.with_repo(repo).has_repo(repo.name),
            self.with_repo(repo).has_repo(name) <==> self.has_repo(name) || name == repo.name,
            self.with_repo(repo).templates == self.templates,
    {
        let after = self.with_repo(repo);
        assert(after.repos[self.repos.len() as int] == repo);
        if self.has_repo(name) {
            let i = choose|i: int| 0 <= i < self.repos.len() && (#[trigger] self.repos[i]).name == name;
            assert(after.repos[i] == self.repos[i]);
        }
        if after.has_repo(name) && name != repo.name {
            let i = choose|i: int|
                0 <= i < after.repos.len() && (#[trigger] after.repos[i]).name == name;
            assert(after.repos[i] == self.repos[i]);
        }
    }

    /// A template that has been added is registered: adding one of the same
    /// identifier again is refused. What else is registered does not change.
    pub proof fn law_added_template_is_registered(self, template: TemplateView, id: Seq<char>)
        ensures
            self.with_template(template).has_template(template.id),
            self.with_template(template).has_template(id) <==> self.has_template(id) || id
                == template.id,
            self.with_template(template).repos == self.repos,
    {
        let after = self.with_template(template);
        assert(after.templates[self.templates.len() as int] == template);
        if self.has_template(id) {
            let i = choose|i: int|
                0 <= i < self.templates.len() && (#[trigger] self.templates[i]).id == id;
            assert(after.templates[i] == self.templates[i]);
        }
        if after.has_template(id) && id != template.id {
            let i = choose|i: int|
                0 <= i < after.templates.len() && (#[trigger] after.templates[i]).id == id;
            assert(after.templates[i] == self.templates[i]);
        }
    }

    /// Adding under a key that is not taken keeps the keys distinct.
    pub proof fn law_adding_keeps_keys_unique(self, repo: RepoView, template: TemplateView)
        requires
            self.keys_unique(),
        ensures
            !self.has_repo(repo.name) ==> self.with_repo(repo).keys_unique(),
            !self.has_template(template.id) ==> self.with_template(template).keys_unique(),
    {
        if !self.has_repo(repo.name) {
            let after = self.with_repo(repo);
            assert forall|i: int, j: int| 0 <= i < j < after.repos.len() implies (
            #[trigger] after.repos[i]).name != (#[trigger] after.repos[j]).name by {
                assert(after.repos[i] == self.repos[i]);
                if j < self.repos.len() {
                    assert(after.repos[j] == self.repos[j]);
                }
            }
        }
        if !self.has_template(template.id) {
            let after = self.with_template(template);
            assert forall|i: int, j: int| 0 <= i < j < after.templates.len() implies (
            #[trigger] after.templates[i]).id != (#[trigger] after.templates[j]).id by {
                assert(after.templates[i] == self.templates[i]);
                if j < self.templates.len() {
                    assert(after.templates[j] == self.templates[j]);
                }
            }
        }
    }

    /// Removing keeps the keys distinct, and where they are distinct, what was
    /// removed is no longer registered.
    pub proof fn law_removed_entry_is_gone(self, i: int, k: int)
        requires
            self.keys_unique(),
        ensures
            0 <= i < self.repos.len() ==> self.without_repo(i).keys_unique() && !self.without_repo(
                i,
            ).has_repo(self.repos[i].name),
            0 <= k < self.templates.len() ==> self.without_template(k).keys_unique()
                && !self.without_template(k).has_template(self.templates[k].id),
    {
        if 0 <= i < self.repos.len() {
            let after = self.without_repo(i);
            assert forall|a: int, b: int| 0 <= a < b < after.repos.len() implies (
            #[trigger] after.repos[a]).name != (#[trigger] after.repos[b]).name by {
                let x = if a < i { a } else { a + 1 };
                let y = if b < i { b } else { b + 1 };
                assert(after.repos[a] == self.repos[x]);
                assert(after.repos[b] == self.repos[y]);
            }
            assert forall|a: int| 0 <= a < after.repos.len() implies (#[trigger] after.repos[a]).name
                != self.repos[i].name by {
                let x = if a < i { a } else { a + 1 };
                assert(after.repos[a] == self.repos[x]);
            }
        }
        if 0 <= k < self.templates.len() {
            let after = self.without_template(k);
            assert forall|a: int, b: int| 0 <= a < b < after.templates.len() implies (
            #[trigger] after.templates[a]).id != (#[trigger] after.templates[b]).id by {
                let x = if a < k { a } else { a + 1 };
                let y = if b < k { b } else { b + 1 };
                assert(after.templates[a] == self.templates[x]);
                assert(after.templates[b] == self.templates[y]);
            }
            assert forall|a: int| 0 <= a < after.templates.len() implies (
            #[trigger] after.templates[a]).id != self.templates[k].id by {
                let x = if a < k { a } else { a + 1 };
                assert(after.templates[a] == self.templates[x]);
            }
        }
    }

    /// Where every template is bound to a registered repository, it stays so
    /// under each change that the manager accepts: adding a repository,
    /// adding a template bound to a registered repository, removing a
    /// template, and removing a repository that no template is bound to.
    pub proof fn law_changes_keep_references(
        self,
        repo: RepoView,
        template: TemplateView,
        i: int,
        k: int,
    )
        requires
            self.references_resolve(),
        ensures
            self.with_repo(repo).references_resolve(),
            self.has_repo(template.repo) ==> self.with_template(template).references_resolve(),
            0 <= k < self.templates.len() ==> self.without_template(k).references_resolve(),
            0 <= i < self.repos.len() && !self.repo_in_use(self.repos[i].name) ==> self.without_repo(
                i,
            ).references_resolve(),
    {
        let more = self.with_repo(repo);
        assert forall|t: int| 0 <= t < more.templates.len() implies more.has_repo(
            (#[trigger] more.templates[t]).repo,
        ) by {
            self.law_added_repo_is_registered(repo, self.templates[t].repo);
        }
        if self.has_repo(template.repo) {
            let after = self.with_template(template);
            assert forall|t: int| 0 <= t < after.templates.len() implies after.has_repo(
                (#[trigger] after.templates[t]).repo,
            ) by {
                if t < self.templates.len() {
                    assert(after.templates[t] == self.templates[t]);
                }
            }
        }
        if 0 <= k < self.templates.len() {
            let after = self.without_template(k);
            assert forall|t: int| 0 <= t < after.templates.len() implies after.has_repo(
                (#[trigger] after.templates[t]).repo,
            ) by {
                let x = if t < k { t } else { t + 1 };
                assert(after.templates[t] == self.templates[x]);
            }
        }
        if 0 <= i < self.repos.len() && !self.repo_in_use(self.repos[i].name) {
            let after = self.without_repo(i);
            assert forall|t: int| 0 <= t < after.templates.len() implies after.has_repo(
                (#[trigger] after.templates[t]).repo,
            ) by {
                let bound = self.templates[t].repo;
                assert(self.has_repo(bound));
                let at = choose|at: int|
                    0 <= at < self.repos.len() && (#[trigger] self.repos[at]).name == bound;
                assert(bound != self.repos[i].name);
                let shifted = if at < i { at } else { at - 1 };
                assert(after.repos[shifted] == self.repos[at]);
            }
        }
    }
}

} // verus!
