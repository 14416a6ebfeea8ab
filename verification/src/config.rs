//! The registry's data: repositories, templates, and their mathematical views.
//!
//! Every contract of the library speaks of these values through their views,
//! in which a string is the sequence of its characters.

use vstd::prelude::*;

verus! {

/// A git repository that hosts templates. Its identity is `name`.
#[derive(Debug, PartialEq, Eq)]
pub struct Repo {
    pub name: String,
    pub url: String,
    pub branch: String,
    /// Optional authentication token for private repositories.
    pub auth_token: Option<String>,
    /// Optional username for private repositories.
    pub username: Option<String>,
}

/// What a `Repo` is, field by field.
pub struct RepoView {
    pub name: Seq<char>,
    pub url: Seq<char>,
    pub branch: Seq<char>,
    pub auth_token: Option<Seq<char>>,
    pub username: Option<Seq<char>>,
}

/// A subtree of a repository that projects are generated from. Its identity
/// is `id`; `repo` names the repository that holds it.
#[derive(Debug, PartialEq, Eq)]
pub struct Template {
    pub id: String,
    pub name: String,
    pub repo: String,
    pub path: String,
    pub description: String,
    pub language: String,
    pub tags: Vec<String>,
}

/// What a `Template` is, field by field.
pub struct TemplateView {
    pub id: Seq<char>,
    pub name: Seq<char>,
    pub repo: Seq<char>,
    pub path: Seq<char>,
    pub description: Seq<char>,
    pub language: Seq<char>,
    pub tags: Seq<Seq<char>>,
}

/// The registry: repositories and templates, each in the order in which they
/// were registered.
#[derive(Debug, PartialEq, Eq)]
pub struct Config {
    pub repos: Vec<Repo>,
    pub templates: Vec<Template>,
}

/// What a `Config` is: two sequences of views.
pub struct ConfigView {
    pub repos: Seq<RepoView>,
    pub templates: Seq<TemplateView>,
}

/// What the user asked for when generating a project.
#[derive(Debug, PartialEq, Eq)]
pub struct ProjectConfig {
    pub name: String,
    pub author: String,
    pub description: String,
    pub output_dir: String,
    pub template: Template,
}

/// What a `ProjectConfig` is, field by field.
pub struct ProjectConfigView {
    pub name: Seq<char>,
    pub author: Seq<char>,
    pub description: Seq<char>,
    pub output_dir: Seq<char>,
    pub template: TemplateView,
}

/// The view of an optional string.
pub open spec fn opt_view(s: Option<String>) -> Option<Seq<char>> {
    match s {
        Some(t) => Some(t@),
        None => None,
    }
}

/// The views of a sequence of strings, in order.
pub open spec fn strings_view(v: Seq<String>) -> Seq<Seq<char>> {
    v.map_values(|s: String| s@)
}

/// The views of a sequence of repositories, in order.
pub open spec fn repos_view(v: Seq<Repo>) -> Seq<RepoView> {
    v.map_values(|r: Repo| r@)
}

/// The views of a sequence of templates, in order.
pub open spec fn templates_view(v: Seq<Template>) -> Seq<TemplateView> {
    v.map_values(|t: Template| t@)
}

impl View for Repo {
    type V = RepoView;

    open spec fn view(&self) -> RepoView {
        RepoView {
            name: self.name@,
            url: self.url@,
            branch: self.branch@,
            auth_token: opt_view(self.auth_token),
            username: opt_view(self.username),
        }
    }
}

impl View for Template {
    type V = TemplateView;

    open spec fn view(&self) -> TemplateView {
        TemplateView {
            id: self.id@,
            name: self.name@,
            repo: self.repo@,
            path: self.path@,
            description: self.description@,
            language: self.language@,
            tags: strings_view(self.tags@),
        }
    }
}

impl View for Config {
    type V = ConfigView;

    open spec fn view(&self) -> ConfigView {
        ConfigView { repos: repos_view(self.repos@), templates: templates_view(self.templates@) }
    }
}

impl View for ProjectConfig {
    type V = ProjectConfigView;

    open spec fn view(&self) -> ProjectConfigView {
        ProjectConfigView {
            name: self.name@,
            author: self.author@,
            description: self.description@,
            output_dir: self.output_dir@,
            template: self.template@,
        }
    }
}

impl ConfigView {
    /// The registry with nothing in it.
    pub open spec fn empty() -> ConfigView {
        ConfigView { repos: Seq::empty(), templates: Seq::empty() }
    }

    /// The position of the first repository called `name`, if there is one.
    pub open spec fn repo_index(self, name: Seq<char>) -> Option<int> {
        first_repo(self.repos, name)
    }

    /// The position of the first template with identifier `id`, if there is one.
    pub open spec fn template_index(self, id: Seq<char>) -> Option<int> {
        first_template(self.templates, id)
    }

    /// Whether a repository called `name` is registered.
    pub open spec fn has_repo(self, name: Seq<char>) -> bool {
        exists|i: int| 0 <= i < self.repos.len() && (#[trigger] self.repos[i]).name == name
    }

    /// Whether a template with identifier `id` is registered.
    pub open spec fn has_template(self, id: Seq<char>) -> bool {
        exists|i: int| 0 <= i < self.templates.len() && (#[trigger] self.templates[i]).id == id
    }

    /// Whether some template is bound to the repository called `name`.
    pub open spec fn repo_in_use(self, name: Seq<char>) -> bool {
        bound_to(self.templates, name)
    }

    /// Whether no two repositories share a name and no two templates share
    /// an identifier.
    pub open spec fn keys_unique(self) -> bool {
        names_unique(self.repos) && ids_unique(self.templates)
    }

    /// Whether every template is bound to a registered repository.
    pub open spec fn references_resolve(self) -> bool {
        forall|i: int|
            0 <= i < self.templates.len() ==> self.has_repo((#[trigger] self.templates[i]).repo)
    }
}

/// Whether no two of `repos` share a name.
pub open spec fn names_unique(repos: Seq<RepoView>) -> bool {
    forall|i: int, j: int|
        0 <= i < j < repos.len() ==> (#[trigger] repos[i]).name != (#[trigger] repos[j]).name
}

/// Whether no two of `templates` share an identifier.
pub open spec fn ids_unique(templates: Seq<TemplateView>) -> bool {
    forall|i: int, j: int|
        0 <= i < j < templates.len() ==> (#[trigger] templates[i]).id != (
        #[trigger] templates[j]).id
}

/// Whether some template in `templates` is bound to the repository `name`.
pub open spec fn bound_to(templates: Seq<TemplateView>, name: Seq<char>) -> bool {
    exists|i: int| 0 <= i < templates.len() && (#[trigger] templates[i]).repo == name
}

/// The least position in `repos` of a repository called `name`.
pub open spec fn first_repo(repos: Seq<RepoView>, name: Seq<char>) -> Option<int>
    decreases repos.len(),
{
    if repos.len() == 0 {
        None
    } else {
        match first_repo(repos.drop_last(), name) {
            Some(i) => Some(i),
            None => if repos.last().name == name {
                Some(repos.len() - 1)
            } else {
                None
            },
        }
    }
}

/// The least position in `templates` of a template with identifier `id`.
pub open spec fn first_template(templates: Seq<TemplateView>, id: Seq<char>) -> Option<int>
    decreases templates.len(),
{
    if templates.len() == 0 {
        None
    } else {
        match first_template(templates.drop_last(), id) {
            Some(i) => Some(i),
            None => if templates.last().id == id {
                Some(templates.len() - 1)
            } else {
                None
            },
        }
    }
}

/// Copies an optional string.
pub fn clone_opt(s: &Option<String>) -> (r: Option<String>)
    ensures
        opt_view(r) == opt_view(*s),
{
    match s {
        Some(t) => Some(t.clone()),
        None => None,
    }
}

/// Copies a list of strings.
pub fn clone_strings(v: &Vec<String>) -> (r: Vec<String>)
    ensures
        strings_view(r@) == strings_view(v@),
{
    let mut out: Vec<String> = Vec::new();
    let mut i: usize = 0;
    while i < v.len()
        invariant
            i <= v.len(),
            out@.len() == i,
            forall|j: int| 0 <= j < i ==> out@[j]@ == v@[j]@,
        decreases v.len() - i,
    {
        out.push(v[i].clone());
        i += 1;
    }
    assert(strings_view(out@) =~= strings_view(v@));
    out
}

impl Clone for Repo {
    fn clone(&self) -> (r: Self)
        ensures
            r@ == self@,
    {
        Repo {
            name: self.name.clone(),
            url: self.url.clone(),
            branch: self.branch.clone(),
            auth_token: clone_opt(&self.auth_token),
            username: clone_opt(&self.username),
        }
    }
}

impl Clone for Template {
    fn clone(&self) -> (r: Self)
        ensures
            r@ == self@,
    {
        Template {
            id: self.id.clone(),
            name: self.name.clone(),
            repo: self.repo.clone(),
            path: self.path.clone(),
            description: self.description.clone(),
            language: self.language.clone(),
            tags: clone_strings(&self.tags),
        }
    }
}

/// Copies a list of repositories.
pub fn clone_repos(v: &Vec<Repo>) -> (r: Vec<Repo>)
    ensures
        repos_view(r@) == repos_view(v@),
{
    let mut out: Vec<Repo> = Vec::new();
    let mut i: usize = 0;
    while i < v.len()
        invariant
            i <= v.len(),
            out@.len() == i,
            forall|j: int| 0 <= j < i ==> out@[j]@ == v@[j]@,
        decreases v.len() - i,
    {
        out.push(v[i].clone());
        i += 1;
    }
    assert(repos_view(out@) =~= repos_view(v@));
    out
}

/// Copies a list of templates.
pub fn clone_templates(v: &Vec<Template>) -> (r: Vec<Template>)
    ensures
        templates_view(r@) == templates_view(v@),
{
    let mut out: Vec<Template> = Vec::new();
    let mut i: usize = 0;
    while i < v.len()
        invariant
            i <= v.len(),
            out@.len() == i,
            forall|j: int| 0 <= j < i ==> out@[j]@ == v@[j]@,
        decreases v.len() - i,
    {
        out.push(v[i].clone());
        i += 1;
    }
    assert(templates_view(out@) =~= templates_view(v@));
    out
}

impl Clone for Config {
    fn clone(&self) -> (r: Self)
        ensures
            r@ == self@,
    {
        Config { repos: clone_repos(&self.repos), templates: clone_templates(&self.templates) }
    }
}

impl Clone for ProjectConfig {
    fn clone(&self) -> (r: Self)
        ensures
            r@ == self@,
    {
        ProjectConfig {
            name: self.name.clone(),
            author: self.author.clone(),
            description: self.description.clone(),
            output_dir: self.output_dir.clone(),
            template: self.template.clone(),
        }
    }
}

impl Config {
    /// The registry with nothing in it.
    pub fn empty() -> (r: Config)
        ensures
            r@ == ConfigView::empty(),
    {
        let r = Config { repos: Vec::new(), templates: Vec::new() };
        assert(r@.repos =~= Seq::empty());
        assert(r@.templates =~= Seq::empty());
        r
    }
}

} // verus!
