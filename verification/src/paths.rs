//! Where the registry and the cache are kept.
//!
//! A path is given by where it starts and by its parts, each of which is
//! joined to what precedes it. A path starts at a directory that the
//! platform gave, or, where there is none, at its first part.

use vstd::prelude::*;
use vstd::string::StringExecFns;
use crate::config::{clone_strings, strings_view, Config, ConfigView, Template};
use crate::error::{Error, ErrorView};
use crate::manager::TemplateManager;

verus! {

/// A path of the standard library. Nothing of its inside is visible here: it
/// is carried as the platform gave it.
#[verifier::external_type_specification]
#[verifier::external_body]
pub struct ExPathBuf(std::path::PathBuf);

/// `dirs::config_dir`, which gives the user's configuration directory as the
/// platform and the environment define it, or nothing. Nothing is claimed of
/// what it gives.
#[verifier::external_body]
fn platform_config_dir() -> Option<std::path::PathBuf> {
    dirs::config_dir()
}

/// `dirs::cache_dir`, which gives the user's cache directory as the platform
/// and the environment define it, or nothing. Nothing is claimed of what it
/// gives.
#[verifier::external_body]
fn platform_cache_dir() -> Option<std::path::PathBuf> {
    dirs::cache_dir()
}

/// `clone` of the standard library on a path. Believed, not proved: the copy
/// is the path.
#[verifier::external_body]
fn clone_path(path: &std::path::PathBuf) -> (r: std::path::PathBuf)
    ensures
        r == *path,
{
    path.clone()
}

/// A path: the directory it starts at, if the platform gave one, and the
/// parts that are joined to it in order.
#[derive(Debug, PartialEq, Eq)]
pub struct Location {
    pub base: Option<std::path::PathBuf>,
    pub parts: Vec<String>,
}

/// What a `Location` is.
pub struct LocationView {
    pub base: Option<std::path::PathBuf>,
    pub parts: Seq<Seq<char>>,
}

impl View for Location {
    type V = LocationView;

    open spec fn view(&self) -> LocationView {
        LocationView { base: self.base, parts: strings_view(self.parts@) }
    }
}

impl LocationView {
    /// The path that is made of parts alone.
    pub open spec fn of(parts: Seq<Seq<char>>) -> LocationView {
        LocationView { base: None, parts }
    }

    /// The path with further parts joined to it.
    pub open spec fn join(self, parts: Seq<Seq<char>>) -> LocationView {
        LocationView { base: self.base, parts: self.parts + parts }
    }
}

impl Clone for Location {
    fn clone(&self) -> (r: Self)
        ensures
            r@ == self@,
    {
        let base = match &self.base {
            Some(path) => Some(clone_path(path)),
            None => None,
        };
        Location { base, parts: clone_strings(&self.parts) }
    }
}

impl Location {
    /// The path that is made of parts alone.
    pub fn of(parts: Vec<String>) -> (r: Location)
        ensures
            r@ == LocationView::of(strings_view(parts@)),
    {
        Location { base: None, parts }
    }

    /// The path with one more part joined to it.
    pub fn join(self, part: String) -> (r: Location)
        ensures
            r@ == self@.join(seq![part@]),
    {
        let mut parts = self.parts;
        parts.push(part);
        assert(strings_view(parts@) =~= strings_view(self.parts@) + seq![part@]);
        Location { base: self.base, parts }
    }
}

/// The path below the directory that the platform gave, or below `fallback`
/// where it gave none.
pub open spec fn below(
    base: Option<std::path::PathBuf>,
    fallback: Seq<char>,
    parts: Seq<Seq<char>>,
) -> LocationView {
    match base {
        Some(dir) => LocationView { base: Some(dir), parts },
        None => LocationView { base: None, parts: seq![fallback] + parts },
    }
}

/// The path of the registry's file, given the user's configuration directory.
pub open spec fn config_path_under(base: Option<std::path::PathBuf>) -> LocationView {
    below(base, ".config"@, seq!["mammoth-cli"@, "templates.json"@])
}

/// The path of the cache's root, given the user's cache directory.
pub open spec fn cache_dir_under(base: Option<std::path::PathBuf>) -> LocationView {
    below(base, ".cache"@, seq!["mammoth-cli"@, "templates"@])
}

/// The path below the directory that the platform gave, or below `fallback`
/// where it gave none.
fn place_below(base: Option<std::path::PathBuf>, fallback: &str, first: &str, second: &str) -> (r:
    Location)
    ensures
        r@ == below(base, fallback@, seq![first@, second@]),
{
    let mut parts: Vec<String> = Vec::new();
    if base.is_none() {
        parts.push(String::from_str(fallback));
    }
    parts.push(String::from_str(first));
    parts.push(String::from_str(second));
    assert(strings_view(parts@) =~= below(base, fallback@, seq![first@, second@]).parts);
    Location { base, parts }
}

/// The path of the registry's file, given the user's configuration
/// directory: `.config` stands in where there is none.
pub fn config_path_from(base: Option<std::path::PathBuf>) -> (r: Location)
    ensures
        r@ == config_path_under(base),
{
    place_below(base, ".config", "mammoth-cli", "templates.json")
}

/// The path of the cache's root, given the user's cache directory: `.cache`
/// stands in where there is none.
pub fn cache_dir_from(base: Option<std::path::PathBuf>) -> (r: Location)
    ensures
        r@ == cache_dir_under(base),
{
    place_below(base, ".cache", "mammoth-cli", "templates")
}

impl TemplateManager {
    /// The path of the registry's file on this machine.
    pub fn get_config_path() -> (r: Location)
        ensures
            exists|base: Option<std::path::PathBuf>| r@ == config_path_under(base),
    {
        config_path_from(platform_config_dir())
    }

    /// The path of the cache's root on this machine.
    pub fn get_cache_dir() -> (r: Location)
        ensures
            exists|base: Option<std::path::PathBuf>| r@ == cache_dir_under(base),
    {
        cache_dir_from(platform_cache_dir())
    }

    /// A manager of the registry that was found on disk, with its cache at
    /// this machine's place for it. `found` is nothing where there is no
    /// file, which gives an empty registry; it is the reason where the file
    /// does not hold a registry, which is an error.
    pub fn new(found: Option<Result<Config, String>>) -> (r: Result<TemplateManager, Error>)
        ensures
            match found {
                None => r is Ok && r->Ok_0.config@ == ConfigView::empty(),
                Some(Ok(c)) => r is Ok && r->Ok_0.config@ == c@,
                Some(Err(cause)) => r is Err && r->Err_0@ == (ErrorView::ParseError {
                    cause: cause@,
                }),
            },
            r is Ok ==> exists|base: Option<std::path::PathBuf>|
                r->Ok_0.cache_root() == cache_dir_under(base),
    {
        let config = match found {
            None => Config::empty(),
            Some(Ok(c)) => c,
            Some(Err(cause)) => {
                return Err(Error::ParseError { cause });
            },
        };
        Ok(TemplateManager { config, cache_dir: TemplateManager::get_cache_dir() })
    }

    /// The path of the cache entry of `template`: below the cache's root, the
    /// name of the template's repository, and below that the template's
    /// identifier.
    pub open spec fn cache_path_spec(self, template: Template) -> LocationView {
        self.cache_root().join(seq![template@.repo, template@.id])
    }

    /// The path of the cache entry of `template`.
    pub fn get_template_cache_path(&self, template: &Template) -> (r: Location)
        ensures
            r@ == self.cache_path_spec(*template),
    {
        let out = self.cache_dir.clone().join(template.repo.clone()).join(template.id.clone());
        assert(out@.parts =~= self.cache_path_spec(*template).parts);
        out
    }
}

} // verus!
