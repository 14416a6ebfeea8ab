//! Everything that an operation of the library can fail with.

use vstd::prelude::*;
use vstd::string::StringExecFns;
use crate::paths::{Location, LocationView};
use crate::text::join3;

verus! {

/// What kind of entry a key names.
#[derive(Debug, Clone, Copy, PartialEq, Eq, Structural)]
pub enum EntryKind {
    Repository,
    Template,
    /// The cached files of a template.
    CacheEntry,
}

/// The three bounded steps of a sparse checkout.
#[derive(Debug, Clone, Copy, PartialEq, Eq, Structural)]
pub enum CheckoutStep {
    /// The shallow, blob-filtered clone without checkout.
    Clone,
    /// Restricting the working copy to the template's path.
    SparseSet,
    /// Checking out the repository's branch.
    Checkout,
}

/// One finding of a validation.
#[derive(Debug, Clone, Copy, PartialEq, Eq, Structural)]
pub enum IssueKind {
    RepoNameEmpty,
    RepoUrlEmpty,
    RepoBranchEmpty,
    TemplateIdEmpty,
    TemplateNameEmpty,
    TemplateRepoEmpty,
    TemplatePathEmpty,
    /// A template is bound to a repository that the registry does not hold.
    DanglingRepo,
}

impl IssueKind {
    /// Structural findings are errors; a dangling reference is only a warning.
    pub open spec fn is_error(self) -> bool {
        self != IssueKind::DanglingRepo
    }
}

/// A finding together with the entry it is about: `subject` is the name of
/// the repository or the identifier of the template, `target` the repository
/// that a dangling reference points to (empty for every other kind).
#[derive(Debug, PartialEq, Eq)]
pub struct ValidationIssue {
    pub kind: IssueKind,
    pub subject: String,
    pub target: String,
}

/// What a `ValidationIssue` is.
pub struct IssueView {
    pub kind: IssueKind,
    pub subject: Seq<char>,
    pub target: Seq<char>,
}

impl View for ValidationIssue {
    type V = IssueView;

    open spec fn view(&self) -> IssueView {
        IssueView { kind: self.kind, subject: self.subject@, target: self.target@ }
    }
}

/// The views of a sequence of findings, in order.
pub open spec fn issues_view(v: Seq<ValidationIssue>) -> Seq<IssueView> {
    v.map_values(|i: ValidationIssue| i@)
}

impl IssueView {
    /// The finding in words.
    pub open spec fn message(self) -> Seq<char> {
        match self.kind {
            IssueKind::RepoNameEmpty => "Repository name cannot be empty"@,
            IssueKind::RepoUrlEmpty => "Repository '"@ + self.subject + "' URL cannot be empty"@,
            IssueKind::RepoBranchEmpty => "Repository '"@ + self.subject
                + "' branch cannot be empty"@,
            IssueKind::TemplateIdEmpty => "Template ID cannot be empty"@,
            IssueKind::TemplateNameEmpty => "Template '"@ + self.subject
                + "' name cannot be empty"@,
            IssueKind::TemplateRepoEmpty => "Template '"@ + self.subject
                + "' repository cannot be empty"@,
            IssueKind::TemplatePathEmpty => "Template '"@ + self.subject
                + "' path cannot be empty"@,
            IssueKind::DanglingRepo => "Template '"@ + self.subject
                + "' references non-existent repository '"@ + self.target + "'"@,
        }
    }
}

impl Clone for ValidationIssue {
    fn clone(&self) -> (r: Self)
        ensures
            r@ == self@,
    {
        ValidationIssue {
            kind: self.kind,
            subject: self.subject.clone(),
            target: self.target.clone(),
        }
    }
}

impl ValidationIssue {
    /// The finding in words.
    pub fn message(&self) -> (r: String)
        ensures
            r@ == self@.message(),
    {
        match self.kind {
            IssueKind::RepoNameEmpty => String::from_str("Repository name cannot be empty"),
            IssueKind::RepoUrlEmpty => join3(
                "Repository '",
                self.subject.as_str(),
                "' URL cannot be empty",
            ),
            IssueKind::RepoBranchEmpty => join3(
                "Repository '",
                self.subject.as_str(),
                "' branch cannot be empty",
            ),
            IssueKind::TemplateIdEmpty => String::from_str("Template ID cannot be empty"),
            IssueKind::TemplateNameEmpty => join3(
                "Template '",
                self.subject.as_str(),
                "' name cannot be empty",
            ),
            IssueKind::TemplateRepoEmpty => join3(
                "Template '",
                self.subject.as_str(),
                "' repository cannot be empty",
            ),
            IssueKind::TemplatePathEmpty => join3(
                "Template '",
                self.subject.as_str(),
                "' path cannot be empty",
            ),
            IssueKind::DanglingRepo => join3(
                "Template '",
                self.subject.as_str(),
                "' references non-existent repository '",
            ).concat(self.target.as_str()).concat("'"),
        }
    }
}

/// Copies a list of findings.
pub fn clone_issues(v: &Vec<ValidationIssue>) -> (r: Vec<ValidationIssue>)
    ensures
        issues_view(r@) == issues_view(v@),
{
    let mut out: Vec<ValidationIssue> = Vec::new();
    let mut i: usize = 0;
    while i < v.len()
        invariant
            i <= v.len(),
            out@.len() == i,
            forall|j: int| 0 <= j < i ==> out@[j]@ == v@[j]@,
        decreases v.len() - i,
    {
        out.push(v[i].clone());
        i += 1;
    }
    assert(issues_view(out@) =~= issues_view(v@));
    out
}

/// Why an operation failed.
#[derive(Debug, PartialEq, Eq)]
pub enum Error {
    /// No entry of this kind has this key.
    NotFound { kind: EntryKind, key: String },
    /// An entry of this kind already has this key.
    AlreadyExists { kind: EntryKind, key: String },
    /// The repository cannot be removed while templates are bound to it.
    InUse { repo: String },
    /// The registry to import has structural errors: all of them, in order,
    /// and with them the warnings that the validation found.
    ValidationFailed { errors: Vec<ValidationIssue>, warnings: Vec<ValidationIssue> },
    /// The import mode is neither `merge` nor `overwrite`.
    InvalidMode { value: String },
    /// The version-control client ran and reported failure.
    ProcessFailed { step: CheckoutStep, status: Option<i32> },
    /// The version-control client did not finish within the step's time.
    Timeout { step: CheckoutStep },
    /// The checked-out repository has nothing at the template's path.
    PathNotFound { path: String },
    /// The file system, or starting a process, failed at `location`.
    IoError { location: Location, cause: String },
    /// A file does not hold a registry.
    ParseError { cause: String },
    /// The registry holds no template to choose from.
    NoTemplates,
}

/// What an `Error` is.
pub enum ErrorView {
    NotFound { kind: EntryKind, key: Seq<char> },
    AlreadyExists { kind: EntryKind, key: Seq<char> },
    InUse { repo: Seq<char> },
    ValidationFailed { errors: Seq<IssueView>, warnings: Seq<IssueView> },
    InvalidMode { value: Seq<char> },
    ProcessFailed { step: CheckoutStep, status: Option<i32> },
    Timeout { step: CheckoutStep },
    PathNotFound { path: Seq<char> },
    IoError { location: LocationView, cause: Seq<char> },
    ParseError { cause: Seq<char> },
    NoTemplates,
}

impl View for Error {
    type V = ErrorView;

    open spec fn view(&self) -> ErrorView {
        match *self {
            Error::NotFound { kind, key } => ErrorView::NotFound { kind, key: key@ },
            Error::AlreadyExists { kind, key } => ErrorView::AlreadyExists { kind, key: key@ },
            Error::InUse { repo } => ErrorView::InUse { repo: repo@ },
            Error::ValidationFailed { errors, warnings } => ErrorView::ValidationFailed {
                errors: issues_view(errors@),
                warnings: issues_view(warnings@),
            },
            Error::InvalidMode { value } => ErrorView::InvalidMode { value: value@ },
            Error::ProcessFailed { step, status } => ErrorView::ProcessFailed { step, status },
            Error::Timeout { step } => ErrorView::Timeout { step },
            Error::PathNotFound { path } => ErrorView::PathNotFound { path: path@ },
            Error::IoError { location, cause } => ErrorView::IoError {
                location: location@,
                cause: cause@,
            },
            Error::ParseError { cause } => ErrorView::ParseError { cause: cause@ },
            Error::NoTemplates => ErrorView::NoTemplates,
        }
    }
}

impl ErrorView {
    /// The error in words.
    pub open spec fn message(self) -> Seq<char> {
        match self {
            ErrorView::NotFound { kind, key } => match kind {
                EntryKind::Repository => "Repository '"@ + key + "' not found"@,
                EntryKind::Template => "Template '"@ + key + "' not found"@,
                EntryKind::CacheEntry => "Template '"@ + key + "' not cached. Run 'template download "@
                    + key + "' first"@,
            },
            ErrorView::AlreadyExists { kind, key } => match kind {
                EntryKind::Repository => "Repository '"@ + key + "' already exists"@,
                EntryKind::Template => "Template with ID '"@ + key + "' already exists"@,
                EntryKind::CacheEntry => "Template '"@ + key + "' already cached"@,
            },
            ErrorView::InUse { repo } => "Cannot remove repository '"@ + repo
                + "' - it is used by templates"@,
            ErrorView::ValidationFailed { errors, warnings } => "Configuration validation failed"@,
            ErrorView::InvalidMode { value } => "Invalid import mode: "@ + value
                + ". Use 'merge' or 'overwrite'"@,
            ErrorView::ProcessFailed { step, status } => match step {
                CheckoutStep::Clone => "Failed to clone repository"@,
                CheckoutStep::SparseSet => "Failed to set sparse checkout"@,
                CheckoutStep::Checkout => "Failed to checkout branch"@,
            },
            ErrorView::Timeout { step } => match step {
                CheckoutStep::Clone => "Git clone timed out after 5 minutes"@,
                CheckoutStep::SparseSet => "Sparse checkout timed out"@,
                CheckoutStep::Checkout => "Git checkout timed out"@,
            },
            ErrorView::PathNotFound { path } => "Template path '"@ + path
                + "' not found in repository"@,
            ErrorView::IoError { location, cause } => "File system operation failed: "@ + cause,
            ErrorView::ParseError { cause } => "Failed to parse configuration file: "@ + cause,
            ErrorView::NoTemplates =>
                "No templates available. Add templates first with 'template add'"@,
        }
    }
}

impl Clone for Error {
    fn clone(&self) -> (r: Self)
        ensures
            r@ == self@,
    {
        match self {
            Error::NotFound { kind, key } => Error::NotFound { kind: *kind, key: key.clone() },
            Error::AlreadyExists { kind, key } => Error::AlreadyExists {
                kind: *kind,
                key: key.clone(),
            },
            Error::InUse { repo } => Error::InUse { repo: repo.clone() },
            Error::ValidationFailed { errors, warnings } => Error::ValidationFailed {
                errors: clone_issues(errors),
                warnings: clone_issues(warnings),
            },
            Error::InvalidMode { value } => Error::InvalidMode { value: value.clone() },
            Error::ProcessFailed { step, status } => Error::ProcessFailed {
                step: *step,
                status: *status,
            },
            Error::Timeout { step } => Error::Timeout { step: *step },
            Error::PathNotFound { path } => Error::PathNotFound { path: path.clone() },
            Error::IoError { location, cause } => Error::IoError {
                location: location.clone(),
                cause: cause.clone(),
            },
            Error::ParseError { cause } => Error::ParseError { cause: cause.clone() },
            Error::NoTemplates => Error::NoTemplates,
        }
    }
}

impl Error {
    /// The error in words.
    pub fn message(&self) -> (r: String)
        ensures
            r@ == self@.message(),
    {
        match self {
            Error::NotFound { kind, key } => match kind {
                EntryKind::Repository => join3("Repository '", key.as_str(), "' not found"),
                EntryKind::Template => join3("Template '", key.as_str(), "' not found"),
                EntryKind::CacheEntry => join3(
                    "Template '",
                    key.as_str(),
                    "' not cached. Run 'template download ",
                ).concat(key.as_str()).concat("' first"),
            },
            Error::AlreadyExists { kind, key } => match kind {
                EntryKind::Repository => join3("Repository '", key.as_str(), "' already exists"),
                EntryKind::Template => join3(
                    "Template with ID '",
                    key.as_str(),
                    "' already exists",
                ),
                EntryKind::CacheEntry => join3("Template '", key.as_str(), "' already cached"),
            },
            Error::InUse { repo } => join3(
                "Cannot remove repository '",
                repo.as_str(),
                "' - it is used by templates",
            ),
            Error::ValidationFailed { errors, warnings } => String::from_str(
                "Configuration validation failed",
            ),
            Error::InvalidMode { value } => join3(
                "Invalid import mode: ",
                value.as_str(),
                ". Use 'merge' or 'overwrite'",
            ),
            Error::ProcessFailed { step, status } => match step {
                CheckoutStep::Clone => String::from_str("Failed to clone repository"),
                CheckoutStep::SparseSet => String::from_str("Failed to set sparse checkout"),
                CheckoutStep::Checkout => String::from_str("Failed to checkout branch"),
            },
            Error::Timeout { step } => match step {
                CheckoutStep::Clone => String::from_str("Git clone timed out after 5 minutes"),
                CheckoutStep::SparseSet => String::from_str("Sparse checkout timed out"),
                CheckoutStep::Checkout => String::from_str("Git checkout timed out"),
            },
            Error::PathNotFound { path } => join3(
                "Template path '",
                path.as_str(),
                "' not found in repository",
            ),
            Error::IoError { location, cause } => String::from_str(
                "File system operation failed: ",
            ).concat(cause.as_str()),
            Error::ParseError { cause } => String::from_str(
                "Failed to parse configuration file: ",
            ).concat(cause.as_str()),
            Error::NoTemplates => String::from_str(
                "No templates available. Add templates first with 'template add'",
            ),
        }
    }
}

} // verus!
