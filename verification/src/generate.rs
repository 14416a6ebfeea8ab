//! Generating a project from a cached template, step by step.
//!
//! The steps come in a fixed order, and the first that fails ends the
//! generation with its error. Carrying a step out is the caller's part.

use vstd::prelude::*;
use vstd::string::StringExecFns;
use crate::config::{strings_view, ProjectConfig, ProjectConfigView};
use crate::error::{EntryKind, Error, ErrorView};
use crate::paths::{Location, LocationView};

verus! {

/// The steps of a generation: each but the last waits for one report.
#[derive(Debug, Clone, Copy, PartialEq, Eq, Structural)]
pub enum GenerateStep {
    /// Create the project's directory.
    CreateDir,
    /// Download the template, unless it is cached.
    Download,
    /// Find out whether the template's cache entry exists.
    ProbeCache,
    /// Copy the cache entry into the project's directory.
    CopyFiles,
    /// Find out whether the project has a `package.json`.
    ProbePackageJson,
    /// Put the project's name, author and description into `package.json`.
    UpdatePackageJson,
    /// Make the project's directory a git repository.
    InitGit,
    Finished,
}

/// How a step went.
#[derive(Debug, PartialEq, Eq)]
pub enum GenerateEvent {
    /// The step was carried out.
    Completed,
    /// The answer to a probe.
    Exists(bool),
    /// The file system refused the step, for this reason.
    Failed(String),
    /// The step ended with this error.
    Refused(Error),
}

/// A generation in progress.
#[derive(Debug, PartialEq, Eq)]
pub struct Generation {
    pub config: ProjectConfig,
    pub step: GenerateStep,
    /// Why the generation failed, if it did.
    pub failure: Option<Error>,
}

/// What a `Generation` is.
pub struct GenerationView {
    pub config: ProjectConfigView,
    pub step: GenerateStep,
    pub failure: Option<ErrorView>,
}

impl View for Generation {
    type V = GenerationView;

    open spec fn view(&self) -> GenerationView {
        GenerationView {
            config: self.config@,
            step: self.step,
            failure: match self.failure {
                Some(e) => Some(e@),
                None => None,
            },
        }
    }
}

impl GenerateStep {
    /// The step that follows when this one went well.
    pub open spec fn following(self) -> GenerateStep {
        match self {
            GenerateStep::CreateDir => GenerateStep::Download,
            GenerateStep::Download => GenerateStep::ProbeCache,
            GenerateStep::ProbeCache => GenerateStep::CopyFiles,
            GenerateStep::CopyFiles => GenerateStep::ProbePackageJson,
            GenerateStep::ProbePackageJson => GenerateStep::UpdatePackageJson,
            GenerateStep::UpdatePackageJson => GenerateStep::InitGit,
            GenerateStep::InitGit => GenerateStep::Finished,
            GenerateStep::Finished => GenerateStep::Finished,
        }
    }

    /// Whether `event` is a report on this step.
    pub open spec fn answered_by(self, event: GenerateEvent) -> bool {
        match self {
            GenerateStep::CreateDir | GenerateStep::CopyFiles | GenerateStep::InitGit => event
                is Completed || event is Failed,
            GenerateStep::Download => event is Completed || event is Refused,
            GenerateStep::ProbeCache | GenerateStep::ProbePackageJson => event is Exists,
            GenerateStep::UpdatePackageJson => event is Completed || event is Failed || event
                is Refused,
            GenerateStep::Finished => false,
        }
    }

    /// The number of steps that are still to come, this one included.
    pub open spec fn rank(self) -> nat {
        match self {
            GenerateStep::CreateDir => 7,
            GenerateStep::Download => 6,
            GenerateStep::ProbeCache => 5,
            GenerateStep::CopyFiles => 4,
            GenerateStep::ProbePackageJson => 3,
            GenerateStep::UpdatePackageJson => 2,
            GenerateStep::InitGit => 1,
            GenerateStep::Finished => 0,
        }
    }

    /// What the user is told while the step is under way.
    pub open spec fn message_spec(self) -> Seq<char> {
        match self {
            GenerateStep::CreateDir => "Creating project directory..."@,
            GenerateStep::Download | GenerateStep::ProbeCache | GenerateStep::CopyFiles =>
                "Getting template files..."@,
            GenerateStep::ProbePackageJson | GenerateStep::UpdatePackageJson =>
                "Updating project configuration..."@,
            GenerateStep::InitGit => "Finalizing project..."@,
            GenerateStep::Finished => "Project generation completed!"@,
        }
    }

    /// What the user is told while the step is under way.
    pub fn message(self) -> (r: String)
        ensures
            r@ == self.message_spec(),
    {
        match self {
            GenerateStep::CreateDir => String::from_str("Creating project directory..."),
            GenerateStep::Download | GenerateStep::ProbeCache | GenerateStep::CopyFiles =>
                String::from_str("Getting template files..."),
            GenerateStep::ProbePackageJson | GenerateStep::UpdatePackageJson => String::from_str(
                "Updating project configuration...",
            ),
            GenerateStep::InitGit => String::from_str("Finalizing project..."),
            GenerateStep::Finished => String::from_str("Project generation completed!"),
        }
    }
}

impl ProjectConfigView {
    /// The path of the project's directory: the project's name below the
    /// output directory.
    pub open spec fn project_path(self) -> LocationView {
        LocationView::of(seq![self.output_dir, self.name])
    }

    /// The path of the project's `package.json`.
    pub open spec fn package_json_path(self) -> LocationView {
        LocationView::of(seq![self.output_dir, self.name, "package.json"@])
    }
}

impl GenerationView {
    /// A generation of the project that `config` describes, before its first
    /// step.
    pub open spec fn initial(config: ProjectConfigView) -> GenerationView {
        GenerationView { config, step: GenerateStep::CreateDir, failure: None }
    }

    /// Whether the generation is over.
    pub open spec fn finished(self) -> bool {
        self.step == GenerateStep::Finished
    }

    /// The generation one step on.
    pub open spec fn proceed(self) -> GenerationView {
        GenerationView { step: self.step.following(), ..self }
    }

    /// The generation ended by an error.
    pub open spec fn fail(self, error: ErrorView) -> GenerationView {
        GenerationView { step: GenerateStep::Finished, failure: Some(error), ..self }
    }

    /// The error that a refusal of the file system at the current step is
    /// reported as.
    pub open spec fn io_error(self, cause: Seq<char>) -> ErrorView {
        ErrorView::IoError {
            location: if self.step == GenerateStep::UpdatePackageJson {
                self.config.package_json_path()
            } else {
                self.config.project_path()
            },
            cause,
        }
    }

    /// The generation after `event`, which reports how the current step
    /// went. An event that is no report on the current step changes nothing.
    /// A project without a `package.json` goes on without the step that
    /// would change it; a template without a cache entry fails.
    pub open spec fn next(self, event: GenerateEvent) -> GenerationView {
        if !self.step.answered_by(event) {
            self
        } else {
            match event {
                GenerateEvent::Completed => self.proceed(),
                GenerateEvent::Exists(found) => if found {
                    self.proceed()
                } else if self.step == GenerateStep::ProbePackageJson {
                    GenerationView { step: GenerateStep::InitGit, ..self }
                } else {
                    self.fail(
                        ErrorView::NotFound {
                            kind: EntryKind::CacheEntry,
                            key: self.config.template.id,
                        },
                    )
                },
                GenerateEvent::Failed(cause) => self.fail(self.io_error(cause@)),
                GenerateEvent::Refused(error) => self.fail(error@),
            }
        }
    }

    /// The first step that goes wrong ends the generation with its error;
    /// a step that goes well is followed by the next, and an error that has
    /// ended the generation stays.
    pub proof fn law_first_failure_ends_the_generation(self, event: GenerateEvent)
        requires
            self.failure is Some ==> self.finished(),
        ensures
            self.next(event).failure is Some ==> self.next(event).finished(),
            self.failure is Some ==> self.next(event) == self,
            self.next(event).failure is None && self.step.answered_by(event) ==> self.next(
                event,
            ).step == self.step.following() || (self.step == GenerateStep::ProbePackageJson
                && event == GenerateEvent::Exists(false) && self.next(event).step
                == GenerateStep::InitGit),
            self.next(event).config == self.config,
    {
    }

    /// Every report on the current step brings the generation nearer to its
    /// end, which comes after seven reports at most.
    pub proof fn law_every_report_is_progress(self, event: GenerateEvent)
        ensures
            self.step.answered_by(event) ==> self.next(event).step.rank() < self.step.rank(),
            self.step.rank() <= 7,
    {
    }
}

impl ProjectConfig {
    /// The path of the project's directory.
    pub fn project_path(&self) -> (r: Location)
        ensures
            r@ == self@.project_path(),
    {
        let mut out: Vec<String> = Vec::new();
        out.push(self.output_dir.clone());
        out.push(self.name.clone());
        assert(strings_view(out@) =~= self@.project_path().parts);
        Location::of(out)
    }

    /// The path of the project's `package.json`.
    pub fn package_json_path(&self) -> (r: Location)
        ensures
            r@ == self@.package_json_path(),
    {
        let mut out: Vec<String> = Vec::new();
        out.push(self.output_dir.clone());
        out.push(self.name.clone());
        out.push(String::from_str("package.json"));
        assert(strings_view(out@) =~= self@.package_json_path().parts);
        Location::of(out)
    }
}

impl Generation {
    /// The step that the generation waits for.
    pub fn pending(&self) -> (r: GenerateStep)
        ensures
            r == self@.step,
    {
        self.step
    }

    /// Whether the generation is over.
    pub fn is_finished(&self) -> (r: bool)
        ensures
            r == self@.finished(),
    {
        match self.step {
            GenerateStep::Finished => true,
            _ => false,
        }
    }

    /// Takes in how the current step went.
    pub fn advance(&mut self, event: GenerateEvent)
        ensures
            final(self)@ == old(self)@.next(event),
    {
        let following = match self.step {
            GenerateStep::CreateDir => GenerateStep::Download,
            GenerateStep::Download => GenerateStep::ProbeCache,
            GenerateStep::ProbeCache => GenerateStep::CopyFiles,
            GenerateStep::CopyFiles => GenerateStep::ProbePackageJson,
            GenerateStep::ProbePackageJson => GenerateStep::UpdatePackageJson,
            GenerateStep::UpdatePackageJson => GenerateStep::InitGit,
            GenerateStep::InitGit => GenerateStep::Finished,
            GenerateStep::Finished => GenerateStep::Finished,
        };
        match (self.step, event) {
            (GenerateStep::Finished, _) => {},
            (GenerateStep::ProbeCache, GenerateEvent::Exists(found)) => {
                if found {
                    self.step = following;
                } else {
                    self.failure = Some(
                        Error::NotFound {
                            kind: EntryKind::CacheEntry,
                            key: self.config.template.id.clone(),
                        },
                    );
                    self.step = GenerateStep::Finished;
                }
            },
            (GenerateStep::ProbeCache, _) => {},
            (GenerateStep::ProbePackageJson, GenerateEvent::Exists(found)) => {
                if found {
                    self.step = following;
                } else {
                    self.step = GenerateStep::InitGit;
                }
            },
            (GenerateStep::ProbePackageJson, _) => {},
            (_, GenerateEvent::Exists(_)) => {},
            (_, GenerateEvent::Completed) => {
                self.step = following;
            },
            (GenerateStep::Download, GenerateEvent::Failed(_)) => {},
            (GenerateStep::UpdatePackageJson, GenerateEvent::Failed(cause)) => {
                self.failure = Some(
                    Error::IoError { location: self.config.package_json_path(), cause },
                );
                self.step = GenerateStep::Finished;
            },
            (_, GenerateEvent::Failed(cause)) => {
                self.failure = Some(Error::IoError { location: self.config.project_path(), cause });
                self.step = GenerateStep::Finished;
            },
            (GenerateStep::Download, GenerateEvent::Refused(error)) => {
                self.failure = Some(error);
                self.step = GenerateStep::Finished;
            },
            (GenerateStep::UpdatePackageJson, GenerateEvent::Refused(error)) => {
                self.failure = Some(error);
                self.step = GenerateStep::Finished;
            },
            (_, GenerateEvent::Refused(_)) => {},
        }
    }

    /// What the generation ended with, once it is over.
    pub fn result(&self) -> (r: Option<Result<(), Error>>)
        ensures
            r is Some <==> self@.finished(),
            self@.finished() ==> match self@.failure {
                None => r == Some(Ok::<(), Error>(())),
                Some(error) => r->Some_0 is Err && r->Some_0->Err_0@ == error,
            },
    {
        if !self.is_finished() {
            return None;
        }
        match &self.failure {
            None => Some(Ok(())),
            Some(error) => Some(Err(error.clone())),
        }
    }
}

/// Prepares the generation of the project that `config` describes.
pub fn generate_project(config: &ProjectConfig) -> (r: Generation)
    ensures
        r@ == GenerationView::initial(config@),
{
    Generation { config: config.clone(), step: GenerateStep::CreateDir, failure: None }
}

} // verus!
