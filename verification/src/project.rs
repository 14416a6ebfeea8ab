//! Setting up a new project: what the user is asked, in which order, and
//! what is made of the answers.
//!
//! The setup is a machine. It names the question it waits for and takes the
//! reply in; putting the question to the user is the caller's part. What was
//! given beforehand is not asked for.

use vstd::prelude::*;
use vstd::string::StringExecFns;
use crate::config::{
    clone_templates, opt_view, strings_view, templates_view, ProjectConfig, ProjectConfigView,
    Template, TemplateView,
};
use crate::error::{EntryKind, Error, ErrorView};
use crate::manager::{lemma_first_template, TemplateManager};
use crate::paths::Location;
use crate::text::{join3, str_eq};

verus! {

/// Where a setup stands: each phase but the last waits for one reply.
#[derive(Debug, Clone, Copy, PartialEq, Eq, Structural)]
pub enum SetupPhase {
    /// Which of the registered templates?
    SelectTemplate,
    ProjectName,
    Author,
    Description,
    OutputDir,
    /// Go ahead with all this?
    Confirm,
    Finished,
}

/// What the user replied.
#[derive(Debug, PartialEq, Eq)]
pub enum Reply {
    /// The position of the template that was chosen.
    Choice(usize),
    /// The text that was entered.
    Text(String),
    /// Yes or no.
    Answer(bool),
}

/// A setup in progress.
#[derive(Debug, PartialEq, Eq)]
pub struct ProjectSetup {
    /// The templates to choose from.
    pub choices: Vec<Template>,
    pub phase: SetupPhase,
    pub template: Option<Template>,
    pub name: Option<String>,
    pub author: Option<String>,
    pub description: Option<String>,
    pub output_dir: Option<String>,
    /// Whether the user said no at the end.
    pub cancelled: bool,
}

/// What a `ProjectSetup` is.
pub struct ProjectSetupView {
    pub choices: Seq<TemplateView>,
    pub phase: SetupPhase,
    pub template: Option<TemplateView>,
    pub name: Option<Seq<char>>,
    pub author: Option<Seq<char>>,
    pub description: Option<Seq<char>>,
    pub output_dir: Option<Seq<char>>,
    pub cancelled: bool,
}

/// The view of an optional template.
pub open spec fn opt_template_view(t: Option<Template>) -> Option<TemplateView> {
    match t {
        Some(t) => Some(t@),
        None => None,
    }
}

/// The view of an optional string slice.
pub open spec fn opt_str_view(s: Option<&str>) -> Option<Seq<char>> {
    match s {
        Some(t) => Some(t@),
        None => None,
    }
}

impl View for ProjectSetup {
    type V = ProjectSetupView;

    open spec fn view(&self) -> ProjectSetupView {
        ProjectSetupView {
            choices: templates_view(self.choices@),
            phase: self.phase,
            template: opt_template_view(self.template),
            name: opt_view(self.name),
            author: opt_view(self.author),
            description: opt_view(self.description),
            output_dir: opt_view(self.output_dir),
            cancelled: self.cancelled,
        }
    }
}

impl SetupPhase {
    /// Whether `reply` is a reply to the question of this phase, given the
    /// number of templates to choose from.
    pub open spec fn answered_by(self, reply: Reply, choices: nat) -> bool {
        match self {
            SetupPhase::SelectTemplate => reply matches Reply::Choice(i) && i < choices,
            SetupPhase::ProjectName | SetupPhase::Author | SetupPhase::Description
            | SetupPhase::OutputDir => reply is Text,
            SetupPhase::Confirm => reply is Answer,
            SetupPhase::Finished => false,
        }
    }

    /// The question in words.
    pub open spec fn label_spec(self) -> Seq<char> {
        match self {
            SetupPhase::SelectTemplate => "Choose a template"@,
            SetupPhase::ProjectName => "Project name"@,
            SetupPhase::Author => "Author name"@,
            SetupPhase::Description => "Project description"@,
            SetupPhase::OutputDir => "Output directory"@,
            SetupPhase::Confirm => "Do you want to proceed with project generation?"@,
            SetupPhase::Finished => Seq::empty(),
        }
    }

    /// The text that the user is offered to start from.
    pub open spec fn initial_text_spec(self) -> Seq<char> {
        match self {
            SetupPhase::ProjectName => "my-awesome-project"@,
            SetupPhase::Author => "Your Name"@,
            SetupPhase::Description => "A wonderful project"@,
            SetupPhase::OutputDir => "."@,
            _ => Seq::empty(),
        }
    }

    /// A bound on the number of replies that are still taken in this phase
    /// and after it.
    pub open spec fn rank(self) -> nat {
        match self {
            SetupPhase::SelectTemplate => 6,
            SetupPhase::ProjectName => 5,
            SetupPhase::Author => 4,
            SetupPhase::Description => 3,
            SetupPhase::OutputDir => 2,
            SetupPhase::Confirm => 1,
            SetupPhase::Finished => 0,
        }
    }

    /// The question in words.
    pub fn label(self) -> (r: String)
        ensures
            r@ == self.label_spec(),
    {
        match self {
            SetupPhase::SelectTemplate => String::from_str("Choose a template"),
            SetupPhase::ProjectName => String::from_str("Project name"),
            SetupPhase::Author => String::from_str("Author name"),
            SetupPhase::Description => String::from_str("Project description"),
            SetupPhase::OutputDir => String::from_str("Output directory"),
            SetupPhase::Confirm => String::from_str(
                "Do you want to proceed with project generation?",
            ),
            SetupPhase::Finished => String::new(),
        }
    }

    /// The text that the user is offered to start from.
    pub fn initial_text(self) -> (r: String)
        ensures
            r@ == self.initial_text_spec(),
    {
        match self {
            SetupPhase::ProjectName => String::from_str("my-awesome-project"),
            SetupPhase::Author => String::from_str("Your Name"),
            SetupPhase::Description => String::from_str("A wonderful project"),
            SetupPhase::OutputDir => String::from_str("."),
            _ => String::new(),
        }
    }
}

/// How a template is offered for choice.
pub open spec fn choice_label(t: TemplateView) -> Seq<char> {
    t.id + " - "@ + t.description
}

/// The text of an optional string: nothing where there is none.
pub open spec fn or_empty(s: Option<Seq<char>>) -> Seq<char> {
    match s {
        Some(t) => t,
        None => Seq::empty(),
    }
}

impl ProjectSetupView {
    /// The phase after the template is known: the name is asked for unless
    /// it was given.
    pub open spec fn after_template(self) -> SetupPhase {
        if self.name is Some {
            SetupPhase::Author
        } else {
            SetupPhase::ProjectName
        }
    }

    /// The phase after the description is known: the output directory is
    /// asked for unless it was given.
    pub open spec fn after_description(self) -> SetupPhase {
        if self.output_dir is Some {
            SetupPhase::Confirm
        } else {
            SetupPhase::OutputDir
        }
    }

    /// Whether the setup is over.
    pub open spec fn finished(self) -> bool {
        self.phase == SetupPhase::Finished
    }

    /// The setup after `reply`. A reply that does not fit the question
    /// changes nothing.
    pub open spec fn next(self, reply: Reply) -> ProjectSetupView {
        match (self.phase, reply) {
            (SetupPhase::SelectTemplate, Reply::Choice(i)) => if i < self.choices.len() {
                ProjectSetupView {
                    template: Some(self.choices[i as int]),
                    phase: self.after_template(),
                    ..self
                }
            } else {
                self
            },
            (SetupPhase::ProjectName, Reply::Text(t)) => ProjectSetupView {
                name: Some(t@),
                phase: SetupPhase::Author,
                ..self
            },
            (SetupPhase::Author, Reply::Text(t)) => ProjectSetupView {
                author: Some(t@),
                phase: SetupPhase::Description,
                ..self
            },
            (SetupPhase::Description, Reply::Text(t)) => ProjectSetupView {
                description: Some(t@),
                phase: self.after_description(),
                ..self
            },
            (SetupPhase::OutputDir, Reply::Text(t)) => ProjectSetupView {
                output_dir: Some(t@),
                phase: SetupPhase::Confirm,
                ..self
            },
            (SetupPhase::Confirm, Reply::Answer(yes)) => ProjectSetupView {
                cancelled: !yes,
                phase: SetupPhase::Finished,
                ..self
            },
            _ => self,
        }
    }

    /// What has been found out by the time a phase is reached.
    pub open spec fn well_formed(self) -> bool {
        &&& self.phase == SetupPhase::SelectTemplate ==> self.choices.len() > 0
        &&& self.phase != SetupPhase::SelectTemplate <==> self.template is Some
        &&& self.phase == SetupPhase::ProjectName ==> self.name is None
        &&& self.phase.rank() >= 4 ==> self.author is None
        &&& self.phase.rank() >= 3 ==> self.description is None
        &&& self.phase == SetupPhase::OutputDir ==> self.output_dir is None
        &&& self.phase.rank() <= 4 ==> self.name is Some
        &&& self.phase.rank() <= 3 ==> self.author is Some
        &&& self.phase.rank() <= 2 ==> self.description is Some
        &&& self.phase.rank() <= 1 ==> self.output_dir is Some
        &&& self.cancelled ==> self.phase == SetupPhase::Finished
    }

    /// The project that the setup describes, once it is over and the user
    /// has agreed.
    pub open spec fn config(self) -> Option<ProjectConfigView> {
        if self.finished() && !self.cancelled && self.template is Some && self.name is Some
            && self.author is Some && self.description is Some && self.output_dir is Some {
            Some(
                ProjectConfigView {
                    name: self.name->Some_0,
                    author: self.author->Some_0,
                    description: self.description->Some_0,
                    output_dir: self.output_dir->Some_0,
                    template: self.template->Some_0,
                },
            )
        } else {
            None
        }
    }

    /// What the user is shown before being asked to agree.
    pub open spec fn summary(self) -> Seq<Seq<char>> {
        seq![
            "Name: "@ + or_empty(self.name),
            "Author: "@ + or_empty(self.author),
            "Description: "@ + or_empty(self.description),
            "Template: "@ + match self.template {
                Some(t) => t.id,
                None => Seq::empty(),
            },
            "Language: "@ + match self.template {
                Some(t) => t.language,
                None => Seq::empty(),
            },
            "Output Directory: "@ + or_empty(self.output_dir),
        ]
    }

    /// A setup stays well formed, and a setup that is over with the user's
    /// agreement describes a project.
    pub proof fn law_finished_setup_describes_a_project(self, reply: Reply)
        requires
            self.well_formed(),
        ensures
            self.next(reply).well_formed(),
            self.finished() && !self.cancelled ==> self.config() is Some,
            self.cancelled ==> self.config() is None,
    {
    }

    /// What is known is never asked for again and never changes: a reply
    /// fills in what its question asked for, and nothing else.
    pub proof fn law_answers_are_kept(self, reply: Reply)
        requires
            self.well_formed(),
        ensures
            self.template is Some ==> self.next(reply).template == self.template,
            self.name is Some ==> self.next(reply).name == self.name,
            self.author is Some ==> self.next(reply).author == self.author,
            self.description is Some ==> self.next(reply).description == self.description,
            self.output_dir is Some ==> self.next(reply).output_dir == self.output_dir,
            self.name is Some ==> self.next(reply).phase != SetupPhase::ProjectName,
            self.output_dir is Some ==> self.next(reply).phase != SetupPhase::OutputDir,
    {
    }

    /// Every fitting reply brings the setup nearer to its end, which comes
    /// after six replies at most; any other reply changes nothing.
    pub proof fn law_every_reply_is_progress(self, reply: Reply)
        ensures
            self.phase.answered_by(reply, self.choices.len()) ==> self.next(reply).phase.rank()
                < self.phase.rank(),
            !self.phase.answered_by(reply, self.choices.len()) ==> self.next(reply) == self,
            self.phase.rank() <= 6,
    {
    }
}

impl ProjectSetup {
    /// The question that the setup waits for; `Finished` where it waits for
    /// none.
    pub fn pending(&self) -> (r: SetupPhase)
        ensures
            r == self@.phase,
    {
        self.phase
    }

    /// Whether the setup is over.
    pub fn is_finished(&self) -> (r: bool)
        ensures
            r == self@.finished(),
    {
        match self.phase {
            SetupPhase::Finished => true,
            _ => false,
        }
    }

    /// How the templates to choose from are offered, in order.
    pub fn choice_labels(&self) -> (r: Vec<String>)
        ensures
            r@.len() == self@.choices.len(),
            forall|i: int| 0 <= i < r@.len() ==> (#[trigger] r@[i])@ == choice_label(self@.choices[i]),
    {
        let mut out: Vec<String> = Vec::new();
        let mut i: usize = 0;
        while i < self.choices.len()
            invariant
                i <= self.choices.len(),
                out@.len() == i,
                forall|j: int|
                    0 <= j < i ==> (#[trigger] out@[j])@ == choice_label(self@.choices[j]),
            decreases self.choices.len() - i,
        {
            let t = &self.choices[i];
            out.push(join3(t.id.as_str(), " - ", t.description.as_str()));
            i += 1;
        }
        out
    }

    /// Takes a reply in.
    pub fn advance(&mut self, reply: Reply)
        ensures
            final(self)@ == old(self)@.next(reply),
    {
        match (self.phase, reply) {
            (SetupPhase::SelectTemplate, Reply::Choice(i)) => {
                if i < self.choices.len() {
                    self.template = Some(self.choices[i].clone());
                    self.phase = if self.name.is_some() {
                        SetupPhase::Author
                    } else {
                        SetupPhase::ProjectName
                    };
                }
            },
            (SetupPhase::ProjectName, Reply::Text(t)) => {
                self.name = Some(t);
                self.phase = SetupPhase::Author;
            },
            (SetupPhase::Author, Reply::Text(t)) => {
                self.author = Some(t);
                self.phase = SetupPhase::Description;
            },
            (SetupPhase::Description, Reply::Text(t)) => {
                self.description = Some(t);
                self.phase = if self.output_dir.is_some() {
                    SetupPhase::Confirm
                } else {
                    SetupPhase::OutputDir
                };
            },
            (SetupPhase::OutputDir, Reply::Text(t)) => {
                self.output_dir = Some(t);
                self.phase = SetupPhase::Confirm;
            },
            (SetupPhase::Confirm, Reply::Answer(yes)) => {
                self.cancelled = !yes;
                self.phase = SetupPhase::Finished;
            },
            _ => {},
        }
    }

    /// What the user is shown before being asked to agree.
    pub fn summary(&self) -> (r: Vec<String>)
        ensures
            strings_view(r@) == self@.summary(),
    {
        let name = match &self.name {
            Some(t) => t.as_str(),
            None => "",
        };
        let author = match &self.author {
            Some(t) => t.as_str(),
            None => "",
        };
        let description = match &self.description {
            Some(t) => t.as_str(),
            None => "",
        };
        let output_dir = match &self.output_dir {
            Some(t) => t.as_str(),
            None => "",
        };
        let (id, language) = match &self.template {
            Some(t) => (t.id.as_str(), t.language.as_str()),
            None => ("", ""),
        };
        proof {
            reveal_strlit("");
            assert(""@ =~= Seq::<char>::empty());
        }
        let mut out: Vec<String> = Vec::new();
        out.push(String::from_str("Name: ").concat(name));
        out.push(String::from_str("Author: ").concat(author));
        out.push(String::from_str("Description: ").concat(description));
        out.push(String::from_str("Template: ").concat(id));
        out.push(String::from_str("Language: ").concat(language));
        out.push(String::from_str("Output Directory: ").concat(output_dir));
        assert(strings_view(out@) =~= self@.summary());
        out
    }

    /// The project that the setup describes, once it is over and the user
    /// has agreed.
    pub fn config(&self) -> (r: Option<ProjectConfig>)
        ensures
            match r {
                Some(c) => self@.config() == Some(c@),
                None => self@.config() is None,
            },
    {
        if !self.is_finished() || self.cancelled {
            return None;
        }
        match (&self.template, &self.name, &self.author, &self.description, &self.output_dir) {
            (Some(template), Some(name), Some(author), Some(description), Some(output_dir)) => Some(
                ProjectConfig {
                    name: name.clone(),
                    author: author.clone(),
                    description: description.clone(),
                    output_dir: output_dir.clone(),
                    template: template.clone(),
                },
            ),
            _ => None,
        }
    }
}

/// Copies an optional string slice.
fn owned(s: Option<&str>) -> (r: Option<String>)
    ensures
        opt_view(r) == opt_str_view(s),
{
    match s {
        Some(t) => Some(String::from_str(t)),
        None => None,
    }
}

/// The output directory that was given: `.` stands for none.
pub open spec fn given_output(output: Seq<char>) -> Option<Seq<char>> {
    if output == "."@ {
        None
    } else {
        Some(output)
    }
}

impl TemplateManager {
    /// Begins the setup of a project. A template named by `template_id` must
    /// be registered; where none is named, there must be templates to choose
    /// from. A name that is given, and an output directory other than `.`,
    /// are taken as they are.
    pub fn get_project_config(
        &self,
        template_id: Option<&str>,
        name: Option<&str>,
        output: &str,
    ) -> (r: Result<ProjectSetup, Error>)
        ensures
            match template_id {
                Some(id) => match self.config@.template_index(id@) {
                    Some(i) => r is Ok && r->Ok_0@.template == Some(self.config@.templates[i])
                        && r->Ok_0@.phase == r->Ok_0@.after_template(),
                    None => r is Err && r->Err_0@ == (ErrorView::NotFound {
                        kind: EntryKind::Template,
                        key: id@,
                    }),
                },
                None => if self.config@.templates.len() == 0 {
                    r is Err && r->Err_0@ == ErrorView::NoTemplates
                } else {
                    r is Ok && r->Ok_0@.template is None && r->Ok_0@.phase
                        == SetupPhase::SelectTemplate
                },
            },
            r is Ok ==> {
                &&& r->Ok_0@.well_formed()
                &&& r->Ok_0@.choices == self.config@.templates
                &&& r->Ok_0@.name == opt_str_view(name)
                &&& r->Ok_0@.author is None
                &&& r->Ok_0@.description is None
                &&& r->Ok_0@.output_dir == given_output(output@)
                &&& !r->Ok_0@.cancelled
            },
    {
        proof {
            if template_id is Some {
                lemma_first_template(self.config@.templates, template_id->Some_0@);
            }
        }
        let template = match template_id {
            Some(id) => {
                match self.get_template_by_id(id) {
                    Some(t) => Some(t.clone()),
                    None => {
                        return Err(
                            Error::NotFound {
                                kind: EntryKind::Template,
                                key: String::from_str(id),
                            },
                        );
                    },
                }
            },
            None => {
                if self.config.templates.len() == 0 {
                    return Err(Error::NoTemplates);
                }
                None
            },
        };
        let phase = if template.is_none() {
            SetupPhase::SelectTemplate
        } else if name.is_some() {
            SetupPhase::Author
        } else {
            SetupPhase::ProjectName
        };
        let output_dir = if str_eq(output, ".") {
            None
        } else {
            Some(String::from_str(output))
        };
        Ok(
            ProjectSetup {
                choices: clone_templates(&self.config.templates),
                phase,
                template,
                name: owned(name),
                author: None,
                description: None,
                output_dir,
                cancelled: false,
            },
        )
    }

    /// Where the files of `template` are copied from: the path of its cache
    /// entry, which must exist.
    pub fn copy_template_files(&self, template: &Template, cached: bool) -> (r: Result<
        Location,
        Error,
    >)
        ensures
            r is Ok <==> cached,
            r is Ok ==> r->Ok_0@ == self.cache_path_spec(*template),
            r is Err ==> r->Err_0@ == (ErrorView::NotFound {
                kind: EntryKind::CacheEntry,
                key: template@.id,
            }),
    {
        if cached {
            Ok(self.get_template_cache_path(template))
        } else {
            Err(Error::NotFound { kind: EntryKind::CacheEntry, key: template.id.clone() })
        }
    }
}

} // verus!
