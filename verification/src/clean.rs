//! Cleaning: removing the cache, and on request the registry as well.
//!
//! Like a download, a cleaning is a machine that names the action it waits
//! for and is told how it went. Unless it is forced it first asks for
//! consent, and without consent it does nothing.

use vstd::prelude::*;
use vstd::string::StringExecFns;
use crate::config::{Config, ConfigView};
use crate::error::{Error, ErrorView};
use crate::manager::TemplateManager;

verus! {

/// The places in the file system that a cleaning touches.
#[derive(Debug, Clone, Copy, PartialEq, Eq, Structural)]
pub enum CleanPlace {
    /// The root of the cache.
    CacheRoot,
    /// The file that holds the registry.
    ConfigFile,
}

/// What a cleaning asks its driver to do.
#[derive(Debug, Clone, Copy, PartialEq, Eq, Structural)]
pub enum CleanAction {
    /// Ask the user to consent to the cleaning.
    Confirm,
    /// Report whether the place exists. Changes nothing.
    Probe(CleanPlace),
    /// Remove the root of the cache and everything below it.
    RemoveTree,
    /// Create the root of the cache and every directory above it.
    CreateDirs,
    /// Remove the file that holds the registry.
    RemoveFile,
    /// Nothing: the cleaning is over.
    Done,
}

/// How an action of a cleaning went.
#[derive(Debug, PartialEq, Eq)]
pub enum CleanEvent {
    /// Whether the user consents.
    Answer(bool),
    /// The answer to a probe.
    Exists(bool),
    /// The action was carried out.
    Completed,
    /// The action could not be carried out.
    Failed(String),
}

/// Where a cleaning stands: each phase but the last waits for one action.
#[derive(Debug, Clone, Copy, PartialEq, Eq, Structural)]
pub enum CleanPhase {
    Confirm,
    ProbeCache,
    RemoveCache,
    CreateCache,
    ProbeConfig,
    RemoveConfig,
    Finished,
}

/// A cleaning in progress.
#[derive(Debug, PartialEq, Eq)]
pub struct Clean {
    /// Whether the registry is cleaned as well as the cache.
    pub all: bool,
    pub phase: CleanPhase,
    /// Whether the user refused.
    pub cancelled: bool,
    /// Why the root of the cache could not be created again.
    pub failure: Option<String>,
    /// Why the cache could not be removed: a warning only.
    pub cache_warning: Option<String>,
    /// Why the registry's file could not be removed: a warning only.
    pub config_warning: Option<String>,
}

impl CleanAction {
    /// Whether carrying out the action can change the file system.
    pub open spec fn mutates(self) -> bool {
        self == CleanAction::RemoveTree || self == CleanAction::CreateDirs || self
            == CleanAction::RemoveFile
    }

    /// Whether `event` is an answer to this action.
    pub open spec fn answered_by(self, event: CleanEvent) -> bool {
        match self {
            CleanAction::Confirm => event is Answer,
            CleanAction::Probe(_) => event is Exists,
            CleanAction::RemoveTree | CleanAction::CreateDirs | CleanAction::RemoveFile => event
                is Completed || event is Failed,
            CleanAction::Done => false,
        }
    }
}

impl CleanPhase {
    /// The action that the phase waits for.
    pub open spec fn action(self) -> CleanAction {
        match self {
            CleanPhase::Confirm => CleanAction::Confirm,
            CleanPhase::ProbeCache => CleanAction::Probe(CleanPlace::CacheRoot),
            CleanPhase::RemoveCache => CleanAction::RemoveTree,
            CleanPhase::CreateCache => CleanAction::CreateDirs,
            CleanPhase::ProbeConfig => CleanAction::Probe(CleanPlace::ConfigFile),
            CleanPhase::RemoveConfig => CleanAction::RemoveFile,
            CleanPhase::Finished => CleanAction::Done,
        }
    }

    /// A bound on the number of answers that are still taken in this phase
    /// and after it.
    pub open spec fn rank(self) -> nat {
        match self {
            CleanPhase::Confirm => 6,
            CleanPhase::ProbeCache => 5,
            CleanPhase::RemoveCache => 4,
            CleanPhase::CreateCache => 3,
            CleanPhase::ProbeConfig => 2,
            CleanPhase::RemoveConfig => 1,
            CleanPhase::Finished => 0,
        }
    }
}

/// What the user is asked before a cleaning.
pub open spec fn question_spec(all: bool) -> Seq<char> {
    if all {
        "This will remove ALL templates, cache, and configuration. Are you sure?"@
    } else {
        "This will remove ALL cached template files. Are you sure?"@
    }
}

impl Clean {
    /// A cleaning that has not asked for anything yet: it begins with the
    /// question, unless it is forced.
    pub open spec fn initial(all: bool, force: bool) -> Clean {
        Clean {
            all,
            phase: if force {
                CleanPhase::ProbeCache
            } else {
                CleanPhase::Confirm
            },
            cancelled: false,
            failure: None,
            cache_warning: None,
            config_warning: None,
        }
    }

    /// Whether the cleaning is over.
    pub open spec fn finished(self) -> bool {
        self.phase == CleanPhase::Finished
    }

    /// Whether the cleaning is over and the registry is to be emptied: it was
    /// asked to clean everything, was not refused, and did not fail.
    pub open spec fn empties_registry(self) -> bool {
        self.finished() && self.all && !self.cancelled && self.failure is None
    }

    /// The cleaning with its phase changed.
    pub open spec fn to(self, phase: CleanPhase) -> Clean {
        Clean { phase, ..self }
    }

    /// The cleaning after `event`, which reports how the pending action went.
    /// An event that is no answer to the pending action changes nothing.
    pub open spec fn next(self, event: CleanEvent) -> Clean {
        match (self.phase, event) {
            (CleanPhase::Confirm, CleanEvent::Answer(yes)) => if yes {
                self.to(CleanPhase::ProbeCache)
            } else {
                Clean { phase: CleanPhase::Finished, cancelled: true, ..self }
            },
            (CleanPhase::ProbeCache, CleanEvent::Exists(found)) => if found {
                self.to(CleanPhase::RemoveCache)
            } else {
                self.to(CleanPhase::CreateCache)
            },
            (CleanPhase::RemoveCache, CleanEvent::Completed) => self.to(CleanPhase::CreateCache),
            (CleanPhase::RemoveCache, CleanEvent::Failed(cause)) => Clean {
                phase: CleanPhase::CreateCache,
                cache_warning: Some(cause),
                ..self
            },
            (CleanPhase::CreateCache, CleanEvent::Completed) => if self.all {
                self.to(CleanPhase::ProbeConfig)
            } else {
                self.to(CleanPhase::Finished)
            },
            (CleanPhase::CreateCache, CleanEvent::Failed(cause)) => Clean {
                phase: CleanPhase::Finished,
                failure: Some(cause),
                ..self
            },
            (CleanPhase::ProbeConfig, CleanEvent::Exists(found)) => if found {
                self.to(CleanPhase::RemoveConfig)
            } else {
                self.to(CleanPhase::Finished)
            },
            (CleanPhase::RemoveConfig, CleanEvent::Completed) => self.to(CleanPhase::Finished),
            (CleanPhase::RemoveConfig, CleanEvent::Failed(cause)) => Clean {
                phase: CleanPhase::Finished,
                config_warning: Some(cause),
                ..self
            },
            _ => self,
        }
    }

    /// What the user is asked before a cleaning.
    pub fn question(all: bool) -> (r: String)
        ensures
            r@ == question_spec(all),
    {
        if all {
            String::from_str(
                "This will remove ALL templates, cache, and configuration. Are you sure?",
            )
        } else {
            String::from_str("This will remove ALL cached template files. Are you sure?")
        }
    }

    /// The action that the cleaning waits for.
    pub fn pending(&self) -> (r: CleanAction)
        ensures
            r == self.phase.action(),
    {
        match self.phase {
            CleanPhase::Confirm => CleanAction::Confirm,
            CleanPhase::ProbeCache => CleanAction::Probe(CleanPlace::CacheRoot),
            CleanPhase::RemoveCache => CleanAction::RemoveTree,
            CleanPhase::CreateCache => CleanAction::CreateDirs,
            CleanPhase::ProbeConfig => CleanAction::Probe(CleanPlace::ConfigFile),
            CleanPhase::RemoveConfig => CleanAction::RemoveFile,
            CleanPhase::Finished => CleanAction::Done,
        }
    }

    /// Whether the cleaning is over.
    pub fn is_finished(&self) -> (r: bool)
        ensures
            r == self.finished(),
    {
        match self.phase {
            CleanPhase::Finished => true,
            _ => false,
        }
    }

    /// Takes in how the pending action went.
    pub fn advance(&mut self, event: CleanEvent)
        ensures
            *final(self) == old(self).next(event),
    {
        match (self.phase, event) {
            (CleanPhase::Confirm, CleanEvent::Answer(yes)) => {
                if yes {
                    self.phase = CleanPhase::ProbeCache;
                } else {
                    self.phase = CleanPhase::Finished;
                    self.cancelled = true;
                }
            },
            (CleanPhase::ProbeCache, CleanEvent::Exists(found)) => {
                if found {
                    self.phase = CleanPhase::RemoveCache;
                } else {
                    self.phase = CleanPhase::CreateCache;
                }
            },
            (CleanPhase::RemoveCache, CleanEvent::Completed) => {
                self.phase = CleanPhase::CreateCache;
            },
            (CleanPhase::RemoveCache, CleanEvent::Failed(cause)) => {
                self.phase = CleanPhase::CreateCache;
                self.cache_warning = Some(cause);
            },
            (CleanPhase::CreateCache, CleanEvent::Completed) => {
                if self.all {
                    self.phase = CleanPhase::ProbeConfig;
                } else {
                    self.phase = CleanPhase::Finished;
                }
            },
            (CleanPhase::CreateCache, CleanEvent::Failed(cause)) => {
                self.phase = CleanPhase::Finished;
                self.failure = Some(cause);
            },
            (CleanPhase::ProbeConfig, CleanEvent::Exists(found)) => {
                if found {
                    self.phase = CleanPhase::RemoveConfig;
                } else {
                    self.phase = CleanPhase::Finished;
                }
            },
            (CleanPhase::RemoveConfig, CleanEvent::Completed) => {
                self.phase = CleanPhase::Finished;
            },
            (CleanPhase::RemoveConfig, CleanEvent::Failed(cause)) => {
                self.phase = CleanPhase::Finished;
                self.config_warning = Some(cause);
            },
            _ => {},
        }
    }

    /// A cleaning that is not forced asks first, and where the user refuses
    /// it is over: it has asked for nothing that changes the file system, and
    /// the registry is not emptied.
    pub proof fn law_nothing_is_cleaned_without_consent(all: bool)
        ensures
            Clean::initial(all, false).phase.action() == CleanAction::Confirm,
            !Clean::initial(all, false).phase.action().mutates(),
            Clean::initial(all, false).next(CleanEvent::Answer(false)).finished(),
            Clean::initial(all, false).next(CleanEvent::Answer(false)).cancelled,
            !Clean::initial(all, false).next(CleanEvent::Answer(false)).empties_registry(),
    {
    }

    /// A forced cleaning does not ask.
    pub proof fn law_forced_cleaning_does_not_ask(all: bool)
        ensures
            Clean::initial(all, true).phase.action() == CleanAction::Probe(CleanPlace::CacheRoot),
    {
    }

    /// The registry and its file are touched only where everything is to be
    /// cleaned; whether that is so, and a refusal, never change.
    pub proof fn law_registry_is_kept_unless_all(self, event: CleanEvent)
        ensures
            self.next(event).all == self.all,
            self.cancelled ==> self.next(event).cancelled,
            !self.all && (self.phase != CleanPhase::ProbeConfig && self.phase
                != CleanPhase::RemoveConfig) ==> self.next(event).phase != CleanPhase::ProbeConfig
                && self.next(event).phase != CleanPhase::RemoveConfig,
            self.next(event).empties_registry() ==> self.all,
    {
    }

    /// That the cache could not be removed, or the registry's file, does not
    /// fail the cleaning; that the root of the cache could not be created
    /// again does, and ends it.
    pub proof fn law_only_creating_the_cache_fails(self, event: CleanEvent)
        requires
            self.failure is None,
        ensures
            self.next(event).failure is Some <==> self.phase == CleanPhase::CreateCache && event
                is Failed,
            self.next(event).failure is Some ==> self.next(event).finished(),
    {
    }

    /// Every answer to the pending action brings the cleaning nearer to its
    /// end, which comes after six answers at most; any other event changes
    /// nothing.
    pub proof fn law_every_answer_is_progress(self, event: CleanEvent)
        ensures
            self.phase.action().answered_by(event) ==> self.next(event).phase.rank()
                < self.phase.rank(),
            !self.phase.action().answered_by(event) ==> self.next(event) == self,
            self.phase.rank() <= 6,
    {
    }
}

impl TemplateManager {
    /// Prepares a cleaning: of the cache alone, or with `all` of the registry
    /// as well. Unless `force` is set the cleaning begins by asking.
    pub fn clean_templates(&self, all: bool, force: bool) -> (r: Clean)
        ensures
            r == Clean::initial(all, force),
    {
        Clean {
            all,
            phase: if force {
                CleanPhase::ProbeCache
            } else {
                CleanPhase::Confirm
            },
            cancelled: false,
            failure: None,
            cache_warning: None,
            config_warning: None,
        }
    }

    /// Closes a cleaning: empties the registry where the cleaning says so,
    /// and fails where the cleaning failed. The result says whether anything
    /// was cleaned, which is not so where the user refused. A cleaning that
    /// is not over yet has no result and changes nothing.
    pub fn finish_clean(&mut self, clean: &Clean) -> (r: Option<Result<bool, Error>>)
        ensures
            final(self).cache_root() == old(self).cache_root(),
            final(self).config@ == if clean.empties_registry() {
                ConfigView::empty()
            } else {
                old(self).config@
            },
            r is Some <==> clean.finished(),
            clean.finished() ==> match clean.failure {
                Some(cause) => r->Some_0 is Err && r->Some_0->Err_0@ == (ErrorView::IoError {
                    location: old(self).cache_root(),
                    cause: cause@,
                }),
                None => r == Some(Ok::<bool, Error>(!clean.cancelled)),
            },
    {
        if !clean.is_finished() {
            return None;
        }
        Some(self.close_clean(clean))
    }

    /// Closes a cleaning that is over.
    fn close_clean(&mut self, clean: &Clean) -> (r: Result<bool, Error>)
        requires
            clean.finished(),
        ensures
            final(self).cache_root() == old(self).cache_root(),
            final(self).config@ == if clean.empties_registry() {
                ConfigView::empty()
            } else {
                old(self).config@
            },
            match clean.failure {
                Some(cause) => r is Err && r->Err_0@ == (ErrorView::IoError {
                    location: old(self).cache_root(),
                    cause: cause@,
                }),
                None => r == Ok::<bool, Error>(!clean.cancelled),
            },
    {
        match &clean.failure {
            Some(cause) => Err(
                Error::IoError { location: self.cache_dir.clone(), cause: cause.clone() },
            ),
            None => {
                if clean.all && !clean.cancelled {
                    self.config = Config::empty();
                }
                Ok(!clean.cancelled)
            },
        }
    }
}

} // verus!
