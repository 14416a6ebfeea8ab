//! The download of one template as a machine.
//!
//! A download is a bounded conversation with the file system and the
//! version-control client. The machine never touches either: it names the
//! one action it is waiting for, and moves on when told how that action went.
//! Whoever drives it performs the actions.

use vstd::prelude::*;
use crate::error::CheckoutStep;

verus! {

/// The places in the file system that a download touches.
#[derive(Debug, Clone, Copy, PartialEq, Eq, Structural)]
pub enum Place {
    /// The directory that holds the cached template.
    CacheEntry,
    /// The directory above the cache entry, one per repository.
    CacheParent,
    /// The working directory of the checkout.
    TempDir,
    /// The template's subtree inside the working directory.
    Source,
}

/// How often a removal is tried, and how long to wait between tries.
#[derive(Debug, Clone, Copy, PartialEq, Eq, Structural)]
pub struct RetryPolicy {
    /// The number of tries. At least one try is always made.
    pub attempts: u32,
    /// The pause between two tries, in milliseconds.
    pub backoff_ms: u64,
}

/// What the machine asks its driver to do.
#[derive(Debug, Clone, Copy, PartialEq, Eq, Structural)]
pub enum Action {
    /// Report whether the place exists. Changes nothing.
    Probe(Place),
    /// Remove the place and everything below it.
    RemoveTree(Place),
    /// Create the place and every directory above it.
    CreateDirs(Place),
    /// Wait for this many milliseconds.
    Pause(u64),
    /// Run the version-control client for this step, within the step's time.
    RunGit(CheckoutStep),
    /// Copy `Place::Source` to `Place::CacheEntry`, recursively.
    CopyTree,
    /// Nothing: the download is over.
    Done,
}

/// How an action went.
#[derive(Debug, PartialEq, Eq)]
pub enum Event {
    /// The answer to a probe.
    Exists(bool),
    /// The action was carried out.
    Completed,
    /// The action could not be carried out, or the client could not be started.
    Failed(String),
    /// The client ran to its end.
    Exited { success: bool, status: Option<i32> },
    /// The client was still running when the step's time was up.
    TimedOut,
}

/// Why a download failed.
#[derive(Debug, PartialEq, Eq)]
pub enum Failure {
    /// The file system refused an action at this place.
    Io(Place, String),
    /// The client could not be started.
    Spawn(CheckoutStep, String),
    /// The client ran and reported failure.
    Process(CheckoutStep, Option<i32>),
    /// The client did not finish within the step's time.
    Timeout(CheckoutStep),
    /// The checked-out repository has nothing at the template's path.
    PathNotFound,
    /// The template's repository is not registered.
    NoRepository,
}

/// Where a download stands: each phase but the last waits for one action.
/// A number says how many more tries a removal has after the current one.
#[derive(Debug, Clone, Copy, PartialEq, Eq, Structural)]
pub enum Phase {
    ProbeCache,
    ProbeStaleTemp,
    RemoveStaleTemp(u32),
    BackoffStaleTemp(u32),
    CreateTemp,
    Git(CheckoutStep),
    CreateParent,
    ProbeSource,
    ProbeEntry,
    RemoveEntry(u32),
    BackoffEntry(u32),
    Copy,
    ProbeTemp,
    RemoveTemp(u32),
    BackoffTemp(u32),
    Finished,
}

/// A download in progress.
#[derive(Debug, PartialEq, Eq)]
pub struct Download {
    /// Whether an existing cache entry is replaced.
    pub force: bool,
    /// Whether the template's repository is registered.
    pub registered: bool,
    pub policy: RetryPolicy,
    pub phase: Phase,
    /// The first thing that went wrong, if anything did.
    pub failure: Option<Failure>,
    /// Why the working directory could not be removed at the end of a
    /// download that had failed before: a warning only.
    pub cleanup_warning: Option<String>,
}

impl RetryPolicy {
    /// Three tries, half a second apart.
    pub fn standard() -> (r: RetryPolicy)
        ensures
            r == (RetryPolicy { attempts: 3, backoff_ms: 500 }),
    {
        RetryPolicy { attempts: 3, backoff_ms: 500 }
    }

    /// The number of tries that may follow the first one.
    pub open spec fn retries_spec(self) -> u32 {
        if self.attempts == 0 {
            0
        } else {
            (self.attempts - 1) as u32
        }
    }

    /// The number of tries that may follow the first one.
    pub fn retries(self) -> (r: u32)
        ensures
            r == self.retries_spec(),
    {
        if self.attempts == 0 {
            0
        } else {
            self.attempts - 1
        }
    }
}

impl CheckoutStep {
    /// The time a step may take, in seconds.
    pub open spec fn timeout_spec(self) -> u64 {
        match self {
            CheckoutStep::Clone => 300,
            CheckoutStep::SparseSet => 60,
            CheckoutStep::Checkout => 120,
        }
    }

    /// The time a step may take, in seconds.
    pub fn timeout_secs(self) -> (r: u64)
        ensures
            r == self.timeout_spec(),
    {
        match self {
            CheckoutStep::Clone => 300,
            CheckoutStep::SparseSet => 60,
            CheckoutStep::Checkout => 120,
        }
    }

    /// The phase that follows a step that succeeded.
    pub open spec fn successor(self) -> Phase {
        match self {
            CheckoutStep::Clone => Phase::Git(CheckoutStep::SparseSet),
            CheckoutStep::SparseSet => Phase::Git(CheckoutStep::Checkout),
            CheckoutStep::Checkout => Phase::CreateParent,
        }
    }
}

impl Action {
    /// Whether carrying out the action can change the file system.
    pub open spec fn mutates(self) -> bool {
        match self {
            Action::Probe(_) => false,
            Action::Pause(_) => false,
            Action::Done => false,
            _ => true,
        }
    }

    /// Whether `event` is an answer to this action.
    pub open spec fn answered_by(self, event: Event) -> bool {
        match self {
            Action::Probe(_) => event is Exists,
            Action::RemoveTree(_) | Action::CreateDirs(_) | Action::CopyTree => event is Completed
                || event is Failed,
            Action::Pause(_) => event is Completed,
            Action::RunGit(_) => event is Exited || event is Failed || event is TimedOut,
            Action::Done => false,
        }
    }
}

impl Phase {
    /// The action that the phase waits for.
    pub open spec fn action(self, policy: RetryPolicy) -> Action {
        match self {
            Phase::ProbeCache => Action::Probe(Place::CacheEntry),
            Phase::ProbeStaleTemp => Action::Probe(Place::TempDir),
            Phase::RemoveStaleTemp(_) => Action::RemoveTree(Place::TempDir),
            Phase::BackoffStaleTemp(_) => Action::Pause(policy.backoff_ms),
            Phase::CreateTemp => Action::CreateDirs(Place::TempDir),
            Phase::Git(step) => Action::RunGit(step),
            Phase::CreateParent => Action::CreateDirs(Place::CacheParent),
            Phase::ProbeSource => Action::Probe(Place::Source),
            Phase::ProbeEntry => Action::Probe(Place::CacheEntry),
            Phase::RemoveEntry(_) => Action::RemoveTree(Place::CacheEntry),
            Phase::BackoffEntry(_) => Action::Pause(policy.backoff_ms),
            Phase::Copy => Action::CopyTree,
            Phase::ProbeTemp => Action::Probe(Place::TempDir),
            Phase::RemoveTemp(_) => Action::RemoveTree(Place::TempDir),
            Phase::BackoffTemp(_) => Action::Pause(policy.backoff_ms),
            Phase::Finished => Action::Done,
        }
    }

    /// The place of the phase in the course of a download: phases that try
    /// one thing again and again share a stage.
    pub open spec fn stage(self) -> nat {
        match self {
            Phase::ProbeCache => 0,
            Phase::ProbeStaleTemp | Phase::RemoveStaleTemp(_) | Phase::BackoffStaleTemp(_) => 1,
            Phase::CreateTemp => 2,
            Phase::Git(CheckoutStep::Clone) => 3,
            Phase::Git(CheckoutStep::SparseSet) => 4,
            Phase::Git(CheckoutStep::Checkout) => 5,
            Phase::CreateParent => 6,
            Phase::ProbeSource => 7,
            Phase::ProbeEntry | Phase::RemoveEntry(_) | Phase::BackoffEntry(_) => 8,
            Phase::Copy => 9,
            Phase::ProbeTemp | Phase::RemoveTemp(_) | Phase::BackoffTemp(_) => 10,
            Phase::Finished => 11,
        }
    }

    /// Whether `event` says that the action of this phase went as a download
    /// needs it to go on: the client succeeded, the template's subtree is
    /// there, the cache entry is not, or the action was carried out.
    pub open spec fn passed_by(self, event: Event) -> bool {
        match self {
            Phase::Git(_) => event matches Event::Exited { success, .. } && success,
            Phase::ProbeSource => event == Event::Exists(true),
            Phase::ProbeEntry => event == Event::Exists(false),
            _ => event is Completed,
        }
    }

    /// The phases between the creation of the working directory and the
    /// start of its removal: the checkout and the copy into the cache.
    pub open spec fn in_checkout(self) -> bool {
        match self {
            Phase::Git(_) | Phase::CreateParent | Phase::ProbeSource | Phase::ProbeEntry
            | Phase::RemoveEntry(_) | Phase::BackoffEntry(_) | Phase::Copy => true,
            _ => false,
        }
    }

    /// The phases that remove the working directory at the end.
    pub open spec fn in_cleanup(self) -> bool {
        match self {
            Phase::ProbeTemp | Phase::RemoveTemp(_) | Phase::BackoffTemp(_) => true,
            _ => false,
        }
    }
}

impl Download {
    /// A download that has not asked for anything yet.
    pub open spec fn initial(force: bool, policy: RetryPolicy, registered: bool) -> Download {
        Download {
            force,
            registered,
            policy,
            phase: Phase::ProbeCache,
            failure: None,
            cleanup_warning: None,
        }
    }

    /// The action that the download waits for.
    pub open spec fn pending_spec(self) -> Action {
        self.phase.action(self.policy)
    }

    /// Whether the download is over.
    pub open spec fn finished(self) -> bool {
        self.phase == Phase::Finished
    }

    /// The download with its phase changed.
    pub open spec fn to(self, phase: Phase) -> Download {
        Download { phase, ..self }
    }

    /// The download after something went wrong during the checkout: the
    /// failure is kept and the working directory is removed next.
    pub open spec fn fail(self, failure: Failure) -> Download {
        Download { phase: Phase::ProbeTemp, failure: Some(failure), ..self }
    }

    /// The download after the removal of the working directory has been given
    /// up: this is the failure if nothing went wrong before, and a warning
    /// otherwise.
    pub open spec fn give_up_cleanup(self, cause: String) -> Download {
        match self.failure {
            Some(_) => Download { phase: Phase::Finished, cleanup_warning: Some(cause), ..self },
            None => Download {
                phase: Phase::Finished,
                failure: Some(Failure::Io(Place::TempDir, cause)),
                ..self
            },
        }
    }

    /// The download after `event`, which reports how the pending action went.
    /// An event that is no answer to the pending action changes nothing.
    ///
    /// The first answer decides whether there is anything to do. A cache
    /// entry that exists ends a download that is not forced, with success.
    /// Otherwise a repository that is not registered ends it, with that
    /// failure. Only then does the checkout begin.
    pub open spec fn next(self, event: Event) -> Download {
        match (self.phase, event) {
            (Phase::ProbeCache, Event::Exists(found)) => if found && !self.force {
                self.to(Phase::Finished)
            } else if !self.registered {
                Download {
                    phase: Phase::Finished,
                    failure: Some(Failure::NoRepository),
                    ..self
                }
            } else {
                self.to(Phase::ProbeStaleTemp)
            },
            (Phase::ProbeStaleTemp, Event::Exists(found)) => if found {
                self.to(Phase::RemoveStaleTemp(self.policy.retries_spec()))
            } else {
                self.to(Phase::CreateTemp)
            },
            (Phase::RemoveStaleTemp(_), Event::Completed) => self.to(Phase::CreateTemp),
            (Phase::RemoveStaleTemp(n), Event::Failed(cause)) => if n == 0 {
                Download {
                    phase: Phase::Finished,
                    failure: Some(Failure::Io(Place::TempDir, cause)),
                    ..self
                }
            } else {
                self.to(Phase::BackoffStaleTemp((n - 1) as u32))
            },
            (Phase::BackoffStaleTemp(n), Event::Completed) => self.to(Phase::RemoveStaleTemp(n)),
            (Phase::CreateTemp, Event::Completed) => self.to(Phase::Git(CheckoutStep::Clone)),
            (Phase::CreateTemp, Event::Failed(cause)) => Download {
                phase: Phase::Finished,
                failure: Some(Failure::Io(Place::TempDir, cause)),
                ..self
            },
            (Phase::Git(step), Event::Exited { success, status }) => if success {
                self.to(step.successor())
            } else {
                self.fail(Failure::Process(step, status))
            },
            (Phase::Git(step), Event::Failed(cause)) => self.fail(Failure::Spawn(step, cause)),
            (Phase::Git(step), Event::TimedOut) => self.fail(Failure::Timeout(step)),
            (Phase::CreateParent, Event::Completed) => self.to(Phase::ProbeSource),
            (Phase::CreateParent, Event::Failed(cause)) => self.fail(
                Failure::Io(Place::CacheParent, cause),
            ),
            (Phase::ProbeSource, Event::Exists(found)) => if found {
                self.to(Phase::ProbeEntry)
            } else {
                self.fail(Failure::PathNotFound)
            },
            (Phase::ProbeEntry, Event::Exists(found)) => if found {
                self.to(Phase::RemoveEntry(self.policy.retries_spec()))
            } else {
                self.to(Phase::Copy)
            },
            (Phase::RemoveEntry(_), Event::Completed) => self.to(Phase::Copy),
            (Phase::RemoveEntry(n), Event::Failed(cause)) => if n == 0 {
                self.fail(Failure::Io(Place::CacheEntry, cause))
            } else {
                self.to(Phase::BackoffEntry((n - 1) as u32))
            },
            (Phase::BackoffEntry(n), Event::Completed) => self.to(Phase::RemoveEntry(n)),
            (Phase::Copy, Event::Completed) => self.to(Phase::ProbeTemp),
            (Phase::Copy, Event::Failed(cause)) => self.fail(
                Failure::Io(Place::CacheEntry, cause),
            ),
            (Phase::ProbeTemp, Event::Exists(found)) => if found {
                self.to(Phase::RemoveTemp(self.policy.retries_spec()))
            } else {
                self.to(Phase::Finished)
            },
            (Phase::RemoveTemp(_), Event::Completed) => self.to(Phase::Finished),
            (Phase::RemoveTemp(n), Event::Failed(cause)) => if n == 0 {
                self.give_up_cleanup(cause)
            } else {
                self.to(Phase::BackoffTemp((n - 1) as u32))
            },
            (Phase::BackoffTemp(n), Event::Completed) => self.to(Phase::RemoveTemp(n)),
            _ => self,
        }
    }
}

impl Download {
    /// The download after each of `events` in turn.
    pub open spec fn after(self, events: Seq<Event>) -> Download
        decreases events.len(),
    {
        if events.len() == 0 {
            self
        } else {
            self.after(events.drop_last()).next(events.last())
        }
    }

    /// Whether, while `events` were taken in from here, the copy into the
    /// cache was carried out.
    pub open spec fn has_copied(self, events: Seq<Event>) -> bool {
        exists|k: int|
            0 <= k < events.len() && (#[trigger] self.after(events.take(k))).phase == Phase::Copy
                && events[k] is Completed
    }

    /// A bound on the number of answers that the download can still take.
    pub open spec fn rank(self) -> nat {
        let w: nat = 2 * (u32::MAX as nat) + 3;
        match self.phase {
            Phase::Finished => 0,
            Phase::RemoveTemp(n) => 2 * (n as nat) + 1,
            Phase::BackoffTemp(n) => 2 * (n as nat) + 2,
            Phase::ProbeTemp => w,
            Phase::Copy => w + 1,
            Phase::RemoveEntry(n) => w + 2 + 2 * (n as nat),
            Phase::BackoffEntry(n) => w + 3 + 2 * (n as nat),
            Phase::ProbeEntry => 2 * w + 1,
            Phase::ProbeSource => 2 * w + 2,
            Phase::CreateParent => 2 * w + 3,
            Phase::Git(CheckoutStep::Checkout) => 2 * w + 4,
            Phase::Git(CheckoutStep::SparseSet) => 2 * w + 5,
            Phase::Git(CheckoutStep::Clone) => 2 * w + 6,
            Phase::CreateTemp => 2 * w + 7,
            Phase::RemoveStaleTemp(n) => 2 * w + 8 + 2 * (n as nat),
            Phase::BackoffStaleTemp(n) => 2 * w + 9 + 2 * (n as nat),
            Phase::ProbeStaleTemp => 3 * w + 8,
            Phase::ProbeCache => 3 * w + 9,
        }
    }

    /// Starts a download: the first thing it asks is whether the cache entry
    /// exists. `registered` says whether the template's repository is
    /// registered.
    pub fn start(force: bool, policy: RetryPolicy, registered: bool) -> (r: Download)
        ensures
            r == Download::initial(force, policy, registered),
    {
        Download {
            force,
            registered,
            policy,
            phase: Phase::ProbeCache,
            failure: None,
            cleanup_warning: None,
        }
    }

    /// The action that the download waits for.
    pub fn pending(&self) -> (r: Action)
        ensures
            r == self.pending_spec(),
    {
        match self.phase {
            Phase::ProbeCache => Action::Probe(Place::CacheEntry),
            Phase::ProbeStaleTemp => Action::Probe(Place::TempDir),
            Phase::RemoveStaleTemp(_) => Action::RemoveTree(Place::TempDir),
            Phase::BackoffStaleTemp(_) => Action::Pause(self.policy.backoff_ms),
            Phase::CreateTemp => Action::CreateDirs(Place::TempDir),
            Phase::Git(step) => Action::RunGit(step),
            Phase::CreateParent => Action::CreateDirs(Place::CacheParent),
            Phase::ProbeSource => Action::Probe(Place::Source),
            Phase::ProbeEntry => Action::Probe(Place::CacheEntry),
            Phase::RemoveEntry(_) => Action::RemoveTree(Place::CacheEntry),
            Phase::BackoffEntry(_) => Action::Pause(self.policy.backoff_ms),
            Phase::Copy => Action::CopyTree,
            Phase::ProbeTemp => Action::Probe(Place::TempDir),
            Phase::RemoveTemp(_) => Action::RemoveTree(Place::TempDir),
            Phase::BackoffTemp(_) => Action::Pause(self.policy.backoff_ms),
            Phase::Finished => Action::Done,
        }
    }

    /// Whether the download is over.
    pub fn is_finished(&self) -> (r: bool)
        ensures
            r == self.finished(),
    {
        match self.phase {
            Phase::Finished => true,
            _ => false,
        }
    }

    /// Takes in how the pending action went.
    pub fn advance(&mut self, event: Event)
        ensures
            *final(self) == old(self).next(event),
    {
        let retries = self.policy.retries();
        match (self.phase, event) {
            (Phase::ProbeCache, Event::Exists(found)) => {
                if found && !self.force {
                    self.phase = Phase::Finished;
                } else if !self.registered {
                    self.phase = Phase::Finished;
                    self.failure = Some(Failure::NoRepository);
                } else {
                    self.phase = Phase::ProbeStaleTemp;
                }
            },
            (Phase::ProbeStaleTemp, Event::Exists(found)) => {
                if found {
                    self.phase = Phase::RemoveStaleTemp(retries);
                } else {
                    self.phase = Phase::CreateTemp;
                }
            },
            (Phase::RemoveStaleTemp(_), Event::Completed) => {
                self.phase = Phase::CreateTemp;
            },
            (Phase::RemoveStaleTemp(n), Event::Failed(cause)) => {
                if n == 0 {
                    self.phase = Phase::Finished;
                    self.failure = Some(Failure::Io(Place::TempDir, cause));
                } else {
                    self.phase = Phase::BackoffStaleTemp(n - 1);
                }
            },
            (Phase::BackoffStaleTemp(n), Event::Completed) => {
                self.phase = Phase::RemoveStaleTemp(n);
            },
            (Phase::CreateTemp, Event::Completed) => {
                self.phase = Phase::Git(CheckoutStep::Clone);
            },
            (Phase::CreateTemp, Event::Failed(cause)) => {
                self.phase = Phase::Finished;
                self.failure = Some(Failure::Io(Place::TempDir, cause));
            },
            (Phase::Git(step), Event::Exited { success, status }) => {
                if success {
                    self.phase = match step {
                        CheckoutStep::Clone => Phase::Git(CheckoutStep::SparseSet),
                        CheckoutStep::SparseSet => Phase::Git(CheckoutStep::Checkout),
                        CheckoutStep::Checkout => Phase::CreateParent,
                    };
                } else {
                    self.abandon(Failure::Process(step, status));
                }
            },
            (Phase::Git(step), Event::Failed(cause)) => {
                self.abandon(Failure::Spawn(step, cause));
            },
            (Phase::Git(step), Event::TimedOut) => {
                self.abandon(Failure::Timeout(step));
            },
            (Phase::CreateParent, Event::Completed) => {
                self.phase = Phase::ProbeSource;
            },
            (Phase::CreateParent, Event::Failed(cause)) => {
                self.abandon(Failure::Io(Place::CacheParent, cause));
            },
            (Phase::ProbeSource, Event::Exists(found)) => {
                if found {
                    self.phase = Phase::ProbeEntry;
                } else {
                    self.abandon(Failure::PathNotFound);
                }
            },
            (Phase::ProbeEntry, Event::Exists(found)) => {
                if found {
                    self.phase = Phase::RemoveEntry(retries);
                } else {
                    self.phase = Phase::Copy;
                }
            },
            (Phase::RemoveEntry(_), Event::Completed) => {
                self.phase = Phase::Copy;
            },
            (Phase::RemoveEntry(n), Event::Failed(cause)) => {
                if n == 0 {
                    self.abandon(Failure::Io(Place::CacheEntry, cause));
                } else {
                    self.phase = Phase::BackoffEntry(n - 1);
                }
            },
            (Phase::BackoffEntry(n), Event::Completed) => {
                self.phase = Phase::RemoveEntry(n);
            },
            (Phase::Copy, Event::Completed) => {
                self.phase = Phase::ProbeTemp;
            },
            (Phase::Copy, Event::Failed(cause)) => {
                self.abandon(Failure::Io(Place::CacheEntry, cause));
            },
            (Phase::ProbeTemp, Event::Exists(found)) => {
                if found {
                    self.phase = Phase::RemoveTemp(retries);
                } else {
                    self.phase = Phase::Finished;
                }
            },
            (Phase::RemoveTemp(_), Event::Completed) => {
                self.phase = Phase::Finished;
            },
            (Phase::RemoveTemp(n), Event::Failed(cause)) => {
                if n == 0 {
                    self.phase = Phase::Finished;
                    if self.failure.is_none() {
                        self.failure = Some(Failure::Io(Place::TempDir, cause));
                    } else {
                        self.cleanup_warning = Some(cause);
                    }
                } else {
                    self.phase = Phase::BackoffTemp(n - 1);
                }
            },
            (Phase::BackoffTemp(n), Event::Completed) => {
                self.phase = Phase::RemoveTemp(n);
            },
            _ => {},
        }
    }

    /// Records what went wrong during the checkout and turns to the removal
    /// of the working directory.
    fn abandon(&mut self, failure: Failure)
        ensures
            *final(self) == old(self).fail(failure),
    {
        self.phase = Phase::ProbeTemp;
        self.failure = Some(failure);
    }

    /// A download that is not forced and finds its cache entry asks one
    /// question, which changes nothing, and is over with success, whether or
    /// not the template's repository is registered.
    pub proof fn law_cached_template_is_left_alone(policy: RetryPolicy, registered: bool)
        ensures
            !Download::initial(false, policy, registered).pending_spec().mutates(),
            Download::initial(false, policy, registered).next(Event::Exists(true)).finished(),
            Download::initial(false, policy, registered).next(Event::Exists(true)).failure is None,
    {
    }

    /// Where the template's repository is not registered, the download asks
    /// one question, which changes nothing, and is over: with success where
    /// it is not forced and finds its cache entry, and else with the failure
    /// that the repository is not registered.
    pub proof fn law_unregistered_repository_changes_nothing(
        force: bool,
        policy: RetryPolicy,
        found: bool,
    )
        ensures
            !Download::initial(force, policy, false).pending_spec().mutates(),
            Download::initial(force, policy, false).next(Event::Exists(found)).finished(),
            Download::initial(force, policy, false).next(Event::Exists(found)).failure == (if found
                && !force {
                None
            } else {
                Some(Failure::NoRepository)
            }),
    {
    }

    /// A download that is over asks for nothing and takes no event in.
    pub proof fn law_finished_is_final(self, event: Event)
        requires
            self.finished(),
        ensures
            self.pending_spec() == Action::Done,
            self.next(event) == self,
    {
    }

    /// A forced download from a registered repository goes on to the checkout
    /// whether or not the cache entry exists.
    pub proof fn law_forced_download_proceeds(policy: RetryPolicy, found: bool)
        ensures
            Download::initial(true, policy, true).next(Event::Exists(found)).phase
                == Phase::ProbeStaleTemp,
    {
    }

    /// The copy into the cache begins only when the cache entry was just seen
    /// to be absent or was just removed: nothing of an old entry is left
    /// under what is copied.
    pub proof fn law_copy_needs_an_absent_entry(self, event: Event)
        requires
            self.phase != Phase::Copy,
            self.next(event).phase == Phase::Copy,
        ensures
            (self.phase == Phase::ProbeEntry && event == Event::Exists(false)) || (self.phase
                is RemoveEntry && event is Completed),
    {
    }

    /// A step of the checkout that runs out of time fails the download with
    /// that step's timeout, and the removal of the working directory is next.
    pub proof fn law_timeout_fails_the_step(self, step: CheckoutStep)
        requires
            self.phase == Phase::Git(step),
        ensures
            self.next(Event::TimedOut).failure == Some(Failure::Timeout(step)),
            self.next(Event::TimedOut).phase == Phase::ProbeTemp,
            self.next(Event::TimedOut).pending_spec() == Action::Probe(Place::TempDir),
    {
    }

    /// Nothing that happens during the checkout ends the download: it goes on
    /// with the checkout or turns to the removal of the working directory.
    pub proof fn law_checkout_ends_in_cleanup(self, event: Event)
        requires
            self.phase.in_checkout(),
        ensures
            self.next(event).phase.in_checkout() || self.next(event).phase == Phase::ProbeTemp,
            self.next(event).phase == Phase::ProbeTemp ==> (self.next(event).failure is Some
                || (self.phase == Phase::Copy && event is Completed)),
    {
    }

    /// While the working directory is being removed, a failure of the
    /// checkout stays the download's failure.
    pub proof fn law_cleanup_keeps_the_failure(self, event: Event)
        requires
            self.phase.in_cleanup() || self.finished(),
            self.failure is Some,
        ensures
            self.next(event).failure == self.failure,
            self.next(event).phase.in_cleanup() || self.next(event).finished(),
    {
    }

    /// The removal of the working directory ends the download only when the
    /// directory is gone, or when the last try to remove it has failed.
    pub proof fn law_cleanup_ends_with_the_directory_gone(self, event: Event)
        requires
            self.phase.in_cleanup(),
            self.next(event).finished(),
        ensures
            event == Event::Exists(false) || event is Completed || (event is Failed && self.phase
                == Phase::RemoveTemp(0)),
            (event is Failed && self.failure is None) ==> self.next(event).failure == Some(
                Failure::Io(Place::TempDir, event->Failed_0),
            ),
            (event is Failed && self.failure is Some) ==> self.next(event).failure == self.failure
                && self.next(event).cleanup_warning == Some(event->Failed_0),
            !(event is Failed) ==> self.next(event).failure == self.failure,
    {
    }

    /// Once a step has run out of time, the download's failure is that
    /// timeout whatever happens afterwards.
    pub proof fn law_timeout_is_the_result(self, step: CheckoutStep, events: Seq<Event>)
        requires
            self.phase == Phase::Git(step),
        ensures
            self.next(Event::TimedOut).after(events).failure == Some(Failure::Timeout(step)),
            self.next(Event::TimedOut).after(events).phase.in_cleanup() || self.next(
                Event::TimedOut,
            ).after(events).finished(),
        decreases events.len(),
    {
        if events.len() > 0 {
            self.law_timeout_is_the_result(step, events.drop_last());
            self.next(Event::TimedOut).after(events.drop_last()).law_cleanup_keeps_the_failure(
                events.last(),
            );
        }
    }

    /// A download that is forced and ends without a failure has copied the
    /// template into the cache, whatever was there before.
    pub proof fn law_forced_success_has_copied(
        policy: RetryPolicy,
        registered: bool,
        events: Seq<Event>,
    )
        ensures
            Download::initial(true, policy, registered).after(events).force,
            ({
                let end = Download::initial(true, policy, registered).after(events);
                (end.phase.in_cleanup() || end.finished()) && end.failure is None
                    ==> Download::initial(true, policy, registered).has_copied(events)
            }),
        decreases events.len(),
    {
        let start = Download::initial(true, policy, registered);
        if events.len() > 0 {
            let earlier = events.drop_last();
            let before = start.after(earlier);
            let end = start.after(events);
            Download::law_forced_success_has_copied(policy, registered, earlier);
            if (end.phase.in_cleanup() || end.finished()) && end.failure is None {
                if before.phase.in_cleanup() || before.finished() {
                    let k = choose|k: int|
                        0 <= k < earlier.len() && (#[trigger] start.after(earlier.take(k))).phase
                            == Phase::Copy && earlier[k] is Completed;
                    assert(events.take(k) =~= earlier.take(k));
                    assert(start.after(events.take(k)).phase == Phase::Copy);
                    assert(events[k] is Completed);
                } else {
                    let k = earlier.len() as int;
                    assert(events.take(k) =~= earlier);
                    assert(start.after(events.take(k)).phase == Phase::Copy);
                    assert(events[k] is Completed);
                }
            }
        }
    }

    /// The phases come in one order. An answer leaves the download in its
    /// stage, takes it to the next stage, or, where something went wrong or
    /// nothing is left to do, to the removal of the working directory or to
    /// the end. No stage of the checkout is passed over, and none is left for
    /// the next unless its action went well: the copy into the cache comes
    /// only after every step of the checkout has gone well.
    pub proof fn law_phases_come_in_order(self, event: Event)
        ensures
            ({
                let after = self.next(event);
                ||| after.phase.stage() == self.phase.stage()
                ||| after.phase.stage() == self.phase.stage() + 1
                ||| after.phase == Phase::ProbeTemp
                ||| after.finished()
            }),
            ({
                let after = self.next(event);
                self.phase.in_checkout() && after.phase.in_checkout() && after.phase.stage()
                    == self.phase.stage() + 1 ==> self.phase.passed_by(event) && after.failure
                    == self.failure
            }),
    {
    }

    /// Every answer to the pending action brings the download nearer to its
    /// end: no download goes on for ever.
    pub proof fn law_every_answer_is_progress(self, event: Event)
        requires
            self.pending_spec().answered_by(event),
        ensures
            self.next(event).rank() < self.rank(),
            self.rank() <= 6 * (u32::MAX as nat) + 18,
    {
    }

    /// An event that is no answer to the pending action changes nothing.
    pub proof fn law_other_events_are_ignored(self, event: Event)
        requires
            !self.pending_spec().answered_by(event),
        ensures
            self.next(event) == self,
    {
    }
}

} // verus!
