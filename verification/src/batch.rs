//! The download of every registered template, one after the other.
//!
//! A template whose download fails is reported and does not stop the others:
//! when the batch is over there is one outcome for each template, in the
//! order of the registry.

use vstd::prelude::*;
use crate::download::{Action, Download, Event, RetryPolicy};
use crate::error::{Error, ErrorView};
use crate::job::DownloadJob;
use crate::manager::TemplateManager;

verus! {

/// The downloads of all templates of a registry, as one machine.
#[derive(Debug, PartialEq, Eq)]
pub struct BatchDownload {
    /// The registry as it was when the batch began.
    pub registry: TemplateManager,
    pub force: bool,
    pub policy: RetryPolicy,
    /// The download that is under way, if the batch is not over.
    pub current: Option<DownloadJob>,
    /// The outcomes of the templates dealt with so far.
    pub outcomes: Vec<Result<(), Error>>,
}

/// An outcome as a value of mathematics: the error, if there was one.
pub open spec fn outcome_view(outcome: Result<(), Error>) -> Option<ErrorView> {
    match outcome {
        Ok(_) => None,
        Err(e) => Some(e@),
    }
}

/// The views of a sequence of outcomes, in order.
pub open spec fn outcomes_view(v: Seq<Result<(), Error>>) -> Seq<Option<ErrorView>> {
    v.map_values(|o: Result<(), Error>| outcome_view(o))
}

impl BatchDownload {
    /// The number of templates in the batch.
    pub open spec fn total(self) -> int {
        self.registry.config@.templates.len() as int
    }

    /// The number of templates dealt with so far.
    pub open spec fn done(self) -> int {
        self.outcomes@.len() as int
    }

    /// Whether the batch is over.
    pub open spec fn finished(self) -> bool {
        self.current is None
    }

    /// Whether `job` is the download of template `j` of the batch.
    pub open spec fn runs(self, job: DownloadJob, j: int) -> bool {
        &&& 0 <= j < self.total()
        &&& self.registry.prepares(job, self.registry.config.templates@[j])
        &&& job.run.force == self.force
        &&& job.run.policy == self.policy
    }

    /// Whether `job` is the download of template `j` of the batch and has
    /// not asked for anything yet.
    pub open spec fn begins(self, job: DownloadJob, j: int) -> bool {
        self.runs(job, j) && job.run == Download::initial(
            self.force,
            self.policy,
            self.registry.config@.has_repo(self.registry.config@.templates[j].repo),
        )
    }

    /// What holds of a batch at all times: there is an outcome for each
    /// template before the one whose download is under way, and when no
    /// download is under way, for every template.
    pub open spec fn well_formed(self) -> bool {
        &&& 0 <= self.done() <= self.total()
        &&& match self.current {
            Some(job) => self.runs(job, self.done()) && !job.run.finished(),
            None => self.done() == self.total(),
        }
    }

    /// A batch that is over has one outcome for each template.
    pub proof fn law_one_outcome_for_each_template(self)
        requires
            self.well_formed(),
            self.finished(),
        ensures
            self.outcomes@.len() == self.registry.config@.templates.len(),
    {
    }

    /// Turns to the template that has no outcome yet, if there is one: its
    /// download is prepared, and has not asked for anything.
    fn settle(&mut self)
        requires
            old(self).current is None,
            0 <= old(self).done() <= old(self).total(),
        ensures
            final(self).well_formed(),
            final(self).registry == old(self).registry,
            final(self).force == old(self).force,
            final(self).policy == old(self).policy,
            final(self).outcomes == old(self).outcomes,
            final(self).current matches Some(job) ==> final(self).begins(job, old(self).done()),
    {
        let next = self.outcomes.len();
        if next < self.registry.config.templates.len() {
            let template = &self.registry.config.templates[next];
            assert(template@ == self.registry.config@.templates[next as int]);
            let job = self.registry.download_template_with(template, self.force, self.policy);
            self.current = Some(job);
        }
    }

    /// The action that the batch waits for: that of the download under way.
    pub fn pending(&self) -> (r: Action)
        ensures
            r == match self.current {
                Some(job) => job.run.pending_spec(),
                None => Action::Done,
            },
    {
        match &self.current {
            Some(job) => job.run.pending(),
            None => Action::Done,
        }
    }

    /// Whether the batch is over.
    pub fn is_finished(&self) -> (r: bool)
        ensures
            r == self.finished(),
    {
        self.current.is_none()
    }

    /// Takes in how the pending action went. While the download under way
    /// goes on, nothing else changes. When it ends, its outcome is recorded,
    /// whatever it is, and the batch turns to the next template.
    /// This is what holds of a batch that is well formed, as every batch is
    /// that the manager prepared and that only this function has changed.
    pub fn advance(&mut self, event: Event)
        ensures
            old(self).well_formed() ==> final(self).well_formed(),
            old(self).current is None ==> *final(self) == *old(self),
            final(self).registry == old(self).registry,
            final(self).force == old(self).force,
            final(self).policy == old(self).policy,
            old(self).well_formed() ==> (old(self).current matches Some(job) ==> {
                let moved = DownloadJob { run: job.run.next(event), ..job };
                if moved.run.finished() {
                    &&& outcomes_view(final(self).outcomes@) == outcomes_view(
                        old(self).outcomes@,
                    ).push(moved.outcome())
                    &&& final(self).current matches Some(next) ==> final(self).begins(
                        next,
                        old(self).done() + 1,
                    )
                } else {
                    &&& final(self).current == Some(moved)
                    &&& final(self).outcomes == old(self).outcomes
                }
            }),
    {
        let taken = self.current.take();
        match taken {
            None => {},
            Some(mut job) => {
                job.run.advance(event);
                match job.result() {
                    None => {
                        self.current = Some(job);
                    },
                    Some(outcome) => {
                        let ghost before = outcomes_view(self.outcomes@);
                        self.outcomes.push(outcome);
                        assert(outcomes_view(self.outcomes@) =~= before.push(job.outcome()));
                        if self.outcomes.len() > self.registry.config.templates.len() {
                            return ;
                        }
                        self.settle();
                    },
                }
            },
        }
    }
}

impl TemplateManager {
    /// Prepares the download of every registered template with the retry
    /// policy given. The batch works on the registry as it is now, and begins
    /// with the first template.
    pub fn download_all_templates_with(&self, force: bool, policy: RetryPolicy) -> (r:
        BatchDownload)
        ensures
            r.well_formed(),
            r.registry.config@ == self.config@,
            r.registry.cache_root() == self.cache_root(),
            r.force == force,
            r.policy == policy,
            r.outcomes@.len() == 0,
            r.current matches Some(job) ==> r.begins(job, 0),
    {
        let mut batch = BatchDownload {
            registry: self.clone(),
            force,
            policy,
            current: None,
            outcomes: Vec::new(),
        };
        batch.settle();
        batch
    }

    /// Prepares the download of every registered template, with three tries
    /// for each removal and half a second between them.
    pub fn download_all_templates(&self, force: bool) -> (r: BatchDownload)
        ensures
            r.well_formed(),
            r.registry.config@ == self.config@,
            r.registry.cache_root() == self.cache_root(),
            r.force == force,
            r.policy == (RetryPolicy { attempts: 3, backoff_ms: 500 }),
            r.outcomes@.len() == 0,
            r.current matches Some(job) ==> r.begins(job, 0),
    {
        self.download_all_templates_with(force, RetryPolicy::standard())
    }
}

} // verus!
