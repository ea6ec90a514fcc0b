//! The scheduler: which job may start, and when the batch is over.
//!
//! The scheduler holds as many permits as there are workers. A job takes one
//! when it starts and gives it back when it ends, however it ends. No job
//! starts before the destination directory has been prepared.

use vstd::prelude::*;

verus! {

/// Where a run stands.
#[derive(Clone, Copy, Debug, PartialEq, Eq, Structural)]
pub enum RunPhase {
    /// The destination directory is not ready yet.
    Preparing,
    /// Jobs are started as permits allow.
    Dispatching,
    /// Every job has ended.
    Finished,
    /// The destination could not be prepared; no job was started.
    Aborted,
}

/// What happened since the scheduler was last asked.
#[derive(Clone, Copy, Debug, PartialEq, Eq, Structural)]
pub enum RunEvent {
    /// Nothing; the scheduler is asked what to do.
    Wake,
    /// The destination directory and the progress display are ready.
    Prepared,
    /// The destination directory or the progress display could not be set
    /// up.
    PreparationFailed,
    /// A job that had been started has ended.
    JobFinished { succeeded: bool },
}

/// What the driver of a run has to do next.
#[derive(Clone, Copy, Debug, PartialEq, Eq, Structural)]
pub enum RunAction {
    /// Remove the destination directory if `remove_existing` is set, failing
    /// on nothing, then create it; answer with [`RunEvent::Prepared`] or
    /// [`RunEvent::PreparationFailed`].
    Prepare { remove_existing: bool },
    /// Start the job for the URL at `index`, then ask again with
    /// [`RunEvent::Wake`].
    Start { index: usize },
    /// Wait until a job ends; answer with [`RunEvent::JobFinished`].
    Wait,
    /// Nothing: every job has ended.
    Finish,
    /// Nothing: the run ended before any job was started.
    Abort,
}

/// The mathematical value of a [`Schedule`].
pub ghost struct ScheduleView {
    /// Where the run stands.
    pub phase: RunPhase,
    /// The number of jobs of the batch.
    pub total: nat,
    /// The number of permits.
    pub workers: nat,
    /// Whether the destination directory is removed before it is created.
    pub clean: bool,
    /// The number of jobs that have been started.
    pub started: nat,
    /// The number of jobs that hold a permit.
    pub active: nat,
    /// The number of jobs that ended well.
    pub succeeded: nat,
    /// The number of jobs that failed.
    pub failed: nat,
}

/// A schedule and an action: what one step of a run leads to.
pub ghost struct RunStep {
    pub schedule: ScheduleView,
    pub action: RunAction,
}

impl ScheduleView {
    /// The schedule of a batch of `total` jobs for `workers` workers, before
    /// anything has happened.
    pub open spec fn initial(total: nat, workers: nat, clean: bool) -> ScheduleView {
        ScheduleView {
            phase: RunPhase::Preparing,
            total,
            workers,
            clean,
            started: 0,
            active: 0,
            succeeded: 0,
            failed: 0,
        }
    }

    /// What holds of every schedule: no more jobs hold a permit than there
    /// are permits, every started job is active or has ended, and no job has
    /// been started while the run prepares or after it was aborted.
    pub open spec fn well_formed(self) -> bool {
        &&& self.active <= self.workers
        &&& self.started <= self.total
        &&& self.succeeded + self.failed + self.active == self.started
        &&& self.phase == RunPhase::Preparing || self.phase == RunPhase::Aborted ==> self.started
            == 0
        &&& self.phase == RunPhase::Finished ==> self.started == self.total && self.active == 0
    }

    /// Whether a job can start: one is left and a permit is free.
    pub open spec fn can_start(self) -> bool {
        self.started < self.total && self.active < self.workers
    }

    /// The step of a run that dispatches: start the next job if one can
    /// start, else wait while jobs are active, else finish when none is left.
    /// With no permit at all and jobs left, the run waits.
    pub open spec fn dispatch(self) -> RunStep {
        if self.can_start() {
            RunStep {
                schedule: ScheduleView {
                    started: self.started + 1,
                    active: self.active + 1,
                    ..self
                },
                action: RunAction::Start { index: self.started as usize },
            }
        } else if self.active == 0 && self.started == self.total {
            RunStep {
                schedule: ScheduleView { phase: RunPhase::Finished, ..self },
                action: RunAction::Finish,
            }
        } else {
            RunStep { schedule: self, action: RunAction::Wait }
        }
    }

    /// The schedule after a job has ended: its permit is free again.
    pub open spec fn released(self, succeeded: bool) -> ScheduleView {
        if self.active == 0 {
            self
        } else if succeeded {
            ScheduleView {
                active: (self.active - 1) as nat,
                succeeded: self.succeeded + 1,
                ..self
            }
        } else {
            ScheduleView { active: (self.active - 1) as nat, failed: self.failed + 1, ..self }
        }
    }

    /// What one step of a run leads to.
    pub open spec fn step(self, event: RunEvent) -> RunStep {
        match self.phase {
            RunPhase::Preparing => match event {
                RunEvent::Prepared => ScheduleView {
                    phase: RunPhase::Dispatching,
                    ..self
                }.dispatch(),
                RunEvent::PreparationFailed => RunStep {
                    schedule: ScheduleView { phase: RunPhase::Aborted, ..self },
                    action: RunAction::Abort,
                },
                _ => RunStep {
                    schedule: self,
                    action: RunAction::Prepare { remove_existing: self.clean },
                },
            },
            RunPhase::Dispatching => match event {
                RunEvent::JobFinished { succeeded } => self.released(succeeded).dispatch(),
                _ => self.dispatch(),
            },
            RunPhase::Finished => RunStep { schedule: self, action: RunAction::Finish },
            RunPhase::Aborted => RunStep { schedule: self, action: RunAction::Abort },
        }
    }
}

/// The state of a run: how many jobs have started, are active and have
/// ended.
#[derive(Clone, Copy, Debug)]
pub struct Schedule {
    phase: RunPhase,
    total: usize,
    workers: usize,
    clean: bool,
    started: usize,
    active: usize,
    succeeded: usize,
    failed: usize,
}

impl View for Schedule {
    type V = ScheduleView;

    closed spec fn view(&self) -> ScheduleView {
        ScheduleView {
            phase: self.phase,
            total: self.total as nat,
            workers: self.workers as nat,
            clean: self.clean,
            started: self.started as nat,
            active: self.active as nat,
            succeeded: self.succeeded as nat,
            failed: self.failed as nat,
        }
    }
}

impl Schedule {
    /// Every schedule is well formed.
    #[verifier::type_invariant]
    pub open spec fn holds(&self) -> bool {
        self@.well_formed()
    }

    /// The schedule of a batch of `total` jobs for `workers` workers.
    pub fn new(total: usize, workers: usize, clean: bool) -> (out: Schedule)
        ensures
            out@ == ScheduleView::initial(total as nat, workers as nat, clean),
            out@.well_formed(),
    {
        Schedule {
            phase: RunPhase::Preparing,
            total,
            workers,
            clean,
            started: 0,
            active: 0,
            succeeded: 0,
            failed: 0,
        }
    }

    /// Where the run stands.
    pub fn phase(&self) -> (out: RunPhase)
        ensures
            out == self@.phase,
    {
        self.phase
    }

    /// The number of jobs of the batch.
    pub fn total(&self) -> (out: usize)
        ensures
            out == self@.total,
    {
        self.total
    }

    /// The number of permits.
    pub fn workers(&self) -> (out: usize)
        ensures
            out == self@.workers,
    {
        self.workers
    }

    /// The number of jobs that have been started; never more than there are
    /// jobs.
    pub fn started(&self) -> (out: usize)
        ensures
            out == self@.started,
            out <= self@.total,
    {
        proof {
            use_type_invariant(self);
        }
        self.started
    }

    /// The number of jobs that hold a permit; never more than there are
    /// permits.
    pub fn active(&self) -> (out: usize)
        ensures
            out == self@.active,
            out <= self@.workers,
            self@.well_formed(),
    {
        proof {
            use_type_invariant(self);
        }
        self.active
    }

    /// The number of jobs that ended well.
    pub fn succeeded(&self) -> (out: usize)
        ensures
            out == self@.succeeded,
    {
        self.succeeded
    }

    /// The number of jobs that failed.
    pub fn failed(&self) -> (out: usize)
        ensures
            out == self@.failed,
    {
        self.failed
    }

    /// Whether the run has ended, finished or aborted.
    pub fn is_over(&self) -> (out: bool)
        ensures
            out == (self@.phase == RunPhase::Finished || self@.phase == RunPhase::Aborted),
    {
        match self.phase {
            RunPhase::Finished | RunPhase::Aborted => true,
            _ => false,
        }
    }

    fn dispatch(&mut self) -> (action: RunAction)
        requires
            old(self)@.phase == RunPhase::Dispatching,
        ensures
            final(self)@ == old(self)@.dispatch().schedule,
            action == old(self)@.dispatch().action,
    {
        proof {
            use_type_invariant(&*self);
        }
        if self.started < self.total && self.active < self.workers {
            let index = self.started;
            *self = Schedule { started: self.started + 1, active: self.active + 1, ..*self };
            RunAction::Start { index }
        } else if self.active == 0 && self.started == self.total {
            self.phase = RunPhase::Finished;
            RunAction::Finish
        } else {
            RunAction::Wait
        }
    }

    /// Takes one step of the run: changes the schedule as `event` asks and
    /// returns the action to perform next.
    pub fn step(&mut self, event: RunEvent) -> (action: RunAction)
        ensures
            final(self)@ == old(self)@.step(event).schedule,
            action == old(self)@.step(event).action,
            final(self)@.well_formed(),
    {
        proof {
            use_type_invariant(&*self);
        }
        match self.phase {
            RunPhase::Preparing => match event {
                RunEvent::Prepared => {
                    self.phase = RunPhase::Dispatching;
                    self.dispatch()
                },
                RunEvent::PreparationFailed => {
                    self.phase = RunPhase::Aborted;
                    RunAction::Abort
                },
                _ => RunAction::Prepare { remove_existing: self.clean },
            },
            RunPhase::Dispatching => {
                match event {
                    RunEvent::JobFinished { succeeded } => {
                        if self.active > 0 {
                            let active = self.active - 1;
                            if succeeded {
                                *self = Schedule { active, succeeded: self.succeeded + 1, ..*self };
                            } else {
                                *self = Schedule { active, failed: self.failed + 1, ..*self };
                            }
                        }
                    },
                    _ => {},
                }
                self.dispatch()
            },
            RunPhase::Finished => RunAction::Finish,
            RunPhase::Aborted => RunAction::Abort,
        }
    }
}

} // verus!
