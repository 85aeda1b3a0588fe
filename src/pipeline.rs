//! The orchestration of one benchmark run as a state machine.
//!
//! A run moves strictly through initialize, allocate, two input writes, bind,
//! execute, read and check. [`Pipeline::start`] and [`Pipeline::advance`] hand
//! the driver the next [`Action`]; the driver performs it on the accelerator
//! and reports the outcome as an [`Event`] stamped with a monotonic clock
//! reading in nanoseconds. Any failure ends the run at once.

use crate::scenario::{GridShape, KernelArg, Scenario, BUFFER_COUNT, OUTPUT_SLOT};
use crate::timing::PhaseTimings;
use vstd::prelude::*;

verus! {

/// Why a run ended without a result.
#[derive(Clone, Copy, Debug, PartialEq, Eq, Structural)]
pub enum PipelineError {
    /// No device, or the program did not compile.
    SetupFailure,
    /// Device memory could not be allocated.
    AllocationFailure,
    /// A host-device copy failed or moved the wrong number of elements.
    TransferFailure,
    /// The arguments or the grid do not fit the entry point and its buffers.
    BindingFailure,
    /// The device reported a fault while running the kernel.
    ExecutionFailure,
    /// The output differs from the expected values.
    VerificationFailure,
}

impl PipelineError {
    /// Whether the error shows a wrong result rather than an infrastructure fault.
    pub fn is_wrong_result(&self) -> (r: bool)
        ensures
            r == (*self == PipelineError::VerificationFailure),
    {
        match *self {
            PipelineError::VerificationFailure => true,
            _ => false,
        }
    }
}

/// Where a run stands: the step whose outcome it waits for, or how it ended.
#[derive(Clone, Copy, Debug, PartialEq, Eq, Structural)]
pub enum Stage {
    Initialize,
    Allocate,
    WriteFirst,
    WriteSecond,
    Bind,
    Execute,
    Read,
    Check,
    Finished,
    Aborted(PipelineError),
}

/// What the driver reports after performing an action.
#[derive(Debug)]
pub enum Event {
    /// The action succeeded.
    Completed { at: u64 },
    /// The action failed.
    Failed { at: u64 },
    /// The output buffer was read back.
    OutputRead { at: u64, data: Vec<u32> },
    /// The output was compared with the host reference within tolerance.
    Checked { at: u64, within_tolerance: bool },
}

/// What the driver does next.
#[derive(Debug)]
pub enum Action {
    /// Open a device and queue, and build `source` for a dispatch over `grid`.
    Initialize { source: String, entry_point: String, grid: GridShape },
    /// Allocate `buffers` device buffers of `count` single-precision elements.
    Allocate { count: usize, buffers: usize },
    /// Copy `data` into the buffer at `slot` and wait for the copy.
    Write { slot: usize, data: Vec<u32> },
    /// Bind `args` to `entry_point`.
    Bind { entry_point: String, args: Vec<KernelArg> },
    /// Dispatch the kernel over the whole grid and wait for completion.
    Execute,
    /// Copy `count` elements of the buffer at `slot` back to the host.
    Read { slot: usize, count: usize },
    /// Compare `output` with the host triple-loop product of the inputs,
    /// element by element, within an absolute tolerance of 1e-3.
    CheckTolerance { output: Vec<u32> },
    /// The run succeeded; these are its timings.
    Report(PhaseTimings),
    /// The run failed.
    Abort(PipelineError),
}

pub open spec fn event_time(e: Event) -> u64 {
    match e {
        Event::Completed { at } => at,
        Event::Failed { at } => at,
        Event::OutputRead { at, .. } => at,
        Event::Checked { at, .. } => at,
    }
}

/// The error with which a failure of the step at `stage` ends a run.
pub open spec fn failure_of(stage: Stage) -> PipelineError {
    match stage {
        Stage::Initialize => PipelineError::SetupFailure,
        Stage::Allocate => PipelineError::AllocationFailure,
        Stage::Bind => PipelineError::BindingFailure,
        Stage::Execute => PipelineError::ExecutionFailure,
        Stage::Check => PipelineError::VerificationFailure,
        _ => PipelineError::TransferFailure,
    }
}

/// The state of one run.
#[derive(Clone, Copy, Debug)]
pub struct Pipeline {
    pub scenario: Scenario,
    /// The grid that the kernel is dispatched over.
    pub grid: GridShape,
    pub stage: Stage,
    /// Clock reading at the start of the run.
    pub origin: u64,
    /// Latest clock reading seen; readings that go backwards are raised to it.
    pub last: u64,
    /// Clock reading at which the current timed phase began.
    pub phase_start: u64,
    pub timings: PhaseTimings,
}

impl Pipeline {
    /// The grid runs exactly one index per element of each buffer.
    pub open spec fn grid_fits(self) -> bool {
        self.grid.index_count() == self.scenario.spec_element_count()
    }

    pub open spec fn wf(self) -> bool {
        &&& self.scenario.wf()
        &&& self.origin <= self.phase_start <= self.last
        &&& self.timings.phase_sum() <= self.phase_start - self.origin
        &&& (self.stage is Finished ==> self.timings.total >= self.timings.phase_sum())
        &&& (self.stage is Bind || self.stage is Execute || self.stage is Read || self.stage is Check
            || self.stage is Finished) ==> self.grid_fits()
        &&& (self.stage is Check ==> self.scenario is MatrixMultiply)
    }

    /// The state in which a run begins.
    pub open spec fn initial(scenario: Scenario, grid: GridShape, at: u64) -> Pipeline {
        Pipeline {
            scenario,
            grid,
            stage: Stage::Initialize,
            origin: at,
            last: at,
            phase_start: at,
            timings: PhaseTimings { setup: 0, write: 0, kernel_build: 0, execute: 0, read: 0, total: 0 },
        }
    }

    /// Whether the state waits for no more events.
    pub open spec fn is_done(self) -> bool {
        self.stage is Finished || self.stage is Aborted
    }

    /// The clock reading of `e`, raised to the latest one seen.
    pub open spec fn now(self, e: Event) -> u64 {
        if event_time(e) < self.last {
            self.last
        } else {
            event_time(e)
        }
    }

    /// Whether `e` is the kind of outcome that the current step succeeds with.
    pub open spec fn succeeds_with(self, e: Event) -> bool {
        match self.stage {
            Stage::Read => e is OutputRead,
            Stage::Check => e is Checked,
            _ => e is Completed,
        }
    }

    /// Move to `stage` at clock reading `now`, starting a new phase there.
    pub open spec fn moved(self, stage: Stage, now: u64, timings: PhaseTimings) -> Pipeline {
        Pipeline { stage, last: now, phase_start: now, timings, ..self }
    }

    pub open spec fn aborted(self, err: PipelineError, now: u64) -> Pipeline {
        Pipeline { stage: Stage::Aborted(err), last: now, ..self }
    }

    /// Duration of the current phase when it ends at `now`.
    pub open spec fn elapsed(self, now: u64) -> u64 {
        (now - self.phase_start) as u64
    }

    /// The state after the outcome `e` of the current step.
    pub open spec fn next(self, e: Event) -> Pipeline {
        let now = self.now(e);
        let t = self.timings;
        if self.is_done() {
            self
        } else if !self.succeeds_with(e) {
            self.aborted(failure_of(self.stage), now)
        } else {
            match self.stage {
                Stage::Initialize => self.moved(
                    Stage::Allocate,
                    now,
                    PhaseTimings { setup: self.elapsed(now), ..t },
                ),
                Stage::Allocate => self.moved(Stage::WriteFirst, now, t),
                // The write phase spans both input transfers.
                Stage::WriteFirst => Pipeline { stage: Stage::WriteSecond, last: now, ..self },
                Stage::WriteSecond => if self.grid_fits() {
                    self.moved(Stage::Bind, now, PhaseTimings { write: self.elapsed(now), ..t })
                } else {
                    self.aborted(PipelineError::BindingFailure, now)
                },
                Stage::Bind => self.moved(
                    Stage::Execute,
                    now,
                    PhaseTimings { kernel_build: self.elapsed(now), ..t },
                ),
                Stage::Execute => self.moved(
                    Stage::Read,
                    now,
                    PhaseTimings { execute: self.elapsed(now), ..t },
                ),
                Stage::Read => {
                    let data = e->OutputRead_data@;
                    let t2 = PhaseTimings { read: self.elapsed(now), ..t };
                    if data.len() != self.scenario.spec_element_count() {
                        self.aborted(PipelineError::TransferFailure, now)
                    } else if self.scenario is MatrixMultiply {
                        self.moved(Stage::Check, now, t2)
                    } else if self.scenario.spec_sums_exact(data) {
                        self.moved(Stage::Finished, now, PhaseTimings { total: (now - self.origin) as u64, ..t2 })
                    } else {
                        self.aborted(PipelineError::VerificationFailure, now)
                    }
                },
                _ => {
                    // The check of a matrix product.
                    if e->Checked_within_tolerance {
                        self.moved(Stage::Finished, now, PhaseTimings { total: (now - self.origin) as u64, ..t })
                    } else {
                        self.aborted(PipelineError::VerificationFailure, now)
                    }
                },
            }
        }
    }

    /// Whether `a` is the action that the state hands out, `e` being the event
    /// that led to it.
    pub open spec fn announces(self, e: Event, a: Action) -> bool {
        match self.stage {
            Stage::Initialize => a is Initialize && a->Initialize_source@ == self.scenario.spec_kernel_source()
                && a->Initialize_entry_point@ == self.scenario.spec_entry_point() && a->Initialize_grid
                == self.grid,
            Stage::Allocate => a == Action::Allocate {
                count: self.scenario.spec_element_count() as usize,
                buffers: BUFFER_COUNT,
            },
            Stage::WriteFirst => a is Write && a->Write_slot == 0 && a->Write_data@ == self.scenario.spec_input(0),
            Stage::WriteSecond => a is Write && a->Write_slot == 1 && a->Write_data@ == self.scenario.spec_input(1),
            Stage::Bind => a is Bind && a->Bind_entry_point@ == self.scenario.spec_entry_point() && a->Bind_args@
                == self.scenario.spec_arguments(),
            Stage::Execute => a is Execute,
            Stage::Read => a == Action::Read {
                slot: OUTPUT_SLOT,
                count: self.scenario.spec_element_count() as usize,
            },
            Stage::Check => a is CheckTolerance && e is OutputRead && a->CheckTolerance_output@
                == e->OutputRead_data@,
            Stage::Finished => a == Action::Report(self.timings),
            Stage::Aborted(err) => a == Action::Abort(err),
        }
    }

    /// The state after the outcomes `events`, in order.
    pub open spec fn run(self, events: Seq<Event>) -> Pipeline
        decreases events.len(),
    {
        if events.len() == 0 {
            self
        } else {
            self.next(events[0]).run(events.drop_first())
        }
    }

    /// The next state keeps the invariant.
    pub proof fn lemma_next_wf(self, e: Event)
        requires
            self.wf(),
        ensures
            self.next(e).wf(),
    {
    }

    /// Begins a run of `scenario` with its kernel dispatched over `grid`, at clock
    /// reading `at`. The first action builds the scenario's program.
    pub fn start(scenario: Scenario, grid: GridShape, at: u64) -> (r: (Pipeline, Action))
        requires
            scenario.wf(),
        ensures
            r.0 == Pipeline::initial(scenario, grid, at),
            r.0.wf(),
            r.0.announces(Event::Completed { at }, r.1),
    {
        let p = Pipeline {
            scenario,
            grid,
            stage: Stage::Initialize,
            origin: at,
            last: at,
            phase_start: at,
            timings: PhaseTimings::zero(),
        };
        let a = Action::Initialize {
            source: scenario.kernel_source(),
            entry_point: scenario.entry_point(),
            grid,
        };
        (p, a)
    }

    fn abort(&mut self, err: PipelineError, now: u64) -> (a: Action)
        ensures
            *final(self) == old(self).aborted(err, now),
            a == Action::Abort(err),
    {
        self.stage = Stage::Aborted(err);
        self.last = now;
        Action::Abort(err)
    }

    fn move_to(&mut self, stage: Stage, now: u64, timings: PhaseTimings)
        ensures
            *final(self) == old(self).moved(stage, now, timings),
    {
        self.stage = stage;
        self.last = now;
        self.phase_start = now;
        self.timings = timings;
    }

    /// Takes the outcome `e` of the current step and returns the next action.
    /// A finished or aborted run ignores further events and repeats its last action.
    pub fn advance(&mut self, e: Event) -> (a: Action)
        requires
            old(self).wf(),
        ensures
            *final(self) == old(self).next(e),
            final(self).wf(),
            final(self).announces(e, a),
    {
        proof {
            self.lemma_next_wf(e);
        }
        let at = match &e {
            Event::Completed { at } => *at,
            Event::Failed { at } => *at,
            Event::OutputRead { at, .. } => *at,
            Event::Checked { at, .. } => *at,
        };
        let now = if at < self.last {
            self.last
        } else {
            at
        };
        let t = self.timings;
        let elapsed = now - self.phase_start;
        match self.stage {
            Stage::Finished => Action::Report(self.timings),
            Stage::Aborted(err) => Action::Abort(err),
            Stage::Initialize => {
                if let Event::Completed { .. } = e {
                    self.move_to(Stage::Allocate, now, PhaseTimings { setup: elapsed, ..t });
                    Action::Allocate { count: self.scenario.element_count(), buffers: BUFFER_COUNT }
                } else {
                    self.abort(PipelineError::SetupFailure, now)
                }
            },
            Stage::Allocate => {
                if let Event::Completed { .. } = e {
                    self.move_to(Stage::WriteFirst, now, t);
                    Action::Write { slot: 0, data: self.scenario.input(0) }
                } else {
                    self.abort(PipelineError::AllocationFailure, now)
                }
            },
            Stage::WriteFirst => {
                if let Event::Completed { .. } = e {
                    self.stage = Stage::WriteSecond;
                    self.last = now;
                    Action::Write { slot: 1, data: self.scenario.input(1) }
                } else {
                    self.abort(PipelineError::TransferFailure, now)
                }
            },
            Stage::WriteSecond => {
                if let Event::Completed { .. } = e {
                    let count = self.scenario.element_count();
                    if self.grid.covers_exactly(count) {
                        self.move_to(Stage::Bind, now, PhaseTimings { write: elapsed, ..t });
                        Action::Bind { entry_point: self.scenario.entry_point(), args: self.scenario.arguments() }
                    } else {
                        self.abort(PipelineError::BindingFailure, now)
                    }
                } else {
                    self.abort(PipelineError::TransferFailure, now)
                }
            },
            Stage::Bind => {
                if let Event::Completed { .. } = e {
                    self.move_to(Stage::Execute, now, PhaseTimings { kernel_build: elapsed, ..t });
                    Action::Execute
                } else {
                    self.abort(PipelineError::BindingFailure, now)
                }
            },
            Stage::Execute => {
                if let Event::Completed { .. } = e {
                    self.move_to(Stage::Read, now, PhaseTimings { execute: elapsed, ..t });
                    Action::Read { slot: OUTPUT_SLOT, count: self.scenario.element_count() }
                } else {
                    self.abort(PipelineError::ExecutionFailure, now)
                }
            },
            Stage::Read => {
                if let Event::OutputRead { data, .. } = e {
                    let t2 = PhaseTimings { read: elapsed, ..t };
                    if data.len() != self.scenario.element_count() {
                        self.abort(PipelineError::TransferFailure, now)
                    } else if let Scenario::MatrixMultiply { .. } = self.scenario {
                        self.move_to(Stage::Check, now, t2);
                        Action::CheckTolerance { output: data }
                    } else if self.scenario.sums_exact(&data) {
                        let done = PhaseTimings { total: now - self.origin, ..t2 };
                        self.move_to(Stage::Finished, now, done);
                        Action::Report(done)
                    } else {
                        self.abort(PipelineError::VerificationFailure, now)
                    }
                } else {
                    self.abort(PipelineError::TransferFailure, now)
                }
            },
            Stage::Check => {
                if let Event::Checked { within_tolerance, .. } = e {
                    if within_tolerance {
                        let done = PhaseTimings { total: now - self.origin, ..t };
                        self.move_to(Stage::Finished, now, done);
                        Action::Report(done)
                    } else {
                        self.abort(PipelineError::VerificationFailure, now)
                    }
                } else {
                    self.abort(PipelineError::VerificationFailure, now)
                }
            },
        }
    }
}

/// Two events that report the same outcome: same kind, clock reading, data and
/// verdict.
pub open spec fn same_outcome(e1: Event, e2: Event) -> bool {
    match (e1, e2) {
        (Event::Completed { at: a1 }, Event::Completed { at: a2 }) => a1 == a2,
        (Event::Failed { at: a1 }, Event::Failed { at: a2 }) => a1 == a2,
        (Event::OutputRead { at: a1, data: d1 }, Event::OutputRead { at: a2, data: d2 }) => a1 == a2 && d1@
            == d2@,
        (Event::Checked { at: a1, within_tolerance: w1 }, Event::Checked { at: a2, within_tolerance: w2 }) => a1
            == a2 && w1 == w2,
        _ => false,
    }
}

/// Every state that a run reaches from a well-formed state is well-formed.
pub proof fn lemma_run_wf(p: Pipeline, events: Seq<Event>)
    requires
        p.wf(),
    ensures
        p.run(events).wf(),
    decreases events.len(),
{
    if events.len() > 0 {
        p.lemma_next_wf(events[0]);
        lemma_run_wf(p.next(events[0]), events.drop_first());
    }
}

/// A run is determined by the outcomes reported to it: the same scenario, grid and
/// start fed the same outcomes ends in the same state, with the same verdict and
/// timings.
pub proof fn lemma_same_outcomes_same_run(p: Pipeline, events1: Seq<Event>, events2: Seq<Event>)
    requires
        events1.len() == events2.len(),
        forall|i: int| 0 <= i < events1.len() ==> same_outcome(#[trigger] events1[i], events2[i]),
    ensures
        p.run(events1) == p.run(events2),
    decreases events1.len(),
{
    if events1.len() > 0 {
        assert(same_outcome(events1[0], events2[0]));
        assert(p.next(events1[0]) == p.next(events2[0]));
        let rest1 = events1.drop_first();
        let rest2 = events2.drop_first();
        assert forall|i: int| 0 <= i < rest1.len() implies same_outcome(#[trigger] rest1[i], rest2[i]) by {
            assert(rest1[i] == events1[i + 1]);
            assert(rest2[i] == events2[i + 1]);
        }
        lemma_same_outcomes_same_run(p.next(events1[0]), rest1, rest2);
    }
}

/// A grid that does not run exactly one index per buffer element never gets the
/// kernel dispatched and never yields a result: whatever the device reports, the
/// run stays before execution or ends in an error.
pub proof fn lemma_mismatched_grid_never_succeeds(p: Pipeline, events: Seq<Event>)
    requires
        p.wf(),
        !p.grid_fits(),
    ensures
        !(p.run(events).stage is Finished),
        !(p.run(events).stage is Execute),
        !(p.run(events).stage is Read),
    decreases events.len(),
{
    if events.len() > 0 {
        p.lemma_next_wf(events[0]);
        lemma_mismatched_grid_never_succeeds(p.next(events[0]), events.drop_first());
    }
}

/// When the grid fits the buffers, the second input write completing moves the
/// run on to binding; when it does not, the run ends with a binding failure.
pub proof fn lemma_grid_checked_before_binding(p: Pipeline, at: u64)
    requires
        p.wf(),
        p.stage is WriteSecond,
    ensures
        p.grid_fits() ==> p.next(Event::Completed { at }).stage is Bind,
        !p.grid_fits() ==> p.next(Event::Completed { at }).stage == Stage::Aborted(PipelineError::BindingFailure),
{
}

/// A successful run has recorded every phase, and its total is at least the sum
/// of the phases: they are disjoint stretches of the run.
pub proof fn lemma_finished_timings_complete(scenario: Scenario, grid: GridShape, at: u64, events: Seq<Event>)
    requires
        scenario.wf(),
    ensures
        Pipeline::initial(scenario, grid, at).run(events).stage is Finished ==> Pipeline::initial(
            scenario,
            grid,
            at,
        ).run(events).timings.total >= Pipeline::initial(scenario, grid, at).run(events).timings.phase_sum(),
{
    lemma_run_wf(Pipeline::initial(scenario, grid, at), events);
}

/// Once a run has finished or failed, further events change nothing.
pub proof fn lemma_done_is_final(p: Pipeline, events: Seq<Event>)
    requires
        p.is_done(),
    ensures
        p.run(events) == p,
    decreases events.len(),
{
    if events.len() > 0 {
        lemma_done_is_final(p.next(events[0]), events.drop_first());
    }
}

} // verus!
