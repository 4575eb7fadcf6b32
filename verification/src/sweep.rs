//! The sweep over the frequencies of an analysis.
//!
//! Each frequency is a problem of its own: the matrices are assembled, the
//! system is solved, the solution is projected onto the field points, and
//! the result is recorded. The sweep decides what is to be done next and
//! keeps the records; the numerical work is done by its caller, who reports
//! each outcome as an event.

use crate::error::{ConfigurationError, NumericalToleranceWarning};
use crate::error::{SingularSystemError, SolveError};
use crate::scalar::{Cplx, Real};
use vstd::prelude::*;

verus! {

/// Where a sweep stands.
#[derive(Clone, Copy, Debug, PartialEq, Eq, Structural)]
pub enum SweepStage {
    Idle,
    Assembling,
    Solving,
    Projecting,
    Recorded,
    Done,
}

impl SweepStage {
    /// A frequency is being worked on.
    pub open spec fn working(self) -> bool {
        self == SweepStage::Assembling || self == SweepStage::Solving || self
            == SweepStage::Projecting
    }
}

/// What a sweep does after a singular system at one frequency.
#[derive(Clone, Copy, Debug, PartialEq, Eq, Structural)]
pub enum FailurePolicy {
    /// Leave the frequency out and go on with the next.
    Skip,
    /// End the sweep.
    Stop,
}

/// The result at one frequency: the potential at the field points, the
/// incident potential there, and the radiated power.
#[derive(Clone, Debug)]
pub struct FPResult {
    pub frequency: Real,
    pub phi_fp: Vec<Cplx>,
    pub phi_inc_fp: Vec<Cplx>,
    pub radiated_power: Real,
}

/// What an `FPResult` stands for.
pub struct FieldRecord {
    pub frequency: Real,
    pub phi_fp: Seq<Cplx>,
    pub phi_inc_fp: Seq<Cplx>,
    pub radiated_power: Real,
}

impl View for FPResult {
    type V = FieldRecord;

    open spec fn view(&self) -> FieldRecord {
        FieldRecord {
            frequency: self.frequency,
            phi_fp: self.phi_fp@,
            phi_inc_fp: self.phi_inc_fp@,
            radiated_power: self.radiated_power,
        }
    }
}

/// A frequency that gave no result, by its place in the input, and why.
#[derive(Clone, Copy, Debug, PartialEq, Eq, Structural)]
pub struct Failure {
    pub index: usize,
    pub error: SolveError,
}

/// A notice on one frequency, by its place in the input.
#[derive(Clone, Copy, Debug, PartialEq, Eq, Structural)]
pub struct Notice {
    pub index: usize,
    pub warning: NumericalToleranceWarning,
}

/// What the caller reports to the sweep.
#[derive(Debug)]
pub enum SweepEvent {
    /// Go on to the next frequency.
    Continue,
    /// End the sweep here.
    Cancel,
    /// The matrices stand. The quadrature of `unconverged` near-singular
    /// pairs did not reach its tolerance.
    Assembled { unconverged: usize },
    /// The system is solved.
    Solved,
    /// The solution is projected onto the field points.
    Projected { phi_fp: Vec<Cplx>, phi_inc_fp: Vec<Cplx>, radiated_power: Real },
    /// The factorisation met a pivot below its threshold.
    Singular,
    /// The work met a fault in the configuration.
    Misconfigured(ConfigurationError),
}

/// What the sweep asks of its caller.
#[derive(Clone, Copy, Debug, PartialEq, Eq, Structural)]
pub enum SweepAction {
    /// Nothing is being worked on: say `Continue` or `Cancel`.
    Proceed,
    /// Assemble the matrices and the incident field at this frequency.
    Assemble { index: usize, frequency: Real },
    /// Build and solve the linear system.
    Solve { index: usize, frequency: Real },
    /// Project the solution onto the field points.
    Project { index: usize, frequency: Real },
    /// The sweep has ended.
    Finish,
}

/// The state of a sweep.
pub struct SweepModel {
    pub frequencies: Seq<Real>,
    pub field_points: nat,
    pub policy: FailurePolicy,
    pub stage: SweepStage,
    /// How many frequencies are done with, recorded or failed.
    pub finished: nat,
    /// The sweep ended by a cancellation or a failure.
    pub halted: bool,
    pub results: Seq<FieldRecord>,
    /// For each result, the place of its frequency in the input.
    pub recorded: Seq<usize>,
    pub failures: Seq<Failure>,
    pub notices: Seq<Notice>,
}

impl SweepModel {
    /// A sweep that has not begun.
    pub open spec fn initial(
        frequencies: Seq<Real>,
        field_points: nat,
        policy: FailurePolicy,
    ) -> SweepModel {
        SweepModel {
            frequencies,
            field_points,
            policy,
            stage: SweepStage::Idle,
            finished: 0,
            halted: false,
            results: Seq::empty(),
            recorded: Seq::empty(),
            failures: Seq::empty(),
            notices: Seq::empty(),
        }
    }

    /// What every state of a sweep satisfies.
    pub open spec fn wf(self) -> bool {
        &&& self.frequencies.len() <= usize::MAX
        &&& self.finished <= self.frequencies.len()
        &&& self.stage.working() ==> self.finished < self.frequencies.len()
        &&& self.stage == SweepStage::Idle ==> self.finished == 0 && self.notices.len() == 0
        &&& self.stage == SweepStage::Done ==> self.halted || self.finished
            == self.frequencies.len()
        &&& self.halted ==> self.stage == SweepStage::Done
        &&& self.results.len() == self.recorded.len()
        &&& self.results.len() + self.failures.len() == self.finished
        &&& forall|a: int, b: int|
            0 <= a < b < self.recorded.len() ==> self.recorded[a] < self.recorded[b]
        &&& forall|k: int|
            0 <= k < self.results.len() ==> {
                &&& (#[trigger] self.recorded[k]) < self.finished
                &&& self.results[k].frequency == self.frequencies[self.recorded[k] as int]
                &&& self.results[k].phi_fp.len() == self.field_points
                &&& self.results[k].phi_inc_fp.len() == self.field_points
            }
        &&& self.failures.len() == 0 ==> forall|k: int|
            0 <= k < self.recorded.len() ==> #[trigger] self.recorded[k] == k
        &&& forall|a: int, b: int|
            0 <= a < b < self.failures.len() ==> self.failures[a].index < self.failures[b].index
        &&& forall|k: int|
            0 <= k < self.failures.len() ==> {
                &&& (#[trigger] self.failures[k]).index < self.finished
                &&& match self.failures[k].error {
                    SolveError::SingularSystem(singular) => singular.frequency
                        == self.frequencies[self.failures[k].index as int],
                    SolveError::Configuration(_) => true,
                }
            }
        &&& forall|k: int, m: int|
            0 <= k < self.recorded.len() && 0 <= m < self.failures.len() ==> (
            #[trigger] self.recorded[k]) != (#[trigger] self.failures[m]).index
        &&& forall|k: int|
            0 <= k < self.notices.len() ==> {
                &&& (#[trigger] self.notices[k]).index < self.frequencies.len()
                &&& self.notices[k].warning.frequency
                    == self.frequencies[self.notices[k].index as int]
                &&& self.notices[k].warning.pairs > 0
            }
    }

    /// The frequency that is being worked on.
    pub open spec fn current(self) -> Real {
        self.frequencies[self.finished as int]
    }

    /// On to the next frequency, or to the end where none is left.
    pub open spec fn advance(self) -> SweepModel {
        SweepModel {
            stage: if self.finished < self.frequencies.len() {
                SweepStage::Assembling
            } else {
                SweepStage::Done
            },
            ..self
        }
    }

    /// The sweep ended by its caller.
    pub open spec fn cancel(self) -> SweepModel {
        SweepModel { stage: SweepStage::Done, halted: true, ..self }
    }

    /// The matrices of the current frequency stand.
    pub open spec fn assembled(self, unconverged: usize) -> SweepModel {
        SweepModel {
            stage: SweepStage::Solving,
            notices: if unconverged > 0 {
                self.notices.push(
                    Notice {
                        index: self.finished as usize,
                        warning: NumericalToleranceWarning {
                            frequency: self.current(),
                            pairs: unconverged,
                        },
                    },
                )
            } else {
                self.notices
            },
            ..self
        }
    }

    /// The current frequency recorded with its result.
    pub open spec fn record(
        self,
        phi_fp: Seq<Cplx>,
        phi_inc_fp: Seq<Cplx>,
        radiated_power: Real,
    ) -> SweepModel {
        SweepModel {
            stage: SweepStage::Recorded,
            finished: self.finished + 1,
            results: self.results.push(
                FieldRecord { frequency: self.current(), phi_fp, phi_inc_fp, radiated_power },
            ),
            recorded: self.recorded.push(self.finished as usize),
            ..self
        }
    }

    /// The current frequency given up with `error`. A fatal error ends the
    /// sweep; another one ends it where the policy says so.
    pub open spec fn fail(self, error: SolveError, fatal: bool) -> SweepModel {
        let noted = SweepModel {
            finished: self.finished + 1,
            failures: self.failures.push(Failure { index: self.finished as usize, error }),
            ..self
        };
        if fatal || self.policy == FailurePolicy::Stop {
            noted.cancel()
        } else {
            noted.advance()
        }
    }

    /// The state after `event`. An event that the stage does not wait for
    /// changes nothing.
    pub open spec fn step(self, event: SweepEvent) -> SweepModel {
        match event {
            SweepEvent::Continue => if self.stage == SweepStage::Idle || self.stage
                == SweepStage::Recorded {
                self.advance()
            } else {
                self
            },
            SweepEvent::Cancel => if self.stage == SweepStage::Idle || self.stage
                == SweepStage::Recorded {
                self.cancel()
            } else {
                self
            },
            SweepEvent::Assembled { unconverged } => if self.stage == SweepStage::Assembling {
                self.assembled(unconverged)
            } else {
                self
            },
            SweepEvent::Solved => if self.stage == SweepStage::Solving {
                SweepModel { stage: SweepStage::Projecting, ..self }
            } else {
                self
            },
            SweepEvent::Projected { phi_fp, phi_inc_fp, radiated_power } => if self.stage
                == SweepStage::Projecting {
                if phi_fp@.len() == self.field_points && phi_inc_fp@.len() == self.field_points {
                    self.record(phi_fp@, phi_inc_fp@, radiated_power)
                } else {
                    self.fail(
                        SolveError::Configuration(ConfigurationError::ShapeMismatch),
                        true,
                    )
                }
            } else {
                self
            },
            SweepEvent::Singular => if self.stage.working() {
                self.fail(
                    SolveError::SingularSystem(SingularSystemError { frequency: self.current() }),
                    false,
                )
            } else {
                self
            },
            SweepEvent::Misconfigured(error) => if self.stage.working() {
                self.fail(SolveError::Configuration(error), true)
            } else {
                self
            },
        }
    }

    /// What the sweep waits for in this state.
    pub open spec fn pending(self) -> SweepAction {
        match self.stage {
            SweepStage::Idle | SweepStage::Recorded => SweepAction::Proceed,
            SweepStage::Assembling => SweepAction::Assemble {
                index: self.finished as usize,
                frequency: self.current(),
            },
            SweepStage::Solving => SweepAction::Solve {
                index: self.finished as usize,
                frequency: self.current(),
            },
            SweepStage::Projecting => SweepAction::Project {
                index: self.finished as usize,
                frequency: self.current(),
            },
            SweepStage::Done => SweepAction::Finish,
        }
    }

    /// The sweep went through every frequency and each gave a result.
    pub open spec fn complete(self) -> bool {
        self.stage == SweepStage::Done && !self.halted && self.failures.len() == 0
    }

    /// The state after `events`, taken in their order.
    pub open spec fn run(self, events: Seq<SweepEvent>) -> SweepModel
        decreases events.len(),
    {
        if events.len() == 0 {
            self
        } else {
            self.run(events.drop_last()).step(events.last())
        }
    }
}

/// The four events from place `4 * round` on tell of one frequency worked
/// through without a fault: `Continue`, `Assembled`, `Solved`, and
/// `Projected` with a value for each of `field_points` field points.
pub open spec fn clean_round(events: Seq<SweepEvent>, round: int, field_points: nat) -> bool {
    &&& 0 <= round
    &&& 4 * round + 3 < events.len()
    &&& events[4 * round] is Continue
    &&& events[4 * round + 1] is Assembled
    &&& events[4 * round + 2] is Solved
    &&& match events[4 * round + 3] {
        SweepEvent::Projected { phi_fp, phi_inc_fp, .. } => phi_fp@.len() == field_points
            && phi_inc_fp@.len() == field_points,
        _ => false,
    }
}

/// `events` tells of `rounds` frequencies worked through without a fault, one
/// after the other, and of nothing else.
pub open spec fn clean_rounds(events: Seq<SweepEvent>, rounds: nat, field_points: nat) -> bool {
    &&& events.len() == 4 * rounds
    &&& forall|round: int|
        0 <= round < rounds ==> #[trigger] clean_round(events, round, field_points)
}

/// A sweep over the frequencies of one analysis.
#[derive(Debug)]
pub struct Sweep {
    frequencies: Vec<Real>,
    field_points: usize,
    policy: FailurePolicy,
    stage: SweepStage,
    finished: usize,
    halted: bool,
    results: Vec<FPResult>,
    recorded: Vec<usize>,
    failures: Vec<Failure>,
    notices: Vec<Notice>,
}

impl View for Sweep {
    type V = SweepModel;

    closed spec fn view(&self) -> SweepModel {
        SweepModel {
            frequencies: self.frequencies@,
            field_points: self.field_points as nat,
            policy: self.policy,
            stage: self.stage,
            finished: self.finished as nat,
            halted: self.halted,
            results: self.results@.map_values(|r: FPResult| r@),
            recorded: self.recorded@,
            failures: self.failures@,
            notices: self.notices@,
        }
    }
}

impl Sweep {
    /// A sweep over `frequencies`, in their order, that has not begun. Each
    /// result is to hold `field_points` values.
    pub fn new(frequencies: Vec<Real>, field_points: usize, policy: FailurePolicy) -> (sweep: Sweep)
        ensures
            sweep@ == SweepModel::initial(frequencies@, field_points as nat, policy),
            sweep@.wf(),
    {
        let ghost count = frequencies.len();
        let sweep = Sweep {
            frequencies,
            field_points,
            policy,
            stage: SweepStage::Idle,
            finished: 0,
            halted: false,
            results: Vec::new(),
            recorded: Vec::new(),
            failures: Vec::new(),
            notices: Vec::new(),
        };
        assert(sweep@.results =~= Seq::empty());
        assert(sweep@.frequencies.len() == count);
        sweep
    }

    /// Takes `event` and says what is to be done next.
    pub fn step(&mut self, event: SweepEvent) -> (action: SweepAction)
        requires
            old(self)@.wf(),
        ensures
            final(self)@ == old(self)@.step(event),
            final(self)@.wf(),
            action == final(self)@.pending(),
    {
        proof {
            lemma_step_keeps_wf(self@, event);
        }
        let idle = match self.stage {
            SweepStage::Idle | SweepStage::Recorded => true,
            _ => false,
        };
        let working = match self.stage {
            SweepStage::Assembling | SweepStage::Solving | SweepStage::Projecting => true,
            _ => false,
        };
        match event {
            SweepEvent::Continue => {
                if idle {
                    self.advance();
                }
            },
            SweepEvent::Cancel => {
                if idle {
                    self.stage = SweepStage::Done;
                    self.halted = true;
                }
            },
            SweepEvent::Assembled { unconverged } => {
                if let SweepStage::Assembling = self.stage {
                    if unconverged > 0 {
                        let frequency = self.frequencies[self.finished];
                        self.notices.push(
                            Notice {
                                index: self.finished,
                                warning: NumericalToleranceWarning {
                                    frequency,
                                    pairs: unconverged,
                                },
                            },
                        );
                    }
                    self.stage = SweepStage::Solving;
                }
            },
            SweepEvent::Solved => {
                if let SweepStage::Solving = self.stage {
                    self.stage = SweepStage::Projecting;
                }
            },
            SweepEvent::Projected { phi_fp, phi_inc_fp, radiated_power } => {
                if let SweepStage::Projecting = self.stage {
                    if phi_fp.len() == self.field_points && phi_inc_fp.len() == self.field_points {
                        let ghost before = self.results@;
                        let result = FPResult {
                            frequency: self.frequencies[self.finished],
                            phi_fp,
                            phi_inc_fp,
                            radiated_power,
                        };
                        self.results.push(result);
                        self.recorded.push(self.finished);
                        self.finished = self.finished + 1;
                        self.stage = SweepStage::Recorded;
                        assert(self.results@.map_values(|r: FPResult| r@) =~= before.map_values(
                            |r: FPResult| r@,
                        ).push(result@));
                    } else {
                        self.fail(
                            SolveError::Configuration(ConfigurationError::ShapeMismatch),
                            true,
                        );
                    }
                }
            },
            SweepEvent::Singular => {
                if working {
                    let frequency = self.frequencies[self.finished];
                    self.fail(SolveError::SingularSystem(SingularSystemError { frequency }), false);
                }
            },
            SweepEvent::Misconfigured(error) => {
                if working {
                    self.fail(SolveError::Configuration(error), true);
                }
            },
        }
        assert(self@ =~= old(self)@.step(event));
        self.pending()
    }

    /// What the sweep waits for.
    pub fn pending(&self) -> (action: SweepAction)
        requires
            self@.wf(),
        ensures
            action == self@.pending(),
    {
        match self.stage {
            SweepStage::Idle | SweepStage::Recorded => SweepAction::Proceed,
            SweepStage::Assembling => SweepAction::Assemble {
                index: self.finished,
                frequency: self.frequencies[self.finished],
            },
            SweepStage::Solving => SweepAction::Solve {
                index: self.finished,
                frequency: self.frequencies[self.finished],
            },
            SweepStage::Projecting => SweepAction::Project {
                index: self.finished,
                frequency: self.frequencies[self.finished],
            },
            SweepStage::Done => SweepAction::Finish,
        }
    }

    /// On to the next frequency, or to the end where none is left.
    fn advance(&mut self)
        requires
            old(self)@.wf(),
        ensures
            final(self)@ == old(self)@.advance(),
    {
        if self.finished < self.frequencies.len() {
            self.stage = SweepStage::Assembling;
        } else {
            self.stage = SweepStage::Done;
        }
    }

    /// Gives the current frequency up with `error`.
    fn fail(&mut self, error: SolveError, fatal: bool)
        requires
            old(self)@.wf(),
            old(self)@.stage.working(),
        ensures
            final(self)@ == old(self)@.fail(error, fatal),
    {
        self.failures.push(Failure { index: self.finished, error });
        self.finished = self.finished + 1;
        let stop = match self.policy {
            FailurePolicy::Stop => true,
            FailurePolicy::Skip => false,
        };
        if fatal || stop {
            self.stage = SweepStage::Done;
            self.halted = true;
        } else if self.finished < self.frequencies.len() {
            self.stage = SweepStage::Assembling;
        } else {
            self.stage = SweepStage::Done;
        }
        assert(self@ =~= old(self)@.fail(error, fatal));
    }

    /// Where the sweep stands.
    pub fn stage(&self) -> (stage: SweepStage)
        ensures
            stage == self@.stage,
    {
        self.stage
    }

    /// How many frequencies are done with.
    pub fn finished(&self) -> (n: usize)
        ensures
            n == self@.finished,
    {
        self.finished
    }

    /// Whether the sweep ended by a cancellation or a failure.
    pub fn is_halted(&self) -> (halted: bool)
        ensures
            halted == self@.halted,
    {
        self.halted
    }

    /// Whether the sweep went through every frequency and each gave a result.
    pub fn is_complete(&self) -> (complete: bool)
        ensures
            complete == self@.complete(),
    {
        let done = match self.stage {
            SweepStage::Done => true,
            _ => false,
        };
        done && !self.halted && self.failures.len() == 0
    }

    /// The frequencies of the sweep, as they were given.
    pub fn frequencies(&self) -> (frequencies: &Vec<Real>)
        ensures
            frequencies@ == self@.frequencies,
    {
        &self.frequencies
    }

    /// The results so far, in the order of the input.
    pub fn results(&self) -> (results: &Vec<FPResult>)
        ensures
            results@.len() == self@.results.len(),
            forall|k: int|
                0 <= k < results@.len() ==> (#[trigger] results@[k])@ == self@.results[k],
    {
        &self.results
    }

    /// For each result, the place of its frequency in the input.
    pub fn recorded(&self) -> (recorded: &Vec<usize>)
        ensures
            recorded@ == self@.recorded,
    {
        &self.recorded
    }

    /// The frequencies that gave no result, in the order of the input.
    pub fn failures(&self) -> (failures: &Vec<Failure>)
        ensures
            failures@ == self@.failures,
    {
        &self.failures
    }

    /// The notices so far.
    pub fn notices(&self) -> (notices: &Vec<Notice>)
        ensures
            notices@ == self@.notices,
    {
        &self.notices
    }
}

/// Every step of a sweep keeps its state well formed.
pub proof fn lemma_step_keeps_wf(s: SweepModel, event: SweepEvent)
    requires
        s.wf(),
    ensures
        s.step(event).wf(),
{
    let t = s.step(event);
    if t != s {
        match event {
            SweepEvent::Projected { phi_fp, phi_inc_fp, radiated_power } => {
                if phi_fp@.len() == s.field_points && phi_inc_fp@.len() == s.field_points {
                    lemma_record_keeps_wf(s, phi_fp@, phi_inc_fp@, radiated_power);
                } else {
                    lemma_fail_keeps_wf(
                        s,
                        SolveError::Configuration(ConfigurationError::ShapeMismatch),
                        true,
                    );
                }
            },
            SweepEvent::Singular => {
                lemma_fail_keeps_wf(
                    s,
                    SolveError::SingularSystem(SingularSystemError { frequency: s.current() }),
                    false,
                );
            },
            SweepEvent::Misconfigured(error) => {
                lemma_fail_keeps_wf(s, SolveError::Configuration(error), true);
            },
            _ => {},
        }
    }
}

/// Recording a result of the right lengths keeps the state well formed.
proof fn lemma_record_keeps_wf(
    s: SweepModel,
    phi_fp: Seq<Cplx>,
    phi_inc_fp: Seq<Cplx>,
    radiated_power: Real,
)
    requires
        s.wf(),
        s.stage == SweepStage::Projecting,
        phi_fp.len() == s.field_points,
        phi_inc_fp.len() == s.field_points,
    ensures
        s.record(phi_fp, phi_inc_fp, radiated_power).wf(),
{
    let t = s.record(phi_fp, phi_inc_fp, radiated_power);
    assert forall|a: int, b: int| 0 <= a < b < t.recorded.len() implies t.recorded[a]
        < t.recorded[b] by {
        if b == s.recorded.len() {
            assert(s.recorded[a] < s.finished);
        }
    }
    assert forall|k: int| 0 <= k < t.results.len() implies {
        &&& (#[trigger] t.recorded[k]) < t.finished
        &&& t.results[k].frequency == t.frequencies[t.recorded[k] as int]
        &&& t.results[k].phi_fp.len() == t.field_points
        &&& t.results[k].phi_inc_fp.len() == t.field_points
    } by {
        if k < s.results.len() {
            assert(s.recorded[k] < s.finished);
        }
    }
    if t.failures.len() == 0 {
        assert forall|k: int| 0 <= k < t.recorded.len() implies #[trigger] t.recorded[k] == k by {
            if k < s.recorded.len() {
                assert(s.recorded[k] == k);
            }
        }
    }
    assert forall|k: int| 0 <= k < t.failures.len() implies (#[trigger] t.failures[k]).index
        < t.finished by {
        assert(s.failures[k].index < s.finished);
    }
}

/// Giving a frequency up keeps the state well formed, where a singular
/// system is reported with the current frequency.
proof fn lemma_fail_keeps_wf(s: SweepModel, error: SolveError, fatal: bool)
    requires
        s.wf(),
        s.stage.working(),
        match error {
            SolveError::SingularSystem(singular) => singular.frequency == s.current(),
            SolveError::Configuration(_) => true,
        },
    ensures
        s.fail(error, fatal).wf(),
{
    let t = s.fail(error, fatal);
    assert forall|a: int, b: int| 0 <= a < b < t.failures.len() implies t.failures[a].index
        < t.failures[b].index by {
        if b == s.failures.len() {
            assert(s.failures[a].index < s.finished);
        }
    }
    assert forall|k: int| 0 <= k < t.failures.len() implies {
        &&& (#[trigger] t.failures[k]).index < t.finished
        &&& match t.failures[k].error {
            SolveError::SingularSystem(singular) => singular.frequency
                == t.frequencies[t.failures[k].index as int],
            SolveError::Configuration(_) => true,
        }
    } by {
        if k < s.failures.len() {
            assert(s.failures[k].index < s.finished);
        }
    }
    assert forall|k: int| 0 <= k < t.results.len() implies {
        &&& (#[trigger] t.recorded[k]) < t.finished
        &&& t.results[k].frequency == t.frequencies[t.recorded[k] as int]
        &&& t.results[k].phi_fp.len() == t.field_points
        &&& t.results[k].phi_inc_fp.len() == t.field_points
    } by {
        assert(s.recorded[k] < s.finished);
    }
}

/// A sweep over `N` frequencies that came to its end with no frequency
/// failed has `N` results, in the order of the input, each with the
/// frequency of its place and with a value for each field point.
pub proof fn lemma_complete_sweep(s: SweepModel)
    requires
        s.wf(),
        s.complete(),
    ensures
        s.results.len() == s.frequencies.len(),
        forall|k: int|
            0 <= k < s.results.len() ==> {
                &&& (#[trigger] s.results[k]).frequency == s.frequencies[k]
                &&& s.results[k].phi_fp.len() == s.field_points
                &&& s.results[k].phi_inc_fp.len() == s.field_points
            },
{
    assert forall|k: int| 0 <= k < s.results.len() implies {
        &&& (#[trigger] s.results[k]).frequency == s.frequencies[k]
        &&& s.results[k].phi_fp.len() == s.field_points
        &&& s.results[k].phi_inc_fp.len() == s.field_points
    } by {
        assert(s.recorded[k] == k);
    }
}

/// A run over one more event is a step after the run before it.
proof fn lemma_run_one_more(s: SweepModel, events: Seq<SweepEvent>, n: int)
    requires
        0 <= n < events.len(),
    ensures
        s.run(events.take(n + 1)) == s.run(events.take(n)).step(events[n]),
{
    assert(events.take(n + 1).drop_last() =~= events.take(n));
    assert(events.take(n + 1).last() == events[n]);
}

/// After the first `round` of `rounds` clean rounds the sweep has a result
/// for each of them and no failure, and waits between two frequencies.
proof fn lemma_clean_rounds_so_far(
    frequencies: Seq<Real>,
    field_points: nat,
    policy: FailurePolicy,
    events: Seq<SweepEvent>,
    round: nat,
)
    requires
        frequencies.len() <= usize::MAX,
        clean_rounds(events, frequencies.len(), field_points),
        round <= frequencies.len(),
    ensures
        ({
            let s = SweepModel::initial(frequencies, field_points, policy).run(
                events.take(4 * round as int),
            );
            &&& s.wf()
            &&& s.frequencies == frequencies
            &&& s.field_points == field_points
            &&& s.finished == round
            &&& s.failures.len() == 0
            &&& s.stage == if round == 0 {
                SweepStage::Idle
            } else {
                SweepStage::Recorded
            }
        }),
    decreases round,
{
    let start = SweepModel::initial(frequencies, field_points, policy);
    if round == 0 {
        assert(events.take(0).len() == 0);
    } else {
        lemma_clean_rounds_so_far(frequencies, field_points, policy, events, (round - 1) as nat);
        let r = round as int - 1;
        assert(clean_round(events, r, field_points));
        let s0 = start.run(events.take(4 * r));
        let s1 = s0.step(events[4 * r]);
        let s2 = s1.step(events[4 * r + 1]);
        let s3 = s2.step(events[4 * r + 2]);
        let s4 = s3.step(events[4 * r + 3]);
        lemma_run_one_more(start, events, 4 * r);
        lemma_run_one_more(start, events, 4 * r + 1);
        lemma_run_one_more(start, events, 4 * r + 2);
        lemma_run_one_more(start, events, 4 * r + 3);
        lemma_step_keeps_wf(s0, events[4 * r]);
        lemma_step_keeps_wf(s1, events[4 * r + 1]);
        lemma_step_keeps_wf(s2, events[4 * r + 2]);
        lemma_step_keeps_wf(s3, events[4 * r + 3]);
        assert(s1.stage == SweepStage::Assembling);
        assert(s2.stage == SweepStage::Solving);
        assert(s3.stage == SweepStage::Projecting);
        assert(s4.stage == SweepStage::Recorded);
        assert(4 * r + 3 + 1 == 4 * round);
    }
}

/// A sweep from its beginning over `N` frequencies, each worked through
/// without a fault, and then told to go on, is complete: it has `N` results,
/// in the order of the input, each with the frequency of its place.
pub proof fn lemma_clean_run_records_every_frequency(
    frequencies: Seq<Real>,
    field_points: nat,
    policy: FailurePolicy,
    events: Seq<SweepEvent>,
)
    requires
        frequencies.len() <= usize::MAX,
        clean_rounds(events, frequencies.len(), field_points),
    ensures
        ({
            let s = SweepModel::initial(frequencies, field_points, policy).run(
                events.push(SweepEvent::Continue),
            );
            &&& s.wf()
            &&& s.complete()
            &&& s.results.len() == frequencies.len()
            &&& forall|k: int|
                0 <= k < frequencies.len() ==> (#[trigger] s.results[k]).frequency
                    == frequencies[k]
        }),
{
    let start = SweepModel::initial(frequencies, field_points, policy);
    let all = events.push(SweepEvent::Continue);
    lemma_clean_rounds_so_far(frequencies, field_points, policy, events, frequencies.len());
    assert(events.take(4 * frequencies.len() as int) =~= events);
    assert(all.drop_last() =~= events);
    let before = start.run(events);
    let s = start.run(all);
    assert(s == before.step(SweepEvent::Continue));
    lemma_step_keeps_wf(before, SweepEvent::Continue);
    lemma_complete_sweep(s);
}

} // verus!
