//! The run as a state machine: from the state and from what the last step
//! reported, the next state and the next step to take.
//!
//! The program around this library performs each step, measures it, and
//! reports its outcome. This module decides. A run passes through
//! `Init`, `ParamsReady`, `KeysReady` and `ProofReady` to `Verified`, or ends
//! in `Failed` at the first failure.

use crate::circuit::CircuitInstance;
use crate::circuit::InstanceView;
use crate::config::Instrumentation;
use crate::config::RunConfig;
use crate::error::error_for;
use crate::error::fault_of;
use crate::error::BackendFault;
use crate::error::PipelineError;
use crate::error::Stage;
use crate::error::SynthesisCause;
use crate::error::TableFault;
use halo2_proofs::plonk::Error;
use vstd::prelude::*;

verus! {

/// Where a run stands.
#[derive(Clone, Copy, Debug, PartialEq, Eq, Structural)]
pub enum Phase {
    /// Nothing has been done.
    Init,
    /// The public parameters exist.
    ParamsReady,
    /// The verification key and the proving key exist.
    KeysReady,
    /// The proof exists.
    ProofReady,
    /// The verifier accepted the proof. The run is over.
    Verified,
    /// A step failed. The run is over.
    Failed(PipelineError),
}

impl Phase {
    /// Whether the run is over.
    pub open spec fn is_terminal(self) -> bool {
        self is Verified || self is Failed
    }

    /// How far the phase is from the start.
    pub open spec fn rank(self) -> nat {
        match self {
            Phase::Init => 0,
            Phase::ParamsReady => 1,
            Phase::KeysReady => 2,
            Phase::ProofReady => 3,
            Phase::Verified => 4,
            Phase::Failed(_) => 4,
        }
    }
}

/// The step that the program around the library is to take next.
#[derive(Clone, Copy, Debug, PartialEq, Eq, Structural)]
pub enum Action {
    /// Produce the public parameters for circuits of `2^k` rows.
    Setup { k: u32 },
    /// Run the constraint simulator on the witness, in a circuit of `2^k`
    /// rows.
    Simulate { k: u32 },
    /// Render the layout of the circuit to an image.
    RenderLayout,
    /// Derive the verification key and the proving key from the instance
    /// without witnesses, and report the statistics of the constraint system
    /// if `report_statistics` is set.
    GenerateKeys { report_statistics: bool },
    /// Create the proof for the witness, for this one instance and without
    /// public inputs, drawing from the generator that
    /// [`proof_generator`](crate::backend::proof_generator) gives.
    CreateProof,
    /// Verify the run's transcript, read from its start, as a single proof
    /// and against the verification key that the proving key holds.
    VerifyProof,
    /// Nothing: the proof was verified.
    Finish,
    /// Abort with this error.
    Abort(PipelineError),
}

impl Action {
    /// The stage in which the step is taken; none where the run is over.
    pub open spec fn stage(self) -> Option<Stage> {
        match self {
            Action::Setup { .. } => Some(Stage::Setup),
            Action::Simulate { .. } => Some(Stage::Simulation),
            Action::RenderLayout => Some(Stage::LayoutRender),
            Action::GenerateKeys { .. } => Some(Stage::KeyGeneration),
            Action::CreateProof => Some(Stage::Proving),
            Action::VerifyProof => Some(Stage::Verification),
            Action::Finish | Action::Abort(_) => None,
        }
    }

    /// The stage in which the step is taken; none where the run is over.
    pub fn stage_of(&self) -> (stage: Option<Stage>)
        ensures
            stage == self.stage(),
    {
        match self {
            Action::Setup { .. } => Some(Stage::Setup),
            Action::Simulate { .. } => Some(Stage::Simulation),
            Action::RenderLayout => Some(Stage::LayoutRender),
            Action::GenerateKeys { .. } => Some(Stage::KeyGeneration),
            Action::CreateProof => Some(Stage::Proving),
            Action::VerifyProof => Some(Stage::Verification),
            Action::Finish | Action::Abort(_) => None,
        }
    }
}

/// The parts of a run whose time is reported.
#[derive(Clone, Copy, Debug, PartialEq, Eq, Structural)]
pub enum Part {
    /// Setup, and the simulator or the layout image.
    Preprocessing,
    /// Key generation.
    KeyGeneration,
    /// Proof creation.
    Proving,
    /// Proof verification.
    Verification,
}

impl Part {
    /// The part that a stage belongs to.
    pub open spec fn of(stage: Stage) -> Part {
        match stage {
            Stage::Setup | Stage::Simulation | Stage::LayoutRender => Part::Preprocessing,
            Stage::KeyGeneration => Part::KeyGeneration,
            Stage::Proving => Part::Proving,
            Stage::Verification => Part::Verification,
        }
    }

    /// The part that a stage belongs to.
    pub fn of_stage(stage: Stage) -> (part: Part)
        ensures
            part == Part::of(stage),
    {
        match stage {
            Stage::Setup | Stage::Simulation | Stage::LayoutRender => Part::Preprocessing,
            Stage::KeyGeneration => Part::KeyGeneration,
            Stage::Proving => Part::Proving,
            Stage::Verification => Part::Verification,
        }
    }
}

/// The part of the run that has just been completed, if any: the part of
/// `done`, provided that the step asked for next, `pending`, belongs to
/// another part or ends the run in success.
pub open spec fn completed_part(done: Action, pending: Action) -> Option<Part> {
    match done.stage() {
        Some(stage) => if pending is Abort || (pending.stage() is Some && Part::of(
            pending.stage().unwrap(),
        ) == Part::of(stage)) {
            None
        } else {
            Some(Part::of(stage))
        },
        None => None,
    }
}

/// The part of the run whose time is due to be reported after the step
/// `done`, when `pending` is asked for next.
pub fn part_completed(done: Action, pending: Action) -> (part: Option<Part>)
    ensures
        part == completed_part(done, pending),
{
    match done.stage_of() {
        Some(stage) => {
            let part = Part::of_stage(stage);
            match pending {
                Action::Abort(_) => None,
                _ => match pending.stage_of() {
                    Some(next) => if Part::of_stage(next) == part {
                        None
                    } else {
                        Some(part)
                    },
                    None => Some(part),
                },
            }
        },
        None => None,
    }
}

/// What a step reported.
#[derive(Debug)]
pub enum Outcome {
    /// The step succeeded.
    Completed,
    /// The prover succeeded and wrote this transcript.
    ProofCreated(Vec<u8>),
    /// The simulator found this many unsatisfied constraints.
    Unsatisfied { failures: usize },
    /// The proof system reported this failure.
    Failed(BackendFault),
}

impl Outcome {
    /// The transcript that the outcome hands in, if it is that of the prover.
    pub open spec fn transcript(self) -> Option<Seq<u8>> {
        match self {
            Outcome::ProofCreated(transcript) => Some(transcript@),
            _ => None,
        }
    }
}

/// The outcome of a step and the time it took, in nanoseconds.
#[derive(Debug)]
pub struct Event {
    pub outcome: Outcome,
    pub elapsed: u64,
}

impl Event {
    /// The event that reports a failure `error` of the proof system, after
    /// `elapsed` nanoseconds.
    ///
    /// Which fault the event carries depends on the error, which the verifier
    /// does not see into.
    pub fn failed(error: &Error, elapsed: u64) -> (event: Event)
        ensures
            event.outcome is Failed,
            event.elapsed == elapsed,
    {
        Event { outcome: Outcome::Failed(fault_of(error)), elapsed }
    }
}

/// The sum of two durations, held at the largest value where it would
/// exceed it.
pub open spec fn saturating_sum(a: u64, b: u64) -> u64 {
    if a + b > u64::MAX {
        u64::MAX
    } else {
        (a + b) as u64
    }
}

/// The time spent in each part of a run, in nanoseconds.
#[derive(Clone, Copy, Debug, PartialEq, Eq, Structural)]
pub struct PhaseTimings {
    /// Setup, and the simulator or the layout image.
    pub preprocessing: u64,
    /// Key generation.
    pub key_generation: u64,
    /// Proof creation.
    pub proving: u64,
    /// Proof verification.
    pub verification: u64,
}

impl PhaseTimings {
    /// No time spent.
    pub open spec fn zero() -> PhaseTimings {
        PhaseTimings { preprocessing: 0, key_generation: 0, proving: 0, verification: 0 }
    }

    /// The time spent on `part`.
    pub open spec fn spent(self, part: Part) -> u64 {
        match part {
            Part::Preprocessing => self.preprocessing,
            Part::KeyGeneration => self.key_generation,
            Part::Proving => self.proving,
            Part::Verification => self.verification,
        }
    }

    /// The timings after `elapsed` more nanoseconds were spent on `part`.
    pub open spec fn recorded(self, part: Part, elapsed: u64) -> PhaseTimings {
        match part {
            Part::Preprocessing => PhaseTimings {
                preprocessing: saturating_sum(self.preprocessing, elapsed),
                ..self
            },
            Part::KeyGeneration => PhaseTimings {
                key_generation: saturating_sum(self.key_generation, elapsed),
                ..self
            },
            Part::Proving => PhaseTimings { proving: saturating_sum(self.proving, elapsed), ..self },
            Part::Verification => PhaseTimings {
                verification: saturating_sum(self.verification, elapsed),
                ..self
            },
        }
    }

    /// The time spent on `part`.
    pub fn of(&self, part: Part) -> (nanoseconds: u64)
        ensures
            nanoseconds == self.spent(part),
    {
        match part {
            Part::Preprocessing => self.preprocessing,
            Part::KeyGeneration => self.key_generation,
            Part::Proving => self.proving,
            Part::Verification => self.verification,
        }
    }

    /// Adds `elapsed` to the time spent on `part`. A sum that does not fit
    /// stays at the largest value.
    pub fn record(self, part: Part, elapsed: u64) -> (timings: PhaseTimings)
        ensures
            timings == self.recorded(part, elapsed),
            timings.spent(part) == saturating_sum(self.spent(part), elapsed),
    {
        match part {
            Part::Preprocessing => PhaseTimings {
                preprocessing: self.preprocessing.saturating_add(elapsed),
                ..self
            },
            Part::KeyGeneration => PhaseTimings {
                key_generation: self.key_generation.saturating_add(elapsed),
                ..self
            },
            Part::Proving => PhaseTimings { proving: self.proving.saturating_add(elapsed), ..self },
            Part::Verification => PhaseTimings {
                verification: self.verification.saturating_add(elapsed),
                ..self
            },
        }
    }
}

/// What a run is in contracts.
pub ghost struct RunView {
    /// The exponent `k` of the circuit's row count.
    pub k: u32,
    /// What the run does besides proving and verifying.
    pub instrumentation: Instrumentation,
    /// The instance that is proved.
    pub instance: InstanceView,
    /// Where the run stands.
    pub phase: Phase,
    /// Whether the simulator has passed or the layout has been rendered.
    pub inspected: bool,
    /// The bytes that the prover wrote; empty before it has run.
    pub transcript: Seq<u8>,
    /// The time spent so far.
    pub timings: PhaseTimings,
}

impl RunView {
    /// The run before its first step.
    pub open spec fn initial(
        k: u32,
        instrumentation: Instrumentation,
        instance: InstanceView,
    ) -> RunView {
        RunView {
            k,
            instrumentation,
            instance,
            phase: Phase::Init,
            inspected: false,
            transcript: Seq::<u8>::empty(),
            timings: PhaseTimings::zero(),
        }
    }

    /// What holds of a run at every moment.
    ///
    /// The instance fits its capacity. No transcript exists before the
    /// prover has run. Nothing has been inspected at the start, nor is it
    /// ever in a run without instrumentation; in a run with instrumentation
    /// the simulator has passed, or the layout has been rendered, before the
    /// keys exist.
    pub open spec fn well_formed(self) -> bool {
        &&& self.instance.fits()
        &&& self.phase == Phase::Init || self.phase == Phase::ParamsReady || self.phase
            == Phase::KeysReady ==> self.transcript.len() == 0
        &&& self.phase == Phase::Init ==> !self.inspected && self.timings == PhaseTimings::zero()
        &&& self.instrumentation == Instrumentation::Off ==> !self.inspected
        &&& self.instrumentation != Instrumentation::Off && (self.phase == Phase::KeysReady
            || self.phase == Phase::ProofReady || self.phase == Phase::Verified)
            ==> self.inspected
    }

    /// The step to take next.
    ///
    /// With the parameters ready, a run with diagnostics first asks for the
    /// simulator and a run with the layout image first asks for the image;
    /// the keys are asked for once that has been done.
    pub open spec fn pending(self) -> Action {
        match self.phase {
            Phase::Init => Action::Setup { k: self.k },
            Phase::ParamsReady => if !self.inspected && self.instrumentation
                == Instrumentation::Diagnostics {
                Action::Simulate { k: self.k }
            } else if !self.inspected && self.instrumentation == Instrumentation::LayoutRender {
                Action::RenderLayout
            } else {
                Action::GenerateKeys {
                    report_statistics: self.instrumentation == Instrumentation::LayoutRender,
                }
            },
            Phase::KeysReady => Action::CreateProof,
            Phase::ProofReady => Action::VerifyProof,
            Phase::Verified => Action::Finish,
            Phase::Failed(error) => Action::Abort(error),
        }
    }

    /// The run with `phase` in place of its phase.
    pub open spec fn at(self, phase: Phase) -> RunView {
        RunView { phase, ..self }
    }

    /// Whether `outcome` is an answer to a step of `stage`. Every step can
    /// fail; only the simulator finds unsatisfied constraints; the prover
    /// succeeds with a transcript and every other step without one.
    pub open spec fn answers(stage: Stage, outcome: Outcome) -> bool {
        match outcome {
            Outcome::Failed(_) => true,
            Outcome::Unsatisfied { .. } => stage == Stage::Simulation,
            Outcome::ProofCreated(_) => stage == Stage::Proving,
            Outcome::Completed => stage != Stage::Proving,
        }
    }

    /// The run after `outcome` answered its pending step of `stage`, without
    /// the time that the step took.
    pub open spec fn moved(self, stage: Stage, outcome: Outcome) -> RunView {
        match outcome {
            Outcome::Failed(fault) => self.at(Phase::Failed(error_for(stage, fault))),
            Outcome::Unsatisfied { failures } => self.at(
                Phase::Failed(PipelineError::SimulationFailure { failures }),
            ),
            Outcome::ProofCreated(transcript) => RunView {
                phase: Phase::ProofReady,
                transcript: transcript@,
                ..self
            },
            Outcome::Completed => match stage {
                Stage::Setup => self.at(Phase::ParamsReady),
                Stage::Simulation | Stage::LayoutRender => RunView { inspected: true, ..self },
                Stage::KeyGeneration => self.at(Phase::KeysReady),
                Stage::Proving => self,
                Stage::Verification => self.at(Phase::Verified),
            },
        }
    }

    /// The run after `event`.
    ///
    /// An event that answers the pending step moves the run: a success to
    /// what the step was to achieve, a failure to `Failed` with the error of
    /// its stage. The time of the event is added to the part of the run that
    /// the step belongs to. Any other event leaves the run as it is, and so
    /// does every event once the run is over.
    pub open spec fn advance(self, event: Event) -> RunView {
        match self.pending().stage() {
            Some(stage) => if RunView::answers(stage, event.outcome) {
                RunView {
                    timings: self.timings.recorded(Part::of(stage), event.elapsed),
                    ..self.moved(stage, event.outcome)
                }
            } else {
                self
            },
            None => self,
        }
    }
}

/// The run that starts at `start` and is told `events` one after the other.
pub open spec fn run_after(start: RunView, events: Seq<Event>) -> RunView
    decreases events.len(),
{
    if events.len() == 0 {
        start
    } else {
        run_after(start, events.drop_last()).advance(events.last())
    }
}

/// One run of the pipeline.
#[derive(Debug)]
pub struct Run {
    k: u32,
    instrumentation: Instrumentation,
    instance: CircuitInstance,
    phase: Phase,
    inspected: bool,
    transcript: Vec<u8>,
    timings: PhaseTimings,
}

impl View for Run {
    type V = RunView;

    closed spec fn view(&self) -> RunView {
        RunView {
            k: self.k,
            instrumentation: self.instrumentation,
            instance: self.instance@,
            phase: self.phase,
            inspected: self.inspected,
            transcript: self.transcript@,
            timings: self.timings,
        }
    }
}

impl Run {
    #[verifier::type_invariant]
    spec fn holds_together(self) -> bool {
        self@.well_formed()
    }

    /// The run that `config` describes, before its first step. A table with
    /// more rows than the capacity is rejected, and no run begins.
    pub fn new(config: &RunConfig) -> (result: Result<Run, PipelineError>)
        ensures
            config.instance().fits() ==> result.is_ok() && result.unwrap()@ == RunView::initial(
                config.security_parameter,
                config.instrumentation,
                config.instance(),
            ),
            !config.instance().fits() ==> result == Err::<Run, PipelineError>(
                PipelineError::Synthesis(
                    SynthesisCause::Table(
                        (TableFault::CapacityExceeded {
                            rows: config.table_source.rows().len() as usize,
                            capacity: config.capacity,
                        }),
                    ),
                ),
            ),
    {
        match config.build_instance() {
            Ok(instance) => Ok(
                Run::start(instance, config.security_parameter, config.instrumentation),
            ),
            Err(error) => Err(error),
        }
    }

    /// The run that proves `instance` in a circuit of `2^k` rows, before its
    /// first step.
    pub fn start(instance: CircuitInstance, k: u32, instrumentation: Instrumentation) -> (run: Run)
        ensures
            run@ == RunView::initial(k, instrumentation, instance@),
            run@.well_formed(),
    {
        proof {
            use_type_invariant(&instance);
        }
        Run {
            k,
            instrumentation,
            instance,
            phase: Phase::Init,
            inspected: false,
            transcript: Vec::new(),
            timings: PhaseTimings {
                preprocessing: 0,
                key_generation: 0,
                proving: 0,
                verification: 0,
            },
        }
    }

    /// The step to take next.
    pub fn action(&self) -> (action: Action)
        ensures
            action == self@.pending(),
            self@.well_formed(),
    {
        proof {
            use_type_invariant(self);
        }
        match self.phase {
            Phase::Init => Action::Setup { k: self.k },
            Phase::ParamsReady => {
                if !self.inspected && self.instrumentation == Instrumentation::Diagnostics {
                    Action::Simulate { k: self.k }
                } else if !self.inspected && self.instrumentation == Instrumentation::LayoutRender {
                    Action::RenderLayout
                } else {
                    Action::GenerateKeys {
                        report_statistics: self.instrumentation == Instrumentation::LayoutRender,
                    }
                }
            },
            Phase::KeysReady => Action::CreateProof,
            Phase::ProofReady => Action::VerifyProof,
            Phase::Verified => Action::Finish,
            Phase::Failed(error) => Action::Abort(error),
        }
    }

    /// Takes in what the pending step reported, and says what to do next.
    pub fn step(self, event: Event) -> (next: (Run, Action))
        ensures
            next.0@ == self@.advance(event),
            next.0@.well_formed(),
            next.1 == next.0@.pending(),
    {
        proof {
            use_type_invariant(&self);
        }
        let Event { outcome, elapsed } = event;
        let run = match self.action().stage_of() {
            Some(stage) => {
                let timings = self.timings.record(Part::of_stage(stage), elapsed);
                match outcome {
                    Outcome::Failed(fault) => Run {
                        phase: Phase::Failed(PipelineError::from_fault(stage, fault)),
                        timings,
                        ..self
                    },
                    Outcome::Unsatisfied { failures } => match stage {
                        Stage::Simulation => Run {
                            phase: Phase::Failed(PipelineError::SimulationFailure { failures }),
                            timings,
                            ..self
                        },
                        _ => self,
                    },
                    Outcome::ProofCreated(transcript) => match stage {
                        Stage::Proving => Run {
                            phase: Phase::ProofReady,
                            transcript,
                            timings,
                            ..self
                        },
                        _ => self,
                    },
                    Outcome::Completed => match stage {
                        Stage::Setup => Run { phase: Phase::ParamsReady, timings, ..self },
                        Stage::Simulation | Stage::LayoutRender => Run {
                            inspected: true,
                            timings,
                            ..self
                        },
                        Stage::KeyGeneration => Run { phase: Phase::KeysReady, timings, ..self },
                        Stage::Proving => self,
                        Stage::Verification => Run { phase: Phase::Verified, timings, ..self },
                    },
                }
            },
            None => self,
        };
        let action = run.action();
        (run, action)
    }

    /// Where the run stands.
    pub fn phase(&self) -> (phase: Phase)
        ensures
            phase == self@.phase,
    {
        self.phase
    }

    /// Whether the run is over.
    pub fn is_finished(&self) -> (b: bool)
        ensures
            b == self@.phase.is_terminal(),
    {
        match self.phase {
            Phase::Verified => true,
            Phase::Failed(_) => true,
            _ => false,
        }
    }

    /// How the run ended: `None` while it is under way, `Ok` once the proof
    /// is verified, and the error once a step has failed.
    pub fn result(&self) -> (result: Option<Result<(), PipelineError>>)
        ensures
            result == match self@.phase {
                Phase::Verified => Some(Ok::<(), PipelineError>(())),
                Phase::Failed(error) => Some(Err::<(), PipelineError>(error)),
                _ => None::<Result<(), PipelineError>>,
            },
    {
        match self.phase {
            Phase::Verified => Some(Ok(())),
            Phase::Failed(error) => Some(Err(error)),
            _ => None,
        }
    }

    /// The exponent `k` of the circuit's row count.
    pub fn security_parameter(&self) -> (k: u32)
        ensures
            k == self@.k,
    {
        self.k
    }

    /// What the run does besides proving and verifying.
    pub fn instrumentation(&self) -> (instrumentation: Instrumentation)
        ensures
            instrumentation == self@.instrumentation,
    {
        self.instrumentation
    }

    /// The instance with its witness: what the simulator, the layout image
    /// and the prover work on.
    pub fn witness(&self) -> (instance: &CircuitInstance)
        ensures
            instance@ == self@.instance,
    {
        &self.instance
    }

    /// The instance without witnesses: what the keys are derived from.
    pub fn shape(&self) -> (instance: CircuitInstance)
        ensures
            instance@ == self@.instance.shape_only(),
    {
        self.instance.without_witnesses()
    }

    /// The bytes that the prover wrote: what the verifier reads. Empty
    /// before the prover has run.
    pub fn transcript(&self) -> (transcript: &Vec<u8>)
        ensures
            transcript@ == self@.transcript,
            self@.well_formed(),
    {
        proof {
            use_type_invariant(self);
        }
        &self.transcript
    }

    /// The time spent so far.
    pub fn timings(&self) -> (timings: PhaseTimings)
        ensures
            timings == self@.timings,
    {
        self.timings
    }
}

} // verus!
