//! The failures that end a run, and how a failure reported by the proof
//! system is sorted into them.

use halo2_proofs::plonk::Error;
use vstd::prelude::*;

verus! {

/// The kind of failure that a call into the proof system reported.
///
/// There is one variant for each variant of `halo2_proofs::plonk::Error`, and
/// `Unrecognized` for a variant that a later version of that crate may add.
/// Of the payloads only the circuit size exponent is kept.
#[derive(Clone, Copy, Debug, PartialEq, Eq, Structural)]
pub enum BackendFault {
    /// The circuit's synthesis failed, for instance for want of a witness.
    Synthesis,
    /// The public inputs do not match the circuit.
    InvalidInstances,
    /// The constraint system is not satisfied.
    ConstraintSystemFailure,
    /// An index handed to the proof system was out of bounds.
    BoundsFailure,
    /// An opening of the polynomial commitment failed.
    Opening,
    /// The transcript could not be written or read.
    Transcript,
    /// The circuit needs more than `2^current_k` rows.
    NotEnoughRowsAvailable { current_k: u32 },
    /// The public inputs have more entries than the circuit has rows.
    InstanceTooLarge,
    /// Too few fixed columns can hold constants.
    NotEnoughColumnsForConstants,
    /// A copy constraint names a column outside the permutation.
    ColumnNotInPermutation,
    /// A lookup table was assigned wrongly.
    TableError,
    /// A hash was started from a private point.
    IllegalHashFromPrivatePoint,
    /// A failure of a kind that this library does not know.
    Unrecognized,
}

/// The step of a run in which a call into the proof system was made.
#[derive(Clone, Copy, Debug, PartialEq, Eq, Structural)]
pub enum Stage {
    /// The public parameters are produced.
    Setup,
    /// The constraint simulator runs on the witness.
    Simulation,
    /// The layout of the circuit is rendered.
    LayoutRender,
    /// The verification key and the proving key are derived.
    KeyGeneration,
    /// The proof is created.
    Proving,
    /// The proof is checked.
    Verification,
}

/// What is wrong with a hash table, found before the proof system is called.
#[derive(Clone, Copy, Debug, PartialEq, Eq, Structural)]
pub enum TableFault {
    /// The number of control codes differs from the number of input pairs.
    ArityMismatch { inputs: usize, controls: usize },
    /// The table has more rows than the circuit has hash steps.
    CapacityExceeded { rows: usize, capacity: usize },
}

/// Why a witness could not be placed.
#[derive(Clone, Copy, Debug, PartialEq, Eq, Structural)]
pub enum SynthesisCause {
    /// The table was rejected by this library.
    Table(TableFault),
    /// The proof system reported the failure.
    Backend(BackendFault),
}

/// The failures that end a run. None of them is recovered from.
#[derive(Clone, Copy, Debug, PartialEq, Eq, Structural)]
pub enum PipelineError {
    /// The circuit's shape exceeds what the circuit size exponent supports.
    /// Found when the keys are generated.
    Configuration(BackendFault),
    /// The witness cannot be placed into the declared layout.
    Synthesis(SynthesisCause),
    /// The commitment scheme or the transcript failed while the proof was
    /// created.
    ProofGeneration(BackendFault),
    /// The verifier rejected the proof.
    VerificationFailure(BackendFault),
    /// The constraint simulator found this many unsatisfied constraints.
    SimulationFailure { failures: usize },
}

impl BackendFault {
    /// Whether the fault arises while a circuit is laid out on the grid of
    /// rows and columns, as opposed to while commitments are computed or the
    /// transcript is written.
    pub open spec fn is_layout_fault(self) -> bool {
        match self {
            BackendFault::Synthesis => true,
            BackendFault::ConstraintSystemFailure => true,
            BackendFault::BoundsFailure => true,
            BackendFault::NotEnoughRowsAvailable { .. } => true,
            BackendFault::NotEnoughColumnsForConstants => true,
            BackendFault::ColumnNotInPermutation => true,
            BackendFault::TableError => true,
            _ => false,
        }
    }

    /// Computes [`BackendFault::is_layout_fault`].
    pub fn layout_fault(&self) -> (b: bool)
        ensures
            b == self.is_layout_fault(),
    {
        match self {
            BackendFault::Synthesis => true,
            BackendFault::ConstraintSystemFailure => true,
            BackendFault::BoundsFailure => true,
            BackendFault::NotEnoughRowsAvailable { .. } => true,
            BackendFault::NotEnoughColumnsForConstants => true,
            BackendFault::ColumnNotInPermutation => true,
            BackendFault::TableError => true,
            _ => false,
        }
    }
}

/// The error that ends a run when the proof system reports `fault` in `stage`.
///
/// Any failure of setup or of key generation is a configuration error. A
/// failure of the simulator to run, or of the layout to be rendered, is a
/// synthesis error: both place the witness. While the proof is created, a
/// layout fault is a synthesis error and every other fault a proof generation
/// error. Any failure of the verifier is a verification failure.
pub open spec fn error_for(stage: Stage, fault: BackendFault) -> PipelineError {
    match stage {
        Stage::Setup | Stage::KeyGeneration => PipelineError::Configuration(fault),
        Stage::Simulation | Stage::LayoutRender => PipelineError::Synthesis(
            SynthesisCause::Backend(fault),
        ),
        Stage::Proving => if fault.is_layout_fault() {
            PipelineError::Synthesis(SynthesisCause::Backend(fault))
        } else {
            PipelineError::ProofGeneration(fault)
        },
        Stage::Verification => PipelineError::VerificationFailure(fault),
    }
}

impl PipelineError {
    /// Sorts a fault of the proof system into the taxonomy, by the stage in
    /// which it was reported.
    pub fn from_fault(stage: Stage, fault: BackendFault) -> (e: PipelineError)
        ensures
            e == error_for(stage, fault),
    {
        match stage {
            Stage::Setup | Stage::KeyGeneration => PipelineError::Configuration(fault),
            Stage::Simulation | Stage::LayoutRender => PipelineError::Synthesis(
                SynthesisCause::Backend(fault),
            ),
            Stage::Proving => if fault.layout_fault() {
                PipelineError::Synthesis(SynthesisCause::Backend(fault))
            } else {
                PipelineError::ProofGeneration(fault)
            },
            Stage::Verification => PipelineError::VerificationFailure(fault),
        }
    }
}

/// Makes `halo2_proofs::plonk::Error` known to the verifier, as a type
/// that it does not see into.
#[verifier::external_type_specification]
#[verifier::external_body]
pub struct ExBackendError(Error);

/// Tells the variants of `halo2_proofs::plonk::Error` apart.
///
/// The verifier does not see inside the proof system's error, so nothing is
/// claimed of the result. The body maps each variant to the fault of the same
/// name.
#[verifier::external_body]
pub(crate) fn fault_of(error: &Error) -> (fault: BackendFault) {
    match error {
        Error::Synthesis => BackendFault::Synthesis,
        Error::InvalidInstances => BackendFault::InvalidInstances,
        Error::ConstraintSystemFailure => BackendFault::ConstraintSystemFailure,
        Error::BoundsFailure => BackendFault::BoundsFailure,
        Error::Opening => BackendFault::Opening,
        Error::Transcript(_) => BackendFault::Transcript,
        Error::NotEnoughRowsAvailable { current_k } => BackendFault::NotEnoughRowsAvailable { current_k: *current_k },
        Error::InstanceTooLarge => BackendFault::InstanceTooLarge,
        Error::NotEnoughColumnsForConstants => BackendFault::NotEnoughColumnsForConstants,
        Error::ColumnNotInPermutation(_) => BackendFault::ColumnNotInPermutation,
        Error::TableError(_) => BackendFault::TableError,
        Error::IllegalHashFromPrivatePoint => BackendFault::IllegalHashFromPrivatePoint,
        _ => BackendFault::Unrecognized,
    }
}

} // verus!
