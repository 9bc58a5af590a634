use halo2_proofs::circuit::{Layouter, SimpleFloorPlanner, Value};
use halo2_proofs::dev::MockProver;
use halo2_proofs::plonk::{
    create_proof, keygen_pk, keygen_vk, verify_proof, Advice, Circuit, Column, ConstraintSystem,
    Error, ProvingKey, Selector, SingleVerifier, VerifyingKey,
};
use halo2_proofs::poly::commitment::Params;
use halo2_proofs::poly::Rotation;
use halo2_proofs::transcript::{Blake2bRead, Blake2bWrite, Challenge255};
use halo2curves::bn256::{Fr, G1Affine};
use poseidon_bench::backend::{proof_generator, scalar_inputs};
use poseidon_bench::circuit::CircuitInstance;
use poseidon_bench::config::{Instrumentation, RunConfig, TableSource};
use poseidon_bench::error::{BackendFault, PipelineError, SynthesisCause};
use poseidon_bench::pipeline::{Action, Event, Outcome, Phase, Run};
use poseidon_bench::table::HashTableRow;

/// Stands in for the hash circuit: it has one row for each hash step, and
/// shows in each the pair of a table row and the sum of the pair, offset by
/// `skew`. With a `skew` other than zero no witness satisfies it.
struct SumCircuit {
    inputs: Vec<[Fr; 2]>,
    capacity: usize,
    skew: u64,
}

impl SumCircuit {
    fn of(instance: &CircuitInstance) -> SumCircuit {
        SumCircuit { inputs: scalar_inputs(instance.table()), capacity: instance.capacity(), skew: 0 }
    }
}

impl Circuit<Fr> for SumCircuit {
    type Config = (Selector, [Column<Advice>; 3]);
    type FloorPlanner = SimpleFloorPlanner;

    fn without_witnesses(&self) -> Self {
        SumCircuit::of(&CircuitInstance::shape(self.capacity))
    }

    fn configure(meta: &mut ConstraintSystem<Fr>) -> Self::Config {
        let columns = [0; 3].map(|_| meta.advice_column());
        let enable = meta.selector();
        meta.create_gate("sum", |cells| {
            let enable = cells.query_selector(enable);
            let left = cells.query_advice(columns[0], Rotation::cur());
            let right = cells.query_advice(columns[1], Rotation::cur());
            let sum = cells.query_advice(columns[2], Rotation::cur());
            vec![enable * (left + right - sum)]
        });
        (enable, columns)
    }

    fn synthesize(&self, config: Self::Config, mut layouter: impl Layouter<Fr>) -> Result<(), Error> {
        layouter.assign_region(
            || "steps",
            |mut region| {
                for step in 0..self.capacity {
                    let pair = self.inputs.get(step).copied().unwrap_or([Fr::zero(); 2]);
                    let sum = pair[0] + pair[1] + Fr::from(self.skew);
                    config.0.enable(&mut region, step)?;
                    region.assign_advice(|| "left", config.1[0], step, || Value::known(pair[0]))?;
                    region.assign_advice(|| "right", config.1[1], step, || Value::known(pair[1]))?;
                    region.assign_advice(|| "sum", config.1[2], step, || Value::known(sum))?;
                }
                Ok(())
            },
        )
    }
}

#[derive(Default)]
struct Artifacts {
    parameters: Option<Params<G1Affine>>,
    proving_key: Option<ProvingKey<G1Affine>>,
    skew: u64,
    flip: Option<usize>,
}

fn prove(parameters: &Params<G1Affine>, key: &ProvingKey<G1Affine>, circuit: SumCircuit) -> Result<Vec<u8>, Error> {
    let mut transcript = Blake2bWrite::<_, G1Affine, Challenge255<_>>::init(vec![]);
    create_proof(parameters, key, &[circuit], &[&[]], proof_generator(), &mut transcript)?;
    Ok(transcript.finalize())
}

fn verify(parameters: &Params<G1Affine>, key: &VerifyingKey<G1Affine>, proof: &[u8]) -> Result<(), Error> {
    let mut transcript = Blake2bRead::<_, G1Affine, Challenge255<_>>::init(proof);
    verify_proof(parameters, key, SingleVerifier::new(parameters), &[&[]], &mut transcript)
}

fn perform(action: Action, run: &Run, artifacts: &mut Artifacts) -> Result<Outcome, Error> {
    match action {
        Action::Setup { k } => {
            artifacts.parameters = Some(Params::new(k));
            Ok(Outcome::Completed)
        }
        Action::Simulate { k } => {
            let mut circuit = SumCircuit::of(run.witness());
            circuit.skew = artifacts.skew;
            match MockProver::run(k, &circuit, vec![])?.verify() {
                Ok(()) => Ok(Outcome::Completed),
                Err(failures) => Ok(Outcome::Unsatisfied { failures: failures.len() }),
            }
        }
        Action::RenderLayout => Ok(Outcome::Completed),
        Action::GenerateKeys { .. } => {
            let parameters = artifacts.parameters.as_ref().unwrap();
            let shape = SumCircuit::of(&run.shape());
            let key = keygen_vk(parameters, &shape)?;
            artifacts.proving_key = Some(keygen_pk(parameters, key, &shape)?);
            Ok(Outcome::Completed)
        }
        Action::CreateProof => {
            let parameters = artifacts.parameters.as_ref().unwrap();
            let key = artifacts.proving_key.as_ref().unwrap();
            let mut proof = prove(parameters, key, SumCircuit::of(run.witness()))?;
            if let Some(position) = artifacts.flip {
                let position = position % proof.len();
                proof[position] ^= 0x01;
            }
            Ok(Outcome::ProofCreated(proof))
        }
        Action::VerifyProof => {
            let parameters = artifacts.parameters.as_ref().unwrap();
            let key = artifacts.proving_key.as_ref().unwrap();
            verify(parameters, key.get_vk(), run.transcript())?;
            Ok(Outcome::Completed)
        }
        Action::Finish | Action::Abort(_) => Ok(Outcome::Completed),
    }
}

fn drive(config: &RunConfig, mut artifacts: Artifacts) -> (Vec<Action>, Run, Artifacts) {
    let mut run = Run::new(config).unwrap();
    let mut asked = Vec::new();
    while !run.is_finished() {
        let action = run.action();
        asked.push(action);
        let event = match perform(action, &run, &mut artifacts) {
            Ok(outcome) => Event { outcome, elapsed: 1 },
            Err(error) => Event::failed(&error, 1),
        };
        run = run.step(event).0;
    }
    (asked, run, artifacts)
}

fn small(instrumentation: Instrumentation) -> RunConfig {
    RunConfig {
        security_parameter: 5,
        capacity: 4,
        table_source: TableSource::Literal(vec![
            HashTableRow::from_words(1, 2, 0),
            HashTableRow::from_words(30, 1, 46),
            HashTableRow::from_words(65536, 0, 14),
        ]),
        instrumentation,
    }
}

#[test]
fn run_proves_and_verifies_with_the_proof_system() {
    let (asked, run, _) = drive(&small(Instrumentation::Diagnostics), Artifacts::default());
    assert_eq!(
        asked,
        vec![
            Action::Setup { k: 5 },
            Action::Simulate { k: 5 },
            Action::GenerateKeys { report_statistics: false },
            Action::CreateProof,
            Action::VerifyProof,
        ]
    );
    assert_eq!(run.phase(), Phase::Verified);
    assert_eq!(run.result(), Some(Ok(())));
    assert!(!run.transcript().is_empty());
}

#[test]
fn correctness_check_verifies_with_the_proof_system() {
    let (_, run, _) = drive(&RunConfig::correctness_check(), Artifacts::default());
    assert_eq!(run.result(), Some(Ok(())));
}

#[test]
fn instrumented_demo_verifies_with_the_proof_system() {
    let (asked, run, _) = drive(&RunConfig::instrumented_demo(), Artifacts::default());
    assert_eq!(
        asked,
        vec![
            Action::Setup { k: 11 },
            Action::RenderLayout,
            Action::GenerateKeys { report_statistics: true },
            Action::CreateProof,
            Action::VerifyProof,
        ]
    );
    assert_eq!(run.result(), Some(Ok(())));
}

#[test]
fn generated_row_verifies_with_the_proof_system() {
    let config = RunConfig {
        security_parameter: 5,
        capacity: 2,
        table_source: TableSource::Generated { count: 1, control: 54 },
        instrumentation: Instrumentation::Off,
    };
    let (_, run, _) = drive(&config, Artifacts::default());
    assert_eq!(run.result(), Some(Ok(())));
}

#[test]
fn simulator_passes_for_every_table_within_the_capacity() {
    for count in 0..=4 {
        let config = RunConfig {
            security_parameter: 5,
            capacity: 4,
            table_source: TableSource::Generated { count, control: 13 },
            instrumentation: Instrumentation::Diagnostics,
        };
        let run = Run::new(&config).unwrap();
        let outcome = perform(Action::Simulate { k: 5 }, &run, &mut Artifacts::default()).unwrap();
        assert!(matches!(outcome, Outcome::Completed));
    }
}

#[test]
fn unsatisfied_constraints_stop_the_run_before_the_keys() {
    let artifacts = Artifacts { skew: 1, ..Artifacts::default() };
    let (asked, run, artifacts) = drive(&small(Instrumentation::Diagnostics), artifacts);
    assert_eq!(asked, vec![Action::Setup { k: 5 }, Action::Simulate { k: 5 }]);
    assert_eq!(run.result(), Some(Err(PipelineError::SimulationFailure { failures: 4 })));
    assert!(artifacts.proving_key.is_none());
}

#[test]
fn circuit_too_large_for_its_rows_is_a_configuration_error() {
    let config = RunConfig {
        security_parameter: 3,
        capacity: 40,
        table_source: TableSource::Generated { count: 1, control: 0 },
        instrumentation: Instrumentation::Off,
    };
    let (asked, run, _) = drive(&config, Artifacts::default());
    assert_eq!(asked, vec![Action::Setup { k: 3 }, Action::GenerateKeys { report_statistics: false }]);
    assert_eq!(
        run.result(),
        Some(Err(PipelineError::Configuration(BackendFault::NotEnoughRowsAvailable {
            current_k: 3
        })))
    );
}

#[test]
fn simulator_that_finds_no_room_is_a_synthesis_error() {
    let config = RunConfig {
        security_parameter: 3,
        capacity: 40,
        table_source: TableSource::Generated { count: 1, control: 0 },
        instrumentation: Instrumentation::Diagnostics,
    };
    let (_, run, _) = drive(&config, Artifacts::default());
    assert_eq!(
        run.result(),
        Some(Err(PipelineError::Synthesis(SynthesisCause::Backend(
            BackendFault::NotEnoughRowsAvailable { current_k: 3 }
        ))))
    );
}

#[test]
fn proofs_of_one_instance_are_byte_identical() {
    let (_, first, _) = drive(&small(Instrumentation::Off), Artifacts::default());
    let (_, second, _) = drive(&small(Instrumentation::Off), Artifacts::default());
    assert_eq!(first.result(), Some(Ok(())));
    assert_eq!(first.transcript(), second.transcript());
}

#[test]
fn proof_with_a_flipped_byte_is_rejected() {
    let (_, intact, _) = drive(&small(Instrumentation::Off), Artifacts::default());
    let length = intact.transcript().len();
    for position in [0, 1, length / 3, length / 2, length - 2, length - 1] {
        let artifacts = Artifacts { flip: Some(position), ..Artifacts::default() };
        let (_, run, _) = drive(&small(Instrumentation::Off), artifacts);
        assert_ne!(run.transcript(), intact.transcript());
        assert!(
            matches!(run.result(), Some(Err(PipelineError::VerificationFailure(_)))),
            "byte {} of {}: {:?}",
            position,
            length,
            run.result()
        );
    }
}

#[test]
fn independently_generated_keys_are_interchangeable() {
    let (_, run, artifacts) = drive(&small(Instrumentation::Off), Artifacts::default());
    let parameters = artifacts.parameters.as_ref().unwrap();
    let embedded = artifacts.proving_key.as_ref().unwrap().get_vk();
    let fresh = keygen_vk(parameters, &SumCircuit::of(&run.shape())).unwrap();
    assert!(verify(parameters, embedded, run.transcript()).is_ok());
    assert!(verify(parameters, &fresh, run.transcript()).is_ok());
    assert_eq!(format!("{:?}", fresh.pinned()), format!("{:?}", embedded.pinned()));
}

#[test]
fn keys_depend_on_the_capacity_alone() {
    let run = Run::new(&small(Instrumentation::Off)).unwrap();
    let parameters = Params::<G1Affine>::new(5);
    let from_shape = keygen_vk(&parameters, &SumCircuit::of(&run.shape())).unwrap();
    let from_witness = keygen_vk(&parameters, &SumCircuit::of(run.witness())).unwrap();
    let from_capacity = keygen_vk(&parameters, &SumCircuit::of(&CircuitInstance::shape(4))).unwrap();
    let other_capacity = keygen_vk(&parameters, &SumCircuit::of(&CircuitInstance::shape(5))).unwrap();
    assert_eq!(format!("{:?}", from_shape.pinned()), format!("{:?}", from_witness.pinned()));
    assert_eq!(format!("{:?}", from_shape.pinned()), format!("{:?}", from_capacity.pinned()));
    assert_ne!(format!("{:?}", from_shape.pinned()), format!("{:?}", other_capacity.pinned()));
}

#[test]
fn keys_of_one_capacity_serve_every_table_that_fits() {
    let (_, _, artifacts) = drive(&small(Instrumentation::Off), Artifacts::default());
    let parameters = artifacts.parameters.as_ref().unwrap();
    let key = artifacts.proving_key.as_ref().unwrap();
    for count in 0..=4 {
        let config = RunConfig {
            security_parameter: 5,
            capacity: 4,
            table_source: TableSource::Generated { count, control: 13 },
            instrumentation: Instrumentation::Off,
        };
        let instance = config.build_instance().unwrap();
        let proof = prove(parameters, key, SumCircuit::of(&instance)).unwrap();
        assert!(verify(parameters, key.get_vk(), &proof).is_ok());
    }
}
