//! The configuration of a run, and the three configurations that the
//! benchmark knows.

use crate::circuit::CircuitInstance;
use crate::circuit::InstanceView;
use crate::error::PipelineError;
use crate::error::SynthesisCause;
use crate::error::TableFault;
use crate::table::sequential_rows;
use crate::table::FieldElement;
use crate::table::HashTable;
use crate::table::HashTableRow;
use vstd::prelude::*;

verus! {

/// Where the rows of a run's hash table come from.
#[derive(Debug)]
pub enum TableSource {
    /// The rows are given one by one.
    Literal(Vec<HashTableRow>),
    /// Row `i` of `count` rows holds the pair `(i, i + 1)`, and every row has
    /// the control code `control`.
    Generated { count: usize, control: u64 },
}

impl TableSource {
    /// The rows that the source stands for.
    pub open spec fn rows(self) -> Seq<HashTableRow> {
        match self {
            TableSource::Literal(rows) => rows@,
            TableSource::Generated { count, control } => sequential_rows(count as nat, control),
        }
    }
}

/// What a run does besides proving and verifying.
#[derive(Clone, Copy, Debug, PartialEq, Eq, Structural)]
pub enum Instrumentation {
    /// Nothing.
    Off,
    /// Before the keys are generated, the constraint simulator checks the
    /// witness against the constraint system.
    Diagnostics,
    /// Before the keys are generated, the circuit's layout is rendered to an
    /// image; with the keys, the statistics of the constraint system are
    /// reported.
    LayoutRender,
}

/// The configuration of one run.
#[derive(Debug)]
pub struct RunConfig {
    /// The exponent `k` of the circuit's row count `2^k`.
    pub security_parameter: u32,
    /// The number of hash steps that the circuit has room for.
    pub capacity: usize,
    /// Where the rows of the hash table come from.
    pub table_source: TableSource,
    /// What the run does besides proving and verifying.
    pub instrumentation: Instrumentation,
}

/// The rows of the correctness check.
pub open spec fn correctness_rows() -> Seq<HashTableRow> {
    seq![
        HashTableRow::of(1, 2, 0),
        HashTableRow::of(30, 1, 46),
        HashTableRow::of(65536, 0, 14),
    ]
}

impl RunConfig {
    /// The small run that checks correctness: three given rows in a circuit
    /// of four hash steps and `2^8` rows, with the simulator's check.
    pub fn correctness_check() -> (config: RunConfig)
        ensures
            config.security_parameter == 8,
            config.capacity == 4,
            config.table_source is Literal,
            config.table_source.rows() == correctness_rows(),
            config.instrumentation == Instrumentation::Diagnostics,
    {
        let mut rows: Vec<HashTableRow> = Vec::new();
        rows.push(HashTableRow::from_words(1, 2, 0));
        rows.push(HashTableRow::from_words(30, 1, 46));
        rows.push(HashTableRow::from_words(65536, 0, 14));
        RunConfig {
            security_parameter: 8,
            capacity: 4,
            table_source: TableSource::Literal(rows),
            instrumentation: Instrumentation::Diagnostics,
        }
    }

    /// The instrumented demonstration: one generated row with the control
    /// code 54 in a circuit of two hash steps and `2^11` rows, with the
    /// layout image and the statistics.
    pub fn instrumented_demo() -> (config: RunConfig)
        ensures
            config.security_parameter == 11,
            config.capacity == 2,
            config.table_source == (TableSource::Generated { count: 1, control: 54 }),
            config.instrumentation == Instrumentation::LayoutRender,
    {
        RunConfig {
            security_parameter: 11,
            capacity: 2,
            table_source: TableSource::Generated { count: 1, control: 54 },
            instrumentation: Instrumentation::LayoutRender,
        }
    }

    /// The stress benchmark: 143,360 generated rows with the control code 13
    /// in a circuit of 143,361 hash steps and `2^22` rows.
    pub fn stress_benchmark() -> (config: RunConfig)
        ensures
            config.security_parameter == 22,
            config.capacity == 143_361,
            config.table_source == (TableSource::Generated { count: 143_360, control: 13 }),
            config.instrumentation == Instrumentation::Off,
    {
        RunConfig {
            security_parameter: 22,
            capacity: 143_361,
            table_source: TableSource::Generated { count: 143_360, control: 13 },
            instrumentation: Instrumentation::Off,
        }
    }

    /// The instance that the configuration describes, as contracts see it.
    pub open spec fn instance(self) -> InstanceView {
        InstanceView {
            rows: self.table_source.rows(),
            checks: Seq::<Option<FieldElement>>::empty(),
            capacity: self.capacity as nat,
        }
    }

    /// Builds the hash table from its source.
    pub fn build_table(&self) -> (table: HashTable)
        ensures
            table@ == self.table_source.rows(),
            table.spec_checks() == Seq::<Option<FieldElement>>::empty(),
    {
        match &self.table_source {
            TableSource::Literal(given) => {
                let mut rows: Vec<HashTableRow> = Vec::new();
                let mut i: usize = 0;
                while i < given.len()
                    invariant
                        i <= given.len(),
                        rows@ == given@.take(i as int),
                    decreases given.len() - i,
                {
                    rows.push(given[i]);
                    i = i + 1;
                }
                HashTable::from_rows(rows)
            },
            TableSource::Generated { count, control } => HashTable::sequential(*count, *control),
        }
    }

    /// Builds the circuit instance: the hash table from its source, in a
    /// circuit of the configured capacity. A table with more rows than the
    /// capacity is rejected.
    pub fn build_instance(&self) -> (result: Result<CircuitInstance, PipelineError>)
        ensures
            self.instance().fits() ==> result.is_ok() && result.unwrap()@ == self.instance(),
            !self.instance().fits() ==> result == Err::<CircuitInstance, PipelineError>(
                PipelineError::Synthesis(
                    SynthesisCause::Table(
                        (TableFault::CapacityExceeded {
                            rows: self.table_source.rows().len() as usize,
                            capacity: self.capacity,
                        }),
                    ),
                ),
            ),
    {
        CircuitInstance::new(self.build_table(), self.capacity)
    }
}

} // verus!
