//! The circuit instance: a hash table together with the number of hash steps
//! that the circuit has room for.

use crate::error::PipelineError;
use crate::error::SynthesisCause;
use crate::error::TableFault;
use crate::table::FieldElement;
use crate::table::HashTable;
use crate::table::HashTableRow;
use vstd::prelude::*;

verus! {

/// The number of witness columns that the circuit declares. They hold the
/// permutation state and the hash table together.
pub const WITNESS_COLUMNS: usize = 6;

/// The number of fixed columns that the circuit declares: the one that
/// enables a row.
pub const ENABLE_COLUMNS: usize = 1;

/// What a circuit instance is in contracts: its rows, the expected outputs
/// it carries, and its capacity.
pub ghost struct InstanceView {
    pub rows: Seq<HashTableRow>,
    pub checks: Seq<Option<FieldElement>>,
    pub capacity: nat,
}

impl InstanceView {
    /// Whether the rows fit into the capacity.
    pub open spec fn fits(self) -> bool {
        self.rows.len() <= self.capacity
    }

    /// The instance of the same capacity without any witness.
    pub open spec fn shape_only(self) -> InstanceView {
        InstanceView {
            rows: Seq::<HashTableRow>::empty(),
            checks: Seq::<Option<FieldElement>>::empty(),
            capacity: self.capacity,
        }
    }

    /// Whether the instance carries no witness.
    pub open spec fn is_shape_only(self) -> bool {
        self.rows.len() == 0 && self.checks.len() == 0
    }
}

/// A hash table and the capacity of the circuit that proves it.
///
/// The capacity is fixed apart from the table's length, so that keys derived
/// for one capacity serve every table that fits into it. The table never has
/// more rows than the capacity.
#[derive(Debug)]
pub struct CircuitInstance {
    table: HashTable,
    capacity: usize,
}

impl View for CircuitInstance {
    type V = InstanceView;

    closed spec fn view(&self) -> InstanceView {
        InstanceView {
            rows: self.table@,
            checks: self.table.spec_checks(),
            capacity: self.capacity as nat,
        }
    }
}

impl CircuitInstance {
    /// The table never has more rows than the capacity.
    #[verifier::type_invariant]
    pub open spec fn rows_fit(self) -> bool {
        self@.fits()
    }

    /// The instance that proves `table` in a circuit of `capacity` hash
    /// steps. A table with more rows than that is rejected.
    pub fn new(table: HashTable, capacity: usize) -> (result: Result<CircuitInstance, PipelineError>)
        ensures
            table@.len() <= capacity ==> result.is_ok() && result.unwrap()@ == (InstanceView {
                rows: table@,
                checks: table.spec_checks(),
                capacity: capacity as nat,
            }),
            table@.len() > capacity ==> result == Err::<CircuitInstance, PipelineError>(
                PipelineError::Synthesis(
                    SynthesisCause::Table(
                        (TableFault::CapacityExceeded { rows: table@.len() as usize, capacity }),
                    ),
                ),
            ),
    {
        let rows = table.len();
        if rows > capacity {
            return Err(
                PipelineError::Synthesis(
                    SynthesisCause::Table(TableFault::CapacityExceeded { rows, capacity }),
                ),
            );
        }
        Ok(CircuitInstance { table, capacity })
    }

    /// The instance of `capacity` hash steps without any witness.
    pub fn shape(capacity: usize) -> (instance: CircuitInstance)
        ensures
            instance@.is_shape_only(),
            instance@.capacity == capacity,
    {
        CircuitInstance { table: HashTable::empty(), capacity }
    }

    /// The instance of the same capacity without any witness. The keys are
    /// derived from it, so that they depend on no secret.
    pub fn without_witnesses(&self) -> (instance: CircuitInstance)
        ensures
            instance@ == self@.shape_only(),
    {
        CircuitInstance { table: HashTable::empty(), capacity: self.capacity }
    }

    /// The hash table.
    pub fn table(&self) -> (table: &HashTable)
        ensures
            table@ == self@.rows,
            table.spec_checks() == self@.checks,
    {
        &self.table
    }

    /// The number of hash steps that the circuit has room for.
    pub fn capacity(&self) -> (capacity: usize)
        ensures
            capacity == self@.capacity,
            self@.fits(),
    {
        proof {
            use_type_invariant(self);
        }
        self.capacity
    }

    /// The number of rows of the table, which is at most the capacity.
    pub fn row_count(&self) -> (rows: usize)
        ensures
            rows == self@.rows.len(),
            rows <= self@.capacity,
    {
        proof {
            use_type_invariant(self);
        }
        self.table.len()
    }

    /// Whether the instance carries no witness.
    pub fn is_shape_only(&self) -> (b: bool)
        ensures
            b == self@.is_shape_only(),
    {
        self.table.is_empty() && self.table.checks().len() == 0
    }
}

} // verus!
