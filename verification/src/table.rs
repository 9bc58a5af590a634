//! The table of hash inputs that feeds the circuit.

use crate::error::PipelineError;
use crate::error::SynthesisCause;
use crate::error::TableFault;
use vstd::prelude::*;

verus! {

/// An element of the proof system's scalar field, held as the four 64-bit
/// words of an integer, least significant word first.
///
/// Its view is that integer. The proof system takes it modulo the order of
/// its field.
#[derive(Clone, Copy, Debug, PartialEq, Eq)]
pub struct FieldElement {
    pub limbs: [u64; 4],
}

impl View for FieldElement {
    type V = nat;

    open spec fn view(&self) -> nat {
        (self.limbs[0] + self.limbs[1] * 0x1_0000_0000_0000_0000
            + self.limbs[2] * 0x1_0000_0000_0000_0000_0000_0000_0000_0000
            + self.limbs[3]
            * 0x1_0000_0000_0000_0000_0000_0000_0000_0000_0000_0000_0000_0000) as nat
    }
}

impl FieldElement {
    /// The element that stands for `word`, for use in contracts.
    pub open spec fn of(word: u64) -> FieldElement {
        FieldElement { limbs: [word, 0u64, 0u64, 0u64] }
    }

    /// The element that stands for the integer `word`.
    pub fn from_u64(word: u64) -> (e: FieldElement)
        ensures
            e == FieldElement::of(word),
            e@ == word,
    {
        FieldElement { limbs: [word, 0, 0, 0] }
    }
}

/// One block of hash input: a pair of field elements, and the control code
/// that says how the block continues a longer input.
///
/// A control code of zero marks a block that stands alone.
#[derive(Clone, Copy, Debug, PartialEq, Eq)]
pub struct HashTableRow {
    pub left: FieldElement,
    pub right: FieldElement,
    pub control: u64,
}

impl HashTableRow {
    /// The row with the small integers `left` and `right` as its input pair,
    /// for use in contracts.
    pub open spec fn of(left: u64, right: u64, control: u64) -> HashTableRow {
        HashTableRow { left: FieldElement::of(left), right: FieldElement::of(right), control }
    }

    /// The row with the small integers `left` and `right` as its input pair.
    pub fn from_words(left: u64, right: u64, control: u64) -> (row: HashTableRow)
        ensures
            row == HashTableRow::of(left, right, control),
    {
        HashTableRow {
            left: FieldElement::from_u64(left),
            right: FieldElement::from_u64(right),
            control,
        }
    }

    /// Whether the row stands alone, for use in contracts.
    pub open spec fn is_standalone(self) -> bool {
        self.control == 0
    }

    /// Whether the row stands alone, that is, whether its control code is
    /// zero.
    pub fn standalone(&self) -> (b: bool)
        ensures
            b == self.is_standalone(),
    {
        self.control == 0
    }
}

/// The rows that [`HashTable::sequential`] generates: row `i` holds the pair
/// `(i, i + 1)` and the control code `control`.
pub open spec fn sequential_rows(count: nat, control: u64) -> Seq<HashTableRow> {
    Seq::new(count, |i: int| HashTableRow::of(i as u64, (i + 1) as u64, control))
}

/// The rows made of the input pairs and the control codes at the same
/// positions.
pub open spec fn zipped_rows(inputs: Seq<[FieldElement; 2]>, controls: Seq<u64>) -> Seq<
    HashTableRow,
> {
    Seq::new(
        inputs.len(),
        |i: int| HashTableRow { left: inputs[i][0], right: inputs[i][1], control: controls[i] },
    )
}

/// The hash inputs of one run, in the order in which the circuit assigns
/// them to its rows, and the expected outputs that some runs check against.
///
/// Its view is the sequence of its rows. A table is not changed once it is
/// built.
#[derive(Debug)]
pub struct HashTable {
    rows: Vec<HashTableRow>,
    checks: Vec<Option<FieldElement>>,
}

impl View for HashTable {
    type V = Seq<HashTableRow>;

    closed spec fn view(&self) -> Seq<HashTableRow> {
        self.rows@
    }
}

impl HashTable {
    /// The expected outputs that the table carries; empty unless they were
    /// given.
    pub closed spec fn spec_checks(&self) -> Seq<Option<FieldElement>> {
        self.checks@
    }

    /// The table without rows, which stands for a circuit's shape alone.
    pub fn empty() -> (table: HashTable)
        ensures
            table@ == Seq::<HashTableRow>::empty(),
            table.spec_checks() == Seq::<Option<FieldElement>>::empty(),
    {
        HashTable { rows: Vec::new(), checks: Vec::new() }
    }

    /// The table that holds `rows` in the given order.
    pub fn from_rows(rows: Vec<HashTableRow>) -> (table: HashTable)
        ensures
            table@ == rows@,
            table.spec_checks() == Seq::<Option<FieldElement>>::empty(),
    {
        HashTable { rows, checks: Vec::new() }
    }

    /// The table whose row `i` holds the pair `inputs[i]` and the control
    /// code `controls[i]`.
    ///
    /// The two lists must have the same length; nothing else is checked.
    pub fn from_parts(inputs: Vec<[FieldElement; 2]>, controls: Vec<u64>) -> (result: Result<
        HashTable,
        PipelineError,
    >)
        ensures
            inputs.len() == controls.len() ==> result.is_ok() && result.unwrap()@ == zipped_rows(
                inputs@,
                controls@,
            ) && result.unwrap().spec_checks() == Seq::<Option<FieldElement>>::empty(),
            inputs.len() != controls.len() ==> result == Err::<HashTable, PipelineError>(
                PipelineError::Synthesis(
                    SynthesisCause::Table(
                        (TableFault::ArityMismatch {
                            inputs: inputs.len(),
                            controls: controls.len(),
                        }),
                    ),
                ),
            ),
    {
        if inputs.len() != controls.len() {
            return Err(
                PipelineError::Synthesis(
                    SynthesisCause::Table(
                        TableFault::ArityMismatch {
                            inputs: inputs.len(),
                            controls: controls.len(),
                        },
                    ),
                ),
            );
        }
        let mut rows: Vec<HashTableRow> = Vec::new();
        let mut i: usize = 0;
        while i < inputs.len()
            invariant
                i <= inputs.len(),
                inputs.len() == controls.len(),
                rows@ == zipped_rows(inputs@, controls@).take(i as int),
            decreases inputs.len() - i,
        {
            let pair = inputs[i];
            rows.push(HashTableRow { left: pair[0], right: pair[1], control: controls[i] });
            i = i + 1;
        }
        Ok(HashTable { rows, checks: Vec::new() })
    }

    /// The table of `count` rows in which row `i` holds the pair `(i, i + 1)`
    /// and every row has the control code `control`.
    pub fn sequential(count: usize, control: u64) -> (table: HashTable)
        ensures
            table@ == sequential_rows(count as nat, control),
            table.spec_checks() == Seq::<Option<FieldElement>>::empty(),
    {
        let mut rows: Vec<HashTableRow> = Vec::new();
        let mut i: usize = 0;
        while i < count
            invariant
                i <= count,
                rows@ == sequential_rows(i as nat, control),
            decreases count - i,
        {
            rows.push(HashTableRow::from_words(i as u64, (i + 1) as u64, control));
            i = i + 1;
        }
        HashTable { rows, checks: Vec::new() }
    }

    /// The same rows, with `checks` as the expected outputs.
    pub fn with_checks(self, checks: Vec<Option<FieldElement>>) -> (table: HashTable)
        ensures
            table@ == self@,
            table.spec_checks() == checks@,
    {
        HashTable { rows: self.rows, checks }
    }

    /// The number of rows.
    pub fn len(&self) -> (n: usize)
        ensures
            n == self@.len(),
    {
        self.rows.len()
    }

    /// Whether the table has no rows.
    pub fn is_empty(&self) -> (b: bool)
        ensures
            b == (self@.len() == 0),
    {
        self.rows.len() == 0
    }

    /// The row at position `index`, or `None` past the end.
    pub fn row(&self, index: usize) -> (row: Option<HashTableRow>)
        ensures
            index < self@.len() ==> row == Some(self@[index as int]),
            index >= self@.len() ==> row.is_none(),
    {
        if index < self.rows.len() {
            Some(self.rows[index])
        } else {
            None
        }
    }

    /// The rows, in order.
    pub fn rows(&self) -> (rows: &Vec<HashTableRow>)
        ensures
            rows@ == self@,
    {
        &self.rows
    }

    /// The input pairs of the rows, in order.
    pub fn inputs(&self) -> (inputs: Vec<[FieldElement; 2]>)
        ensures
            inputs.len() == self@.len(),
            forall|i: int|
                0 <= i < self@.len() ==> inputs[i]@ == seq![self@[i].left, self@[i].right],
    {
        let mut inputs: Vec<[FieldElement; 2]> = Vec::new();
        let mut i: usize = 0;
        while i < self.rows.len()
            invariant
                i <= self.rows.len(),
                inputs.len() == i,
                forall|j: int|
                    0 <= j < i ==> inputs[j]@ == seq![self.rows[j].left, self.rows[j].right],
            decreases self.rows.len() - i,
        {
            let row = self.rows[i];
            let pair = [row.left, row.right];
            assert(pair@ =~= seq![row.left, row.right]);
            inputs.push(pair);
            i = i + 1;
        }
        inputs
    }

    /// The control codes of the rows, in order: as many as there are input
    /// pairs.
    pub fn controls(&self) -> (controls: Vec<u64>)
        ensures
            controls.len() == self@.len(),
            forall|i: int| 0 <= i < self@.len() ==> controls[i] == self@[i].control,
    {
        let mut controls: Vec<u64> = Vec::new();
        let mut i: usize = 0;
        while i < self.rows.len()
            invariant
                i <= self.rows.len(),
                controls.len() == i,
                forall|j: int| 0 <= j < i ==> controls[j] == self.rows[j].control,
            decreases self.rows.len() - i,
        {
            controls.push(self.rows[i].control);
            i = i + 1;
        }
        controls
    }

    /// The expected outputs that the table carries.
    pub fn checks(&self) -> (checks: &Vec<Option<FieldElement>>)
        ensures
            checks@ == self.spec_checks(),
    {
        &self.checks
    }
}

impl Default for HashTable {
    /// The table without rows.
    fn default() -> (table: HashTable)
        ensures
            table@ == Seq::<HashTableRow>::empty(),
            table.spec_checks() == Seq::<Option<FieldElement>>::empty(),
    {
        HashTable::empty()
    }
}

} // verus!
