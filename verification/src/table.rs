//! The witness half of the system: an arena of cells indexed by column and
//! row, the selector activations, and the recorded constraint edges.

use vstd::prelude::*;

use crate::field::FieldValue;
use crate::field::fe;
use crate::system::Column;
use crate::system::ColumnKind;

verus! {

/// A witness value: absent during a configuration-only pass, known during a
/// full witness pass.
#[derive(Clone, Copy, Debug, PartialEq, Eq, Structural)]
pub enum Witness {
    Unknown,
    Known(FieldValue),
}

impl Witness {
    /// A known value is canonical.
    pub open spec fn wf(self) -> bool {
        match self {
            Witness::Unknown => true,
            Witness::Known(v) => v.wf(),
        }
    }

    /// The sum of two witness values; unknown as soon as either side is.
    pub open spec fn spec_add(self, rhs: Self) -> Witness {
        match (self, rhs) {
            (Witness::Known(a), Witness::Known(b)) => Witness::Known(fe(a.val() + b.val())),
            _ => Witness::Unknown,
        }
    }

    /// Adds two witness values.
    pub fn add(self, rhs: Self) -> (r: Self)
        requires
            self.wf(),
            rhs.wf(),
        ensures
            r == self.spec_add(rhs),
            r.wf(),
    {
        match (self, rhs) {
            (Witness::Known(a), Witness::Known(b)) => Witness::Known(a.add(b)),
            _ => Witness::Unknown,
        }
    }
}

/// The intersection of a column and an absolute row; holds one value once
/// assigned.
#[derive(Clone, Copy, Debug, PartialEq, Eq, Structural)]
pub struct Cell {
    pub column: Column,
    pub row: usize,
}

/// A handle to one assigned cell together with its witness value; it threads
/// values from the region that produced them to the regions that consume
/// them through copy constraints.
#[derive(Clone, Copy, Debug, PartialEq, Eq, Structural)]
pub struct AssignedValue {
    pub cell: Cell,
    pub value: Witness,
}

/// The mathematical image of an assignment: one sequence per part.
#[verifier::ext_equal]
pub struct TableView {
    /// The first advice column; `None` marks a never-assigned cell.
    pub col_a: Seq<Option<Witness>>,
    /// The second advice column.
    pub col_b: Seq<Option<Witness>>,
    /// The activated (selector index, row) pairs.
    pub enabled: Seq<(usize, usize)>,
    /// The copy-constraint edges between cells.
    pub copies: Seq<(Cell, Cell)>,
    /// The cells bound to publicly known fixed values.
    pub constants: Seq<(Cell, FieldValue)>,
    /// The copy edges from cells into rows of the instance column.
    pub instance_edges: Seq<(Cell, usize)>,
    /// The declared length of the public-input vector.
    pub num_public: int,
}

impl TableView {
    pub open spec fn height(self) -> int {
        self.col_a.len() as int
    }

    /// The stored value of a cell; `None` where the arena has no entry.
    /// Instance cells store nothing: their values are the public inputs.
    pub open spec fn cell_value(self, column: Column, row: int) -> Option<Witness> {
        if column.kind == ColumnKind::Advice && column.index == 0 && 0 <= row
            && row < self.col_a.len() {
            self.col_a[row]
        } else if column.kind == ColumnKind::Advice && column.index == 1 && 0 <= row
            && row < self.col_b.len() {
            self.col_b[row]
        } else {
            None
        }
    }

    /// Both advice columns have the same height, every stored value is
    /// canonical, and every instance edge stays inside the declared
    /// public-input vector.
    pub open spec fn wf(self) -> bool {
        &&& self.col_a.len() == self.col_b.len()
        &&& forall|r: int| 0 <= r < self.col_a.len() ==> cell_wf(#[trigger] self.col_a[r])
        &&& forall|r: int| 0 <= r < self.col_b.len() ==> cell_wf(#[trigger] self.col_b[r])
        &&& forall|j: int| 0 <= j < self.constants.len() ==> (#[trigger] self.constants[j]).1.wf()
        &&& forall|j: int| 0 <= j < self.instance_edges.len()
            ==> (#[trigger] self.instance_edges[j]).1 < self.num_public
    }
}

/// An unassigned or canonically assigned cell.
pub open spec fn cell_wf(c: Option<Witness>) -> bool {
    match c {
        Some(w) => w.wf(),
        None => true,
    }
}

/// One circuit instance's arena: the two advice columns, the selector
/// activations, and the edge lists that record copy constraints, constant
/// bindings and public-input bindings.  Copy constraints are edges held
/// apart from the cells themselves, so checking them is a plain walk over
/// the edge list.
pub struct Assignment {
    pub col_a: Vec<Option<Witness>>,
    pub col_b: Vec<Option<Witness>>,
    pub enabled: Vec<(usize, usize)>,
    pub copies: Vec<(Cell, Cell)>,
    pub constants: Vec<(Cell, FieldValue)>,
    pub instance_edges: Vec<(Cell, usize)>,
    pub num_public: usize,
}

impl View for Assignment {
    type V = TableView;

    open spec fn view(&self) -> TableView {
        TableView {
            col_a: self.col_a@,
            col_b: self.col_b@,
            enabled: self.enabled@,
            copies: self.copies@,
            constants: self.constants@,
            instance_edges: self.instance_edges@,
            num_public: self.num_public as int,
        }
    }
}

impl Assignment {
    /// A fresh, empty arena with `num_public` declared public-input rows.
    pub fn new(num_public: usize) -> (r: Self)
        ensures
            r@.col_a == Seq::<Option<Witness>>::empty(),
            r@.col_b == Seq::<Option<Witness>>::empty(),
            r@.enabled == Seq::<(usize, usize)>::empty(),
            r@.copies == Seq::<(Cell, Cell)>::empty(),
            r@.constants == Seq::<(Cell, FieldValue)>::empty(),
            r@.instance_edges == Seq::<(Cell, usize)>::empty(),
            r@.num_public == num_public as int,
            r@.wf(),
    {
        Assignment {
            col_a: Vec::new(),
            col_b: Vec::new(),
            enabled: Vec::new(),
            copies: Vec::new(),
            constants: Vec::new(),
            instance_edges: Vec::new(),
            num_public,
        }
    }

    /// Overwrites one advice cell in place.  This models an adversarial edit
    /// of a finished witness; honest synthesis assigns every cell exactly
    /// once and never calls this.
    pub fn replace_advice(&mut self, column_index: usize, row: usize, value: FieldValue)
        requires
            column_index < 2,
            row < old(self)@.height(),
            old(self)@.wf(),
            value.wf(),
        ensures
            column_index == 0 ==> final(self)@ == (TableView {
                col_a: old(self)@.col_a.update(row as int, Some(Witness::Known(value))),
                ..old(self)@
            }),
            column_index == 1 ==> final(self)@ == (TableView {
                col_b: old(self)@.col_b.update(row as int, Some(Witness::Known(value))),
                ..old(self)@
            }),
            final(self)@.wf(),
    {
        if column_index == 0 {
            self.col_a.set(row, Some(Witness::Known(value)));
        } else {
            self.col_b.set(row, Some(Witness::Known(value)));
        }
    }
}

} // verus!
