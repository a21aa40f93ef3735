//! The verifier: checks a finished assignment against the registered gates,
//! the recorded copy and constant constraints, and the supplied public
//! inputs.  All predicates are independent; the check walks them in a fixed
//! order — gates, copies, constants, instance bindings — and reports the
//! first violation it meets.

use vstd::prelude::*;

use crate::field::FieldValue;
use crate::field::MODULUS;
use crate::system::Column;
use crate::system::ConstraintSystem;
use crate::system::GateDefinition;
use crate::system::Rotation;
use crate::table::Assignment;
use crate::table::Cell;
use crate::table::TableView;
use crate::table::Witness;

verus! {

/// Why a circuit instance was rejected.
#[derive(Clone, Copy, Debug, PartialEq, Eq, Structural)]
pub enum VerifyError {
    /// A cell a gate or constraint needs was never assigned a known value.
    Underconstrained { column: Column, row: usize },
    /// A gate polynomial is not the additive identity at an activated row.
    GateUnsatisfied { row: usize },
    /// The two cells of a copy constraint disagree.
    CopyMismatch { index: usize },
    /// A cell bound to a fixed constant disagrees with it.
    ConstantMismatch { index: usize },
    /// An instance binding disagrees with the supplied public input.
    PublicInputMismatch { row: usize },
}

/// The absolute row a query reads, relative to an activated row.
pub open spec fn query_row(row: int, rotation: Rotation) -> int {
    match rotation {
        Rotation::Cur => row,
        Rotation::Next => row + 1,
    }
}

/// The known value of an arena entry, if any.
pub open spec fn known_value(c: Option<Witness>) -> Option<FieldValue> {
    match c {
        Some(Witness::Known(v)) => Some(v),
        _ => None,
    }
}

/// The violation, if any, of one gate at one activated row: every queried
/// cell must hold a known value, and the first two must sum to the third.
pub open spec fn gate_violation(t: TableView, g: GateDefinition, row: usize) -> Option<
    VerifyError,
> {
    match known_value(t.cell_value(g.a.column, query_row(row as int, g.a.rotation))) {
        None => Some(VerifyError::Underconstrained { column: g.a.column, row }),
        Some(va) => match known_value(
            t.cell_value(g.b.column, query_row(row as int, g.b.rotation)),
        ) {
            None => Some(VerifyError::Underconstrained { column: g.b.column, row }),
            Some(vb) => match known_value(
                t.cell_value(g.c.column, query_row(row as int, g.c.rotation)),
            ) {
                None => Some(VerifyError::Underconstrained { column: g.c.column, row }),
                Some(vc) => if (va.val() + vb.val()) % (MODULUS as int) != vc.val() {
                    Some(VerifyError::GateUnsatisfied { row })
                } else {
                    None
                },
            },
        },
    }
}

/// A gate's violation at an activated entry; a gate another selector
/// controls is not checked there.
pub open spec fn gate_entry_violation(
    t: TableView,
    g: GateDefinition,
    e: (usize, usize),
) -> Option<VerifyError> {
    if g.selector.index == e.0 {
        gate_violation(t, g, e.1)
    } else {
        None
    }
}

/// The first gate violation at entry `e`, over the gates from index `j` on.
pub open spec fn first_gate_violation_at(
    t: TableView,
    gates: Seq<GateDefinition>,
    e: (usize, usize),
    j: int,
) -> Option<VerifyError>
    decreases gates.len() - j,
{
    if j < 0 || j >= gates.len() {
        None
    } else {
        let v = gate_entry_violation(t, gates[j], e);
        if v is Some {
            v
        } else {
            first_gate_violation_at(t, gates, e, j + 1)
        }
    }
}

/// The first gate violation over the activated entries from index `i` on.
pub open spec fn first_gate_phase(t: TableView, gates: Seq<GateDefinition>, i: int) -> Option<
    VerifyError,
>
    decreases t.enabled.len() - i,
{
    if i < 0 || i >= t.enabled.len() {
        None
    } else {
        let v = first_gate_violation_at(t, gates, t.enabled[i], 0);
        if v is Some {
            v
        } else {
            first_gate_phase(t, gates, i + 1)
        }
    }
}

/// The violation, if any, of one copy edge: both cells must hold known
/// values and the values must agree.
pub open spec fn copy_violation(t: TableView, edge: (Cell, Cell), index: usize) -> Option<
    VerifyError,
> {
    match known_value(t.cell_value(edge.0.column, edge.0.row as int)) {
        None => Some(VerifyError::Underconstrained { column: edge.0.column, row: edge.0.row }),
        Some(va) => match known_value(t.cell_value(edge.1.column, edge.1.row as int)) {
            None => Some(VerifyError::Underconstrained {
                column: edge.1.column,
                row: edge.1.row,
            }),
            Some(vb) => if va != vb {
                Some(VerifyError::CopyMismatch { index })
            } else {
                None
            },
        },
    }
}

/// The first copy violation over the edges from index `i` on.
pub open spec fn first_copy_phase(t: TableView, i: int) -> Option<VerifyError>
    decreases t.copies.len() - i,
{
    if i < 0 || i >= t.copies.len() {
        None
    } else {
        let v = copy_violation(t, t.copies[i], i as usize);
        if v is Some {
            v
        } else {
            first_copy_phase(t, i + 1)
        }
    }
}

/// The violation, if any, of one constant binding.
pub open spec fn constant_violation(t: TableView, entry: (Cell, FieldValue), index: usize) -> Option<
    VerifyError,
> {
    match known_value(t.cell_value(entry.0.column, entry.0.row as int)) {
        None => Some(VerifyError::Underconstrained { column: entry.0.column, row: entry.0.row }),
        Some(v) => if v != entry.1 {
            Some(VerifyError::ConstantMismatch { index })
        } else {
            None
        },
    }
}

/// The first constant violation over the bindings from index `i` on.
pub open spec fn first_constant_phase(t: TableView, i: int) -> Option<VerifyError>
    decreases t.constants.len() - i,
{
    if i < 0 || i >= t.constants.len() {
        None
    } else {
        let v = constant_violation(t, t.constants[i], i as usize);
        if v is Some {
            v
        } else {
            first_constant_phase(t, i + 1)
        }
    }
}

/// The violation, if any, of one instance binding: the bound cell must hold
/// a known value equal to the public input at the bound row.
pub open spec fn instance_violation(
    t: TableView,
    publics: Seq<FieldValue>,
    entry: (Cell, usize),
) -> Option<VerifyError> {
    if entry.1 >= publics.len() {
        Some(VerifyError::PublicInputMismatch { row: entry.1 })
    } else {
        match known_value(t.cell_value(entry.0.column, entry.0.row as int)) {
            None => Some(VerifyError::Underconstrained {
                column: entry.0.column,
                row: entry.0.row,
            }),
            Some(v) => if v != publics[entry.1 as int] {
                Some(VerifyError::PublicInputMismatch { row: entry.1 })
            } else {
                None
            },
        }
    }
}

/// The first instance violation over the bindings from index `i` on.
pub open spec fn first_instance_phase(t: TableView, publics: Seq<FieldValue>, i: int) -> Option<
    VerifyError,
>
    decreases t.instance_edges.len() - i,
{
    if i < 0 || i >= t.instance_edges.len() {
        None
    } else {
        let v = instance_violation(t, publics, t.instance_edges[i]);
        if v is Some {
            v
        } else {
            first_instance_phase(t, publics, i + 1)
        }
    }
}

/// The first violation of the whole instance, in checking order: gates at
/// activated rows, copy edges, constant bindings, instance bindings.
pub open spec fn first_violation(
    gates: Seq<GateDefinition>,
    t: TableView,
    publics: Seq<FieldValue>,
) -> Option<VerifyError> {
    let g = first_gate_phase(t, gates, 0);
    if g is Some {
        g
    } else {
        let c = first_copy_phase(t, 0);
        if c is Some {
            c
        } else {
            let k = first_constant_phase(t, 0);
            if k is Some {
                k
            } else {
                first_instance_phase(t, publics, 0)
            }
        }
    }
}

/// A circuit instance is accepted when no predicate is violated.
pub open spec fn accepts(
    gates: Seq<GateDefinition>,
    t: TableView,
    publics: Seq<FieldValue>,
) -> bool {
    first_violation(gates, t, publics) is None
}

impl Assignment {
    /// Reads the cell a gate query names, relative to an activated row.
    fn cell_get(&self, column: Column, row: usize, rotation: Rotation) -> (r: Option<Witness>)
        ensures
            r == self@.cell_value(column, query_row(row as int, rotation)),
            self@.wf() && r is Some ==> r->0.wf(),
    {
        let target = match rotation {
            Rotation::Cur => row,
            Rotation::Next => {
                if row < usize::MAX {
                    row + 1
                } else {
                    // The row past this one cannot exist: even a full column
                    // is no taller than the machine allows.
                    let height_a = self.col_a.len();
                    let height_b = self.col_b.len();
                    proof {
                        assert(self@.col_a.len() == height_a as int);
                        assert(self@.col_b.len() == height_b as int);
                    }
                    return None;
                }
            }
        };
        match column.kind {
            crate::system::ColumnKind::Advice => {
                if column.index == 0 && target < self.col_a.len() {
                    self.col_a[target]
                } else if column.index == 1 && target < self.col_b.len() {
                    self.col_b[target]
                } else {
                    None
                }
            }
            crate::system::ColumnKind::Instance => None,
        }
    }

    /// Checks one gate at one activated row.
    fn check_gate(&self, g: &GateDefinition, row: usize) -> (r: Option<VerifyError>)
        requires
            self@.wf(),
        ensures
            r == gate_violation(self@, *g, row),
    {
        let va = match self.cell_get(g.a.column, row, g.a.rotation) {
            Some(Witness::Known(v)) => v,
            _ => {
                return Some(VerifyError::Underconstrained { column: g.a.column, row });
            }
        };
        let vb = match self.cell_get(g.b.column, row, g.b.rotation) {
            Some(Witness::Known(v)) => v,
            _ => {
                return Some(VerifyError::Underconstrained { column: g.b.column, row });
            }
        };
        let vc = match self.cell_get(g.c.column, row, g.c.rotation) {
            Some(Witness::Known(v)) => v,
            _ => {
                return Some(VerifyError::Underconstrained { column: g.c.column, row });
            }
        };
        let sum = va.add(vb);
        if sum == vc {
            None
        } else {
            Some(VerifyError::GateUnsatisfied { row })
        }
    }

    /// Checks every registered gate at one activated entry.
    fn check_gates_at(&self, cs: &ConstraintSystem, e: (usize, usize)) -> (r: Option<VerifyError>)
        requires
            self@.wf(),
        ensures
            r == first_gate_violation_at(self@, cs.gates@, e, 0),
    {
        let mut j: usize = 0;
        while j < cs.gates.len()
            invariant
                self@.wf(),
                j <= cs.gates@.len(),
                first_gate_violation_at(self@, cs.gates@, e, 0) == first_gate_violation_at(
                    self@,
                    cs.gates@,
                    e,
                    j as int,
                ),
            decreases cs.gates@.len() - j,
        {
            let g = &cs.gates[j];
            if g.selector.index == e.0 {
                match self.check_gate(g, e.1) {
                    Some(v) => {
                        return Some(v);
                    }
                    None => {}
                }
            }
            j = j + 1;
        }
        None
    }

    /// Predicate 1: every activated gate holds.
    fn gate_phase(&self, cs: &ConstraintSystem) -> (r: Option<VerifyError>)
        requires
            self@.wf(),
        ensures
            r == first_gate_phase(self@, cs.gates@, 0),
    {
        let mut i: usize = 0;
        while i < self.enabled.len()
            invariant
                self@.wf(),
                i <= self@.enabled.len(),
                first_gate_phase(self@, cs.gates@, 0) == first_gate_phase(
                    self@,
                    cs.gates@,
                    i as int,
                ),
            decreases self@.enabled.len() - i,
        {
            let e = self.enabled[i];
            match self.check_gates_at(cs, e) {
                Some(v) => {
                    return Some(v);
                }
                None => {}
            }
            i = i + 1;
        }
        None
    }

    /// Predicate 2: every copy edge joins two equal known values.
    fn copy_phase(&self) -> (r: Option<VerifyError>)
        ensures
            r == first_copy_phase(self@, 0),
    {
        let mut i: usize = 0;
        while i < self.copies.len()
            invariant
                i <= self@.copies.len(),
                first_copy_phase(self@, 0) == first_copy_phase(self@, i as int),
            decreases self@.copies.len() - i,
        {
            let edge = self.copies[i];
            let va = match self.cell_get(edge.0.column, edge.0.row, Rotation::Cur) {
                Some(Witness::Known(v)) => v,
                _ => {
                    return Some(VerifyError::Underconstrained {
                        column: edge.0.column,
                        row: edge.0.row,
                    });
                }
            };
            let vb = match self.cell_get(edge.1.column, edge.1.row, Rotation::Cur) {
                Some(Witness::Known(v)) => v,
                _ => {
                    return Some(VerifyError::Underconstrained {
                        column: edge.1.column,
                        row: edge.1.row,
                    });
                }
            };
            if va != vb {
                return Some(VerifyError::CopyMismatch { index: i });
            }
            i = i + 1;
        }
        None
    }

    /// Checks the constant bindings recorded by constant loads.
    fn constant_phase(&self) -> (r: Option<VerifyError>)
        ensures
            r == first_constant_phase(self@, 0),
    {
        let mut i: usize = 0;
        while i < self.constants.len()
            invariant
                i <= self@.constants.len(),
                first_constant_phase(self@, 0) == first_constant_phase(self@, i as int),
            decreases self@.constants.len() - i,
        {
            let entry = self.constants[i];
            let v = match self.cell_get(entry.0.column, entry.0.row, Rotation::Cur) {
                Some(Witness::Known(v)) => v,
                _ => {
                    return Some(VerifyError::Underconstrained {
                        column: entry.0.column,
                        row: entry.0.row,
                    });
                }
            };
            if v != entry.1 {
                return Some(VerifyError::ConstantMismatch { index: i });
            }
            i = i + 1;
        }
        None
    }

    /// Predicate 3: every instance binding matches the public input.
    fn instance_phase(&self, publics: &Vec<FieldValue>) -> (r: Option<VerifyError>)
        ensures
            r == first_instance_phase(self@, publics@, 0),
    {
        let mut i: usize = 0;
        while i < self.instance_edges.len()
            invariant
                i <= self@.instance_edges.len(),
                first_instance_phase(self@, publics@, 0) == first_instance_phase(
                    self@,
                    publics@,
                    i as int,
                ),
            decreases self@.instance_edges.len() - i,
        {
            let entry = self.instance_edges[i];
            if entry.1 >= publics.len() {
                return Some(VerifyError::PublicInputMismatch { row: entry.1 });
            }
            let v = match self.cell_get(entry.0.column, entry.0.row, Rotation::Cur) {
                Some(Witness::Known(v)) => v,
                _ => {
                    return Some(VerifyError::Underconstrained {
                        column: entry.0.column,
                        row: entry.0.row,
                    });
                }
            };
            if v != publics[entry.1] {
                return Some(VerifyError::PublicInputMismatch { row: entry.1 });
            }
            i = i + 1;
        }
        None
    }
}

/// Checks a finished assignment: every activated gate, every copy edge,
/// every constant binding, every instance binding, in that order; reports
/// the first violated predicate, with its location.
pub fn verify(cs: &ConstraintSystem, table: &Assignment, publics: &Vec<FieldValue>) -> (r: Result<
    (),
    VerifyError,
>)
    requires
        table@.wf(),
    ensures
        r == (match first_violation(cs.gates@, table@, publics@) {
            None => Ok::<(), VerifyError>(()),
            Some(v) => Err::<(), VerifyError>(v),
        }),
        r is Ok <==> accepts(cs.gates@, table@, publics@),
{
    match table.gate_phase(cs) {
        Some(v) => {
            return Err(v);
        }
        None => {}
    }
    match table.copy_phase() {
        Some(v) => {
            return Err(v);
        }
        None => {}
    }
    match table.constant_phase() {
        Some(v) => {
            return Err(v);
        }
        None => {}
    }
    match table.instance_phase(publics) {
        Some(v) => {
            return Err(v);
        }
        None => {}
    }
    Ok(())
}

/// Gate checking passes exactly when no gate is violated at any activated
/// entry past `i`.
pub proof fn lemma_gate_phase_none(t: TableView, gates: Seq<GateDefinition>, i: int)
    requires
        0 <= i,
    ensures
        first_gate_phase(t, gates, i) is None <==> (forall|x: int|
            i <= x < t.enabled.len() ==> first_gate_violation_at(
                t,
                gates,
                #[trigger] t.enabled[x],
                0,
            ) is None),
    decreases t.enabled.len() - i,
{
    if 0 <= i < t.enabled.len() {
        lemma_gate_phase_none(t, gates, i + 1);
    }
}

/// A row's gate check passes exactly when no single gate is violated there
/// past `j`.
pub proof fn lemma_gate_row_none(
    t: TableView,
    gates: Seq<GateDefinition>,
    e: (usize, usize),
    j: int,
)
    requires
        0 <= j,
    ensures
        first_gate_violation_at(t, gates, e, j) is None <==> (forall|x: int|
            j <= x < gates.len() ==> gate_entry_violation(t, #[trigger] gates[x], e) is None),
    decreases gates.len() - j,
{
    if 0 <= j < gates.len() {
        lemma_gate_row_none(t, gates, e, j + 1);
    }
}

/// The copy phase passes exactly when no edge past `i` is violated.
pub proof fn lemma_copy_phase_none(t: TableView, i: int)
    requires
        0 <= i,
    ensures
        first_copy_phase(t, i) is None <==> (forall|x: int|
            i <= x < t.copies.len() ==> copy_violation(
                t,
                #[trigger] t.copies[x],
                x as usize,
            ) is None),
    decreases t.copies.len() - i,
{
    if 0 <= i < t.copies.len() {
        lemma_copy_phase_none(t, i + 1);
    }
}

/// The constant phase passes exactly when no binding past `i` is violated.
pub proof fn lemma_constant_phase_none(t: TableView, i: int)
    requires
        0 <= i,
    ensures
        first_constant_phase(t, i) is None <==> (forall|x: int|
            i <= x < t.constants.len() ==> constant_violation(
                t,
                #[trigger] t.constants[x],
                x as usize,
            ) is None),
    decreases t.constants.len() - i,
{
    if 0 <= i < t.constants.len() {
        lemma_constant_phase_none(t, i + 1);
    }
}

/// The instance phase passes exactly when no binding past `i` is violated.
pub proof fn lemma_instance_phase_none(t: TableView, publics: Seq<FieldValue>, i: int)
    requires
        0 <= i,
    ensures
        first_instance_phase(t, publics, i) is None <==> (forall|x: int|
            i <= x < t.instance_edges.len() ==> instance_violation(
                t,
                publics,
                #[trigger] t.instance_edges[x],
            ) is None),
    decreases t.instance_edges.len() - i,
{
    if 0 <= i < t.instance_edges.len() {
        lemma_instance_phase_none(t, publics, i + 1);
    }
}

} // verus!
