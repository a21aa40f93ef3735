//! The configuration half of the constraint system: column declarations,
//! equality enablement, selector allocation and gate registration.  All of
//! this happens once, before any witness exists.

use vstd::prelude::*;

verus! {

/// The kind of a column in the constraint table.
#[derive(Clone, Copy, Debug, PartialEq, Eq, Structural)]
pub enum ColumnKind {
    /// Holds private witness values.
    Advice,
    /// Holds values the verifier also knows.
    Instance,
}

/// A vertical trace of the constraint table.
#[derive(Clone, Copy, Debug, PartialEq, Eq, Structural)]
pub struct Column {
    pub kind: ColumnKind,
    pub index: usize,
}

/// A per-row flag column; wherever it is on, its gate must hold.
#[derive(Clone, Copy, Debug, PartialEq, Eq, Structural)]
pub struct Selector {
    pub index: usize,
}

/// A relative row offset inside a gate.
#[derive(Clone, Copy, Debug, PartialEq, Eq, Structural)]
pub enum Rotation {
    Cur,
    Next,
}

/// One queried cell of a gate: a column at a relative row offset.
#[derive(Clone, Copy, Debug, PartialEq, Eq, Structural)]
pub struct ColumnQuery {
    pub column: Column,
    pub rotation: Rotation,
}

/// A selector-gated polynomial constraint: wherever `selector` is on at a
/// row, the value of `a` plus the value of `b` minus the value of `c` (each
/// read at its rotation from that row) must be the additive identity.
#[derive(Clone, Copy, Debug, PartialEq, Eq, Structural)]
pub struct GateDefinition {
    pub selector: Selector,
    pub a: ColumnQuery,
    pub b: ColumnQuery,
    pub c: ColumnQuery,
}

/// Equality was requested on a column the system never declared.
#[derive(Clone, Copy, Debug, PartialEq, Eq, Structural)]
pub struct ConfigurationError {
    pub column: Column,
}

/// The declared columns, the columns with equality enabled, the allocated
/// selectors, and the registered gates.
pub struct ConstraintSystem {
    pub num_advice: usize,
    pub num_instance: usize,
    pub num_selectors: usize,
    pub equality: Vec<Column>,
    pub gates: Vec<GateDefinition>,
}

impl ConstraintSystem {
    /// A column is declared when its index lies below the count of its kind.
    pub open spec fn declares(self, column: Column) -> bool {
        match column.kind {
            ColumnKind::Advice => column.index < self.num_advice,
            ColumnKind::Instance => column.index < self.num_instance,
        }
    }

    pub fn new() -> (r: Self)
        ensures
            r.num_advice == 0,
            r.num_instance == 0,
            r.num_selectors == 0,
            r.equality@ == Seq::<Column>::empty(),
            r.gates@ == Seq::<GateDefinition>::empty(),
    {
        ConstraintSystem {
            num_advice: 0,
            num_instance: 0,
            num_selectors: 0,
            equality: Vec::new(),
            gates: Vec::new(),
        }
    }

    /// Declares a fresh advice column.
    pub fn advice_column(&mut self) -> (r: Column)
        requires
            old(self).num_advice < usize::MAX,
        ensures
            r == (Column { kind: ColumnKind::Advice, index: old(self).num_advice }),
            final(self).num_advice == old(self).num_advice + 1,
            final(self).num_instance == old(self).num_instance,
            final(self).num_selectors == old(self).num_selectors,
            final(self).equality@ == old(self).equality@,
            final(self).gates@ == old(self).gates@,
    {
        let index = self.num_advice;
        self.num_advice = self.num_advice + 1;
        Column { kind: ColumnKind::Advice, index }
    }

    /// Declares a fresh instance column.
    pub fn instance_column(&mut self) -> (r: Column)
        requires
            old(self).num_instance < usize::MAX,
        ensures
            r == (Column { kind: ColumnKind::Instance, index: old(self).num_instance }),
            final(self).num_instance == old(self).num_instance + 1,
            final(self).num_advice == old(self).num_advice,
            final(self).num_selectors == old(self).num_selectors,
            final(self).equality@ == old(self).equality@,
            final(self).gates@ == old(self).gates@,
    {
        let index = self.num_instance;
        self.num_instance = self.num_instance + 1;
        Column { kind: ColumnKind::Instance, index }
    }

    /// Allocates a fresh selector.
    pub fn selector(&mut self) -> (r: Selector)
        requires
            old(self).num_selectors < usize::MAX,
        ensures
            r == (Selector { index: old(self).num_selectors }),
            final(self).num_selectors == old(self).num_selectors + 1,
            final(self).num_advice == old(self).num_advice,
            final(self).num_instance == old(self).num_instance,
            final(self).equality@ == old(self).equality@,
            final(self).gates@ == old(self).gates@,
    {
        let index = self.num_selectors;
        self.num_selectors = self.num_selectors + 1;
        Selector { index }
    }

    /// Enables copy constraints on a declared column; an undeclared column
    /// cannot support them.
    pub fn enable_equality(&mut self, column: Column) -> (r: Result<(), ConfigurationError>)
        ensures
            final(self).num_advice == old(self).num_advice,
            final(self).num_instance == old(self).num_instance,
            final(self).num_selectors == old(self).num_selectors,
            final(self).gates@ == old(self).gates@,
            old(self).declares(column) ==> {
                &&& r == Ok::<(), ConfigurationError>(())
                &&& final(self).equality@ == old(self).equality@.push(column)
            },
            !old(self).declares(column) ==> {
                &&& r == Err::<(), ConfigurationError>(ConfigurationError { column })
                &&& final(self).equality@ == old(self).equality@
            },
    {
        let declared = match column.kind {
            ColumnKind::Advice => column.index < self.num_advice,
            ColumnKind::Instance => column.index < self.num_instance,
        };
        if declared {
            self.equality.push(column);
            Ok(())
        } else {
            Err(ConfigurationError { column })
        }
    }

    /// Registers a gate.
    pub fn create_gate(&mut self, gate: GateDefinition)
        ensures
            final(self).num_advice == old(self).num_advice,
            final(self).num_instance == old(self).num_instance,
            final(self).num_selectors == old(self).num_selectors,
            final(self).equality@ == old(self).equality@,
            final(self).gates@ == old(self).gates@.push(gate),
    {
        self.gates.push(gate);
    }
}

} // verus!
