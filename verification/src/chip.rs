//! The chip: binds the column layout and the step gate to concrete
//! region-scoped assignment operations.  Each operation opens one fresh
//! region, a block of rows appended at the bottom of the arena.

use vstd::prelude::*;

use crate::field::FieldValue;
use crate::system::Column;
use crate::system::ColumnKind;
use crate::system::ColumnQuery;
use crate::system::ConfigurationError;
use crate::system::ConstraintSystem;
use crate::system::GateDefinition;
use crate::system::Rotation;
use crate::system::Selector;
use crate::table::AssignedValue;
use crate::table::Assignment;
use crate::table::Cell;
use crate::table::TableView;
use crate::table::Witness;

verus! {

/// The chip's configuration: two advice columns, the instance column, and
/// the selector that gates the step constraint.
#[derive(Clone, Copy, Debug, PartialEq, Eq, Structural)]
pub struct FibConfig {
    pub advice0: Column,
    pub advice1: Column,
    pub instance: Column,
    pub s_fib: Selector,
}

/// The first advice column of the canonical layout.
pub open spec fn advice_col_0() -> Column {
    Column { kind: ColumnKind::Advice, index: 0 }
}

/// The second advice column of the canonical layout.
pub open spec fn advice_col_1() -> Column {
    Column { kind: ColumnKind::Advice, index: 1 }
}

impl FibConfig {
    /// The layout the driver builds: the first two advice columns and the
    /// first instance column of a fresh system.
    pub open spec fn wf(self) -> bool {
        &&& self.advice0 == advice_col_0()
        &&& self.advice1 == advice_col_1()
        &&& self.instance == (Column { kind: ColumnKind::Instance, index: 0 })
    }
}

/// `expose_public` was given a row outside the declared public-input vector.
#[derive(Clone, Copy, Debug, PartialEq, Eq, Structural)]
pub struct BoundsError {
    pub row: usize,
    pub len: usize,
}

/// The witness assigner for the recurrence circuit.  Its four operations —
/// load a private value, load a constant, perform one step, expose a value
/// publicly — are the instruction set that an alternate column layout would
/// have to offer again.  They are implemented directly on the chip rather
/// than through an interface, so that each contract stays attached to
/// checked code: an interface's contracts would have to be weak enough for
/// every layout, while these pin this layout's arena exactly.
pub struct FibChip {
    pub config: FibConfig,
}

impl FibChip {
    pub fn construct(config: FibConfig) -> (r: Self)
        ensures
            r.config == config,
    {
        FibChip { config }
    }

    /// The configuration the chip was built from.
    pub fn config(&self) -> (r: &FibConfig)
        ensures
            *r == self.config,
    {
        &self.config
    }

    /// Declares the step gate and the equality-enabled columns: equality on the
    /// instance column and on both advice columns, one selector, and the
    /// single step gate `s_fib * (advice0_cur + advice1_cur - advice1_next)`.
    /// Fails with the first column that cannot support equality.
    pub fn configure(
        meta: &mut ConstraintSystem,
        advice0: Column,
        advice1: Column,
        instance: Column,
    ) -> (r: Result<FibConfig, ConfigurationError>)
        requires
            old(meta).num_selectors < usize::MAX,
        ensures
            final(meta).num_advice == old(meta).num_advice,
            final(meta).num_instance == old(meta).num_instance,
            old(meta).declares(instance) && old(meta).declares(advice0)
                && old(meta).declares(advice1) ==> {
                &&& r == Ok::<FibConfig, ConfigurationError>(FibConfig {
                    advice0,
                    advice1,
                    instance,
                    s_fib: Selector { index: old(meta).num_selectors },
                })
                &&& final(meta).num_selectors == old(meta).num_selectors + 1
                &&& final(meta).equality@ == old(meta).equality@
                    .push(instance).push(advice0).push(advice1)
                &&& final(meta).gates@ == old(meta).gates@.push(GateDefinition {
                    selector: Selector { index: old(meta).num_selectors },
                    a: ColumnQuery { column: advice0, rotation: Rotation::Cur },
                    b: ColumnQuery { column: advice1, rotation: Rotation::Cur },
                    c: ColumnQuery { column: advice1, rotation: Rotation::Next },
                })
            },
            !old(meta).declares(instance) ==> {
                &&& r == Err::<FibConfig, ConfigurationError>(
                    ConfigurationError { column: instance })
                &&& final(meta).equality@ == old(meta).equality@
                &&& final(meta).num_selectors == old(meta).num_selectors
                &&& final(meta).gates@ == old(meta).gates@
            },
            old(meta).declares(instance) && !old(meta).declares(advice0) ==> {
                &&& r == Err::<FibConfig, ConfigurationError>(
                    ConfigurationError { column: advice0 })
                &&& final(meta).equality@ == old(meta).equality@.push(instance)
                &&& final(meta).num_selectors == old(meta).num_selectors
                &&& final(meta).gates@ == old(meta).gates@
            },
            old(meta).declares(instance) && old(meta).declares(advice0)
                && !old(meta).declares(advice1) ==> {
                &&& r == Err::<FibConfig, ConfigurationError>(
                    ConfigurationError { column: advice1 })
                &&& final(meta).equality@ == old(meta).equality@.push(instance).push(advice0)
                &&& final(meta).num_selectors == old(meta).num_selectors
                &&& final(meta).gates@ == old(meta).gates@
            },
    {
        match meta.enable_equality(instance) {
            Ok(()) => {}
            Err(e) => {
                return Err(e);
            }
        }
        match meta.enable_equality(advice0) {
            Ok(()) => {}
            Err(e) => {
                return Err(e);
            }
        }
        match meta.enable_equality(advice1) {
            Ok(()) => {}
            Err(e) => {
                return Err(e);
            }
        }
        let s_fib = meta.selector();
        meta.create_gate(GateDefinition {
            selector: s_fib,
            a: ColumnQuery { column: advice0, rotation: Rotation::Cur },
            b: ColumnQuery { column: advice1, rotation: Rotation::Cur },
            c: ColumnQuery { column: advice1, rotation: Rotation::Next },
        });
        Ok(FibConfig { advice0, advice1, instance, s_fib })
    }

    /// Assigns a private witness value into advice column 0, row 0, of a
    /// fresh one-row region.  No selector is activated: nothing is
    /// constrained about a freshly loaded seed.
    pub fn load_private(&self, table: &mut Assignment, value: Witness) -> (r: AssignedValue)
        requires
            self.config.wf(),
            old(table)@.wf(),
            value.wf(),
        ensures
            final(table)@ == (TableView {
                col_a: old(table)@.col_a.push(Some(value)),
                col_b: old(table)@.col_b.push(None),
                ..old(table)@
            }),
            final(table)@.wf(),
            r == (AssignedValue {
                cell: Cell { column: advice_col_0(), row: old(table)@.height() as usize },
                value,
            }),
    {
        let row = table.col_a.len();
        table.col_a.push(Some(value));
        table.col_b.push(None);
        AssignedValue { cell: Cell { column: self.config.advice0, row }, value }
    }

    /// Assigns a publicly known fixed value into advice column 0, row 0, of
    /// a fresh one-row region, and additionally records the binding of that
    /// cell to the constant, distinguishing it from a private load.
    pub fn load_constant(&self, table: &mut Assignment, constant: FieldValue) -> (r: AssignedValue)
        requires
            self.config.wf(),
            old(table)@.wf(),
            constant.wf(),
        ensures
            final(table)@ == (TableView {
                col_a: old(table)@.col_a.push(Some(Witness::Known(constant))),
                col_b: old(table)@.col_b.push(None),
                constants: old(table)@.constants.push((
                    Cell { column: advice_col_0(), row: old(table)@.height() as usize },
                    constant,
                )),
                ..old(table)@
            }),
            final(table)@.wf(),
            r == (AssignedValue {
                cell: Cell { column: advice_col_0(), row: old(table)@.height() as usize },
                value: Witness::Known(constant),
            }),
    {
        let row = table.col_a.len();
        let cell = Cell { column: self.config.advice0, row };
        table.col_a.push(Some(Witness::Known(constant)));
        table.col_b.push(None);
        table.constants.push((cell, constant));
        AssignedValue { cell, value: Witness::Known(constant) }
    }

    /// One recurrence step in a fresh two-row region: activates the selector
    /// at the region's first row, copies `a` and `b` into that row (copy
    /// constraints tie them to the cells that produced them), assigns their
    /// sum on the following row, and returns `(b, c)` as the next pair.
    pub fn fib_step(
        &self,
        table: &mut Assignment,
        a: AssignedValue,
        b: AssignedValue,
    ) -> (r: (AssignedValue, AssignedValue))
        requires
            self.config.wf(),
            old(table)@.wf(),
            a.value.wf(),
            b.value.wf(),
        ensures
            final(table)@ == (TableView {
                col_a: old(table)@.col_a + seq![Some(a.value), None],
                col_b: old(table)@.col_b
                    + seq![Some(b.value), Some(a.value.spec_add(b.value))],
                enabled: old(table)@.enabled.push((
                    self.config.s_fib.index,
                    old(table)@.height() as usize,
                )),
                copies: old(table)@.copies
                    + seq![
                    (a.cell, Cell { column: advice_col_0(), row: old(table)@.height() as usize }),
                    (b.cell, Cell { column: advice_col_1(), row: old(table)@.height() as usize }),
                ],
                ..old(table)@
            }),
            final(table)@.wf(),
            r == (
                b,
                AssignedValue {
                    cell: Cell {
                        column: advice_col_1(),
                        row: (old(table)@.height() + 1) as usize,
                    },
                    value: a.value.spec_add(b.value),
                },
            ),
    {
        let row = table.col_a.len();
        self.config.s_fib.enable(table, row);
        let c_value = a.value.add(b.value);
        table.col_a.push(Some(a.value));
        table.col_a.push(None);
        table.col_b.push(Some(b.value));
        table.col_b.push(Some(c_value));
        table.copies.push((a.cell, Cell { column: self.config.advice0, row }));
        table.copies.push((b.cell, Cell { column: self.config.advice1, row }));
        let row_c = table.col_b.len() - 1;
        let c = AssignedValue {
            cell: Cell { column: self.config.advice1, row: row_c },
            value: c_value,
        };
        proof {
            assert(table@ =~= (TableView {
                col_a: old(table)@.col_a + seq![Some(a.value), None],
                col_b: old(table)@.col_b
                    + seq![Some(b.value), Some(a.value.spec_add(b.value))],
                enabled: old(table)@.enabled.push((
                    self.config.s_fib.index,
                    old(table)@.height() as usize,
                )),
                copies: old(table)@.copies
                    + seq![
                    (a.cell, Cell { column: advice_col_0(), row: old(table)@.height() as usize }),
                    (b.cell, Cell { column: advice_col_1(), row: old(table)@.height() as usize }),
                ],
                ..old(table)@
            }));
        }
        (b, c)
    }

    /// Creates a copy constraint between a produced value's cell and the
    /// given row of the instance column; the row must lie inside the
    /// declared public-input vector.
    pub fn expose_public(
        &self,
        table: &mut Assignment,
        num: AssignedValue,
        row: usize,
    ) -> (r: Result<(), BoundsError>)
        requires
            self.config.wf(),
            old(table)@.wf(),
        ensures
            row < old(table)@.num_public ==> {
                &&& r == Ok::<(), BoundsError>(())
                &&& final(table)@ == (TableView {
                    instance_edges: old(table)@.instance_edges.push((num.cell, row)),
                    ..old(table)@
                })
            },
            !(row < old(table)@.num_public) ==> {
                &&& r == Err::<(), BoundsError>(BoundsError {
                    row,
                    len: old(table)@.num_public as usize,
                })
                &&& final(table)@ == old(table)@
            },
            final(table)@.wf(),
    {
        if row < table.num_public {
            table.instance_edges.push((num.cell, row));
            Ok(())
        } else {
            Err(BoundsError { row, len: table.num_public })
        }
    }
}

impl Selector {
    /// Activates this selector at the given row of the arena.
    pub fn enable(&self, table: &mut Assignment, row: usize)
        ensures
            final(table)@ == (TableView {
                enabled: old(table)@.enabled.push((self.index, row)),
                ..old(table)@
            }),
    {
        table.enabled.push((self.index, row));
    }
}

} // verus!
