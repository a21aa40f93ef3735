//! The circuit driver: owns the two seeds and the term count, and chains the
//! chip's regions — two private loads, then one step region per remaining
//! term, then one public exposure of the final value.
//!
//! The spec functions here describe, row by row and edge by edge, the exact
//! arena that synthesis produces; `synthesize` ensures its output equals
//! that description.

use vstd::prelude::*;

use crate::chip::FibChip;
use crate::chip::FibConfig;
use crate::chip::BoundsError;
use crate::chip::advice_col_0;
use crate::chip::advice_col_1;
use crate::system::Column;
use crate::system::ColumnKind;
use crate::system::ColumnQuery;
use crate::system::ConfigurationError;
use crate::system::ConstraintSystem;
use crate::system::GateDefinition;
use crate::system::Rotation;
use crate::system::Selector;
use crate::table::AssignedValue;
use crate::table::Assignment;
use crate::table::Cell;
use crate::table::Witness;

verus! {

/// Entry `k` of the witness-value chain seeded with `a`, `b`.
pub open spec fn chain(a: Witness, b: Witness, k: int) -> Witness
    decreases k,
{
    if k <= 0 {
        a
    } else if k == 1 {
        b
    } else {
        chain(a, b, k - 2).spec_add(chain(a, b, k - 1))
    }
}

/// Every entry of a chain seeded with canonical values is canonical.
pub proof fn lemma_chain_wf(a: Witness, b: Witness, k: int)
    requires
        a.wf(),
        b.wf(),
    ensures
        chain(a, b, k).wf(),
    decreases k,
{
    if k >= 2 {
        lemma_chain_wf(a, b, k - 2);
        lemma_chain_wf(a, b, k - 1);
    }
}

/// Every entry of a chain seeded with known values is known.
pub proof fn lemma_chain_known(a: Witness, b: Witness, k: int)
    requires
        a is Known,
        b is Known,
    ensures
        chain(a, b, k) is Known,
    decreases k,
{
    if k >= 2 {
        lemma_chain_known(a, b, k - 2);
        lemma_chain_known(a, b, k - 1);
    }
}

/// The cell that produced the second pair entry handed to step `k`.
pub open spec fn b_cell(k: int) -> Cell {
    if k == 0 {
        Cell { column: advice_col_0(), row: 1 }
    } else {
        Cell { column: advice_col_1(), row: (2 * k + 1) as usize }
    }
}

/// The cell that produced the first pair entry handed to step `k`.
pub open spec fn a_cell(k: int) -> Cell {
    if k == 0 {
        Cell { column: advice_col_0(), row: 0 }
    } else {
        b_cell(k - 1)
    }
}

/// Advice column 0 after synthesis with seeds `a`, `b` and term count `n`:
/// the two loaded seeds, then each step's first input on the step's first
/// row; the step's second row leaves this column unassigned.
pub open spec fn synth_col_a(a: Witness, b: Witness, n: int) -> Seq<Option<Witness>> {
    Seq::new(
        (2 * n) as nat,
        |r: int|
            if r == 0 {
                Some(a)
            } else if r == 1 {
                Some(b)
            } else if r % 2 == 0 {
                Some(chain(a, b, (r - 2) / 2))
            } else {
                None
            },
    )
}

/// Advice column 1 after synthesis: each step's second input on the step's
/// first row and its output on the following row; unassigned on the two
/// load rows.
pub open spec fn synth_col_b(a: Witness, b: Witness, n: int) -> Seq<Option<Witness>> {
    Seq::new(
        (2 * n) as nat,
        |r: int|
            if r < 2 {
                None
            } else if r % 2 == 0 {
                Some(chain(a, b, (r - 2) / 2 + 1))
            } else {
                Some(chain(a, b, (r - 3) / 2 + 2))
            },
    )
}

/// The selector activations after synthesis: selector `s`, once at the
/// first row of each of the `n - 1` step regions, and nowhere else.
pub open spec fn synth_enabled(s: usize, n: int) -> Seq<(usize, usize)> {
    Seq::new((n - 1) as nat, |k: int| (s, (2 + 2 * k) as usize))
}

/// The copy edges after synthesis: step `k` ties its two inputs to the
/// cells that produced them.
pub open spec fn synth_copies(n: int) -> Seq<(Cell, Cell)> {
    Seq::new(
        (2 * (n - 1)) as nat,
        |j: int|
            if j % 2 == 0 {
                (a_cell(j / 2), Cell { column: advice_col_0(), row: (2 + j) as usize })
            } else {
                (b_cell(j / 2), Cell { column: advice_col_1(), row: (1 + j) as usize })
            },
    )
}

/// The single public binding after synthesis: the final output cell against
/// instance row 0.
pub open spec fn synth_instance(n: int) -> Seq<(Cell, usize)> {
    seq![(b_cell(n - 1), 0usize)]
}

/// The circuit driver.  `n` is the number of recurrence terms to generate;
/// the first two are the seeds and each step region produces one more.
pub struct FibCircuit {
    pub init_a: Witness,
    pub init_b: Witness,
    pub n: usize,
}

impl Default for FibCircuit {
    /// The configuration-only shape of the circuit: no witnesses, no steps.
    fn default() -> (r: Self)
        ensures
            r.init_a == Witness::Unknown,
            r.init_b == Witness::Unknown,
            r.n == 0,
    {
        FibCircuit { init_a: Witness::Unknown, init_b: Witness::Unknown, n: 0 }
    }
}

impl FibCircuit {
    /// The witness-free copy used for a configuration-only pass.
    pub fn without_witnesses(&self) -> (r: Self)
        ensures
            r.init_a == Witness::Unknown,
            r.init_b == Witness::Unknown,
            r.n == 0,
    {
        FibCircuit::default()
    }

    /// Declares the circuit's columns — two advice, one instance — and hands
    /// them to the chip, which enables equality on all three and registers
    /// the step gate.  On a fresh system this always succeeds.
    pub fn configure(meta: &mut ConstraintSystem) -> (r: Result<FibConfig, ConfigurationError>)
        requires
            old(meta).num_advice <= usize::MAX - 2,
            old(meta).num_instance < usize::MAX,
            old(meta).num_selectors < usize::MAX,
        ensures
            r == Ok::<FibConfig, ConfigurationError>(FibConfig {
                advice0: Column { kind: ColumnKind::Advice, index: old(meta).num_advice },
                advice1: Column {
                    kind: ColumnKind::Advice,
                    index: (old(meta).num_advice + 1) as usize,
                },
                instance: Column { kind: ColumnKind::Instance, index: old(meta).num_instance },
                s_fib: Selector { index: old(meta).num_selectors },
            }),
            final(meta).num_advice == old(meta).num_advice + 2,
            final(meta).num_instance == old(meta).num_instance + 1,
            final(meta).num_selectors == old(meta).num_selectors + 1,
            final(meta).equality@ == old(meta).equality@
                .push(Column { kind: ColumnKind::Instance, index: old(meta).num_instance })
                .push(Column { kind: ColumnKind::Advice, index: old(meta).num_advice })
                .push(Column {
                    kind: ColumnKind::Advice,
                    index: (old(meta).num_advice + 1) as usize,
                }),
            final(meta).gates@ == old(meta).gates@.push(GateDefinition {
                selector: Selector { index: old(meta).num_selectors },
                a: ColumnQuery {
                    column: Column { kind: ColumnKind::Advice, index: old(meta).num_advice },
                    rotation: Rotation::Cur,
                },
                b: ColumnQuery {
                    column: Column {
                        kind: ColumnKind::Advice,
                        index: (old(meta).num_advice + 1) as usize,
                    },
                    rotation: Rotation::Cur,
                },
                c: ColumnQuery {
                    column: Column {
                        kind: ColumnKind::Advice,
                        index: (old(meta).num_advice + 1) as usize,
                    },
                    rotation: Rotation::Next,
                },
            }),
    {
        let advice0 = meta.advice_column();
        let advice1 = meta.advice_column();
        let instance = meta.instance_column();
        match FibChip::configure(meta, advice0, advice1, instance) {
            Ok(config) => Ok(config),
            Err(e) => Err(e),
        }
    }

    /// Fills a fresh arena: loads the two seeds, chains `n - 1` step
    /// regions, each consuming the previous pair, and binds the final value
    /// to instance row 0.  Fails exactly when no public-input row was
    /// declared; the assignments themselves cannot fail.
    pub fn synthesize(&self, config: FibConfig, table: &mut Assignment) -> (r: Result<
        (),
        BoundsError,
    >)
        requires
            config.wf(),
            2 <= self.n,
            self.n < usize::MAX / 2,
            self.init_a.wf(),
            self.init_b.wf(),
            old(table)@.col_a == Seq::<Option<Witness>>::empty(),
            old(table)@.col_b == Seq::<Option<Witness>>::empty(),
            old(table)@.enabled == Seq::<(usize, usize)>::empty(),
            old(table)@.copies == Seq::<(Cell, Cell)>::empty(),
            old(table)@.constants == Seq::<(Cell, crate::field::FieldValue)>::empty(),
            old(table)@.instance_edges == Seq::<(Cell, usize)>::empty(),
        ensures
            final(table)@.col_a == synth_col_a(self.init_a, self.init_b, self.n as int),
            final(table)@.col_b == synth_col_b(self.init_a, self.init_b, self.n as int),
            final(table)@.enabled == synth_enabled(config.s_fib.index, self.n as int),
            final(table)@.copies == synth_copies(self.n as int),
            final(table)@.constants == Seq::<(Cell, crate::field::FieldValue)>::empty(),
            final(table)@.num_public == old(table)@.num_public,
            final(table)@.wf(),
            old(table)@.num_public >= 1 ==> {
                &&& r == Ok::<(), BoundsError>(())
                &&& final(table)@.instance_edges == synth_instance(self.n as int)
            },
            old(table)@.num_public == 0 ==> {
                &&& r == Err::<(), BoundsError>(BoundsError { row: 0, len: 0 })
                &&& final(table)@.instance_edges == Seq::<(Cell, usize)>::empty()
            },
    {
        let chip = FibChip::construct(config);
        let ia = self.init_a;
        let ib = self.init_b;

        let a = chip.load_private(table, ia);
        let b = chip.load_private(table, ib);
        let mut pair = chip.fib_step(table, a, b);

        proof {
            assert(chain(ia, ib, 0) == ia);
            assert(chain(ia, ib, 1) == ib);
            assert(chain(ia, ib, 2) == chain(ia, ib, 0).spec_add(chain(ia, ib, 1)));
            assert(table@.col_a =~= synth_col_a(ia, ib, 2));
            assert(table@.col_b =~= synth_col_b(ia, ib, 2));
            assert(table@.enabled =~= synth_enabled(config.s_fib.index, 2));
            assert(table@.copies =~= synth_copies(2));
        }

        let mut i: usize = 2;
        while i < self.n
            invariant
                config.wf(),
                chip.config == config,
                2 <= i <= self.n,
                self.n < usize::MAX / 2,
                ia == self.init_a,
                ib == self.init_b,
                ia.wf(),
                ib.wf(),
                table@.col_a == synth_col_a(ia, ib, i as int),
                table@.col_b == synth_col_b(ia, ib, i as int),
                table@.enabled == synth_enabled(config.s_fib.index, i as int),
                table@.copies == synth_copies(i as int),
                table@.constants == old(table)@.constants,
                table@.instance_edges == old(table)@.instance_edges,
                table@.num_public == old(table)@.num_public,
                table@.wf(),
                pair.0 == (AssignedValue {
                    cell: a_cell(i as int - 1),
                    value: chain(ia, ib, i as int - 1),
                }),
                pair.1 == (AssignedValue {
                    cell: b_cell(i as int - 1),
                    value: chain(ia, ib, i as int),
                }),
            decreases self.n - i,
        {
            proof {
                lemma_chain_wf(ia, ib, i as int - 1);
                lemma_chain_wf(ia, ib, i as int);
            }
            pair = chip.fib_step(table, pair.0, pair.1);
            proof {
                assert(chain(ia, ib, i as int + 1)
                    == chain(ia, ib, i as int - 1).spec_add(chain(ia, ib, i as int)));
                assert(table@.col_a =~= synth_col_a(ia, ib, i as int + 1));
                assert(table@.col_b =~= synth_col_b(ia, ib, i as int + 1));
                assert(table@.enabled =~= synth_enabled(config.s_fib.index, i as int + 1));
                assert(table@.copies =~= synth_copies(i as int + 1));
            }
            i = i + 1;
        }

        let result = chip.expose_public(table, pair.1, 0);
        proof {
            if old(table)@.num_public >= 1 {
                assert(table@.instance_edges =~= synth_instance(self.n as int));
            }
        }
        result
    }
}

} // verus!
