//! The circuit's guarantees, proved once and for all over the synthesized
//! layout: the true recurrence value is accepted, any other public input is
//! rejected on the public-input predicate, the selector activations are
//! exactly the step rows, and no single-cell tampering passes.

use vstd::prelude::*;

use crate::chip::advice_col_0;
use crate::chip::advice_col_1;
use crate::checking::accepts;
use crate::checking::copy_violation;
use crate::checking::first_constant_phase;
use crate::checking::first_copy_phase;
use crate::checking::first_gate_phase;
use crate::checking::first_gate_violation_at;
use crate::checking::first_instance_phase;
use crate::checking::first_violation;
use crate::checking::gate_entry_violation;
use crate::checking::gate_violation;
use crate::checking::lemma_copy_phase_none;
use crate::checking::lemma_gate_phase_none;
use crate::checking::lemma_gate_row_none;
use crate::checking::VerifyError;
use crate::circuit::a_cell;
use crate::circuit::b_cell;
use crate::circuit::chain;
use crate::circuit::lemma_chain_known;
use crate::circuit::synth_col_a;
use crate::circuit::synth_col_b;
use crate::circuit::synth_copies;
use crate::circuit::synth_enabled;
use crate::circuit::synth_instance;
use crate::field::fe;
use crate::field::lemma_fe_val;
use crate::field::FieldValue;
use crate::field::MODULUS;
use crate::recurrence::fib;
use crate::system::ColumnQuery;
use crate::system::GateDefinition;
use crate::system::Rotation;
use crate::system::Selector;
use crate::table::Cell;
use crate::table::TableView;
use crate::table::Witness;

verus! {

/// The one gate the configuration registers, under selector index `s`.
pub open spec fn step_gate(s: usize) -> GateDefinition {
    GateDefinition {
        selector: Selector { index: s },
        a: ColumnQuery { column: advice_col_0(), rotation: Rotation::Cur },
        b: ColumnQuery { column: advice_col_1(), rotation: Rotation::Cur },
        c: ColumnQuery { column: advice_col_1(), rotation: Rotation::Next },
    }
}

/// The whole arena that synthesis with seeds `a`, `b` and term count `n`
/// produces, as `synthesize` ensures it, with `num_public` declared
/// public-input rows.
pub open spec fn synth_view(a: Witness, b: Witness, n: int, s: usize, num_public: int) -> TableView {
    TableView {
        col_a: synth_col_a(a, b, n),
        col_b: synth_col_b(a, b, n),
        enabled: synth_enabled(s, n),
        copies: synth_copies(n),
        constants: Seq::<(Cell, FieldValue)>::empty(),
        instance_edges: synth_instance(n),
        num_public,
    }
}

/// A bound under which every row index of the layout fits the machine.
pub open spec fn fits(n: int) -> bool {
    2 <= n && n < usize::MAX / 2
}

/// Every activated gate of the synthesized arena holds.
pub proof fn lemma_synth_gates_hold(a: Witness, b: Witness, n: int, s: usize, num_public: int)
    requires
        fits(n),
        a is Known,
        b is Known,
    ensures
        first_gate_phase(synth_view(a, b, n, s, num_public), seq![step_gate(s)], 0) is None,
{
    let t = synth_view(a, b, n, s, num_public);
    let gates = seq![step_gate(s)];
    assert forall|x: int| 0 <= x < t.enabled.len() implies first_gate_violation_at(
        t,
        gates,
        #[trigger] t.enabled[x],
        0,
    ) is None by {
        let e = t.enabled[x];
        assert(e == (s, (2 + 2 * x) as usize));
        let row: int = 2 + 2 * x;
        lemma_chain_known(a, b, x);
        lemma_chain_known(a, b, x + 1);
        lemma_chain_known(a, b, x + 2);
        assert(t.cell_value(advice_col_0(), row) == Some(chain(a, b, x)));
        assert(t.cell_value(advice_col_1(), row) == Some(chain(a, b, x + 1)));
        assert(t.cell_value(advice_col_1(), row + 1) == Some(chain(a, b, x + 2)));
        assert(chain(a, b, x + 2) == chain(a, b, x).spec_add(chain(a, b, x + 1)));
        let va = chain(a, b, x)->0;
        let vb = chain(a, b, x + 1)->0;
        lemma_fe_val(va.val() + vb.val());
        assert(gate_violation(t, step_gate(s), e.1) is None);
        lemma_gate_row_none(t, gates, e, 0);
    }
    lemma_gate_phase_none(t, gates, 0);
}

/// Every copy edge of the synthesized arena joins two equal known values.
pub proof fn lemma_synth_copies_hold(a: Witness, b: Witness, n: int, s: usize, num_public: int)
    requires
        fits(n),
        a is Known,
        b is Known,
    ensures
        first_copy_phase(synth_view(a, b, n, s, num_public), 0) is None,
{
    let t = synth_view(a, b, n, s, num_public);
    assert forall|j: int| 0 <= j < t.copies.len() implies copy_violation(
        t,
        #[trigger] t.copies[j],
        j as usize,
    ) is None by {
        let k = j / 2;
        assert(0 <= k < n - 1);
        lemma_chain_known(a, b, k);
        lemma_chain_known(a, b, k + 1);
        if j % 2 == 0 {
            assert(t.copies[j] == (a_cell(k), Cell {
                column: advice_col_0(),
                row: (2 + 2 * k) as usize,
            }));
            assert(t.cell_value(a_cell(k).column, a_cell(k).row as int) == Some(chain(a, b, k)));
            assert(t.cell_value(advice_col_0(), 2 + 2 * k) == Some(chain(a, b, k)));
        } else {
            assert(t.copies[j] == (b_cell(k), Cell {
                column: advice_col_1(),
                row: (2 + 2 * k) as usize,
            }));
            assert(t.cell_value(b_cell(k).column, b_cell(k).row as int)
                == Some(chain(a, b, k + 1)));
            assert(t.cell_value(advice_col_1(), 2 + 2 * k) == Some(chain(a, b, k + 1)));
        }
    }
    lemma_copy_phase_none(t, 0);
}

/// The single instance binding of the synthesized arena compares the final
/// chain value against public input 0: it passes exactly when they agree,
/// and any disagreement is a public-input mismatch at row 0.
pub proof fn lemma_synth_instance_binding(
    a: Witness,
    b: Witness,
    n: int,
    s: usize,
    num_public: int,
    publics: Seq<FieldValue>,
)
    requires
        fits(n),
        a is Known,
        b is Known,
        publics.len() >= 1,
    ensures
        chain(a, b, n) == Witness::Known(publics[0]) ==> first_instance_phase(
            synth_view(a, b, n, s, num_public),
            publics,
            0,
        ) is None,
        chain(a, b, n) != Witness::Known(publics[0]) ==> first_instance_phase(
            synth_view(a, b, n, s, num_public),
            publics,
            0,
        ) == Some(VerifyError::PublicInputMismatch { row: 0 }),
{
    let t = synth_view(a, b, n, s, num_public);
    lemma_chain_known(a, b, n);
    assert(t.instance_edges[0] == (b_cell(n - 1), 0usize));
    assert(b_cell(n - 1) == (Cell { column: advice_col_1(), row: (2 * n - 1) as usize }));
    assert(t.cell_value(advice_col_1(), 2 * n - 1) == Some(chain(a, b, n)));
    assert(first_instance_phase(t, publics, 1) is None);
}

/// The constant list of the synthesized arena is empty, so its phase holds.
pub proof fn lemma_synth_constants_hold(
    a: Witness,
    b: Witness,
    n: int,
    s: usize,
    num_public: int,
)
    ensures
        first_constant_phase(synth_view(a, b, n, s, num_public), 0) is None,
{
}

/// The chain seeded with the canonical images of 0 and 1 carries exactly
/// the canonical images of the reference recurrence values.
pub proof fn lemma_chain_is_fib(k: int)
    requires
        k >= 0,
    ensures
        chain(Witness::Known(fe(0)), Witness::Known(fe(1)), k) == Witness::Known(
            fe(fib(k as nat) as int),
        ),
    decreases k,
{
    let a = Witness::Known(fe(0));
    let b = Witness::Known(fe(1));
    if k >= 2 {
        lemma_chain_is_fib(k - 2);
        lemma_chain_is_fib(k - 1);
        let x = fib((k - 2) as nat) as int;
        let y = fib((k - 1) as nat) as int;
        lemma_fe_val(x);
        lemma_fe_val(y);
        vstd::arithmetic::div_mod::lemma_add_mod_noop(x, y, MODULUS as int);
        lemma_fe_val(x % (MODULUS as int) + y % (MODULUS as int));
        assert(fib(k as nat) == fib((k - 2) as nat) + fib((k - 1) as nat));
        assert(chain(a, b, k) == chain(a, b, k - 2).spec_add(chain(a, b, k - 1)));
        assert(fe(x % (MODULUS as int) + y % (MODULUS as int)) == fe(x + y));
    } else {
        lemma_fe_val(0);
        lemma_fe_val(1);
        assert(fib(0) == 0 && fib(1) == 1);
    }
}

/// For every term count the native calculator accepts, the circuit
/// synthesized from seeds 0 and 1, given the reference recurrence value at
/// index `n` as its only public input, passes verification.
pub proof fn lemma_true_public_input_accepted(
    n: int,
    s: usize,
    num_public: int,
    publics: Seq<FieldValue>,
)
    requires
        2 <= n <= 185,
        publics.len() == 1,
        publics[0] == fe(fib(n as nat) as int),
    ensures
        accepts(
            seq![step_gate(s)],
            synth_view(Witness::Known(fe(0)), Witness::Known(fe(1)), n, s, num_public),
            publics,
        ),
{
    let a = Witness::Known(fe(0));
    let b = Witness::Known(fe(1));
    lemma_synth_gates_hold(a, b, n, s, num_public);
    lemma_synth_copies_hold(a, b, n, s, num_public);
    lemma_synth_constants_hold(a, b, n, s, num_public);
    lemma_chain_is_fib(n);
    lemma_synth_instance_binding(a, b, n, s, num_public, publics);
}

/// The circuit synthesized from seeds 0 and 1 has exactly one public
/// binding whatever `n` is, it binds instance row 0, and the cell it binds
/// holds exactly the field image of the recurrence value at index `n` —
/// for every term count the arena can hold, not only those the native
/// calculator accepts.
pub proof fn lemma_one_public_output(n: int, s: usize, num_public: int)
    requires
        fits(n),
    ensures
        synth_view(Witness::Known(fe(0)), Witness::Known(fe(1)), n, s, num_public)
            .instance_edges =~= seq![(b_cell(n - 1), 0usize)],
        synth_view(Witness::Known(fe(0)), Witness::Known(fe(1)), n, s, num_public).cell_value(
            b_cell(n - 1).column,
            b_cell(n - 1).row as int,
        ) == Some(Witness::Known(fe(fib(n as nat) as int))),
{
    let t = synth_view(Witness::Known(fe(0)), Witness::Known(fe(1)), n, s, num_public);
    lemma_chain_is_fib(n);
    assert(b_cell(n - 1) == (Cell { column: advice_col_1(), row: (2 * n - 1) as usize }));
    assert(t.cell_value(advice_col_1(), 2 * n - 1)
        == Some(chain(Witness::Known(fe(0)), Witness::Known(fe(1)), n)));
}

/// Any public input other than the true recurrence value is rejected, and
/// rejected on the public-input predicate at row 0.
pub proof fn lemma_wrong_public_input_rejected(
    n: int,
    s: usize,
    num_public: int,
    publics: Seq<FieldValue>,
)
    requires
        2 <= n <= 185,
        publics.len() == 1,
        publics[0] != fe(fib(n as nat) as int),
    ensures
        first_violation(
            seq![step_gate(s)],
            synth_view(Witness::Known(fe(0)), Witness::Known(fe(1)), n, s, num_public),
            publics,
        ) == Some(VerifyError::PublicInputMismatch { row: 0 }),
{
    let a = Witness::Known(fe(0));
    let b = Witness::Known(fe(1));
    lemma_synth_gates_hold(a, b, n, s, num_public);
    lemma_synth_copies_hold(a, b, n, s, num_public);
    lemma_synth_constants_hold(a, b, n, s, num_public);
    lemma_chain_is_fib(n);
    lemma_synth_instance_binding(a, b, n, s, num_public, publics);
}

/// The selector is activated exactly once per step region — at the first
/// row of each of the `n - 1` step regions, the even rows from 2 on — and
/// nowhere else.
pub proof fn lemma_selector_activations(a: Witness, b: Witness, n: int, s: usize, num_public: int)
    requires
        fits(n),
    ensures
        synth_view(a, b, n, s, num_public).enabled.len() == n - 1,
        forall|x: int| 0 <= x < n - 1 ==> synth_view(a, b, n, s, num_public).enabled[x] == (
            s,
            (2 + 2 * x) as usize,
        ),
{
}

/// The arena with one advice cell overwritten by a known value.
pub open spec fn with_advice(t: TableView, column_index: int, row: int, v: FieldValue) -> TableView {
    if column_index == 0 {
        TableView { col_a: t.col_a.update(row, Some(Witness::Known(v))), ..t }
    } else {
        TableView { col_b: t.col_b.update(row, Some(Witness::Known(v))), ..t }
    }
}

/// A gate check reads only the activated entries: overwriting a cell in a
/// row that no activated entry touches — neither as its own row nor as the
/// row below it — cannot change the outcome of gate checking.  In
/// particular, a gate is never checked at a non-activated row.
pub proof fn lemma_gate_row_ignores_cell(
    t: TableView,
    gates: Seq<GateDefinition>,
    e: (usize, usize),
    column_index: int,
    row: int,
    v: FieldValue,
    j: int,
)
    requires
        0 <= j,
        column_index == 0 || column_index == 1,
        column_index == 0 ==> 0 <= row < t.col_a.len(),
        column_index == 1 ==> 0 <= row < t.col_b.len(),
        e.1 as int != row,
        e.1 as int + 1 != row,
    ensures
        first_gate_violation_at(with_advice(t, column_index, row, v), gates, e, j)
            == first_gate_violation_at(t, gates, e, j),
    decreases gates.len() - j,
{
    let t2 = with_advice(t, column_index, row, v);
    if j < gates.len() {
        let g = gates[j];
        assert(t2.cell_value(g.a.column, crate::checking::query_row(e.1 as int, g.a.rotation))
            == t.cell_value(g.a.column, crate::checking::query_row(e.1 as int, g.a.rotation)));
        assert(t2.cell_value(g.b.column, crate::checking::query_row(e.1 as int, g.b.rotation))
            == t.cell_value(g.b.column, crate::checking::query_row(e.1 as int, g.b.rotation)));
        assert(t2.cell_value(g.c.column, crate::checking::query_row(e.1 as int, g.c.rotation))
            == t.cell_value(g.c.column, crate::checking::query_row(e.1 as int, g.c.rotation)));
        assert(gate_entry_violation(t2, g, e) == gate_entry_violation(t, g, e));
        lemma_gate_row_ignores_cell(t, gates, e, column_index, row, v, j + 1);
    }
}

/// Gate checking reads only the activated entries and the rows directly
/// below them.
pub proof fn lemma_gate_phase_reads_only_activated(
    t: TableView,
    gates: Seq<GateDefinition>,
    column_index: int,
    row: int,
    v: FieldValue,
    i: int,
)
    requires
        0 <= i,
        column_index == 0 || column_index == 1,
        column_index == 0 ==> 0 <= row < t.col_a.len(),
        column_index == 1 ==> 0 <= row < t.col_b.len(),
        forall|x: int| 0 <= x < t.enabled.len() ==> (#[trigger] t.enabled[x]).1 as int != row
            && t.enabled[x].1 as int + 1 != row,
    ensures
        first_gate_phase(with_advice(t, column_index, row, v), gates, i)
            == first_gate_phase(t, gates, i),
    decreases t.enabled.len() - i,
{
    let t2 = with_advice(t, column_index, row, v);
    assert(t2.enabled == t.enabled);
    if i < t.enabled.len() {
        lemma_gate_row_ignores_cell(t, gates, t.enabled[i], column_index, row, v, 0);
        lemma_gate_phase_reads_only_activated(t, gates, column_index, row, v, i + 1);
    }
}

/// A tampered seed cell breaks the copy edge that feeds it into step 0.
proof fn lemma_tamper_seed_cell(
    fa: FieldValue,
    fb: FieldValue,
    n: int,
    s: usize,
    num_public: int,
    row: int,
    v: FieldValue,
)
    requires
        fits(n),
        row == 0 || row == 1,
        synth_col_a(Witness::Known(fa), Witness::Known(fb), n)[row] != Some(Witness::Known(v)),
    ensures
        first_copy_phase(
            with_advice(
                synth_view(Witness::Known(fa), Witness::Known(fb), n, s, num_public),
                0,
                row,
                v,
            ),
            0,
        ) is Some,
{
    let a = Witness::Known(fa);
    let b = Witness::Known(fb);
    let t = synth_view(a, b, n, s, num_public);
    let t2 = with_advice(t, 0, row, v);
    if first_copy_phase(t2, 0) is None {
        lemma_copy_phase_none(t2, 0);
        assert(chain(a, b, 0) == a);
        assert(chain(a, b, 1) == b);
        if row == 0 {
            assert(t2.copies[0] == (a_cell(0), Cell { column: advice_col_0(), row: 2usize }));
            assert(t2.cell_value(advice_col_0(), 0) == Some(Witness::Known(v)));
            assert(t2.cell_value(advice_col_0(), 2) == Some(a));
            assert(copy_violation(t2, t2.copies[0], 0) == Some(VerifyError::CopyMismatch {
                index: 0,
            }));
        } else {
            assert(t2.copies[1] == (b_cell(0), Cell { column: advice_col_1(), row: 2usize }));
            assert(t2.cell_value(advice_col_0(), 1) == Some(Witness::Known(v)));
            assert(t2.cell_value(advice_col_1(), 2) == Some(b));
            assert(copy_violation(t2, t2.copies[1], 1) == Some(VerifyError::CopyMismatch {
                index: 1,
            }));
        }
        assert(false);
    }
}

/// A tampered step-input cell breaks the copy edge that ties it to the
/// cell that produced the value.
#[verifier::rlimit(100)]
proof fn lemma_tamper_step_input(
    fa: FieldValue,
    fb: FieldValue,
    n: int,
    s: usize,
    num_public: int,
    column_index: int,
    row: int,
    v: FieldValue,
)
    requires
        fits(n),
        column_index == 0 || column_index == 1,
        2 <= row < 2 * n,
        row % 2 == 0,
        column_index == 0 ==> synth_col_a(Witness::Known(fa), Witness::Known(fb), n)[row] != Some(
            Witness::Known(v),
        ),
        column_index == 1 ==> synth_col_b(Witness::Known(fa), Witness::Known(fb), n)[row] != Some(
            Witness::Known(v),
        ),
    ensures
        first_copy_phase(
            with_advice(
                synth_view(Witness::Known(fa), Witness::Known(fb), n, s, num_public),
                column_index,
                row,
                v,
            ),
            0,
        ) is Some,
{
    let a = Witness::Known(fa);
    let b = Witness::Known(fb);
    let t = synth_view(a, b, n, s, num_public);
    let t2 = with_advice(t, column_index, row, v);
    if first_copy_phase(t2, 0) is None {
        lemma_copy_phase_none(t2, 0);
        assert(chain(a, b, 0) == a);
        assert(chain(a, b, 1) == b);
        let k = (row - 2) / 2;
        assert(0 <= k < n - 1);
        assert(row == 2 + 2 * k);
        if column_index == 0 {
            let j = 2 * k;
            lemma_chain_known(a, b, k);
            assert(t2.copies[j] == (a_cell(k), Cell {
                column: advice_col_0(),
                row: row as usize,
            }));
            assert(t2.cell_value(a_cell(k).column, a_cell(k).row as int) == Some(chain(a, b, k)));
            assert(t2.cell_value(advice_col_0(), row) == Some(Witness::Known(v)));
            assert(chain(a, b, k) != Witness::Known(v));
            assert(copy_violation(t2, t2.copies[j], j as usize) == Some(
                VerifyError::CopyMismatch { index: j as usize },
            ));
        } else {
            let j = 2 * k + 1;
            lemma_chain_known(a, b, k + 1);
            assert(t2.copies[j] == (b_cell(k), Cell {
                column: advice_col_1(),
                row: row as usize,
            }));
            assert(t2.cell_value(b_cell(k).column, b_cell(k).row as int)
                == Some(chain(a, b, k + 1)));
            assert(t2.cell_value(advice_col_1(), row) == Some(Witness::Known(v)));
            assert(chain(a, b, k + 1) != Witness::Known(v));
            assert(copy_violation(t2, t2.copies[j], j as usize) == Some(
                VerifyError::CopyMismatch { index: j as usize },
            ));
        }
        assert(false);
    }
}

/// A tampered step-output cell fails its own step region's gate.
#[verifier::rlimit(100)]
proof fn lemma_tamper_step_output(
    fa: FieldValue,
    fb: FieldValue,
    n: int,
    s: usize,
    num_public: int,
    row: int,
    v: FieldValue,
)
    requires
        fits(n),
        3 <= row < 2 * n,
        row % 2 == 1,
        synth_col_b(Witness::Known(fa), Witness::Known(fb), n)[row] != Some(Witness::Known(v)),
    ensures
        first_gate_phase(
            with_advice(
                synth_view(Witness::Known(fa), Witness::Known(fb), n, s, num_public),
                1,
                row,
                v,
            ),
            seq![step_gate(s)],
            0,
        ) is Some,
{
    let a = Witness::Known(fa);
    let b = Witness::Known(fb);
    let t = synth_view(a, b, n, s, num_public);
    let t2 = with_advice(t, 1, row, v);
    let gates = seq![step_gate(s)];
    if first_gate_phase(t2, gates, 0) is None {
        lemma_gate_phase_none(t2, gates, 0);
        let k = (row - 3) / 2;
        assert(0 <= k < n - 1);
        assert(row == 3 + 2 * k);
        let e = t2.enabled[k];
        assert(e == (s, (2 + 2 * k) as usize));
        lemma_gate_row_none(t2, gates, e, 0);
        assert(gate_entry_violation(t2, gates[0], e) is None);
        lemma_chain_known(a, b, k);
        lemma_chain_known(a, b, k + 1);
        assert(t2.cell_value(advice_col_0(), 2 + 2 * k) == Some(chain(a, b, k)));
        assert(t2.cell_value(advice_col_1(), 2 + 2 * k) == Some(chain(a, b, k + 1)));
        assert(t2.cell_value(advice_col_1(), 3 + 2 * k) == Some(Witness::Known(v)));
        let va = chain(a, b, k)->0;
        let vb = chain(a, b, k + 1)->0;
        assert(chain(a, b, k + 2) == chain(a, b, k).spec_add(chain(a, b, k + 1)));
        assert(synth_col_b(a, b, n)[row] == Some(Witness::Known(fe(va.val() + vb.val()))));
        lemma_fe_val(va.val() + vb.val());
        assert(v != fe(va.val() + vb.val()));
        assert(v.val() != (va.val() + vb.val()) % (MODULUS as int));
        assert(gate_violation(t2, step_gate(s), e.1) == Some(VerifyError::GateUnsatisfied {
            row: e.1,
        }));
        assert(false);
    }
}

/// Overwriting any single assigned advice cell of a synthesized arena,
/// without touching its copy-constrained partners, is always caught:
/// verification reports a violation, whatever public inputs are supplied.
pub proof fn lemma_tampered_cell_rejected(
    fa: FieldValue,
    fb: FieldValue,
    n: int,
    s: usize,
    num_public: int,
    publics: Seq<FieldValue>,
    column_index: int,
    row: int,
    v: FieldValue,
)
    requires
        fits(n),
        column_index == 0 || column_index == 1,
        0 <= row < 2 * n,
        column_index == 0 ==> synth_col_a(Witness::Known(fa), Witness::Known(fb), n)[row] is Some
            && synth_col_a(Witness::Known(fa), Witness::Known(fb), n)[row] != Some(
            Witness::Known(v),
        ),
        column_index == 1 ==> synth_col_b(Witness::Known(fa), Witness::Known(fb), n)[row] is Some
            && synth_col_b(Witness::Known(fa), Witness::Known(fb), n)[row] != Some(
            Witness::Known(v),
        ),
    ensures
        first_violation(
            seq![step_gate(s)],
            with_advice(
                synth_view(Witness::Known(fa), Witness::Known(fb), n, s, num_public),
                column_index,
                row,
                v,
            ),
            publics,
        ) is Some,
{
    let t2 = with_advice(
        synth_view(Witness::Known(fa), Witness::Known(fb), n, s, num_public),
        column_index,
        row,
        v,
    );
    let gates = seq![step_gate(s)];
    if first_violation(gates, t2, publics) is None {
        assert(first_gate_phase(t2, gates, 0) is None);
        assert(first_copy_phase(t2, 0) is None);
        if column_index == 0 {
            if row < 2 {
                lemma_tamper_seed_cell(fa, fb, n, s, num_public, row, v);
            } else if row % 2 == 0 {
                lemma_tamper_step_input(fa, fb, n, s, num_public, 0, row, v);
            } else {
                // The second row of a step region leaves this column
                // unassigned, so the hypothesis already rules it out.
                assert(false);
            }
        } else {
            if row < 2 {
                assert(false);
            } else if row % 2 == 0 {
                lemma_tamper_step_input(fa, fb, n, s, num_public, 1, row, v);
            } else {
                lemma_tamper_step_output(fa, fb, n, s, num_public, row, v);
            }
        }
        assert(false);
    }
}

} // verus!
