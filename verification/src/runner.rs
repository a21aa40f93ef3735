//! The whole pipeline in one verified call: configure a fresh system,
//! synthesize the circuit seeded with 0 and 1, and verify the result
//! against a supplied public input.  Its contract settles the outcome in
//! advance: verification succeeds exactly when the public input is the
//! reference recurrence value.

use vstd::prelude::*;

use crate::checking::verify;
use crate::checking::VerifyError;
use crate::circuit::FibCircuit;
use crate::field::fe;
use crate::field::FieldValue;
use crate::laws::lemma_true_public_input_accepted;
use crate::laws::lemma_wrong_public_input_rejected;
use crate::laws::step_gate;
use crate::laws::synth_view;
use crate::recurrence::fib;
use crate::system::ConstraintSystem;
use crate::table::Assignment;
use crate::table::Witness;

verus! {

/// Builds and checks one circuit instance for `n` terms, seeds 0 and 1.
/// Success is owed exactly on the true recurrence value; anything else is
/// rejected on the public-input predicate at row 0.
pub fn check_instance(n: usize, public_input: FieldValue) -> (r: Result<(), VerifyError>)
    requires
        2 <= n <= 185,
    ensures
        public_input == fe(fib(n as nat) as int) ==> r == Ok::<(), VerifyError>(()),
        public_input != fe(fib(n as nat) as int) ==> r == Err::<(), VerifyError>(
            VerifyError::PublicInputMismatch { row: 0 },
        ),
{
    let mut meta = ConstraintSystem::new();
    let config = match FibCircuit::configure(&mut meta) {
        Ok(config) => config,
        Err(_) => {
            proof {
                assert(false);
            }
            return Err(VerifyError::PublicInputMismatch { row: 0 });
        }
    };
    let zero = FieldValue::zero();
    let one = FieldValue::one();
    let circuit = FibCircuit {
        init_a: Witness::Known(zero),
        init_b: Witness::Known(one),
        n,
    };
    let mut table = Assignment::new(1);
    let synthesized = circuit.synthesize(config, &mut table);
    proof {
        assert(synthesized == Ok::<(), crate::chip::BoundsError>(()));
        assert(zero == fe(0)) by {
            crate::field::lemma_fe_val(0);
        }
        assert(one == fe(1)) by {
            crate::field::lemma_fe_val(1);
        }
        assert(meta.gates@ =~= seq![step_gate(0)]);
        assert(table@ =~= synth_view(
            Witness::Known(fe(0)),
            Witness::Known(fe(1)),
            n as int,
            0,
            1,
        ));
    }
    let mut publics: Vec<FieldValue> = Vec::new();
    publics.push(public_input);
    proof {
        assert(publics@ =~= seq![public_input]);
        if public_input == fe(fib(n as nat) as int) {
            lemma_true_public_input_accepted(n as int, 0, 1, publics@);
        } else {
            lemma_wrong_public_input_rejected(n as int, 0, 1, publics@);
        }
    }
    verify(&meta, &table, &publics)
}

/// Checks one instance against the reference calculator's own value.  The
/// contract settles it: for every term count the calculator accepts, this
/// cannot fail.
pub fn check_default_instance(n: usize) -> (r: Result<(), VerifyError>)
    requires
        2 <= n <= 185,
    ensures
        r == Ok::<(), VerifyError>(()),
{
    let expected = FieldValue::from_u128(crate::recurrence::fib_calc(n));
    check_instance(n, expected)
}

} // verus!
