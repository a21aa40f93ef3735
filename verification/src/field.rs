//! The finite field the circuit works over.
//!
//! Elements are held as canonical residues modulo [`MODULUS`], the largest
//! prime below `2^128`.  The circuit only ever adds and subtracts witness
//! values, so those are the operations provided, together with the two
//! identities and reduction of a native integer into the field.

use vstd::prelude::*;

verus! {

/// The field modulus: the largest prime below `2^128`.
pub const MODULUS: u128 = 340282366920938463463374607431768211297;

/// One field element, held as a residue modulo [`MODULUS`].
///
/// All constructors of this type return canonical values (`wf` holds);
/// two elements are equal exactly when their residues are.
#[derive(Clone, Copy, Debug, PartialEq, Eq, Structural)]
pub struct FieldValue {
    pub repr: u128,
}

/// The canonical field element of an arbitrary integer.
pub open spec fn fe(x: int) -> FieldValue {
    FieldValue { repr: (x % (MODULUS as int)) as u128 }
}

/// The canonical element of an integer carries its residue and is reduced.
pub proof fn lemma_fe_val(x: int)
    ensures
        fe(x).val() == x % (MODULUS as int),
        fe(x).wf(),
{
    vstd::arithmetic::div_mod::lemma_mod_bound(x, MODULUS as int);
}

impl FieldValue {
    /// The mathematical value of the element.
    pub open spec fn val(self) -> int {
        self.repr as int
    }

    /// Canonical form: the representative is fully reduced.
    pub open spec fn wf(self) -> bool {
        self.repr < MODULUS
    }

    /// The additive identity.
    pub fn zero() -> (r: Self)
        ensures
            r.val() == 0,
            r.wf(),
    {
        FieldValue { repr: 0 }
    }

    /// The multiplicative identity.
    pub fn one() -> (r: Self)
        ensures
            r.val() == 1,
            r.wf(),
    {
        FieldValue { repr: 1 }
    }

    /// Reduces a native integer into the field.
    pub fn from_u128(x: u128) -> (r: Self)
        ensures
            r == fe(x as int),
            r.wf(),
    {
        if x >= MODULUS {
            proof {
                vstd::arithmetic::div_mod::lemma_mod_multiples_vanish(
                    1, x - MODULUS, MODULUS as int);
                vstd::arithmetic::div_mod::lemma_small_mod(
                    (x - MODULUS) as nat, MODULUS as nat);
            }
            FieldValue { repr: x - MODULUS }
        } else {
            proof {
                vstd::arithmetic::div_mod::lemma_small_mod(x as nat, MODULUS as nat);
            }
            FieldValue { repr: x }
        }
    }

    /// Field addition.
    pub fn add(self, rhs: Self) -> (r: Self)
        requires
            self.wf(),
            rhs.wf(),
        ensures
            r.val() == (self.val() + rhs.val()) % (MODULUS as int),
            r.wf(),
    {
        if rhs.repr <= u128::MAX - self.repr {
            let s: u128 = self.repr + rhs.repr;
            if s >= MODULUS {
                proof {
                    vstd::arithmetic::div_mod::lemma_mod_multiples_vanish(
                        1, s - MODULUS, MODULUS as int);
                    vstd::arithmetic::div_mod::lemma_small_mod(
                        (s - MODULUS) as nat, MODULUS as nat);
                }
                FieldValue { repr: s - MODULUS }
            } else {
                proof {
                    vstd::arithmetic::div_mod::lemma_small_mod(s as nat, MODULUS as nat);
                }
                FieldValue { repr: s }
            }
        } else {
            // The true sum lies in [2^128, 2 * MODULUS), so reducing it means
            // subtracting MODULUS exactly once; `s` below is the sum less 2^128.
            let s: u128 = self.repr - (u128::MAX - rhs.repr) - 1;
            proof {
                assert(s as int == self.val() + rhs.val() - 0x1_0000_0000_0000_0000_0000_0000_0000_0000);
                vstd::arithmetic::div_mod::lemma_mod_multiples_vanish(
                    1, s as int + 159, MODULUS as int);
                vstd::arithmetic::div_mod::lemma_small_mod(
                    (s + 159) as nat, MODULUS as nat);
            }
            FieldValue { repr: s + 159 }
        }
    }

    /// Field subtraction.
    pub fn sub(self, rhs: Self) -> (r: Self)
        requires
            self.wf(),
            rhs.wf(),
        ensures
            r.val() == (self.val() - rhs.val()) % (MODULUS as int),
            r.wf(),
    {
        if self.repr >= rhs.repr {
            proof {
                vstd::arithmetic::div_mod::lemma_small_mod(
                    (self.repr - rhs.repr) as nat, MODULUS as nat);
            }
            FieldValue { repr: self.repr - rhs.repr }
        } else {
            let s: u128 = self.repr + (MODULUS - rhs.repr);
            proof {
                vstd::arithmetic::div_mod::lemma_mod_multiples_vanish(
                    -1, s as int, MODULUS as int);
                vstd::arithmetic::div_mod::lemma_small_mod(s as nat, MODULUS as nat);
            }
            FieldValue { repr: s }
        }
    }
}

} // verus!
