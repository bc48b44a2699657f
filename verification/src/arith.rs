//! The arithmetic that the library asks of its caller.
//!
//! Rounded sums, products and roots of binary64 are the work of the machine's
//! floating-point unit. The library names each such step as an [`Operation`]
//! and hands it to a function that the caller supplies; what comes back is
//! taken as the result, whatever it is. Every contract that speaks of a
//! computed number does so through [`meaning`].

use vstd::prelude::*;
use crate::scalar::Scalar;

verus! {

/// One step of arithmetic, with its operands.
#[derive(Clone, Copy, Debug)]
pub enum Operation {
    /// The rounded sum of the two.
    Add(Scalar, Scalar),
    /// The rounded difference, first minus second.
    Sub(Scalar, Scalar),
    /// The rounded product of the two.
    Mul(Scalar, Scalar),
    /// The rounded quotient, first by second.
    Div(Scalar, Scalar),
    /// The rounded square root.
    Sqrt(Scalar),
    /// The largest whole number that is not above the operand.
    Floor(Scalar),
    /// The number nearest to a count.
    FromCount(usize),
}

/// An arithmetic, as contracts see it: each operation has one result.
pub type Arithmetic = spec_fn(Operation) -> Scalar;

/// The arithmetic that `arith` computes: for each operation, the result that
/// `arith` promises for it.
pub open spec fn meaning<A: Fn(Operation) -> Scalar>(arith: &A) -> Arithmetic {
    |op: Operation| choose|r: Scalar| arith.ensures((op,), r)
}

/// `arith` can be asked any operation, and answers each with one value.
pub open spec fn arithmetic<A: Fn(Operation) -> Scalar>(arith: &A) -> bool {
    &&& forall|op: Operation| arith.requires((op,))
    &&& forall|op: Operation, r: Scalar| #[trigger]
        arith.ensures((op,), r) ==> r == meaning(arith)(op)
}

/// Asks `arith` for one operation.
pub fn perform<A: Fn(Operation) -> Scalar>(arith: &A, op: Operation) -> (r: Scalar)
    requires
        arithmetic(arith),
    ensures
        r == meaning(arith)(op),
{
    arith(op)
}

} // verus!
