//! Vectors of the plane.

use vstd::prelude::*;
use crate::arith::{arithmetic, meaning, perform, Arithmetic, Operation};
use crate::scalar::Scalar;

verus! {

/// A point or a displacement in the plane.
#[derive(Clone, Copy, Debug)]
pub struct Vec2 {
    pub x: Scalar,
    pub y: Scalar,
}

impl Vec2 {
    /// The vector whose components are both positive zero.
    pub open spec fn zero_value() -> Vec2 {
        Vec2 { x: Scalar::zero_value(), y: Scalar::zero_value() }
    }

    /// Both components are numbers of equal value. A vector with a NaN in it
    /// is not the same as any vector, itself included.
    pub open spec fn same(self, other: Vec2) -> bool {
        self.x.spec_eq(other.x) && self.y.spec_eq(other.y)
    }

    /// `self + other`, component by component.
    pub open spec fn sum(self, other: Vec2, f: Arithmetic) -> Vec2 {
        Vec2 {
            x: f(Operation::Add(self.x, other.x)),
            y: f(Operation::Add(self.y, other.y)),
        }
    }

    /// `self - other`, component by component.
    pub open spec fn difference(self, other: Vec2, f: Arithmetic) -> Vec2 {
        Vec2 {
            x: f(Operation::Sub(self.x, other.x)),
            y: f(Operation::Sub(self.y, other.y)),
        }
    }

    /// Each component divided by `k`.
    pub open spec fn quotient(self, k: Scalar, f: Arithmetic) -> Vec2 {
        Vec2 { x: f(Operation::Div(self.x, k)), y: f(Operation::Div(self.y, k)) }
    }

    /// Each component multiplied by `k`.
    pub open spec fn product(self, k: Scalar, f: Arithmetic) -> Vec2 {
        Vec2 { x: f(Operation::Mul(self.x, k)), y: f(Operation::Mul(self.y, k)) }
    }

    /// The Euclidean norm: the root of `x * x + y * y`.
    pub open spec fn norm(self, f: Arithmetic) -> Scalar {
        f(
            Operation::Sqrt(
                f(
                    Operation::Add(
                        f(Operation::Mul(self.x, self.x)),
                        f(Operation::Mul(self.y, self.y)),
                    ),
                ),
            ),
        )
    }

    /// The zero vector.
    pub fn zero() -> (r: Vec2)
        ensures
            r == Vec2::zero_value(),
    {
        Vec2 { x: Scalar::zero(), y: Scalar::zero() }
    }

    /// The vector with the given components.
    pub fn new(x: Scalar, y: Scalar) -> (r: Vec2)
        ensures
            r == (Vec2 { x, y }),
    {
        Vec2 { x, y }
    }

    /// Whether the two vectors are the same in value.
    pub fn eq(&self, other: &Vec2) -> (r: bool)
        ensures
            r == self.same(*other),
    {
        self.x.eq(other.x) && self.y.eq(other.y)
    }

    /// The Euclidean norm.
    pub fn abs<A: Fn(Operation) -> Scalar>(&self, arith: &A) -> (r: Scalar)
        requires
            arithmetic(arith),
        ensures
            r == self.norm(meaning(arith)),
    {
        let xx = perform(arith, Operation::Mul(self.x, self.x));
        let yy = perform(arith, Operation::Mul(self.y, self.y));
        let squares = perform(arith, Operation::Add(xx, yy));
        perform(arith, Operation::Sqrt(squares))
    }

    /// `self + other`.
    pub fn add<A: Fn(Operation) -> Scalar>(self, other: Vec2, arith: &A) -> (r: Vec2)
        requires
            arithmetic(arith),
        ensures
            r == self.sum(other, meaning(arith)),
    {
        Vec2 {
            x: perform(arith, Operation::Add(self.x, other.x)),
            y: perform(arith, Operation::Add(self.y, other.y)),
        }
    }

    /// `self - other`.
    pub fn sub<A: Fn(Operation) -> Scalar>(self, other: Vec2, arith: &A) -> (r: Vec2)
        requires
            arithmetic(arith),
        ensures
            r == self.difference(other, meaning(arith)),
    {
        Vec2 {
            x: perform(arith, Operation::Sub(self.x, other.x)),
            y: perform(arith, Operation::Sub(self.y, other.y)),
        }
    }

    /// `self / k`. A zero `k` is divided by like any other number.
    pub fn div<A: Fn(Operation) -> Scalar>(self, k: Scalar, arith: &A) -> (r: Vec2)
        requires
            arithmetic(arith),
        ensures
            r == self.quotient(k, meaning(arith)),
    {
        Vec2 {
            x: perform(arith, Operation::Div(self.x, k)),
            y: perform(arith, Operation::Div(self.y, k)),
        }
    }

    /// `self * k`.
    pub fn mul<A: Fn(Operation) -> Scalar>(self, k: Scalar, arith: &A) -> (r: Vec2)
        requires
            arithmetic(arith),
        ensures
            r == self.product(k, meaning(arith)),
    {
        Vec2 {
            x: perform(arith, Operation::Mul(self.x, k)),
            y: perform(arith, Operation::Mul(self.y, k)),
        }
    }
}

} // verus!
