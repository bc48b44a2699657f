//! The three rules that steer an agent, the speed limit and the edges of the
//! world, as functions of the flock before the tick.

use vstd::prelude::*;
use crate::arith::{arithmetic, meaning, Arithmetic, Operation};
use crate::config::BoidConfig;
use crate::scalar::Scalar;
use crate::vec2::Vec2;

verus! {

/// The terms added up in order, from the zero vector on.
pub open spec fn total(terms: Seq<Vec2>, f: Arithmetic) -> Vec2
    decreases terms.len(),
{
    if terms.len() == 0 {
        Vec2::zero_value()
    } else {
        total(terms.drop_last(), f).sum(terms.last(), f)
    }
}

/// The terms taken away in order, from the zero vector on.
pub open spec fn withdrawn(terms: Seq<Vec2>, f: Arithmetic) -> Vec2
    decreases terms.len(),
{
    if terms.len() == 0 {
        Vec2::zero_value()
    } else {
        withdrawn(terms.drop_last(), f).difference(terms.last(), f)
    }
}

/// The positions that differ in value from `b`. An agent that stands exactly
/// where `b` stands is left out with it.
pub open spec fn others(positions: Seq<Vec2>, b: Vec2) -> Seq<Vec2> {
    positions.filter(|c: Vec2| !b.same(c))
}

/// Cohesion: the sum of the other agents' positions, divided by `divisor`.
pub open spec fn cohesion(positions: Seq<Vec2>, b: Vec2, divisor: Scalar, f: Arithmetic) -> Vec2 {
    total(others(positions, b), f).quotient(divisor, f)
}

/// The displacement `b - c` for each position `c`, in order.
pub open spec fn displacements(positions: Seq<Vec2>, b: Vec2, f: Arithmetic) -> Seq<Vec2> {
    positions.map_values(|c: Vec2| b.difference(c, f))
}

/// Of the displacements, those strictly shorter than `radius`.
pub open spec fn close(positions: Seq<Vec2>, b: Vec2, radius: Scalar, f: Arithmetic) -> Seq<Vec2> {
    displacements(positions, b, f).filter(|d: Vec2| d.norm(f).spec_lt(radius))
}

/// Separation: minus the displacement to each agent strictly nearer than
/// `radius`. The agent itself is among them, at a displacement of `b - b`.
pub open spec fn separation(positions: Seq<Vec2>, b: Vec2, radius: Scalar, f: Arithmetic) -> Vec2 {
    withdrawn(close(positions, b, radius, f), f)
}

/// The velocities without the one at index `e`; all of them where there is
/// no such index.
pub open spec fn excluding(velocities: Seq<Vec2>, e: int) -> Seq<Vec2> {
    if 0 <= e < velocities.len() {
        velocities.remove(e)
    } else {
        velocities
    }
}

/// Alignment: the sum of the velocities of all agents but the one at index
/// `e`, divided by `divisor`.
pub open spec fn alignment(velocities: Seq<Vec2>, e: int, divisor: Scalar, f: Arithmetic) -> Vec2 {
    total(excluding(velocities, e), f).quotient(divisor, f)
}

/// The speed limit: a velocity whose norm is strictly above `limit` is
/// divided by its norm and multiplied by `limit`; any other is kept.
pub open spec fn limited(v: Vec2, limit: Scalar, f: Arithmetic) -> Vec2 {
    let speed = v.norm(f);
    if speed.spec_gt(limit) {
        v.quotient(speed, f).product(limit, f)
    } else {
        v
    }
}

/// One component of a velocity at the edges: `-3` where the coordinate lies
/// strictly beyond `bound`, `3` where it lies strictly below zero, else the
/// component as it was.
pub open spec fn turned(component: Scalar, coordinate: Scalar, bound: Scalar) -> Scalar {
    if coordinate.spec_gt(bound) {
        Scalar::minus_three_value()
    } else if coordinate.spec_lt(Scalar::zero_value()) {
        Scalar::three_value()
    } else {
        component
    }
}

/// A velocity at the edges of the world: x is turned at `width`, y at
/// `height`, each by the position before the tick.
pub open spec fn bounded(v: Vec2, position: Vec2, config: BoidConfig) -> Vec2 {
    Vec2 {
        x: turned(v.x, position.x, config.width),
        y: turned(v.y, position.y, config.height),
    }
}

/// Holds a velocity to the speed limit.
pub fn limit_speed<A: Fn(Operation) -> Scalar>(v: Vec2, limit: Scalar, arith: &A) -> (r: Vec2)
    requires
        arithmetic(arith),
    ensures
        r == limited(v, limit, meaning(arith)),
{
    let speed = v.abs(arith);
    if speed.gt(limit) {
        v.div(speed, arith).mul(limit, arith)
    } else {
        v
    }
}

/// Turns one component of a velocity back at the edges.
pub fn turn(component: Scalar, coordinate: Scalar, bound: Scalar) -> (r: Scalar)
    ensures
        r == turned(component, coordinate, bound),
{
    if coordinate.gt(bound) {
        Scalar::minus_three()
    } else if coordinate.lt(Scalar::zero()) {
        Scalar::three()
    } else {
        component
    }
}

/// Turns a velocity back at the edges of the world.
pub fn turn_back(v: Vec2, position: Vec2, config: &BoidConfig) -> (r: Vec2)
    ensures
        r == bounded(v, position, *config),
{
    Vec2 {
        x: turn(v.x, position.x, config.width),
        y: turn(v.y, position.y, config.height),
    }
}

/// What one more term adds to a total.
pub proof fn lemma_total_push(terms: Seq<Vec2>, v: Vec2, f: Arithmetic)
    ensures
        total(terms.push(v), f) == total(terms, f).sum(v, f),
{
    assert(terms.push(v).drop_last() =~= terms);
}

/// What one more term takes from what was withdrawn.
pub proof fn lemma_withdrawn_push(terms: Seq<Vec2>, v: Vec2, f: Arithmetic)
    ensures
        withdrawn(terms.push(v), f) == withdrawn(terms, f).difference(v, f),
{
    assert(terms.push(v).drop_last() =~= terms);
}

/// What one more position adds to the others of `b`.
pub proof fn lemma_others_push(positions: Seq<Vec2>, c: Vec2, b: Vec2)
    ensures
        others(positions.push(c), b) == if b.same(c) {
            others(positions, b)
        } else {
            others(positions, b).push(c)
        },
{
    reveal(Seq::filter);
    assert(positions.push(c).drop_last() =~= positions);
}

/// What one more position adds to the close displacements of `b`.
pub proof fn lemma_close_push(positions: Seq<Vec2>, c: Vec2, b: Vec2, radius: Scalar, f: Arithmetic)
    ensures
        close(positions.push(c), b, radius, f) == if b.difference(c, f).norm(f).spec_lt(radius) {
            close(positions, b, radius, f).push(b.difference(c, f))
        } else {
            close(positions, b, radius, f)
        },
{
    reveal(Seq::filter);
    let all = displacements(positions.push(c), b, f);
    assert(all.drop_last() =~= displacements(positions, b, f));
    assert(all.last() == b.difference(c, f));
}

/// What one more velocity adds to the velocities without the one at `e`.
pub proof fn lemma_excluding_push(velocities: Seq<Vec2>, v: Vec2, e: int)
    ensures
        excluding(velocities.push(v), e) == if e == velocities.len() {
            excluding(velocities, e)
        } else {
            excluding(velocities, e).push(v)
        },
{
    if e == velocities.len() {
        assert(velocities.push(v).remove(e) =~= velocities);
    } else if 0 <= e < velocities.len() {
        assert(velocities.push(v).remove(e) =~= velocities.remove(e).push(v));
    }
}

} // verus!
