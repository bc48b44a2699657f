//! What holds of every flock and every tick.

use vstd::prelude::*;
use crate::arith::{Arithmetic, Operation};
use crate::config::BoidConfig;
use crate::flock::FlockView;
use crate::rules::{
    alignment, close, cohesion, displacements, excluding, lemma_withdrawn_push, limited, others,
    separation,
};
use crate::scalar::Scalar;
use crate::vec2::Vec2;

verus! {

/// The number of agents never changes: after any number of ticks the flock
/// has a position for each agent it began with, and, once a tick has passed
/// or where it began so, a velocity for each; its parameters are those it
/// began with.
pub proof fn lemma_population_is_fixed(s: FlockView, ticks: nat, f: Arithmetic)
    ensures
        s.after(ticks, f).positions.len() == s.positions.len(),
        s.wf() || ticks > 0 ==> s.after(ticks, f).wf(),
        s.after(ticks, f).config == s.config,
    decreases ticks,
{
    if ticks > 0 {
        lemma_population_is_fixed(s, (ticks - 1) as nat, f);
    }
}

/// A flock without agents is the same flock after any number of ticks.
pub proof fn lemma_empty_flock_stays_empty(s: FlockView, ticks: nat, f: Arithmetic)
    requires
        s.positions.len() == 0,
        s.velocities.len() == 0,
    ensures
        s.after(ticks, f) == s,
    decreases ticks,
{
    if ticks > 0 {
        lemma_empty_flock_stays_empty(s, (ticks - 1) as nat, f);
        let t = s.stepped(f);
        assert(t.positions =~= s.positions);
        assert(t.velocities =~= s.velocities);
    }
}

/// A lone agent whose position is a pair of numbers has nobody to follow:
/// cohesion and alignment are the zero vector divided by their divisors, and
/// separation sees the agent alone, at the displacement from itself.
pub proof fn lemma_lone_agent_follows_nobody(s: FlockView, f: Arithmetic)
    requires
        s.positions.len() == 1,
        s.velocities.len() == 1,
        s.positions[0].same(s.positions[0]),
    ensures
        cohesion(s.positions, s.positions[0], s.config.cohesion, f) == Vec2::zero_value().quotient(
            s.config.cohesion,
            f,
        ),
        alignment(s.velocities, 0, s.config.alignment, f) == Vec2::zero_value().quotient(
            s.config.alignment,
            f,
        ),
        displacements(s.positions, s.positions[0], f) == seq![
            s.positions[0].difference(s.positions[0], f),
        ],
{
    let p = s.positions[0];
    reveal_with_fuel(Seq::filter, 2);
    assert(others(s.positions, p) =~= Seq::<Vec2>::empty());
    assert(excluding(s.velocities, 0) =~= Seq::<Vec2>::empty());
    assert(displacements(s.positions, p, f) =~= seq![p.difference(p, f)]);
}

/// `f` treats zero as binary64 arithmetic does, as far as a lone agent at
/// `p` under `config` asks: zero divided by either divisor is a zero, `p - p`
/// is zero, products, sums, differences and roots of zeros are zero, and
/// `p + 0` is `p`.
pub open spec fn exact_on_zero(f: Arithmetic, p: Vec2, config: BoidConfig) -> bool {
    let z = Scalar::zero_value();
    &&& f(Operation::Div(z, config.cohesion)).magnitude() == 0
    &&& f(Operation::Div(z, config.alignment)).magnitude() == 0
    &&& f(Operation::Sub(p.x, p.x)) == z
    &&& f(Operation::Sub(p.y, p.y)) == z
    &&& f(Operation::Mul(z, z)) == z
    &&& f(Operation::Sqrt(z)) == z
    &&& f(Operation::Sub(z, z)) == z
    &&& forall|q: Scalar| q.magnitude() == 0 ==> #[trigger] f(Operation::Add(q, z)) == z
    &&& forall|q: Scalar| q.magnitude() == 0 ==> #[trigger] f(Operation::Add(z, q)) == z
    &&& f(Operation::Add(p.x, z)) == p.x
    &&& f(Operation::Add(p.y, z)) == p.y
}

/// The position lies in the world: neither coordinate is beyond its bound or
/// below zero.
pub open spec fn within_bounds(p: Vec2, config: BoidConfig) -> bool {
    &&& !p.x.spec_gt(config.width)
    &&& !p.x.spec_lt(Scalar::zero_value())
    &&& !p.y.spec_gt(config.height)
    &&& !p.y.spec_lt(Scalar::zero_value())
}

/// A lone agent that stands at rest where it began.
pub open spec fn resting(s: FlockView) -> FlockView {
    FlockView { positions: s.positions, velocities: seq![Vec2::zero_value()], config: s.config }
}

/// A lone agent within the world, under a speed limit that is not below
/// zero, stands still for as long as the ticks go on, under any arithmetic
/// that treats zero as binary64 arithmetic does.
pub proof fn lemma_lone_agent_stands_still(s: FlockView, ticks: nat, f: Arithmetic)
    requires
        s.positions.len() == 1,
        s.velocities.len() == 1,
        s.positions[0].same(s.positions[0]),
        within_bounds(s.positions[0], s.config),
        !s.config.limit.spec_lt(Scalar::zero_value()),
        exact_on_zero(f, s.positions[0], s.config),
        ticks > 0,
    ensures
        s.after(ticks, f) == resting(s),
    decreases ticks,
{
    let before = s.after((ticks - 1) as nat, f);
    if ticks > 1 {
        lemma_lone_agent_stands_still(s, (ticks - 1) as nat, f);
    }
    lemma_lone_agent_rests_after_a_tick(before, f);
}

proof fn lemma_lone_agent_rests_after_a_tick(s: FlockView, f: Arithmetic)
    requires
        s.positions.len() == 1,
        s.velocities.len() == 1,
        s.positions[0].same(s.positions[0]),
        within_bounds(s.positions[0], s.config),
        !s.config.limit.spec_lt(Scalar::zero_value()),
        exact_on_zero(f, s.positions[0], s.config),
    ensures
        s.stepped(f) == resting(s),
{
    let p = s.positions[0];
    let zero = Vec2::zero_value();
    lemma_lone_agent_follows_nobody(s, f);
    let d = p.difference(p, f);
    assert(separation(s.positions, p, s.config.separation, f) == zero) by {
        reveal_with_fuel(Seq::filter, 2);
        assert(displacements(s.positions, p, f).drop_last() =~= Seq::<Vec2>::empty());
        if d.norm(f).spec_lt(s.config.separation) {
            assert(close(s.positions, p, s.config.separation, f) =~= Seq::<Vec2>::empty().push(d));
            lemma_withdrawn_push(Seq::<Vec2>::empty(), d, f);
        } else {
            assert(close(s.positions, p, s.config.separation, f) =~= Seq::<Vec2>::empty());
        }
    }
    assert(s.ruled(0, f) == zero);
    assert(s.velocity_of(0, f) == zero);
    assert(s.stepped(f).velocities =~= seq![zero]);
    assert(s.stepped(f).positions =~= s.positions);
}

/// At the edges the rules have no say. An agent that stood beyond the width
/// of the world gets -3 along x; one that stood below zero, and not beyond
/// the width, gets 3; likewise along y with the height.
pub proof fn lemma_edges_override(s: FlockView, i: int, f: Arithmetic)
    requires
        0 <= i < s.positions.len(),
    ensures
        s.positions[i].x.spec_gt(s.config.width) ==> s.stepped(f).velocities[i].x
            == Scalar::minus_three_value(),
        !s.positions[i].x.spec_gt(s.config.width) && s.positions[i].x.spec_lt(
            Scalar::zero_value(),
        ) ==> s.stepped(f).velocities[i].x == Scalar::three_value(),
        s.positions[i].y.spec_gt(s.config.height) ==> s.stepped(f).velocities[i].y
            == Scalar::minus_three_value(),
        !s.positions[i].y.spec_gt(s.config.height) && s.positions[i].y.spec_lt(
            Scalar::zero_value(),
        ) ==> s.stepped(f).velocities[i].y == Scalar::three_value(),
{
}

/// Away from the edges the speed limit has the last word: an agent that
/// stood within the world gets what the rules give it where that is no
/// faster than the limit, and else that velocity divided by its norm and
/// multiplied by the limit.
pub proof fn lemma_speed_is_held_within_bounds(s: FlockView, i: int, f: Arithmetic)
    requires
        0 <= i < s.positions.len(),
        within_bounds(s.positions[i], s.config),
    ensures
        s.stepped(f).velocities[i] == limited(s.ruled(i, f), s.config.limit, f),
        s.ruled(i, f).norm(f).spec_gt(s.config.limit) ==> s.stepped(f).velocities[i] == s.ruled(
            i,
            f,
        ).quotient(s.ruled(i, f).norm(f), f).product(s.config.limit, f),
        !s.ruled(i, f).norm(f).spec_gt(s.config.limit) ==> s.stepped(f).velocities[i] == s.ruled(
            i,
            f,
        ),
{
}

/// Separation is strict: an agent that stands at exactly the radius from `b`
/// adds nothing to the separation of `b`, which is what it would be without
/// that agent.
pub proof fn lemma_separation_is_strict(
    positions: Seq<Vec2>,
    j: int,
    b: Vec2,
    radius: Scalar,
    f: Arithmetic,
)
    requires
        0 <= j < positions.len(),
        b.difference(positions[j], f).norm(f).spec_eq(radius),
    ensures
        separation(positions, b, radius, f) == separation(positions.remove(j), b, radius, f),
{
    let near = |d: Vec2| d.norm(f).spec_lt(radius);
    let d = b.difference(positions[j], f);
    let head = displacements(positions.take(j), b, f);
    let tail = displacements(positions.skip(j + 1), b, f);
    assert(displacements(positions, b, f) =~= head + seq![d] + tail);
    assert(displacements(positions.remove(j), b, f) =~= head + tail);
    Seq::filter_distributes_over_add(head + seq![d], tail, near);
    Seq::filter_distributes_over_add(head, seq![d], near);
    Seq::filter_distributes_over_add(head, tail, near);
    assert(seq![d].filter(near) =~= Seq::<Vec2>::empty()) by {
        reveal_with_fuel(Seq::filter, 2);
        assert(seq![d].drop_last() =~= Seq::<Vec2>::empty());
    }
    assert(close(positions, b, radius, f) =~= close(positions.remove(j), b, radius, f));
}

/// Two agents that stand at exactly the radius from each other do not push
/// each other: the separation of each is what it is for that agent alone.
pub proof fn lemma_two_agents_at_the_radius(p: Vec2, q: Vec2, radius: Scalar, f: Arithmetic)
    requires
        p.difference(q, f).norm(f).spec_eq(radius),
        q.difference(p, f).norm(f).spec_eq(radius),
    ensures
        separation(seq![p, q], p, radius, f) == separation(seq![p], p, radius, f),
        separation(seq![p, q], q, radius, f) == separation(seq![q], q, radius, f),
{
    lemma_separation_is_strict(seq![p, q], 1, p, radius, f);
    lemma_separation_is_strict(seq![p, q], 0, q, radius, f);
    assert(seq![p, q].remove(1) =~= seq![p]);
    assert(seq![p, q].remove(0) =~= seq![q]);
}

/// Replay: flocks that begin in one state are in one state after any number
/// of ticks under one arithmetic.
pub proof fn lemma_replay_is_exact(a: FlockView, b: FlockView, ticks: nat, f: Arithmetic)
    requires
        a.positions == b.positions,
        a.velocities == b.velocities,
        a.config == b.config,
    ensures
        a.after(ticks, f) == b.after(ticks, f),
{
}

} // verus!
