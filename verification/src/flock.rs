//! The flock and its tick.

use vstd::prelude::*;
use crate::arith::{arithmetic, meaning, perform, Arithmetic, Operation};
use crate::config::BoidConfig;
use crate::rules;
use crate::rules::{bounded, limit_speed, limited, turn_back};
use crate::scalar::Scalar;
use crate::vec2::Vec2;

verus! {

/// A flock as contracts see it: where each agent stands, how it moves, and
/// the parameters. Index `i` of both sequences is agent `i`.
pub struct FlockView {
    pub positions: Seq<Vec2>,
    pub velocities: Seq<Vec2>,
    pub config: BoidConfig,
}

impl FlockView {
    /// Every agent has a position and a velocity.
    pub open spec fn wf(self) -> bool {
        self.positions.len() == self.velocities.len()
    }

    /// What the three rules give agent `i`: cohesion plus separation, plus
    /// alignment. All of it is read from the flock before the tick.
    pub open spec fn ruled(self, i: int, f: Arithmetic) -> Vec2 {
        let b = self.positions[i];
        let pull = rules::cohesion(self.positions, b, self.config.cohesion, f);
        let push = rules::separation(self.positions, b, self.config.separation, f);
        let drift = rules::alignment(self.velocities, i, self.config.alignment, f);
        pull.sum(push, f).sum(drift, f)
    }

    /// The velocity that a tick gives agent `i`: what the rules give it,
    /// held to the speed limit, then turned back at the edges by where the
    /// agent stood before the tick.
    pub open spec fn velocity_of(self, i: int, f: Arithmetic) -> Vec2 {
        bounded(limited(self.ruled(i, f), self.config.limit, f), self.positions[i], self.config)
    }

    /// The velocities after one tick.
    pub open spec fn next_velocities(self, f: Arithmetic) -> Seq<Vec2> {
        Seq::new(self.positions.len(), |i: int| self.velocity_of(i, f))
    }

    /// The flock after one tick: each agent has its new velocity, and has
    /// moved by it.
    pub open spec fn stepped(self, f: Arithmetic) -> FlockView {
        FlockView {
            positions: Seq::new(
                self.positions.len(),
                |i: int| self.positions[i].sum(self.next_velocities(f)[i], f),
            ),
            velocities: self.next_velocities(f),
            config: self.config,
        }
    }

    /// The flock after `ticks` ticks.
    pub open spec fn after(self, ticks: nat, f: Arithmetic) -> FlockView
        decreases ticks,
    {
        if ticks == 0 {
            self
        } else {
            self.after((ticks - 1) as nat, f).stepped(f)
        }
    }
}

/// Where a draw lands in a range of counts: the floor of
/// `start + (end - start) * unit`.
pub open spec fn ranged(start: usize, end: usize, unit: Scalar, f: Arithmetic) -> Scalar {
    f(
        Operation::Floor(
            f(
                Operation::Add(
                    f(Operation::FromCount(start)),
                    f(Operation::Mul(f(Operation::FromCount((end - start) as usize)), unit)),
                ),
            ),
        ),
    )
}

/// Scales a draw from the unit interval to the range from `start` to `end`
/// and rounds it down to a whole number.
pub fn rand_range<A: Fn(Operation) -> Scalar>(
    start: usize,
    end: usize,
    unit: Scalar,
    arith: &A,
) -> (r: Scalar)
    requires
        start <= end,
        arithmetic(arith),
    ensures
        r == ranged(start, end, unit, meaning(arith)),
{
    let low = perform(arith, Operation::FromCount(start));
    let span = perform(arith, Operation::FromCount(end - start));
    let offset = perform(arith, Operation::Mul(span, unit));
    let place = perform(arith, Operation::Add(low, offset));
    perform(arith, Operation::Floor(place))
}

/// The flock that [`Flock::new_random`] makes of `n` pairs of draws: agent
/// `i` stands where its pair lands in the world, nobody moves, and the world
/// is as wide and as high as the two counts say.
pub open spec fn seeded(
    n: usize,
    width: usize,
    height: usize,
    separation: Scalar,
    alignment: Scalar,
    cohesion: Scalar,
    limit: Scalar,
    draws: Seq<Vec2>,
    f: Arithmetic,
) -> FlockView {
    FlockView {
        positions: Seq::new(
            n as nat,
            |i: int|
                Vec2 {
                    x: ranged(0, width, draws[i].x, f),
                    y: ranged(0, height, draws[i].y, f),
                },
        ),
        velocities: Seq::new(n as nat, |i: int| Vec2::zero_value()),
        config: BoidConfig {
            separation,
            alignment,
            cohesion,
            limit,
            width: f(Operation::FromCount(width)),
            height: f(Operation::FromCount(height)),
        },
    }
}

/// A population of agents of fixed size.
pub struct Flock {
    positions: Vec<Vec2>,
    velocity: Vec<Vec2>,
    config: BoidConfig,
}

impl View for Flock {
    type V = FlockView;

    closed spec fn view(&self) -> FlockView {
        FlockView { positions: self.positions@, velocities: self.velocity@, config: self.config }
    }
}

impl Flock {
    /// Every agent has a position and a velocity.
    #[verifier::type_invariant]
    spec fn paired(&self) -> bool {
        self.positions@.len() == self.velocity@.len()
    }

    /// A flock in a given state; `None` where the two sequences differ in
    /// length.
    pub fn from_parts(positions: Vec<Vec2>, velocity: Vec<Vec2>, config: BoidConfig) -> (r: Option<
        Flock,
    >)
        ensures
            r is Some <==> positions@.len() == velocity@.len(),
            r matches Some(flock) ==> flock@ == (FlockView {
                positions: positions@,
                velocities: velocity@,
                config,
            }),
    {
        if positions.len() == velocity.len() {
            Some(Flock { positions, velocity, config })
        } else {
            None
        }
    }

    /// A flock of `n` agents at rest, scattered over a world of `width` by
    /// `height`. `draws` holds for each agent the two numbers drawn for it
    /// from the unit interval, the one for x first.
    pub fn new_random<A: Fn(Operation) -> Scalar>(
        n: usize,
        width: usize,
        height: usize,
        separation: Scalar,
        alignment: Scalar,
        cohesion: Scalar,
        limit: Scalar,
        draws: &Vec<Vec2>,
        arith: &A,
    ) -> (r: Flock)
        requires
            draws@.len() == n,
            arithmetic(arith),
        ensures
            r@ == seeded(
                n,
                width,
                height,
                separation,
                alignment,
                cohesion,
                limit,
                draws@,
                meaning(arith),
            ),
    {
        let ghost f = meaning(arith);
        let mut positions: Vec<Vec2> = Vec::new();
        let mut velocity: Vec<Vec2> = Vec::new();
        let mut i: usize = 0;
        while i < n
            invariant
                arithmetic(arith),
                f == meaning(arith),
                draws@.len() == n,
                i <= n,
                positions@.len() == i,
                velocity@.len() == i,
                forall|k: int|
                    0 <= k < i ==> positions@[k] == (Vec2 {
                        x: ranged(0, width, draws@[k].x, f),
                        y: ranged(0, height, draws@[k].y, f),
                    }),
                forall|k: int| 0 <= k < i ==> velocity@[k] == Vec2::zero_value(),
            decreases n - i,
        {
            let draw = draws[i];
            let x = rand_range(0, width, draw.x, arith);
            let y = rand_range(0, height, draw.y, arith);
            positions.push(Vec2::new(x, y));
            velocity.push(Vec2::zero());
            i += 1;
        }
        let config = BoidConfig {
            separation,
            alignment,
            cohesion,
            limit,
            width: perform(arith, Operation::FromCount(width)),
            height: perform(arith, Operation::FromCount(height)),
        };
        let flock = Flock { positions, velocity, config };
        assert(flock@.positions =~= seeded(
            n,
            width,
            height,
            separation,
            alignment,
            cohesion,
            limit,
            draws@,
            f,
        ).positions);
        assert(flock@.velocities =~= seeded(
            n,
            width,
            height,
            separation,
            alignment,
            cohesion,
            limit,
            draws@,
            f,
        ).velocities);
        flock
    }

    /// The number of agents.
    pub fn len(&self) -> (n: usize)
        ensures
            n == self@.positions.len(),
            n == self@.velocities.len(),
    {
        proof {
            use_type_invariant(self);
        }
        self.positions.len()
    }

    /// Where the agents stand, by index.
    pub fn positions(&self) -> (r: &[Vec2])
        ensures
            r@ == self@.positions,
    {
        self.positions.as_slice()
    }

    /// How the agents move, by index.
    pub fn velocities(&self) -> (r: &[Vec2])
        ensures
            r@ == self@.velocities,
    {
        self.velocity.as_slice()
    }

    /// The parameters of the flock.
    pub fn config(&self) -> (r: &BoidConfig)
        ensures
            *r == self@.config,
    {
        &self.config
    }

    /// The same agents under other parameters.
    pub fn with_config(self, config: BoidConfig) -> (r: Flock)
        ensures
            r@ == (FlockView { config, ..self@ }),
    {
        proof {
            use_type_invariant(&self);
        }
        Flock { positions: self.positions, velocity: self.velocity, config }
    }

    /// Cohesion for an agent that stands at `b`.
    pub fn cohesion<A: Fn(Operation) -> Scalar>(&self, b: &Vec2, arith: &A) -> (r: Vec2)
        requires
            arithmetic(arith),
        ensures
            r == rules::cohesion(self@.positions, *b, self@.config.cohesion, meaning(arith)),
    {
        let ghost f = meaning(arith);
        let mut acc = Vec2::zero();
        let mut j: usize = 0;
        proof {
            reveal(Seq::filter);
            assert(self.positions@.take(0) =~= Seq::<Vec2>::empty());
        }
        while j < self.positions.len()
            invariant
                arithmetic(arith),
                f == meaning(arith),
                j <= self.positions.len(),
                acc == rules::total(rules::others(self.positions@.take(j as int), *b), f),
            decreases self.positions.len() - j,
        {
            let c = self.positions[j];
            proof {
                let seen = self.positions@.take(j as int);
                assert(self.positions@.take(j + 1) =~= seen.push(c));
                rules::lemma_others_push(seen, c, *b);
                rules::lemma_total_push(rules::others(seen, *b), c, f);
            }
            if !b.eq(&c) {
                acc = acc.add(c, arith);
            }
            j += 1;
        }
        proof {
            assert(self.positions@.take(j as int) =~= self.positions@);
        }
        acc.div(self.config.cohesion, arith)
    }

    /// Separation for an agent that stands at `b`.
    pub fn separation<A: Fn(Operation) -> Scalar>(&self, b: &Vec2, arith: &A) -> (r: Vec2)
        requires
            arithmetic(arith),
        ensures
            r == rules::separation(self@.positions, *b, self@.config.separation, meaning(arith)),
    {
        let ghost f = meaning(arith);
        let radius = self.config.separation;
        let mut acc = Vec2::zero();
        let mut j: usize = 0;
        proof {
            reveal(Seq::filter);
            assert(rules::displacements(self.positions@.take(0), *b, f) =~= Seq::<Vec2>::empty());
        }
        while j < self.positions.len()
            invariant
                arithmetic(arith),
                f == meaning(arith),
                j <= self.positions.len(),
                acc == rules::withdrawn(rules::close(self.positions@.take(j as int), *b, radius, f), f),
            decreases self.positions.len() - j,
        {
            let c = self.positions[j];
            let d = b.sub(c, arith);
            proof {
                let seen = self.positions@.take(j as int);
                assert(self.positions@.take(j + 1) =~= seen.push(c));
                rules::lemma_close_push(seen, c, *b, radius, f);
                rules::lemma_withdrawn_push(rules::close(seen, *b, radius, f), d, f);
            }
            if d.abs(arith).lt(radius) {
                acc = acc.sub(d, arith);
            }
            j += 1;
        }
        proof {
            assert(self.positions@.take(j as int) =~= self.positions@);
        }
        acc
    }

    /// Alignment for the agent at index `e`, among agents that move as
    /// `velocity` says.
    pub fn alignment<A: Fn(Operation) -> Scalar>(
        &self,
        velocity: &Vec<Vec2>,
        e: usize,
        arith: &A,
    ) -> (r: Vec2)
        requires
            arithmetic(arith),
        ensures
            r == rules::alignment(velocity@, e as int, self@.config.alignment, meaning(arith)),
    {
        let ghost f = meaning(arith);
        let mut acc = Vec2::zero();
        let mut j: usize = 0;
        proof {
            assert(velocity@.take(0) =~= Seq::<Vec2>::empty());
        }
        while j < velocity.len()
            invariant
                arithmetic(arith),
                f == meaning(arith),
                j <= velocity.len(),
                acc == rules::total(rules::excluding(velocity@.take(j as int), e as int), f),
            decreases velocity.len() - j,
        {
            let v = velocity[j];
            proof {
                let seen = velocity@.take(j as int);
                assert(velocity@.take(j + 1) =~= seen.push(v));
                rules::lemma_excluding_push(seen, v, e as int);
                rules::lemma_total_push(rules::excluding(seen, e as int), v, f);
            }
            if j != e {
                acc = acc.add(v, arith);
            }
            j += 1;
        }
        proof {
            assert(velocity@.take(j as int) =~= velocity@);
        }
        acc.div(self.config.alignment, arith)
    }

    /// One tick. Every agent gets the velocity that the rules give it in the
    /// flock as it was before the tick, and then moves by that velocity.
    pub fn step<A: Fn(Operation) -> Scalar>(&mut self, arith: &A)
        requires
            arithmetic(arith),
        ensures
            final(self)@ == old(self)@.stepped(meaning(arith)),
    {
        proof {
            use_type_invariant(&*self);
        }
        let ghost f = meaning(arith);
        let ghost before = self@;
        let n = self.positions.len();
        let mut next: Vec<Vec2> = Vec::new();
        let mut i: usize = 0;
        while i < n
            invariant
                arithmetic(arith),
                f == meaning(arith),
                self@ == before,
                n == self.positions@.len(),
                n == self.velocity@.len(),
                i <= n,
                next@.len() == i,
                forall|k: int| 0 <= k < i ==> next@[k] == before.velocity_of(k, f),
            decreases n - i,
        {
            let position = self.positions[i];
            let pull = self.cohesion(&position, arith);
            let push = self.separation(&position, arith);
            let drift = self.alignment(&self.velocity, i, arith);
            let ruled = pull.add(push, arith).add(drift, arith);
            let held = limit_speed(ruled, self.config.limit, arith);
            next.push(turn_back(held, position, &self.config));
            i += 1;
        }
        assert(next@ =~= before.next_velocities(f));
        let mut i: usize = 0;
        while i < n
            invariant
                arithmetic(arith),
                f == meaning(arith),
                n == before.positions.len(),
                self.positions@.len() == n,
                self.velocity@.len() == n,
                self.velocity@ == before.velocities,
                self.config == before.config,
                next@ == before.next_velocities(f),
                i <= n,
                forall|k: int| 0 <= k < i ==> self.positions@[k] == before.positions[k].sum(next@[k], f),
                forall|k: int| i <= k < n ==> self.positions@[k] == before.positions[k],
            decreases n - i,
        {
            let moved = self.positions[i].add(next[i], arith);
            self.positions[i] = moved;
            i += 1;
        }
        self.velocity = next;
        assert(self@.positions =~= before.stepped(f).positions);
    }
}

} // verus!
