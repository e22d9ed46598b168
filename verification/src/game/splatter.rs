//! Splatter: bursts of short-lived particles.

use crate::engine::math::{cos_milli, cosine, quotient, sin_milli, sine, Vec2};
use crate::engine::rng::{advance, advance_by, lemma_roll_range, nth_roll, Rng};
use crate::game::{MyGame, Splat, Splatter, World};
use vstd::prelude::*;

verus! {

/// The speed that a particle of a kind gets from a roll: explosions fly
/// at 1 to 3 units per tick, everything else at 0.5 to 4.5.
pub open spec fn particle_speed(kind: Splat, roll: int) -> int {
    if kind is Explosion {
        1000 + 2 * roll
    } else {
        500 + 4 * roll
    }
}

/// The number of ticks that a particle of a kind gets from a roll:
/// 24 to 31 for explosions, 10 to 14 for everything else.
pub open spec fn particle_life(kind: Splat, roll: int) -> int {
    if kind is Explosion {
        24 + roll / 125
    } else {
        10 + roll / 200
    }
}

/// The angle of one velocity coordinate of the `i`-th of `amount`
/// particles: the particle's share of half a turn, plus up to eight half
/// turns of jitter.
pub open spec fn particle_angle(i: int, amount: int, roll: int) -> int {
    (i * 3142) / amount + (8 * roll * 3142) / 1000
}

/// The `i`-th of `amount` particles thrown from `pos`. The two velocity
/// coordinates take their angles from separate rolls, so the particles
/// form a ragged fan and not a circle.
pub open spec fn particle(
    pos: Vec2,
    kind: Splat,
    i: int,
    amount: int,
    speed_roll: int,
    x_roll: int,
    y_roll: int,
    life_roll: int,
) -> Splatter {
    let v = particle_speed(kind, speed_roll);
    Splatter {
        pos,
        kind,
        vel: Vec2 {
            x: quotient(v * cosine(particle_angle(i, amount, x_roll)), 1000) as i32,
            y: quotient(v * sine(particle_angle(i, amount, y_roll)), 1000) as i32,
        },
        life: particle_life(kind, life_roll) as i8,
    }
}

/// The `i`-th particle of a burst that draws its rolls from state `s`:
/// four rolls per particle, for speed, the two angles, and life.
pub open spec fn burst_at(s: u64, pos: Vec2, amount: int, kind: Splat, i: int) -> Splatter {
    particle(
        pos,
        kind,
        i,
        amount,
        nth_roll(s, (4 * i) as nat),
        nth_roll(s, (4 * i + 1) as nat),
        nth_roll(s, (4 * i + 2) as nat),
        nth_roll(s, (4 * i + 3) as nat),
    )
}

/// A burst of `amount` particles thrown from `pos`.
pub open spec fn burst(s: u64, pos: Vec2, amount: int, kind: Splat) -> Seq<Splatter> {
    Seq::new(amount as nat, |i: int| burst_at(s, pos, amount, kind, i))
}

/// The generator's state after a burst of `amount` particles.
pub open spec fn after_burst(s: u64, amount: int) -> u64 {
    advance_by(s, (4 * amount) as nat)
}

/// A particle one tick older: moved by its velocity, one tick less to
/// live.
pub open spec fn aged(p: Splatter) -> Splatter {
    Splatter {
        pos: p.pos.plus(p.vel),
        kind: p.kind,
        vel: p.vel,
        life: if p.life > -128 {
            (p.life - 1) as i8
        } else {
            p.life
        },
    }
}

/// The particles one tick later: each one aged, the spent ones gone.
pub open spec fn splatter_aged(ps: Seq<Splatter>) -> Seq<Splatter> {
    ps.map_values(|p: Splatter| aged(p)).filter(|p: Splatter| p.life > 0)
}

/// Every particle of a burst is thrown from `pos`, has the burst's kind,
/// and has between 10 and 31 ticks to live.
pub proof fn lemma_burst_particles(s: u64, pos: Vec2, amount: int, kind: Splat, i: int)
    requires
        0 <= i < amount,
    ensures
        burst(s, pos, amount, kind).len() == amount,
        burst(s, pos, amount, kind)[i].pos == pos,
        burst(s, pos, amount, kind)[i].kind == kind,
        10 <= burst(s, pos, amount, kind)[i].life <= 31,
{
    lemma_roll_range(advance_by(s, (4 * i + 4) as nat));
}

/// Builds one particle from its four rolls.
pub fn make_particle(
    pos: Vec2,
    kind: Splat,
    i: u8,
    amount: u8,
    speed_roll: i32,
    x_roll: i32,
    y_roll: i32,
    life_roll: i32,
) -> (p: Splatter)
    requires
        i < amount,
        0 <= speed_roll < 1000,
        0 <= x_roll < 1000,
        0 <= y_roll < 1000,
        0 <= life_roll < 1000,
    ensures
        p == particle(
            pos,
            kind,
            i as int,
            amount as int,
            speed_roll as int,
            x_roll as int,
            y_roll as int,
            life_roll as int,
        ),
{
    let explosion = match kind {
        Splat::Explosion => true,
        _ => false,
    };
    let v: i64 = if explosion {
        1000 + 2 * speed_roll as i64
    } else {
        500 + 4 * speed_roll as i64
    };
    let fan: i32 = (i as i32 * 3142) / amount as i32;
    let ax: i32 = fan + (8 * x_roll * 3142) / 1000;
    let ay: i32 = fan + (8 * y_roll * 3142) / 1000;
    let c: i64 = cos_milli(ax) as i64;
    let s: i64 = sin_milli(ay) as i64;
    assert(-5_000_000 <= v * c <= 5_000_000 && -5_000_000 <= v * s <= 5_000_000)
        by (nonlinear_arith)
        requires
            0 <= v <= 5000,
            -1000 <= c <= 1000,
            -1000 <= s <= 1000,
    ;
    let life: i32 = if explosion {
        24 + life_roll / 125
    } else {
        10 + life_roll / 200
    };
    Splatter {
        pos,
        kind,
        vel: Vec2 { x: ((v * c) / 1000) as i32, y: ((v * s) / 1000) as i32 },
        life: life as i8,
    }
}

impl MyGame {
    /// Throws `amount` particles of one kind from `pos`, drawing four
    /// rolls for each.
    pub fn add_splatter(
        splatter: &mut Vec<Splatter>,
        pos: &Vec2,
        amount: u8,
        kind: Splat,
        rng: &mut Rng,
    )
        ensures
            final(splatter)@ == old(splatter)@ + burst(
                old(rng).state,
                *pos,
                amount as int,
                kind,
            ),
            final(rng).state == after_burst(old(rng).state, amount as int),
    {
        let ghost s0 = rng.state;
        let ghost before = splatter@;
        let mut i: u8 = 0;
        while i < amount
            invariant
                i <= amount,
                rng.state == advance_by(s0, (4 * i) as nat),
                splatter@.len() == before.len() + i,
                forall|j: int| 0 <= j < before.len() ==> splatter@[j] == before[j],
                forall|j: int|
                    0 <= j < i ==> splatter@[before.len() + j] == burst_at(
                        s0,
                        *pos,
                        amount as int,
                        kind,
                        j,
                    ),
            decreases amount - i,
        {
            let ghost si = rng.state;
            let speed_roll = rng.roll();
            let x_roll = rng.roll();
            let y_roll = rng.roll();
            let life_roll = rng.roll();
            proof {
                let n = (4 * i) as nat;
                assert(advance_by(s0, n + 1) == advance(advance_by(s0, n)));
                assert(advance_by(s0, n + 2) == advance(advance_by(s0, (n + 1) as nat)));
                assert(advance_by(s0, n + 3) == advance(advance_by(s0, (n + 2) as nat)));
                assert(advance_by(s0, n + 4) == advance(advance_by(s0, (n + 3) as nat)));
            }
            let p = make_particle(*pos, kind, i, amount, speed_roll, x_roll, y_roll, life_roll);
            splatter.push(p);
            i = i + 1;
        }
        assert(splatter@ =~= before + burst(s0, *pos, amount as int, kind));
    }

    /// Ages every particle by one tick and drops the spent ones.
    pub fn update_splatter(&mut self)
        ensures
            final(self).splatter@ == splatter_aged(old(self).splatter@),
            final(self)@ == (World { splatter: final(self).splatter@, ..old(self)@ }),
            final(self).same_assets(old(self)),
    {
        let ghost before = self.splatter@;
        let ghost grown = before.map_values(|p: Splatter| aged(p));
        let ghost alive = |p: Splatter| p.life > 0;
        let mut kept: Vec<Splatter> = Vec::new();
        let n = self.splatter.len();
        let mut i: usize = 0;
        proof {
            reveal(Seq::filter);
            assert(grown.take(0) =~= Seq::<Splatter>::empty());
        }
        while i < n
            invariant
                i <= n,
                n == self.splatter@.len(),
                self.splatter@ == before,
                grown == before.map_values(|p: Splatter| aged(p)),
                alive == (|p: Splatter| p.life > 0),
                kept@ == grown.take(i as int).filter(alive),
            decreases n - i,
        {
            let p = self.splatter[i];
            let mut pos = p.pos;
            pos.add(&p.vel);
            let life: i8 = if p.life > -128 {
                p.life - 1
            } else {
                p.life
            };
            let q = Splatter { pos, kind: p.kind, vel: p.vel, life };
            proof {
                reveal(Seq::filter);
                assert(q == aged(before[i as int]));
                assert(grown.take(i + 1).drop_last() =~= grown.take(i as int));
                assert(grown.take(i + 1).last() == q);
            }
            if life > 0 {
                kept.push(q);
            }
            i = i + 1;
        }
        assert(grown.take(n as int) =~= grown);
        self.splatter = kept;
    }
}

} // verus!
