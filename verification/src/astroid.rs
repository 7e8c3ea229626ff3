//! Asteroids: spawning at a random screen edge with an inward heading,
//! drifting at constant speed, and the spawner that paces new arrivals.

use crate::rng::random_in;
use crate::units::{
    angle_ok, coord_bounded, coord_near_screen, scaled_step, spec_astroid_on_screen, step_amount,
    ASTROID_MARGIN, HALF_PI_UNITS, MAX_X, MAX_Y, PI_UNITS, TAU_UNITS, TrigPair,
};
use vstd::prelude::*;

verus! {

/// Largest asteroid size; a fresh asteroid's size is drawn from `1..=this`.
pub const ASTROID_MAX_SIZE: u8 = 5;

/// How far, in angle units, a spawn heading keeps away from running parallel
/// to its edge (roughly 0.2 radians).
pub const ASTROID_ANGLE_MARGIN: i64 = 500;

/// How far from the screen corners, in position units, an asteroid spawns
/// along its edge (50 pixels).
pub const ASTROID_BUFFER_ZONE: i64 = 50000;

/// Drift speed of every asteroid, in position units per tick (1 pixel).
pub const ASTROID_SPEED: i64 = 1000;

/// Radius of an asteroid per unit of size, in position units (5 pixels).
pub const ASTROID_RADIUS_FACTOR: i64 = 5000;

/// Physics ticks per second; also the floor of the spawn interval.
pub const PHYSICS_TICK_RATE: u64 = 144;

/// Spawn interval at the start of a game: five seconds of ticks.
pub const STARTING_SPAWN_RATE: u64 = 720;

/// How many ticks the spawn interval shrinks by after each spawn: a tenth of
/// a second.
pub const SPAWN_RATE_STEP: u64 = 14;

/// A drifting rock: a position, a fixed heading and a size that shrinks under
/// fire.
#[derive(Clone, Copy)]
pub struct Astroid {
    pub x: i64,
    pub y: i64,
    pub angle: i64,
    pub size: u8,
}

impl Astroid {
    /// Coordinates inside the arena bound, a canonical angle, and a size
    /// between one and the maximum.
    pub open spec fn wf(self) -> bool {
        &&& coord_bounded(self.x as int)
        &&& coord_bounded(self.y as int)
        &&& angle_ok(self.angle as int)
        &&& 1 <= self.size <= ASTROID_MAX_SIZE
    }

    /// The asteroid sits on one screen edge, away from the corners, and its
    /// heading points into the screen with a margin to the edge's direction.
    pub open spec fn spawned_inward(self) -> bool {
        ||| (self.x == 0 && ASTROID_BUFFER_ZONE <= self.y < MAX_Y - ASTROID_BUFFER_ZONE
            && ASTROID_ANGLE_MARGIN <= self.angle < PI_UNITS - ASTROID_ANGLE_MARGIN)
        ||| (self.x == MAX_X && ASTROID_BUFFER_ZONE <= self.y < MAX_Y - ASTROID_BUFFER_ZONE
            && PI_UNITS + ASTROID_ANGLE_MARGIN <= self.angle < TAU_UNITS - ASTROID_ANGLE_MARGIN)
        ||| (self.y == 0 && ASTROID_BUFFER_ZONE <= self.x < MAX_X - ASTROID_BUFFER_ZONE
            && HALF_PI_UNITS + ASTROID_ANGLE_MARGIN <= self.angle < PI_UNITS + HALF_PI_UNITS
                - ASTROID_ANGLE_MARGIN)
        ||| (self.y == MAX_Y && ASTROID_BUFFER_ZONE <= self.x < MAX_X - ASTROID_BUFFER_ZONE
            && (self.angle >= TAU_UNITS - HALF_PI_UNITS + ASTROID_ANGLE_MARGIN || self.angle
                < HALF_PI_UNITS - ASTROID_ANGLE_MARGIN))
    }

    /// Spawn an asteroid on a random edge: its position keeps the buffer zone
    /// to the corners, its heading points inward, and its size is between one
    /// and the maximum. Which edge, position, heading and size come up is
    /// left to chance.
    pub fn new() -> (r: Astroid)
        ensures
            r.wf(),
            r.spawned_inward(),
    {
        let edge = random_in(0, 4);
        let size = random_in(1, ASTROID_MAX_SIZE as i64 + 1) as u8;
        match edge {
            0 => Astroid {
                x: 0,
                y: random_in(ASTROID_BUFFER_ZONE, MAX_Y - ASTROID_BUFFER_ZONE),
                angle: random_in(ASTROID_ANGLE_MARGIN, PI_UNITS - ASTROID_ANGLE_MARGIN),
                size,
            },
            1 => Astroid {
                x: MAX_X,
                y: random_in(ASTROID_BUFFER_ZONE, MAX_Y - ASTROID_BUFFER_ZONE),
                angle: random_in(
                    PI_UNITS + ASTROID_ANGLE_MARGIN,
                    TAU_UNITS - ASTROID_ANGLE_MARGIN,
                ),
                size,
            },
            2 => Astroid {
                x: random_in(ASTROID_BUFFER_ZONE, MAX_X - ASTROID_BUFFER_ZONE),
                y: 0,
                angle: random_in(
                    HALF_PI_UNITS + ASTROID_ANGLE_MARGIN,
                    PI_UNITS + HALF_PI_UNITS - ASTROID_ANGLE_MARGIN,
                ),
                size,
            },
            _ => {
                let raw = random_in(
                    -(HALF_PI_UNITS - ASTROID_ANGLE_MARGIN),
                    HALF_PI_UNITS - ASTROID_ANGLE_MARGIN,
                );
                let angle = if raw < 0 {
                    raw + TAU_UNITS
                } else {
                    raw
                };
                Astroid {
                    x: random_in(ASTROID_BUFFER_ZONE, MAX_X - ASTROID_BUFFER_ZONE),
                    y: MAX_Y,
                    angle,
                    size,
                }
            },
        }
    }

    /// One drift step: advance along the fixed heading at the asteroid speed.
    pub fn process_movement(&mut self, trig: TrigPair)
        requires
            old(self).wf(),
            coord_near_screen(old(self).x as int),
            coord_near_screen(old(self).y as int),
            trig.wf(),
        ensures
            final(self).x == old(self).x + scaled_step(ASTROID_SPEED as int, trig.sin as int),
            final(self).y == old(self).y - scaled_step(ASTROID_SPEED as int, trig.cos as int),
            final(self).angle == old(self).angle,
            final(self).size == old(self).size,
            final(self).wf(),
    {
        self.x = self.x + step_amount(ASTROID_SPEED, trig.sin);
        self.y = self.y - step_amount(ASTROID_SPEED, trig.cos);
    }

    /// Whether the asteroid is still within its despawn margin of the screen.
    pub fn is_on_screen(&self) -> (r: bool)
        ensures
            r == spec_astroid_on_screen(self.x as int, self.y as int),
    {
        !(self.x < -ASTROID_MARGIN || self.x > MAX_X + ASTROID_MARGIN || self.y < -ASTROID_MARGIN
            || self.y > MAX_Y + ASTROID_MARGIN)
    }
}

/// The next spawn interval after a spawn: one step shorter, floored at one
/// second of ticks.
pub open spec fn next_spawn_rate(rate: int) -> int {
    if rate - SPAWN_RATE_STEP < PHYSICS_TICK_RATE {
        PHYSICS_TICK_RATE as int
    } else {
        rate - SPAWN_RATE_STEP
    }
}

/// The asteroids of `s` that are still within their despawn margin of the
/// screen, in their original order.
pub open spec fn visible_only(s: Seq<Astroid>) -> Seq<Astroid>
    decreases s.len(),
{
    if s.len() == 0 {
        Seq::empty()
    } else {
        let rest = visible_only(s.drop_last());
        if spec_astroid_on_screen(s.last().x as int, s.last().y as int) {
            rest.push(s.last())
        } else {
            rest
        }
    }
}

/// Law: a despawn pass removes exactly the asteroids beyond their margin.
/// Every survivor is within the margin, and every asteroid within the margin
/// survives.
pub proof fn lemma_visible_only_exact(s: Seq<Astroid>)
    ensures
        visible_only(s).len() <= s.len(),
        forall|k: int| 0 <= k < visible_only(s).len() ==> spec_astroid_on_screen(
            (#[trigger] visible_only(s)[k]).x as int,
            visible_only(s)[k].y as int,
        ),
        forall|j: int| 0 <= j < s.len() && spec_astroid_on_screen(
            (#[trigger] s[j]).x as int,
            s[j].y as int,
        ) ==> visible_only(s).contains(s[j]),
        forall|k: int| 0 <= k < visible_only(s).len() ==> s.contains(
            #[trigger] visible_only(s)[k],
        ),
    decreases s.len(),
{
    if s.len() > 0 {
        lemma_visible_only_exact(s.drop_last());
        let rest = visible_only(s.drop_last());
        assert forall|j: int|
            0 <= j < s.len() && spec_astroid_on_screen(
                (#[trigger] s[j]).x as int,
                s[j].y as int,
            ) implies visible_only(s).contains(s[j]) by {
            if j < s.len() - 1 {
                assert(s.drop_last()[j] == s[j]);
                let w = choose|w: int| 0 <= w < rest.len() && rest[w] == s[j];
                assert(visible_only(s)[w] == s[j]);
            } else {
                assert(visible_only(s).last() == s[j]);
            }
        }
        assert forall|k: int| 0 <= k < visible_only(s).len() implies s.contains(
            #[trigger] visible_only(s)[k],
        ) by {
            if k < rest.len() {
                let w = choose|w: int| 0 <= w < s.drop_last().len() && s.drop_last()[w] == rest[k];
                assert(s[w] == rest[k]);
            } else {
                assert(s.last() == visible_only(s)[k]);
            }
        }
    }
}

/// The field of live asteroids together with the spawner that paces new ones.
pub struct Astroids {
    pub astroids: Vec<Astroid>,
    pub spawn_rate: u64,
    pub spawn_counter: u64,
}

impl Astroids {
    /// Every asteroid is well formed, the spawn interval sits between its
    /// floor and its starting value, and the tick counter never passes the
    /// interval.
    pub open spec fn wf(self) -> bool {
        &&& forall|i: int| 0 <= i < self.astroids@.len() ==> (#[trigger] self.astroids@[i]).wf()
        &&& PHYSICS_TICK_RATE <= self.spawn_rate <= STARTING_SPAWN_RATE
        &&& self.spawn_counter <= self.spawn_rate
    }

    /// An empty field with the starting spawn interval.
    pub fn new() -> (r: Astroids)
        ensures
            r.astroids@ == Seq::<Astroid>::empty(),
            r.spawn_rate == STARTING_SPAWN_RATE,
            r.spawn_counter == 0,
            r.wf(),
    {
        let r = Astroids { astroids: Vec::new(), spawn_rate: STARTING_SPAWN_RATE, spawn_counter: 0 };
        proof {
            assert(r.astroids@ =~= Seq::<Astroid>::empty());
        }
        r
    }

    /// One spawner tick: count up, and once the count passes the interval,
    /// spawn one asteroid at a random edge, reset the count, and shorten the
    /// interval down to its floor.
    pub fn spawn_step(&mut self)
        requires
            old(self).wf(),
        ensures
            final(self).wf(),
            old(self).spawn_counter + 1 > old(self).spawn_rate ==> {
                &&& final(self).astroids@.len() == old(self).astroids@.len() + 1
                &&& final(self).astroids@.subrange(0, old(self).astroids@.len() as int) == old(
                    self,
                ).astroids@
                &&& final(self).astroids@.last().wf()
                &&& final(self).astroids@.last().spawned_inward()
                &&& final(self).spawn_counter == 0
                &&& final(self).spawn_rate == next_spawn_rate(old(self).spawn_rate as int)
            },
            old(self).spawn_counter + 1 <= old(self).spawn_rate ==> {
                &&& final(self).astroids@ == old(self).astroids@
                &&& final(self).spawn_counter == old(self).spawn_counter + 1
                &&& final(self).spawn_rate == old(self).spawn_rate
            },
    {
        self.spawn_counter = self.spawn_counter + 1;
        if self.spawn_counter > self.spawn_rate {
            let fresh = Astroid::new();
            self.astroids.push(fresh);
            self.spawn_counter = 0;
            self.spawn_rate = self.spawn_rate - SPAWN_RATE_STEP;
            if self.spawn_rate < PHYSICS_TICK_RATE {
                self.spawn_rate = PHYSICS_TICK_RATE;
            }
            proof {
                assert(self.astroids@.subrange(0, old(self).astroids@.len() as int) =~= old(
                    self,
                ).astroids@);
            }
        }
    }

    /// Drop every asteroid that has drifted beyond its despawn margin; the
    /// survivors keep their order.
    pub fn despawn_offscreen(&mut self)
        requires
            old(self).wf(),
        ensures
            final(self).astroids@ == visible_only(old(self).astroids@),
            final(self).spawn_rate == old(self).spawn_rate,
            final(self).spawn_counter == old(self).spawn_counter,
            final(self).wf(),
    {
        let ghost orig = self.astroids@;
        let mut kept: Vec<Astroid> = Vec::new();
        let mut i: usize = 0;
        proof {
            assert(orig.take(0) =~= Seq::<Astroid>::empty());
        }
        while i < self.astroids.len()
            invariant
                i <= self.astroids@.len(),
                self.astroids@ == orig,
                old(self).wf(),
                orig == old(self).astroids@,
                kept@ == visible_only(orig.take(i as int)),
                forall|j: int| 0 <= j < kept@.len() ==> (#[trigger] kept@[j]).wf(),
            decreases self.astroids@.len() - i,
        {
            let a = self.astroids[i];
            if a.is_on_screen() {
                kept.push(a);
            }
            proof {
                let t1 = orig.take(i as int + 1);
                assert(t1.drop_last() =~= orig.take(i as int));
                assert(t1.last() == a);
            }
            i = i + 1;
        }
        proof {
            assert(orig.take(orig.len() as int) =~= orig);
        }
        self.astroids = kept;
    }

    /// One drift step for the whole field: each asteroid advances along its
    /// own heading, with the matching trigonometric sample supplied per
    /// asteroid.
    pub fn move_all(&mut self, trig: &Vec<TrigPair>)
        requires
            old(self).wf(),
            trig@.len() == old(self).astroids@.len(),
            forall|i: int| 0 <= i < trig@.len() ==> (#[trigger] trig@[i]).wf(),
            forall|i: int| 0 <= i < old(self).astroids@.len() ==> coord_near_screen(
                (#[trigger] old(self).astroids@[i]).x as int,
            ) && coord_near_screen(old(self).astroids@[i].y as int),
        ensures
            final(self).astroids@.len() == old(self).astroids@.len(),
            forall|i: int| 0 <= i < old(self).astroids@.len() ==> {
                &&& (#[trigger] final(self).astroids@[i]).x == old(self).astroids@[i].x
                    + scaled_step(ASTROID_SPEED as int, trig@[i].sin as int)
                &&& final(self).astroids@[i].y == old(self).astroids@[i].y - scaled_step(
                    ASTROID_SPEED as int,
                    trig@[i].cos as int,
                )
                &&& final(self).astroids@[i].angle == old(self).astroids@[i].angle
                &&& final(self).astroids@[i].size == old(self).astroids@[i].size
            },
            final(self).spawn_rate == old(self).spawn_rate,
            final(self).spawn_counter == old(self).spawn_counter,
            final(self).wf(),
    {
        let mut moved: Vec<Astroid> = Vec::new();
        let mut i: usize = 0;
        while i < self.astroids.len()
            invariant
                i <= self.astroids@.len(),
                self.astroids@ == old(self).astroids@,
                old(self).wf(),
                trig@.len() == old(self).astroids@.len(),
                forall|j: int| 0 <= j < trig@.len() ==> (#[trigger] trig@[j]).wf(),
                forall|j: int| 0 <= j < old(self).astroids@.len() ==> coord_near_screen(
                    (#[trigger] old(self).astroids@[j]).x as int,
                ) && coord_near_screen(old(self).astroids@[j].y as int),
                moved@.len() == i,
                forall|j: int| 0 <= j < i ==> {
                    &&& (#[trigger] moved@[j]).x == old(self).astroids@[j].x + scaled_step(
                        ASTROID_SPEED as int,
                        trig@[j].sin as int,
                    )
                    &&& moved@[j].y == old(self).astroids@[j].y - scaled_step(
                        ASTROID_SPEED as int,
                        trig@[j].cos as int,
                    )
                    &&& moved@[j].angle == old(self).astroids@[j].angle
                    &&& moved@[j].size == old(self).astroids@[j].size
                    &&& moved@[j].wf()
                },
            decreases self.astroids@.len() - i,
        {
            let mut a = self.astroids[i];
            a.process_movement(trig[i]);
            moved.push(a);
            i = i + 1;
        }
        self.astroids = moved;
    }
}

} // verus!
