//! The ship: steering, throttle, screen-wrapped movement, firing, and the
//! collision test against the asteroid field.

use crate::astroid::{Astroid, ASTROID_RADIUS_FACTOR};
use crate::bullet::{Bullet, BulletColor};
use crate::units::{
    angle_ok, coord_near_screen, scaled_step, step_amount, wrap_coord, MAX_X, MAX_Y, TAU_UNITS,
    TURNING_STEP, TrigPair, WRAP_PAD,
};
use vstd::prelude::*;

verus! {

/// Throttle change per keypress, in position units per tick (a quarter
/// pixel).
pub const ACCELERATION_FACTOR: i64 = 250;

/// Top speed of the ship, in position units per tick (2 pixels).
pub const MAX_SPEED: i64 = 2000;

/// Most bullets that may be in flight at once.
pub const MAX_BULLETS: usize = 3;

/// How far outside an asteroid's box the ship's centre still counts as a
/// collision, in position units (4 pixels).
pub const SHIP_HIT_LEEWAY: i64 = 4000;

/// Offset from the ship sprite's corner to its centre, in position units
/// (16 pixels).
pub const SHIP_CENTER_OFFSET: i64 = 16000;

/// Sprite sheet row of the thrusting animation.
pub const ANIMATED_INDEX: usize = 0;

/// Sprite sheet row of the idle frame.
pub const IDLE_INDEX: usize = 1;

/// Sprite sheet row of the explosion animation.
pub const BOOM_INDEX: usize = 2;

/// The ship: a position on the wrapping screen, a heading, a throttle-driven
/// speed, and the bullets it has in flight.
pub struct Player {
    pub x: i64,
    pub y: i64,
    pub angle: i64,
    pub speed: i64,
    pub bullets: Vec<Bullet>,
}

impl Player {
    /// The position sits in the wrapped band of the screen, the angle is
    /// canonical, the speed is between zero and the top speed, and at most
    /// `MAX_BULLETS` well-formed bullets are in flight.
    pub open spec fn wf(self) -> bool {
        &&& -WRAP_PAD <= self.x < MAX_X
        &&& -WRAP_PAD <= self.y < MAX_Y
        &&& angle_ok(self.angle as int)
        &&& 0 <= self.speed <= MAX_SPEED
        &&& self.bullets@.len() <= MAX_BULLETS
        &&& forall|i: int| 0 <= i < self.bullets@.len() ==> (#[trigger] self.bullets@[i]).wf()
    }

    /// A ship at rest at the given position, pointing up, with no bullets in
    /// flight.
    pub fn new(x: i64, y: i64) -> (r: Player)
        requires
            -WRAP_PAD <= x < MAX_X,
            -WRAP_PAD <= y < MAX_Y,
        ensures
            r.x == x,
            r.y == y,
            r.angle == 0,
            r.speed == 0,
            r.bullets@ == Seq::<Bullet>::empty(),
            r.wf(),
    {
        let r = Player { x, y, angle: 0, speed: 0, bullets: Vec::new() };
        proof {
            assert(r.bullets@ =~= Seq::<Bullet>::empty());
        }
        r
    }

    /// The sprite sheet row to draw: the idle frame at a standstill, the
    /// thrusting animation otherwise.
    pub fn get_animation_style(&self) -> (r: usize)
        ensures
            r == if self.speed == 0 {
                IDLE_INDEX as int
            } else {
                ANIMATED_INDEX as int
            },
    {
        if self.speed == 0 {
            IDLE_INDEX
        } else {
            ANIMATED_INDEX
        }
    }

    /// Open the throttle one step, clamped at the top speed. The speed never
    /// leaves `[0, MAX_SPEED]`.
    pub fn accelerate(&mut self)
        requires
            old(self).wf(),
        ensures
            final(self).speed == if old(self).speed + ACCELERATION_FACTOR > MAX_SPEED {
                MAX_SPEED as int
            } else {
                old(self).speed + ACCELERATION_FACTOR
            },
            0 <= final(self).speed <= MAX_SPEED,
            final(self).x == old(self).x,
            final(self).y == old(self).y,
            final(self).angle == old(self).angle,
            final(self).bullets@ == old(self).bullets@,
            final(self).wf(),
    {
        self.speed = self.speed + ACCELERATION_FACTOR;
        if self.speed > MAX_SPEED {
            self.speed = MAX_SPEED;
        }
    }

    /// Close the throttle one step, clamped at a standstill. The speed never
    /// leaves `[0, MAX_SPEED]`.
    pub fn decelerate(&mut self)
        requires
            old(self).wf(),
        ensures
            final(self).speed == if old(self).speed - ACCELERATION_FACTOR < 0 {
                0int
            } else {
                old(self).speed - ACCELERATION_FACTOR
            },
            0 <= final(self).speed <= MAX_SPEED,
            final(self).x == old(self).x,
            final(self).y == old(self).y,
            final(self).angle == old(self).angle,
            final(self).bullets@ == old(self).bullets@,
            final(self).wf(),
    {
        self.speed = self.speed - ACCELERATION_FACTOR;
        if self.speed < 0 {
            self.speed = 0;
        }
    }

    /// Turn one step counter-clockwise; the angle wraps and stays in
    /// `[0, TAU_UNITS)`.
    pub fn turn_left(&mut self)
        requires
            old(self).wf(),
        ensures
            final(self).angle == if old(self).angle - TURNING_STEP < 0 {
                old(self).angle - TURNING_STEP + TAU_UNITS
            } else {
                old(self).angle - TURNING_STEP
            },
            angle_ok(final(self).angle as int),
            final(self).x == old(self).x,
            final(self).y == old(self).y,
            final(self).speed == old(self).speed,
            final(self).bullets@ == old(self).bullets@,
            final(self).wf(),
    {
        self.angle = self.angle - TURNING_STEP;
        if self.angle < 0 {
            self.angle = self.angle + TAU_UNITS;
        }
    }

    /// Turn one step clockwise; the angle wraps and stays in
    /// `[0, TAU_UNITS)`.
    pub fn turn_right(&mut self)
        requires
            old(self).wf(),
        ensures
            final(self).angle == if old(self).angle + TURNING_STEP >= TAU_UNITS {
                old(self).angle + TURNING_STEP - TAU_UNITS
            } else {
                old(self).angle + TURNING_STEP
            },
            angle_ok(final(self).angle as int),
            final(self).x == old(self).x,
            final(self).y == old(self).y,
            final(self).speed == old(self).speed,
            final(self).bullets@ == old(self).bullets@,
            final(self).wf(),
    {
        self.angle = self.angle + TURNING_STEP;
        if self.angle >= TAU_UNITS {
            self.angle = self.angle - TAU_UNITS;
        }
    }

    /// One movement step: advance along the heading at the current speed and
    /// wrap at the screen boundaries. The wrap is exact: a coordinate that
    /// reaches its maximum comes back as zero.
    pub fn process_movement(&mut self, trig: TrigPair)
        requires
            old(self).wf(),
            trig.wf(),
        ensures
            final(self).x == wrap_coord(
                old(self).x + scaled_step(old(self).speed as int, trig.sin as int),
                MAX_X as int,
            ),
            final(self).y == wrap_coord(
                old(self).y - scaled_step(old(self).speed as int, trig.cos as int),
                MAX_Y as int,
            ),
            final(self).angle == old(self).angle,
            final(self).speed == old(self).speed,
            final(self).bullets@ == old(self).bullets@,
            final(self).wf(),
    {
        self.y = self.y - step_amount(self.speed, trig.cos);
        if self.y >= MAX_Y {
            self.y = self.y - MAX_Y;
        } else if self.y < -WRAP_PAD {
            self.y = self.y + MAX_Y + WRAP_PAD;
        }
        self.x = self.x + step_amount(self.speed, trig.sin);
        if self.x >= MAX_X {
            self.x = self.x - MAX_X;
        } else if self.x < -WRAP_PAD {
            self.x = self.x + MAX_X + WRAP_PAD;
        }
    }

    /// Fire a bullet from the ship's centre along its heading, unless the
    /// full complement is already in flight; the last available bullet is
    /// red. The count never passes `MAX_BULLETS`.
    pub fn shoot(&mut self)
        requires
            old(self).wf(),
        ensures
            old(self).bullets@.len() < MAX_BULLETS ==> final(self).bullets@ == old(
                self,
            ).bullets@.push(
                (Bullet {
                    x: (old(self).x + SHIP_CENTER_OFFSET) as i64,
                    y: (old(self).y + SHIP_CENTER_OFFSET) as i64,
                    angle: old(self).angle,
                    color: if old(self).bullets@.len() == MAX_BULLETS - 1 {
                        BulletColor::Red
                    } else {
                        BulletColor::White
                    },
                }),
            ),
            old(self).bullets@.len() >= MAX_BULLETS ==> final(self).bullets@ == old(self).bullets@,
            final(self).bullets@.len() <= MAX_BULLETS,
            final(self).x == old(self).x,
            final(self).y == old(self).y,
            final(self).angle == old(self).angle,
            final(self).speed == old(self).speed,
            final(self).wf(),
    {
        if self.bullets.len() < MAX_BULLETS {
            let color = if self.bullets.len() == MAX_BULLETS - 1 {
                BulletColor::Red
            } else {
                BulletColor::White
            };
            let b = Bullet::new(
                self.x + SHIP_CENTER_OFFSET,
                self.y + SHIP_CENTER_OFFSET,
                self.angle,
                color,
            );
            self.bullets.push(b);
        }
    }

    /// Whether the ship's centre sits inside the asteroid's bounding box,
    /// widened by the ship hit leeway.
    pub open spec fn overlaps(self, a: Astroid) -> bool {
        &&& self.x + SHIP_CENTER_OFFSET > a.x - a.size * ASTROID_RADIUS_FACTOR - SHIP_HIT_LEEWAY
        &&& self.x + SHIP_CENTER_OFFSET < a.x + a.size * ASTROID_RADIUS_FACTOR + SHIP_HIT_LEEWAY
        &&& self.y + SHIP_CENTER_OFFSET > a.y - a.size * ASTROID_RADIUS_FACTOR - SHIP_HIT_LEEWAY
        &&& self.y + SHIP_CENTER_OFFSET < a.y + a.size * ASTROID_RADIUS_FACTOR + SHIP_HIT_LEEWAY
    }

    /// Whether any asteroid of `asts` has caught the ship.
    pub open spec fn caught_by(self, asts: Seq<Astroid>) -> bool {
        exists|j: int| 0 <= j < asts.len() && self.overlaps(#[trigger] asts[j])
    }

    /// Whether any asteroid of the field has caught the ship.
    pub fn is_hit(&self, astroids: &Vec<Astroid>) -> (r: bool)
        requires
            self.wf(),
            forall|j: int| 0 <= j < astroids@.len() ==> (#[trigger] astroids@[j]).wf(),
        ensures
            r == self.caught_by(astroids@),
    {
        let cx = self.x + SHIP_CENTER_OFFSET;
        let cy = self.y + SHIP_CENTER_OFFSET;
        let mut i: usize = 0;
        while i < astroids.len()
            invariant
                i <= astroids@.len(),
                self.wf(),
                cx == self.x + SHIP_CENTER_OFFSET,
                cy == self.y + SHIP_CENTER_OFFSET,
                forall|j: int| 0 <= j < astroids@.len() ==> (#[trigger] astroids@[j]).wf(),
                forall|j: int| 0 <= j < i ==> !self.overlaps(#[trigger] astroids@[j]),
            decreases astroids@.len() - i,
        {
            let a = astroids[i];
            let radius = (a.size as i64) * ASTROID_RADIUS_FACTOR;
            if cx > a.x - radius - SHIP_HIT_LEEWAY && cx < a.x + radius + SHIP_HIT_LEEWAY && cy
                > a.y - radius - SHIP_HIT_LEEWAY && cy < a.y + radius + SHIP_HIT_LEEWAY {
                return true;
            }
            i = i + 1;
        }
        false
    }

    /// One flight step for every bullet in flight, each along its own fixed
    /// heading, with the matching trigonometric sample supplied per bullet.
    pub fn move_bullets(&mut self, trig: &Vec<TrigPair>)
        requires
            old(self).wf(),
            trig@.len() == old(self).bullets@.len(),
            forall|i: int| 0 <= i < trig@.len() ==> (#[trigger] trig@[i]).wf(),
            forall|i: int| 0 <= i < old(self).bullets@.len() ==> coord_near_screen(
                (#[trigger] old(self).bullets@[i]).x as int,
            ) && coord_near_screen(old(self).bullets@[i].y as int),
        ensures
            final(self).bullets@.len() == old(self).bullets@.len(),
            forall|i: int| 0 <= i < old(self).bullets@.len() ==> {
                &&& (#[trigger] final(self).bullets@[i]).x == old(self).bullets@[i].x
                    + scaled_step(crate::units::BULLET_SPEED as int, trig@[i].sin as int)
                &&& final(self).bullets@[i].y == old(self).bullets@[i].y - scaled_step(
                    crate::units::BULLET_SPEED as int,
                    trig@[i].cos as int,
                )
                &&& final(self).bullets@[i].angle == old(self).bullets@[i].angle
                &&& final(self).bullets@[i].color == old(self).bullets@[i].color
            },
            final(self).x == old(self).x,
            final(self).y == old(self).y,
            final(self).angle == old(self).angle,
            final(self).speed == old(self).speed,
            final(self).wf(),
    {
        let mut moved: Vec<Bullet> = Vec::new();
        let mut i: usize = 0;
        while i < self.bullets.len()
            invariant
                i <= self.bullets@.len(),
                self.bullets@ == old(self).bullets@,
                self.x == old(self).x,
                self.y == old(self).y,
                self.angle == old(self).angle,
                self.speed == old(self).speed,
                old(self).wf(),
                trig@.len() == old(self).bullets@.len(),
                forall|j: int| 0 <= j < trig@.len() ==> (#[trigger] trig@[j]).wf(),
                forall|j: int| 0 <= j < old(self).bullets@.len() ==> coord_near_screen(
                    (#[trigger] old(self).bullets@[j]).x as int,
                ) && coord_near_screen(old(self).bullets@[j].y as int),
                moved@.len() == i,
                forall|j: int| 0 <= j < i ==> {
                    &&& (#[trigger] moved@[j]).x == old(self).bullets@[j].x + scaled_step(
                        crate::units::BULLET_SPEED as int,
                        trig@[j].sin as int,
                    )
                    &&& moved@[j].y == old(self).bullets@[j].y - scaled_step(
                        crate::units::BULLET_SPEED as int,
                        trig@[j].cos as int,
                    )
                    &&& moved@[j].angle == old(self).bullets@[j].angle
                    &&& moved@[j].color == old(self).bullets@[j].color
                    &&& moved@[j].wf()
                },
            decreases self.bullets@.len() - i,
        {
            let mut b = self.bullets[i];
            b.process_movement(trig[i]);
            moved.push(b);
            i = i + 1;
        }
        self.bullets = moved;
    }
}

} // verus!
