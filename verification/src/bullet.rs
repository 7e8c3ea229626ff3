//! Bullets: fired from the ship along its heading, moving at constant speed,
//! and the hit test against the asteroid field.

use crate::astroid::{Astroid, ASTROID_RADIUS_FACTOR};
use crate::units::{
    angle_ok, coord_bounded, coord_near_screen, scaled_step, spec_on_screen, step_amount,
    BULLET_SPEED, MAX_X, MAX_Y, SCREEN_MARGIN, TrigPair,
};
use vstd::prelude::*;

verus! {

/// How far outside an asteroid's box a bullet still counts as a hit, in
/// position units (3 pixels).
pub const ACCURACY_LEEWAY: i64 = 3000;

/// The colour a bullet is drawn in: the last available bullet is marked red.
#[derive(Clone, Copy, PartialEq, Eq, Structural, Debug)]
pub enum BulletColor {
    White,
    Red,
}

/// A bullet: a position, the fixed heading it was fired along, and a colour.
#[derive(Clone, Copy)]
pub struct Bullet {
    pub x: i64,
    pub y: i64,
    pub angle: i64,
    pub color: BulletColor,
}

impl Bullet {
    /// Coordinates inside the arena bound and a canonical angle.
    pub open spec fn wf(self) -> bool {
        &&& coord_bounded(self.x as int)
        &&& coord_bounded(self.y as int)
        &&& angle_ok(self.angle as int)
    }

    /// A bullet as fired: the given position, heading and colour.
    pub fn new(x: i64, y: i64, angle: i64, color: BulletColor) -> (r: Bullet)
        ensures
            r == (Bullet { x, y, angle, color }),
    {
        Bullet { x, y, angle, color }
    }

    /// One flight step: advance along the fixed heading at bullet speed.
    /// Bullets do not wrap; they fly off and are despawned instead.
    pub fn process_movement(&mut self, trig: TrigPair)
        requires
            old(self).wf(),
            coord_near_screen(old(self).x as int),
            coord_near_screen(old(self).y as int),
            trig.wf(),
        ensures
            final(self).x == old(self).x + scaled_step(BULLET_SPEED as int, trig.sin as int),
            final(self).y == old(self).y - scaled_step(BULLET_SPEED as int, trig.cos as int),
            final(self).angle == old(self).angle,
            final(self).color == old(self).color,
            final(self).wf(),
    {
        self.x = self.x + step_amount(BULLET_SPEED, trig.sin);
        self.y = self.y - step_amount(BULLET_SPEED, trig.cos);
    }

    /// Whether the bullet is still within its despawn margin of the screen.
    pub fn is_on_screen(&self) -> (r: bool)
        ensures
            r == spec_on_screen(self.x as int, self.y as int),
    {
        !(self.x < -SCREEN_MARGIN || self.x > MAX_X + SCREEN_MARGIN || self.y < -SCREEN_MARGIN
            || self.y > MAX_Y + SCREEN_MARGIN)
    }

    /// Whether the bullet sits inside the asteroid's bounding box, widened by
    /// the accuracy leeway.
    pub open spec fn hits(self, a: Astroid) -> bool {
        &&& self.x > a.x - a.size * ASTROID_RADIUS_FACTOR - ACCURACY_LEEWAY
        &&& self.x < a.x + a.size * ASTROID_RADIUS_FACTOR + ACCURACY_LEEWAY
        &&& self.y > a.y - a.size * ASTROID_RADIUS_FACTOR - ACCURACY_LEEWAY
        &&& self.y < a.y + a.size * ASTROID_RADIUS_FACTOR + ACCURACY_LEEWAY
    }

    /// The index of the first asteroid this bullet hits, if any.
    pub fn intersects_astroid_at_index(&self, astroids: &Vec<Astroid>) -> (r: Option<usize>)
        requires
            self.wf(),
            forall|j: int| 0 <= j < astroids@.len() ==> (#[trigger] astroids@[j]).wf(),
        ensures
            match r {
                Some(i) => {
                    &&& 0 <= i < astroids@.len()
                    &&& self.hits(astroids@[i as int])
                    &&& forall|j: int| 0 <= j < i ==> !self.hits(#[trigger] astroids@[j])
                    &&& spec_hit_index(*self, astroids@) == Some(i as int)
                },
                None => {
                    &&& forall|j: int| 0 <= j < astroids@.len() ==> !self.hits(
                        #[trigger] astroids@[j],
                    )
                    &&& spec_hit_index(*self, astroids@) is None
                },
            },
    {
        let mut i: usize = 0;
        while i < astroids.len()
            invariant
                i <= astroids@.len(),
                self.wf(),
                forall|j: int| 0 <= j < astroids@.len() ==> (#[trigger] astroids@[j]).wf(),
                forall|j: int| 0 <= j < i ==> !self.hits(#[trigger] astroids@[j]),
            decreases astroids@.len() - i,
        {
            let a = astroids[i];
            let radius = (a.size as i64) * ASTROID_RADIUS_FACTOR;
            if self.x > a.x - radius - ACCURACY_LEEWAY && self.x < a.x + radius + ACCURACY_LEEWAY
                && self.y > a.y - radius - ACCURACY_LEEWAY && self.y < a.y + radius
                + ACCURACY_LEEWAY {
                proof {
                    lemma_hit_index_found(*self, astroids@, i as int);
                }
                return Some(i);
            }
            i = i + 1;
        }
        proof {
            lemma_hit_index_none(*self, astroids@);
        }
        None
    }
}

/// The index of the first asteroid of `asts` that `b` hits, or `None` when it
/// hits none of them.
pub open spec fn spec_hit_index(b: Bullet, asts: Seq<Astroid>) -> Option<int>
    decreases asts.len(),
{
    if asts.len() == 0 {
        None
    } else if b.hits(asts[0]) {
        Some(0int)
    } else {
        match spec_hit_index(b, asts.skip(1)) {
            Some(i) => Some(i + 1),
            None => None,
        }
    }
}

/// When `i` is the first index whose asteroid `b` hits, `spec_hit_index`
/// finds exactly `i`.
pub proof fn lemma_hit_index_found(b: Bullet, asts: Seq<Astroid>, i: int)
    requires
        0 <= i < asts.len(),
        b.hits(asts[i]),
        forall|j: int| 0 <= j < i ==> !b.hits(#[trigger] asts[j]),
    ensures
        spec_hit_index(b, asts) == Some(i),
    decreases asts.len(),
{
    if i == 0 {
    } else {
        assert(!b.hits(asts[0]));
        let rest = asts.skip(1);
        assert(rest[i - 1] == asts[i]);
        assert forall|j: int| 0 <= j < i - 1 implies !b.hits(#[trigger] rest[j]) by {
            assert(rest[j] == asts[j + 1]);
        }
        lemma_hit_index_found(b, rest, i - 1);
    }
}

/// A found hit index is in range and names an asteroid that `b` hits.
pub proof fn lemma_hit_index_in_range(b: Bullet, asts: Seq<Astroid>)
    requires
        spec_hit_index(b, asts) is Some,
    ensures
        0 <= spec_hit_index(b, asts)->Some_0 < asts.len(),
        b.hits(asts[spec_hit_index(b, asts)->Some_0]),
    decreases asts.len(),
{
    if asts.len() > 0 && !b.hits(asts[0]) {
        let rest = asts.skip(1);
        lemma_hit_index_in_range(b, rest);
        let i = spec_hit_index(b, rest)->Some_0;
        assert(rest[i] == asts[i + 1]);
    }
}

/// When `b` hits no asteroid of `asts`, `spec_hit_index` finds none.
pub proof fn lemma_hit_index_none(b: Bullet, asts: Seq<Astroid>)
    requires
        forall|j: int| 0 <= j < asts.len() ==> !b.hits(#[trigger] asts[j]),
    ensures
        spec_hit_index(b, asts) is None,
    decreases asts.len(),
{
    if asts.len() > 0 {
        let rest = asts.skip(1);
        assert forall|j: int| 0 <= j < rest.len() implies !b.hits(#[trigger] rest[j]) by {
            assert(rest[j] == asts[j + 1]);
        }
        lemma_hit_index_none(b, rest);
    }
}

} // verus!
