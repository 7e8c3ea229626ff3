//! One fixed-rate physics tick, and in particular its scoring pass: every
//! bullet in flight is tested, in firing order, against the asteroid field.
//! A bullet that has left the screen is dropped; a bullet that hits an
//! asteroid is spent, shrinking the asteroid by one size unit; an asteroid
//! shrunk to nothing is removed and scores one point.

use crate::astroid::{next_spawn_rate, visible_only, Astroid, Astroids, ASTROID_SPEED};
use crate::bullet::{spec_hit_index, Bullet};
use crate::player::Player;
use crate::units::{
    coord_near_screen, scaled_step, spec_on_screen, BULLET_SPEED, TAU_UNITS, TrigPair,
};
use vstd::prelude::*;

verus! {

/// The asteroid field after one hit on the asteroid at index `i`: it shrinks
/// by one size unit, and vanishes when that was its last.
pub open spec fn shrink_at(asts: Seq<Astroid>, i: int) -> Seq<Astroid>
    recommends
        0 <= i < asts.len(),
{
    if asts[i].size == 1 {
        asts.remove(i)
    } else {
        asts.update(
            i,
            Astroid { x: asts[i].x, y: asts[i].y, angle: asts[i].angle, size: (asts[i].size
                - 1) as u8 },
        )
    }
}

/// What one scoring pass leaves behind, taking the bullets front to back:
/// the bullets still in flight in their order, the asteroid field after all
/// hits, and how many asteroids were destroyed.
pub open spec fn process_bullets(bs: Seq<Bullet>, asts: Seq<Astroid>) -> (Seq<Bullet>, Seq<
    Astroid,
>, int)
    decreases bs.len(),
{
    if bs.len() == 0 {
        (Seq::<Bullet>::empty(), asts, 0int)
    } else {
        let b = bs[0];
        if !spec_on_screen(b.x as int, b.y as int) {
            process_bullets(bs.skip(1), asts)
        } else {
            match spec_hit_index(b, asts) {
                Some(i) => {
                    let gained: int = if asts[i].size == 1 {
                        1
                    } else {
                        0
                    };
                    let rest = process_bullets(bs.skip(1), shrink_at(asts, i));
                    (rest.0, rest.1, rest.2 + gained)
                },
                None => {
                    let rest = process_bullets(bs.skip(1), asts);
                    (seq![b] + rest.0, rest.1, rest.2)
                },
            }
        }
    }
}

/// A scoring pass never grows any list, and scores at most one point per
/// bullet.
pub proof fn lemma_process_bullets_bounds(bs: Seq<Bullet>, asts: Seq<Astroid>)
    ensures
        process_bullets(bs, asts).0.len() <= bs.len(),
        0 <= process_bullets(bs, asts).2 <= bs.len(),
        process_bullets(bs, asts).1.len() <= asts.len(),
    decreases bs.len(),
{
    if bs.len() > 0 {
        let b = bs[0];
        if !spec_on_screen(b.x as int, b.y as int) {
            lemma_process_bullets_bounds(bs.skip(1), asts);
        } else {
            match spec_hit_index(b, asts) {
                Some(i) => {
                    crate::bullet::lemma_hit_index_in_range(b, asts);
                    lemma_process_bullets_bounds(bs.skip(1), shrink_at(asts, i));
                },
                None => {
                    lemma_process_bullets_bounds(bs.skip(1), asts);
                },
            }
        }
    }
}

/// Every bullet of `s` is within its despawn margin of the screen.
pub open spec fn all_bullets_on_screen(s: Seq<Bullet>) -> bool {
    forall|k: int| 0 <= k < s.len() ==> spec_on_screen(
        (#[trigger] s[k]).x as int,
        s[k].y as int,
    )
}

/// Law: every bullet that survives a scoring pass is on screen; a bullet
/// beyond the screen margin is removed by the pass that sees it.
pub proof fn lemma_surviving_bullets_on_screen(bs: Seq<Bullet>, asts: Seq<Astroid>)
    ensures
        all_bullets_on_screen(process_bullets(bs, asts).0),
    decreases bs.len(),
{
    if bs.len() > 0 {
        let b = bs[0];
        if !spec_on_screen(b.x as int, b.y as int) {
            lemma_surviving_bullets_on_screen(bs.skip(1), asts);
        } else {
            match spec_hit_index(b, asts) {
                Some(i) => {
                    crate::bullet::lemma_hit_index_in_range(b, asts);
                    lemma_surviving_bullets_on_screen(bs.skip(1), shrink_at(asts, i));
                },
                None => {
                    lemma_surviving_bullets_on_screen(bs.skip(1), asts);
                    let out = process_bullets(bs, asts).0;
                    let rest_out = process_bullets(bs.skip(1), asts).0;
                    assert(out == seq![b] + rest_out);
                    assert forall|k: int| 0 <= k < out.len() implies spec_on_screen(
                        (#[trigger] out[k]).x as int,
                        out[k].y as int,
                    ) by {
                        if k >= 1 {
                            assert(out[k] == rest_out[k - 1]);
                        } else {
                            assert(out[0] == b);
                        }
                    }
                },
            }
        }
    }
}

/// Law: a bullet strike that brings an asteroid to its last size unit
/// removes that asteroid from the field and scores exactly one point, and
/// the bullet is spent.
pub proof fn lemma_final_hit_removes_and_scores(b: Bullet, asts: Seq<Astroid>, i: int)
    requires
        spec_on_screen(b.x as int, b.y as int),
        spec_hit_index(b, asts) == Some(i),
        0 <= i < asts.len(),
        asts[i].size == 1,
    ensures
        process_bullets(seq![b], asts) == (Seq::<Bullet>::empty(), asts.remove(i), 1int),
{
    let bs = seq![b];
    assert(bs[0] == b);
    assert(bs.skip(1) =~= Seq::<Bullet>::empty());
    assert(process_bullets(Seq::<Bullet>::empty(), asts.remove(i)) == (
        Seq::<Bullet>::empty(),
        asts.remove(i),
        0int,
    ));
    assert(shrink_at(asts, i) == asts.remove(i));
}

/// One scoring pass over the live bullets and asteroids: bullets that left
/// the screen are dropped, each remaining bullet spends itself on the first
/// asteroid it hits, and each asteroid destroyed adds one point to the
/// score.
pub fn resolve_bullet_hits(player: &mut Player, astroids: &mut Astroids, score: &mut u64)
    requires
        old(player).wf(),
        old(astroids).wf(),
        *old(score) + old(player).bullets@.len() <= u64::MAX,
    ensures
        final(player).bullets@ == process_bullets(
            old(player).bullets@,
            old(astroids).astroids@,
        ).0,
        final(astroids).astroids@ == process_bullets(
            old(player).bullets@,
            old(astroids).astroids@,
        ).1,
        *final(score) == *old(score) + process_bullets(
            old(player).bullets@,
            old(astroids).astroids@,
        ).2,
        final(player).x == old(player).x,
        final(player).y == old(player).y,
        final(player).angle == old(player).angle,
        final(player).speed == old(player).speed,
        final(astroids).spawn_rate == old(astroids).spawn_rate,
        final(astroids).spawn_counter == old(astroids).spawn_counter,
        final(player).wf(),
        final(astroids).wf(),
{
    let ghost obs = old(player).bullets@;
    let ghost oasts = old(astroids).astroids@;
    let ghost osc = *old(score) as int;
    let mut kept: Vec<Bullet> = Vec::new();
    let mut i: usize = 0;
    proof {
        assert(obs.skip(0) =~= obs);
        assert(kept@ + process_bullets(obs, oasts).0 =~= process_bullets(obs, oasts).0);
    }
    while i < player.bullets.len()
        invariant
            i <= player.bullets@.len(),
            player.bullets@ == obs,
            player.x == old(player).x,
            player.y == old(player).y,
            player.angle == old(player).angle,
            player.speed == old(player).speed,
            obs == old(player).bullets@,
            oasts == old(astroids).astroids@,
            osc == *old(score) as int,
            old(player).wf(),
            old(astroids).wf(),
            osc + obs.len() <= u64::MAX,
            astroids.spawn_rate == old(astroids).spawn_rate,
            astroids.spawn_counter == old(astroids).spawn_counter,
            astroids.wf(),
            forall|j: int| 0 <= j < kept@.len() ==> (#[trigger] kept@[j]).wf(),
            kept@ + process_bullets(obs.skip(i as int), astroids.astroids@).0 == process_bullets(
                obs,
                oasts,
            ).0,
            process_bullets(obs.skip(i as int), astroids.astroids@).1 == process_bullets(
                obs,
                oasts,
            ).1,
            *score as int + process_bullets(obs.skip(i as int), astroids.astroids@).2 == osc
                + process_bullets(obs, oasts).2,
        decreases player.bullets@.len() - i,
    {
        let ghost rem = obs.skip(i as int);
        let ghost cur = astroids.astroids@;
        proof {
            lemma_process_bullets_bounds(obs, oasts);
            assert(rem[0] == obs[i as int]);
            assert(rem.skip(1) =~= obs.skip(i as int + 1));
        }
        let b = player.bullets[i];
        if b.is_on_screen() {
            match b.intersects_astroid_at_index(&astroids.astroids) {
                Some(j) => {
                    let a = astroids.astroids[j];
                    proof {
                        lemma_process_bullets_bounds(rem.skip(1), shrink_at(cur, j as int));
                        assert(process_bullets(rem, cur).0 == process_bullets(
                            rem.skip(1),
                            shrink_at(cur, j as int),
                        ).0);
                        assert(process_bullets(rem, cur).1 == process_bullets(
                            rem.skip(1),
                            shrink_at(cur, j as int),
                        ).1);
                        assert(process_bullets(rem, cur).2 == process_bullets(
                            rem.skip(1),
                            shrink_at(cur, j as int),
                        ).2 + if cur[j as int].size == 1 {
                            1int
                        } else {
                            0int
                        });
                    }
                    if a.size == 1 {
                        astroids.astroids.remove(j);
                        proof {
                            assert(astroids.astroids@ == shrink_at(cur, j as int));
                            assert(*score < u64::MAX);
                        }
                        *score = *score + 1;
                    } else {
                        let shrunk = Astroid { x: a.x, y: a.y, angle: a.angle, size: a.size - 1 };
                        astroids.astroids[j] = shrunk;
                        proof {
                            assert(astroids.astroids@ =~= shrink_at(cur, j as int));
                        }
                    }
                    proof {
                        assert forall|k: int|
                            0 <= k < astroids.astroids@.len() implies (
                        #[trigger] astroids.astroids@[k]).wf() by {
                            if cur[j as int].size == 1 {
                                if k < j {
                                    assert(astroids.astroids@[k] == cur[k]);
                                } else {
                                    assert(astroids.astroids@[k] == cur[k + 1]);
                                }
                            } else {
                                if k != j {
                                    assert(astroids.astroids@[k] == cur[k]);
                                }
                            }
                        }
                    }
                },
                None => {
                    let ghost kept_before = kept@;
                    kept.push(b);
                    proof {
                        assert(process_bullets(rem, cur).0 == seq![b] + process_bullets(
                            rem.skip(1),
                            cur,
                        ).0);
                        assert(kept@ + process_bullets(obs.skip(i as int + 1), cur).0
                            =~= kept_before + (seq![b] + process_bullets(rem.skip(1), cur).0));
                    }
                },
            }
        } else {
            proof {
                assert(process_bullets(rem, cur) == process_bullets(rem.skip(1), cur));
            }
        }
        i = i + 1;
    }
    proof {
        assert(obs.skip(obs.len() as int) =~= Seq::<Bullet>::empty());
        assert(process_bullets(Seq::<Bullet>::empty(), astroids.astroids@).0
            == Seq::<Bullet>::empty());
        assert(kept@ + Seq::<Bullet>::empty() =~= kept@);
        lemma_process_bullets_bounds(obs, oasts);
    }
    player.bullets = kept;
}

/// A table of one sine/cosine sample per angle unit of the circle, each well
/// scaled.
pub open spec fn trig_table_wf(t: Seq<TrigPair>) -> bool {
    &&& t.len() == TAU_UNITS
    &&& forall|i: int| 0 <= i < t.len() ==> (#[trigger] t[i]).wf()
}

/// A bullet after one flight step along its heading, the heading's sample
/// taken from the table.
pub open spec fn moved_bullet(b: Bullet, t: TrigPair) -> Bullet {
    Bullet {
        x: (b.x + scaled_step(BULLET_SPEED as int, t.sin as int)) as i64,
        y: (b.y - scaled_step(BULLET_SPEED as int, t.cos as int)) as i64,
        angle: b.angle,
        color: b.color,
    }
}

/// Every bullet after one flight step.
pub open spec fn moved_bullets(bs: Seq<Bullet>, table: Seq<TrigPair>) -> Seq<Bullet> {
    Seq::new(bs.len(), |i: int| moved_bullet(bs[i], table[bs[i].angle as int]))
}

/// An asteroid after one drift step along its heading.
pub open spec fn moved_astroid(a: Astroid, t: TrigPair) -> Astroid {
    Astroid {
        x: (a.x + scaled_step(ASTROID_SPEED as int, t.sin as int)) as i64,
        y: (a.y - scaled_step(ASTROID_SPEED as int, t.cos as int)) as i64,
        angle: a.angle,
        size: a.size,
    }
}

/// Every asteroid after one drift step.
pub open spec fn moved_astroids(asts: Seq<Astroid>, table: Seq<TrigPair>) -> Seq<Astroid> {
    Seq::new(asts.len(), |i: int| moved_astroid(asts[i], table[asts[i].angle as int]))
}

/// The scoring pass as it runs inside a tick: the bullets first take their
/// flight step, then spend themselves on the field.
pub open spec fn bullet_pass(bs: Seq<Bullet>, asts: Seq<Astroid>, table: Seq<TrigPair>) -> (Seq<
    Bullet,
>, Seq<Astroid>, int) {
    process_bullets(moved_bullets(bs, table), asts)
}

/// Every coordinate of every asteroid of `s` is near the screen.
pub open spec fn all_astroids_near_screen(s: Seq<Astroid>) -> bool {
    forall|k: int| 0 <= k < s.len() ==> coord_near_screen((#[trigger] s[k]).x as int)
        && coord_near_screen(s[k].y as int)
}

/// A scoring pass moves no asteroid: every survivor keeps a position that an
/// asteroid of the field already had.
pub proof fn lemma_process_bullets_keeps_positions(bs: Seq<Bullet>, asts: Seq<Astroid>)
    requires
        all_astroids_near_screen(asts),
    ensures
        all_astroids_near_screen(process_bullets(bs, asts).1),
    decreases bs.len(),
{
    if bs.len() > 0 {
        let b = bs[0];
        if !spec_on_screen(b.x as int, b.y as int) {
            lemma_process_bullets_keeps_positions(bs.skip(1), asts);
        } else {
            match spec_hit_index(b, asts) {
                Some(i) => {
                    crate::bullet::lemma_hit_index_in_range(b, asts);
                    let shrunk = shrink_at(asts, i);
                    assert forall|k: int|
                        0 <= k < shrunk.len() implies coord_near_screen(
                        (#[trigger] shrunk[k]).x as int,
                    ) && coord_near_screen(shrunk[k].y as int) by {
                        if asts[i].size == 1 {
                            if k < i {
                                assert(shrunk[k] == asts[k]);
                            } else {
                                assert(shrunk[k] == asts[k + 1]);
                            }
                        } else {
                            if k != i {
                                assert(shrunk[k] == asts[k]);
                            }
                        }
                    }
                    lemma_process_bullets_keeps_positions(bs.skip(1), shrunk);
                },
                None => {
                    lemma_process_bullets_keeps_positions(bs.skip(1), asts);
                },
            }
        }
    }
}

/// One whole physics tick, in the order the game runs it: the ship takes its
/// movement step, the bullets fly and spend themselves on the asteroid
/// field, the asteroids drift, the ship is tested against the field, the
/// spawner counts one tick, and asteroids beyond their margin despawn. The
/// caller supplies the table of trigonometric samples and learns whether the
/// ship was caught.
pub fn physics_tick(
    player: &mut Player,
    astroids: &mut Astroids,
    score: &mut u64,
    table: &Vec<TrigPair>,
) -> (hit: bool)
    requires
        old(player).wf(),
        old(astroids).wf(),
        trig_table_wf(table@),
        forall|i: int| 0 <= i < old(player).bullets@.len() ==> coord_near_screen(
            (#[trigger] old(player).bullets@[i]).x as int,
        ) && coord_near_screen(old(player).bullets@[i].y as int),
        all_astroids_near_screen(old(astroids).astroids@),
        *old(score) + old(player).bullets@.len() <= u64::MAX,
    ensures
        final(player).x == crate::units::wrap_coord(
            old(player).x + scaled_step(
                old(player).speed as int,
                table@[old(player).angle as int].sin as int,
            ),
            crate::units::MAX_X as int,
        ),
        final(player).y == crate::units::wrap_coord(
            old(player).y - scaled_step(
                old(player).speed as int,
                table@[old(player).angle as int].cos as int,
            ),
            crate::units::MAX_Y as int,
        ),
        final(player).angle == old(player).angle,
        final(player).speed == old(player).speed,
        final(player).bullets@ == bullet_pass(
            old(player).bullets@,
            old(astroids).astroids@,
            table@,
        ).0,
        *final(score) == *old(score) + bullet_pass(
            old(player).bullets@,
            old(astroids).astroids@,
            table@,
        ).2,
        hit == final(player).caught_by(
            moved_astroids(
                bullet_pass(old(player).bullets@, old(astroids).astroids@, table@).1,
                table@,
            ),
        ),
        old(astroids).spawn_counter + 1 <= old(astroids).spawn_rate ==> {
            &&& final(astroids).astroids@ == visible_only(
                moved_astroids(
                    bullet_pass(old(player).bullets@, old(astroids).astroids@, table@).1,
                    table@,
                ),
            )
            &&& final(astroids).spawn_counter == old(astroids).spawn_counter + 1
            &&& final(astroids).spawn_rate == old(astroids).spawn_rate
        },
        old(astroids).spawn_counter + 1 > old(astroids).spawn_rate ==> {
            &&& exists|fresh: Astroid|
                #![auto]
                fresh.wf() && fresh.spawned_inward() && final(astroids).astroids@ == visible_only(
                    moved_astroids(
                        bullet_pass(old(player).bullets@, old(astroids).astroids@, table@).1,
                        table@,
                    ).push(fresh),
                )
            &&& final(astroids).spawn_counter == 0
            &&& final(astroids).spawn_rate == next_spawn_rate(old(astroids).spawn_rate as int)
        },
        final(player).wf(),
        final(astroids).wf(),
{
    let ghost obs = old(player).bullets@;
    let ghost oasts = old(astroids).astroids@;

    let ship_trig = table[player.angle as usize];
    player.process_movement(ship_trig);

    let mut btrig: Vec<TrigPair> = Vec::new();
    let mut i: usize = 0;
    while i < player.bullets.len()
        invariant
            i <= player.bullets@.len(),
            player.bullets@ == obs,
            player.wf(),
            trig_table_wf(table@),
            btrig@.len() == i,
            forall|j: int| 0 <= j < i ==> #[trigger] btrig@[j] == table@[obs[j].angle as int],
        decreases player.bullets@.len() - i,
    {
        let b = player.bullets[i];
        btrig.push(table[b.angle as usize]);
        i = i + 1;
    }
    player.move_bullets(&btrig);
    proof {
        assert forall|k: int| 0 <= k < player.bullets@.len() implies player.bullets@[k]
            == moved_bullets(obs, table@)[k] by {
            crate::units::lemma_scaled_step_bounds(
                BULLET_SPEED as int,
                table@[obs[k].angle as int].sin as int,
            );
            crate::units::lemma_scaled_step_bounds(
                BULLET_SPEED as int,
                table@[obs[k].angle as int].cos as int,
            );
            assert(player.bullets@[k].x == moved_bullet(obs[k], table@[obs[k].angle as int]).x);
            assert(player.bullets@[k].y == moved_bullet(obs[k], table@[obs[k].angle as int]).y);
        }
        assert(player.bullets@ =~= moved_bullets(obs, table@));
    }

    resolve_bullet_hits(player, astroids, score);
    let ghost mid = astroids.astroids@;
    proof {
        lemma_process_bullets_keeps_positions(moved_bullets(obs, table@), oasts);
    }

    let mut atrig: Vec<TrigPair> = Vec::new();
    let mut j: usize = 0;
    while j < astroids.astroids.len()
        invariant
            j <= astroids.astroids@.len(),
            astroids.astroids@ == mid,
            astroids.wf(),
            trig_table_wf(table@),
            atrig@.len() == j,
            forall|k: int| 0 <= k < j ==> #[trigger] atrig@[k] == table@[mid[k].angle as int],
        decreases astroids.astroids@.len() - j,
    {
        let a = astroids.astroids[j];
        atrig.push(table[a.angle as usize]);
        j = j + 1;
    }
    astroids.move_all(&atrig);
    proof {
        assert forall|k: int| 0 <= k < astroids.astroids@.len() implies astroids.astroids@[k]
            == moved_astroids(mid, table@)[k] by {
            crate::units::lemma_scaled_step_bounds(
                ASTROID_SPEED as int,
                table@[mid[k].angle as int].sin as int,
            );
            crate::units::lemma_scaled_step_bounds(
                ASTROID_SPEED as int,
                table@[mid[k].angle as int].cos as int,
            );
            assert(astroids.astroids@[k].x == moved_astroid(mid[k], table@[mid[k].angle as int]).x);
            assert(astroids.astroids@[k].y == moved_astroid(mid[k], table@[mid[k].angle as int]).y);
        }
        assert(astroids.astroids@ =~= moved_astroids(mid, table@));
    }

    let hit = player.is_hit(&astroids.astroids);

    let ghost before_spawn = astroids.astroids@;
    astroids.spawn_step();
    let ghost spawned = astroids.astroids@;
    proof {
        if old(astroids).spawn_counter + 1 > old(astroids).spawn_rate {
            assert(spawned =~= before_spawn.push(spawned.last()));
        }
    }
    astroids.despawn_offscreen();
    proof {
        if old(astroids).spawn_counter + 1 > old(astroids).spawn_rate {
            let fresh = spawned.last();
            assert(fresh.wf() && fresh.spawned_inward() && astroids.astroids@ == visible_only(
                before_spawn.push(fresh),
            ));
        }
    }
    hit
}

} // verus!
