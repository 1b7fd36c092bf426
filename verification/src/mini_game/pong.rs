//! The pong minigame: the player's paddle below, the narrator's one or two
//! paddles above, up to three pucks. A puck past the top edge scores two
//! coins for the player's side of the ledger display; past the bottom,
//! two for the narrator's; the game ends when six coins are out. Walls
//! reflect; a paddle contact rebounds the puck along the contact normal,
//! twenty units per second faster, with a vertical bias injected into
//! nearly-horizontal rebounds. Positions run in milli-units, velocities in
//! milli-units per second.

use vstd::prelude::*;

use crate::collision::{
    entry_in_bounds, spec_first_passing_from, CollisionFilter, CollisionQuery,
    CollisionQueryEntry, CollisionShape,
};
use crate::mini_game::MiniGameFinish;
use crate::num::{clamp_i64, isqrt64};

verus! {

pub const PONG_WALL_X: i64 = 155_000;
pub const PONG_SCORE_Y: i64 = 100_000;
pub const PONG_PADDLE_CLAMP: i64 = 140_000;

/// The pong shell: spawn scheduling and the running score.
#[derive(Copy, Clone, PartialEq, Eq, Structural, Debug)]
pub struct Pong {
    pub started: bool,
    pub finished: bool,
    pub spawn_time_ms: u32,
    pub spawn_count: u32,
    pub my_coins: u32,
    pub your_coins: u32,
}

impl Pong {
    pub fn new() -> (r: Pong)
        ensures
            r == (Pong {
                started: false,
                finished: false,
                spawn_time_ms: 0u32,
                spawn_count: 0u32,
                my_coins: 0u32,
                your_coins: 0u32,
            }),
    {
        Pong {
            started: false,
            finished: false,
            spawn_time_ms: 0,
            spawn_count: 0,
            my_coins: 0,
            your_coins: 0,
        }
    }
}

/// One puck.
#[derive(Copy, Clone, PartialEq, Eq, Structural, Debug)]
pub struct Puck {
    pub x_milli: i64,
    pub y_milli: i64,
    pub vx_milli: i64,
    pub vy_milli: i64,
}

/// One shell tick: the first active tick spawns a puck, and each full ten
/// seconds of active play spawns another, up to three in all. Six coins
/// out ends the game with both scores as the deltas.
pub fn pong_update(pong: &mut Pong, active: bool, dt_ms: u32) -> (r: (bool, Option<
    MiniGameFinish,
>))
    requires
        dt_ms <= 1000,
        old(pong).spawn_time_ms <= 20_000,
        old(pong).my_coins <= 100,
        old(pong).your_coins <= 100,
    ensures
        ({
            let first = active && !old(pong).started;
            let time1 = if active {
                crate::num::spec_clamp_u32((old(pong).spawn_time_ms + dt_ms) as u32, 0, 20_000)
            } else {
                old(pong).spawn_time_ms
            };
            let interval = time1 > 10_000 && old(pong).spawn_count < 2;
            &&& r.0 == (first || interval)
            &&& final(pong).started == (old(pong).started || active)
            &&& final(pong).spawn_time_ms == if interval {
                0u32
            } else {
                time1
            }
            &&& final(pong).spawn_count == if interval {
                (old(pong).spawn_count + 1) as u32
            } else {
                old(pong).spawn_count
            }
            &&& final(pong).my_coins == old(pong).my_coins
            &&& final(pong).your_coins == old(pong).your_coins
            &&& ({
                let scores_out = old(pong).my_coins + old(pong).your_coins >= 6;
                let reports = scores_out && !old(pong).finished;
                &&& reports ==> r.1 == Option::Some(MiniGameFinish {
                    my_coins: old(pong).my_coins as i32,
                    your_coins: old(pong).your_coins as i32,
                }) && final(pong).finished
                &&& !reports ==> r.1 is None && final(pong).finished == old(pong).finished
            })
        }),
{
    let mut spawn = false;
    if active && !pong.started {
        spawn = true;
        pong.started = true;
    }
    if active {
        pong.spawn_time_ms = crate::num::clamp_u32(pong.spawn_time_ms + dt_ms, 0, 20_000);
    }
    if pong.spawn_time_ms > 10_000 && pong.spawn_count < 2 {
        spawn = true;
        pong.spawn_time_ms = 0;
        pong.spawn_count = pong.spawn_count + 1;
    }
    let finish = if pong.my_coins + pong.your_coins >= 6 && !pong.finished {
        pong.finished = true;
        Option::Some(
            MiniGameFinish {
                my_coins: pong.my_coins as i32,
                your_coins: pong.your_coins as i32,
            },
        )
    } else {
        Option::None
    };
    (spawn, finish)
}

/// Applies a puck's flight report to the running score: a goal pays its
/// side two coins and despawns the puck.
pub fn pong_apply_event(pong: &mut Pong, event: PuckEvent) -> (despawn: bool)
    requires
        old(pong).my_coins <= 100,
        old(pong).your_coins <= 100,
    ensures
        match event {
            PuckEvent::Flying => !despawn && *final(pong) == *old(pong),
            PuckEvent::ScoreMine => despawn && *final(pong) == (Pong {
                my_coins: (old(pong).my_coins + 2) as u32,
                ..*old(pong)
            }),
            PuckEvent::ScoreYours => despawn && *final(pong) == (Pong {
                your_coins: (old(pong).your_coins + 2) as u32,
                ..*old(pong)
            }),
        },
{
    match event {
        PuckEvent::Flying => false,
        PuckEvent::ScoreMine => {
            pong.my_coins = pong.my_coins + 2;
            true
        },
        PuckEvent::ScoreYours => {
            pong.your_coins = pong.your_coins + 2;
            true
        },
    }
}

/// The player's paddle: 250 units per second from the held keys, clamped.
pub fn player_paddle_move(x_milli: i64, a_held: bool, d_held: bool, dt_ms: u32) -> (r: i64)
    requires
        -PONG_PADDLE_CLAMP <= x_milli <= PONG_PADDLE_CLAMP,
        dt_ms <= 1000,
    ensures
        ({
            let step: int = 250 * dt_ms;
            let moved: int = x_milli + (if d_held {
                step
            } else {
                0int
            }) - (if a_held {
                step
            } else {
                0int
            });
            r == crate::num::spec_clamp_i64(moved as i64, (-PONG_PADDLE_CLAMP) as i64, PONG_PADDLE_CLAMP)
        }),
{
    let step: i64 = 250 * (dt_ms as i64);
    let mut x = x_milli;
    if d_held {
        x = x + step;
    }
    if a_held {
        x = x - step;
    }
    clamp_i64(x, -PONG_PADDLE_CLAMP, PONG_PADDLE_CLAMP)
}

/// A narrator paddle chases its target at 150 units per second, never
/// overshooting, and only while the target is more than 20 units away.
pub fn ai_paddle_move(x_milli: i64, target_milli: i64, dt_ms: u32) -> (r: i64)
    requires
        -PONG_PADDLE_CLAMP <= x_milli <= PONG_PADDLE_CLAMP,
        -1_000_000 <= target_milli <= 1_000_000,
        dt_ms <= 1000,
    ensures
        ({
            let step: int = 150 * dt_ms;
            let dist = crate::collision::abs_int(target_milli - x_milli);
            let chased: int = if dist > 20_000 {
                if target_milli > x_milli {
                    if x_milli + step > target_milli {
                        target_milli as int
                    } else {
                        x_milli + step
                    }
                } else {
                    if x_milli - step < target_milli {
                        target_milli as int
                    } else {
                        x_milli - step
                    }
                }
            } else {
                x_milli as int
            };
            r == crate::num::spec_clamp_i64(chased as i64, (-PONG_PADDLE_CLAMP) as i64, PONG_PADDLE_CLAMP)
        }),
{
    let step: i64 = 150 * (dt_ms as i64);
    let dist: i64 = if target_milli >= x_milli {
        target_milli - x_milli
    } else {
        x_milli - target_milli
    };
    let mut x = x_milli;
    if dist > 20_000 {
        if target_milli > x_milli {
            x = x + step;
            if x > target_milli {
                x = target_milli;
            }
        } else {
            x = x - step;
            if x < target_milli {
                x = target_milli;
            }
        }
    }
    clamp_i64(x, -PONG_PADDLE_CLAMP, PONG_PADDLE_CLAMP)
}

/// The squared distance between two points, in squared milli-units.
pub open spec fn spec_dist_sq(ax: int, ay: int, bx: int, by: int) -> int {
    (ax - bx) * (ax - bx) + (ay - by) * (ay - by)
}

/// Picks the puck a narrator paddle should chase: the first of the pucks
/// at minimal distance from the paddle. `None` with no pucks left.
pub fn ai_pick_target(px: i64, py: i64, pucks: &Vec<Puck>) -> (r: Option<usize>)
    requires
        -2_000_000 <= px <= 2_000_000,
        -2_000_000 <= py <= 2_000_000,
        forall|i: int|
            0 <= i < pucks@.len() ==> -2_000_000 <= (#[trigger] pucks@[i]).x_milli <= 2_000_000
                && -2_000_000 <= pucks@[i].y_milli <= 2_000_000,
    ensures
        pucks@.len() == 0 ==> r is None,
        pucks@.len() > 0 ==> match r {
            Option::Some(i) => {
                &&& i < pucks@.len()
                &&& forall|j: int|
                    0 <= j < pucks@.len() ==> spec_dist_sq(
                        pucks@[i as int].x_milli as int,
                        pucks@[i as int].y_milli as int,
                        px as int,
                        py as int,
                    ) <= spec_dist_sq(
                        (#[trigger] pucks@[j]).x_milli as int,
                        pucks@[j].y_milli as int,
                        px as int,
                        py as int,
                    )
            },
            Option::None => false,
        },
{
    if pucks.len() == 0 {
        return Option::None;
    }
    let mut best: usize = 0;
    let mut best_d: i64 = puck_dist_sq(&pucks[0], px, py);
    let mut i: usize = 1;
    while i < pucks.len()
        invariant
            pucks@.len() > 0,
            best < pucks@.len(),
            1 <= i <= pucks@.len(),
            -2_000_000 <= px <= 2_000_000,
            -2_000_000 <= py <= 2_000_000,
            forall|k: int|
                0 <= k < pucks@.len() ==> -2_000_000 <= (#[trigger] pucks@[k]).x_milli
                    <= 2_000_000 && -2_000_000 <= pucks@[k].y_milli <= 2_000_000,
            best_d == spec_dist_sq(
                pucks@[best as int].x_milli as int,
                pucks@[best as int].y_milli as int,
                px as int,
                py as int,
            ),
            forall|j: int|
                0 <= j < i ==> best_d <= spec_dist_sq(
                    (#[trigger] pucks@[j]).x_milli as int,
                    pucks@[j].y_milli as int,
                    px as int,
                    py as int,
                ),
        decreases pucks@.len() - i,
    {
        let d = puck_dist_sq(&pucks[i], px, py);
        if d < best_d {
            best = i;
            best_d = d;
        }
        i = i + 1;
    }
    Option::Some(best)
}

/// Picks and claims the puck a narrator paddle chases: the first of the
/// pucks at minimal distance is removed from the list and returned, so
/// with several paddles chasing in turn each claims a distinct puck.
pub fn ai_claim_target(px: i64, py: i64, pucks: &mut Vec<Puck>) -> (r: Option<Puck>)
    requires
        -2_000_000 <= px <= 2_000_000,
        -2_000_000 <= py <= 2_000_000,
        forall|i: int|
            0 <= i < old(pucks)@.len() ==> -2_000_000 <= (#[trigger] old(pucks)@[i]).x_milli
                <= 2_000_000 && -2_000_000 <= old(pucks)@[i].y_milli <= 2_000_000,
    ensures
        old(pucks)@.len() == 0 ==> r is None && final(pucks)@ == old(pucks)@,
        old(pucks)@.len() > 0 ==> exists|i: int|
            {
                &&& 0 <= i < old(pucks)@.len()
                &&& r == Option::Some(#[trigger] old(pucks)@[i])
                &&& final(pucks)@ == old(pucks)@.remove(i)
                &&& forall|j: int|
                    0 <= j < old(pucks)@.len() ==> spec_dist_sq(
                        old(pucks)@[i].x_milli as int,
                        old(pucks)@[i].y_milli as int,
                        px as int,
                        py as int,
                    ) <= spec_dist_sq(
                        (#[trigger] old(pucks)@[j]).x_milli as int,
                        old(pucks)@[j].y_milli as int,
                        px as int,
                        py as int,
                    )
            },
{
    match ai_pick_target(px, py, pucks) {
        Option::Some(i) => {
            let claimed = pucks.remove(i);
            proof {
                assert(claimed == old(pucks)@[i as int]);
            }
            Option::Some(claimed)
        },
        Option::None => Option::None,
    }
}

fn puck_dist_sq(puck: &Puck, px: i64, py: i64) -> (r: i64)
    requires
        -2_000_000 <= puck.x_milli <= 2_000_000,
        -2_000_000 <= puck.y_milli <= 2_000_000,
        -2_000_000 <= px <= 2_000_000,
        -2_000_000 <= py <= 2_000_000,
    ensures
        r == spec_dist_sq(puck.x_milli as int, puck.y_milli as int, px as int, py as int),
{
    let dx = puck.x_milli - px;
    let dy = puck.y_milli - py;
    proof {
        assert(dx * dx >= 0 && dx * dx <= 16_000_000_000_000 && dy * dy >= 0 && dy * dy
            <= 16_000_000_000_000) by (nonlinear_arith)
            requires
                -4_000_000 <= dx <= 4_000_000,
                -4_000_000 <= dy <= 4_000_000,
        ;
    }
    dx * dx + dy * dy
}

/// The narrator paddle's jittered aim: with a 50 per-mille roll the offset
/// refreshes from the host's draw — within ten units of a chased puck,
/// within a hundred with none to chase; the target is then the chased
/// puck's x plus the offset, or the offset alone with no puck.
pub fn ai_target(
    chased_x_milli: Option<i64>,
    offset_milli: i64,
    refresh_roll: u32,
    new_offset_milli: i64,
) -> (r: (i64, i64))
    requires
        refresh_roll < 1000,
        -1_000_000 <= offset_milli <= 1_000_000,
        chased_x_milli is Some ==> -10_000 < new_offset_milli < 10_000,
        chased_x_milli is None ==> -100_000 < new_offset_milli < 100_000,
        chased_x_milli matches Option::Some(x) ==> -2_000_000 <= x <= 2_000_000,
    ensures
        ({
            let offset1: int = if refresh_roll < 50 {
                new_offset_milli as int
            } else {
                offset_milli as int
            };
            &&& r.1 == offset1
            &&& match chased_x_milli {
                Option::Some(x) => r.0 == x + offset1,
                Option::None => r.0 == offset1,
            }
        }),
{
    let offset1: i64 = if refresh_roll < 50 {
        new_offset_milli
    } else {
        offset_milli
    };
    match chased_x_milli {
        Option::Some(x) => (x + offset1, offset1),
        Option::None => (offset1, offset1),
    }
}

/// Seeds a still puck's velocity from the host-supplied unit direction
/// (an angle of 30 to 60 degrees plus a random quadrant) at speed 60.
pub fn puck_seed_velocity(puck: &mut Puck, dir_x_milli: i64, dir_y_milli: i64)
    requires
        -1000 <= dir_x_milli <= 1000,
        -1000 <= dir_y_milli <= 1000,
    ensures
        old(puck).vx_milli == 0 && old(puck).vy_milli == 0 ==> *final(puck) == (Puck {
            vx_milli: (dir_x_milli * 60) as i64,
            vy_milli: (dir_y_milli * 60) as i64,
            ..*old(puck)
        }),
        !(old(puck).vx_milli == 0 && old(puck).vy_milli == 0) ==> *final(puck) == *old(puck),
{
    if puck.vx_milli == 0 && puck.vy_milli == 0 {
        puck.vx_milli = dir_x_milli * 60;
        puck.vy_milli = dir_y_milli * 60;
    }
}

/// What a puck's free flight reports.
#[derive(Copy, Clone, PartialEq, Eq, Structural, Debug)]
pub enum PuckEvent {
    Flying,
    /// Past the bottom edge: the narrator's display gains two coins and
    /// the puck despawns.
    ScoreMine,
    /// Past the top edge: the player's display gains two coins and the
    /// puck despawns.
    ScoreYours,
}

/// One axis of puck drift, truncated toward zero.
pub open spec fn spec_flight_step(v_milli: int, dt_ms: u32) -> int {
    if v_milli >= 0 {
        v_milli * dt_ms / 1000
    } else {
        -((-v_milli) * dt_ms / 1000)
    }
}

/// One tick of free flight: the puck drifts, the side walls fold its
/// horizontal velocity inward, and an edge past the scoring lines reports
/// the goal.
pub fn puck_flight(puck: &mut Puck, dt_ms: u32) -> (event: PuckEvent)
    requires
        dt_ms <= 1000,
        -2_000_000 <= old(puck).x_milli <= 2_000_000,
        -2_000_000 <= old(puck).y_milli <= 2_000_000,
        -2_000_000 <= old(puck).vx_milli <= 2_000_000,
        -2_000_000 <= old(puck).vy_milli <= 2_000_000,
    ensures
        final(puck).x_milli == old(puck).x_milli + spec_flight_step(old(puck).vx_milli as int, dt_ms),
        final(puck).y_milli == old(puck).y_milli + spec_flight_step(old(puck).vy_milli as int, dt_ms),
        final(puck).vx_milli == if final(puck).x_milli > PONG_WALL_X {
            (-abs_v(old(puck).vx_milli as int)) as i64
        } else if final(puck).x_milli < -PONG_WALL_X {
            abs_v(old(puck).vx_milli as int) as i64
        } else {
            old(puck).vx_milli
        },
        final(puck).vy_milli == old(puck).vy_milli,
        event == (if final(puck).y_milli > PONG_SCORE_Y {
            PuckEvent::ScoreYours
        } else if final(puck).y_milli < -PONG_SCORE_Y {
            PuckEvent::ScoreMine
        } else {
            PuckEvent::Flying
        }),
{
    proof {
        assert(-2_000_000_000 <= (puck.vx_milli as int) * (dt_ms as int) <= 2_000_000_000
            && -2_000_000_000 <= (puck.vy_milli as int) * (dt_ms as int) <= 2_000_000_000)
            by (nonlinear_arith)
            requires
                -2_000_000 <= puck.vx_milli <= 2_000_000,
                -2_000_000 <= puck.vy_milli <= 2_000_000,
                0 <= dt_ms <= 1000,
        ;
    }
    let avx: i64 = if puck.vx_milli >= 0 {
        puck.vx_milli
    } else {
        -puck.vx_milli
    };
    let avy: i64 = if puck.vy_milli >= 0 {
        puck.vy_milli
    } else {
        -puck.vy_milli
    };
    proof {
        assert(0 <= (avx as int) * (dt_ms as int) <= 2_000_000_000 && 0 <= (avy as int) * (
        dt_ms as int) <= 2_000_000_000) by (nonlinear_arith)
            requires
                0 <= avx <= 2_000_000,
                0 <= avy <= 2_000_000,
                0 <= dt_ms <= 1000,
        ;
    }
    let sx: i64 = if puck.vx_milli >= 0 {
        avx * (dt_ms as i64) / 1000
    } else {
        -(avx * (dt_ms as i64) / 1000)
    };
    let sy: i64 = if puck.vy_milli >= 0 {
        avy * (dt_ms as i64) / 1000
    } else {
        -(avy * (dt_ms as i64) / 1000)
    };
    puck.x_milli = puck.x_milli + sx;
    puck.y_milli = puck.y_milli + sy;
    if puck.x_milli > PONG_WALL_X {
        puck.vx_milli = if puck.vx_milli >= 0 {
            -puck.vx_milli
        } else {
            puck.vx_milli
        };
    } else if puck.x_milli < -PONG_WALL_X {
        puck.vx_milli = if puck.vx_milli >= 0 {
            puck.vx_milli
        } else {
            -puck.vx_milli
        };
    }
    if puck.y_milli > PONG_SCORE_Y {
        PuckEvent::ScoreYours
    } else if puck.y_milli < -PONG_SCORE_Y {
        PuckEvent::ScoreMine
    } else {
        PuckEvent::Flying
    }
}

pub open spec fn abs_v(v: int) -> int {
    if v >= 0 {
        v
    } else {
        -v
    }
}

/// The rebound normal: the unit vector from the paddle's centre toward the
/// puck, with a full unit of vertical bias injected — away from the paddle
/// — and renormalised when the normal comes out nearly horizontal.
pub open spec fn spec_bounce_normal(dx: int, dy: int) -> (int, int) {
    let u = spec_unit_toward(dx, dy);
    if -200 < u.1 && u.1 < 200 {
        spec_unit_toward(
            u.0,
            if dy < 0 {
                u.1 - 1000
            } else {
                u.1 + 1000
            },
        )
    } else {
        u
    }
}

/// One component of a unit normal (in milli-units) scaled to a speed,
/// truncated toward zero.
pub open spec fn spec_scaled(u: int, speed: int) -> int {
    if u >= 0 {
        u * speed / 1000
    } else {
        -((-u) * speed / 1000)
    }
}

/// The rebound speed: the old speed's integer magnitude plus the boost,
/// capped at the pucks' working range.
pub open spec fn spec_bounce_speed(vx: int, vy: int, boost: int) -> int {
    let s = crate::num::spec_isqrt(vx * vx + vy * vy) + boost;
    if s > 1_800_000 {
        1_800_000
    } else {
        s
    }
}

/// The rebound off a paddle: the new velocity points along the contact
/// normal — the unit vector from the paddle's centre to the puck, with a
/// full unit of vertical bias injected when the normal is nearly
/// horizontal — at the old speed plus the given boost (twenty units per
/// second in the minigame, ten in the gauntlet). The caller first extracts
/// the puck from the overlap along the same normal (`puck_extract`).
#[verifier::rlimit(60)]
pub fn puck_bounce(puck: &mut Puck, paddle_x: i64, paddle_y: i64, boost_milli: i64) -> (r: bool)
    requires
        -2_000_000 <= old(puck).x_milli <= 2_000_000,
        -2_000_000 <= old(puck).y_milli <= 2_000_000,
        -2_000_000 <= paddle_x <= 2_000_000,
        -2_000_000 <= paddle_y <= 2_000_000,
        -2_000_000 <= old(puck).vx_milli <= 2_000_000,
        -2_000_000 <= old(puck).vy_milli <= 2_000_000,
        10_000 <= boost_milli <= 100_000,
    ensures
        r == !(old(puck).x_milli == paddle_x && old(puck).y_milli == paddle_y),
        !r ==> *final(puck) == *old(puck),
        r ==> final(puck).x_milli == old(puck).x_milli && final(puck).y_milli == old(puck).y_milli && -2_000_000 <= final(puck).vx_milli <= 2_000_000 && -2_000_000 <= final(puck).vy_milli <= 2_000_000,
        // The rebound is exactly the normal scaled to the boosted speed.
        r ==> ({
            let nrm = spec_bounce_normal(
                old(puck).x_milli - paddle_x,
                old(puck).y_milli - paddle_y,
            );
            let speed1 = spec_bounce_speed(
                old(puck).vx_milli as int,
                old(puck).vy_milli as int,
                boost_milli as int,
            );
            &&& final(puck).vx_milli == spec_scaled(nrm.0, speed1)
            &&& final(puck).vy_milli == spec_scaled(nrm.1, speed1)
        }),
        // It follows the contact normal: away from the paddle on each
        // axis, and never flat — a level contact is biased upward.
        r ==> {
            &&& old(puck).x_milli > paddle_x ==> final(puck).vx_milli >= 0
            &&& old(puck).x_milli < paddle_x ==> final(puck).vx_milli <= 0
            &&& old(puck).y_milli > paddle_y ==> final(puck).vy_milli > 0
            &&& old(puck).y_milli < paddle_y ==> final(puck).vy_milli < 0
            &&& old(puck).y_milli == paddle_y ==> final(puck).vy_milli > 0
        },
{
    let dx: i64 = puck.x_milli - paddle_x;
    let dy: i64 = puck.y_milli - paddle_y;
    if dx == 0 && dy == 0 {
        return false;
    }
    let (ux, uy) = unit_toward(dx, dy);
    // Inject a vertical bias into nearly-horizontal rebounds.
    let (ux, uy) = if -200 < uy && uy < 200 {
        let biased_y: i64 = if dy < 0 {
            uy - 1000
        } else {
            uy + 1000
        };
        unit_toward(ux, biased_y)
    } else {
        (ux, uy)
    };
    proof {
        assert(dy > 0 ==> uy >= 1);
        assert(dy < 0 ==> uy <= -1);
        assert(dy == 0 ==> uy >= 1);
        assert(dx > 0 ==> ux >= 0);
        assert(dx < 0 ==> ux <= 0);
    }
    let speed: i64 = vec_magnitude(puck.vx_milli, puck.vy_milli);
    let new_speed: i64 = if speed + boost_milli > 1_800_000 {
        1_800_000
    } else {
        speed + boost_milli
    };
    let aux: i64 = if ux >= 0 {
        ux
    } else {
        -ux
    };
    let auy: i64 = if uy >= 0 {
        uy
    } else {
        -uy
    };
    proof {
        assert(0 <= aux * new_speed <= 1_980_000_000 && 0 <= auy * new_speed <= 1_980_000_000)
            by (nonlinear_arith)
            requires
                0 <= aux <= 1100,
                0 <= auy <= 1100,
                0 <= new_speed <= 1_800_000,
        ;
        assert(0 <= aux * new_speed / 1000 <= 2_000_000 && 0 <= auy * new_speed / 1000
            <= 2_000_000) by (nonlinear_arith)
            requires
                0 <= aux * new_speed <= 1_980_000_000,
                0 <= auy * new_speed <= 1_980_000_000,
        ;
        assert(auy >= 1 ==> auy * new_speed / 1000 >= 10) by (nonlinear_arith)
            requires
                new_speed >= 10_000,
                new_speed <= 1_800_000,
        ;
    }
    let svx: i64 = aux * new_speed / 1000;
    let svy: i64 = auy * new_speed / 1000;
    puck.vx_milli = if ux >= 0 {
        svx
    } else {
        -svx
    };
    puck.vy_milli = if uy >= 0 {
        svy
    } else {
        -svy
    };
    true
}

/// The magnitude of a velocity vector, by integer square root.
fn vec_magnitude(vx: i64, vy: i64) -> (r: i64)
    requires
        -2_000_000 <= vx <= 2_000_000,
        -2_000_000 <= vy <= 2_000_000,
    ensures
        0 <= r <= 3_000_000,
        r as int == crate::num::spec_isqrt(
            (vx as int) * (vx as int) + (vy as int) * (vy as int),
        ),
{
    proof {
        assert(vx * vx >= 0 && vx * vx <= 4_000_000_000_000 && vy * vy >= 0 && vy * vy
            <= 4_000_000_000_000) by (nonlinear_arith)
            requires
                -2_000_000 <= vx <= 2_000_000,
                -2_000_000 <= vy <= 2_000_000,
        ;
    }
    let sq: i64 = vx * vx + vy * vy;
    let root: u64 = isqrt64(sq as u64);
    proof {
        assert(root <= 3_000_000) by (nonlinear_arith)
            requires
                (root as int) * (root as int) <= 8_000_000_000_000,
        ;
    }
    root as i64
}

/// The unit vector (in milli-units) from the origin toward `(dx, dy)`:
/// each component's magnitude scaled by a thousand, divided by the
/// vector's integer length, truncated toward zero; the zero vector stays
/// zero.
pub open spec fn spec_unit_toward(dx: int, dy: int) -> (int, int) {
    if dx == 0 && dy == 0 {
        (0int, 0int)
    } else {
        let m = crate::num::spec_isqrt(dx * dx + dy * dy);
        let ux = abs_v(dx) * 1000 / m;
        let uy = abs_v(dy) * 1000 / m;
        (
            if dx >= 0 {
                ux
            } else {
                -ux
            },
            if dy >= 0 {
                uy
            } else {
                -uy
            },
        )
    }
}

/// The unit vector (in milli-units) pointing from the origin toward
/// `(dx, dy)`, truncated toward zero; the zero vector stays zero. On an
/// axis that carries at least as much of the offset as the other, the
/// component is not rounded away.
pub fn unit_toward(dx: i64, dy: i64) -> (r: (i64, i64))
    requires
        -4_000_000 <= dx <= 4_000_000,
        -4_000_000 <= dy <= 4_000_000,
    ensures
        r.0 as int == spec_unit_toward(dx as int, dy as int).0,
        r.1 as int == spec_unit_toward(dx as int, dy as int).1,
        -1000 <= r.0 <= 1000,
        -1000 <= r.1 <= 1000,
        dx == 0 && dy == 0 ==> r == (0i64, 0i64),
        dx > 0 ==> r.0 >= 0,
        dx < 0 ==> r.0 <= 0,
        dx == 0 ==> r.0 == 0,
        dy > 0 ==> r.1 >= 0,
        dy < 0 ==> r.1 <= 0,
        dy == 0 ==> r.1 == 0,
        dy > 0 && dy >= dx && dy >= -dx ==> r.1 >= 700,
        dy < 0 && dy <= dx && dy <= -dx ==> r.1 <= -700,
{
    if dx == 0 && dy == 0 {
        return (0, 0);
    }
    proof {
        assert(dx * dx >= 0 && dx * dx <= 16_000_000_000_000 && dy * dy >= 0 && dy * dy
            <= 16_000_000_000_000) by (nonlinear_arith)
            requires
                -4_000_000 <= dx <= 4_000_000,
                -4_000_000 <= dy <= 4_000_000,
        ;
    }
    let sq: i64 = dx * dx + dy * dy;
    proof {
        assert(sq >= 1) by (nonlinear_arith)
            requires
                sq == dx * dx + dy * dy,
                !(dx == 0 && dy == 0),
        ;
    }
    let mag: u64 = isqrt64(sq as u64);
    proof {
        assert(mag >= 1) by (nonlinear_arith)
            requires
                (mag as int + 1) * (mag as int + 1) > sq,
                sq >= 1,
        ;
        assert(mag <= 6_000_000) by (nonlinear_arith)
            requires
                (mag as int) * (mag as int) <= 32_000_000_000_000,
        ;
    }
    let m: i64 = mag as i64;
    let ax: i64 = if dx >= 0 {
        dx
    } else {
        -dx
    };
    let ay: i64 = if dy >= 0 {
        dy
    } else {
        -dy
    };
    proof {
        assert(ax * ax <= sq && ay * ay <= sq) by (nonlinear_arith)
            requires
                sq == dx * dx + dy * dy,
                (ax == dx || ax == -dx) && (ay == dy || ay == -dy),
        ;
        lemma_unit_component(ax, m, sq);
        lemma_unit_component(ay, m, sq);
        if ay >= ax {
            assert(ay >= 1);
            assert(sq <= 2 * ay * ay) by (nonlinear_arith)
                requires
                    sq == dx * dx + dy * dy,
                    (ax == dx || ax == -dx) && (ay == dy || ay == -dy),
                    ax >= 0 && ay >= ax,
            ;
            lemma_dominant_component(ay, m, sq);
        }
    }
    let ux_mag: i64 = ax * 1000 / m;
    let uy_mag: i64 = ay * 1000 / m;
    let ux: i64 = if dx >= 0 {
        ux_mag
    } else {
        -ux_mag
    };
    let uy: i64 = if dy >= 0 {
        uy_mag
    } else {
        -uy_mag
    };
    (ux, uy)
}

/// The dominant axis keeps at least 0.7 of the unit after truncation.
proof fn lemma_dominant_component(a: i64, m: i64, sq: i64)
    requires
        1 <= a <= 4_100_000,
        m >= 1,
        sq <= 2 * a * a,
        (m as int) * (m as int) <= sq,
    ensures
        (a as int) * 1000 / (m as int) >= 700,
{
    assert(700 * m <= 1000 * a) by (nonlinear_arith)
        requires
            (m as int) * (m as int) <= 2 * (a as int) * (a as int),
            m >= 1,
            a >= 1,
    ;
    assert((a as int) * 1000 / (m as int) >= 700) by (nonlinear_arith)
        requires
            700 * m <= 1000 * a,
            m >= 1,
            a >= 1,
    ;
}

/// Where the fixed-normal extraction ends: from `(x, y)`, while an
/// eligible collider still overlaps the probe and steps remain, the probe
/// moves one unit along `(ux, uy)`.
pub open spec fn spec_extracted(
    entries: Seq<CollisionQueryEntry>,
    x: int,
    y: int,
    ux: int,
    uy: int,
    shape: CollisionShape,
    filter: Option<CollisionFilter>,
    fuel: nat,
) -> (int, int)
    decreases fuel,
{
    if fuel == 0 {
        (x, y)
    } else if spec_first_passing_from(entries, x, y, shape, filter, 0) is Some {
        spec_extracted(entries, x + ux, y + uy, ux, uy, shape, filter, (fuel - 1) as nat)
    } else {
        (x, y)
    }
}

/// Colliders a probe may be extracted from: in the query's working range
/// and inside the pucks' arena bounds.
pub open spec fn extract_entries_ok(entries: Seq<CollisionQueryEntry>) -> bool {
    forall|i: int|
        0 <= i < entries.len() ==> entry_in_bounds(#[trigger] entries[i]) && -1_000_000
            <= entries[i].x_milli <= 1_000_000 && -1_000_000 <= entries[i].y_milli <= 1_000_000
}

/// Extracts an overlapping puck before the rebound: the contact normal is
/// taken once — the unit vector from the first overlapping collider's
/// centre to the puck — and the puck steps one unit along it until the
/// spot is free or the step budget runs out. Reports whether the puck
/// ended free; a puck on the collider's exact centre has no normal and
/// marches in place.
pub fn puck_extract(
    puck: &mut Puck,
    query: &CollisionQuery,
    shape: CollisionShape,
    filter: Option<CollisionFilter>,
    max_steps: u32,
) -> (free: bool)
    requires
        -1_000_000 <= old(puck).x_milli <= 1_000_000,
        -1_000_000 <= old(puck).y_milli <= 1_000_000,
        0 <= shape.w_milli <= 1_000_000,
        0 <= shape.h_milli <= 1_000_000,
        max_steps <= 1000,
        extract_entries_ok(query.entries@),
    ensures
        final(puck).vx_milli == old(puck).vx_milli,
        final(puck).vy_milli == old(puck).vy_milli,
        ({
            let x0 = old(puck).x_milli as int;
            let y0 = old(puck).y_milli as int;
            let u = match spec_first_passing_from(query.entries@, x0, y0, shape, filter, 0) {
                Option::Some(i) => spec_unit_toward(
                    x0 - query.entries@[i].x_milli,
                    y0 - query.entries@[i].y_milli,
                ),
                Option::None => (0int, 0int),
            };
            let end = spec_extracted(
                query.entries@,
                x0,
                y0,
                u.0,
                u.1,
                shape,
                filter,
                max_steps as nat,
            );
            &&& final(puck).x_milli == end.0
            &&& final(puck).y_milli == end.1
            &&& free == (spec_first_passing_from(
                query.entries@,
                end.0,
                end.1,
                shape,
                filter,
                0,
            ) is None)
        }),
{
    let ghost entries = query.entries@;
    let ghost x0 = puck.x_milli as int;
    let ghost y0 = puck.y_milli as int;
    let hit0 = query.check(puck.x_milli, puck.y_milli, shape, filter);
    let (ux, uy): (i64, i64) = match hit0 {
        Option::Some(h) => {
            proof {
                crate::collision::lemma_first_passing_in_range(
                    entries,
                    x0,
                    y0,
                    shape,
                    filter,
                    0,
                );
                let i = spec_first_passing_from(entries, x0, y0, shape, filter, 0)->0;
                assert(-1_000_000 <= entries[i].x_milli <= 1_000_000 && -1_000_000
                    <= entries[i].y_milli <= 1_000_000);
            }
            unit_toward(puck.x_milli - h.x_milli, puck.y_milli - h.y_milli)
        },
        Option::None => (0, 0),
    };
    let ghost uxi = ux as int;
    let ghost uyi = uy as int;
    let mut fuel: u32 = max_steps;
    loop
        invariant
            query.entries@ == entries,
            extract_entries_ok(entries),
            0 <= shape.w_milli <= 1_000_000,
            0 <= shape.h_milli <= 1_000_000,
            fuel <= max_steps <= 1000,
            -1000 <= ux <= 1000,
            -1000 <= uy <= 1000,
            uxi == ux as int,
            uyi == uy as int,
            (uxi, uyi) == match spec_first_passing_from(entries, x0, y0, shape, filter, 0) {
                Option::Some(i) => spec_unit_toward(
                    x0 - entries[i].x_milli,
                    y0 - entries[i].y_milli,
                ),
                Option::None => (0int, 0int),
            },
            puck.vx_milli == old(puck).vx_milli,
            puck.vy_milli == old(puck).vy_milli,
            x0 == old(puck).x_milli as int,
            y0 == old(puck).y_milli as int,
            abs_v(puck.x_milli as int) <= 1_000_000 + 1000 * (max_steps - fuel),
            abs_v(puck.y_milli as int) <= 1_000_000 + 1000 * (max_steps - fuel),
            spec_extracted(entries, x0, y0, uxi, uyi, shape, filter, max_steps as nat)
                == spec_extracted(
                entries,
                puck.x_milli as int,
                puck.y_milli as int,
                uxi,
                uyi,
                shape,
                filter,
                fuel as nat,
            ),
        decreases fuel,
    {
        let hit = query.check(puck.x_milli, puck.y_milli, shape, filter);
        match hit {
            Option::None => {
                proof {
                    assert(spec_extracted(
                        entries,
                        puck.x_milli as int,
                        puck.y_milli as int,
                        uxi,
                        uyi,
                        shape,
                        filter,
                        fuel as nat,
                    ) == (puck.x_milli as int, puck.y_milli as int));
                }
                return true;
            },
            Option::Some(_) => {
                if fuel == 0 {
                    return false;
                }
                proof {
                    assert(spec_extracted(
                        entries,
                        puck.x_milli as int,
                        puck.y_milli as int,
                        uxi,
                        uyi,
                        shape,
                        filter,
                        fuel as nat,
                    ) == spec_extracted(
                        entries,
                        puck.x_milli as int + uxi,
                        puck.y_milli as int + uyi,
                        uxi,
                        uyi,
                        shape,
                        filter,
                        (fuel - 1) as nat,
                    ));
                }
                puck.x_milli = puck.x_milli + ux;
                puck.y_milli = puck.y_milli + uy;
                fuel = fuel - 1;
            },
        }
    }
}

proof fn lemma_unit_component(a: i64, m: i64, sq: i64)
    requires
        0 <= a <= 4_100_000,
        m >= 1,
        (a as int) * (a as int) <= sq,
        ((m as int) + 1) * ((m as int) + 1) > sq,
    ensures
        0 <= (a as int) * 1000 / (m as int) <= 1000,
        0 <= a * 1000 <= 4_100_000_000,
{
    assert(m >= a) by (nonlinear_arith)
        requires
            (a as int) * (a as int) <= sq,
            ((m as int) + 1) * ((m as int) + 1) > sq,
            m >= 1,
            a >= 0,
    ;
    assert(0 <= a * 1000 <= 4_100_000_000) by (nonlinear_arith)
        requires
            0 <= a <= 4_100_000,
    ;
    assert(0 <= (a as int) * 1000 / (m as int) <= 1000) by (nonlinear_arith)
        requires
            m >= a,
            m >= 1,
            a >= 0,
    ;
}

} // verus!
