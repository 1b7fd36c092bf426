//! The dodge minigame: two boats in a clamped arena, cannonballs raining
//! in from the rim. Each side starts with six coins; a landing ball that
//! overlaps a boat costs it two coins, saturating at zero, and grants a
//! second of invulnerability; the game ends when either side is drained.
//! Positions and sizes run in milli-units; headings are unit vectors the
//! host derives from the random angle draws.

use vstd::prelude::*;

use crate::collision::{
    spec_first_passing_from, CollisionFilter, CollisionQuery, CollisionQueryEntry, CollisionShape,
};
use crate::game::Difficulty;
use crate::ledger::sat_sub;
use crate::mini_game::pong::{abs_v, extract_entries_ok, spec_unit_toward, unit_toward};
use crate::mini_game::MiniGameFinish;
use crate::num::clamp_i64;

verus! {

/// Arena clamp, in milli-units.
pub const BOAT_MIN_X: i64 = -110_000;
pub const BOAT_MAX_X: i64 = 120_000;
pub const BOAT_MIN_Y: i64 = -60_000;
pub const BOAT_MAX_Y: i64 = 60_000;

/// One boat: its position, its per-tick movement, its shield timer and its
/// coins.
#[derive(Copy, Clone, PartialEq, Eq, Structural, Debug)]
pub struct Boat {
    pub my_boat: bool,
    pub x_milli: i64,
    pub y_milli: i64,
    pub move_x_milli: i64,
    pub move_y_milli: i64,
    pub invulnerable_ms: u32,
    pub coins: u32,
}

impl Boat {
    /// A boat hit by a landing cannonball: with coins left and no shield
    /// up it pays two coins, saturating at zero, and raises a one-second
    /// shield. Reports whether the hit landed.
    pub fn hit(&mut self) -> (landed: bool)
        ensures
            landed == (old(self).coins > 0 && old(self).invulnerable_ms == 0),
            landed ==> *final(self) == (Boat {
                coins: sat_sub(old(self).coins, 2),
                invulnerable_ms: 1000u32,
                ..*old(self)
            }),
            !landed ==> *final(self) == *old(self),
    {
        if self.coins > 0 && self.invulnerable_ms == 0 {
            self.invulnerable_ms = 1000;
            self.coins = crate::ledger::sub_saturating(self.coins, 2);
            true
        } else {
            false
        }
    }
}

/// Entering the dodge: the player's boat on the left, the narrator's on
/// the right, both staked with six coins, unshielded and still.
pub fn boats_enter() -> (r: (Boat, Boat))
    ensures
        r.0 == (Boat {
            my_boat: true,
            x_milli: 100_000i64,
            y_milli: 0i64,
            move_x_milli: 0i64,
            move_y_milli: 0i64,
            invulnerable_ms: 0u32,
            coins: 6u32,
        }),
        r.1 == (Boat {
            my_boat: false,
            x_milli: -100_000i64,
            y_milli: 0i64,
            move_x_milli: 0i64,
            move_y_milli: 0i64,
            invulnerable_ms: 0u32,
            coins: 6u32,
        }),
{
    let mine = Boat {
        my_boat: true,
        x_milli: 100_000,
        y_milli: 0,
        move_x_milli: 0,
        move_y_milli: 0,
        invulnerable_ms: 0,
        coins: 6,
    };
    let yours = Boat {
        my_boat: false,
        x_milli: -100_000,
        y_milli: 0,
        move_x_milli: 0,
        move_y_milli: 0,
        invulnerable_ms: 0,
        coins: 6,
    };
    (mine, yours)
}

/// The hitbox each boat fights under. The player's boat is scaled by 0.8;
/// the narrator's scale depends on difficulty and shrinks in a real game.
pub fn boat_shape(my_boat: bool, practice: bool, difficulty: Difficulty) -> (r: CollisionShape)
    ensures
        !my_boat ==> r == spec_player_boat_shape(practice),
        my_boat ==> r == spec_my_boat_shape(practice, difficulty),
{
    if !my_boat {
        // Base 50 x 70 units, visual scale 1.2 in a real game, hitbox 0.8.
        if practice {
            CollisionShape { w_milli: 40_000, h_milli: 56_000 }
        } else {
            CollisionShape { w_milli: 48_000, h_milli: 67_200 }
        }
    } else {
        // Base 59 x 70 units; the narrator's boat shrinks in a real game.
        let visual: i64 = if practice {
            100
        } else {
            match difficulty {
                Difficulty::Normal => 75,
                Difficulty::Hard => 50,
            }
        };
        let hitbox: i64 = match difficulty {
            Difficulty::Normal => 120,
            Difficulty::Hard => 80,
        };
        CollisionShape {
            w_milli: 59_000 * visual / 100 * hitbox / 100,
            h_milli: 70_000 * visual / 100 * hitbox / 100,
        }
    }
}

pub open spec fn spec_player_boat_shape(practice: bool) -> CollisionShape {
    if practice {
        CollisionShape { w_milli: 40_000, h_milli: 56_000 }
    } else {
        CollisionShape { w_milli: 48_000, h_milli: 67_200 }
    }
}

pub open spec fn spec_my_boat_shape(practice: bool, difficulty: Difficulty) -> CollisionShape {
    let visual: int = if practice {
        100
    } else {
        match difficulty {
            Difficulty::Normal => 75,
            Difficulty::Hard => 50,
        }
    };
    let hitbox: int = match difficulty {
        Difficulty::Normal => 120,
        Difficulty::Hard => 80,
    };
    CollisionShape {
        w_milli: (59_000 * visual / 100 * hitbox / 100) as i64,
        h_milli: (70_000 * visual / 100 * hitbox / 100) as i64,
    }
}

/// The player's boat movement from the held keys: axis speed 1.5 units per
/// tick, diagonal movement normalised to the same magnitude.
pub fn player_boat_movement(w: bool, a: bool, s: bool, d: bool) -> (r: (i64, i64))
    ensures
        ({
            let ax: int = (if d {
                1int
            } else {
                0int
            }) - (if a {
                1int
            } else {
                0int
            });
            let ay: int = (if w {
                1int
            } else {
                0int
            }) - (if s {
                1int
            } else {
                0int
            });
            let diagonal = ax != 0 && ay != 0;
            let mag: int = if diagonal {
                1061
            } else {
                1500
            };
            r.0 == ax * mag && r.1 == ay * mag
        }),
{
    let ax: i64 = (if d {
        1i64
    } else {
        0i64
    }) - (if a {
        1i64
    } else {
        0i64
    });
    let ay: i64 = (if w {
        1i64
    } else {
        0i64
    }) - (if s {
        1i64
    } else {
        0i64
    });
    let mag: i64 = if ax != 0 && ay != 0 {
        // 1.5 / sqrt(2), in milli-units.
        1061
    } else {
        1500
    };
    (ax * mag, ay * mag)
}

/// The narrator's drift for this tick: a fresh heading is taken when none
/// is set or the re-pick roll comes under 100 per-mille; the boat then
/// drifts at speed 2 along its heading. The heading is a unit vector in
/// milli-units, derived by the host from a uniform angle draw.
pub fn enemy_boat_heading(
    heading_x_milli: i64,
    heading_y_milli: i64,
    repick_roll: u32,
    new_x_milli: i64,
    new_y_milli: i64,
) -> (r: (i64, i64))
    requires
        -1000 <= heading_x_milli <= 1000,
        -1000 <= heading_y_milli <= 1000,
        -1000 <= new_x_milli <= 1000,
        -1000 <= new_y_milli <= 1000,
        repick_roll < 1000,
    ensures
        ({
            let repick = (heading_x_milli == 0 && heading_y_milli == 0) || repick_roll < 100;
            &&& repick ==> r == (new_x_milli, new_y_milli)
            &&& !repick ==> r == (heading_x_milli, heading_y_milli)
        }),
{
    if (heading_x_milli == 0 && heading_y_milli == 0) || repick_roll < 100 {
        (new_x_milli, new_y_milli)
    } else {
        (heading_x_milli, heading_y_milli)
    }
}

/// Where the recomputed-normal de-penetration ends: while an eligible
/// collider still overlaps the probe and steps remain, the probe moves one
/// unit along the unit vector from that collider's centre toward it.
pub open spec fn spec_depenetrated(
    entries: Seq<CollisionQueryEntry>,
    x: int,
    y: int,
    shape: CollisionShape,
    filter: Option<CollisionFilter>,
    fuel: nat,
) -> (int, int)
    decreases fuel,
{
    if fuel == 0 {
        (x, y)
    } else {
        match spec_first_passing_from(entries, x, y, shape, filter, 0) {
            Option::Some(i) => {
                let u = spec_unit_toward(x - entries[i].x_milli, y - entries[i].y_milli);
                spec_depenetrated(entries, x + u.0, y + u.1, shape, filter, (fuel - 1) as nat)
            },
            Option::None => (x, y),
        }
    }
}

/// Pushes an overlapping probe out before it moves: up to `max_steps`
/// times, the unit normal away from the first overlapping collider is
/// recomputed and the probe steps one unit along it. Returns the final
/// position and whether it ended free; a probe on a collider's exact
/// centre has no normal and marches in place.
pub fn depenetrate_point(
    query: &CollisionQuery,
    x_milli: i64,
    y_milli: i64,
    shape: CollisionShape,
    filter: Option<CollisionFilter>,
    max_steps: u32,
) -> (r: (i64, i64, bool))
    requires
        -1_000_000 <= x_milli <= 1_000_000,
        -1_000_000 <= y_milli <= 1_000_000,
        0 <= shape.w_milli <= 1_000_000,
        0 <= shape.h_milli <= 1_000_000,
        max_steps <= 1000,
        extract_entries_ok(query.entries@),
    ensures
        ({
            let end = spec_depenetrated(
                query.entries@,
                x_milli as int,
                y_milli as int,
                shape,
                filter,
                max_steps as nat,
            );
            &&& r.0 == end.0
            &&& r.1 == end.1
            &&& r.2 == (spec_first_passing_from(
                query.entries@,
                end.0,
                end.1,
                shape,
                filter,
                0,
            ) is None)
        }),
{
    let ghost entries = query.entries@;
    let mut x: i64 = x_milli;
    let mut y: i64 = y_milli;
    let mut fuel: u32 = max_steps;
    loop
        invariant
            query.entries@ == entries,
            extract_entries_ok(entries),
            0 <= shape.w_milli <= 1_000_000,
            0 <= shape.h_milli <= 1_000_000,
            fuel <= max_steps <= 1000,
            abs_v(x as int) <= 1_000_000 + 1000 * (max_steps - fuel),
            abs_v(y as int) <= 1_000_000 + 1000 * (max_steps - fuel),
            spec_depenetrated(
                entries,
                x_milli as int,
                y_milli as int,
                shape,
                filter,
                max_steps as nat,
            ) == spec_depenetrated(entries, x as int, y as int, shape, filter, fuel as nat),
        decreases fuel,
    {
        let hit = query.check(x, y, shape, filter);
        match hit {
            Option::None => {
                proof {
                    assert(spec_depenetrated(entries, x as int, y as int, shape, filter, fuel as nat)
                        == (x as int, y as int));
                }
                return (x, y, true);
            },
            Option::Some(h) => {
                if fuel == 0 {
                    return (x, y, false);
                }
                proof {
                    crate::collision::lemma_first_passing_in_range(
                        entries,
                        x as int,
                        y as int,
                        shape,
                        filter,
                        0,
                    );
                    let i = spec_first_passing_from(entries, x as int, y as int, shape, filter, 0)->0;
                    assert(-1_000_000 <= entries[i].x_milli <= 1_000_000 && -1_000_000
                        <= entries[i].y_milli <= 1_000_000);
                }
                let (ux, uy) = unit_toward(x - h.x_milli, y - h.y_milli);
                proof {
                    assert(spec_depenetrated(entries, x as int, y as int, shape, filter, fuel as nat)
                        == spec_depenetrated(
                        entries,
                        x as int + ux as int,
                        y as int + uy as int,
                        shape,
                        filter,
                        (fuel - 1) as nat,
                    ));
                }
                x = x + ux;
                y = y + uy;
                fuel = fuel - 1;
            },
        }
    }
}

/// The boats' de-penetration: five recomputed-normal steps out of any
/// overlap before the tick's movement.
pub fn boat_depenetrate(
    boat: &mut Boat,
    query: &CollisionQuery,
    shape: CollisionShape,
    filter: Option<CollisionFilter>,
) -> (free: bool)
    requires
        -1_000_000 <= old(boat).x_milli <= 1_000_000,
        -1_000_000 <= old(boat).y_milli <= 1_000_000,
        0 <= shape.w_milli <= 1_000_000,
        0 <= shape.h_milli <= 1_000_000,
        extract_entries_ok(query.entries@),
    ensures
        *final(boat) == (Boat {
            x_milli: final(boat).x_milli,
            y_milli: final(boat).y_milli,
            ..*old(boat)
        }),
        ({
            let end = spec_depenetrated(
                query.entries@,
                old(boat).x_milli as int,
                old(boat).y_milli as int,
                shape,
                filter,
                5,
            );
            &&& final(boat).x_milli == end.0
            &&& final(boat).y_milli == end.1
            &&& free == (spec_first_passing_from(
                query.entries@,
                end.0,
                end.1,
                shape,
                filter,
                0,
            ) is None)
        }),
{
    let (x, y, free) = depenetrate_point(query, boat.x_milli, boat.y_milli, shape, filter, 5);
    boat.x_milli = x;
    boat.y_milli = y;
    free
}

/// Moves a boat by its movement, blocked per axis when the swept check
/// says the axis move would collide, and clamps it into the arena. The
/// caller passes the per-axis verdicts from the collision query.
pub fn boat_move(boat: &mut Boat, x_blocked: bool, y_blocked: bool, dt_ms: u32)
    requires
        BOAT_MIN_X - 10_000 <= old(boat).x_milli <= BOAT_MAX_X + 10_000,
        BOAT_MIN_Y - 10_000 <= old(boat).y_milli <= BOAT_MAX_Y + 10_000,
        -10_000 <= old(boat).move_x_milli <= 10_000,
        -10_000 <= old(boat).move_y_milli <= 10_000,
    ensures
        final(boat).x_milli == crate::num::spec_clamp_i64(
            if x_blocked {
                old(boat).x_milli
            } else {
                (old(boat).x_milli + old(boat).move_x_milli) as i64
            },
            BOAT_MIN_X,
            BOAT_MAX_X,
        ),
        final(boat).y_milli == crate::num::spec_clamp_i64(
            if y_blocked {
                old(boat).y_milli
            } else {
                (old(boat).y_milli + old(boat).move_y_milli) as i64
            },
            BOAT_MIN_Y,
            BOAT_MAX_Y,
        ),
        final(boat).invulnerable_ms == sat_sub(old(boat).invulnerable_ms, dt_ms),
        *final(boat) == (Boat {
            x_milli: final(boat).x_milli,
            y_milli: final(boat).y_milli,
            invulnerable_ms: final(boat).invulnerable_ms,
            ..*old(boat)
        }),
{
    if !x_blocked {
        boat.x_milli = boat.x_milli + boat.move_x_milli;
    }
    if !y_blocked {
        boat.y_milli = boat.y_milli + boat.move_y_milli;
    }
    boat.x_milli = clamp_i64(boat.x_milli, BOAT_MIN_X, BOAT_MAX_X);
    boat.y_milli = clamp_i64(boat.y_milli, BOAT_MIN_Y, BOAT_MAX_Y);
    boat.invulnerable_ms = crate::ledger::sub_saturating(boat.invulnerable_ms, dt_ms);
}

/// One cannonball: its position, its drift, and its two growth phases.
/// Sizes run 0..=1000 for a scale of 0 to 1.
#[derive(Copy, Clone, PartialEq, Eq, Structural, Debug)]
pub struct CannonBall {
    pub x_milli: i64,
    pub y_milli: i64,
    pub falling_size: u32,
    pub landing_size: u32,
    /// Growth speed in size per second, scaled by 1000.
    pub speed_milli: u32,
    pub dir_x_milli: i64,
    pub dir_y_milli: i64,
    pub dir_set: bool,
}

/// The per-tick cannonball spawn chance in per-mille: 50 on Normal, 80 on
/// Hard.
pub open spec fn spec_cannon_spawn_chance_milli(difficulty: Difficulty) -> u32 {
    match difficulty {
        Difficulty::Normal => 50u32,
        Difficulty::Hard => 80u32,
    }
}

/// Decides a spawn: the roll must come under the difficulty's chance. The
/// spawn position on the arena rim is derived by the host from the angle
/// draw.
pub fn cannon_spawns(difficulty: Difficulty, roll: u32) -> (r: bool)
    requires
        roll < 1000,
    ensures
        r == (roll < spec_cannon_spawn_chance_milli(difficulty)),
{
    let chance: u32 = match difficulty {
        Difficulty::Normal => 50,
        Difficulty::Hard => 80,
    };
    roll < chance
}

/// A fresh cannonball at its rim position, not yet aimed.
pub fn cannon_ball_spawn(x_milli: i64, y_milli: i64) -> (r: CannonBall)
    ensures
        r == (CannonBall {
            x_milli,
            y_milli,
            falling_size: 0u32,
            landing_size: 0u32,
            speed_milli: 100u32,
            dir_x_milli: 0i64,
            dir_y_milli: 0i64,
            dir_set: false,
        }),
{
    CannonBall {
        x_milli,
        y_milli,
        falling_size: 0,
        landing_size: 0,
        speed_milli: 100,
        dir_x_milli: 0,
        dir_y_milli: 0,
        dir_set: false,
    }
}

/// What a cannonball tick reports.
#[derive(Copy, Clone, PartialEq, Eq, Structural, Debug)]
pub enum CannonBallPhase {
    Falling,
    Landing,
    /// The splash: the ball despawns with the "waterdrop" sound.
    Done,
}

/// One cannonball tick. An unaimed ball takes the host-supplied drift
/// (inward from the rim, with the random offset already applied) and is
/// aimed for good. The ball then drifts, its growth speed accelerates,
/// and its size grows through the falling phase (to scale 1) and the
/// landing phase (to scale 0.5), after which it splashes and despawns.
pub fn cannon_ball_tick(
    ball: &mut CannonBall,
    aim_x_milli: i64,
    aim_y_milli: i64,
    dt_ms: u32,
) -> (phase: CannonBallPhase)
    requires
        dt_ms <= 1000,
        -1_000_000 <= old(ball).x_milli <= 1_000_000,
        -1_000_000 <= old(ball).y_milli <= 1_000_000,
        -100_000 <= aim_x_milli <= 100_000,
        -100_000 <= aim_y_milli <= 100_000,
        -100_000 <= old(ball).dir_x_milli <= 100_000,
        -100_000 <= old(ball).dir_y_milli <= 100_000,
        100 <= old(ball).speed_milli <= 100_000,
        old(ball).falling_size <= 1000,
        old(ball).landing_size <= 1000,
    ensures
        final(ball).speed_milli >= old(ball).speed_milli,
        10 <= dt_ms && old(ball).falling_size < 1000 ==> final(ball).falling_size > old(
            ball,
        ).falling_size,
        10 <= dt_ms && old(ball).falling_size >= 1000 && old(ball).landing_size < 500
            ==> final(ball).landing_size > old(ball).landing_size,
        ({
            let dir_x = if old(ball).dir_set {
                old(ball).dir_x_milli
            } else {
                aim_x_milli
            };
            let dir_y = if old(ball).dir_set {
                old(ball).dir_y_milli
            } else {
                aim_y_milli
            };
            let speed1 = crate::num::spec_clamp_u32(
                (old(ball).speed_milli + 25 * ((dt_ms * dt_ms) / 1000) / 1000) as u32,
                0,
                100_000,
            );
            let grown = (old(ball).falling_size + (dt_ms as int) * (speed1 as int) / 1000) as u32;
            let landed = (old(ball).landing_size + (dt_ms as int) * (speed1 as int) / 1000) as u32;
            &&& final(ball).dir_set
            &&& final(ball).dir_x_milli == dir_x && final(ball).dir_y_milli == dir_y
            &&& final(ball).x_milli == old(ball).x_milli + drift_step(dir_x as int, dt_ms)
            &&& final(ball).y_milli == old(ball).y_milli + drift_step(dir_y as int, dt_ms)
            &&& final(ball).speed_milli == speed1
            &&& old(ball).falling_size < 1000 ==> {
                &&& final(ball).falling_size == crate::num::spec_clamp_u32(grown, 0, 1000)
                &&& final(ball).landing_size == old(ball).landing_size
                &&& phase is Falling
            }
            &&& old(ball).falling_size >= 1000 && old(ball).landing_size < 500 ==> {
                &&& final(ball).falling_size == old(ball).falling_size
                &&& final(ball).landing_size == crate::num::spec_clamp_u32(landed, 0, 1000)
                &&& phase is Landing
            }
            &&& old(ball).falling_size >= 1000 && old(ball).landing_size >= 500 ==> {
                &&& final(ball).falling_size == old(ball).falling_size
                &&& final(ball).landing_size == old(ball).landing_size
                &&& phase is Done
            }
        }),
{
    if !ball.dir_set {
        ball.dir_x_milli = aim_x_milli;
        ball.dir_y_milli = aim_y_milli;
        ball.dir_set = true;
    }
    proof {
        assert(-100_000_000 <= (ball.dir_x_milli as int) * (dt_ms as int) <= 100_000_000
            && -100_000_000 <= (ball.dir_y_milli as int) * (dt_ms as int) <= 100_000_000)
            by (nonlinear_arith)
            requires
                -100_000 <= ball.dir_x_milli <= 100_000,
                -100_000 <= ball.dir_y_milli <= 100_000,
                0 <= dt_ms <= 1000,
        ;
    }
    let adx: i64 = if ball.dir_x_milli >= 0 {
        ball.dir_x_milli
    } else {
        -ball.dir_x_milli
    };
    let ady: i64 = if ball.dir_y_milli >= 0 {
        ball.dir_y_milli
    } else {
        -ball.dir_y_milli
    };
    proof {
        assert(0 <= (adx as int) * (dt_ms as int) <= 100_000_000 && 0 <= (ady as int) * (
        dt_ms as int) <= 100_000_000) by (nonlinear_arith)
            requires
                0 <= adx <= 100_000,
                0 <= ady <= 100_000,
                0 <= dt_ms <= 1000,
        ;
    }
    let sx: i64 = if ball.dir_x_milli >= 0 {
        adx * (dt_ms as i64) / 1000
    } else {
        -(adx * (dt_ms as i64) / 1000)
    };
    let sy: i64 = if ball.dir_y_milli >= 0 {
        ady * (dt_ms as i64) / 1000
    } else {
        -(ady * (dt_ms as i64) / 1000)
    };
    ball.x_milli = ball.x_milli + sx;
    ball.y_milli = ball.y_milli + sy;
    // Acceleration of 50 size-per-second-squared: half of it per squared
    // tick time.
    proof {
        assert(0 <= (dt_ms as int) * (dt_ms as int) <= 1_000_000) by (nonlinear_arith)
            requires
                0 <= dt_ms <= 1000,
        ;
    }
    let accel: u32 = 25 * ((dt_ms * dt_ms) / 1000) / 1000;
    ball.speed_milli = crate::num::clamp_u32(ball.speed_milli + accel, 0, 100_000);
    proof {
        assert((dt_ms as int) * (ball.speed_milli as int) <= 100_000_000) by (nonlinear_arith)
            requires
                0 <= dt_ms <= 1000,
                0 <= ball.speed_milli <= 100_000,
        ;
    }
    proof {
        assert(10 <= dt_ms ==> (dt_ms as int) * (ball.speed_milli as int) / 1000 >= 1)
            by (nonlinear_arith)
            requires
                100 <= ball.speed_milli,
        ;
    }
    let growth: u32 = ((dt_ms as u64) * (ball.speed_milli as u64) / 1000) as u32;
    if ball.falling_size < 1000 {
        ball.falling_size = crate::num::clamp_u32(ball.falling_size + growth, 0, 1000);
        CannonBallPhase::Falling
    } else if ball.landing_size < 500 {
        ball.landing_size = crate::num::clamp_u32(ball.landing_size + growth, 0, 1000);
        CannonBallPhase::Landing
    } else {
        CannonBallPhase::Done
    }
}

/// One tick of a cannonball's drift along one axis: the magnitude scaled
/// by the tick time, truncated toward zero.
pub open spec fn drift_step(dir_milli: int, dt_ms: u32) -> int {
    if dir_milli >= 0 {
        dir_milli * dt_ms / 1000
    } else {
        -((-dir_milli) * dt_ms / 1000)
    }
}

/// A cannonball threatens the boats only in its landing window, once its
/// splash has grown past scale 0.35.
pub open spec fn spec_in_hit_window(ball: &CannonBall) -> bool {
    ball.landing_size > 350
}

#[verifier::when_used_as_spec(spec_in_hit_window)]
pub fn in_hit_window(ball: &CannonBall) -> (r: bool)
    ensures
        r == spec_in_hit_window(ball),
{
    ball.landing_size > 350
}

/// The damage step: a cannonball in its landing window is checked against
/// the registered colliders; if the first filter-passing overlap is one of
/// the two boats, that boat takes the hit — two coins off and a second of
/// shield when it lands, nothing while the shield is up. The "boathit"
/// sound plays exactly when a hit lands.
pub fn cannon_ball_hit_boats(
    ball: &CannonBall,
    ball_shape: crate::collision::CollisionShape,
    query: &crate::collision::CollisionQuery,
    filter: Option<crate::collision::CollisionFilter>,
    my_id: u64,
    your_id: u64,
    my_boat: &mut Boat,
    your_boat: &mut Boat,
) -> (hit_audio: bool)
    requires
        -1_000_000 <= ball.x_milli <= 1_000_000,
        -1_000_000 <= ball.y_milli <= 1_000_000,
        0 <= ball_shape.w_milli < crate::collision::COORD_BOUND,
        0 <= ball_shape.h_milli < crate::collision::COORD_BOUND,
        forall|i: int|
            0 <= i < query.entries@.len() ==> crate::collision::entry_in_bounds(
                #[trigger] query.entries@[i],
            ),
    ensures
        ({
            let struck = if spec_in_hit_window(ball) {
                crate::collision::spec_first_passing_from(
                    query.entries@,
                    ball.x_milli as int,
                    ball.y_milli as int,
                    ball_shape,
                    filter,
                    0,
                )
            } else {
                Option::<int>::None
            };
            match struck {
                Option::Some(i) => {
                    let id = query.entries@[i].id;
                    &&& id == my_id ==> {
                        &&& hit_audio == (old(my_boat).coins > 0 && old(my_boat).invulnerable_ms
                            == 0)
                        &&& hit_audio ==> *final(my_boat) == (Boat {
                            coins: sat_sub(old(my_boat).coins, 2),
                            invulnerable_ms: 1000u32,
                            ..*old(my_boat)
                        })
                        &&& !hit_audio ==> *final(my_boat) == *old(my_boat)
                        &&& *final(your_boat) == *old(your_boat)
                    }
                    &&& id != my_id && id == your_id ==> {
                        &&& hit_audio == (old(your_boat).coins > 0 && old(your_boat).invulnerable_ms == 0)
                        &&& hit_audio ==> *final(your_boat) == (Boat {
                            coins: sat_sub(old(your_boat).coins, 2),
                            invulnerable_ms: 1000u32,
                            ..*old(your_boat)
                        })
                        &&& !hit_audio ==> *final(your_boat) == *old(your_boat)
                        &&& *final(my_boat) == *old(my_boat)
                    }
                    &&& id != my_id && id != your_id ==> !hit_audio && *final(my_boat) == *old(my_boat) && *final(your_boat) == *old(your_boat)
                },
                Option::None => !hit_audio && *final(my_boat) == *old(my_boat) && *final(your_boat) == *old(your_boat),
            }
        }),
{
    if !in_hit_window(ball) {
        return false;
    }
    match query.check(ball.x_milli, ball.y_milli, ball_shape, filter) {
        Option::Some(hit) => {
            if hit.id == my_id {
                my_boat.hit()
            } else if hit.id == your_id {
                your_boat.hit()
            } else {
                false
            }
        },
        Option::None => false,
    }
}

/// Reads the two boats' coins off into the shared display and reports the
/// end of the game: either side drained sends both coin counts as the
/// minigame's (non-negative) deltas.
pub fn boats_update_coins(my_boat: &Boat, your_boat: &Boat) -> (finish: Option<MiniGameFinish>)
    requires
        my_boat.coins <= 1000,
        your_boat.coins <= 1000,
    ensures
        my_boat.coins == 0 || your_boat.coins == 0 ==> finish == Option::Some(MiniGameFinish {
            my_coins: my_boat.coins as i32,
            your_coins: your_boat.coins as i32,
        }),
        my_boat.coins != 0 && your_boat.coins != 0 ==> finish is None,
{
    if my_boat.coins == 0 || your_boat.coins == 0 {
        Option::Some(
            MiniGameFinish {
                my_coins: my_boat.coins as i32,
                your_coins: your_boat.coins as i32,
            },
        )
    } else {
        Option::None
    }
}

} // verus!
