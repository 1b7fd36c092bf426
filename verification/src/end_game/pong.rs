//! The gauntlet's pong: the player's paddle alone, pucks dropping from the
//! top every second. The first puck past the bottom edge costs the player
//! one heart; four and a half seconds bring the noise back.

use vstd::prelude::*;

use crate::end_game::EndGame;
use crate::mini_game::pong::{
    abs_v, spec_bounce_normal, spec_bounce_speed, spec_flight_step, spec_scaled, Puck,
    PONG_WALL_X, PONG_SCORE_Y,
};

verus! {

pub struct EgPong {
    pub next_spawn_ms: u32,
    pub lost_health: bool,
}

/// Entering the sub-game: the first puck is due in a fifth of a second and
/// no heart has gone.
pub fn eg_pong_enter(eg: &mut EgPong)
    ensures
        final(eg).next_spawn_ms == 200,
        !final(eg).lost_health,
{
    eg.next_spawn_ms = 200;
    eg.lost_health = false;
}

/// One shell step: the spawn clock runs down and, at zero, re-arms to a
/// second and asks for a puck; four and a half seconds of sub-state time
/// raise the switch.
pub fn eg_pong_update(eg: &mut EgPong, end_game: &mut EndGame, dt_ms: u32) -> (spawn: bool)
    ensures
        ({
            let lapse = old(eg).next_spawn_ms > 0 && crate::ledger::sat_sub(
                old(eg).next_spawn_ms,
                dt_ms,
            ) == 0;
            &&& spawn == lapse
            &&& lapse ==> final(eg).next_spawn_ms == 1000
            &&& !lapse && old(eg).next_spawn_ms > 0 ==> final(eg).next_spawn_ms
                == crate::ledger::sat_sub(old(eg).next_spawn_ms, dt_ms)
            &&& old(eg).next_spawn_ms == 0 ==> final(eg).next_spawn_ms == 0
            &&& final(eg).lost_health == old(eg).lost_health
            &&& *final(end_game) == (EndGame {
                switch: old(end_game).switch || old(end_game).state_time_ms > 4500,
                ..*old(end_game)
            })
        }),
{
    let mut spawn = false;
    if eg.next_spawn_ms > 0 {
        eg.next_spawn_ms = crate::ledger::sub_saturating(eg.next_spawn_ms, dt_ms);
        if eg.next_spawn_ms == 0 {
            eg.next_spawn_ms = 1000;
            spawn = true;
        }
    }
    if end_game.state_time_ms > 4500 {
        end_game.switch = true;
    }
    spawn
}

/// A puck dropped at the top edge, to be seeded by the host's downward
/// direction at speed 150.
pub fn eg_puck_spawn(dir_x_milli: i64, dir_y_milli: i64) -> (r: Puck)
    requires
        -1000 <= dir_x_milli <= 1000,
        -1000 <= dir_y_milli <= 0,
    ensures
        r == (Puck {
            x_milli: 0i64,
            y_milli: PONG_SCORE_Y,
            vx_milli: (dir_x_milli * 150) as i64,
            vy_milli: (dir_y_milli * 150) as i64,
        }),
{
    Puck {
        x_milli: 0,
        y_milli: PONG_SCORE_Y,
        vx_milli: dir_x_milli * 150,
        vy_milli: dir_y_milli * 150,
    }
}

/// The gauntlet's paddle rebound: the same contact-normal rebound as the
/// minigame's, but only ten units per second faster.
pub fn eg_puck_bounce(puck: &mut Puck, paddle_x: i64, paddle_y: i64) -> (r: bool)
    requires
        -2_000_000 <= old(puck).x_milli <= 2_000_000,
        -2_000_000 <= old(puck).y_milli <= 2_000_000,
        -2_000_000 <= paddle_x <= 2_000_000,
        -2_000_000 <= paddle_y <= 2_000_000,
        -2_000_000 <= old(puck).vx_milli <= 2_000_000,
        -2_000_000 <= old(puck).vy_milli <= 2_000_000,
    ensures
        r == !(old(puck).x_milli == paddle_x && old(puck).y_milli == paddle_y),
        !r ==> *final(puck) == *old(puck),
        r ==> final(puck).x_milli == old(puck).x_milli && final(puck).y_milli == old(puck).y_milli
            && -2_000_000 <= final(puck).vx_milli <= 2_000_000 && -2_000_000 <= final(puck).vy_milli <= 2_000_000,
        r ==> ({
            let nrm = spec_bounce_normal(
                old(puck).x_milli - paddle_x,
                old(puck).y_milli - paddle_y,
            );
            let speed1 = spec_bounce_speed(
                old(puck).vx_milli as int,
                old(puck).vy_milli as int,
                10_000,
            );
            &&& final(puck).vx_milli == spec_scaled(nrm.0, speed1)
            &&& final(puck).vy_milli == spec_scaled(nrm.1, speed1)
        }),
        r ==> {
            &&& old(puck).x_milli > paddle_x ==> final(puck).vx_milli >= 0
            &&& old(puck).x_milli < paddle_x ==> final(puck).vx_milli <= 0
            &&& old(puck).y_milli > paddle_y ==> final(puck).vy_milli > 0
            &&& old(puck).y_milli < paddle_y ==> final(puck).vy_milli < 0
            &&& old(puck).y_milli == paddle_y ==> final(puck).vy_milli > 0
        },
{
    crate::mini_game::pong::puck_bounce(puck, paddle_x, paddle_y, 10_000)
}

/// One tick of a gauntlet puck's flight: drift, the side walls folding the
/// horizontal velocity inward, and only the bottom edge scoring — the
/// first puck past it costs the player a heart and despawns.
pub fn eg_puck_flight(puck: &mut Puck, eg: &mut EgPong, end_game: &mut EndGame, dt_ms: u32) -> (despawn: bool)
    requires
        dt_ms <= 1000,
        -2_000_000 <= old(puck).x_milli <= 2_000_000,
        -2_000_000 <= old(puck).y_milli <= 2_000_000,
        -2_000_000 <= old(puck).vx_milli <= 2_000_000,
        -2_000_000 <= old(puck).vy_milli <= 2_000_000,
        old(end_game).wf(),
    ensures
        final(end_game).wf(),
        final(puck).x_milli == old(puck).x_milli + spec_flight_step(
            old(puck).vx_milli as int,
            dt_ms,
        ),
        final(puck).y_milli == old(puck).y_milli + spec_flight_step(
            old(puck).vy_milli as int,
            dt_ms,
        ),
        final(puck).vx_milli == if final(puck).x_milli > PONG_WALL_X {
            (-abs_v(old(puck).vx_milli as int)) as i64
        } else if final(puck).x_milli < -PONG_WALL_X {
            abs_v(old(puck).vx_milli as int) as i64
        } else {
            old(puck).vx_milli
        },
        final(puck).vy_milli == old(puck).vy_milli,
        despawn == (final(puck).y_milli < -PONG_SCORE_Y),
        ({
            let costs = despawn && !old(eg).lost_health;
            &&& costs ==> final(eg).lost_health && *final(end_game) == (EndGame {
                your_health: crate::ledger::sat_sub(old(end_game).your_health, 1),
                ..*old(end_game)
            })
            &&& !costs ==> *final(eg) == *old(eg) && *final(end_game) == *old(end_game)
        }),
{
    let avx: i64 = if puck.vx_milli >= 0 {
        puck.vx_milli
    } else {
        -puck.vx_milli
    };
    let avy: i64 = if puck.vy_milli >= 0 {
        puck.vy_milli
    } else {
        -puck.vy_milli
    };
    proof {
        assert(0 <= (avx as int) * (dt_ms as int) <= 2_000_000_000 && 0 <= (avy as int) * (
        dt_ms as int) <= 2_000_000_000) by (nonlinear_arith)
            requires
                0 <= avx <= 2_000_000,
                0 <= avy <= 2_000_000,
                0 <= dt_ms <= 1000,
        ;
    }
    let sx: i64 = if puck.vx_milli >= 0 {
        avx * (dt_ms as i64) / 1000
    } else {
        -(avx * (dt_ms as i64) / 1000)
    };
    let sy: i64 = if puck.vy_milli >= 0 {
        avy * (dt_ms as i64) / 1000
    } else {
        -(avy * (dt_ms as i64) / 1000)
    };
    puck.x_milli = puck.x_milli + sx;
    puck.y_milli = puck.y_milli + sy;
    if puck.x_milli > PONG_WALL_X {
        puck.vx_milli = if puck.vx_milli >= 0 {
            -puck.vx_milli
        } else {
            puck.vx_milli
        };
    } else if puck.x_milli < -PONG_WALL_X {
        puck.vx_milli = if puck.vx_milli >= 0 {
            puck.vx_milli
        } else {
            -puck.vx_milli
        };
    }
    if puck.y_milli < -PONG_SCORE_Y {
        if !eg.lost_health {
            end_game.lose_your_heart();
            eg.lost_health = true;
        }
        true
    } else {
        false
    }
}

} // verus!
