//! The gauntlet's dodge: the player's boat alone under a harder rain. A
//! single landing cannonball costs the player one heart — the long shield
//! raised by the first hit outlasts the sub-game, so no more than one
//! heart can go per visit. Four and a half seconds bring the noise back.

use vstd::prelude::*;

use crate::end_game::EndGame;
use crate::ledger::sat_sub;
use crate::num::clamp_i64;

verus! {

/// The one boat of the gauntlet's dodge.
#[derive(Copy, Clone, PartialEq, Eq, Structural, Debug)]
pub struct EgBoat {
    pub x_milli: i64,
    pub y_milli: i64,
    pub invulnerable_ms: u32,
}

/// The per-tick cannonball spawn chance of the gauntlet, in per-mille.
pub const EG_CANNON_CHANCE_MILLI: u32 = 70;

impl EgBoat {
    pub fn fresh() -> (r: EgBoat)
        ensures
            r == (EgBoat { x_milli: 0i64, y_milli: 0i64, invulnerable_ms: 0u32 }),
    {
        EgBoat { x_milli: 0, y_milli: 0, invulnerable_ms: 0 }
    }

    /// A hit lands only with the shield down, and raises a shield far
    /// longer than the sub-game lasts.
    pub fn hit(&mut self) -> (landed: bool)
        ensures
            landed == (old(self).invulnerable_ms == 0),
            landed ==> *final(self) == (EgBoat { invulnerable_ms: 999_000u32, ..*old(self) }),
            !landed ==> *final(self) == *old(self),
    {
        if self.invulnerable_ms == 0 {
            self.invulnerable_ms = 999_000;
            true
        } else {
            false
        }
    }
}

/// One boat step: WASD movement at the boats' speed, clamped to the same
/// arena, the shield running down.
pub fn eg_boat_move(boat: &mut EgBoat, move_x_milli: i64, move_y_milli: i64, dt_ms: u32)
    requires
        crate::mini_game::boats::BOAT_MIN_X - 10_000 <= old(boat).x_milli
            <= crate::mini_game::boats::BOAT_MAX_X + 10_000,
        crate::mini_game::boats::BOAT_MIN_Y - 10_000 <= old(boat).y_milli
            <= crate::mini_game::boats::BOAT_MAX_Y + 10_000,
        -10_000 <= move_x_milli <= 10_000,
        -10_000 <= move_y_milli <= 10_000,
    ensures
        final(boat).x_milli == crate::num::spec_clamp_i64(
            (old(boat).x_milli + move_x_milli) as i64,
            crate::mini_game::boats::BOAT_MIN_X,
            crate::mini_game::boats::BOAT_MAX_X,
        ),
        final(boat).y_milli == crate::num::spec_clamp_i64(
            (old(boat).y_milli + move_y_milli) as i64,
            crate::mini_game::boats::BOAT_MIN_Y,
            crate::mini_game::boats::BOAT_MAX_Y,
        ),
        final(boat).invulnerable_ms == sat_sub(old(boat).invulnerable_ms, dt_ms),
{
    boat.x_milli = clamp_i64(
        boat.x_milli + move_x_milli,
        crate::mini_game::boats::BOAT_MIN_X,
        crate::mini_game::boats::BOAT_MAX_X,
    );
    boat.y_milli = clamp_i64(
        boat.y_milli + move_y_milli,
        crate::mini_game::boats::BOAT_MIN_Y,
        crate::mini_game::boats::BOAT_MAX_Y,
    );
    boat.invulnerable_ms = crate::ledger::sub_saturating(boat.invulnerable_ms, dt_ms);
}

/// A landing hit on the boat costs the player a heart, shielded hits
/// nothing; the "boathit" sound marks a landed one.
pub fn eg_boat_take_hit(boat: &mut EgBoat, end_game: &mut EndGame) -> (hit_audio: bool)
    requires
        old(end_game).wf(),
    ensures
        final(end_game).wf(),
        hit_audio == (old(boat).invulnerable_ms == 0),
        hit_audio ==> *final(boat) == (EgBoat { invulnerable_ms: 999_000u32, ..*old(boat) })
            && *final(end_game) == (EndGame {
            your_health: crate::ledger::sat_sub(old(end_game).your_health, 1),
            ..*old(end_game)
        }),
        !hit_audio ==> *final(boat) == *old(boat) && *final(end_game) == *old(end_game),
{
    if boat.hit() {
        end_game.lose_your_heart();
        true
    } else {
        false
    }
}

/// Four and a half seconds of sub-state time raise the switch.
pub fn eg_boats_update(end_game: &mut EndGame)
    ensures
        *final(end_game) == (EndGame {
            switch: old(end_game).switch || old(end_game).state_time_ms > 4500,
            ..*old(end_game)
        }),
{
    if end_game.state_time_ms > 4500 {
        end_game.switch = true;
    }
}

} // verus!
