//! The gauntlet's duel: the narrator stands defenceless. Holding the
//! attack key charges the player's attack; once charged past the prep
//! time it is committed and keeps charging on its own; as the stab begins
//! the narrator loses a heart, once per entry. Two seconds in, the noise
//! returns.

use vstd::prelude::*;

use crate::end_game::EndGame;
use crate::mini_game::duel::ATTACK_PREP_TIME_MS;

verus! {

pub struct EgDuel {
    pub attack_time_ms: u32,
    pub hit: bool,
}

/// Entering the sub-game: the charge is rested and no hit has landed.
pub fn eg_duel_enter(eg: &mut EgDuel)
    ensures
        final(eg).attack_time_ms == 0,
        !final(eg).hit,
{
    eg.attack_time_ms = 0;
    eg.hit = false;
}

/// One duel step: the charge integrates while the key is held or the prep
/// is complete; a completed charge lands the hit once, costing the
/// narrator a heart with the "duelhit" sound; two seconds of sub-state
/// time raise the switch.
pub fn eg_duel_update(eg: &mut EgDuel, end_game: &mut EndGame, a_held: bool, dt_ms: u32) -> (hit_audio: bool)
    requires
        old(eg).attack_time_ms <= 100_000,
        old(end_game).state_time_ms <= 100_000,
        dt_ms <= 1000,
        old(end_game).wf(),
    ensures
        final(end_game).wf(),
        ({
            let charges = a_held || old(eg).attack_time_ms >= ATTACK_PREP_TIME_MS;
            let time1 = if charges {
                (old(eg).attack_time_ms + dt_ms) as u32
            } else {
                old(eg).attack_time_ms
            };
            let lands = time1 >= ATTACK_PREP_TIME_MS && !old(eg).hit;
            let switches = old(end_game).state_time_ms > 2000;
            &&& final(eg).attack_time_ms == time1
            &&& final(eg).hit == (old(eg).hit || lands)
            &&& hit_audio == lands
            &&& *final(end_game) == (EndGame {
                my_health: if lands {
                    crate::ledger::sat_sub(old(end_game).my_health, 1)
                } else {
                    old(end_game).my_health
                },
                switch: old(end_game).switch || switches,
                ..*old(end_game)
            })
        }),
{
    let mut hit_audio = false;
    if a_held || eg.attack_time_ms >= ATTACK_PREP_TIME_MS {
        eg.attack_time_ms = eg.attack_time_ms + dt_ms;
    }
    if eg.attack_time_ms >= ATTACK_PREP_TIME_MS && !eg.hit {
        end_game.lose_my_heart();
        hit_audio = true;
        eg.hit = true;
    }
    if end_game.state_time_ms > 2000 {
        end_game.switch = true;
    }
    hit_audio
}

} // verus!
