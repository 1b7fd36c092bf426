//! The duel minigame: a continuous attack/defend/parry exchange. A held
//! attack charges for a prep time (halved for the player on Normal), stabs
//! for a tenth of a second and strikes exactly once at the stab's
//! midpoint. A defender caught with no defence up is hit and pays the
//! difficulty's coin penalty while the attacker gains one coin; a defence
//! younger than the parry window stuns the attacker; an older one merely
//! blocks. The duel runs 45 seconds on Normal, 30 on Hard, or until a
//! balance drains.

use vstd::prelude::*;

use crate::game::Difficulty;
use crate::ledger::{sat_sub, CoinLedger};
use crate::mini_game::MiniGameFinish;

verus! {

/// All durations in milliseconds.
pub const COOLDOWN_MS: u32 = 850;
pub const ATTACK_PREP_TIME_MS: u32 = 550;
pub const ATTACK_STAB_TIME_MS: u32 = 100;
pub const PARRY_TIME_MS: u32 = 500;

/// The duel's shared clock, stake and tuning.
#[derive(Copy, Clone, PartialEq, Eq, Structural, Debug)]
pub struct Duel {
    pub time_left_ms: u32,
    pub my_coins: u32,
    pub your_coins: u32,
    pub coin_penalty: u32,
    /// The player's cooldowns, in percent of the base (50 on Normal).
    pub player_cooldown_percent: u32,
}

/// One duelist's timers and intents. All times in milliseconds.
#[derive(Copy, Clone, PartialEq, Eq, Structural, Debug)]
pub struct Duelist {
    pub player: bool,
    pub wants_to_attack: bool,
    pub wants_to_defend: bool,
    pub attacking: bool,
    pub defending: bool,
    pub attacked: bool,
    pub attack_time_ms: u32,
    pub defend_time_ms: u32,
    pub cooldown_ms: u32,
    pub hit: bool,
}

impl Duelist {
    pub fn fresh(player: bool) -> (r: Duelist)
        ensures
            r == Duelist::spec_fresh(player),
    {
        Duelist {
            player,
            wants_to_attack: false,
            wants_to_defend: false,
            attacking: false,
            defending: false,
            attacked: false,
            attack_time_ms: 0,
            defend_time_ms: 0,
            cooldown_ms: 0,
            hit: false,
        }
    }

    pub open spec fn spec_fresh(player: bool) -> Duelist {
        Duelist {
            player,
            wants_to_attack: false,
            wants_to_defend: false,
            attacking: false,
            defending: false,
            attacked: false,
            attack_time_ms: 0,
            defend_time_ms: 0,
            cooldown_ms: 0,
            hit: false,
        }
    }
}

impl Duel {
    /// The duel each difficulty starts: its clock, its penalty and the
    /// player's cooldown discount; the stake is the live ledger, or 100
    /// coins a side in practice.
    pub fn start(difficulty: Difficulty, practice: bool, coins: &CoinLedger) -> (r: Duel)
        ensures
            r.time_left_ms == if difficulty is Normal {
                45_000int
            } else {
                30_000int
            },
            r.coin_penalty == if difficulty is Normal {
                3int
            } else {
                2int
            },
            r.player_cooldown_percent == if difficulty is Normal {
                50int
            } else {
                100int
            },
            practice ==> r.my_coins == 100 && r.your_coins == 100,
            !practice ==> r.my_coins == coins.my_coins && r.your_coins == coins.your_coins,
    {
        let (time_left_ms, coin_penalty, player_cooldown_percent): (u32, u32, u32) =
            match difficulty {
            Difficulty::Normal => (45_000, 3, 50),
            Difficulty::Hard => (30_000, 2, 100),
        };
        let (my_coins, your_coins) = if practice {
            (100, 100)
        } else {
            (coins.my_coins, coins.your_coins)
        };
        Duel { time_left_ms, my_coins, your_coins, coin_penalty, player_cooldown_percent }
    }
}

/// The attack prep time a duelist faces: halved for the player on Normal.
pub open spec fn spec_prep_time(player: bool, difficulty: Difficulty) -> u32 {
    if player && difficulty is Normal {
        (ATTACK_PREP_TIME_MS / 2) as u32
    } else {
        ATTACK_PREP_TIME_MS
    }
}

#[verifier::when_used_as_spec(spec_prep_time)]
pub fn prep_time(player: bool, difficulty: Difficulty) -> (r: u32)
    ensures
        r == spec_prep_time(player, difficulty),
{
    if player && matches!(difficulty, Difficulty::Normal) {
        ATTACK_PREP_TIME_MS / 2
    } else {
        ATTACK_PREP_TIME_MS
    }
}

/// A duelist's cooldown, scaled for the player by the difficulty's
/// discount. `factor_percent` is 100 for a plain cooldown, 75 after being
/// hit, 200 after being parried.
pub open spec fn spec_scaled_cooldown(d: Duelist, duel: Duel, factor_percent: u32) -> u32 {
    if d.player {
        ((COOLDOWN_MS * factor_percent / 100) * duel.player_cooldown_percent / 100) as u32
    } else {
        (COOLDOWN_MS * factor_percent / 100) as u32
    }
}

fn scaled_cooldown(d: &Duelist, duel: &Duel, factor_percent: u32) -> (r: u32)
    requires
        factor_percent <= 200,
        duel.player_cooldown_percent <= 100,
    ensures
        r == spec_scaled_cooldown(*d, *duel, factor_percent),
{
    proof {
        assert(0 <= (COOLDOWN_MS as int) * (factor_percent as int) <= 170_000
            && (COOLDOWN_MS as int) * (factor_percent as int) / 100 * (
        duel.player_cooldown_percent as int) <= 170_000 * 100) by (nonlinear_arith)
            requires
                0 <= factor_percent <= 200,
                0 <= duel.player_cooldown_percent <= 100,
                COOLDOWN_MS == 850u32,
        ;
    }
    if d.player {
        (COOLDOWN_MS * factor_percent / 100) * duel.player_cooldown_percent / 100
    } else {
        COOLDOWN_MS * factor_percent / 100
    }
}

/// The player's held keys, applied to intent: a press arms the intent, a
/// release drops it.
pub fn duelist_input(d: &mut Duelist, a_just: bool, a_held: bool, d_just: bool, d_held: bool)
    requires
        old(d).player,
    ensures
        final(d).wants_to_attack == ((old(d).wants_to_attack || a_just) && a_held),
        final(d).wants_to_defend == ((old(d).wants_to_defend || d_just) && d_held),
        *final(d) == (Duelist {
            wants_to_attack: final(d).wants_to_attack,
            wants_to_defend: final(d).wants_to_defend,
            ..*old(d)
        }),
{
    if a_just {
        d.wants_to_attack = true;
    }
    if d_just {
        d.wants_to_defend = true;
    }
    if !a_held {
        d.wants_to_attack = false;
    }
    if !d_held {
        d.wants_to_defend = false;
    }
}

/// What one duelist's phase step reports to the resolution.
#[derive(Copy, Clone, PartialEq, Eq, Structural, Debug)]
pub struct DuelistTickOut {
    /// The stab crossed its midpoint this tick: the strike fires.
    pub strike: bool,
    /// The defence time shown to the opponent (zero unless defending).
    pub defend_time_ms: u32,
}

/// The duelist's deterministic phase step, as a function of the state
/// before the tick: what `duelist_phase_tick` leaves behind and reports.
pub open spec fn spec_phase_step(
    d0: Duelist,
    duel: Duel,
    difficulty: Difficulty,
    dt_ms: u32,
) -> (Duelist, DuelistTickOut) {
    let prep = spec_prep_time(d0.player, difficulty);
    // Past 300 ms of charge the attack is committed.
    let wa0 = d0.wants_to_attack || d0.attack_time_ms >= 300;
    // Releasing a held defence starts the cooldown.
    let cd0 = if d0.defend_time_ms > 0 && !d0.wants_to_defend {
        spec_scaled_cooldown(d0, duel, 100)
    } else {
        d0.cooldown_ms
    };
    // The cooldown gates action and eats intent while it runs.
    let gate_open = cd0 == 0;
    let attacking = gate_open && wa0;
    let defending = gate_open && d0.wants_to_defend;
    let wa1 = if gate_open {
        wa0
    } else {
        false
    };
    let wd1 = if gate_open {
        d0.wants_to_defend
    } else {
        false
    };
    let cd1 = if gate_open {
        0u32
    } else {
        crate::ledger::sat_sub(cd0, dt_ms)
    };
    // The clocks integrate only the action in progress.
    let at1 = if attacking {
        (d0.attack_time_ms + dt_ms) as u32
    } else {
        0u32
    };
    let dt1 = if !attacking && defending {
        (d0.defend_time_ms + dt_ms) as u32
    } else {
        0u32
    };
    // A defence past the parry window auto-releases.
    let wd2 = if !attacking && defending && dt1 > PARRY_TIME_MS {
        false
    } else {
        wd1
    };
    let hit1 = cd1 != 0 && d0.hit;
    let attacked1 = at1 != 0 && d0.attacked;
    // The stab: a strike exactly once past the midpoint; a finished stab
    // starts the cooldown.
    let in_stab = cd1 == 0 && at1 > 0;
    let strikes = in_stab && prep <= at1 && at1 < prep + ATTACK_STAB_TIME_MS && at1 > prep
        + ATTACK_STAB_TIME_MS / 2 && !attacked1;
    let cd2 = if in_stab && at1 >= prep + ATTACK_STAB_TIME_MS {
        spec_scaled_cooldown(Duelist { cooldown_ms: cd1, ..d0 }, duel, 100)
    } else {
        cd1
    };
    let attacked2 = attacked1 || strikes;
    let defend_out = if cd1 == 0 && at1 == 0 && dt1 > 0 {
        dt1
    } else {
        0u32
    };
    (
        Duelist {
            player: d0.player,
            wants_to_attack: wa1,
            wants_to_defend: wd2,
            attacking,
            defending,
            attacked: attacked2,
            attack_time_ms: at1,
            defend_time_ms: dt1,
            cooldown_ms: cd2,
            hit: hit1,
        },
        DuelistTickOut { strike: strikes, defend_time_ms: defend_out },
    )
}

/// One phase step of a single duelist: commits a charged attack past its
/// point of no return, starts the cooldown when a defence is released or a
/// stab completes, integrates the attack and defence clocks while the
/// cooldown is idle, auto-releases a defence past the parry window, and
/// fires the strike exactly once as the stab crosses its midpoint.
pub fn duelist_phase_tick(d: &mut Duelist, duel: &Duel, difficulty: Difficulty, dt_ms: u32) -> (out:
    DuelistTickOut)
    requires
        dt_ms <= 1000,
        old(d).attack_time_ms <= 10_000,
        old(d).defend_time_ms <= 10_000,
        duel.player_cooldown_percent <= 100,
    ensures
        (*final(d), out) == spec_phase_step(*old(d), *duel, difficulty, dt_ms),
        final(d).player == old(d).player,
        final(d).attack_time_ms <= 11_000,
        final(d).defend_time_ms <= 11_000,
{
    let prep = prep_time(d.player, difficulty);
    // Past 300 ms of charge the attack can no longer be cancelled.
    if d.attack_time_ms >= 300 {
        d.wants_to_attack = true;
    }
    // Releasing a held defence starts the cooldown.
    if d.defend_time_ms > 0 && !d.wants_to_defend {
        d.cooldown_ms = scaled_cooldown(d, duel, 100);
    }
    if d.cooldown_ms == 0 {
        d.attacking = d.wants_to_attack;
        d.defending = d.wants_to_defend;
    } else {
        d.wants_to_attack = false;
        d.wants_to_defend = false;
        d.cooldown_ms = crate::ledger::sub_saturating(d.cooldown_ms, dt_ms);
        d.attacking = false;
        d.defending = false;
    }
    if d.attacking {
        d.defend_time_ms = 0;
        d.attack_time_ms = d.attack_time_ms + dt_ms;
    } else if d.defending {
        d.attack_time_ms = 0;
        d.defend_time_ms = d.defend_time_ms + dt_ms;
        if d.defend_time_ms > PARRY_TIME_MS {
            d.wants_to_defend = false;
        }
    } else {
        d.attack_time_ms = 0;
        d.defend_time_ms = 0;
    }
    if d.cooldown_ms == 0 {
        d.hit = false;
    }
    if d.attack_time_ms == 0 {
        d.attacked = false;
    }
    let mut out = DuelistTickOut { strike: false, defend_time_ms: 0 };
    if d.cooldown_ms == 0 && d.attack_time_ms > 0 {
        if d.attack_time_ms < prep {
            // still charging
        } else if d.attack_time_ms < prep + ATTACK_STAB_TIME_MS {
            if d.attack_time_ms > prep + ATTACK_STAB_TIME_MS / 2 && !d.attacked {
                d.attacked = true;
                out.strike = true;
            }
        } else {
            d.cooldown_ms = scaled_cooldown(d, duel, 100);
        }
    } else if d.cooldown_ms == 0 && d.defend_time_ms > 0 {
        out.defend_time_ms = d.defend_time_ms;
    }
    out
}

/// How a pair of strikes resolves against the defences up at that moment.
#[derive(Copy, Clone, PartialEq, Eq, Structural, Debug)]
pub struct DuelResolution {
    pub player_hit: bool,
    pub my_hit: bool,
    pub player_stun: bool,
    pub my_stun: bool,
    pub player_defended: bool,
    pub my_defended: bool,
    /// Play the "duelhit" sound.
    pub hit_audio: bool,
    /// Play the "duelblock" sound.
    pub block_audio: bool,
}

/// Pairs the two strikes with the two defences: a striker whose target has
/// no defence up lands a hit; a defence younger than the parry window
/// stuns the striker and is spent; any other defence blocks.
pub fn resolve_strikes(
    player_strike: bool,
    my_strike: bool,
    player_defend_ms: u32,
    my_defend_ms: u32,
) -> (r: DuelResolution)
    ensures
        r.my_hit == (player_strike && my_defend_ms == 0),
        r.my_defended == (player_strike && 0 < my_defend_ms < PARRY_TIME_MS),
        r.player_stun == r.my_defended,
        r.player_hit == (my_strike && player_defend_ms == 0),
        r.player_defended == (my_strike && 0 < player_defend_ms < PARRY_TIME_MS),
        r.my_stun == r.player_defended,
        r.hit_audio == (r.my_hit || r.player_hit),
        r.block_audio == ((player_strike && my_defend_ms > 0) || (my_strike && player_defend_ms
            > 0)),
{
    let mut r = DuelResolution {
        player_hit: false,
        my_hit: false,
        player_stun: false,
        my_stun: false,
        player_defended: false,
        my_defended: false,
        hit_audio: false,
        block_audio: false,
    };
    if player_strike {
        if my_defend_ms == 0 {
            r.hit_audio = true;
            r.my_hit = true;
        } else {
            r.block_audio = true;
            if my_defend_ms < PARRY_TIME_MS {
                r.my_defended = true;
                r.player_stun = true;
            }
        }
    }
    if my_strike {
        if player_defend_ms == 0 {
            r.hit_audio = true;
            r.player_hit = true;
        } else {
            r.block_audio = true;
            if player_defend_ms < PARRY_TIME_MS {
                r.player_defended = true;
                r.my_stun = true;
            }
        }
    }
    r
}

/// Applies one resolution to one duelist: a hit or a stun clears both
/// clocks; a hit marks the duelist and costs three quarters of a cooldown;
/// a stun costs a double cooldown; a spent defence is dropped.
pub fn apply_resolution(d: &mut Duelist, duel: &Duel, hit: bool, stun: bool, defended: bool)
    requires
        duel.player_cooldown_percent <= 100,
    ensures
        ({
            let cleared = hit || stun;
            &&& cleared ==> final(d).attack_time_ms == 0 && final(d).defend_time_ms == 0
            &&& hit ==> final(d).hit
            &&& hit && !stun ==> final(d).cooldown_ms == spec_scaled_cooldown(*old(d), *duel, 75)
            &&& stun ==> final(d).cooldown_ms == spec_scaled_cooldown(*old(d), *duel, 200)
            &&& defended ==> !final(d).wants_to_defend && final(d).defend_time_ms == 0
            &&& !cleared && !defended ==> *final(d) == *old(d)
            &&& final(d).player == old(d).player
        }),
{
    if hit || stun {
        d.attack_time_ms = 0;
        d.defend_time_ms = 0;
        if hit {
            d.hit = true;
            d.cooldown_ms = scaled_cooldown(d, duel, 75);
        }
        if stun {
            d.cooldown_ms = scaled_cooldown(d, duel, 200);
        }
    }
    if defended {
        d.wants_to_defend = false;
        d.defend_time_ms = 0;
    }
}

/// Settles a landed hit in the duel's stake: the defender pays the coin
/// penalty, saturating at zero, and the attacker gains one coin — but a
/// defender already at zero pays nothing and yields nothing.
pub fn duel_settle(duel: &mut Duel, player_hit: bool, my_hit: bool)
    requires
        old(duel).my_coins <= 1000,
        old(duel).your_coins <= 1000,
    ensures
        ({
            let your_pays = player_hit && old(duel).your_coins > 0;
            let your1 = if your_pays {
                sat_sub(old(duel).your_coins, old(duel).coin_penalty)
            } else {
                old(duel).your_coins
            };
            let my_gain = if your_pays {
                1u32
            } else {
                0u32
            };
            let my_pays = my_hit && old(duel).my_coins + my_gain > 0;
            let my1 = if my_pays {
                sat_sub((old(duel).my_coins + my_gain) as u32, old(duel).coin_penalty)
            } else {
                (old(duel).my_coins + my_gain) as u32
            };
            let your_gain = if my_pays {
                1u32
            } else {
                0u32
            };
            &&& final(duel).my_coins == my1
            &&& final(duel).your_coins == your1 + your_gain
            &&& *final(duel) == (Duel {
                my_coins: final(duel).my_coins,
                your_coins: final(duel).your_coins,
                ..*old(duel)
            })
        }),
{
    if player_hit && duel.your_coins > 0 {
        duel.your_coins = crate::ledger::sub_saturating(duel.your_coins, duel.coin_penalty);
        duel.my_coins = duel.my_coins + 1;
    }
    if my_hit && duel.my_coins > 0 {
        duel.my_coins = crate::ledger::sub_saturating(duel.my_coins, duel.coin_penalty);
        duel.your_coins = duel.your_coins + 1;
    }
}

/// Runs the duel clock down and reports the end: time out or a drained
/// stake sends the signed deltas against the entry ledger.
pub fn duel_clock(duel: &mut Duel, entry_coins: &CoinLedger, dt_ms: u32) -> (finish: Option<
    MiniGameFinish,
>)
    requires
        old(duel).my_coins <= 2000,
        old(duel).your_coins <= 2000,
        entry_coins.my_coins <= 2000,
        entry_coins.your_coins <= 2000,
    ensures
        final(duel).time_left_ms == sat_sub(old(duel).time_left_ms, dt_ms),
        *final(duel) == (Duel { time_left_ms: final(duel).time_left_ms, ..*old(duel) }),
        ({
            let over = final(duel).time_left_ms == 0 || final(duel).my_coins == 0 || final(duel).your_coins == 0;
            &&& over ==> finish == Option::Some(MiniGameFinish {
                my_coins: (final(duel).my_coins - entry_coins.my_coins) as i32,
                your_coins: (final(duel).your_coins - entry_coins.your_coins) as i32,
            })
            &&& !over ==> finish is None
        }),
{
    duel.time_left_ms = crate::ledger::sub_saturating(duel.time_left_ms, dt_ms);
    if duel.time_left_ms == 0 || duel.my_coins == 0 || duel.your_coins == 0 {
        Option::Some(
            MiniGameFinish {
                my_coins: duel.my_coins as i32 - entry_coins.my_coins as i32,
                your_coins: duel.your_coins as i32 - entry_coins.your_coins as i32,
            },
        )
    } else {
        Option::None
    }
}

/// The narrator's per-tick attack chance, in per-mille: a 30 base, plus a
/// tenth of the player's defence time, plus 50 while the player cools
/// down, clamped to certainty.
pub open spec fn spec_ai_attack_chance_milli(player_defend_ms: u32, player_cooling: bool) -> u32 {
    let bonus: u32 = if player_cooling {
        50u32
    } else {
        0u32
    };
    crate::num::spec_clamp_u32((30 + player_defend_ms / 10 + bonus) as u32, 0, 1000)
}

/// The narrator's per-tick defend chance, in per-mille: a 10 base plus a
/// fifth of the player's attack time, clamped to certainty.
pub open spec fn spec_ai_defend_chance_milli(player_attack_ms: u32) -> u32 {
    crate::num::spec_clamp_u32((10 + player_attack_ms / 5) as u32, 0, 1000)
}

/// The narrator's per-tick chance to cancel its own attack, in per-mille:
/// largest at the stab midpoint and falling off with the cube of the
/// distance from it. `stop_base_milli` is 5 on Normal and 30 on Hard.
pub open spec fn spec_ai_stop_chance_milli(stop_base_milli: u32, attack_time_ms: u32) -> u32 {
    let d = if attack_time_ms >= ATTACK_PREP_TIME_MS / 2 {
        attack_time_ms - ATTACK_PREP_TIME_MS / 2
    } else {
        ATTACK_PREP_TIME_MS / 2 - attack_time_ms
    };
    let cubed_milli = d * d * d / 1_000_000;
    if cubed_milli >= 1000 {
        0u32
    } else {
        (stop_base_milli - stop_base_milli * cubed_milli / 1000) as u32
    }
}

/// The AI bases per difficulty: the attack base and the stop base.
pub open spec fn spec_ai_bases(difficulty: Difficulty) -> (u32, u32) {
    match difficulty {
        Difficulty::Normal => (30u32, 5u32),
        Difficulty::Hard => (30u32, 30u32),
    }
}

/// One AI step for the narrator's duelist, fed three per-mille rolls. Idle,
/// it may arm an attack — only while the player's charge is young — or,
/// failing that, a defence against a visible charge; mid-attack it may
/// feint and cancel.
pub fn duel_ai_tick(
    d: &mut Duelist,
    difficulty: Difficulty,
    player_attack_ms: u32,
    player_defend_ms: u32,
    player_cooling: bool,
    attack_roll: u32,
    defend_roll: u32,
    stop_roll: u32,
)
    requires
        !old(d).player,
        attack_roll < 1000,
        defend_roll < 1000,
        stop_roll < 1000,
        old(d).attack_time_ms <= 11_000,
    ensures
        ({
            let idle = !old(d).wants_to_attack && !old(d).wants_to_defend;
            let may_attack = player_attack_ms < ATTACK_PREP_TIME_MS / 2;
            let attacks = idle && may_attack && attack_roll < spec_ai_attack_chance_milli(
                player_defend_ms,
                player_cooling,
            );
            let defends = idle && !attacks && player_attack_ms > 0 && defend_roll
                < spec_ai_defend_chance_milli(player_attack_ms);
            let stops = !idle && old(d).wants_to_attack && stop_roll < spec_ai_stop_chance_milli(
                spec_ai_bases(difficulty).1,
                old(d).attack_time_ms,
            );
            &&& attacks ==> *final(d) == (Duelist { wants_to_attack: true, ..*old(d) })
            &&& defends ==> *final(d) == (Duelist { wants_to_defend: true, ..*old(d) })
            &&& stops ==> *final(d) == (Duelist { wants_to_attack: false, ..*old(d) })
            &&& !attacks && !defends && !stops ==> *final(d) == *old(d)
        }),
{
    let stop_base: u32 = match difficulty {
        Difficulty::Normal => 5,
        Difficulty::Hard => 30,
    };
    if !d.wants_to_attack && !d.wants_to_defend {
        if player_attack_ms < ATTACK_PREP_TIME_MS / 2 {
            let bonus: u32 = if player_cooling {
                50
            } else {
                0
            };
            let chance = crate::num::clamp_u32(30 + player_defend_ms / 10 + bonus, 0, 1000);
            if attack_roll < chance {
                d.wants_to_attack = true;
                return ;
            }
        }
        if player_attack_ms > 0 {
            let chance = crate::num::clamp_u32(10 + player_attack_ms / 5, 0, 1000);
            if defend_roll < chance {
                d.wants_to_defend = true;
            }
        }
    } else if d.wants_to_attack {
        let mid = ATTACK_PREP_TIME_MS / 2;
        let dmid: u32 = if d.attack_time_ms >= mid {
            d.attack_time_ms - mid
        } else {
            mid - d.attack_time_ms
        };
        proof {
            assert(0 <= (dmid as int) * (dmid as int) <= 200_000_000 && 0 <= (dmid as int) * (
            dmid as int) * (dmid as int) <= 3_000_000_000_000) by (nonlinear_arith)
                requires
                    0 <= dmid <= 12_000,
            ;
        }
        let cubed_milli: u64 = (dmid as u64) * (dmid as u64) * (dmid as u64) / 1_000_000;
        let chance: u32 = if cubed_milli >= 1000 {
            0
        } else {
            stop_base - stop_base * (cubed_milli as u32) / 1000
        };
        if stop_roll < chance {
            d.wants_to_attack = false;
        }
    }
}

} // verus!
