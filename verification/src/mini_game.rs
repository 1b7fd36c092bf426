//! The minigame shell: the "Ready? / Start!" and "Finish!" banners, the
//! practice mode, and the settlement that folds a finished minigame's coin
//! deltas into the session ledger — saturating at zero — before the turn
//! counter advances.

use vstd::prelude::*;

use crate::dialogue::{Dialogue, DialogueCue, DialogueEntry};
use crate::game::{Game, GameState};
use crate::ledger::{sat_add, sat_sub};

pub mod boats;
pub mod duel;
pub mod pong;
pub mod rps;

verus! {

/// Which minigame is running.
#[derive(Copy, Clone, PartialEq, Eq, Structural, Debug)]
pub enum MiniGameState {
    Inactive,
    Rps,
    Boats,
    Duel,
    Pong,
}

/// A finished minigame's signed coin deltas, one per side.
#[derive(Copy, Clone, PartialEq, Eq, Structural, Debug)]
pub struct MiniGameFinish {
    pub my_coins: i32,
    pub your_coins: i32,
}

/// The shell's flags and the coin figures it displays.
#[derive(Copy, Clone, PartialEq, Eq, Structural, Debug)]
pub struct MiniGame {
    pub active: bool,
    pub start: bool,
    pub finish: bool,
    pub practice: bool,
    pub display_my_coins: u32,
    pub display_your_coins: u32,
}

/// The banner countdowns, in milliseconds of elapsed display time.
#[derive(Copy, Clone, PartialEq, Eq, Structural, Debug)]
pub struct ReadyText {
    pub ready_time_ms: u32,
    pub start_time_ms: u32,
    pub finish_time_ms: u32,
}

/// What a shell step asks of the host.
#[derive(Copy, Clone, PartialEq, Eq, Structural, Debug)]
pub struct MiniGameCue {
    pub ready_audio: bool,
    pub start_audio: bool,
    pub finish_audio: bool,
}

impl MiniGame {
    pub fn new() -> (r: MiniGame)
        ensures
            r == (MiniGame {
                active: false,
                start: false,
                finish: false,
                practice: false,
                display_my_coins: 0u32,
                display_your_coins: 0u32,
            }),
    {
        MiniGame {
            active: false,
            start: false,
            finish: false,
            practice: false,
            display_my_coins: 0,
            display_your_coins: 0,
        }
    }
}

/// Copies a running minigame's coin figures into the shell's display.
pub fn set_display_coins(mini_game: &mut MiniGame, my_coins: u32, your_coins: u32)
    ensures
        *final(mini_game) == (MiniGame {
            display_my_coins: my_coins,
            display_your_coins: your_coins,
            ..*old(mini_game)
        }),
{
    mini_game.display_my_coins = my_coins;
    mini_game.display_your_coins = your_coins;
}

/// `coins` shifted by a signed delta, saturating at zero and at the
/// machine ceiling.
pub open spec fn spec_apply_delta(coins: u32, delta: i32) -> u32 {
    if delta >= 0 {
        sat_add(coins, delta as u32)
    } else {
        sat_sub(coins, (-(delta as int)) as u32)
    }
}

pub fn apply_delta(coins: u32, delta: i32) -> (r: u32)
    ensures
        r == spec_apply_delta(coins, delta),
{
    if delta >= 0 {
        crate::ledger::add_saturating(coins, delta as u32)
    } else {
        let mag: u32 = if delta == i32::MIN {
            0x8000_0000
        } else {
            (-delta) as u32
        };
        crate::ledger::sub_saturating(coins, mag)
    }
}

/// Entering the minigame phase: arms the pre-roll banner; the first two
/// non-practice rounds get the narrator's introduction.
pub fn mini_game_enter(
    game: &Game,
    mini_game: &mut MiniGame,
    ready: &mut ReadyText,
    dialogue: &mut Dialogue,
) -> (cue: DialogueCue)
    ensures
        final(mini_game).start && !final(mini_game).finish && !final(mini_game).active,
        final(mini_game).practice == old(mini_game).practice,
        *final(ready) == (ReadyText { ready_time_ms: 0u32, start_time_ms: 0u32, finish_time_ms: 0u32 }),
        game.turn == 1 && !old(mini_game).practice ==> final(dialogue).entries@.len() == old(dialogue).entries@.len() + 3,
        game.turn == 2 && !old(mini_game).practice ==> final(dialogue).entries@.len() == old(dialogue).entries@.len() + 2,
        !(game.turn == 1 || game.turn == 2) || old(mini_game).practice ==> final(dialogue).entries@
            == old(dialogue).entries@,
{
    mini_game.start = true;
    mini_game.finish = false;
    mini_game.active = false;
    *ready = ReadyText { ready_time_ms: 0, start_time_ms: 0, finish_time_ms: 0 };
    if game.turn == 1 && !mini_game.practice {
        let mut batch: Vec<DialogueEntry> = Vec::new();
        batch.push(DialogueEntry::line("Huh? How did my boat get smaller?".to_string()));
        batch.push(DialogueEntry::line("Must be a bug...".to_string()));
        batch.push(DialogueEntry::line("Well, never mind that! Let's start!".to_string()));
        dialogue.add_all(batch)
    } else if game.turn == 2 && !mini_game.practice {
        let mut batch: Vec<DialogueEntry> = Vec::new();
        batch.push(DialogueEntry::line("Good ol rock paper scissors!".to_string()));
        batch.push(DialogueEntry::line("Nothing fishy going on here.".to_string()));
        dialogue.add_all(batch)
    } else {
        DialogueCue { play_audio: false }
    }
}

/// Leaving the minigame phase: practice ends and the minigame machine
/// parks.
pub fn mini_game_exit(mini_game: &mut MiniGame, state: &mut MiniGameState)
    ensures
        *final(state) is Inactive,
        !(*old(state) is Inactive) ==> !final(mini_game).practice,
        *old(state) is Inactive ==> *final(mini_game) == *old(mini_game),
{
    if !matches!(state, MiniGameState::Inactive) {
        mini_game.practice = false;
        *state = MiniGameState::Inactive;
    }
}

/// Settles a finished minigame: outside practice the deltas fold into the
/// ledger, saturating at zero; the shell moves from active to the finish
/// banner.
pub fn mini_game_settle(
    game: &mut Game,
    mini_game: &mut MiniGame,
    event: MiniGameFinish,
) -> (settled: bool)
    ensures
        settled == old(mini_game).active,
        !old(mini_game).active ==> *final(game) == *old(game) && *final(mini_game) == *old(mini_game),
        old(mini_game).active ==> {
            &&& !final(mini_game).active && final(mini_game).finish
            &&& final(mini_game).practice == old(mini_game).practice
            &&& !old(mini_game).practice ==> final(game).coins.my_coins == spec_apply_delta(
                old(game).coins.my_coins,
                event.my_coins,
            ) && final(game).coins.your_coins == spec_apply_delta(
                old(game).coins.your_coins,
                event.your_coins,
            )
            &&& old(mini_game).practice ==> *final(game) == *old(game)
        },
{
    if !mini_game.active {
        return false;
    }
    if !mini_game.practice {
        game.coins.my_coins = apply_delta(game.coins.my_coins, event.my_coins);
        game.coins.your_coins = apply_delta(game.coins.your_coins, event.your_coins);
    }
    mini_game.active = false;
    mini_game.finish = true;
    true
}

/// The practice escape: Return quits a practice run back to the info
/// screen at any point of the minigame.
pub fn mini_game_practice_quit(mini_game: &mut MiniGame, return_just_pressed: bool) -> (next:
    Option<GameState>)
    ensures
        ({
            let quits = return_just_pressed && old(mini_game).practice && (old(mini_game).active
                || old(mini_game).start || old(mini_game).finish);
            &&& quits ==> next == Option::Some(GameState::InfoScreen) && !final(mini_game).active
                && !final(mini_game).start && !final(mini_game).finish
            &&& !quits ==> next is None && *final(mini_game) == *old(mini_game)
        }),
{
    if return_just_pressed && mini_game.practice && (mini_game.active || mini_game.start
        || mini_game.finish) {
        mini_game.start = false;
        mini_game.active = false;
        mini_game.finish = false;
        Option::Some(GameState::InfoScreen)
    } else {
        Option::None
    }
}

/// One tick of the pre-roll banner: "Ready?" for a second (its sound on
/// the first tick), then "Start!" for a second, then the game goes active.
pub fn mini_game_start_banner(mini_game: &mut MiniGame, ready: &mut ReadyText, dt_ms: u32) -> (cue:
    MiniGameCue)
    requires
        dt_ms <= 1000,
        old(ready).ready_time_ms <= 2000,
        old(ready).start_time_ms <= 2000,
    ensures
        !old(mini_game).start ==> *final(mini_game) == *old(mini_game) && *final(ready) == *old(ready) && cue == (MiniGameCue { ready_audio: false, start_audio: false, finish_audio: false }),
        old(mini_game).start ==> {
            &&& cue.ready_audio == (old(ready).ready_time_ms == 0)
            &&& old(ready).ready_time_ms < 1000 ==> final(ready).ready_time_ms == old(ready).ready_time_ms + dt_ms && *final(mini_game) == *old(mini_game) && !cue.start_audio
            &&& old(ready).ready_time_ms >= 1000 && old(ready).start_time_ms < 1000 ==> {
                &&& cue.start_audio == (old(ready).start_time_ms == 0)
                &&& final(ready).start_time_ms == old(ready).start_time_ms + dt_ms
                &&& *final(mini_game) == *old(mini_game)
            }
            &&& old(ready).ready_time_ms >= 1000 && old(ready).start_time_ms >= 1000 ==> {
                &&& *final(mini_game) == (MiniGame {
                    start: false,
                    active: true,
                    ..*old(mini_game)
                })
                &&& *final(ready) == *old(ready)
                &&& !cue.start_audio
            }
            &&& !cue.finish_audio
        },
{
    let mut cue = MiniGameCue { ready_audio: false, start_audio: false, finish_audio: false };
    if !mini_game.start {
        return cue;
    }
    cue.ready_audio = ready.ready_time_ms == 0;
    if ready.ready_time_ms < 1000 {
        ready.ready_time_ms = ready.ready_time_ms + dt_ms;
    } else if ready.start_time_ms < 1000 {
        cue.start_audio = ready.start_time_ms == 0;
        ready.start_time_ms = ready.start_time_ms + dt_ms;
    } else {
        mini_game.start = false;
        mini_game.active = true;
    }
    cue
}

/// One tick of the post-roll banner: "Finish!" for three seconds (its
/// sound on the first tick); then a practice run returns to the info
/// screen, while a real one clears the duel flag, bumps the turn counter
/// and returns to the board. The turn counter moves here and nowhere else.
pub fn mini_game_finish_banner(
    game: &mut Game,
    mini_game: &mut MiniGame,
    ready: &mut ReadyText,
    dt_ms: u32,
) -> (r: (MiniGameCue, Option<GameState>))
    requires
        dt_ms <= 1000,
        old(ready).finish_time_ms <= 4000,
        old(game).turn < 100_000,
    ensures
        !old(mini_game).finish ==> *final(mini_game) == *old(mini_game) && *final(ready) == *old(ready) && *final(game) == *old(game) && r.1 is None,
        old(mini_game).finish ==> {
            &&& r.0.finish_audio == (old(ready).finish_time_ms == 0)
            &&& old(ready).finish_time_ms < 3000 ==> final(ready).finish_time_ms == old(ready).finish_time_ms + dt_ms && *final(game) == *old(game) && *final(mini_game) == *old(mini_game) && r.1 is None
            &&& old(ready).finish_time_ms >= 3000 ==> {
                &&& !final(mini_game).finish && !final(mini_game).active
                &&& old(mini_game).practice ==> r.1 == Option::Some(GameState::InfoScreen)
                    && *final(game) == *old(game)
                &&& !old(mini_game).practice ==> r.1 == Option::Some(GameState::Board) && *final(game) == (Game { duel: false, turn: (old(game).turn + 1) as u32, ..*old(game) })
            }
        },
{
    let mut cue = MiniGameCue { ready_audio: false, start_audio: false, finish_audio: false };
    if !mini_game.finish {
        return (cue, Option::None);
    }
    cue.finish_audio = ready.finish_time_ms == 0;
    if ready.finish_time_ms < 3000 {
        ready.finish_time_ms = ready.finish_time_ms + dt_ms;
        (cue, Option::None)
    } else {
        mini_game.finish = false;
        mini_game.active = false;
        if mini_game.practice {
            (cue, Option::Some(GameState::InfoScreen))
        } else {
            game.duel = false;
            game.turn = game.turn + 1;
            (cue, Option::Some(GameState::Board))
        }
    }
}


/// How many of its states `s` is in at once.
pub open spec fn spec_active_count(s: MiniGameState) -> int {
    (if s is Inactive {
        1int
    } else {
        0int
    }) + (if s is Rps {
        1int
    } else {
        0int
    }) + (if s is Boats {
        1int
    } else {
        0int
    }) + (if s is Duel {
        1int
    } else {
        0int
    }) + (if s is Pong {
        1int
    } else {
        0int
    })
}

/// Exactly one minigame phase is active in any state of the machine.
pub proof fn lemma_one_minigame_phase_active(s: MiniGameState)
    ensures
        spec_active_count(s) == 1,
{
}

} // verus!
