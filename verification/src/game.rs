//! Session-wide state: the top-level phase machine, the difficulty, the
//! shared coin ledger and the turn counter, and the reset protocol that
//! returns every subsystem to its starting state.

use vstd::prelude::*;

use crate::dialogue::Rgba;
use crate::ledger::CoinLedger;

verus! {

/// The match difficulty, fixed at Setup.
#[derive(Copy, Clone, PartialEq, Eq, Structural, Debug)]
pub enum Difficulty {
    Normal,
    Hard,
}

/// The top-level session phase.
#[derive(Copy, Clone, PartialEq, Eq, Structural, Debug)]
pub enum GameState {
    Loading,
    Setup,
    Intro,
    Board,
    InfoScreen,
    MiniGame,
    Continue,
    EndGame,
    Ending,
}

/// Session-wide mutable state shared by every sub-machine.
#[derive(Copy, Clone, PartialEq, Eq, Structural, Debug)]
pub struct Game {
    pub my_color: Rgba,
    pub your_color: Rgba,
    pub coins: CoinLedger,
    /// The current round, starting at 1; bumped once per completed
    /// minigame.
    pub turn: u32,
    /// Grace timer between a reset and the restart of Setup.
    pub reset_timer_ms: u32,
    /// The next minigame is a duel (a rapier was used this round).
    pub duel: bool,
    /// A dice roll is in flight; movement and the intro wait on it.
    pub dice_roll: bool,
    /// The info screen still owes the "practice first" hint.
    pub practice_first_message: bool,
}

/// The ledger each difficulty starts with.
pub open spec fn spec_initial_coins(difficulty: Difficulty) -> CoinLedger {
    match difficulty {
        Difficulty::Normal => CoinLedger { my_coins: 15, your_coins: 15 },
        Difficulty::Hard => CoinLedger { my_coins: 15, your_coins: 10 },
    }
}

pub fn initial_coins(difficulty: Difficulty) -> (r: CoinLedger)
    ensures
        r == spec_initial_coins(difficulty),
{
    match difficulty {
        Difficulty::Normal => CoinLedger { my_coins: 15, your_coins: 15 },
        Difficulty::Hard => CoinLedger { my_coins: 15, your_coins: 10 },
    }
}

impl Game {
    /// The blank state the session boots with, before Setup runs.
    pub fn blank() -> (r: Game)
        ensures
            r == Game::spec_blank(),
    {
        Game {
            my_color: Rgba { r: 255, g: 178, b: 178, a: 255 },
            your_color: Rgba { r: 255, g: 255, b: 0, a: 255 },
            coins: CoinLedger { my_coins: 0, your_coins: 0 },
            turn: 0,
            reset_timer_ms: 0,
            duel: false,
            dice_roll: false,
            practice_first_message: false,
        }
    }

    pub open spec fn spec_blank() -> Game {
        Game {
            my_color: Rgba { r: 255, g: 178, b: 178, a: 255 },
            your_color: Rgba { r: 255, g: 255, b: 0, a: 255 },
            coins: CoinLedger { my_coins: 0, your_coins: 0 },
            turn: 0,
            reset_timer_ms: 0,
            duel: false,
            dice_roll: false,
            practice_first_message: false,
        }
    }

    /// Completes Setup: configures the ledger for the chosen difficulty,
    /// rewinds the turn counter, and moves the session to the Setup phase.
    pub fn start(&mut self, difficulty: Difficulty) -> (next: GameState)
        ensures
            final(self).coins == spec_initial_coins(difficulty),
            final(self).turn == 1,
            !final(self).duel,
            !final(self).dice_roll,
            final(self).practice_first_message,
            final(self).my_color == old(self).my_color,
            final(self).your_color == old(self).your_color,
            final(self).reset_timer_ms == old(self).reset_timer_ms,
            next == GameState::Setup,
    {
        self.coins = initial_coins(difficulty);
        self.turn = 1;
        self.duel = false;
        self.dice_roll = false;
        self.practice_first_message = true;
        GameState::Setup
    }
}

/// What a reset step asks of the host.
#[derive(Copy, Clone, PartialEq, Eq, Structural, Debug)]
pub struct ResetCue {
    /// Broadcast `GameReset`: every subsystem restores its defaults and
    /// all non-camera entities despawn.
    pub broadcast_reset: bool,
    /// Re-announce the asset library so Setup restarts.
    pub assets_ready: bool,
}

/// Receives a `GameResetSend`: outside Loading, the session drops to
/// Loading and starts the one-second grace timer.
pub fn reset_receive(state: &mut GameState, game: &mut Game, do_reset: bool) -> (cue: ResetCue)
    ensures
        ({
            let fires = do_reset && !(*old(state) is Loading)
;
            &&& fires ==> *final(state) is Loading && *final(game) == (Game {
                reset_timer_ms: 1000u32,
                ..*old(game)
            }) && cue.broadcast_reset
            &&& !fires ==> *final(state) == *old(state) && *final(game) == *old(game)
                && !cue.broadcast_reset
            &&& !cue.assets_ready
        }),
{
    if do_reset && !matches!(state, GameState::Loading) {
        *state = GameState::Loading;
        game.reset_timer_ms = 1000;
        ResetCue { broadcast_reset: true, assets_ready: false }
    } else {
        ResetCue { broadcast_reset: false, assets_ready: false }
    }
}

/// Runs the grace timer down; when it lapses the asset library is
/// re-announced, which restarts Setup.
pub fn reset_tick(game: &mut Game, dt_ms: u32) -> (cue: ResetCue)
    ensures
        final(game).reset_timer_ms == crate::ledger::sat_sub(old(game).reset_timer_ms, dt_ms),
        cue.assets_ready == (old(game).reset_timer_ms > 0 && final(game).reset_timer_ms == 0),
        !cue.broadcast_reset,
        *final(game) == (Game { reset_timer_ms: final(game).reset_timer_ms, ..*old(game) }),
{
    if game.reset_timer_ms > 0 {
        game.reset_timer_ms = crate::ledger::sub_saturating(game.reset_timer_ms, dt_ms);
        if game.reset_timer_ms == 0 {
            return ResetCue { broadcast_reset: false, assets_ready: true };
        }
    }
    ResetCue { broadcast_reset: false, assets_ready: false }
}

/// The reset hotkey: pressing the 0 key outside Loading raises the reset
/// request.
pub fn reset_hotkey(state: &GameState, key0_just_pressed: bool) -> (send: bool)
    ensures
        send == (key0_just_pressed && !(*state is Loading)),
{
    key0_just_pressed && !matches!(state, GameState::Loading)
}

/// After a reset and a completed Setup the ledger is exactly the
/// configured initial ledger for the chosen difficulty.
pub proof fn lemma_reset_then_setup_restores_ledger(game: Game, difficulty: Difficulty)
    requires
        game.coins == spec_initial_coins(difficulty),
    ensures
        difficulty is Normal ==> game.coins == (CoinLedger { my_coins: 15, your_coins: 15 }),
        difficulty is Hard ==> game.coins == (CoinLedger { my_coins: 15, your_coins: 10 }),
{
}


/// How many of its states `s` is in at once.
pub open spec fn spec_active_count(s: GameState) -> int {
    (if s is Loading {
        1int
    } else {
        0int
    }) + (if s is Setup {
        1int
    } else {
        0int
    }) + (if s is Intro {
        1int
    } else {
        0int
    }) + (if s is Board {
        1int
    } else {
        0int
    }) + (if s is InfoScreen {
        1int
    } else {
        0int
    }) + (if s is MiniGame {
        1int
    } else {
        0int
    }) + (if s is Continue {
        1int
    } else {
        0int
    }) + (if s is EndGame {
        1int
    } else {
        0int
    }) + (if s is Ending {
        1int
    } else {
        0int
    })
}

/// Exactly one session phase is active in any state of the machine.
pub proof fn lemma_one_session_phase_active(s: GameState)
    ensures
        spec_active_count(s) == 1,
{
}

} // verus!
