//! The end-sequence gauntlet, entered when the beaten narrator plays the
//! trump card: three hearts a side, a loop of static noise and short
//! minigames, each able to cost one side at most one heart. The narrator's
//! hearts gone means the session ending — the player has truly won; the
//! player's hearts gone means the continue screen on Normal and a flat
//! reset on Hard.

use vstd::prelude::*;

use crate::game::{Difficulty, GameState};
use crate::ledger::sat_sub;

pub mod boats;
pub mod duel;
pub mod pong;
pub mod rps;

verus! {

/// The gauntlet's sub-state.
#[derive(Copy, Clone, PartialEq, Eq, Structural, Debug)]
pub enum EndGameState {
    Inactive,
    Noise,
    Rps,
    Duel,
    Boats,
    Pong,
}

/// The gauntlet: its game counter, the clock of the current sub-state, the
/// return-to-noise latch, and the two health pools.
#[derive(Copy, Clone, PartialEq, Eq, Structural, Debug)]
pub struct EndGame {
    pub turn: u32,
    pub state_time_ms: u32,
    pub switch: bool,
    pub my_health: u32,
    pub your_health: u32,
}

impl EndGame {
    /// Both health pools hold between zero and three hearts.
    pub open spec fn wf(&self) -> bool {
        self.my_health <= 3 && self.your_health <= 3
    }

    /// Entering the gauntlet: three hearts a side, the noise running.
    pub fn enter(&mut self) -> (next: EndGameState)
        ensures
            *final(self) == (EndGame {
                turn: 0u32,
                state_time_ms: 0u32,
                switch: false,
                my_health: 3u32,
                your_health: 3u32,
            }),
            final(self).wf(),
            next == EndGameState::Noise,
    {
        self.turn = 0;
        self.state_time_ms = 0;
        self.switch = false;
        self.my_health = 3;
        self.your_health = 3;
        EndGameState::Noise
    }

    /// Takes a heart from the narrator's pool, never below zero.
    pub fn lose_my_heart(&mut self)
        ensures
            final(self).my_health == sat_sub(old(self).my_health, 1),
            *final(self) == (EndGame { my_health: final(self).my_health, ..*old(self) }),
            old(self).wf() ==> final(self).wf(),
    {
        self.my_health = crate::ledger::sub_saturating(self.my_health, 1);
    }

    /// Takes a heart from the player's pool, never below zero.
    pub fn lose_your_heart(&mut self)
        ensures
            final(self).your_health == sat_sub(old(self).your_health, 1),
            *final(self) == (EndGame { your_health: final(self).your_health, ..*old(self) }),
            old(self).wf() ==> final(self).wf(),
    {
        self.your_health = crate::ledger::sub_saturating(self.your_health, 1);
    }
}

/// The sub-game each counter value dispatches to.
pub open spec fn spec_gauntlet_game(turn: u32) -> EndGameState {
    let slot = turn % 5;
    if slot == 0 {
        EndGameState::Rps
    } else if slot == 1 {
        EndGameState::Boats
    } else if slot == 2 {
        EndGameState::Rps
    } else if slot == 3 {
        EndGameState::Pong
    } else {
        EndGameState::Duel
    }
}

/// What a gauntlet step asks of the host.
#[derive(Copy, Clone, PartialEq, Eq, Structural, Debug)]
pub struct EndGameStep {
    /// Move the gauntlet to this sub-state.
    pub next_sub: Option<EndGameState>,
    /// Move the session to this phase.
    pub next_session: Option<GameState>,
    /// Broadcast `GameResetSend`.
    pub reset_send: bool,
}

/// One gauntlet step. In the noise: the narrator's pool drained moves the
/// session to its ending after two seconds; the player's pool drained to
/// the continue screen (Normal) or a reset (Hard); otherwise half a second of
/// static dispatches the next sub-game — by the counter before it is
/// spent, so the loop runs rock-paper-scissors, boats, rock-paper-scissors,
/// pong, duel. Outside the noise, a raised switch returns to it.
pub fn end_game_update(
    end_game: &mut EndGame,
    state: EndGameState,
    difficulty: Difficulty,
    dt_ms: u32,
) -> (step: EndGameStep)
    requires
        old(end_game).state_time_ms <= 100_000,
        old(end_game).turn < 1_000_000,
        dt_ms <= 1000,
        old(end_game).wf(),
    ensures
        final(end_game).wf(),
        final(end_game).my_health == old(end_game).my_health,
        final(end_game).your_health == old(end_game).your_health,
        ({
            let time1 = (old(end_game).state_time_ms + dt_ms) as u32;
            &&& state is Noise ==> {
                &&& old(end_game).my_health == 0 ==> {
                    &&& time1 > 2000 ==> step.next_session == Option::Some(GameState::Ending)
                        && final(end_game).state_time_ms == 0 && !step.reset_send
                    &&& time1 <= 2000 ==> step.next_session is None && !step.reset_send
                        && step.next_sub is None && final(end_game).state_time_ms == time1
                }
                &&& old(end_game).my_health != 0 && old(end_game).your_health == 0 ==> {
                    &&& time1 > 2000 && difficulty is Hard ==> step.reset_send && final(end_game).state_time_ms == 0 && step.next_session is None
                    &&& time1 > 2000 && difficulty is Normal ==> step.next_session
                        == Option::Some(GameState::Continue) && final(end_game).state_time_ms == 0
                        && !step.reset_send
                    &&& time1 <= 2000 ==> step.next_session is None && !step.reset_send
                        && step.next_sub is None && final(end_game).state_time_ms == time1
                }
                &&& old(end_game).my_health != 0 && old(end_game).your_health != 0 ==> {
                    &&& time1 > 500 ==> step.next_sub == Option::Some(
                        spec_gauntlet_game(old(end_game).turn),
                    ) && final(end_game).turn == old(end_game).turn + 1 && final(end_game).state_time_ms == 0
                    &&& time1 <= 500 ==> step.next_sub is None && final(end_game).state_time_ms
                        == time1 && final(end_game).turn == old(end_game).turn
                    &&& step.next_session is None && !step.reset_send
                }
            }
            &&& !(state is Noise) && old(end_game).switch ==> step.next_sub == Option::Some(
                EndGameState::Noise,
            ) && final(end_game).state_time_ms == 0 && !final(end_game).switch
                && step.next_session is None && !step.reset_send
            &&& !(state is Noise) && !old(end_game).switch ==> step == (EndGameStep {
                next_sub: Option::<EndGameState>::None,
                next_session: Option::<GameState>::None,
                reset_send: false,
            }) && final(end_game).state_time_ms == time1
        }),
{
    end_game.state_time_ms = end_game.state_time_ms + dt_ms;
    let mut step = EndGameStep { next_sub: Option::None, next_session: Option::None, reset_send: false };
    if matches!(state, EndGameState::Noise) {
        if end_game.my_health == 0 {
            if end_game.state_time_ms > 2000 {
                step.next_session = Option::Some(GameState::Ending);
                end_game.state_time_ms = 0;
            }
        } else if end_game.your_health == 0 {
            if end_game.state_time_ms > 2000 {
                if matches!(difficulty, Difficulty::Hard) {
                    step.reset_send = true;
                } else {
                    step.next_session = Option::Some(GameState::Continue);
                }
                end_game.state_time_ms = 0;
            }
        } else {
            if end_game.state_time_ms > 500 {
                let slot = end_game.turn % 5;
                step.next_sub = Option::Some(
                    if slot == 0 {
                        EndGameState::Rps
                    } else if slot == 1 {
                        EndGameState::Boats
                    } else if slot == 2 {
                        EndGameState::Rps
                    } else if slot == 3 {
                        EndGameState::Pong
                    } else {
                        EndGameState::Duel
                    },
                );
                end_game.turn = end_game.turn + 1;
                end_game.state_time_ms = 0;
            }
        }
    } else if end_game.switch {
        end_game.state_time_ms = 0;
        end_game.switch = false;
        step.next_sub = Option::Some(EndGameState::Noise);
    }
    step
}

/// Every well-formed gauntlet state keeps both health pools between zero
/// and three hearts, and a lost heart keeps the state well-formed.
pub proof fn lemma_health_stays_in_range(end_game: EndGame)
    requires
        end_game.wf(),
    ensures
        0 <= end_game.my_health <= 3,
        0 <= end_game.your_health <= 3,
        (EndGame { my_health: sat_sub(end_game.my_health, 1), ..end_game }).wf(),
        (EndGame { your_health: sat_sub(end_game.your_health, 1), ..end_game }).wf(),
{
}

/// Exactly one sub-state of the gauntlet is active in any of its states.
pub proof fn lemma_one_gauntlet_state_active(s: EndGameState)
    ensures
        spec_active_count(s) == 1,
{
}

/// How many of the gauntlet's sub-states `s` is in at once.
pub open spec fn spec_active_count(s: EndGameState) -> int {
    (if s is Inactive {
        1int
    } else {
        0int
    }) + (if s is Noise {
        1int
    } else {
        0int
    }) + (if s is Rps {
        1int
    } else {
        0int
    }) + (if s is Duel {
        1int
    } else {
        0int
    }) + (if s is Boats {
        1int
    } else {
        0int
    }) + (if s is Pong {
        1int
    } else {
        0int
    })
}

} // verus!
