//! The info screen between a board round and its minigame: it names the
//! round's minigame — a duel when one was armed, else rock-paper-scissors
//! on even rounds and the dodge on odd ones — and starts it on Space, or a
//! practice run on Return. The first Space of a game is intercepted once
//! by the narrator's advice to practice.

use vstd::prelude::*;

use crate::dialogue::{Dialogue, DialogueEntry};
use crate::game::{Game, GameState};
use crate::mini_game::{MiniGame, MiniGameState};

verus! {

pub struct InfoScreen {
    pub active: bool,
    pub mini_game: MiniGameState,
}

/// The minigame a round plays: the duel when armed, else the round parity
/// decides between rock-paper-scissors and the dodge.
pub open spec fn spec_round_mini_game(duel: bool, turn: u32) -> MiniGameState {
    if duel {
        MiniGameState::Duel
    } else if turn % 2 == 0 {
        MiniGameState::Rps
    } else {
        MiniGameState::Boats
    }
}

/// Entering the info screen selects the round's minigame.
pub fn info_screen_enter(info: &mut InfoScreen, game: &Game)
    ensures
        final(info).active,
        final(info).mini_game == spec_round_mini_game(game.duel, game.turn),
{
    info.active = true;
    if game.duel {
        info.mini_game = MiniGameState::Duel;
    } else if game.turn % 2 == 0 {
        info.mini_game = MiniGameState::Rps;
    } else {
        info.mini_game = MiniGameState::Boats;
    }
}

pub fn info_screen_exit(info: &mut InfoScreen)
    ensures
        !final(info).active,
{
    info.active = false;
}

/// What an info-screen step decides.
pub struct InfoScreenStep {
    /// Start this minigame.
    pub start: Option<MiniGameState>,
    /// Move the session to the minigame phase.
    pub next_session: Option<GameState>,
    /// The started run is a practice run.
    pub practice: bool,
}

/// One tick of the info screen: blocked by dialogue; Space starts the real
/// run — though the first Space of a game is answered with the advice to
/// practice instead — and Return starts a practice run.
pub fn info_screen_update(
    game: &mut Game,
    info: &InfoScreen,
    mini_game: &mut MiniGame,
    dialogue: &mut Dialogue,
    space_just_pressed: bool,
    return_just_pressed: bool,
) -> (step: InfoScreenStep)
    ensures
        ({
            let blocked = old(dialogue).spec_busy() || !info.active;
            let hints = space_just_pressed && old(game).practice_first_message;
            &&& blocked ==> step.start is None && step.next_session is None && *final(game)
                == *old(game) && *final(mini_game) == *old(mini_game) && final(dialogue).entries@
                == old(dialogue).entries@
            &&& !blocked && space_just_pressed && hints ==> {
                &&& final(dialogue).entries@.len() == old(dialogue).entries@.len() + 2
                &&& *final(game) == (Game { practice_first_message: false, ..*old(game) })
                &&& step.start is None && step.next_session is None
                &&& *final(mini_game) == *old(mini_game)
            }
            &&& !blocked && space_just_pressed && !hints ==> {
                &&& step.start == Option::Some(info.mini_game)
                &&& step.next_session == Option::Some(GameState::MiniGame)
                &&& !step.practice && !final(mini_game).practice
                &&& *final(game) == *old(game)
            }
            &&& !blocked && !space_just_pressed && return_just_pressed ==> {
                &&& step.start == Option::Some(info.mini_game)
                &&& step.next_session == Option::Some(GameState::MiniGame)
                &&& step.practice && final(mini_game).practice
                &&& *final(game) == *old(game)
            }
            &&& !blocked && !space_just_pressed && !return_just_pressed ==> step.start is None
                && step.next_session is None && *final(game) == *old(game) && *final(mini_game)
                == *old(mini_game) && final(dialogue).entries@ == old(dialogue).entries@
        }),
{
    if dialogue.busy() || !info.active {
        return InfoScreenStep { start: Option::None, next_session: Option::None, practice: false };
    }
    if space_just_pressed {
        if game.practice_first_message {
            let mut batch: Vec<DialogueEntry> = Vec::new();
            batch.push(DialogueEntry::line("You should practice first!".to_string()));
            batch.push(
                DialogueEntry::line(
                    "Press ENTER instead of SPACE to practice the mini game.".to_string(),
                ),
            );
            dialogue.add_all(batch);
            game.practice_first_message = false;
            InfoScreenStep { start: Option::None, next_session: Option::None, practice: false }
        } else {
            mini_game.practice = false;
            InfoScreenStep {
                start: Option::Some(info.mini_game),
                next_session: Option::Some(GameState::MiniGame),
                practice: false,
            }
        }
    } else if return_just_pressed {
        mini_game.practice = true;
        InfoScreenStep {
            start: Option::Some(info.mini_game),
            next_session: Option::Some(GameState::MiniGame),
            practice: true,
        }
    } else {
        InfoScreenStep { start: Option::None, next_session: Option::None, practice: false }
    }
}

} // verus!
