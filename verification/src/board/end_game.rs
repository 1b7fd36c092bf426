//! The board's end-game: classifies the final outcome once a balance is
//! drained. A tie or a player loss resets the game after its farewell; a
//! player win provokes the narrator's trump card, whose animation leads
//! into the end-sequence gauntlet.

use vstd::prelude::*;

use crate::board::Board;
use crate::dialogue::{Dialogue, DialogueCue, DialogueEntry};
use crate::game::{Game, GameState};
use crate::ledger::Side;

verus! {

/// The classified outcome of the board game.
#[derive(Copy, Clone, PartialEq, Eq, Structural, Debug)]
pub enum EndGameState {
    /// The player won; the trump-card animation is running.
    Win,
    /// The trump card has been played; the end-sequence begins.
    Win2,
    Lose,
    Tie,
}

pub struct EndGame {
    pub state: EndGameState,
}

/// What an end-game step asks of the host.
pub struct EndGameCue {
    pub dialogue_audio: bool,
    /// Play the "itemuse" sound (the trump card rises).
    pub item_audio: bool,
    /// Broadcast `GameResetSend`.
    pub reset_send: bool,
    /// Move the session to the end-sequence phase.
    pub to_end_game_phase: bool,
}

/// The outcome the drained ledger dictates: both empty is a tie, an empty
/// player balance a loss, an empty narrator balance a win. With no side
/// empty the previous classification stands.
pub open spec fn spec_classify(prior: EndGameState, my_coins: u32, your_coins: u32) -> EndGameState {
    if my_coins == 0 && your_coins == 0 {
        EndGameState::Tie
    } else if your_coins == 0 {
        EndGameState::Lose
    } else if my_coins == 0 {
        EndGameState::Win
    } else {
        prior
    }
}

/// How many farewell lines each outcome queues.
pub open spec fn spec_outcome_lines(outcome: EndGameState) -> int {
    match outcome {
        EndGameState::Tie => 4,
        EndGameState::Win => 3,
        EndGameState::Win2 => 0,
        EndGameState::Lose => 2,
    }
}

/// Entering the end-game: classifies the outcome and queues its speech.
pub fn end_game_init(end_game: &mut EndGame, game: &Game, dialogue: &mut Dialogue) -> (cue:
    DialogueCue)
    ensures
        final(end_game).state == spec_classify(
            old(end_game).state,
            game.coins.my_coins,
            game.coins.your_coins,
        ),
        final(dialogue).entries@.len() == old(dialogue).entries@.len() + spec_outcome_lines(
            final(end_game).state,
        ),
{
    if game.coins.my_coins == 0 && game.coins.your_coins == 0 {
        end_game.state = EndGameState::Tie;
    } else if game.coins.your_coins == 0 {
        end_game.state = EndGameState::Lose;
    } else if game.coins.my_coins == 0 {
        end_game.state = EndGameState::Win;
    }
    match end_game.state {
        EndGameState::Tie => {
            let mut batch: Vec<DialogueEntry> = Vec::new();
            batch.push(
                DialogueEntry::line("Oh.. it looks like you ran out of coins.".to_string()),
            );
            batch.push(
                DialogueEntry::line("So did I.. but this is my game, my rules.".to_string()),
            );
            batch.push(DialogueEntry::line("You lose! Sorry!".to_string()));
            batch.push(DialogueEntry::line("Better luck next time.".to_string()));
            dialogue.add_all(batch)
        },
        EndGameState::Win => {
            let mut batch: Vec<DialogueEntry> = Vec::new();
            batch.push(DialogueEntry::line("...".to_string()));
            batch.push(DialogueEntry::line("Very impressive.".to_string()));
            batch.push(
                DialogueEntry::line("But did you think I would lose so easily?".to_string()),
            );
            dialogue.add_all(batch)
        },
        EndGameState::Win2 => DialogueCue { play_audio: false },
        EndGameState::Lose => {
            let mut batch: Vec<DialogueEntry> = Vec::new();
            batch.push(
                DialogueEntry::line("Oh.. it looks like you ran out of coins.".to_string()),
            );
            batch.push(DialogueEntry::line("Better luck next time.".to_string()));
            dialogue.add_all(batch)
        },
    }
}

/// One tick of the end-game, once dialogue is idle. Tie and Lose request
/// the reset. Win raises the narrator's trump card by three quarters of
/// the tick, playing the item sound as it starts; at full raise the threat
/// is spoken and the card is played. Win2 moves the session to the
/// end-sequence.
pub fn end_game_update(
    end_game: &mut EndGame,
    board: &mut Board,
    dialogue: &mut Dialogue,
    dt_ms: u32,
) -> (cue: EndGameCue)
    requires
        old(board).my_item_use_interpolate <= 1000,
        dt_ms <= 4000,
    ensures
        old(dialogue).spec_busy() ==> *final(end_game) == *old(end_game) && *final(board) == *old(board) && !cue.reset_send && !cue.to_end_game_phase && final(dialogue).entries@ == old(dialogue).entries@,
        !old(dialogue).spec_busy() ==> match old(end_game).state {
            EndGameState::Tie => cue.reset_send && !cue.to_end_game_phase && *final(board) == *old(board) && *final(end_game) == *old(end_game),
            EndGameState::Lose => cue.reset_send && !cue.to_end_game_phase && *final(board)
                == *old(board) && *final(end_game) == *old(end_game),
            EndGameState::Win => {
                &&& !cue.reset_send && !cue.to_end_game_phase
                &&& cue.item_audio == (old(board).my_item_use_interpolate == 0)
                &&& final(board).my_item_use_interpolate == crate::num::spec_clamp_u32(
                    (old(board).my_item_use_interpolate + (dt_ms * 3) / 4) as u32,
                    0,
                    1000,
                )
                &&& *final(board) == (Board {
                    my_item_use_interpolate: final(board).my_item_use_interpolate,
                    ..*old(board)
                })
                &&& final(board).my_item_use_interpolate == 1000 ==> final(end_game).state
                    is Win2 && final(dialogue).entries@.len() == old(dialogue).entries@.len() + 2
                &&& final(board).my_item_use_interpolate < 1000 ==> final(end_game).state is Win
                    && final(dialogue).entries@ == old(dialogue).entries@
            },
            EndGameState::Win2 => cue.to_end_game_phase && !cue.reset_send && *final(board)
                == *old(board) && *final(end_game) == *old(end_game),
        },
{
    if dialogue.busy() {
        return EndGameCue {
            dialogue_audio: false,
            item_audio: false,
            reset_send: false,
            to_end_game_phase: false,
        };
    }
    match end_game.state {
        EndGameState::Tie => EndGameCue {
            dialogue_audio: false,
            item_audio: false,
            reset_send: true,
            to_end_game_phase: false,
        },
        EndGameState::Lose => EndGameCue {
            dialogue_audio: false,
            item_audio: false,
            reset_send: true,
            to_end_game_phase: false,
        },
        EndGameState::Win => {
            let item_audio = board.my_item_use_interpolate == 0;
            let advanced = board.my_item_use_interpolate + (dt_ms * 3) / 4;
            board.my_item_use_interpolate = if advanced >= 1000 {
                1000
            } else {
                advanced
            };
            let mut dialogue_audio = false;
            if board.my_item_use_interpolate == 1000 {
                let mut batch: Vec<DialogueEntry> = Vec::new();
                batch.push(DialogueEntry::line("I use my trump card!".to_string()));
                batch.push(DialogueEntry::line("Prepare yourself!".to_string()));
                let dcue = dialogue.add_all(batch);
                dialogue_audio = dcue.play_audio;
                end_game.state = EndGameState::Win2;
            }
            EndGameCue {
                dialogue_audio,
                item_audio,
                reset_send: false,
                to_end_game_phase: false,
            }
        },
        EndGameState::Win2 => EndGameCue {
            dialogue_audio: false,
            item_audio: false,
            reset_send: false,
            to_end_game_phase: true,
        },
    }
}

} // verus!
