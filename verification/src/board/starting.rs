//! The Starting sub-state: a camera pan over the board while the round's
//! opening dialogue drains. The first round gets the long tutorial speech;
//! later rounds get the rapier reminder once, if the player holds one.

use vstd::prelude::*;

use crate::board::{Board, BoardState};
use crate::dialogue::{Dialogue, DialogueCue, DialogueEntry};
use crate::game::Game;
use crate::item::Item;
use crate::ledger::Side;

verus! {

/// Entering Starting. Returns the dialogue cue of the enqueued speech.
pub fn starting_init(game: &Game, board: &mut Board, dialogue: &mut Dialogue) -> (cue: DialogueCue)
    ensures
        game.turn == 1 ==> final(dialogue).entries@.len() == old(dialogue).entries@.len() + 9
            && *final(board) == *old(board),
        game.turn != 1 && old(board).your_item is Rapier && old(board).rapier_dialog ==> final(dialogue).entries@.len() == old(dialogue).entries@.len() + 4 && *final(board) == (Board {
            rapier_dialog: false,
            ..*old(board)
        }),
        game.turn != 1 && !(old(board).your_item is Rapier && old(board).rapier_dialog) ==> final(dialogue).entries@ == old(dialogue).entries@ && *final(board) == *old(board),
{
    if game.turn == 1 {
        let mut batch: Vec<DialogueEntry> = Vec::new();
        batch.push(DialogueEntry::line("Welcome to my board game!".to_string()));
        batch.push(DialogueEntry::line("You roll the dice and move that many tiles!".to_string()));
        batch.push(DialogueEntry::line("If you land on a blue tile, you get 3 coins!".to_string()));
        batch.push(
            DialogueEntry::line("If you land on a red tile, you lose 3 coins!".to_string()),
        );
        batch.push(DialogueEntry::line("If you pass a green tile, you can buy items!".to_string()));
        batch.push(DialogueEntry::line("After your turn, we play a mini game!".to_string()));
        batch.push(DialogueEntry::line("The winner of the mini game gets more coins.".to_string()));
        batch.push(
            DialogueEntry::line("Huh? Mario? No, I don't know anyone by that name...".to_string()),
        );
        batch.push(DialogueEntry::line("Let's begin!!".to_string()));
        dialogue.add_all(batch)
    } else if matches!(board.your_item, Item::Rapier) && board.rapier_dialog {
        let mut batch: Vec<DialogueEntry> = Vec::new();
        batch.push(
            DialogueEntry::line("Remember: Whoever runs out of coins first loses!".to_string()),
        );
        batch.push(
            DialogueEntry::line(
                "I keep landing on blue, so I don't think I will run out...".to_string(),
            ),
        );
        batch.push(
            DialogueEntry::line("Unless of course you use that rapier to start a duel!".to_string()),
        );
        batch.push(
            DialogueEntry::line(
                "But remember, I'm not the only one that can lose coins that way!".to_string(),
            ),
        );
        board.rapier_dialog = false;
        dialogue.add_all(batch)
    } else {
        DialogueCue { play_audio: false }
    }
}

/// One tick of Starting: a drained balance ends the game at once;
/// otherwise the round proceeds to the turn banner as soon as the dialogue
/// is idle.
pub fn starting_update(game: &Game, dialogue: &Dialogue) -> (next: Option<BoardState>)
    ensures
        game.coins.spec_balance(Side::Mine) == 0 || game.coins.spec_balance(Side::Yours) == 0
            ==> next == Option::Some(BoardState::EndGame),
        game.coins.spec_balance(Side::Mine) != 0 && game.coins.spec_balance(Side::Yours) != 0
            ==> next == if dialogue.spec_busy() {
            Option::<BoardState>::None
        } else {
            Option::Some(BoardState::TurnIntro)
        },
{
    if game.coins.my_coins == 0 || game.coins.your_coins == 0 {
        return Option::Some(BoardState::EndGame);
    }
    if !dialogue.busy() {
        Option::Some(BoardState::TurnIntro)
    } else {
        Option::None
    }
}

} // verus!
