//! The UseItem sub-state: announces the item, arms the duel when a rapier
//! is used, ramps the item animation to full over a second, and — once the
//! dialogue is idle and the ramp complete — consumes the item and returns
//! to input.

use vstd::prelude::*;

use crate::board::{Board, BoardState};
use crate::dialogue::{Dialogue, DialogueCue, DialogueEntry};
use crate::game::Game;
use crate::item::Item;

verus! {

/// The item being shown off while the sub-state runs.
pub struct UseItem {
    pub item: Item,
}

/// Entering UseItem: remembers the player's item and announces it; a
/// rapier arms the duel for this round's minigame.
pub fn use_item_init(
    game: &mut Game,
    board: &Board,
    use_item: &mut UseItem,
    dialogue: &mut Dialogue,
) -> (cue: DialogueCue)
    ensures
        final(use_item).item == board.your_item,
        board.your_item is Rapier ==> *final(game) == (Game { duel: true, ..*old(game) }) && final(dialogue).entries@.len() == old(dialogue).entries@.len() + 2,
        board.your_item is CrystalBall ==> *final(game) == *old(game) && final(dialogue).entries@.len() == old(dialogue).entries@.len() + 1,
        !(board.your_item is Rapier) && !(board.your_item is CrystalBall) ==> *final(game) == *old(game) && final(dialogue).entries@ == old(dialogue).entries@,
{
    use_item.item = board.your_item;
    if matches!(use_item.item, Item::CrystalBall) {
        dialogue.add(DialogueEntry::line("You used the crystal ball!".to_string()))
    } else if matches!(use_item.item, Item::Rapier) {
        game.duel = true;
        let mut batch: Vec<DialogueEntry> = Vec::new();
        batch.push(DialogueEntry::line("You used the rapier!".to_string()));
        batch.push(DialogueEntry::line("The mini game will now be a duel.".to_string()));
        dialogue.add_all(batch)
    } else {
        DialogueCue { play_audio: false }
    }
}

/// Leaving UseItem consumes the player's item and rests the indicator.
pub fn use_item_cleanup(board: &mut Board, use_item: &mut UseItem)
    ensures
        *final(board) == (Board {
            my_item_use_interpolate: 0u32,
            your_item: Item::Empty,
            ..*old(board)
        }),
        final(use_item).item is Empty,
{
    board.my_item_use_interpolate = 0;
    board.your_item = Item::Empty;
    use_item.item = Item::Empty;
}

/// One tick of UseItem: the animation interpolate ramps toward full; with
/// dialogue idle and the ramp complete, input resumes.
pub fn use_item_update(board: &mut Board, dialogue: &Dialogue, dt_ms: u32) -> (next: Option<
    BoardState,
>)
    requires
        old(board).your_item_use_interpolate <= 1000,
        dt_ms <= 100_000,
    ensures
        *final(board) == (Board {
            your_item_use_interpolate: final(board).your_item_use_interpolate,
            ..*old(board)
        }),
        final(board).your_item_use_interpolate == crate::num::spec_clamp_u32(
            (old(board).your_item_use_interpolate + dt_ms) as u32,
            0,
            1000,
        ),
        next == if !dialogue.spec_busy() && final(board).your_item_use_interpolate == 1000 {
            Option::Some(BoardState::TurnInput)
        } else {
            Option::<BoardState>::None
        },
{
    let advanced = board.your_item_use_interpolate + dt_ms;
    board.your_item_use_interpolate = if advanced >= 1000 {
        1000
    } else {
        advanced
    };
    if !dialogue.busy() && board.your_item_use_interpolate == 1000 {
        Option::Some(BoardState::TurnInput)
    } else {
        Option::None
    }
}

} // verus!
