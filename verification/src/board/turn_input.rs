//! The TurnInput sub-state. On the narrator's turn the machine rolls at
//! once; on the player's turn it waits for input: Space rolls, F opens the
//! free camera, and the item hotkey — if the matching item is held — starts
//! the item animation. All of it is blocked while dialogue is busy.

use vstd::prelude::*;

use crate::board::{Board, BoardState};
use crate::dialogue::Dialogue;
use crate::item::Item;

verus! {

/// The per-tick input snapshot the board consumes.
#[derive(Copy, Clone, PartialEq, Eq, Structural, Debug)]
pub struct TurnInputKeys {
    pub space_just_pressed: bool,
    pub f_just_pressed: bool,
    pub r_just_pressed: bool,
    pub c_just_pressed: bool,
}

/// Which transition a turn-input tick takes, decided by the inputs alone.
pub open spec fn turn_input_next_spec(
    board: Board,
    dialogue_busy: bool,
    keys: TurnInputKeys,
) -> Option<BoardState> {
    if dialogue_busy {
        Option::None
    } else if board.my_turn {
        Option::Some(BoardState::Moving)
    } else if keys.space_just_pressed {
        Option::Some(BoardState::Moving)
    } else if keys.f_just_pressed {
        Option::Some(BoardState::FreeCam)
    } else if keys.r_just_pressed && board.your_item is Rapier {
        Option::Some(BoardState::UseItem)
    } else if keys.c_just_pressed && board.your_item is CrystalBall {
        Option::Some(BoardState::UseItem)
    } else {
        Option::None
    }
}

/// One tick of TurnInput.
pub fn turn_input_update(board: &Board, dialogue: &Dialogue, keys: TurnInputKeys) -> (next: Option<
    BoardState,
>)
    ensures
        next == turn_input_next_spec(*board, dialogue.spec_busy(), keys),
{
    if dialogue.busy() {
        return Option::None;
    }
    if board.my_turn {
        return Option::Some(BoardState::Moving);
    }
    if keys.space_just_pressed {
        Option::Some(BoardState::Moving)
    } else if keys.f_just_pressed {
        Option::Some(BoardState::FreeCam)
    } else if keys.r_just_pressed && matches!(board.your_item, Item::Rapier) {
        Option::Some(BoardState::UseItem)
    } else if keys.c_just_pressed && matches!(board.your_item, Item::CrystalBall) {
        Option::Some(BoardState::UseItem)
    } else {
        Option::None
    }
}

} // verus!
