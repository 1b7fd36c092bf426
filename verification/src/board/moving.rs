//! The Moving sub-state: rolls the die and, once the pawn has landed and
//! the dialogue drained, applies the landed tile's coin effect to the
//! acting side. The narrator's roll is scripted (5 on the first round,
//! then alternating 4 and 5); the player rolls a fixed 6 on Normal and 3
//! or 6 on Hard. After the narrator's move the player moves; after the
//! player's move the turn ends.

use vstd::prelude::*;

use crate::board::{Board, BoardState};
use crate::dialogue::{Dialogue, DialogueEntry};
use crate::game::{Difficulty, Game};
use crate::ledger::{sat_add, sat_sub, Side};
use crate::tile::TileType;

verus! {

/// Whether the opening dialogue for this movement was already sent.
pub struct Moving {
    pub sent_dialogue: bool,
}

/// The number of tiles the acting side rolls this round. The player's
/// Hard-mode die is decided by `hard_draw`, a uniform draw in 1..=2.
pub open spec fn spec_roll(
    my_turn: bool,
    turn: u32,
    difficulty: Difficulty,
    hard_draw: u32,
) -> u32 {
    if my_turn {
        if turn == 1 {
            5u32
        } else if turn % 2 == 1 {
            4u32
        } else {
            5u32
        }
    } else {
        match difficulty {
            Difficulty::Normal => 6u32,
            Difficulty::Hard => (hard_draw * 3) as u32,
        }
    }
}

/// Entering Moving: starts the movement and the dice roll.
/// Returns the value to show on the die (`DiceRollStart`).
pub fn moving_init(
    game: &Game,
    board: &mut Board,
    moving: &mut Moving,
    difficulty: Difficulty,
    hard_draw: u32,
) -> (roll: u32)
    requires
        1 <= hard_draw <= 2,
    ensures
        roll == spec_roll(old(board).my_turn, game.turn, difficulty, hard_draw),
        !final(moving).sent_dialogue,
        *final(board) == (Board { moving: true, moves: roll, ..*old(board) }),
{
    moving.sent_dialogue = false;
    board.moving = true;
    if board.my_turn {
        if game.turn == 1 {
            board.moves = 5;
        } else if game.turn % 2 == 1 {
            board.moves = 4;
        } else {
            board.moves = 5;
        }
    } else {
        match difficulty {
            Difficulty::Normal => {
                board.moves = 6;
            },
            Difficulty::Hard => {
                board.moves = hard_draw * 3;
            },
        }
    }
    board.moves
}

/// The number of taunt lines the narrator queues when the player's early
/// rounds land on red.
pub open spec fn spec_taunt_lines(turn: u32) -> int {
    if turn == 1 {
        2
    } else if turn == 2 {
        1
    } else if turn == 3 {
        2
    } else {
        0
    }
}

/// The acting side's balance after landing on a tile of the given colour.
pub open spec fn spec_coins_after(coins: u32, color: TileType, difficulty: Difficulty) -> u32 {
    let amount: u32 = if difficulty is Normal {
        1u32
    } else {
        3u32
    };
    match color {
        TileType::Blue => sat_add(coins, amount),
        TileType::Red => sat_sub(coins, amount),
        TileType::Green => coins,
    }
}

/// Whether a Moving tick settles the landed tile, decided by the states
/// before the tick: the pawn has stopped, the dialogue queue is empty, and
/// no taunt lines enqueue this very tick — on the tick they do, the
/// dialogue turns busy and the settlement waits, so the narrator's early
/// red landings settle one tick after the taunts were sent.
pub open spec fn spec_moving_settles(b0: Board, m0: Moving, d0: Dialogue, turn: u32) -> bool {
    &&& !b0.moving
    &&& !d0.spec_busy()
    &&& (b0.my_turn || m0.sent_dialogue || spec_taunt_lines(turn) == 0)
}

/// What the settlement tick does: the acting side's balance takes the
/// landed tile's effect, the other side's stands, and the board moves on —
/// to the player's turn after the narrator's, to Ending after the
/// player's.
pub open spec fn spec_moving_settlement(
    g0: Game,
    b0: Board,
    g1: Game,
    b1: Board,
    landed_color: TileType,
    difficulty: Difficulty,
    next: Option<BoardState>,
) -> bool {
    &&& b0.my_turn ==> {
        &&& g1.coins.my_coins == spec_coins_after(g0.coins.my_coins, landed_color, difficulty)
        &&& g1.coins.your_coins == g0.coins.your_coins
        &&& b1 == (Board { my_turn: false, ..b0 })
        &&& next == Option::Some(BoardState::TurnIntro)
    }
    &&& !b0.my_turn ==> {
        &&& g1.coins.your_coins == spec_coins_after(g0.coins.your_coins, landed_color, difficulty)
        &&& g1.coins.my_coins == g0.coins.my_coins
        &&& b1 == b0
        &&& next == Option::Some(BoardState::Ending)
    }
}

/// One tick of Moving after the pawn mover has run. `landed_color` is the
/// settled colour of the acting side's pawn. While the pawn still moves,
/// or dialogue is busy — the taunts enqueued this tick included — nothing
/// settles. On the narrator's turn the narrator's balance settles and the
/// player's banner follows; on the player's turn the player's balance
/// settles and the turn ends.
pub fn moving_update(
    game: &mut Game,
    board: &mut Board,
    moving: &mut Moving,
    dialogue: &mut Dialogue,
    landed_color: TileType,
    difficulty: Difficulty,
) -> (next: Option<BoardState>)
    ensures
        old(board).moving ==> next is None && *final(game) == *old(game) && *final(board) == *old(board) && final(dialogue).entries@ == old(dialogue).entries@,
        !spec_moving_settles(*old(board), *old(moving), *old(dialogue), old(game).turn) ==> next
            is None && *final(game) == *old(game) && *final(board) == *old(board),
        spec_moving_settles(*old(board), *old(moving), *old(dialogue), old(game).turn)
            ==> spec_moving_settlement(
            *old(game),
            *old(board),
            *final(game),
            *final(board),
            landed_color,
            difficulty,
            next,
        ),
        *final(game) == (Game { coins: final(game).coins, ..*old(game) }),
        final(moving).sent_dialogue == (old(moving).sent_dialogue || (!old(board).moving
            && !old(board).my_turn)),
        ({
            let taunts = !old(board).moving && !old(moving).sent_dialogue && !old(board).my_turn;
            &&& taunts ==> final(dialogue).entries@.len() == old(dialogue).entries@.len()
                + spec_taunt_lines(old(game).turn)
            &&& !taunts ==> final(dialogue).entries@ == old(dialogue).entries@
        }),
{
    if !board.moving && !moving.sent_dialogue && !board.my_turn {
        // The player's scripted early-round landings are all red; the
        // narrator rubs it in.
        if game.turn == 1 {
            let mut batch: Vec<DialogueEntry> = Vec::new();
            if matches!(difficulty, Difficulty::Normal) {
                batch.push(
                    DialogueEntry::line("Oh, bad luck landing on red. You lost a coin!".to_string()),
                );
            } else {
                batch.push(
                    DialogueEntry::line("Oh, bad luck landing on red. You lose 3 coins!".to_string()),
                );
            }
            batch.push(
                DialogueEntry::line("If you run out of coins, you lose the game!".to_string()),
            );
            dialogue.add_all(batch);
        } else if game.turn == 2 {
            dialogue.add(DialogueEntry::line("Another red! Too Bad!".to_string()));
        } else if game.turn == 3 {
            let mut batch: Vec<DialogueEntry> = Vec::new();
            batch.push(DialogueEntry::line("Red again?".to_string()));
            batch.push(DialogueEntry::line("It's almost like the game is rigged...!".to_string()));
            dialogue.add_all(batch);
        }
        moving.sent_dialogue = true;
    }
    if !board.moving && !dialogue.busy() {
        let amount: u32 = if matches!(difficulty, Difficulty::Normal) {
            1
        } else {
            3
        };
        let side = if board.my_turn {
            Side::Mine
        } else {
            Side::Yours
        };
        match landed_color {
            TileType::Blue => game.coins.add(side, amount),
            TileType::Red => game.coins.sub(side, amount),
            TileType::Green => (),
        }
        if board.my_turn {
            board.my_turn = false;
            Option::Some(BoardState::TurnIntro)
        } else {
            Option::Some(BoardState::Ending)
        }
    } else {
        Option::None
    }
}

/// On the narrator's turn, a settling Hard-mode red landing costs the
/// player exactly three coins, saturating at zero, leaves the narrator's
/// balance alone, and hands the board to Ending. It settles on any tick
/// where the pawn has stopped, the dialogue is idle and no taunt lines are
/// owed — so past the third round, or once the taunts were already sent;
/// on the very tick a taunt enqueues, the dialogue turns busy and the
/// settlement waits for the next idle tick.
pub proof fn lemma_hard_red_settlement(
    g0: Game,
    b0: Board,
    m0: Moving,
    d0: Dialogue,
    g1: Game,
    b1: Board,
    next: Option<BoardState>,
)
    requires
        !b0.my_turn,
        !b0.moving,
        !d0.spec_busy(),
        m0.sent_dialogue || spec_taunt_lines(g0.turn) == 0,
        spec_moving_settlement(g0, b0, g1, b1, TileType::Red, Difficulty::Hard, next),
    ensures
        spec_moving_settles(b0, m0, d0, g0.turn),
        g1.coins.your_coins == sat_sub(g0.coins.your_coins, 3),
        g1.coins.my_coins == g0.coins.my_coins,
        b1 == b0,
        next == Option::Some(BoardState::Ending),
{
}

} // verus!
