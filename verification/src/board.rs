//! The board phase: the per-turn state machine and its shared state. The
//! opponent ("my" side) moves first each round, then the player ("your"
//! side); landing applies the tile's coin effect, Green tiles open the shop
//! on the player's traversal, and a drained balance ends the game.

use vstd::prelude::*;

use crate::item::Item;
use crate::ledger::Side;

pub mod end_game;
pub mod ending;
pub mod free_cam;
pub mod moving;
pub mod pawn;
pub mod shop;
pub mod starting;
pub mod turn_input;
pub mod turn_intro;
pub mod use_item;

verus! {

/// The board's per-turn sub-state.
#[derive(Copy, Clone, PartialEq, Eq, Structural, Debug)]
pub enum BoardState {
    Inactive,
    Starting,
    TurnIntro,
    TurnInput,
    UseItem,
    Moving,
    FreeCam,
    Ending,
    EndGame,
}

/// Shared board-phase state. The item-use interpolates run in
/// milli-fractions (0 is idle, 1000 is fully raised).
#[derive(Copy, Clone, PartialEq, Eq, Structural, Debug)]
pub struct Board {
    pub my_turn: bool,
    pub score_overlay: bool,
    pub active_pawn: Side,
    pub moving: bool,
    pub shop: bool,
    pub first_shop: bool,
    pub moves: u32,
    pub my_item: Item,
    pub your_item: Item,
    pub rapier_dialog: bool,
    pub my_item_use_interpolate: u32,
    pub your_item_use_interpolate: u32,
}

impl Board {
    /// The starting board: the narrator holds the trump card, moves first,
    /// and still owes the player the rapier reminder.
    pub fn initial() -> (r: Board)
        ensures
            r == Board::spec_initial(),
    {
        Board {
            my_turn: true,
            score_overlay: false,
            active_pawn: Side::Mine,
            moving: false,
            shop: false,
            first_shop: true,
            moves: 3,
            my_item: Item::TrumpCard,
            your_item: Item::Empty,
            rapier_dialog: true,
            my_item_use_interpolate: 0,
            your_item_use_interpolate: 0,
        }
    }

    pub open spec fn spec_initial() -> Board {
        Board {
            my_turn: true,
            score_overlay: false,
            active_pawn: Side::Mine,
            moving: false,
            shop: false,
            first_shop: true,
            moves: 3,
            my_item: Item::TrumpCard,
            your_item: Item::Empty,
            rapier_dialog: true,
            my_item_use_interpolate: 0,
            your_item_use_interpolate: 0,
        }
    }

    /// Entering the board phase: the narrator's turn begins, the score
    /// overlay appears, and the turn machine starts.
    pub fn enter(&mut self) -> (next: BoardState)
        ensures
            *final(self) == (Board {
                my_turn: true,
                score_overlay: true,
                active_pawn: Side::Mine,
                ..*old(self)
            }),
            next == BoardState::Starting,
    {
        self.my_turn = true;
        self.score_overlay = true;
        self.active_pawn = Side::Mine;
        BoardState::Starting
    }

    /// Leaving the board phase hides the overlay and parks the machine.
    pub fn exit(&mut self) -> (next: BoardState)
        ensures
            *final(self) == (Board { score_overlay: false, ..*old(self) }),
            next == BoardState::Inactive,
    {
        self.score_overlay = false;
        BoardState::Inactive
    }

    /// A game reset restores the starting board.
    pub fn reset(&mut self)
        ensures
            *final(self) == Board::spec_initial(),
    {
        *self = Board::initial();
    }

    /// Drifts both item-use interpolates toward "held" (1000) or "idle"
    /// (0) by 25 milli-fractions per tick, as the score overlay does.
    pub fn interpolate_items(&mut self)
        ensures
            final(self).my_item_use_interpolate == drift_toward(
                old(self).my_item_use_interpolate,
                old(self).my_item.spec_is_held(),
            ),
            final(self).your_item_use_interpolate == drift_toward(
                old(self).your_item_use_interpolate,
                old(self).your_item.spec_is_held(),
            ),
            *final(self) == (Board {
                my_item_use_interpolate: final(self).my_item_use_interpolate,
                your_item_use_interpolate: final(self).your_item_use_interpolate,
                ..*old(self)
            }),
    {
        self.my_item_use_interpolate = drift_step(
            self.my_item_use_interpolate,
            self.my_item.is_held(),
        );
        self.your_item_use_interpolate = drift_step(
            self.your_item_use_interpolate,
            self.your_item.is_held(),
        );
    }
}

/// One 25-milli step of the indicator drift, clamped to `[0, 1000]`.
pub open spec fn drift_toward(v: u32, held: bool) -> u32 {
    if held {
        if v + 25 >= 1000 {
            1000u32
        } else {
            (v + 25) as u32
        }
    } else {
        if v <= 25 {
            0u32
        } else {
            (v - 25) as u32
        }
    }
}

fn drift_step(v: u32, held: bool) -> (r: u32)
    ensures
        r == drift_toward(v, held),
{
    if held {
        if v >= 975 {
            1000
        } else {
            v + 25
        }
    } else {
        if v <= 25 {
            0
        } else {
            v - 25
        }
    }
}


/// How many of its states `s` is in at once.
pub open spec fn spec_active_count(s: BoardState) -> int {
    (if s is Inactive {
        1int
    } else {
        0int
    }) + (if s is Starting {
        1int
    } else {
        0int
    }) + (if s is TurnIntro {
        1int
    } else {
        0int
    }) + (if s is TurnInput {
        1int
    } else {
        0int
    }) + (if s is UseItem {
        1int
    } else {
        0int
    }) + (if s is Moving {
        1int
    } else {
        0int
    }) + (if s is FreeCam {
        1int
    } else {
        0int
    }) + (if s is Ending {
        1int
    } else {
        0int
    }) + (if s is EndGame {
        1int
    } else {
        0int
    })
}

/// Exactly one board sub state is active in any state of the machine.
pub proof fn lemma_one_board_sub_state_active(s: BoardState)
    ensures
        spec_active_count(s) == 1,
{
}

} // verus!
