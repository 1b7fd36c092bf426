//! The shop: opened when the player's pawn crosses a Green tile. The first
//! visit plays a tutorial speech; later visits with a full item slot are
//! refused outright. While open, the player may leave, or buy the rapier —
//! which succeeds only with strictly more than `RAPIER_COST + 3` coins, so
//! a buyer can never be left unable to survive the red tile ahead.

use vstd::prelude::*;

use crate::board::Board;
use crate::dialogue::{Dialogue, DialogueEntry};
use crate::item::{Item, RAPIER_COST};
use crate::ledger::{CoinLedger, Side, sat_sub};

verus! {

/// What a shop step asks of the host.
pub struct ShopCue {
    /// Play the "itembuy" sound.
    pub buy_audio: bool,
    /// Play the "dialogue" sound.
    pub dialogue_audio: bool,
}

/// How a buy attempt resolved.
#[derive(Copy, Clone, PartialEq, Eq, Structural, Debug)]
pub enum ShopOutcome {
    /// Nothing happened this tick.
    Idle,
    /// The player left the shop.
    Left,
    /// The rapier was bought: coins debited, slot filled.
    Bought,
    /// Refused: buying would leave too few coins to survive.
    RefusedWouldLose,
    /// Refused: the player cannot afford the rapier at all.
    RefusedTooPoor,
    /// The shop closed because the player already holds an item.
    ClosedSlotFull,
}

/// Handles the `ShopOpen` event: the first visit enqueues the six-line
/// tour; a later visit with an occupied slot enqueues the refusal line.
pub fn shop_open(board: &mut Board, dialogue: &mut Dialogue) -> (cue: ShopCue)
    ensures
        final(board).first_shop == false,
        *final(board) == (Board { first_shop: false, ..*old(board) }),
        old(board).first_shop ==> final(dialogue).entries@.len() == old(dialogue).entries@.len()
            + 6,
        !old(board).first_shop && old(board).your_item.spec_is_held()
            ==> final(dialogue).entries@.len() == old(dialogue).entries@.len() + 1,
        !old(board).first_shop && !old(board).your_item.spec_is_held()
            ==> final(dialogue).entries@ == old(dialogue).entries@,
{
    let mut cue = ShopCue { buy_audio: false, dialogue_audio: false };
    if board.first_shop {
        let mut batch: Vec<DialogueEntry> = Vec::new();
        batch.push(DialogueEntry::line("You made it to the shop!".to_string()));
        batch.push(
            DialogueEntry::line(
                "Here you can buy a rapier, which can be used to start a duel!".to_string(),
            ),
        );
        batch.push(
            DialogueEntry::line(
                "During a duel, you can steal coins from your opponent.".to_string(),
            ),
        );
        batch.push(DialogueEntry::line("You can use items at the start of your turn.".to_string()));
        batch.push(
            DialogueEntry::line(
                "There is an indicator next to your coins when you have an item.".to_string(),
            ),
        );
        batch.push(DialogueEntry::line("As you can see, I'm already holding an item!".to_string()));
        let dcue = dialogue.add_all(batch);
        cue.dialogue_audio = dcue.play_audio;
        board.first_shop = false;
    } else if board.your_item.is_held() {
        let dcue = dialogue.add(DialogueEntry::line("You already have an item!".to_string()));
        cue.dialogue_audio = dcue.play_audio;
    }
    cue
}

/// One input step of the open shop. Blocked while dialogue is busy. With a
/// full item slot the shop just closes. Space leaves. R buys the rapier:
/// success needs strictly more than `RAPIER_COST + 3` coins and debits
/// `RAPIER_COST`; between `RAPIER_COST` and `RAPIER_COST + 3` coins the
/// shop warns that buying would lose the game; below `RAPIER_COST` it is
/// plainly unaffordable.
pub fn shop_update(
    board: &mut Board,
    ledger: &mut CoinLedger,
    dialogue: &mut Dialogue,
    space_just_pressed: bool,
    r_just_pressed: bool,
) -> (r: (ShopOutcome, ShopCue))
    requires
        old(board).shop,
    ensures
        shop_outcome_spec(
            *old(board),
            *old(ledger),
            old(dialogue).spec_busy(),
            space_just_pressed,
            r_just_pressed,
            r.0,
        ),
        shop_effect_spec(*old(board), *old(ledger), *final(board), *final(ledger), r.0),
        r.1.buy_audio == (r.0 is Bought),
        final(dialogue).entries@.len() == old(dialogue).entries@.len() + spec_shop_lines(r.0),
        r.0 is Bought ==> final(dialogue).entries@[old(dialogue).entries@.len() as int].text@
            == "You bought a rapier!"@,
{
    if dialogue.busy() {
        return (ShopOutcome::Idle, ShopCue { buy_audio: false, dialogue_audio: false });
    }
    if board.your_item.is_held() {
        board.shop = false;
        return (ShopOutcome::ClosedSlotFull, ShopCue { buy_audio: false, dialogue_audio: false });
    }
    if space_just_pressed {
        board.shop = false;
        return (ShopOutcome::Left, ShopCue { buy_audio: false, dialogue_audio: false });
    }
    if r_just_pressed {
        if ledger.your_coins > RAPIER_COST + 3 {
            board.your_item = Item::Rapier;
            board.your_item_use_interpolate = 0;
            board.shop = false;
            ledger.sub(Side::Yours, RAPIER_COST);
            let dcue = dialogue.add(DialogueEntry::line("You bought a rapier!".to_string()));
            return (
                ShopOutcome::Bought,
                ShopCue { buy_audio: true, dialogue_audio: dcue.play_audio },
            );
        } else if ledger.your_coins >= RAPIER_COST {
            let mut batch: Vec<DialogueEntry> = Vec::new();
            batch.push(
                DialogueEntry::line("Sorry, but you're about to land on a red tile!".to_string()),
            );
            batch.push(
                DialogueEntry::line("If you buy this now, you will lose the game!".to_string()),
            );
            let dcue = dialogue.add_all(batch);
            return (
                ShopOutcome::RefusedWouldLose,
                ShopCue { buy_audio: false, dialogue_audio: dcue.play_audio },
            );
        } else {
            let dcue = dialogue.add(DialogueEntry::line("Sorry! You can't afford it!".to_string()));
            return (
                ShopOutcome::RefusedTooPoor,
                ShopCue { buy_audio: false, dialogue_audio: dcue.play_audio },
            );
        }
    }
    (ShopOutcome::Idle, ShopCue { buy_audio: false, dialogue_audio: false })
}

/// Which outcome the shop reports, decided entirely by its inputs.
pub open spec fn shop_outcome_spec(
    b: Board,
    l: CoinLedger,
    dialogue_busy: bool,
    space: bool,
    r_key: bool,
    outcome: ShopOutcome,
) -> bool {
    if dialogue_busy {
        outcome is Idle
    } else if b.your_item.spec_is_held() {
        outcome is ClosedSlotFull
    } else if space {
        outcome is Left
    } else if r_key {
        if l.your_coins > RAPIER_COST + 3 {
            outcome is Bought
        } else if l.your_coins >= RAPIER_COST {
            outcome is RefusedWouldLose
        } else {
            outcome is RefusedTooPoor
        }
    } else {
        outcome is Idle
    }
}

/// What each outcome does to the board and the ledger.
pub open spec fn shop_effect_spec(
    b0: Board,
    l0: CoinLedger,
    b1: Board,
    l1: CoinLedger,
    outcome: ShopOutcome,
) -> bool {
    match outcome {
        ShopOutcome::Idle => b1 == b0 && l1 == l0,
        ShopOutcome::Left => b1 == (Board { shop: false, ..b0 }) && l1 == l0,
        ShopOutcome::ClosedSlotFull => b1 == (Board { shop: false, ..b0 }) && l1 == l0,
        ShopOutcome::Bought => {
            &&& b1 == (Board {
                shop: false,
                your_item: Item::Rapier,
                your_item_use_interpolate: 0u32,
                ..b0
            })
            &&& l1.your_coins == sat_sub(l0.your_coins, RAPIER_COST)
            &&& l1.my_coins == l0.my_coins
        },
        ShopOutcome::RefusedWouldLose => b1 == b0 && l1 == l0,
        ShopOutcome::RefusedTooPoor => b1 == b0 && l1 == l0,
    }
}

/// How many dialogue lines each outcome enqueues.
pub open spec fn spec_shop_lines(outcome: ShopOutcome) -> int {
    match outcome {
        ShopOutcome::Bought => 1,
        ShopOutcome::RefusedWouldLose => 2,
        ShopOutcome::RefusedTooPoor => 1,
        _ => 0,
    }
}

/// The purchase boundary: with exactly `RAPIER_COST` coins (or up to three
/// more) the shop refuses with a warning; with `RAPIER_COST + 4` or more it
/// sells.
pub proof fn lemma_rapier_purchase_boundary(l: CoinLedger, b: Board, outcome: ShopOutcome)
    requires
        !b.your_item.spec_is_held(),
        shop_outcome_spec(b, l, false, false, true, outcome),
    ensures
        l.your_coins == RAPIER_COST ==> outcome is RefusedWouldLose,
        l.your_coins >= RAPIER_COST + 4 ==> outcome is Bought,
        l.your_coins < RAPIER_COST ==> outcome is RefusedTooPoor,
{
}

} // verus!
