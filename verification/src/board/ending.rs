//! The Ending sub-state: a short post-turn beat. The first round
//! introduces the minigames; a drained balance diverts to the board's
//! end-game; otherwise the session moves on to the info screen.

use vstd::prelude::*;

use crate::animation::Animation;
use crate::board::BoardState;
use crate::dialogue::{Dialogue, DialogueCue, DialogueEntry};
use crate::game::Game;
use crate::ledger::Side;

verus! {

pub struct Ending {
    pub animation: Option<Animation>,
}

/// Where an Ending tick sends the machine.
#[derive(Copy, Clone, PartialEq, Eq, Structural, Debug)]
pub enum EndingNext {
    Stay,
    /// A balance hit zero: the board's end-game runs.
    ToEndGame,
    /// The beat finished: the session shows the info screen.
    ToInfoScreen,
}

/// Entering Ending: starts the half-second beat; the first round also
/// queues the minigame introduction.
pub fn ending_init(game: &Game, ending: &mut Ending, dialogue: &mut Dialogue) -> (cue: DialogueCue)
    ensures
        final(ending).animation matches Option::Some(a) && a.time_ms == 500 && !a.finished,
        game.turn == 1 ==> final(dialogue).entries@.len() == old(dialogue).entries@.len() + 3,
        game.turn != 1 ==> final(dialogue).entries@ == old(dialogue).entries@,
{
    ending.animation = Option::Some(Animation::stub());
    if game.turn == 1 {
        let mut batch: Vec<DialogueEntry> = Vec::new();
        batch.push(DialogueEntry::line("Now we play a mini game!".to_string()));
        batch.push(DialogueEntry::line("You can practice as many times as you like!".to_string()));
        batch.push(DialogueEntry::line("You'll need it.".to_string()));
        dialogue.add_all(batch)
    } else {
        DialogueCue { play_audio: false }
    }
}

/// Leaving Ending clears the beat timer.
pub fn ending_cleanup(ending: &mut Ending)
    ensures
        final(ending).animation is None,
{
    ending.animation = Option::None;
}

/// One tick of Ending: blocked by dialogue; a drained balance ends the
/// game; otherwise the lapsed beat hands over to the info screen.
pub fn ending_update(game: &Game, ending: &mut Ending, dialogue: &Dialogue, dt_ms: u32) -> (next:
    EndingNext)
    ensures
        dialogue.spec_busy() ==> next is Stay && *final(ending) == *old(ending),
        !dialogue.spec_busy() && (game.coins.spec_balance(Side::Mine) == 0
            || game.coins.spec_balance(Side::Yours) == 0) ==> next is ToEndGame && *final(ending)
            == *old(ending),
        !dialogue.spec_busy() && game.coins.spec_balance(Side::Mine) != 0
            && game.coins.spec_balance(Side::Yours) != 0 ==> next == (
        match old(ending).animation {
            Option::Some(a) => if !a.finished && crate::ledger::sat_sub(a.time_ms, dt_ms) == 0 {
                EndingNext::ToInfoScreen
            } else {
                EndingNext::Stay
            },
            Option::None => EndingNext::Stay,
        }),
{
    if dialogue.busy() {
        return EndingNext::Stay;
    }
    if game.coins.my_coins == 0 || game.coins.your_coins == 0 {
        return EndingNext::ToEndGame;
    }
    match &mut ending.animation {
        Option::Some(animation) => {
            animation.update(dt_ms);
            if animation.finished() {
                EndingNext::ToInfoScreen
            } else {
                EndingNext::Stay
            }
        },
        Option::None => EndingNext::Stay,
    }
}

} // verus!
