//! The session ending, reached when the narrator's hearts run out: a
//! closing speech in white, after which the game resets itself.

use vstd::prelude::*;

use crate::dialogue::{white_color, Dialogue, DialogueCue, DialogueEntry};
use crate::game::Game;

verus! {

/// Entering the ending queues the closing speech.
pub fn ending_enter(dialogue: &mut Dialogue) -> (cue: DialogueCue)
    ensures
        final(dialogue).entries@.len() == old(dialogue).entries@.len() + 3,
{
    let mut batch: Vec<DialogueEntry> = Vec::new();
    batch.push(
        DialogueEntry { text: "Thank you for playing.".to_string(), color: white_color() },
    );
    batch.push(
        DialogueEntry {
            text: "That was everything I had. You have truly won.".to_string(),
            color: white_color(),
        },
    );
    batch.push(
        DialogueEntry {
            text: "If you want a harder fight, press 1 at the color select screen.".to_string(),
            color: white_color(),
        },
    );
    dialogue.add_all(batch)
}

/// One tick of the ending: once the speech drains and no die rolls, the
/// game resets.
pub fn ending_update(game: &Game, dialogue: &Dialogue) -> (reset_send: bool)
    ensures
        reset_send == (!dialogue.spec_busy() && !game.dice_roll),
{
    !(dialogue.busy() || game.dice_roll)
}

} // verus!
