//! The Intro: a scripted exchange in which the narrator rolls a ten, the
//! player rolls a three, and the narrator goes first. Each step waits for
//! the dialogue to drain and any dice roll to settle.

use vstd::prelude::*;

use crate::dialogue::{Dialogue, DialogueEntry};
use crate::game::{Game, GameState};

verus! {

/// The intro's script position.
#[derive(Copy, Clone, PartialEq, Eq, Structural, Debug)]
pub enum IntroState {
    Dialogue1,
    DiceRoll1,
    Dialogue2,
    DiceRoll2,
    Dialogue3,
    End,
}

/// What an intro step asks of the host.
#[derive(Copy, Clone, PartialEq, Eq, Structural, Debug)]
pub struct IntroCue {
    /// Start a dice roll settling on this value (`DiceRollStart`).
    pub dice_start: Option<u32>,
    /// Take the die off screen (`DiceRollHide`).
    pub dice_hide: bool,
    /// Move the session to this phase.
    pub next_session: Option<GameState>,
}

/// The script position each step hands over to, when it can run.
pub open spec fn spec_intro_next(s: IntroState) -> IntroState {
    match s {
        IntroState::Dialogue1 => IntroState::DiceRoll1,
        IntroState::DiceRoll1 => IntroState::Dialogue2,
        IntroState::Dialogue2 => IntroState::DiceRoll2,
        IntroState::DiceRoll2 => IntroState::Dialogue3,
        IntroState::Dialogue3 => IntroState::End,
        IntroState::End => IntroState::End,
    }
}

/// The dialogue lines each script position queues.
pub open spec fn spec_intro_lines(s: IntroState) -> int {
    match s {
        IntroState::Dialogue1 => 7,
        IntroState::Dialogue2 => 2,
        IntroState::Dialogue3 => 2,
        _ => 0,
    }
}

/// Entering the intro rewinds the script.
pub fn intro_enter(intro: &mut IntroState)
    ensures
        *final(intro) is Dialogue1,
{
    *intro = IntroState::Dialogue1;
}

/// One intro step: blocked while dialogue is busy or a die rolls;
/// otherwise the script advances — its speech stages queue their lines,
/// its dice stages roll a scripted ten and three, and its end hides the
/// die and opens the board.
pub fn intro_update(game: &mut Game, intro: &mut IntroState, dialogue: &mut Dialogue) -> (cue:
    IntroCue)
    ensures
        ({
            let blocked = old(dialogue).spec_busy() || old(game).dice_roll;
            &&& blocked ==> *final(intro) == *old(intro) && *final(game) == *old(game) && final(dialogue).entries@ == old(dialogue).entries@ && cue.dice_start is None && !cue.dice_hide
                && cue.next_session is None
            &&& !blocked ==> {
                &&& *final(intro) == spec_intro_next(*old(intro))
                &&& final(dialogue).entries@.len() == old(dialogue).entries@.len()
                    + spec_intro_lines(*old(intro))
                &&& cue.dice_start == (match *old(intro) {
                    IntroState::DiceRoll1 => Option::Some(10u32),
                    IntroState::DiceRoll2 => Option::Some(3u32),
                    _ => Option::<u32>::None,
                })
                &&& final(game).dice_roll == (old(game).dice_roll || cue.dice_start is Some)
                &&& cue.dice_hide == (*old(intro) is End)
                &&& cue.next_session == if *old(intro) is End {
                    Option::Some(GameState::Board)
                } else {
                    Option::<GameState>::None
                }
            }
        }),
{
    let mut cue = IntroCue { dice_start: Option::None, dice_hide: false, next_session: Option::None };
    if dialogue.busy() || game.dice_roll {
        return cue;
    }
    match *intro {
        IntroState::Dialogue1 => {
            let mut batch: Vec<DialogueEntry> = Vec::new();
            batch.push(DialogueEntry::line("Hi! Welcome!".to_string()));
            batch.push(DialogueEntry::line("Are you here to play my game!?".to_string()));
            batch.push(DialogueEntry::line("No one has beaten it yet...".to_string()));
            batch.push(DialogueEntry::line("They all quit on me...".to_string()));
            batch.push(DialogueEntry::line("Will you be the first to beat my game?".to_string()));
            batch.push(DialogueEntry::line("Oh!! Great!!".to_string()));
            batch.push(
                DialogueEntry::line(
                    "We start by rolling a die to see who goes first.".to_string(),
                ),
            );
            dialogue.add_all(batch);
            *intro = IntroState::DiceRoll1;
        },
        IntroState::DiceRoll1 => {
            cue.dice_start = Option::Some(10);
            game.dice_roll = true;
            *intro = IntroState::Dialogue2;
        },
        IntroState::Dialogue2 => {
            let mut batch: Vec<DialogueEntry> = Vec::new();
            batch.push(
                DialogueEntry::line("Oh, I rolled a 10. I guess I will go first!".to_string()),
            );
            batch.push(
                DialogueEntry::line("Oh.. right.. you can roll too if you want.".to_string()),
            );
            dialogue.add_all(batch);
            *intro = IntroState::DiceRoll2;
        },
        IntroState::DiceRoll2 => {
            cue.dice_start = Option::Some(3);
            game.dice_roll = true;
            *intro = IntroState::Dialogue3;
        },
        IntroState::Dialogue3 => {
            let mut batch: Vec<DialogueEntry> = Vec::new();
            batch.push(DialogueEntry::line("Too bad.".to_string()));
            batch.push(DialogueEntry::line("Anyway, let's start!".to_string()));
            dialogue.add_all(batch);
            *intro = IntroState::End;
        },
        IntroState::End => {
            cue.dice_hide = true;
            cue.next_session = Option::Some(GameState::Board);
        },
    }
    cue
}

} // verus!
