//! The Setup screen: the player picks a colour, which also fixes the
//! difficulty — the three advertised colours play Normal; the hidden
//! number key plays Hard.

use vstd::prelude::*;

use crate::dialogue::Rgba;
use crate::game::{Difficulty, Game, GameState};

verus! {

/// The setup keys read each tick.
#[derive(Copy, Clone, PartialEq, Eq, Structural, Debug)]
pub struct SetupKeys {
    pub y_just_pressed: bool,
    pub b_just_pressed: bool,
    pub o_just_pressed: bool,
    pub key1_just_pressed: bool,
}

/// What a setup pick decides.
pub open spec fn setup_pick_spec(keys: SetupKeys) -> Option<(Rgba, Difficulty)> {
    if keys.y_just_pressed {
        Option::Some((Rgba { r: 255u8, g: 255u8, b: 0u8, a: 255u8 }, Difficulty::Normal))
    } else if keys.b_just_pressed {
        Option::Some((Rgba { r: 0u8, g: 255u8, b: 255u8, a: 255u8 }, Difficulty::Normal))
    } else if keys.o_just_pressed {
        Option::Some((Rgba { r: 255u8, g: 165u8, b: 0u8, a: 255u8 }, Difficulty::Normal))
    } else if keys.key1_just_pressed {
        Option::Some((Rgba { r: 255u8, g: 69u8, b: 0u8, a: 255u8 }, Difficulty::Hard))
    } else {
        Option::None
    }
}

/// One tick of Setup: the first colour key pressed tints the player,
/// fixes the difficulty and moves the session to the intro.
pub fn setup_update(game: &mut Game, difficulty: &mut Difficulty, keys: SetupKeys) -> (next: Option<
    GameState,
>)
    ensures
        match setup_pick_spec(keys) {
            Option::Some(pick) => {
                &&& *final(game) == (Game { your_color: pick.0, ..*old(game) })
                &&& *final(difficulty) == pick.1
                &&& next == Option::Some(GameState::Intro)
            },
            Option::None => {
                &&& *final(game) == *old(game)
                &&& *final(difficulty) == *old(difficulty)
                &&& next is None
            },
        },
{
    if keys.y_just_pressed {
        game.your_color = Rgba { r: 255, g: 255, b: 0, a: 255 };
        *difficulty = Difficulty::Normal;
        Option::Some(GameState::Intro)
    } else if keys.b_just_pressed {
        game.your_color = Rgba { r: 0, g: 255, b: 255, a: 255 };
        *difficulty = Difficulty::Normal;
        Option::Some(GameState::Intro)
    } else if keys.o_just_pressed {
        game.your_color = Rgba { r: 255, g: 165, b: 0, a: 255 };
        *difficulty = Difficulty::Normal;
        Option::Some(GameState::Intro)
    } else if keys.key1_just_pressed {
        game.your_color = Rgba { r: 255, g: 69, b: 0, a: 255 };
        *difficulty = Difficulty::Hard;
        Option::Some(GameState::Intro)
    } else {
        Option::None
    }
}

} // verus!
