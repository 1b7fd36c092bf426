//! The continue screen after the player's hearts run out: Y re-enters the
//! end-sequence, N resets the game.

use vstd::prelude::*;

use crate::game::GameState;

verus! {

/// What the continue screen decides.
#[derive(Copy, Clone, PartialEq, Eq, Structural, Debug)]
pub struct ContinueStep {
    pub next_session: Option<GameState>,
    /// Broadcast `GameResetSend`.
    pub reset_send: bool,
}

/// One tick of the continue screen: Y re-enters the gauntlet, N resets.
pub fn continue_update(y_just_pressed: bool, n_just_pressed: bool) -> (step: ContinueStep)
    ensures
        y_just_pressed ==> step == (ContinueStep {
            next_session: Option::Some(GameState::EndGame),
            reset_send: false,
        }),
        !y_just_pressed && n_just_pressed ==> step == (ContinueStep {
            next_session: Option::<GameState>::None,
            reset_send: true,
        }),
        !y_just_pressed && !n_just_pressed ==> step == (ContinueStep {
            next_session: Option::<GameState>::None,
            reset_send: false,
        }),
{
    if y_just_pressed {
        ContinueStep { next_session: Option::Some(GameState::EndGame), reset_send: false }
    } else if n_just_pressed {
        ContinueStep { next_session: Option::None, reset_send: true }
    } else {
        ContinueStep { next_session: Option::None, reset_send: false }
    }
}

} // verus!
