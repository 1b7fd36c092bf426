//! The TurnIntro sub-state: a one-second "My Turn" / "Your Turn" banner.
//! Entering it locks the camera onto the acting pawn and plays the
//! turn-start sound; when the banner lapses the machine moves to input.

use vstd::prelude::*;

use crate::animation::Animation;
use crate::board::{Board, BoardState};
use crate::ledger::Side;

verus! {

pub struct TurnIntro {
    pub animation: Option<Animation>,
}

/// What entering the banner asks of the host.
pub struct TurnIntroCue {
    /// Play the "turnstart" sound.
    pub turnstart_audio: bool,
    /// Lock the camera to this pawn.
    pub follow_pawn: Side,
    /// The banner to show.
    pub my_turn_banner: bool,
}

/// Entering TurnIntro: the acting pawn becomes the active one and the
/// one-second banner starts.
pub fn turn_intro_init(board: &mut Board, intro: &mut TurnIntro) -> (cue: TurnIntroCue)
    ensures
        *final(board) == (Board {
            active_pawn: if old(board).my_turn {
                Side::Mine
            } else {
                Side::Yours
            },
            ..*old(board)
        }),
        final(intro).animation matches Option::Some(a) && a.time_ms == 1000 && !a.finished,
        cue.turnstart_audio,
        cue.follow_pawn == final(board).active_pawn,
        cue.my_turn_banner == old(board).my_turn,
{
    if board.my_turn {
        board.active_pawn = Side::Mine;
    } else {
        board.active_pawn = Side::Yours;
    }
    intro.animation = Option::Some(Animation::time(1000));
    TurnIntroCue {
        turnstart_audio: true,
        follow_pawn: board.active_pawn,
        my_turn_banner: board.my_turn,
    }
}

/// Leaving TurnIntro clears the banner timer.
pub fn turn_intro_cleanup(intro: &mut TurnIntro)
    ensures
        final(intro).animation is None,
{
    intro.animation = Option::None;
}

/// One tick of the banner; once it lapses, input begins.
pub fn turn_intro_update(intro: &mut TurnIntro, dt_ms: u32) -> (next: Option<BoardState>)
    ensures
        old(intro).animation is None ==> next is None && *final(intro) == *old(intro),
        old(intro).animation matches Option::Some(a) ==> next == if !a.finished
            && crate::ledger::sat_sub(a.time_ms, dt_ms) == 0 {
            Option::Some(BoardState::TurnInput)
        } else {
            Option::<BoardState>::None
        },
{
    match &mut intro.animation {
        Option::Some(animation) => {
            animation.update(dt_ms);
            if animation.finished() {
                Option::Some(BoardState::TurnInput)
            } else {
                Option::None
            }
        },
        Option::None => Option::None,
    }
}

} // verus!
