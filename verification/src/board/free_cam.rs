//! The FreeCam sub-state: the score overlay hides, the camera unlocks and
//! zooms out, and WASD pans it inside a clamped window until F returns to
//! input. The camera translation itself is presentation; the rules here
//! are the overlay toggles and the clamped pan decision.

use vstd::prelude::*;

use crate::board::{Board, BoardState};
use crate::num::clamp_i64;

verus! {

/// Camera pan window, in milli-units.
pub const FREE_CAM_MIN_X: i64 = -240_000;
pub const FREE_CAM_MAX_X: i64 = 240_000;
pub const FREE_CAM_MIN_Y: i64 = -240_000;
pub const FREE_CAM_MAX_Y: i64 = 270_000;

/// Entering FreeCam hides the score overlay.
pub fn free_cam_init(board: &mut Board)
    ensures
        *final(board) == (Board { score_overlay: false, ..*old(board) }),
{
    board.score_overlay = false;
}

/// Leaving FreeCam restores the overlay.
pub fn free_cam_cleanup(board: &mut Board)
    ensures
        *final(board) == (Board { score_overlay: true, ..*old(board) }),
{
    board.score_overlay = true;
}

/// One tick of FreeCam: F returns to input.
pub fn free_cam_update(f_just_pressed: bool) -> (next: Option<BoardState>)
    ensures
        next == if f_just_pressed {
            Option::Some(BoardState::TurnInput)
        } else {
            Option::<BoardState>::None
        },
{
    if f_just_pressed {
        Option::Some(BoardState::TurnInput)
    } else {
        Option::None
    }
}

/// Applies one tick of WASD pan to the camera: the key vector is
/// normalised and scaled to ten units, so a diagonal pan still moves ten
/// units (7071 milli-units per axis), and the result is clamped to the
/// pan window. The axis values are the per-axis key differences, each in
/// -1..=1.
pub fn free_cam_pan(cam_x: i64, cam_y: i64, axis_x: i64, axis_y: i64) -> (r: (i64, i64))
    requires
        FREE_CAM_MIN_X <= cam_x <= FREE_CAM_MAX_X,
        FREE_CAM_MIN_Y <= cam_y <= FREE_CAM_MAX_Y,
        -1 <= axis_x <= 1,
        -1 <= axis_y <= 1,
    ensures
        ({
            let mag: int = if axis_x != 0 && axis_y != 0 {
                7_071
            } else {
                10_000
            };
            &&& r.0 == crate::num::spec_clamp_i64(
                (cam_x + axis_x * mag) as i64,
                FREE_CAM_MIN_X,
                FREE_CAM_MAX_X,
            )
            &&& r.1 == crate::num::spec_clamp_i64(
                (cam_y + axis_y * mag) as i64,
                FREE_CAM_MIN_Y,
                FREE_CAM_MAX_Y,
            )
        }),
{
    let mag: i64 = if axis_x != 0 && axis_y != 0 {
        // 10 / sqrt(2), in milli-units.
        7_071
    } else {
        10_000
    };
    let nx = clamp_i64(cam_x + axis_x * mag, FREE_CAM_MIN_X, FREE_CAM_MAX_X);
    let ny = clamp_i64(cam_y + axis_y * mag, FREE_CAM_MIN_Y, FREE_CAM_MAX_Y);
    (nx, ny)
}

} // verus!
