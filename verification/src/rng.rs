//! The seeded random number generator behind every chance the rules take:
//! a single `StdRng` passed by reference, so a fixed seed reproduces a
//! whole game. The generator itself comes from the `rand` crate and is
//! trusted; everything derived from its draws is verified against the
//! draws as plain values.

use vstd::prelude::*;

use crate::board::moving::{moving_init, spec_roll, Moving};
use crate::board::Board;
use crate::game::{Difficulty, Game};
use crate::mini_game::rps::{
    rps_countdown_tick, rps_play_tick, spec_countdown_step, spec_play_step, RpsController, RpsCue,
};

verus! {

#[verifier::external_type_specification]
#[verifier::external_body]
pub struct ExStdRng(rand::rngs::StdRng);

/// Relies on rand::SeedableRng::seed_from_u64: builds the generator from a
/// 64-bit seed.
#[verifier::external_body]
pub fn seeded_rng(seed: u64) -> (r: rand::rngs::StdRng) {
    <rand::rngs::StdRng as rand::SeedableRng>::seed_from_u64(seed)
}

/// Relies on rand::Rng::gen_range over `0..bound`: a draw inside the
/// range. The call panics on an empty range, so the bound must be
/// positive; nothing else is promised of the value.
#[verifier::external_body]
pub fn rand_below(rng: &mut rand::rngs::StdRng, bound: u32) -> (r: u32)
    requires
        bound >= 1,
    ensures
        r < bound,
{
    rand::Rng::gen_range(rng, 0..bound)
}

/// A per-mille roll: a uniform draw under 1000, the unit every chance in
/// the rules is stated in.
pub fn roll_per_mille(rng: &mut rand::rngs::StdRng) -> (r: u32)
    ensures
        r < 1000,
{
    rand_below(rng, 1000)
}

/// A fair coin.
pub fn flip_coin(rng: &mut rand::rngs::StdRng) -> (r: bool) {
    rand_below(rng, 2) == 1
}

/// The player's Hard-mode die: three or six, by a uniform draw.
pub fn draw_hard_roll(rng: &mut rand::rngs::StdRng) -> (r: u32)
    ensures
        1 <= r <= 2,
{
    rand_below(rng, 2) + 1
}

/// A uniform rock-paper-scissors pick draw.
pub fn draw_rps_pick(rng: &mut rand::rngs::StdRng) -> (r: u32)
    ensures
        r <= 2,
{
    rand_below(rng, 3)
}

/// `moving_init` with the Hard-mode die drawn from the generator: the roll
/// still obeys the roll table, whatever was drawn.
pub fn moving_init_random(
    game: &Game,
    board: &mut Board,
    moving: &mut Moving,
    difficulty: Difficulty,
    rng: &mut rand::rngs::StdRng,
) -> (roll: u32)
    ensures
        exists|draw: u32|
            1 <= draw <= 2 && roll == spec_roll(old(board).my_turn, game.turn, difficulty, draw),
        !final(moving).sent_dialogue,
        *final(board) == (Board { moving: true, moves: roll, ..*old(board) }),
{
    let draw = draw_hard_roll(rng);
    let roll = moving_init(game, board, moving, difficulty, draw);
    proof {
        assert(1 <= draw <= 2 && roll == spec_roll(old(board).my_turn, game.turn, difficulty, draw));
    }
    roll
}

/// An RPS countdown step with the narrator's pick drawn from the
/// generator: whatever was drawn, the step obeys the countdown relation
/// for some pick in range.
pub fn rps_countdown_tick_random(
    controller: &mut RpsController,
    y_milli: i32,
    rng: &mut rand::rngs::StdRng,
) -> (cue: RpsCue)
    requires
        old(controller).state is Countdown,
    ensures
        exists|pick: u32|
            pick <= 2 && spec_countdown_step(*old(controller), y_milli, pick, *final(controller), cue),
        cue.finish is None,
{
    let pick = draw_rps_pick(rng);
    let cue = rps_countdown_tick(controller, y_milli, pick);
    proof {
        assert(pick <= 2 && spec_countdown_step(*old(controller), y_milli, pick, *controller, cue));
    }
    cue
}

/// An RPS play step with the reshoot roll and coin drawn from the
/// generator: whatever was drawn, the step obeys the play relation for
/// some roll under a thousand and some coin. With a zero chance —
/// practice — no roll comes under it, so the narrator can never reshoot.
pub fn rps_play_tick_random(
    controller: &mut RpsController,
    dt_ms: u32,
    chance_milli: u32,
    rng: &mut rand::rngs::StdRng,
) -> (cue: RpsCue)
    requires
        old(controller).state is Play,
        old(controller).state->Play_time_ms <= 10_000,
        dt_ms <= 1000,
        old(controller).rounds >= 1,
        old(controller).my_coins <= 1000,
        old(controller).your_coins <= 1000,
    ensures
        exists|roll: u32, coin: bool|
            roll < 1000 && spec_play_step(
                *old(controller),
                dt_ms,
                chance_milli,
                roll,
                coin,
                *final(controller),
                cue,
            ),
        chance_milli == 0 ==> !cue.reshoot_audio,
        cue.stage_audio is None,
{
    let roll = roll_per_mille(rng);
    let coin = flip_coin(rng);
    let cue = rps_play_tick(controller, dt_ms, chance_milli, roll, coin);
    proof {
        assert(roll < 1000 && spec_play_step(
            *old(controller),
            dt_ms,
            chance_milli,
            roll,
            coin,
            *controller,
            cue,
        ));
    }
    cue
}

} // verus!
