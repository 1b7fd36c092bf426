//! The gauntlet's rock-paper-scissors: one shot. The narrator commits a
//! random pick on entry; the player answers with R, P or S; two and a half
//! seconds in, a player who answered with the losing pick — or not at all,
//! which counts as Rock — loses a heart, and a draw replays the same game.

use vstd::prelude::*;

use crate::end_game::EndGame;
use crate::mini_game::rps::{RpsCompare, RpsSelect};

verus! {

pub struct EgRps {
    pub lost_health: bool,
    pub my_select: RpsSelect,
    pub your_select: Option<RpsSelect>,
}

/// Entering the sub-game: the narrator commits the pick its draw stands
/// for; the "shoot" sound plays.
pub fn eg_rps_enter(eg: &mut EgRps, pick_draw: u32) -> (shoot_audio: bool)
    requires
        pick_draw <= 2,
    ensures
        !final(eg).lost_health,
        final(eg).my_select == RpsSelect::spec_from_draw(pick_draw),
        final(eg).your_select is None,
        shoot_audio,
{
    eg.lost_health = false;
    eg.my_select = RpsSelect::from_draw(pick_draw);
    eg.your_select = Option::None;
    true
}

/// The player's one answer: the first of R, P, S just pressed commits, and
/// only while no answer stands.
pub fn eg_rps_input(eg: &mut EgRps, r_pressed: bool, p_pressed: bool, s_pressed: bool) -> (shoot_audio: bool)
    ensures
        ({
            let answers = old(eg).your_select is None && (r_pressed || p_pressed || s_pressed);
            let pick = if r_pressed {
                RpsSelect::Rock
            } else if p_pressed {
                RpsSelect::Paper
            } else {
                RpsSelect::Scissors
            };
            &&& answers ==> final(eg).your_select == Option::Some(pick) && final(eg).lost_health
                == old(eg).lost_health && final(eg).my_select == old(eg).my_select
            &&& !answers ==> final(eg).your_select == old(eg).your_select && final(eg).lost_health
                == old(eg).lost_health && final(eg).my_select == old(eg).my_select
            &&& shoot_audio == answers
        }),
{
    if matches!(eg.your_select, Option::None) && (r_pressed || p_pressed || s_pressed) {
        if r_pressed {
            eg.your_select = Option::Some(RpsSelect::Rock);
        } else if p_pressed {
            eg.your_select = Option::Some(RpsSelect::Paper);
        } else {
            eg.your_select = Option::Some(RpsSelect::Scissors);
        }
        true
    } else {
        false
    }
}

/// The round's settlement, once per entry, two and a half seconds in. A
/// missing answer counts as Rock. A losing answer costs the narrator's
/// opponent a heart; a draw rewinds the game counter so the same game
/// replays; a winning answer costs nothing. The switch is raised either
/// way.
pub fn eg_rps_update(eg: &mut EgRps, end_game: &mut EndGame)
    requires
        old(end_game).wf(),
    ensures
        final(end_game).wf(),
        ({
            let settles = old(end_game).state_time_ms > 2500;
            let answered = match old(eg).your_select {
                Option::Some(s) => s,
                Option::None => RpsSelect::Rock,
            };
            let outcome = answered.spec_compare(old(eg).my_select);
            &&& !settles ==> *final(eg) == *old(eg) && *final(end_game) == *old(end_game)
            &&& settles && old(eg).lost_health ==> *final(eg) == *old(eg) && *final(end_game) == (
            EndGame { switch: true, ..*old(end_game) })
            &&& settles && !old(eg).lost_health ==> {
                &&& final(eg).lost_health
                &&& final(eg).my_select == old(eg).my_select && final(eg).your_select == old(eg).your_select
                &&& outcome is Lose ==> *final(end_game) == (EndGame {
                    switch: true,
                    your_health: crate::ledger::sat_sub(old(end_game).your_health, 1),
                    ..*old(end_game)
                })
                &&& outcome is Draw ==> *final(end_game) == (EndGame {
                    switch: true,
                    turn: crate::ledger::sat_sub(old(end_game).turn, 1),
                    ..*old(end_game)
                })
                &&& outcome is Win ==> *final(end_game) == (EndGame {
                    switch: true,
                    ..*old(end_game)
                })
            }
        }),
{
    if end_game.state_time_ms > 2500 {
        if !eg.lost_health {
            let answered = match eg.your_select {
                Option::Some(s) => s,
                Option::None => RpsSelect::Rock,
            };
            match answered.compare(eg.my_select) {
                RpsCompare::Lose => {
                    end_game.lose_your_heart();
                },
                RpsCompare::Draw => {
                    end_game.turn = crate::ledger::sub_saturating(end_game.turn, 1);
                },
                RpsCompare::Win => {},
            }
            eg.lost_health = true;
        }
        end_game.switch = true;
    }
}

} // verus!
