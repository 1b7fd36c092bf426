//! The rock-paper-scissors minigame: best-of-three rounds. A bobbing
//! countdown calls "Rock, Paper, Scissors, Shoot!"; the narrator commits a
//! pick and the player answers within a one-second window; two seconds in,
//! a narrator who would lose may reshoot with a difficulty-bound
//! probability — never in practice — and otherwise the round settles: the
//! winner gains two coins and a round is spent; a draw spends nothing.

use vstd::prelude::*;

use crate::game::Difficulty;
use crate::mini_game::MiniGameFinish;

verus! {

#[derive(Copy, Clone, PartialEq, Eq, Structural, Debug)]
pub enum RpsSelect {
    Rock,
    Paper,
    Scissors,
}

#[derive(Copy, Clone, PartialEq, Eq, Structural, Debug)]
pub enum RpsCompare {
    Win,
    Lose,
    Draw,
}

impl RpsSelect {
    /// The pick a uniform draw in 0..=2 stands for.
    pub open spec fn spec_from_draw(draw: u32) -> RpsSelect {
        if draw == 0 {
            RpsSelect::Rock
        } else if draw == 1 {
            RpsSelect::Paper
        } else {
            RpsSelect::Scissors
        }
    }

    #[verifier::when_used_as_spec(spec_from_draw)]
    pub fn from_draw(draw: u32) -> (r: RpsSelect)
        ensures
            r == RpsSelect::spec_from_draw(draw),
    {
        if draw == 0 {
            RpsSelect::Rock
        } else if draw == 1 {
            RpsSelect::Paper
        } else {
            RpsSelect::Scissors
        }
    }

    /// The pick that beats `other`.
    pub open spec fn spec_new_winner(other: RpsSelect) -> RpsSelect {
        match other {
            RpsSelect::Rock => RpsSelect::Paper,
            RpsSelect::Paper => RpsSelect::Scissors,
            RpsSelect::Scissors => RpsSelect::Rock,
        }
    }

    #[verifier::when_used_as_spec(spec_new_winner)]
    pub fn new_winner(other: RpsSelect) -> (r: RpsSelect)
        ensures
            r == RpsSelect::spec_new_winner(other),
            r.spec_compare(other) is Win,
    {
        match other {
            RpsSelect::Rock => RpsSelect::Paper,
            RpsSelect::Paper => RpsSelect::Scissors,
            RpsSelect::Scissors => RpsSelect::Rock,
        }
    }

    pub open spec fn spec_to_index(&self) -> usize {
        match *self {
            RpsSelect::Rock => 0usize,
            RpsSelect::Paper => 1usize,
            RpsSelect::Scissors => 2usize,
        }
    }

    #[verifier::when_used_as_spec(spec_to_index)]
    pub fn to_index(&self) -> (r: usize)
        ensures
            r == self.spec_to_index(),
    {
        match *self {
            RpsSelect::Rock => 0,
            RpsSelect::Paper => 1,
            RpsSelect::Scissors => 2,
        }
    }

    /// How `self` fares against `other`.
    pub open spec fn spec_compare(&self, other: RpsSelect) -> RpsCompare {
        match *self {
            RpsSelect::Rock => match other {
                RpsSelect::Rock => RpsCompare::Draw,
                RpsSelect::Paper => RpsCompare::Lose,
                RpsSelect::Scissors => RpsCompare::Win,
            },
            RpsSelect::Paper => match other {
                RpsSelect::Rock => RpsCompare::Win,
                RpsSelect::Paper => RpsCompare::Draw,
                RpsSelect::Scissors => RpsCompare::Lose,
            },
            RpsSelect::Scissors => match other {
                RpsSelect::Rock => RpsCompare::Lose,
                RpsSelect::Paper => RpsCompare::Win,
                RpsSelect::Scissors => RpsCompare::Draw,
            },
        }
    }

    #[verifier::when_used_as_spec(spec_compare)]
    pub fn compare(&self, other: RpsSelect) -> (r: RpsCompare)
        ensures
            r == self.spec_compare(other),
    {
        match *self {
            RpsSelect::Rock => match other {
                RpsSelect::Rock => RpsCompare::Draw,
                RpsSelect::Paper => RpsCompare::Lose,
                RpsSelect::Scissors => RpsCompare::Win,
            },
            RpsSelect::Paper => match other {
                RpsSelect::Rock => RpsCompare::Win,
                RpsSelect::Paper => RpsCompare::Draw,
                RpsSelect::Scissors => RpsCompare::Lose,
            },
            RpsSelect::Scissors => match other {
                RpsSelect::Rock => RpsCompare::Lose,
                RpsSelect::Paper => RpsCompare::Win,
                RpsSelect::Scissors => RpsCompare::Draw,
            },
        }
    }
}

/// The round machine: the four-stage countdown, then the play window.
/// Times are in milliseconds; the bob phase that drives the countdown is
/// fed in by the host.
#[derive(Copy, Clone, PartialEq, Eq, Structural, Debug)]
pub enum RpsState {
    Countdown { stage: u32, can_advance: bool },
    Play { time_ms: u32, my_selection: RpsSelect, your_selection: RpsSelect, selection_window_ms: u32 },
}

#[derive(Copy, Clone, PartialEq, Eq, Structural, Debug)]
pub struct RpsController {
    pub state: RpsState,
    pub rounds: u32,
    pub my_coins: u32,
    pub your_coins: u32,
}

/// What an RPS step asks of the host.
#[derive(Copy, Clone, PartialEq, Eq, Structural, Debug)]
pub struct RpsCue {
    /// Play the stage call ("rock", "paper", "scissors" or "shoot") for
    /// this stage number, 1 to 4.
    pub stage_audio: Option<u32>,
    /// Play the "shoot" sound for a reshoot.
    pub reshoot_audio: bool,
    /// The best-of-three is over.
    pub finish: Option<MiniGameFinish>,
}

impl RpsController {
    /// A fresh best-of-three.
    pub fn start() -> (r: RpsController)
        ensures
            r == (RpsController {
                state: RpsState::Countdown { stage: 0u32, can_advance: true },
                rounds: 3u32,
                my_coins: 0u32,
                your_coins: 0u32,
            }),
    {
        RpsController {
            state: RpsState::Countdown { stage: 0, can_advance: true },
            rounds: 3,
            my_coins: 0,
            your_coins: 0,
        }
    }
}

/// Mirrors the round's running coins into the shell's display.
pub fn rps_update_coins(controller: &RpsController, mini_game: &mut crate::mini_game::MiniGame)
    ensures
        *final(mini_game) == (crate::mini_game::MiniGame {
            display_my_coins: controller.my_coins,
            display_your_coins: controller.your_coins,
            ..*old(mini_game)
        }),
{
    crate::mini_game::set_display_coins(mini_game, controller.my_coins, controller.your_coins);
}

/// The reshoot probability in per-mille: zero in practice, 600 on the
/// second round, else 400 on Normal and 600 on Hard.
pub open spec fn spec_reshoot_chance_milli(practice: bool, turn: u32, difficulty: Difficulty) -> u32 {
    if practice {
        0u32
    } else if turn == 2 {
        600u32
    } else {
        match difficulty {
            Difficulty::Normal => 400u32,
            Difficulty::Hard => 600u32,
        }
    }
}

#[verifier::when_used_as_spec(spec_reshoot_chance_milli)]
pub fn reshoot_chance_milli(practice: bool, turn: u32, difficulty: Difficulty) -> (r: u32)
    ensures
        r == spec_reshoot_chance_milli(practice, turn, difficulty),
{
    if practice {
        0
    } else if turn == 2 {
        600
    } else {
        match difficulty {
            Difficulty::Normal => 400,
            Difficulty::Hard => 600,
        }
    }
}

/// In practice the reshoot probability is zero whatever the difficulty or
/// the round, so no draw below it exists and the narrator never reshoots.
pub proof fn lemma_practice_never_reshoots(turn: u32, difficulty: Difficulty, roll: u32)
    ensures
        spec_reshoot_chance_milli(true, turn, difficulty) == 0,
        !(roll < spec_reshoot_chance_milli(true, turn, difficulty)),
{
}

/// The narrator's reshoot pick: the player's own pick or its winner,
/// whichever the coin chooses — rerolled to the other when the coin's
/// choice repeats the pick being replaced. The result never repeats the
/// replaced pick.
pub open spec fn spec_reshoot_pick(yours: RpsSelect, old_mine: RpsSelect, coin: bool) -> RpsSelect {
    let first = if coin {
        yours
    } else {
        RpsSelect::spec_new_winner(yours)
    };
    if first != old_mine {
        first
    } else if coin {
        RpsSelect::spec_new_winner(yours)
    } else {
        yours
    }
}

pub fn reshoot_pick(yours: RpsSelect, old_mine: RpsSelect, coin: bool) -> (r: RpsSelect)
    ensures
        r == spec_reshoot_pick(yours, old_mine, coin),
        r == yours || r == RpsSelect::spec_new_winner(yours),
        yours != old_mine || RpsSelect::spec_new_winner(yours) != old_mine ==> r != old_mine,
{
    let first = if coin {
        yours
    } else {
        RpsSelect::new_winner(yours)
    };
    if first != old_mine {
        first
    } else if coin {
        RpsSelect::new_winner(yours)
    } else {
        yours
    }
}

/// What one countdown step does, as a relation between the controllers
/// before and after: each armed crossing of the bob phase above 0.8
/// voices the next stage and spends the arming latch, which a dip below
/// zero restores; the fourth stage opens the play window with the
/// narrator's pick drawn by `pick_draw`.
pub open spec fn spec_countdown_step(
    c0: RpsController,
    y_milli: i32,
    pick_draw: u32,
    c1: RpsController,
    cue: RpsCue,
) -> bool {
    let stage = c0.state->Countdown_stage;
    let can_advance = c0.state->Countdown_can_advance;
    let advances = y_milli > 800 && can_advance && stage < 4;
    let stage1 = if advances {
        (stage + 1) as u32
    } else {
        stage
    };
    let gate1 = if advances {
        false
    } else {
        can_advance || y_milli < 0
    };
    &&& c1.rounds == c0.rounds
    &&& c1.my_coins == c0.my_coins
    &&& c1.your_coins == c0.your_coins
    &&& cue.stage_audio == if advances {
        Option::Some(stage1)
    } else {
        Option::<u32>::None
    }
    &&& !cue.reshoot_audio && cue.finish is None
    &&& stage1 == 4 ==> c1.state == (RpsState::Play {
        time_ms: 0u32,
        my_selection: RpsSelect::spec_from_draw(pick_draw),
        your_selection: RpsSelect::Rock,
        selection_window_ms: 1000u32,
    })
    &&& stage1 != 4 ==> c1.state == (RpsState::Countdown { stage: stage1, can_advance: gate1 })
}

/// One countdown step, driven by the bob phase `y_milli` (the cosine of
/// the bob clock, in milli-units). Each armed crossing above 0.8 voices
/// the next stage and spends the arming latch, which a dip below zero
/// restores; the fourth stage opens the play window with the narrator's
/// committed pick.
pub fn rps_countdown_tick(controller: &mut RpsController, y_milli: i32, pick_draw: u32) -> (cue:
    RpsCue)
    requires
        old(controller).state is Countdown,
        pick_draw <= 2,
    ensures
        spec_countdown_step(*old(controller), y_milli, pick_draw, *final(controller), cue),
{
    let mut cue = RpsCue { stage_audio: Option::None, reshoot_audio: false, finish: Option::None };
    if let RpsState::Countdown { stage, can_advance } = controller.state {
        let mut stage1 = stage;
        let mut gate1 = can_advance;
        if y_milli > 800 && can_advance && stage < 4 {
            stage1 = stage + 1;
            gate1 = false;
            cue.stage_audio = Option::Some(stage1);
        } else if y_milli < 0 {
            gate1 = true;
        }
        if stage1 == 4 {
            controller.state = RpsState::Play {
                time_ms: 0,
                my_selection: RpsSelect::from_draw(pick_draw),
                your_selection: RpsSelect::Rock,
                selection_window_ms: 1000,
            };
        } else {
            controller.state = RpsState::Countdown { stage: stage1, can_advance: gate1 };
        }
    }
    cue
}

/// The player's pick within the selection window: the first of R, P, S
/// that was just pressed commits and closes the window.
pub fn rps_input(
    controller: &mut RpsController,
    r_pressed: bool,
    p_pressed: bool,
    s_pressed: bool,
)
    ensures
        ({
            match old(controller).state {
                RpsState::Play { time_ms, my_selection, your_selection, selection_window_ms } => {
                    let picks = selection_window_ms > 0 && (r_pressed || p_pressed || s_pressed);
                    let pick = if r_pressed {
                        RpsSelect::Rock
                    } else if p_pressed {
                        RpsSelect::Paper
                    } else {
                        RpsSelect::Scissors
                    };
                    &&& picks ==> *final(controller) == (RpsController {
                        state: RpsState::Play {
                            time_ms,
                            my_selection,
                            your_selection: pick,
                            selection_window_ms: 0u32,
                        },
                        ..*old(controller)
                    })
                    &&& !picks ==> *final(controller) == *old(controller)
                },
                _ => *final(controller) == *old(controller),
            }
        }),
{
    if let RpsState::Play { time_ms, my_selection, your_selection, selection_window_ms } =
        controller.state {
        if selection_window_ms > 0 {
            if r_pressed {
                controller.state = RpsState::Play {
                    time_ms,
                    my_selection,
                    your_selection: RpsSelect::Rock,
                    selection_window_ms: 0,
                };
            } else if p_pressed {
                controller.state = RpsState::Play {
                    time_ms,
                    my_selection,
                    your_selection: RpsSelect::Paper,
                    selection_window_ms: 0,
                };
            } else if s_pressed {
                controller.state = RpsState::Play {
                    time_ms,
                    my_selection,
                    your_selection: RpsSelect::Scissors,
                    selection_window_ms: 0,
                };
            }
        }
    }
}

/// What a resolving play step leaves behind.
pub open spec fn spec_play_resolution(
    c0: RpsController,
    my_sel: RpsSelect,
    your_sel: RpsSelect,
    c1: RpsController,
    cue: RpsCue,
) -> bool {
    let outcome = my_sel.spec_compare(your_sel);
    let my1 = if outcome is Win {
        (c0.my_coins + 2) as u32
    } else {
        c0.my_coins
    };
    let your1 = if outcome is Lose {
        (c0.your_coins + 2) as u32
    } else {
        c0.your_coins
    };
    let rounds1 = if outcome is Draw {
        c0.rounds
    } else {
        (c0.rounds - 1) as u32
    };
    &&& c1.my_coins == my1
    &&& c1.your_coins == your1
    &&& c1.rounds == rounds1
    &&& rounds1 > 0 ==> c1.state == (RpsState::Countdown { stage: 0u32, can_advance: true })
        && cue.finish is None
    &&& rounds1 == 0 ==> c1.state == c0.state && cue.finish == Option::Some(MiniGameFinish {
        my_coins: my1 as i32,
        your_coins: your1 as i32,
    })
}

/// What one play step does, as a relation between the controllers before
/// and after: two seconds into the window the round resolves — unless the
/// narrator would lose and the reshoot roll comes under the chance, in
/// which case the narrator re-picks by the coin and the window reopens.
pub open spec fn spec_play_step(
    c0: RpsController,
    dt_ms: u32,
    chance_milli: u32,
    reshoot_roll: u32,
    reshoot_coin: bool,
    c1: RpsController,
    cue: RpsCue,
) -> bool {
    let time_ms = c0.state->Play_time_ms;
    let my_selection = c0.state->Play_my_selection;
    let your_selection = c0.state->Play_your_selection;
    let selection_window_ms = c0.state->Play_selection_window_ms;
    let time1 = crate::num::spec_clamp_u32((time_ms + dt_ms) as u32, 0, 10_000);
    let window1 = crate::ledger::sat_sub(selection_window_ms, dt_ms);
    let losing = my_selection.spec_compare(your_selection) is Lose;
    let reshoots = time1 > 2000 && losing && reshoot_roll < chance_milli;
    let resolves = time1 > 2000 && !reshoots;
    &&& cue.stage_audio is None
    &&& !resolves && !reshoots ==> c1 == (RpsController {
        state: RpsState::Play {
            time_ms: time1,
            my_selection,
            your_selection,
            selection_window_ms: window1,
        },
        ..c0
    }) && !cue.reshoot_audio && cue.finish is None
    &&& reshoots ==> c1 == (RpsController {
        state: RpsState::Play {
            time_ms: 0u32,
            my_selection: spec_reshoot_pick(your_selection, my_selection, reshoot_coin),
            your_selection,
            selection_window_ms: 1000u32,
        },
        ..c0
    }) && cue.reshoot_audio && cue.finish is None
    &&& resolves ==> spec_play_resolution(c0, my_selection, your_selection, c1, cue)
        && !cue.reshoot_audio
}

/// One play step. Two seconds into the window the round resolves — unless
/// the narrator would lose and the reshoot roll comes under the chance, in
/// which case the narrator re-picks and the window reopens.
pub fn rps_play_tick(
    controller: &mut RpsController,
    dt_ms: u32,
    chance_milli: u32,
    reshoot_roll: u32,
    reshoot_coin: bool,
) -> (cue: RpsCue)
    requires
        old(controller).state is Play,
        old(controller).state->Play_time_ms <= 10_000,
        dt_ms <= 1000,
        old(controller).rounds >= 1,
        old(controller).my_coins <= 1000,
        old(controller).your_coins <= 1000,
        reshoot_roll < 1000,
    ensures
        spec_play_step(
            *old(controller),
            dt_ms,
            chance_milli,
            reshoot_roll,
            reshoot_coin,
            *final(controller),
            cue,
        ),
{
    let mut cue = RpsCue { stage_audio: Option::None, reshoot_audio: false, finish: Option::None };
    if let RpsState::Play { time_ms, my_selection, your_selection, selection_window_ms } =
        controller.state {
        let advanced = time_ms + dt_ms;
        let time1 = if advanced >= 10_000 {
            10_000
        } else {
            advanced
        };
        let window1 = crate::ledger::sub_saturating(selection_window_ms, dt_ms);
        if time1 > 2000 {
            let losing = matches!(my_selection.compare(your_selection), RpsCompare::Lose);
            if losing && reshoot_roll < chance_milli {
                cue.reshoot_audio = true;
                controller.state = RpsState::Play {
                    time_ms: 0,
                    my_selection: reshoot_pick(your_selection, my_selection, reshoot_coin),
                    your_selection,
                    selection_window_ms: 1000,
                };
            } else {
                match my_selection.compare(your_selection) {
                    RpsCompare::Win => {
                        controller.my_coins = controller.my_coins + 2;
                        controller.rounds = controller.rounds - 1;
                    },
                    RpsCompare::Lose => {
                        controller.your_coins = controller.your_coins + 2;
                        controller.rounds = controller.rounds - 1;
                    },
                    RpsCompare::Draw => {},
                }
                if controller.rounds > 0 {
                    controller.state = RpsState::Countdown { stage: 0, can_advance: true };
                } else {
                    cue.finish = Option::Some(
                        MiniGameFinish {
                            my_coins: controller.my_coins as i32,
                            your_coins: controller.your_coins as i32,
                        },
                    );
                }
            }
        } else {
            controller.state = RpsState::Play {
                time_ms: time1,
                my_selection,
                your_selection,
                selection_window_ms: window1,
            };
        }
    }
    cue
}

} // verus!
