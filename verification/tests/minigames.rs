use coin_contest::game::Difficulty;
use coin_contest::ledger::CoinLedger;
use coin_contest::mini_game::boats::{
    boats_update_coins, cannon_ball_spawn, cannon_ball_tick, cannon_spawns, player_boat_movement,
    Boat, CannonBallPhase,
};
use coin_contest::mini_game::duel::{
    duel_settle, duelist_input, duelist_phase_tick, resolve_strikes, Duel, Duelist,
    ATTACK_PREP_TIME_MS, PARRY_TIME_MS,
};
use coin_contest::mini_game::pong::{
    ai_paddle_move, ai_pick_target, player_paddle_move, pong_update, puck_bounce, puck_flight,
    puck_seed_velocity, Pong, Puck, PuckEvent,
};
use coin_contest::mini_game::rps::{
    reshoot_chance_milli, reshoot_pick, rps_countdown_tick, rps_input, rps_play_tick,
    rps_update_coins, RpsCompare, RpsController, RpsSelect, RpsState,
};
use coin_contest::mini_game::duel::duel_ai_tick;
use coin_contest::mini_game::MiniGame;
use coin_contest::mini_game::boats::{boats_enter, cannon_ball_hit_boats};
use coin_contest::mini_game::pong::{ai_claim_target, pong_apply_event};
use coin_contest::end_game::pong::eg_puck_bounce;
use coin_contest::collision::{CollisionQuery, CollisionQueryEntry, CollisionShape};

#[test]
fn rps_compare_table() {
    assert!(matches!(RpsSelect::Rock.compare(RpsSelect::Scissors), RpsCompare::Win));
    assert!(matches!(RpsSelect::Rock.compare(RpsSelect::Paper), RpsCompare::Lose));
    assert!(matches!(RpsSelect::Paper.compare(RpsSelect::Paper), RpsCompare::Draw));
    assert!(matches!(RpsSelect::Scissors.compare(RpsSelect::Paper), RpsCompare::Win));
    assert_eq!(RpsSelect::Rock.to_index(), 0);
    assert_eq!(RpsSelect::Paper.to_index(), 1);
    assert_eq!(RpsSelect::Scissors.to_index(), 2);
    assert!(matches!(RpsSelect::new_winner(RpsSelect::Rock), RpsSelect::Paper));
}

#[test]
fn rps_reshoot_chance_is_zero_in_practice() {
    // Whatever the difficulty or the round, practice never reshoots.
    assert_eq!(reshoot_chance_milli(true, 1, Difficulty::Normal), 0);
    assert_eq!(reshoot_chance_milli(true, 2, Difficulty::Hard), 0);
    assert_eq!(reshoot_chance_milli(false, 2, Difficulty::Normal), 600);
    assert_eq!(reshoot_chance_milli(false, 3, Difficulty::Normal), 400);
    assert_eq!(reshoot_chance_milli(false, 3, Difficulty::Hard), 600);
}

#[test]
fn rps_practice_play_never_reshoots_even_when_losing() {
    let mut controller = RpsController::start();
    controller.state = RpsState::Play {
        time_ms: 1500,
        my_selection: RpsSelect::Rock,
        your_selection: RpsSelect::Paper,
        selection_window_ms: 0,
    };
    // The lowest possible roll would reshoot under any positive chance.
    let cue = rps_play_tick(&mut controller, 1000, 0, 0, true);
    assert!(!cue.reshoot_audio);
    // The round resolved as a narrator loss instead.
    assert_eq!(controller.your_coins, 2);
    assert_eq!(controller.rounds, 2);
}

#[test]
fn rps_best_of_three_round_with_reshoot() {
    // Round 3 on Normal: the narrator's first pick is Rock, the player
    // answers Paper inside the window; the narrator reshoots to Scissors
    // and the replayed exchange resolves as a narrator win: two coins and
    // a round spent.
    let mut controller = RpsController::start();
    assert_eq!(controller.rounds, 3);
    // Drive the countdown: each bob crest calls a stage.
    let mut stages = vec![];
    for _ in 0..4 {
        let cue = rps_countdown_tick(&mut controller, 900, 0);
        stages.push(cue.stage_audio);
        let _ = rps_countdown_tick(&mut controller, -900, 0);
        if matches!(controller.state, RpsState::Play { .. }) {
            break;
        }
    }
    assert_eq!(stages, vec![Some(1), Some(2), Some(3), Some(4)]);
    match controller.state {
        RpsState::Play { my_selection, your_selection, selection_window_ms, .. } => {
            assert!(matches!(my_selection, RpsSelect::Rock));
            assert!(matches!(your_selection, RpsSelect::Rock));
            assert_eq!(selection_window_ms, 1000);
        },
        _ => unreachable!(),
    }
    // The player picks Paper inside the window.
    rps_input(&mut controller, false, true, false);
    // Two seconds in, a roll under the Normal chance of 400 reshoots; the
    // coin turned away from the player's pick gives its winner, Scissors.
    let chance = reshoot_chance_milli(false, 3, Difficulty::Normal);
    let _ = rps_play_tick(&mut controller, 1000, chance, 399, false);
    let cue = rps_play_tick(&mut controller, 1000, chance, 399, false);
    let cue = if cue.reshoot_audio {
        cue
    } else {
        rps_play_tick(&mut controller, 1000, chance, 399, false)
    };
    assert!(cue.reshoot_audio);
    match controller.state {
        RpsState::Play { my_selection, selection_window_ms, time_ms, .. } => {
            assert!(matches!(my_selection, RpsSelect::Scissors));
            assert_eq!(selection_window_ms, 1000);
            assert_eq!(time_ms, 0);
        },
        _ => unreachable!(),
    }
    // The replayed exchange: Scissors beats Paper; the roll stays high so
    // no further reshoot fires.
    let _ = rps_play_tick(&mut controller, 1000, chance, 999, false);
    let _ = rps_play_tick(&mut controller, 1000, chance, 999, false);
    let cue = rps_play_tick(&mut controller, 1000, chance, 999, false);
    assert!(!cue.reshoot_audio);
    assert_eq!(controller.my_coins, 2);
    assert_eq!(controller.your_coins, 0);
    assert_eq!(controller.rounds, 2);
    assert!(cue.finish.is_none());
    assert!(matches!(controller.state, RpsState::Countdown { .. }));
}

#[test]
fn rps_finish_reports_both_scores() {
    let mut controller = RpsController::start();
    controller.rounds = 1;
    controller.my_coins = 4;
    controller.your_coins = 2;
    controller.state = RpsState::Play {
        time_ms: 1500,
        my_selection: RpsSelect::Scissors,
        your_selection: RpsSelect::Paper,
        selection_window_ms: 0,
    };
    let cue = rps_play_tick(&mut controller, 1000, 400, 999, false);
    let finish = cue.finish.expect("the best-of-three is over");
    assert_eq!(finish.my_coins, 6);
    assert_eq!(finish.your_coins, 2);
    assert_eq!(controller.rounds, 0);
}

#[test]
fn rps_reshoot_pick_never_repeats_the_replaced_pick() {
    for &yours in &[RpsSelect::Rock, RpsSelect::Paper, RpsSelect::Scissors] {
        for &old in &[RpsSelect::Rock, RpsSelect::Paper, RpsSelect::Scissors] {
            for &coin in &[false, true] {
                let pick = reshoot_pick(yours, old, coin);
                assert!(pick == yours || pick == RpsSelect::new_winner(yours));
                if yours != old || RpsSelect::new_winner(yours) != old {
                    assert_ne!(pick, old);
                }
            }
        }
    }
}

#[test]
fn duel_hit_settlement_costs_penalty_and_pays_one() {
    // Normal difficulty: the narrator strikes while the player's defence
    // time is zero; the player loses three coins, the narrator gains one.
    let resolution = resolve_strikes(false, true, 0, 0);
    assert!(resolution.player_hit);
    assert!(!resolution.my_hit);
    assert!(resolution.hit_audio);
    let mut duel = Duel::start(Difficulty::Normal, false, &CoinLedger::new(15, 15));
    assert_eq!(duel.coin_penalty, 3);
    assert_eq!(duel.time_left_ms, 45_000);
    duel_settle(&mut duel, resolution.player_hit, resolution.my_hit);
    assert_eq!(duel.your_coins, 12);
    assert_eq!(duel.my_coins, 16);
}

#[test]
fn duel_settlement_saturates_at_zero() {
    let mut duel = Duel::start(Difficulty::Normal, false, &CoinLedger::new(15, 2));
    duel_settle(&mut duel, true, false);
    assert_eq!(duel.your_coins, 0);
    assert_eq!(duel.my_coins, 16);
    // A defender already at zero pays nothing and yields nothing.
    duel_settle(&mut duel, true, false);
    assert_eq!(duel.your_coins, 0);
    assert_eq!(duel.my_coins, 16);
}

#[test]
fn duel_parry_stuns_the_attacker() {
    // A defence younger than the parry window stuns; an older one blocks.
    let parry = resolve_strikes(true, false, 0, PARRY_TIME_MS - 1);
    assert!(parry.my_defended);
    assert!(parry.player_stun);
    assert!(!parry.my_hit);
    assert!(parry.block_audio);
    let block = resolve_strikes(true, false, 0, PARRY_TIME_MS);
    assert!(!block.my_defended);
    assert!(!block.player_stun);
    assert!(!block.my_hit);
    assert!(block.block_audio);
}

#[test]
fn duel_charge_strikes_at_stab_midpoint() {
    // The player's prep on Hard is the full 550 ms; the strike fires once
    // as the stab crosses its midpoint.
    let duel = Duel::start(Difficulty::Hard, false, &CoinLedger::new(15, 15));
    let mut duelist = Duelist::fresh(true);
    duelist_input(&mut duelist, true, true, false, false);
    assert!(duelist.wants_to_attack);
    let mut strike_count = 0;
    let mut t = 0;
    while t < 700 {
        let out = duelist_phase_tick(&mut duelist, &duel, Difficulty::Hard, 20);
        if out.strike {
            strike_count += 1;
            assert!(duelist.attack_time_ms > ATTACK_PREP_TIME_MS + 50);
            assert!(duelist.attack_time_ms < ATTACK_PREP_TIME_MS + 100);
        }
        t += 20;
    }
    assert_eq!(strike_count, 1);
    // The finished stab left the duelist cooling down.
    assert!(duelist.cooldown_ms > 0);
}

#[test]
fn duel_attack_commits_past_point_of_no_return() {
    let duel = Duel::start(Difficulty::Hard, false, &CoinLedger::new(15, 15));
    let mut duelist = Duelist::fresh(true);
    duelist_input(&mut duelist, true, true, false, false);
    for _ in 0..3 {
        duelist_phase_tick(&mut duelist, &duel, Difficulty::Hard, 100);
    }
    // 300 ms in: releasing the key no longer cancels the attack.
    duelist_input(&mut duelist, false, false, false, false);
    duelist_phase_tick(&mut duelist, &duel, Difficulty::Hard, 100);
    assert!(duelist.attack_time_ms >= 400);
}

#[test]
fn duel_clock_reports_deltas_against_entry_coins() {
    let entry = CoinLedger::new(15, 15);
    let mut duel = Duel::start(Difficulty::Hard, false, &entry);
    duel.my_coins = 18;
    duel.your_coins = 0;
    let finish = coin_contest::mini_game::duel::duel_clock(&mut duel, &entry, 16)
        .expect("a drained stake ends the duel");
    assert_eq!(finish.my_coins, 3);
    assert_eq!(finish.your_coins, -15);
}

#[test]
fn boat_hit_costs_two_and_shields() {
    let mut boat = Boat {
        my_boat: false,
        x_milli: 0,
        y_milli: 0,
        move_x_milli: 0,
        move_y_milli: 0,
        invulnerable_ms: 0,
        coins: 6,
    };
    assert!(boat.hit());
    assert_eq!(boat.coins, 4);
    assert_eq!(boat.invulnerable_ms, 1000);
    // Shielded: the second hit does not land.
    assert!(!boat.hit());
    assert_eq!(boat.coins, 4);
    boat.invulnerable_ms = 0;
    boat.coins = 1;
    assert!(boat.hit());
    assert_eq!(boat.coins, 0);
}

#[test]
fn boats_finish_when_either_side_drains() {
    let mut mine = Boat {
        my_boat: true,
        x_milli: 0,
        y_milli: 0,
        move_x_milli: 0,
        move_y_milli: 0,
        invulnerable_ms: 0,
        coins: 6,
    };
    let yours = Boat { my_boat: false, coins: 4, ..mine };
    assert!(boats_update_coins(&mine, &yours).is_none());
    mine.coins = 0;
    let finish = boats_update_coins(&mine, &yours).expect("a drained side ends the game");
    assert_eq!(finish.my_coins, 0);
    assert_eq!(finish.your_coins, 4);
}

#[test]
fn boat_movement_normalises_diagonals() {
    assert_eq!(player_boat_movement(false, false, false, true), (1500, 0));
    assert_eq!(player_boat_movement(true, false, false, false), (0, 1500));
    assert_eq!(player_boat_movement(true, false, false, true), (1061, 1061));
    assert_eq!(player_boat_movement(false, true, true, false), (-1061, -1061));
    assert_eq!(player_boat_movement(false, false, false, false), (0, 0));
}

#[test]
fn cannon_ball_grows_lands_and_splashes() {
    let mut ball = cannon_ball_spawn(150_000, 0);
    assert!(!ball.dir_set);
    // Aimed inward on its first tick; the growth runs through falling,
    // then landing, then the splash.
    let mut phase = cannon_ball_tick(&mut ball, -90_000, 0, 100);
    assert!(matches!(phase, CannonBallPhase::Falling));
    assert!(ball.dir_set);
    let mut ticks = 0;
    while matches!(phase, CannonBallPhase::Falling) {
        phase = cannon_ball_tick(&mut ball, 0, 0, 100);
        ticks += 1;
        assert!(ticks < 10_000);
    }
    assert_eq!(ball.falling_size, 1000);
    assert!(!coin_contest::mini_game::boats::in_hit_window(&ball));
    while matches!(phase, CannonBallPhase::Landing) {
        phase = cannon_ball_tick(&mut ball, 0, 0, 100);
        ticks += 1;
        assert!(ticks < 10_000);
    }
    // In the landing window past 0.35 the ball threatens the boats.
    assert!(coin_contest::mini_game::boats::in_hit_window(&ball));
    assert!(matches!(phase, CannonBallPhase::Done));
    // The ball drifted along its aim.
    assert!(ball.x_milli < 150_000);
}

#[test]
fn cannon_spawn_chance_by_difficulty() {
    assert!(cannon_spawns(Difficulty::Normal, 49));
    assert!(!cannon_spawns(Difficulty::Normal, 50));
    assert!(cannon_spawns(Difficulty::Hard, 79));
    assert!(!cannon_spawns(Difficulty::Hard, 80));
}

#[test]
fn pong_scores_and_walls() {
    let mut puck = Puck { x_milli: 0, y_milli: 0, vx_milli: 0, vy_milli: 0 };
    // A still puck takes the seeded direction at speed 60.
    puck_seed_velocity(&mut puck, 707, 707);
    assert_eq!(puck.vx_milli, 42_420);
    assert_eq!(puck.vy_milli, 42_420);
    // A seeded puck keeps its velocity.
    puck_seed_velocity(&mut puck, -707, 707);
    assert_eq!(puck.vx_milli, 42_420);

    // The right wall folds the horizontal velocity inward.
    let mut puck = Puck { x_milli: 155_500, y_milli: 0, vx_milli: 60_000, vy_milli: 1000 };
    let event = puck_flight(&mut puck, 1000);
    assert!(matches!(event, PuckEvent::Flying));
    assert_eq!(puck.vx_milli, -60_000);

    // Past the top edge the player's side scores.
    let mut puck = Puck { x_milli: 0, y_milli: 99_000, vx_milli: 0, vy_milli: 60_000 };
    let event = puck_flight(&mut puck, 1000);
    assert!(matches!(event, PuckEvent::ScoreYours));

    // Past the bottom edge the narrator's side scores.
    let mut puck = Puck { x_milli: 0, y_milli: -99_000, vx_milli: 0, vy_milli: -60_000 };
    let event = puck_flight(&mut puck, 1000);
    assert!(matches!(event, PuckEvent::ScoreMine));
}

#[test]
fn pong_shell_spawns_and_finishes_at_six() {
    let mut pong = Pong::new();
    let (spawn, finish) = pong_update(&mut pong, true, 16);
    assert!(spawn);
    assert!(finish.is_none());
    // Ten seconds of play bring the second puck.
    let mut spawned = 0;
    for _ in 0..700 {
        let (s, _) = pong_update(&mut pong, true, 16);
        if s {
            spawned += 1;
        }
    }
    assert_eq!(spawned, 1);
    pong.my_coins = 4;
    pong.your_coins = 2;
    let (_, finish) = pong_update(&mut pong, true, 16);
    let finish = finish.expect("six coins out ends the game");
    assert_eq!(finish.my_coins, 4);
    assert_eq!(finish.your_coins, 2);
    // The end reports once.
    let (_, finish) = pong_update(&mut pong, true, 16);
    assert!(finish.is_none());
}

#[test]
fn pong_paddles_move_and_chase() {
    // The player's paddle moves 250 units a second and clamps.
    assert_eq!(player_paddle_move(0, false, true, 100), 25_000);
    assert_eq!(player_paddle_move(130_000, false, true, 1000), 140_000);
    assert_eq!(player_paddle_move(0, true, false, 100), -25_000);
    // The narrator's paddle chases without overshooting and lets a close
    // target be.
    assert_eq!(ai_paddle_move(0, 100_000, 100), 15_000);
    assert_eq!(ai_paddle_move(60_000, 100_000, 1000), 100_000);
    assert_eq!(ai_paddle_move(90_000, 100_000, 1000), 90_000);
}

#[test]
fn pong_ai_picks_the_nearest_puck() {
    let pucks = vec![
        Puck { x_milli: 100_000, y_milli: 0, vx_milli: 0, vy_milli: 0 },
        Puck { x_milli: 10_000, y_milli: 10_000, vx_milli: 0, vy_milli: 0 },
        Puck { x_milli: -50_000, y_milli: 0, vx_milli: 0, vy_milli: 0 },
    ];
    assert_eq!(ai_pick_target(0, 0, &pucks), Some(1));
    let empty: Vec<Puck> = vec![];
    assert_eq!(ai_pick_target(0, 0, &empty), None);
}

#[test]
fn pong_bounce_speeds_up_and_follows_the_normal() {
    let mut puck = Puck { x_milli: 0, y_milli: -74_000, vx_milli: 0, vy_milli: -60_000 };
    // Contact with the player's paddle below: the rebound points up.
    assert!(puck_bounce(&mut puck, 0, -80_000, 20_000));
    assert!(puck.vy_milli > 60_000);
    // A degenerate contact through the paddle's centre changes nothing.
    let mut centered = Puck { x_milli: 0, y_milli: -80_000, vx_milli: 10, vy_milli: 10 };
    assert!(!puck_bounce(&mut centered, 0, -80_000, 20_000));
    assert_eq!(centered.vx_milli, 10);
}

#[test]
fn duel_ai_chances_follow_the_player_clocks() {
    // Idle with the player's charge young: the base 30 per-mille attack
    // chance admits a roll of 29 and refuses 30.
    let mut ai = Duelist::fresh(false);
    duel_ai_tick(&mut ai, Difficulty::Normal, 0, 0, false, 29, 999, 999);
    assert!(ai.wants_to_attack);
    let mut ai = Duelist::fresh(false);
    duel_ai_tick(&mut ai, Difficulty::Normal, 0, 0, false, 30, 999, 999);
    assert!(!ai.wants_to_attack);
    // A visible charge invites a defence: 10 plus a fifth of the charge.
    let mut ai = Duelist::fresh(false);
    duel_ai_tick(&mut ai, Difficulty::Normal, 100, 0, false, 999, 29, 999);
    assert!(ai.wants_to_defend);
    let mut ai = Duelist::fresh(false);
    duel_ai_tick(&mut ai, Difficulty::Normal, 100, 0, false, 999, 30, 999);
    assert!(!ai.wants_to_defend);
    // Mid-attack at the stab midpoint the feint chance peaks at the base.
    let mut ai = Duelist::fresh(false);
    ai.wants_to_attack = true;
    ai.attack_time_ms = ATTACK_PREP_TIME_MS / 2;
    duel_ai_tick(&mut ai, Difficulty::Normal, 0, 0, false, 999, 999, 4);
    assert!(!ai.wants_to_attack);
    let mut ai = Duelist::fresh(false);
    ai.wants_to_attack = true;
    ai.attack_time_ms = ATTACK_PREP_TIME_MS / 2;
    duel_ai_tick(&mut ai, Difficulty::Normal, 0, 0, false, 999, 999, 5);
    assert!(ai.wants_to_attack);
    // A cooling player and a held defence raise the attack chance.
    let mut ai = Duelist::fresh(false);
    duel_ai_tick(&mut ai, Difficulty::Normal, 0, 1000, true, 179, 999, 999);
    assert!(ai.wants_to_attack);
}

#[test]
fn display_coins_mirror_the_round() {
    let mut controller = RpsController::start();
    controller.my_coins = 4;
    controller.your_coins = 2;
    let mut mini_game = MiniGame::new();
    rps_update_coins(&controller, &mut mini_game);
    assert_eq!(mini_game.display_my_coins, 4);
    assert_eq!(mini_game.display_your_coins, 2);
}

#[test]
fn pong_level_contact_biases_upward() {
    // A puck level with the paddle would rebound flat; the bias turns the
    // rebound upward instead.
    let mut puck = Puck { x_milli: 50_000, y_milli: -80_000, vx_milli: -60_000, vy_milli: 0 };
    assert!(puck_bounce(&mut puck, 0, -80_000, 20_000));
    assert!(puck.vy_milli > 0);
    assert!(puck.vx_milli > 0);
}

#[test]
fn boats_enter_stakes_six_coins_each() {
    let (mine, yours) = boats_enter();
    assert!(mine.my_boat && !yours.my_boat);
    assert_eq!(mine.coins, 6);
    assert_eq!(yours.coins, 6);
    assert_eq!(mine.x_milli, 100_000);
    assert_eq!(yours.x_milli, -100_000);
    assert_eq!(mine.invulnerable_ms, 0);
}

#[test]
fn cannon_ball_damage_step_strikes_the_overlapped_boat() {
    let (mut mine, mut yours) = boats_enter();
    let boat_shape = CollisionShape { w_milli: 48_000, h_milli: 67_200 };
    let mut query = CollisionQuery::new();
    query.push(CollisionQueryEntry {
        id: 1,
        x_milli: mine.x_milli,
        y_milli: mine.y_milli,
        shape: boat_shape,
        flags: 0x1000,
    });
    query.push(CollisionQueryEntry {
        id: 2,
        x_milli: yours.x_milli,
        y_milli: yours.y_milli,
        shape: boat_shape,
        flags: 0x1000,
    });
    let ball_shape = CollisionShape { w_milli: 20_000, h_milli: 20_000 };
    let mut ball = cannon_ball_spawn(100_000, 0);
    // Not yet in its landing window: nothing happens.
    assert!(!cannon_ball_hit_boats(&ball, ball_shape, &query, None, 1, 2, &mut mine, &mut yours));
    assert_eq!(mine.coins, 6);
    ball.falling_size = 1000;
    ball.landing_size = 400;
    // In the window, over the narrator's boat: two coins off and a shield.
    assert!(cannon_ball_hit_boats(&ball, ball_shape, &query, None, 1, 2, &mut mine, &mut yours));
    assert_eq!(mine.coins, 4);
    assert_eq!(mine.invulnerable_ms, 1000);
    assert_eq!(yours.coins, 6);
    // Shielded: the next landing ball does nothing.
    assert!(!cannon_ball_hit_boats(&ball, ball_shape, &query, None, 1, 2, &mut mine, &mut yours));
    assert_eq!(mine.coins, 4);
}

#[test]
fn pong_events_pay_their_side() {
    let mut pong = Pong::new();
    assert!(!pong_apply_event(&mut pong, PuckEvent::Flying));
    assert!(pong_apply_event(&mut pong, PuckEvent::ScoreMine));
    assert!(pong_apply_event(&mut pong, PuckEvent::ScoreYours));
    assert!(pong_apply_event(&mut pong, PuckEvent::ScoreYours));
    assert_eq!(pong.my_coins, 2);
    assert_eq!(pong.your_coins, 4);
}

#[test]
fn pong_paddles_claim_distinct_pucks() {
    let mut pucks = vec![
        Puck { x_milli: 10_000, y_milli: 0, vx_milli: 0, vy_milli: 0 },
        Puck { x_milli: 50_000, y_milli: 0, vx_milli: 0, vy_milli: 0 },
    ];
    let first = ai_claim_target(0, 0, &mut pucks).expect("a puck to chase");
    assert_eq!(first.x_milli, 10_000);
    let second = ai_claim_target(0, 0, &mut pucks).expect("the other puck");
    assert_eq!(second.x_milli, 50_000);
    assert!(ai_claim_target(0, 0, &mut pucks).is_none());
}

#[test]
fn gauntlet_rebound_is_ten_units_faster() {
    let mut puck = Puck { x_milli: 0, y_milli: -74_000, vx_milli: 0, vy_milli: -150_000 };
    assert!(eg_puck_bounce(&mut puck, 0, -80_000));
    assert_eq!(puck.vy_milli, 160_000);
    assert_eq!(puck.vx_milli, 0);
    // The minigame's rebound off the same contact is twenty faster.
    let mut puck = Puck { x_milli: 0, y_milli: -74_000, vx_milli: 0, vy_milli: -150_000 };
    assert!(puck_bounce(&mut puck, 0, -80_000, 20_000));
    assert_eq!(puck.vy_milli, 170_000);
}

#[test]
fn pong_bounce_is_exactly_the_scaled_normal() {
    // A square-on contact from below: the normal is straight up, the old
    // speed 60 gains the 20-unit boost, and the rebound is exactly
    // (0, 80) units per second.
    let mut puck = Puck { x_milli: 0, y_milli: -74_000, vx_milli: 0, vy_milli: -60_000 };
    assert!(puck_bounce(&mut puck, 0, -80_000, 20_000));
    assert_eq!(puck.vx_milli, 0);
    assert_eq!(puck.vy_milli, 80_000);
}

#[test]
fn pong_bounce_biases_a_level_contact_upward() {
    // A dead-level contact beside the paddle: the flat normal takes a full
    // unit of upward bias and renormalises to (707, 707) milli-units; a
    // still puck rebounds at the bare boost.
    let mut puck = Puck { x_milli: 10_000, y_milli: -80_000, vx_milli: 0, vy_milli: 0 };
    assert!(puck_bounce(&mut puck, 0, -80_000, 20_000));
    assert_eq!(puck.vx_milli, 14_140);
    assert_eq!(puck.vy_milli, 14_140);
    // The gauntlet rebound differs only in the smaller boost.
    let mut puck = Puck { x_milli: 10_000, y_milli: -80_000, vx_milli: 0, vy_milli: 0 };
    assert!(eg_puck_bounce(&mut puck, 0, -80_000));
    assert_eq!(puck.vx_milli, 7_070);
    assert_eq!(puck.vy_milli, 7_070);
}

#[test]
fn puck_extract_steps_out_along_the_normal() {
    let mut query = CollisionQuery::new();
    query.push(CollisionQueryEntry {
        id: 7,
        x_milli: 0,
        y_milli: 0,
        shape: CollisionShape { w_milli: 20_000, h_milli: 20_000 },
        flags: 0x1000,
    });
    // Overlapping from above: the normal points up, and two unit steps
    // clear the 11-unit overlap threshold.
    let mut puck = Puck { x_milli: 0, y_milli: 9_000, vx_milli: 0, vy_milli: -60_000 };
    let shape = CollisionShape { w_milli: 2_000, h_milli: 2_000 };
    let free = coin_contest::mini_game::pong::puck_extract(&mut puck, &query, shape, None, 10);
    assert!(free);
    assert_eq!((puck.x_milli, puck.y_milli), (0, 11_000));
    assert_eq!(puck.vy_milli, -60_000);
    // A puck on the collider's exact centre has no normal: it marches in
    // place and reports the failure.
    let mut centred = Puck { x_milli: 0, y_milli: 0, vx_milli: 0, vy_milli: 0 };
    let free = coin_contest::mini_game::pong::puck_extract(&mut centred, &query, shape, None, 3);
    assert!(!free);
    assert_eq!((centred.x_milli, centred.y_milli), (0, 0));
}

#[test]
fn boats_depenetrate_before_moving() {
    let mut query = CollisionQuery::new();
    query.push(CollisionQueryEntry {
        id: 3,
        x_milli: 0,
        y_milli: 0,
        shape: CollisionShape { w_milli: 20_000, h_milli: 20_000 },
        flags: 0x1000,
    });
    let shape = CollisionShape { w_milli: 2_000, h_milli: 2_000 };
    let (x, y, free) =
        coin_contest::mini_game::boats::depenetrate_point(&query, 9_000, 0, shape, None, 5);
    assert!(free);
    assert_eq!((x, y), (11_000, 0));
    // The boat wrapper moves the boat and touches nothing else.
    let (mut mine, _) = boats_enter();
    mine.x_milli = 9_000;
    mine.y_milli = 0;
    let free = coin_contest::mini_game::boats::boat_depenetrate(&mut mine, &query, shape, None);
    assert!(free);
    assert_eq!((mine.x_milli, mine.y_milli), (11_000, 0));
    assert_eq!(mine.coins, 6);
    // Five steps cannot clear a deep overlap: the boat reports it.
    let (mut stuck, _) = boats_enter();
    stuck.x_milli = 1_000;
    stuck.y_milli = 0;
    let free = coin_contest::mini_game::boats::boat_depenetrate(&mut stuck, &query, shape, None);
    assert!(!free);
    assert_eq!((stuck.x_milli, stuck.y_milli), (6_000, 0));
}

#[test]
fn cannon_ball_ticks_shorter_than_ten_milliseconds() {
    // A host ticking faster than a hundred hertz still gets the exact
    // drift and growth; five milliseconds at the starting speed round to
    // no growth at all.
    let mut ball = cannon_ball_spawn(150_000, 0);
    let phase = cannon_ball_tick(&mut ball, -90_000, 0, 5);
    assert!(matches!(phase, CannonBallPhase::Falling));
    assert!(ball.dir_set);
    assert_eq!(ball.falling_size, 0);
    assert_eq!(ball.speed_milli, 100);
    assert_eq!(ball.x_milli, 150_000 - 450);
}

#[test]
fn random_rps_steps_walk_the_same_machine() {
    // The countdown's first armed crossing voices stage one whatever pick
    // the generator holds back for stage four.
    let mut rng = coin_contest::rng::seeded_rng(42);
    let mut controller = RpsController::start();
    let cue = coin_contest::rng::rps_countdown_tick_random(&mut controller, 900, &mut rng);
    assert_eq!(cue.stage_audio, Some(1));
    assert!(matches!(controller.state, RpsState::Countdown { stage: 1, can_advance: false }));
    assert_eq!(controller.rounds, 3);
    // A losing narrator with a zero reshoot chance resolves the round
    // whatever was drawn: the player's two coins and the spent round.
    let mut controller = RpsController::start();
    controller.state = RpsState::Play {
        time_ms: 1500,
        my_selection: RpsSelect::Rock,
        your_selection: RpsSelect::Paper,
        selection_window_ms: 0,
    };
    let cue = coin_contest::rng::rps_play_tick_random(&mut controller, 1000, 0, &mut rng);
    assert!(!cue.reshoot_audio);
    assert!(cue.finish.is_none());
    assert_eq!(controller.your_coins, 2);
    assert_eq!(controller.rounds, 2);
}
