use coin_contest::cont::continue_update;
use coin_contest::dialogue::Dialogue;
use coin_contest::end_game::boats::{eg_boat_take_hit, EgBoat};
use coin_contest::end_game::duel::{eg_duel_enter, eg_duel_update, EgDuel};
use coin_contest::end_game::pong::{eg_pong_enter, eg_pong_update, eg_puck_flight, EgPong};
use coin_contest::end_game::rps::{eg_rps_enter, eg_rps_input, eg_rps_update, EgRps};
use coin_contest::end_game::{end_game_update, EndGame, EndGameState};
use coin_contest::game::{
    reset_hotkey, reset_receive, reset_tick, Difficulty, Game, GameState,
};
use coin_contest::info_screen::{info_screen_enter, info_screen_update, InfoScreen};
use coin_contest::intro::{intro_enter, intro_update, IntroState};
use coin_contest::ledger::CoinLedger;
use coin_contest::mini_game::rps::RpsSelect;
use coin_contest::mini_game::{
    mini_game_enter, mini_game_finish_banner, mini_game_practice_quit, mini_game_settle,
    mini_game_start_banner, MiniGame, MiniGameFinish, MiniGameState, ReadyText,
};
use coin_contest::setup::{setup_update, SetupKeys};
use coin_contest::board::free_cam::{free_cam_pan, FREE_CAM_MAX_X, FREE_CAM_MIN_Y};
use coin_contest::collision::{CollisionFilter, CollisionQuery, CollisionQueryEntry, CollisionShape};
use coin_contest::num::{clamp_i64, clamp_u32, isqrt64};
use coin_contest::board::free_cam::{free_cam_cleanup, free_cam_init, free_cam_update};

fn drain(dialogue: &mut Dialogue) {
    while dialogue.busy() {
        dialogue.advance_if_confirm(true);
    }
}

fn fresh_gauntlet() -> EndGame {
    let mut end_game = EndGame { turn: 9, state_time_ms: 9, switch: true, my_health: 1, your_health: 1 };
    end_game.enter();
    end_game
}

#[test]
fn reset_then_setup_restores_the_configured_ledger() {
    // A reset drops to Loading, runs the grace timer, and the restarted
    // Setup yields exactly the configured initial ledger.
    let mut state = GameState::Board;
    let mut game = Game::blank();
    game.coins = CoinLedger::new(3, 7);
    let cue = reset_receive(&mut state, &mut game, true);
    assert!(cue.broadcast_reset);
    assert!(matches!(state, GameState::Loading));
    assert_eq!(game.reset_timer_ms, 1000);
    let cue = reset_tick(&mut game, 600);
    assert!(!cue.assets_ready);
    let cue = reset_tick(&mut game, 600);
    assert!(cue.assets_ready);
    let next = game.start(Difficulty::Normal);
    assert!(matches!(next, GameState::Setup));
    assert_eq!(game.coins, CoinLedger { my_coins: 15, your_coins: 15 });
    assert_eq!(game.turn, 1);

    let mut game = Game::blank();
    game.start(Difficulty::Hard);
    assert_eq!(game.coins, CoinLedger { my_coins: 15, your_coins: 10 });
}

#[test]
fn reset_is_refused_in_loading() {
    let mut state = GameState::Loading;
    let mut game = Game::blank();
    let cue = reset_receive(&mut state, &mut game, true);
    assert!(!cue.broadcast_reset);
    assert!(!reset_hotkey(&state, true));
    assert!(reset_hotkey(&GameState::Board, true));
}

#[test]
fn setup_picks_color_and_difficulty() {
    let mut game = Game::blank();
    let mut difficulty = Difficulty::Normal;
    let keys = SetupKeys {
        y_just_pressed: false,
        b_just_pressed: false,
        o_just_pressed: false,
        key1_just_pressed: true,
    };
    let next = setup_update(&mut game, &mut difficulty, keys);
    assert_eq!(next, Some(GameState::Intro));
    assert!(matches!(difficulty, Difficulty::Hard));
    let keys = SetupKeys {
        y_just_pressed: true,
        b_just_pressed: false,
        o_just_pressed: false,
        key1_just_pressed: false,
    };
    let next = setup_update(&mut game, &mut difficulty, keys);
    assert_eq!(next, Some(GameState::Intro));
    assert!(matches!(difficulty, Difficulty::Normal));
}

#[test]
fn intro_script_rolls_ten_then_three_then_opens_board() {
    let mut game = Game::blank();
    game.start(Difficulty::Normal);
    let mut intro = IntroState::End;
    intro_enter(&mut intro);
    assert!(matches!(intro, IntroState::Dialogue1));
    let mut dialogue = Dialogue::new();
    let cue = intro_update(&mut game, &mut intro, &mut dialogue);
    assert_eq!(dialogue.entries.len(), 7);
    assert!(cue.dice_start.is_none());
    // Blocked until the speech drains.
    let cue = intro_update(&mut game, &mut intro, &mut dialogue);
    assert!(cue.dice_start.is_none());
    drain(&mut dialogue);
    let cue = intro_update(&mut game, &mut intro, &mut dialogue);
    assert_eq!(cue.dice_start, Some(10));
    assert!(game.dice_roll);
    // Blocked until the die settles.
    let cue = intro_update(&mut game, &mut intro, &mut dialogue);
    assert!(cue.dice_start.is_none());
    game.dice_roll = false;
    intro_update(&mut game, &mut intro, &mut dialogue);
    drain(&mut dialogue);
    let cue = intro_update(&mut game, &mut intro, &mut dialogue);
    assert_eq!(cue.dice_start, Some(3));
    game.dice_roll = false;
    intro_update(&mut game, &mut intro, &mut dialogue);
    drain(&mut dialogue);
    let cue = intro_update(&mut game, &mut intro, &mut dialogue);
    assert!(cue.dice_hide);
    assert_eq!(cue.next_session, Some(GameState::Board));
}

#[test]
fn info_screen_selects_by_duel_flag_and_parity() {
    let mut game = Game::blank();
    game.start(Difficulty::Normal);
    let mut info = InfoScreen { active: false, mini_game: MiniGameState::Inactive };
    info_screen_enter(&mut info, &game);
    assert!(matches!(info.mini_game, MiniGameState::Boats));
    game.turn = 2;
    info_screen_enter(&mut info, &game);
    assert!(matches!(info.mini_game, MiniGameState::Rps));
    game.duel = true;
    info_screen_enter(&mut info, &game);
    assert!(matches!(info.mini_game, MiniGameState::Duel));
}

#[test]
fn info_screen_intercepts_the_first_space_with_practice_advice() {
    let mut game = Game::blank();
    game.start(Difficulty::Normal);
    assert!(game.practice_first_message);
    let mut info = InfoScreen { active: false, mini_game: MiniGameState::Inactive };
    info_screen_enter(&mut info, &game);
    let mut mini_game = MiniGame::new();
    let mut dialogue = Dialogue::new();
    let step = info_screen_update(&mut game, &info, &mut mini_game, &mut dialogue, true, false);
    assert!(step.start.is_none());
    assert_eq!(dialogue.entries.len(), 2);
    assert!(!game.practice_first_message);
    drain(&mut dialogue);
    // The second Space starts the real run.
    let step = info_screen_update(&mut game, &info, &mut mini_game, &mut dialogue, true, false);
    assert_eq!(step.start, Some(MiniGameState::Boats));
    assert_eq!(step.next_session, Some(GameState::MiniGame));
    assert!(!step.practice);
    // Return starts a practice run.
    let step = info_screen_update(&mut game, &info, &mut mini_game, &mut dialogue, false, true);
    assert!(step.practice);
    assert!(mini_game.practice);
}

#[test]
fn minigame_banners_and_turn_bump() {
    let mut game = Game::blank();
    game.start(Difficulty::Normal);
    game.turn = 3;
    let mut mini_game = MiniGame::new();
    let mut ready = ReadyText { ready_time_ms: 0, start_time_ms: 0, finish_time_ms: 0 };
    let mut dialogue = Dialogue::new();
    mini_game_enter(&game, &mut mini_game, &mut ready, &mut dialogue);
    assert!(mini_game.start && !mini_game.active);
    // A second of "Ready?", a second of "Start!", then the game is live.
    let cue = mini_game_start_banner(&mut mini_game, &mut ready, 500);
    assert!(cue.ready_audio);
    mini_game_start_banner(&mut mini_game, &mut ready, 500);
    let cue = mini_game_start_banner(&mut mini_game, &mut ready, 500);
    assert!(cue.start_audio);
    mini_game_start_banner(&mut mini_game, &mut ready, 500);
    mini_game_start_banner(&mut mini_game, &mut ready, 500);
    assert!(mini_game.active);
    assert!(!mini_game.start);

    // Settlement folds the deltas in, saturating at zero.
    let settled = mini_game_settle(
        &mut game,
        &mut mini_game,
        MiniGameFinish { my_coins: 4, your_coins: -100 },
    );
    assert!(settled);
    assert_eq!(game.coins.my_coins, 19);
    assert_eq!(game.coins.your_coins, 0);
    assert!(mini_game.finish);

    // Three seconds of "Finish!", then the board returns and the turn
    // counter finally moves.
    let (cue, next) = mini_game_finish_banner(&mut game, &mut mini_game, &mut ready, 1000);
    assert!(cue.finish_audio);
    assert!(next.is_none());
    mini_game_finish_banner(&mut game, &mut mini_game, &mut ready, 1000);
    mini_game_finish_banner(&mut game, &mut mini_game, &mut ready, 1000);
    let (_, next) = mini_game_finish_banner(&mut game, &mut mini_game, &mut ready, 1000);
    assert_eq!(next, Some(GameState::Board));
    assert_eq!(game.turn, 4);
    assert!(!game.duel);
}

#[test]
fn practice_settlement_leaves_the_ledger_alone() {
    let mut game = Game::blank();
    game.start(Difficulty::Normal);
    let mut mini_game = MiniGame::new();
    mini_game.practice = true;
    mini_game.active = true;
    mini_game_settle(&mut game, &mut mini_game, MiniGameFinish { my_coins: -10, your_coins: 10 });
    assert_eq!(game.coins, CoinLedger { my_coins: 15, your_coins: 15 });
    // Return quits a practice run back to the info screen.
    let next = mini_game_practice_quit(&mut mini_game, true);
    assert_eq!(next, Some(GameState::InfoScreen));
}

#[test]
fn gauntlet_dispatch_order_and_health_bounds() {
    let mut end_game = fresh_gauntlet();
    assert_eq!(end_game.my_health, 3);
    assert_eq!(end_game.your_health, 3);
    // The noise dispatches by the counter: rock-paper-scissors first.
    let step = end_game_update(&mut end_game, EndGameState::Noise, Difficulty::Normal, 501);
    assert_eq!(step.next_sub, Some(EndGameState::Rps));
    assert_eq!(end_game.turn, 1);
    let step = end_game_update(&mut end_game, EndGameState::Noise, Difficulty::Normal, 501);
    assert_eq!(step.next_sub, Some(EndGameState::Boats));
    let step = end_game_update(&mut end_game, EndGameState::Noise, Difficulty::Normal, 501);
    assert_eq!(step.next_sub, Some(EndGameState::Rps));
    let step = end_game_update(&mut end_game, EndGameState::Noise, Difficulty::Normal, 501);
    assert_eq!(step.next_sub, Some(EndGameState::Pong));
    let step = end_game_update(&mut end_game, EndGameState::Noise, Difficulty::Normal, 501);
    assert_eq!(step.next_sub, Some(EndGameState::Duel));
    // Health never leaves 0..=3.
    end_game.lose_my_heart();
    end_game.lose_my_heart();
    end_game.lose_my_heart();
    end_game.lose_my_heart();
    assert_eq!(end_game.my_health, 0);
}

#[test]
fn gauntlet_rps_losing_answer_costs_a_heart_and_draw_replays() {
    let mut end_game = fresh_gauntlet();
    end_game.turn = 1;
    let mut eg = EgRps { lost_health: false, my_select: RpsSelect::Rock, your_select: None };
    // The narrator commits Paper; the player answers Rock and loses.
    eg_rps_enter(&mut eg, 1);
    assert!(matches!(eg.my_select, RpsSelect::Paper));
    eg_rps_input(&mut eg, true, false, false);
    end_game.state_time_ms = 2501;
    eg_rps_update(&mut eg, &mut end_game);
    assert_eq!(end_game.your_health, 2);
    assert!(end_game.switch);
    // Settlement happens once.
    eg_rps_update(&mut eg, &mut end_game);
    assert_eq!(end_game.your_health, 2);

    // A draw rewinds the counter so the same game replays.
    let mut end_game = fresh_gauntlet();
    end_game.turn = 1;
    let mut eg = EgRps { lost_health: false, my_select: RpsSelect::Rock, your_select: None };
    eg_rps_enter(&mut eg, 0);
    eg_rps_input(&mut eg, true, false, false);
    end_game.state_time_ms = 2501;
    eg_rps_update(&mut eg, &mut end_game);
    assert_eq!(end_game.your_health, 3);
    assert_eq!(end_game.turn, 0);
}

#[test]
fn gauntlet_duel_takes_the_narrator_heart() {
    let mut end_game = fresh_gauntlet();
    let mut eg = EgDuel { attack_time_ms: 9, hit: true };
    eg_duel_enter(&mut eg);
    assert_eq!(eg.attack_time_ms, 0);
    // Holding the attack charges it; past the prep the hit lands once.
    let mut landed = 0;
    for _ in 0..10 {
        if eg_duel_update(&mut eg, &mut end_game, true, 100) {
            landed += 1;
        }
    }
    assert_eq!(landed, 1);
    assert_eq!(end_game.my_health, 2);
}

#[test]
fn end_sequence_loss_runs_to_continue() {
    // Three player losses — in the gauntlet's rock-paper-scissors, its
    // dodge and its rock-paper-scissors again — drain the player's hearts;
    // the final noise then moves the session to the continue screen on
    // Normal.
    let mut end_game = fresh_gauntlet();
    // Game 1: rock-paper-scissors, lost.
    let step = end_game_update(&mut end_game, EndGameState::Noise, Difficulty::Normal, 501);
    assert_eq!(step.next_sub, Some(EndGameState::Rps));
    let mut eg = EgRps { lost_health: false, my_select: RpsSelect::Rock, your_select: None };
    eg_rps_enter(&mut eg, 1);
    eg_rps_input(&mut eg, true, false, false);
    end_game.state_time_ms = 2501;
    eg_rps_update(&mut eg, &mut end_game);
    assert_eq!(end_game.your_health, 2);
    let step = end_game_update(&mut end_game, EndGameState::Rps, Difficulty::Normal, 16);
    assert_eq!(step.next_sub, Some(EndGameState::Noise));
    // Game 2: the dodge, hit once.
    let step = end_game_update(&mut end_game, EndGameState::Noise, Difficulty::Normal, 501);
    assert_eq!(step.next_sub, Some(EndGameState::Boats));
    let mut boat = EgBoat::fresh();
    assert!(eg_boat_take_hit(&mut boat, &mut end_game));
    assert_eq!(end_game.your_health, 1);
    // The long shield forbids a second heart in the same visit.
    assert!(!eg_boat_take_hit(&mut boat, &mut end_game));
    end_game.switch = true;
    let step = end_game_update(&mut end_game, EndGameState::Boats, Difficulty::Normal, 16);
    assert_eq!(step.next_sub, Some(EndGameState::Noise));
    // Game 3: rock-paper-scissors again, lost again.
    let step = end_game_update(&mut end_game, EndGameState::Noise, Difficulty::Normal, 501);
    assert_eq!(step.next_sub, Some(EndGameState::Rps));
    let mut eg = EgRps { lost_health: false, my_select: RpsSelect::Rock, your_select: None };
    eg_rps_enter(&mut eg, 1);
    eg_rps_input(&mut eg, true, false, false);
    end_game.state_time_ms = 2501;
    eg_rps_update(&mut eg, &mut end_game);
    assert_eq!(end_game.your_health, 0);
    let step = end_game_update(&mut end_game, EndGameState::Rps, Difficulty::Normal, 16);
    assert_eq!(step.next_sub, Some(EndGameState::Noise));
    // The final noise: two seconds later the session shows Continue.
    let step = end_game_update(&mut end_game, EndGameState::Noise, Difficulty::Normal, 1000);
    assert!(step.next_session.is_none());
    let step = end_game_update(&mut end_game, EndGameState::Noise, Difficulty::Normal, 1001);
    assert_eq!(step.next_session, Some(GameState::Continue));
    assert!(!step.reset_send);
}

#[test]
fn gauntlet_hard_loss_resets_and_win_ends() {
    let mut end_game = fresh_gauntlet();
    end_game.your_health = 0;
    let step = end_game_update(&mut end_game, EndGameState::Noise, Difficulty::Hard, 1000);
    assert!(!step.reset_send);
    let step = end_game_update(&mut end_game, EndGameState::Noise, Difficulty::Hard, 1001);
    assert!(step.reset_send);

    let mut end_game = fresh_gauntlet();
    end_game.my_health = 0;
    end_game.state_time_ms = 2000;
    let step = end_game_update(&mut end_game, EndGameState::Noise, Difficulty::Normal, 1);
    assert_eq!(step.next_session, Some(GameState::Ending));
}

#[test]
fn gauntlet_pong_drop_costs_one_heart() {
    let mut end_game = fresh_gauntlet();
    let mut eg = EgPong { next_spawn_ms: 0, lost_health: true };
    eg_pong_enter(&mut eg);
    assert_eq!(eg.next_spawn_ms, 200);
    let spawn = eg_pong_update(&mut eg, &mut end_game, 200);
    assert!(spawn);
    assert_eq!(eg.next_spawn_ms, 1000);
    // A puck falling straight down drops past the bottom edge.
    let mut puck = coin_contest::mini_game::pong::Puck {
        x_milli: 0,
        y_milli: -99_500,
        vx_milli: 0,
        vy_milli: -150_000,
    };
    let despawn = eg_puck_flight(&mut puck, &mut eg, &mut end_game, 16);
    assert!(despawn);
    assert!(eg.lost_health);
    assert_eq!(end_game.your_health, 2);
    // A second drop in the same visit costs nothing.
    let mut puck2 = coin_contest::mini_game::pong::Puck {
        x_milli: 0,
        y_milli: -99_500,
        vx_milli: 0,
        vy_milli: -150_000,
    };
    eg_puck_flight(&mut puck2, &mut eg, &mut end_game, 16);
    assert_eq!(end_game.your_health, 2);
}

#[test]
fn continue_screen_choices() {
    let step = continue_update(true, false);
    assert_eq!(step.next_session, Some(GameState::EndGame));
    let step = continue_update(false, true);
    assert!(step.reset_send);
    let step = continue_update(false, false);
    assert!(!step.reset_send && step.next_session.is_none());
}

#[test]
fn ending_resets_after_its_speech() {
    let mut game = Game::blank();
    game.start(Difficulty::Normal);
    let mut dialogue = Dialogue::new();
    coin_contest::ending::ending_enter(&mut dialogue);
    assert_eq!(dialogue.entries.len(), 3);
    assert!(!coin_contest::ending::ending_update(&game, &dialogue));
    drain(&mut dialogue);
    assert!(coin_contest::ending::ending_update(&game, &dialogue));
}

#[test]
fn dialogue_queue_gates_and_cues() {
    let mut dialogue = Dialogue::new();
    assert!(!dialogue.busy());
    let cue = dialogue.add(coin_contest::dialogue::DialogueEntry::line("One".to_string()));
    assert!(cue.play_audio);
    let cue = dialogue.add(coin_contest::dialogue::DialogueEntry::line("Two".to_string()));
    assert!(!cue.play_audio);
    assert!(dialogue.busy());
    // Confirm advances the head, each advance with its sound.
    let cue = dialogue.advance_if_confirm(false);
    assert!(!cue.play_audio);
    assert_eq!(dialogue.entries.len(), 2);
    let cue = dialogue.advance_if_confirm(true);
    assert!(cue.play_audio);
    assert_eq!(dialogue.entries[0].text, "Two");
    dialogue.advance_if_confirm(true);
    assert!(!dialogue.busy());
}

#[test]
fn seeded_draws_stay_in_range() {
    // The generator comes from outside; everything stated of the draws is
    // the ranges, and the rules consume them as plain values.
    let mut rng = coin_contest::rng::seeded_rng(7);
    for _ in 0..100 {
        let roll = coin_contest::rng::roll_per_mille(&mut rng);
        assert!(roll < 1000);
        let die = coin_contest::rng::draw_hard_roll(&mut rng);
        assert!((1..=2).contains(&die));
        let pick = coin_contest::rng::draw_rps_pick(&mut rng);
        assert!(pick <= 2);
    }
    // A draw below a bound of one is pinned.
    let below = coin_contest::rng::rand_below(&mut rng, 1);
    assert_eq!(below, 0);
}

#[test]
fn free_cam_pan_clamps_to_window() {
    let (x, y) = free_cam_pan(235_000, -235_000, 1, -1);
    assert_eq!(x, FREE_CAM_MAX_X);
    assert_eq!(y, FREE_CAM_MIN_Y);
    let (x, y) = free_cam_pan(0, 0, 1, 1);
    assert_eq!((x, y), (7_071, 7_071));
    let (x, y) = free_cam_pan(0, 0, 1, 0);
    assert_eq!((x, y), (10_000, 0));
}

#[test]
fn collision_checks_respect_filters_and_sweeps() {
    let mut query = CollisionQuery::new();
    query.push(CollisionQueryEntry {
        id: 1,
        x_milli: 0,
        y_milli: 0,
        shape: CollisionShape { w_milli: 10_000, h_milli: 10_000 },
        flags: 0x1000,
    });
    let probe = CollisionShape { w_milli: 10_000, h_milli: 10_000 };
    // Overlap at the origin; the filter excludes the probe itself.
    let hit = query.check(5_000, 0, probe, None).expect("overlapping");
    assert_eq!(hit.id, 1);
    let excluded = query.check(
        5_000,
        0,
        probe,
        Some(CollisionFilter { exclude_id: 1, flags: 0x1000 }),
    );
    assert!(excluded.is_none());
    let wrong_flags = query.check(
        5_000,
        0,
        probe,
        Some(CollisionFilter { exclude_id: 9, flags: 0x0100 }),
    );
    assert!(wrong_flags.is_none());
    // Out of range statically, but the sweep toward it hits.
    assert!(query.check(50_000, 0, probe, None).is_none());
    let sweep = query
        .check_moving(50_000, 0, -45_000, 0, probe, None)
        .expect("the sweep crosses the collider");
    assert!(sweep.collide_time_milli > 0);
    let clear = query.check_moving(50_000, 0, 20_000, 0, probe, None);
    assert!(clear.is_none());
}

#[test]
fn isqrt_and_clamps() {
    assert_eq!(isqrt64(0), 0);
    assert_eq!(isqrt64(1), 1);
    assert_eq!(isqrt64(8), 2);
    assert_eq!(isqrt64(9), 3);
    assert_eq!(isqrt64(10_000_000_000), 100_000);
    assert_eq!(clamp_i64(5, -1, 3), 3);
    assert_eq!(clamp_i64(-5, -1, 3), -1);
    assert_eq!(clamp_u32(5, 0, 1000), 5);
}

#[test]
fn collision_check_all_lists_every_overlap() {
    let mut query = CollisionQuery::new();
    let shape = CollisionShape { w_milli: 10_000, h_milli: 10_000 };
    for (id, x) in [(1u64, 0i64), (2, 5_000), (3, 50_000), (4, -5_000)] {
        query.push(CollisionQueryEntry { id, x_milli: x, y_milli: 0, shape, flags: 0x1000 });
    }
    let hits = query.check_all(0, 0, shape, None);
    assert_eq!(hits, vec![1, 2, 4]);
    let hits = query.check_all(
        0,
        0,
        shape,
        Some(CollisionFilter { exclude_id: 2, flags: 0x1000 }),
    );
    assert_eq!(hits, vec![1, 4]);
}

#[test]
fn minigame_exit_parks_and_ends_practice() {
    let mut mini_game = MiniGame::new();
    mini_game.practice = true;
    let mut state = MiniGameState::Rps;
    coin_contest::mini_game::mini_game_exit(&mut mini_game, &mut state);
    assert!(matches!(state, MiniGameState::Inactive));
    assert!(!mini_game.practice);
}

#[test]
fn gauntlet_boats_switch_after_its_window() {
    let mut end_game = fresh_gauntlet();
    end_game.state_time_ms = 4500;
    coin_contest::end_game::boats::eg_boats_update(&mut end_game);
    assert!(!end_game.switch);
    end_game.state_time_ms = 4501;
    coin_contest::end_game::boats::eg_boats_update(&mut end_game);
    assert!(end_game.switch);
}

#[test]
fn board_item_indicator_drifts_toward_holdings() {
    let mut board = coin_contest::board::Board::initial();
    // The narrator holds the trump card; the player holds nothing.
    board.my_item_use_interpolate = 990;
    board.your_item_use_interpolate = 20;
    board.interpolate_items();
    assert_eq!(board.my_item_use_interpolate, 1000);
    assert_eq!(board.your_item_use_interpolate, 0);
}

#[test]
fn gauntlet_rps_missing_answer_counts_as_rock() {
    let mut end_game = fresh_gauntlet();
    end_game.turn = 1;
    let mut eg = EgRps { lost_health: false, my_select: RpsSelect::Rock, your_select: None };
    // The narrator holds Paper; the player never answers, which counts as
    // Rock and loses.
    eg_rps_enter(&mut eg, 1);
    end_game.state_time_ms = 2501;
    eg_rps_update(&mut eg, &mut end_game);
    assert_eq!(end_game.your_health, 2);
}

#[test]
fn free_cam_toggles_overlay_and_returns_on_f() {
    let mut board = coin_contest::board::Board::initial();
    board.score_overlay = true;
    free_cam_init(&mut board);
    assert!(!board.score_overlay);
    assert!(free_cam_update(false).is_none());
    assert_eq!(
        free_cam_update(true),
        Some(coin_contest::board::BoardState::TurnInput)
    );
    free_cam_cleanup(&mut board);
    assert!(board.score_overlay);
}

#[test]
fn starting_rapier_reminder_comes_once() {
    let mut game = Game::blank();
    game.start(Difficulty::Normal);
    game.turn = 2;
    let mut board = coin_contest::board::Board::initial();
    board.your_item = coin_contest::item::Item::Rapier;
    let mut dialogue = Dialogue::new();
    coin_contest::board::starting::starting_init(&game, &mut board, &mut dialogue);
    assert_eq!(dialogue.entries.len(), 4);
    assert!(!board.rapier_dialog);
    drain(&mut dialogue);
    coin_contest::board::starting::starting_init(&game, &mut board, &mut dialogue);
    assert_eq!(dialogue.entries.len(), 0);
}

#[test]
fn collision_check_returns_the_first_passing_entry() {
    let mut query = CollisionQuery::new();
    let shape = CollisionShape { w_milli: 10_000, h_milli: 10_000 };
    query.push(CollisionQueryEntry { id: 7, x_milli: 2_000, y_milli: 0, shape, flags: 0x1000 });
    query.push(CollisionQueryEntry { id: 8, x_milli: -2_000, y_milli: 0, shape, flags: 0x1000 });
    let hit = query.check(0, 0, shape, None).expect("both overlap");
    assert_eq!(hit.id, 7);
    // With the first excluded, the second is the first passing entry.
    let hit = query
        .check(0, 0, shape, Some(CollisionFilter { exclude_id: 7, flags: 0x1000 }))
        .expect("the second still overlaps");
    assert_eq!(hit.id, 8);
}

#[test]
fn tile_positions_match_the_centred_table() {
    let ring = coin_contest::tile::tiles();
    // A few spots of the translated table, in half-units.
    assert_eq!((ring[0].x_half, ring[0].y_half), (389, -487));
    assert_eq!((ring[13].x_half, ring[13].y_half), (-273, 333));
    assert_eq!((ring[26].x_half, ring[26].y_half), (395, 111));
    assert_eq!((ring[30].x_half, ring[30].y_half), (277, -317));
}
