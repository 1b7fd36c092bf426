use coin_contest::board::end_game::{end_game_init, end_game_update, EndGame, EndGameState};
use coin_contest::board::moving::{moving_init, moving_update, Moving};
use coin_contest::board::pawn::{pawn_move, Pawn};
use coin_contest::board::shop::{shop_open, shop_update, ShopOutcome};
use coin_contest::board::starting::starting_update;
use coin_contest::board::turn_input::{turn_input_update, TurnInputKeys};
use coin_contest::board::turn_intro::{turn_intro_init, turn_intro_update, TurnIntro};
use coin_contest::board::{Board, BoardState};
use coin_contest::dialogue::Dialogue;
use coin_contest::game::{Difficulty, Game, GameState};
use coin_contest::ledger::CoinLedger;
use coin_contest::tile::{tiles, TileType, TILE_COUNT};

fn no_keys() -> TurnInputKeys {
    TurnInputKeys {
        space_just_pressed: false,
        f_just_pressed: false,
        r_just_pressed: false,
        c_just_pressed: false,
    }
}

fn drain(dialogue: &mut Dialogue) {
    while dialogue.busy() {
        dialogue.advance_if_confirm(true);
    }
}

#[test]
fn tile_ring_has_31_tiles_and_cycles_from_tile_1() {
    let ring = tiles();
    assert_eq!(ring.len(), TILE_COUNT);
    assert_eq!(ring.len(), 31);
    // The two shop tiles.
    assert!(matches!(ring[13].tile_type, TileType::Green));
    assert!(matches!(ring[26].tile_type, TileType::Green));
    // Walking `next` from tile 1 visits every tile but the entry and
    // returns to tile 1 after 30 steps.
    let mut seen = [false; 31];
    let mut at = 1usize;
    for _ in 0..30 {
        seen[at] = true;
        at = coin_contest::tile::next_tile(at);
    }
    assert_eq!(at, 1);
    assert!(!seen[0]);
    for (i, s) in seen.iter().enumerate() {
        assert_eq!(*s, i != 0, "tile {} reachability", i);
    }
    // The entry tile feeds into the cycle.
    assert_eq!(coin_contest::tile::next_tile(0), 1);
    assert_eq!(coin_contest::tile::next_tile(30), 1);
    // The centring translation: raw (935, 934) lands on half-units.
    assert_eq!(ring[0].x_half, 2 * 935 - 1481);
    assert_eq!(ring[0].y_half, 1381 - 2 * 934);
}

#[test]
fn normal_turn_one_narrator_lands_blue_and_gains_a_coin() {
    // Normal difficulty, round 1: the narrator rolls a scripted 5, walks
    // five tiles from the entry, lands on Blue, and the ledger moves from
    // 15 to 16; the board then hands the turn to the player.
    let ring = tiles();
    let mut game = Game::blank();
    game.start(Difficulty::Normal);
    assert_eq!(game.coins, CoinLedger { my_coins: 15, your_coins: 15 });
    let mut board = Board::initial();
    let mut dialogue = Dialogue::new();
    let state = board.enter();
    assert!(matches!(state, BoardState::Starting));

    // Starting queues the nine-line tutorial, waits for it, then shows
    // the banner.
    coin_contest::board::starting::starting_init(&game, &mut board, &mut dialogue);
    assert_eq!(dialogue.entries.len(), 9);
    assert_eq!(dialogue.entries[0].text, "Welcome to my board game!");
    assert!(starting_update(&game, &dialogue).is_none());
    drain(&mut dialogue);
    let next = starting_update(&game, &dialogue);
    assert_eq!(next, Some(BoardState::TurnIntro));

    // The banner runs for one second.
    let mut intro = TurnIntro { animation: None };
    let cue = turn_intro_init(&mut board, &mut intro);
    assert!(cue.turnstart_audio);
    assert!(cue.my_turn_banner);
    assert!(turn_intro_update(&mut intro, 500).is_none());
    assert_eq!(turn_intro_update(&mut intro, 500), Some(BoardState::TurnInput));

    // The narrator's turn needs no input.
    let next = turn_input_update(&board, &dialogue, no_keys());
    assert_eq!(next, Some(BoardState::Moving));

    // The roll is the scripted 5.
    let mut moving = Moving { sent_dialogue: false };
    let roll = moving_init(&game, &mut board, &mut moving, Difficulty::Normal, 1);
    assert_eq!(roll, 5);
    assert!(board.moving);

    // The pawn hops a tile per tick at this tick length.
    let mut pawn = Pawn::at_start(false, &ring);
    let mut hops = 0;
    while board.moving {
        let cue = pawn_move(&mut pawn, &mut board, false, &ring, 1000);
        assert!(cue.move_audio);
        hops += 1;
        assert!(hops <= 6);
    }
    assert_eq!(pawn.tile, 5);
    assert!(matches!(pawn.tile_type, TileType::Blue));

    // Landing settles the ledger and hands the turn over.
    let next = moving_update(
        &mut game,
        &mut board,
        &mut moving,
        &mut dialogue,
        pawn.tile_type,
        Difficulty::Normal,
    );
    assert_eq!(game.coins.my_coins, 16);
    assert_eq!(game.coins.your_coins, 15);
    assert_eq!(next, Some(BoardState::TurnIntro));
    assert!(!board.my_turn);
    // The turn counter moves only after the minigame completes.
    assert_eq!(game.turn, 1);

    // The player's half of the round: banner, Space, a fixed 6 on Normal,
    // a landing on Red, and the post-turn beat into the info screen.
    let cue = turn_intro_init(&mut board, &mut intro);
    assert!(!cue.my_turn_banner);
    turn_intro_update(&mut intro, 1000);
    let keys = TurnInputKeys { space_just_pressed: true, ..no_keys() };
    assert_eq!(turn_input_update(&board, &dialogue, keys), Some(BoardState::Moving));
    let roll = moving_init(&game, &mut board, &mut moving, Difficulty::Normal, 1);
    assert_eq!(roll, 6);
    let mut your_pawn = Pawn::at_start(true, &ring);
    let mut hops = 0;
    while board.moving {
        pawn_move(&mut your_pawn, &mut board, false, &ring, 1000);
        hops += 1;
        assert!(hops <= 7);
    }
    assert_eq!(your_pawn.tile, 6);
    assert!(matches!(your_pawn.tile_type, TileType::Red));
    // The first-round taunt lines come before the settlement.
    let next = moving_update(
        &mut game,
        &mut board,
        &mut moving,
        &mut dialogue,
        your_pawn.tile_type,
        Difficulty::Normal,
    );
    assert!(next.is_none());
    assert_eq!(dialogue.entries.len(), 2);
    drain(&mut dialogue);
    let next = moving_update(
        &mut game,
        &mut board,
        &mut moving,
        &mut dialogue,
        your_pawn.tile_type,
        Difficulty::Normal,
    );
    assert_eq!(next, Some(BoardState::Ending));
    assert_eq!(game.coins.your_coins, 14);
    assert_eq!(game.coins.my_coins, 16);
    // The half-second beat, then the session shows the info screen.
    let mut ending = coin_contest::board::ending::Ending { animation: None };
    coin_contest::board::ending::ending_init(&game, &mut ending, &mut dialogue);
    assert_eq!(dialogue.entries.len(), 3);
    drain(&mut dialogue);
    let next = coin_contest::board::ending::ending_update(&game, &mut ending, &dialogue, 501);
    assert!(matches!(next, coin_contest::board::ending::EndingNext::ToInfoScreen));
}

#[test]
fn hard_player_roll_advances_exactly_and_red_costs_three() {
    // Hard difficulty, the player's turn: the die shows 3 or 6; a roll of
    // 3 from the entry ends on tile 3, which is Red, and costs three
    // coins, saturating.
    let ring = tiles();
    let mut game = Game::blank();
    game.start(Difficulty::Hard);
    assert_eq!(game.coins, CoinLedger { my_coins: 15, your_coins: 10 });
    game.turn = 4;
    let mut board = Board::initial();
    board.enter();
    board.my_turn = false;
    board.active_pawn = coin_contest::ledger::Side::Yours;
    let mut moving = Moving { sent_dialogue: true };
    let roll = moving_init(&game, &mut board, &mut moving, Difficulty::Hard, 1);
    assert_eq!(roll, 3);
    let mut pawn = Pawn::at_start(true, &ring);
    let mut hops = 0;
    while board.moving {
        pawn_move(&mut pawn, &mut board, false, &ring, 1000);
        hops += 1;
        assert!(hops <= 4);
    }
    // The pawn advanced exactly three tiles past the entry.
    assert_eq!(pawn.tile, 3);
    assert!(matches!(pawn.tile_type, TileType::Red));
    let mut dialogue = Dialogue::new();
    let mut moving = Moving { sent_dialogue: true };
    let next = moving_update(
        &mut game,
        &mut board,
        &mut moving,
        &mut dialogue,
        pawn.tile_type,
        Difficulty::Hard,
    );
    assert_eq!(game.coins.your_coins, 7);
    assert_eq!(game.coins.my_coins, 15);
    assert_eq!(next, Some(BoardState::Ending));
}

#[test]
fn green_tile_on_player_turn_opens_shop() {
    // The player's pawn crossing a Green tile opens the shop mid-move.
    let ring = tiles();
    let mut board = Board::initial();
    board.enter();
    board.my_turn = false;
    board.active_pawn = coin_contest::ledger::Side::Yours;
    board.moving = true;
    board.moves = 3;
    let mut pawn = Pawn::at_start(true, &ring);
    pawn.tile = 10;
    pawn.x_milli = (ring[10].x_half as i64) * 500;
    pawn.y_milli = (ring[10].y_half as i64) * 500;
    let mut opened = false;
    let mut hops = 0;
    while board.moving && !board.shop {
        let cue = pawn_move(&mut pawn, &mut board, false, &ring, 1000);
        opened = opened || cue.shop_open;
        hops += 1;
        assert!(hops <= 5);
    }
    // Tile 13 is Green: the shop opened there.
    assert!(opened);
    assert!(board.shop);
    assert_eq!(pawn.tile, 13);
    assert!(matches!(pawn.tile_type, TileType::Green));
}

#[test]
fn rapier_purchase_boundaries() {
    // At exactly the cost the shop warns of the red tile ahead; four coins
    // above it sells.
    let mut board = Board::initial();
    board.shop = true;
    let mut dialogue = Dialogue::new();
    let mut ledger = CoinLedger::new(15, 10);
    let (outcome, _) = shop_update(&mut board, &mut ledger, &mut dialogue, false, true);
    assert!(matches!(outcome, ShopOutcome::RefusedWouldLose));
    assert_eq!(ledger.your_coins, 10);
    assert!(matches!(board.your_item, coin_contest::item::Item::Empty));

    drain(&mut dialogue);
    let mut ledger = CoinLedger::new(15, 14);
    let (outcome, cue) = shop_update(&mut board, &mut ledger, &mut dialogue, false, true);
    assert!(matches!(outcome, ShopOutcome::Bought));
    assert!(cue.buy_audio);
    assert_eq!(ledger.your_coins, 4);

    drain(&mut dialogue);
    let mut board = Board::initial();
    board.shop = true;
    let mut ledger = CoinLedger::new(15, 9);
    let (outcome, _) = shop_update(&mut board, &mut ledger, &mut dialogue, false, true);
    assert!(matches!(outcome, ShopOutcome::RefusedTooPoor));
}

#[test]
fn rapier_purchase_happy_path() {
    // Twenty coins and an empty slot: R buys the rapier for ten, the shop
    // closes, and the confirmation line is queued.
    let mut board = Board::initial();
    board.shop = true;
    board.first_shop = false;
    let mut dialogue = Dialogue::new();
    let mut ledger = CoinLedger::new(15, 20);
    let (outcome, cue) = shop_update(&mut board, &mut ledger, &mut dialogue, false, true);
    assert!(matches!(outcome, ShopOutcome::Bought));
    assert!(cue.buy_audio);
    assert_eq!(ledger.your_coins, 10);
    assert!(matches!(board.your_item, coin_contest::item::Item::Rapier));
    assert!(!board.shop);
    assert_eq!(board.your_item_use_interpolate, 0);
    assert_eq!(dialogue.entries.len(), 1);
    assert_eq!(dialogue.entries[0].text, "You bought a rapier!");
}

#[test]
fn shop_first_visit_tour_and_full_slot_refusal() {
    let mut board = Board::initial();
    let mut dialogue = Dialogue::new();
    shop_open(&mut board, &mut dialogue);
    assert!(!board.first_shop);
    assert_eq!(dialogue.entries.len(), 6);
    assert_eq!(dialogue.entries[0].text, "You made it to the shop!");

    let mut dialogue = Dialogue::new();
    board.your_item = coin_contest::item::Item::Rapier;
    shop_open(&mut board, &mut dialogue);
    assert_eq!(dialogue.entries.len(), 1);
    assert_eq!(dialogue.entries[0].text, "You already have an item!");

    // An occupied slot closes the shop without input.
    board.shop = true;
    let mut ledger = CoinLedger::new(15, 20);
    let (outcome, _) = shop_update(&mut board, &mut ledger, &mut dialogue, false, false);
    assert!(matches!(outcome, ShopOutcome::Idle));
    while dialogue.busy() {
        dialogue.advance_if_confirm(true);
    }
    let (outcome, _) = shop_update(&mut board, &mut ledger, &mut dialogue, false, false);
    assert!(matches!(outcome, ShopOutcome::ClosedSlotFull));
    assert!(!board.shop);
}

#[test]
fn drained_balance_ends_the_game_from_starting() {
    let mut game = Game::blank();
    game.start(Difficulty::Normal);
    game.coins.your_coins = 0;
    let dialogue = Dialogue::new();
    assert_eq!(starting_update(&game, &dialogue), Some(BoardState::EndGame));
}

#[test]
fn end_game_classifies_and_plays_trump_card_on_win() {
    // The narrator drained: a win; the trump card rises, the threat is
    // spoken, and the session moves to the end-sequence.
    let mut game = Game::blank();
    game.start(Difficulty::Normal);
    game.coins.my_coins = 0;
    let mut end_game = EndGame { state: EndGameState::Lose };
    let mut dialogue = Dialogue::new();
    end_game_init(&mut end_game, &game, &mut dialogue);
    assert!(matches!(end_game.state, EndGameState::Win));
    assert_eq!(dialogue.entries.len(), 3);
    drain(&mut dialogue);
    let mut board = Board::initial();
    let cue = end_game_update(&mut end_game, &mut board, &mut dialogue, 1000);
    assert!(cue.item_audio);
    assert!(!cue.reset_send);
    // 750 milli-fractions after one second; the next second completes it.
    let _ = end_game_update(&mut end_game, &mut board, &mut dialogue, 1000);
    assert!(matches!(end_game.state, EndGameState::Win2));
    assert_eq!(dialogue.entries.len(), 2);
    drain(&mut dialogue);
    let cue = end_game_update(&mut end_game, &mut board, &mut dialogue, 1000);
    assert!(cue.to_end_game_phase);
}

#[test]
fn end_game_tie_and_loss_reset() {
    let mut game = Game::blank();
    game.start(Difficulty::Normal);
    game.coins.my_coins = 0;
    game.coins.your_coins = 0;
    let mut end_game = EndGame { state: EndGameState::Win };
    let mut dialogue = Dialogue::new();
    end_game_init(&mut end_game, &game, &mut dialogue);
    assert!(matches!(end_game.state, EndGameState::Tie));
    assert_eq!(dialogue.entries.len(), 4);
    drain(&mut dialogue);
    let mut board = Board::initial();
    let cue = end_game_update(&mut end_game, &mut board, &mut dialogue, 100);
    assert!(cue.reset_send);

    let mut game = Game::blank();
    game.start(Difficulty::Normal);
    game.coins.your_coins = 0;
    let mut end_game = EndGame { state: EndGameState::Win };
    let mut dialogue = Dialogue::new();
    end_game_init(&mut end_game, &game, &mut dialogue);
    assert!(matches!(end_game.state, EndGameState::Lose));
    assert_eq!(dialogue.entries.len(), 2);
}

#[test]
fn turn_input_reads_player_keys() {
    let mut board = Board::initial();
    board.my_turn = false;
    let dialogue = Dialogue::new();
    let mut keys = no_keys();
    assert!(turn_input_update(&board, &dialogue, keys).is_none());
    keys.f_just_pressed = true;
    assert_eq!(turn_input_update(&board, &dialogue, keys), Some(BoardState::FreeCam));
    keys = no_keys();
    keys.r_just_pressed = true;
    // No rapier held: nothing happens.
    assert!(turn_input_update(&board, &dialogue, keys).is_none());
    board.your_item = coin_contest::item::Item::Rapier;
    assert_eq!(turn_input_update(&board, &dialogue, keys), Some(BoardState::UseItem));
    keys = no_keys();
    keys.space_just_pressed = true;
    assert_eq!(turn_input_update(&board, &dialogue, keys), Some(BoardState::Moving));
}

#[test]
fn use_item_consumes_rapier_and_arms_duel() {
    let mut game = Game::blank();
    game.start(Difficulty::Normal);
    let mut board = Board::initial();
    board.your_item = coin_contest::item::Item::Rapier;
    let mut use_item = coin_contest::board::use_item::UseItem { item: coin_contest::item::Item::Empty };
    let mut dialogue = Dialogue::new();
    coin_contest::board::use_item::use_item_init(&mut game, &board, &mut use_item, &mut dialogue);
    assert!(game.duel);
    assert_eq!(dialogue.entries.len(), 2);
    drain(&mut dialogue);
    // The ramp takes a second; then input resumes.
    let next = coin_contest::board::use_item::use_item_update(&mut board, &dialogue, 600);
    assert!(next.is_none());
    let next = coin_contest::board::use_item::use_item_update(&mut board, &dialogue, 600);
    assert_eq!(next, Some(BoardState::TurnInput));
    coin_contest::board::use_item::use_item_cleanup(&mut board, &mut use_item);
    assert!(matches!(board.your_item, coin_contest::item::Item::Empty));
}

#[test]
fn narrator_rolls_alternate_after_the_first_round() {
    let mut game = Game::blank();
    game.start(Difficulty::Normal);
    let mut board = Board::initial();
    let mut moving = Moving { sent_dialogue: false };
    for (turn, expected) in [(1u32, 5u32), (2, 5), (3, 4), (4, 5), (5, 4)] {
        game.turn = turn;
        board.my_turn = true;
        let roll = moving_init(&game, &mut board, &mut moving, Difficulty::Normal, 1);
        assert_eq!(roll, expected, "round {}", turn);
    }
}

#[test]
fn pawn_keeps_pace_between_tiles() {
    // A pawn mid-hop, too far to arrive in one tick, covers at least half
    // a tick's travel on its dominant axis and never more than the full
    // step on either.
    let ring = tiles();
    let mut board = Board::initial();
    board.moving = true;
    board.moves = 1;
    let mut pawn = Pawn::at_start(false, &ring);
    // Standing on the entry tile, heading for tile 1: 88 units away in x.
    pawn.tile = 1;
    let x0 = pawn.x_milli;
    let y0 = pawn.y_milli;
    let cue = pawn_move(&mut pawn, &mut board, false, &ring, 100);
    assert!(!cue.move_audio);
    let moved_x = (pawn.x_milli - x0).abs();
    let moved_y = (pawn.y_milli - y0).abs();
    // One tick at 100 ms travels 20 units; the dominant axis keeps at
    // least 10.
    assert!(moved_x.max(moved_y) >= 10_000);
    assert!(moved_x <= 20_000 && moved_y <= 20_000);
    // It walks toward the target, not past it.
    assert!(pawn.x_milli < x0 && pawn.x_milli >= (ring[1].x_half as i64) * 500);
}
