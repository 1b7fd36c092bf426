use coin_contest::dice::DiceState;
use coin_contest::item::{Item, RAPIER_COST};
use coin_contest::ledger::{add_saturating, sub_saturating, CoinLedger, Side};

#[test]
fn balances_stay_non_negative_under_any_debits() {
    let mut ledger = CoinLedger::new(3, 5);
    ledger.sub(Side::Mine, 100);
    ledger.sub(Side::Yours, 2);
    assert_eq!(ledger.my_coins, 0);
    assert_eq!(ledger.your_coins, 3);
    ledger.sub(Side::Yours, 4);
    assert_eq!(ledger.your_coins, 0);
}

#[test]
fn sub_saturates_then_stays_zero() {
    // A debit larger than the balance yields zero; any further debit still
    // yields zero.
    let mut ledger = CoinLedger::new(15, 7);
    ledger.sub(Side::Yours, 9);
    assert_eq!(ledger.your_coins, 0);
    ledger.sub(Side::Yours, 1);
    assert_eq!(ledger.your_coins, 0);
    ledger.sub(Side::Yours, 1_000_000);
    assert_eq!(ledger.your_coins, 0);
    assert_eq!(ledger.my_coins, 15);
}

#[test]
fn add_saturates_at_ceiling() {
    assert_eq!(add_saturating(u32::MAX - 1, 5), u32::MAX);
    assert_eq!(add_saturating(10, 5), 15);
    assert_eq!(sub_saturating(10, 5), 5);
    assert_eq!(sub_saturating(5, 10), 0);
}

#[test]
fn ledger_add_only_touches_one_side() {
    let mut ledger = CoinLedger::new(1, 2);
    ledger.add(Side::Mine, 3);
    assert_eq!(ledger.my_coins, 4);
    assert_eq!(ledger.your_coins, 2);
    assert!(!ledger.is_empty(Side::Mine));
}

#[test]
fn item_slot_holds_at_most_one() {
    let mut slot = Item::Empty;
    assert!(!slot.is_held());
    assert!(slot.acquire(Item::Rapier));
    assert!(slot.is_held());
    // Acquiring into an occupied slot is refused and changes nothing.
    assert!(!slot.acquire(Item::CrystalBall));
    assert!(matches!(slot, Item::Rapier));
    let taken = slot.take();
    assert!(matches!(taken, Item::Rapier));
    assert!(matches!(slot, Item::Empty));
}

#[test]
fn rapier_cost_is_ten() {
    assert_eq!(RAPIER_COST, 10);
}

#[test]
fn dice_snap_plays_ding_once() {
    let mut dice = DiceState::new();
    let cue = dice.start(5);
    assert!(cue.start_roll_audio);
    let cue = dice.tick(600);
    assert!(!cue.ding && !cue.roll_end);
    let cue = dice.tick(600);
    // The face snaps at one second: the ding plays exactly once.
    assert!(cue.ding);
    assert!(cue.stop_roll_audio);
    assert!(!cue.roll_end);
    assert_eq!(dice.face_frame(), 9);
    let cue = dice.tick(400);
    assert!(!cue.ding);
    assert!(cue.roll_end);
    assert!(!dice.is_rolling());
}

#[test]
fn dice_set_value_after_snap_does_not_resnap() {
    let mut dice = DiceState::new();
    dice.start(4);
    dice.tick(1000);
    // Snapped; the ding has played.
    assert!(dice.snapped);
    dice.set_value(2);
    assert!(dice.snapped);
    let cue = dice.tick(100);
    assert!(!cue.ding);
    assert_eq!(dice.face_frame(), 6);
}

#[test]
fn dice_spin_frames_cycle_before_snap() {
    let mut dice = DiceState::new();
    dice.start(1);
    assert_eq!(dice.face_frame(), 0);
    dice.tick(100);
    // 100 ms at 15 frames a second is frame 1 of the four-frame cycle.
    assert_eq!(dice.face_frame(), 1);
    dice.tick(600);
    assert_eq!(dice.face_frame(), (700 * 15 / 1000) % 4);
}

#[test]
fn dice_dismiss_stops_roll_audio() {
    let mut dice = DiceState::new();
    dice.start(3);
    let cue = dice.dismiss();
    assert!(cue.stop_roll_audio);
    assert!(!dice.visible);
}
