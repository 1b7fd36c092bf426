//! The board's ring of 31 coloured tiles. Positions are kept in half-units
//! (twice the board coordinate), so the centre translation lands on whole
//! numbers. Tile `i` is followed by tile `i + 1`, except the last, which is
//! followed by tile 1: tile 0 is the entry of the ring and is never
//! re-entered.

use vstd::prelude::*;

verus! {

pub const TILE_COUNT: usize = 31;

/// The colour of a tile, which decides its coin effect: Blue pays out, Red
/// costs, Green opens the shop.
#[derive(Copy, Clone, PartialEq, Eq, Structural, Debug)]
pub enum TileType {
    Blue,
    Red,
    Green,
}

/// One tile: its colour and its board position in half-units.
#[derive(Copy, Clone, PartialEq, Eq, Structural, Debug)]
pub struct TileDef {
    pub x_half: i32,
    pub y_half: i32,
    pub tile_type: TileType,
}

/// The index of the tile that follows tile `i` on the ring.
pub open spec fn spec_next_tile(i: usize) -> usize {
    if i + 1 < TILE_COUNT {
        (i + 1) as usize
    } else {
        1usize
    }
}

#[verifier::when_used_as_spec(spec_next_tile)]
pub fn next_tile(i: usize) -> (r: usize)
    requires
        i < TILE_COUNT,
    ensures
        r == spec_next_tile(i),
        r < TILE_COUNT,
        r >= 1,
{
    if i + 1 < TILE_COUNT {
        i + 1
    } else {
        1
    }
}

/// The colour of tile `i` by its ring index.
pub open spec fn spec_tile_color(i: int) -> TileType {
    if i == 3 || i == 6 || i == 9 || i == 12 || i == 15 || i == 18 || i == 21 || i == 24 || i == 27
        || i == 30 {
        TileType::Red
    } else if i == 13 || i == 26 {
        TileType::Green
    } else {
        TileType::Blue
    }
}

/// The position of tile `i` in half-units: the raw board table after the
/// centre translation.
pub open spec fn spec_tile_position(i: int) -> (int, int) {
    if i == 0 {
        (389, -487)
    } else if i == 1 {
        (213, -419)
    } else if i == 2 {
        (59, -475)
    } else if i == 3 {
        (-123, -481)
    } else if i == 4 {
        (-281, -437)
    } else if i == 5 {
        (-407, -373)
    } else if i == 6 {
        (-479, -275)
    } else if i == 7 {
        (-513, -175)
    } else if i == 8 {
        (-551, -77)
    } else if i == 9 {
        (-571, 21)
    } else if i == 10 {
        (-507, 107)
    } else if i == 11 {
        (-419, 177)
    } else if i == 12 {
        (-313, 241)
    } else if i == 13 {
        (-273, 333)
    } else if i == 14 {
        (-323, 421)
    } else if i == 15 {
        (-411, 505)
    } else if i == 16 {
        (-435, 593)
    } else if i == 17 {
        (-313, 637)
    } else if i == 18 {
        (-171, 641)
    } else if i == 19 {
        (-33, 647)
    } else if i == 20 {
        (91, 623)
    } else if i == 21 {
        (211, 577)
    } else if i == 22 {
        (301, 507)
    } else if i == 23 {
        (363, 413)
    } else if i == 24 {
        (393, 319)
    } else if i == 25 {
        (411, 213)
    } else if i == 26 {
        (395, 111)
    } else if i == 27 {
        (381, -1)
    } else if i == 28 {
        (349, -111)
    } else if i == 29 {
        (319, -221)
    } else {
        (277, -317)
    }
}

/// The 31 tiles in ring order. Raw board coordinates are translated by
/// (-740.5, +690.5) with the y axis flipped, then doubled into half-units.
pub fn tiles() -> (v: Vec<TileDef>)
    ensures
        v@.len() == TILE_COUNT,
        forall|i: int| 0 <= i < TILE_COUNT ==> (#[trigger] v@[i]).tile_type == spec_tile_color(i),
        forall|i: int|
            0 <= i < TILE_COUNT ==> (#[trigger] v@[i]).x_half == spec_tile_position(i).0
                && v@[i].y_half == spec_tile_position(i).1,
        forall|i: int|
            0 <= i < TILE_COUNT ==> -2000 <= (#[trigger] v@[i]).x_half <= 2000 && -2000
                <= v@[i].y_half <= 2000,
{
    let mut v: Vec<TileDef> = Vec::new();
    v.push(tile_at(935, 934, TileType::Blue));
    v.push(tile_at(847, 900, TileType::Blue));
    v.push(tile_at(770, 928, TileType::Blue));
    v.push(tile_at(679, 931, TileType::Red));
    v.push(tile_at(600, 909, TileType::Blue));
    v.push(tile_at(537, 877, TileType::Blue));
    v.push(tile_at(501, 828, TileType::Red));
    v.push(tile_at(484, 778, TileType::Blue));
    v.push(tile_at(465, 729, TileType::Blue));
    v.push(tile_at(455, 680, TileType::Red));
    v.push(tile_at(487, 637, TileType::Blue));
    v.push(tile_at(531, 602, TileType::Blue));
    v.push(tile_at(584, 570, TileType::Red));
    v.push(tile_at(604, 524, TileType::Green));
    v.push(tile_at(579, 480, TileType::Blue));
    v.push(tile_at(535, 438, TileType::Red));
    v.push(tile_at(523, 394, TileType::Blue));
    v.push(tile_at(584, 372, TileType::Blue));
    v.push(tile_at(655, 370, TileType::Red));
    v.push(tile_at(724, 367, TileType::Blue));
    v.push(tile_at(786, 379, TileType::Blue));
    v.push(tile_at(846, 402, TileType::Red));
    v.push(tile_at(891, 437, TileType::Blue));
    v.push(tile_at(922, 484, TileType::Blue));
    v.push(tile_at(937, 531, TileType::Red));
    v.push(tile_at(946, 584, TileType::Blue));
    v.push(tile_at(938, 635, TileType::Green));
    v.push(tile_at(931, 691, TileType::Red));
    v.push(tile_at(915, 746, TileType::Blue));
    v.push(tile_at(900, 801, TileType::Blue));
    v.push(tile_at(879, 849, TileType::Red));
    v
}

/// Centres a raw tile coordinate: x moves by -740.5, y flips and moves by
/// +690.5; the result is stored doubled so it stays integral.
fn tile_at(raw_x: i32, raw_y: i32, tile_type: TileType) -> (t: TileDef)
    requires
        0 <= raw_x <= 1000,
        0 <= raw_y <= 1000,
    ensures
        t.x_half == 2 * raw_x - 1481,
        t.y_half == 1381 - 2 * raw_y,
        -2000 <= t.x_half <= 2000,
        -2000 <= t.y_half <= 2000,
        t.tile_type == tile_type,
{
    TileDef { x_half: 2 * raw_x - 1481, y_half: 1381 - 2 * raw_y, tile_type }
}

/// The tile reached from tile 1 after `k` steps along `next`.
pub open spec fn spec_walk_from_one(k: nat) -> usize
    decreases k,
{
    if k == 0 {
        1usize
    } else {
        spec_next_tile(spec_walk_from_one((k - 1) as nat))
    }
}

/// Walking from tile 1 visits the tiles 1, 2, ..., 30 in rotation: after
/// `k` steps the walk stands on tile `(k % 30) + 1`.
pub proof fn lemma_walk_position(k: nat)
    ensures
        spec_walk_from_one(k) == (k % 30) + 1,
    decreases k,
{
    if k == 0 {
    } else {
        lemma_walk_position((k - 1) as nat);
        assert((k - 1) % 30 == if k % 30 == 0 { 29int } else { k % 30 - 1 }) by (nonlinear_arith);
    }
}

/// Reachability on the ring: every tile other than the entry tile 0 is
/// reached from tile 1 by following `next`, in fewer than 30 steps, and the
/// walk returns to tile 1 after exactly 30 steps. The entry tile 0 is
/// deliberately outside the cycle: the last tile points back at tile 1.
pub proof fn lemma_ring_reachable(j: usize)
    requires
        1 <= j < TILE_COUNT,
    ensures
        spec_walk_from_one((j - 1) as nat) == j,
        spec_walk_from_one(30nat) == 1,
{
    lemma_walk_position((j - 1) as nat);
    lemma_walk_position(30nat);
}

} // verus!
