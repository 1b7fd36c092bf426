//! The pawn mover: carries the active pawn toward its target tile at a
//! fixed speed, hopping tile to tile while moves remain. Arriving within
//! one tick's travel of the target snaps the pawn there; a Green tile
//! reached on the player's turn opens the shop; the final arrival copies
//! the tile's colour into the pawn and ends the movement.

use vstd::prelude::*;

use crate::board::Board;
use crate::ledger::Side;
use crate::tile::{TileDef, TileType, spec_next_tile, next_tile, TILE_COUNT};

verus! {

/// Movement speed: 200 units per second, that is 200 milli-units per
/// millisecond.
pub const PAWN_SPEED_MILLI_PER_MS: u32 = 200;

/// Pawn coordinates stay inside this many milli-units of the origin.
pub const PAWN_BOUND: i64 = 2_000_000;

/// One pawn: its target tile on the ring, the colour of the tile it last
/// settled on, and its board position in milli-units.
#[derive(Copy, Clone, PartialEq, Eq, Structural, Debug)]
pub struct Pawn {
    pub tile: usize,
    pub tile_type: TileType,
    pub player: bool,
    pub x_milli: i64,
    pub y_milli: i64,
}

/// What one movement tick asks of the host.
#[derive(Copy, Clone, PartialEq, Eq, Structural, Debug)]
pub struct PawnMoveCue {
    /// Play the "move" hop sound.
    pub move_audio: bool,
    /// Show this value on the die (`DiceRollValue`).
    pub dice_value: Option<u32>,
    /// Take the die off screen (`DiceRollHide`).
    pub dice_hide: bool,
    /// The pawn reached a Green tile on the player's turn (`ShopOpen`).
    pub shop_open: bool,
}

impl Pawn {
    /// A pawn standing on the entry tile.
    pub fn at_start(player: bool, tiles: &Vec<TileDef>) -> (r: Pawn)
        requires
            tiles@.len() == TILE_COUNT,
        ensures
            r.tile == 0,
            r.tile_type == TileType::Blue,
            r.player == player,
            r.x_milli == tiles@[0].x_half * 500,
            r.y_milli == tiles@[0].y_half * 500,
    {
        Pawn {
            tile: 0,
            tile_type: TileType::Blue,
            player,
            x_milli: (tiles[0].x_half as i64) * 500,
            y_milli: (tiles[0].y_half as i64) * 500,
        }
    }

    pub open spec fn wf(&self, tiles: Seq<TileDef>) -> bool {
        &&& self.tile < TILE_COUNT
        &&& -PAWN_BOUND <= self.x_milli <= PAWN_BOUND
        &&& -PAWN_BOUND <= self.y_milli <= PAWN_BOUND
    }

    /// Whether this pawn is the one the board is currently moving.
    pub open spec fn spec_is_active(&self, board: Board) -> bool {
        (board.active_pawn is Yours) == self.player
    }
}

/// Tile positions in milli-units fit the pawn's working range.
pub open spec fn tiles_in_range(tiles: Seq<TileDef>) -> bool {
    forall|i: int|
        0 <= i < tiles.len() ==> -2000 <= (#[trigger] tiles[i]).x_half <= 2000 && -2000
            <= tiles[i].y_half <= 2000
}

/// One tick of pawn movement. Nothing happens unless the board is moving,
/// the die has settled, the shop is closed and this pawn is active; an idle
/// tick leaves everything unchanged.
pub fn pawn_move(
    pawn: &mut Pawn,
    board: &mut Board,
    dice_rolling: bool,
    tiles: &Vec<TileDef>,
    dt_ms: u32,
) -> (cue: PawnMoveCue)
    requires
        old(pawn).wf(tiles@),
        tiles@.len() == TILE_COUNT,
        tiles_in_range(tiles@),
        dt_ms <= 1000,
    ensures
        final(pawn).wf(tiles@),
        final(pawn).player == old(pawn).player,
        ({
            let engaged = old(board).moving && !dice_rolling && !old(board).shop
                && old(pawn).spec_is_active(*old(board));
            &&& !engaged ==> *final(pawn) == *old(pawn) && *final(board) == *old(board)
                && cue == (PawnMoveCue {
                move_audio: false,
                dice_value: Option::<u32>::None,
                dice_hide: false,
                shop_open: false,
            })
            &&& engaged ==> pawn_move_engaged(*old(pawn), *old(board), *final(pawn), *final(board), tiles@, dt_ms, cue)
        }),
{
    let engaged = board.moving && !dice_rolling && !board.shop && (matches!(
        board.active_pawn,
        Side::Yours,
    ) == pawn.player);
    if !engaged {
        return PawnMoveCue {
            move_audio: false,
            dice_value: Option::None,
            dice_hide: false,
            shop_open: false,
        };
    }
    let target = tiles[pawn.tile];
    let tx: i64 = (target.x_half as i64) * 500;
    let ty: i64 = (target.y_half as i64) * 500;
    let dx: i64 = tx - pawn.x_milli;
    let dy: i64 = ty - pawn.y_milli;
    let step: i64 = (dt_ms as i64) * 200;
    proof {
        assert(dx * dx >= 0 && dx * dx <= 9_000_000_000_000) by (nonlinear_arith)
            requires
                -3_000_000 <= dx <= 3_000_000,
        ;
        assert(dy * dy >= 0 && dy * dy <= 9_000_000_000_000) by (nonlinear_arith)
            requires
                -3_000_000 <= dy <= 3_000_000,
        ;
        assert(step * step >= 0 && step * step <= 40_000_000_000) by (nonlinear_arith)
            requires
                0 <= step <= 200_000,
        ;
    }
    let dist_sq: i64 = dx * dx + dy * dy;
    let step_sq: i64 = step * step;
    if dist_sq < step_sq {
        // Within one tick's travel: snap to the target tile.
        let mut cue = PawnMoveCue {
            move_audio: true,
            dice_value: Option::None,
            dice_hide: false,
            shop_open: false,
        };
        if matches!(target.tile_type, TileType::Green) && !board.my_turn {
            board.shop = true;
            cue.shop_open = true;
        }
        if board.moves > 0 {
            cue.dice_value = Option::Some(board.moves);
            board.moves = board.moves - 1;
            pawn.x_milli = tx;
            pawn.y_milli = ty;
            pawn.tile = next_tile(pawn.tile);
        } else {
            cue.dice_hide = true;
            pawn.tile_type = target.tile_type;
            board.moving = false;
        }
        cue
    } else {
        // Translate toward the target by one tick of speed.
        if step > 0 {
            let dist_u: u64 = crate::num::isqrt64(dist_sq as u64);
            proof {
                assert(dist_u <= 5_000_000) by (nonlinear_arith)
                    requires
                        (dist_u as int) * (dist_u as int) <= 18_000_000_000_000,
                ;
            }
            let dist: i64 = dist_u as i64;
            let adx: i64 = if dx >= 0 {
                dx
            } else {
                -dx
            };
            let ady: i64 = if dy >= 0 {
                dy
            } else {
                -dy
            };
            proof {
                lemma_dist_positive(dx, dy, step, dist);
                assert(adx * adx <= dist_sq && ady * ady <= dist_sq) by (nonlinear_arith)
                    requires
                        dist_sq == dx * dx + dy * dy,
                        adx == abs_i64(dx as int),
                        ady == abs_i64(dy as int),
                ;
                lemma_component_bounded(adx, step, dist);
                lemma_component_bounded(ady, step, dist);
            }
            let mag_x: i64 = adx * step / dist;
            let mag_y: i64 = ady * step / dist;
            let mx: i64 = if dx >= 0 {
                mag_x
            } else {
                -mag_x
            };
            let my_: i64 = if dy >= 0 {
                mag_y
            } else {
                -mag_y
            };
            proof {
                lemma_move_stays_between(pawn.x_milli, tx, mx);
                lemma_move_stays_between(pawn.y_milli, ty, my_);
                if adx >= ady {
                    assert(2 * (adx as int) * (adx as int) >= dist_sq as int) by (nonlinear_arith)
                        requires
                            dist_sq == dx * dx + dy * dy,
                            adx == abs_i64(dx as int),
                            ady == abs_i64(dy as int),
                            adx >= ady,
                    ;
                    lemma_dominant_progress(adx, step, dist, dist_sq);
                } else {
                    assert(2 * (ady as int) * (ady as int) >= dist_sq as int) by (nonlinear_arith)
                        requires
                            dist_sq == dx * dx + dy * dy,
                            adx == abs_i64(dx as int),
                            ady == abs_i64(dy as int),
                            ady >= adx,
                    ;
                    lemma_dominant_progress(ady, step, dist, dist_sq);
                }
            }
            pawn.x_milli = pawn.x_milli + mx;
            pawn.y_milli = pawn.y_milli + my_;
        }
        PawnMoveCue {
            move_audio: false,
            dice_value: Option::None,
            dice_hide: false,
            shop_open: false,
        }
    }
}

/// What an engaged movement tick does, as a relation between the states
/// before and after.
pub open spec fn pawn_move_engaged(
    p0: Pawn,
    b0: Board,
    p1: Pawn,
    b1: Board,
    tiles: Seq<TileDef>,
    dt_ms: u32,
    cue: PawnMoveCue,
) -> bool {
    let target = tiles[p0.tile as int];
    let tx = target.x_half * 500;
    let ty = target.y_half * 500;
    let dist_sq = (tx - p0.x_milli) * (tx - p0.x_milli) + (ty - p0.y_milli) * (ty - p0.y_milli);
    let step = dt_ms * PAWN_SPEED_MILLI_PER_MS;
    let arrived = dist_sq < step * step;
    &&& arrived ==> {
        &&& cue.move_audio
        &&& cue.shop_open == (target.tile_type is Green && !b0.my_turn)
        &&& b1 == (Board { shop: b1.shop, moves: b1.moves, moving: b1.moving, ..b0 })
        &&& b1.shop == (b0.shop || cue.shop_open)
        &&& b0.moves > 0 ==> {
            &&& cue.dice_value == Option::Some(b0.moves)
            &&& !cue.dice_hide
            &&& b1.moves == b0.moves - 1
            &&& b1.moving == b0.moving
            &&& p1.tile == spec_next_tile(p0.tile)
            &&& p1.x_milli == tx && p1.y_milli == ty
            &&& p1.tile_type == p0.tile_type
        }
        &&& b0.moves == 0 ==> {
            &&& cue.dice_value is None
            &&& cue.dice_hide
            &&& b1.moves == 0
            &&& !b1.moving
            &&& p1.tile == p0.tile
            &&& p1.tile_type == target.tile_type
        }
    }
    &&& !arrived ==> {
        &&& p1.tile == p0.tile && p1.tile_type == p0.tile_type
        &&& b1 == b0
        &&& cue == (PawnMoveCue {
            move_audio: false,
            dice_value: Option::<u32>::None,
            dice_hide: false,
            shop_open: false,
        })
        &&& abs_i64(p1.x_milli - p0.x_milli) <= step
        &&& abs_i64(p1.y_milli - p0.y_milli) <= step
        &&& between(p1.x_milli as int, p0.x_milli as int, tx as int)
        &&& between(p1.y_milli as int, p0.y_milli as int, ty as int)
        &&& (abs_i64(p1.x_milli - p0.x_milli) >= step / 2 || abs_i64(
            p1.y_milli - p0.y_milli,
        ) >= step / 2)
    }
}

pub open spec fn abs_i64(v: int) -> int {
    if v >= 0 {
        v
    } else {
        -v
    }
}

/// `v` lies in the closed interval spanned by `a` and `b`.
pub open spec fn between(v: int, a: int, b: int) -> bool {
    if a <= b {
        a <= v <= b
    } else {
        b <= v <= a
    }
}

proof fn lemma_dist_positive(dx: i64, dy: i64, step: i64, dist: i64)
    requires
        0 < step <= 200_000,
        dx * dx + dy * dy >= step * step,
        dist * dist <= dx * dx + dy * dy,
        (dist + 1) * (dist + 1) > dx * dx + dy * dy,
        dist >= 0,
    ensures
        dist >= step,
{
    assert(dist >= step) by (nonlinear_arith)
        requires
            0 < step,
            dx * dx + dy * dy >= step * step,
            (dist + 1) * (dist + 1) > dx * dx + dy * dy,
            dist >= 0,
    ;
}

proof fn lemma_component_bounded(d: i64, step: i64, dist: i64)
    requires
        0 <= d <= 3_000_000,
        0 < step <= 200_000,
        dist >= step,
        dist >= 0,
        (dist + 1) * (dist + 1) > d * d,
    ensures
        0 <= d * step <= 3_000_000 * 200_000,
        0 <= (d as int) * (step as int) / (dist as int) <= d,
        (d as int) * (step as int) / (dist as int) <= step,
{
    assert(0 <= d * step <= 3_000_000 * 200_000) by (nonlinear_arith)
        requires
            0 <= d <= 3_000_000,
            0 < step <= 200_000,
    ;
    assert(dist >= d) by (nonlinear_arith)
        requires
            (dist + 1) * (dist + 1) > d * d,
            dist >= 0,
            d >= 0,
    ;
    assert(0 <= (d as int) * (step as int) / (dist as int) <= d) by (nonlinear_arith)
        requires
            0 < step,
            dist >= step,
            dist >= d,
            d >= 0,
    ;
    assert((d as int) * (step as int) / (dist as int) <= step) by (nonlinear_arith)
        requires
            0 < step,
            dist >= step,
            dist >= d,
            d >= 0,
    ;
}

/// The axis carrying at least half of the squared distance keeps at least
/// half a tick's travel after the truncating projection: the pawn never
/// stalls short of its target.
proof fn lemma_dominant_progress(a: i64, step: i64, dist: i64, dist_sq: i64)
    requires
        0 <= a <= 3_000_000,
        0 < step <= 200_000,
        step <= dist,
        2 * (a as int) * (a as int) >= dist_sq as int,
        (dist as int) * (dist as int) <= dist_sq as int,
    ensures
        (a as int) * (step as int) / (dist as int) >= step / 2,
{
    let ai = a as int;
    let si = step as int;
    let di = dist as int;
    let h = si / 2;
    vstd::arithmetic::div_mod::lemma_fundamental_div_mod(si, 2);
    assert(2 * h <= si);
    assert(h >= 0);
    assert(2 * ai >= di) by (nonlinear_arith)
        requires
            2 * ai * ai >= di * di,
            ai >= 0,
            di >= 0,
    ;
    assert(ai * si >= h * di) by (nonlinear_arith)
        requires
            2 * ai >= di,
            2 * h <= si,
            h >= 0,
            ai >= 0,
            di >= 0,
            si >= 0,
    ;
    vstd::arithmetic::div_mod::lemma_div_by_multiple(h, di);
    vstd::arithmetic::div_mod::lemma_div_is_ordered(h * di, ai * si, di);
}

proof fn lemma_move_stays_between(x: i64, tx: i64, m: i64)
    requires
        tx - x >= 0 ==> 0 <= m <= tx - x,
        tx - x < 0 ==> tx - x <= m <= 0,
        -PAWN_BOUND <= x <= PAWN_BOUND,
        -3_000_000 <= tx - x <= 3_000_000,
    ensures
        between(x + m, x as int, tx as int),
{
}

} // verus!
