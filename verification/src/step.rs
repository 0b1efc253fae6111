//! The discrete step mover.
//!
//! Once per simulation tick the host hands over the keys that transitioned to
//! "pressed" this tick. Eight horizontal keys move the player by one tile
//! along `x` and `z`; two vertical keys move it by one unit of elevation.
//! The camera looks along the diagonal of the board, so the key for "screen
//! north", `W`, moves both horizontal axes: the diagonal-producing keys are
//! `W`, `A`, `D` and `X`, while `Q`, `E`, `Z` and `C` move a single axis.
//!
//! Every axis of every key is clamp-checked independently before it is
//! applied, so a diagonal key whose one axis is blocked still moves the
//! other. The bounds are deliberately asymmetric at the low edge of the
//! board: the lateral diagonal keys `A` (on `x`) and `D` (on `z`) may step
//! onto the outermost column or row at `-half_extent`, while every other key
//! stops one tile short, at `-half_extent + 1`. The outermost low edge is
//! therefore reachable only through a diagonal key. The high edge is
//! `half_extent - 1` for every key.

use vstd::prelude::*;

use crate::board::Board;
use crate::board::Pos;

verus! {

/// One key that transitioned to "pressed" this tick. The first eight move the
/// player horizontally, `Up` and `Down` move it vertically. Keys a variant
/// does not bind are simply never handed in.
#[derive(Clone, Copy, PartialEq, Eq, Structural, Debug)]
pub enum StepKey {
    W,
    E,
    D,
    C,
    X,
    Z,
    A,
    Q,
    Up,
    Down,
}

/// The signed step a key applies to the `x` axis.
pub open spec fn key_dx(k: StepKey) -> int {
    match k {
        StepKey::W => -1,
        StepKey::A => -1,
        StepKey::Q => -1,
        StepKey::D => 1,
        StepKey::X => 1,
        StepKey::C => 1,
        StepKey::E => 0,
        StepKey::Z => 0,
        StepKey::Up => 0,
        StepKey::Down => 0,
    }
}

/// The signed step a key applies to the `z` axis.
pub open spec fn key_dz(k: StepKey) -> int {
    match k {
        StepKey::W => -1,
        StepKey::D => -1,
        StepKey::E => -1,
        StepKey::A => 1,
        StepKey::X => 1,
        StepKey::Z => 1,
        StepKey::Q => 0,
        StepKey::C => 0,
        StepKey::Up => 0,
        StepKey::Down => 0,
    }
}

/// The signed step a key applies to the elevation, in whole units.
pub open spec fn key_dy(k: StepKey) -> int {
    match k {
        StepKey::Up => 1,
        StepKey::Down => -1,
        _ => 0,
    }
}

/// The lowest `x` a key may step onto: `A` reaches the outermost column at
/// `-half_extent`, every other key stops at `-half_extent + 1`.
pub open spec fn x_lower(k: StepKey, b: Board) -> int {
    if k == StepKey::A {
        -b.half_extent
    } else {
        -b.half_extent + 1
    }
}

/// The lowest `z` a key may step onto: `D` reaches the outermost row at
/// `-half_extent`, every other key stops at `-half_extent + 1`.
pub open spec fn z_lower(k: StepKey, b: Board) -> int {
    if k == StepKey::D {
        -b.half_extent
    } else {
        -b.half_extent + 1
    }
}

/// One clamp-checked unit step on a horizontal axis: the move is applied only
/// when its target stays within `[lo, hi]`; otherwise the axis is unchanged.
pub open spec fn axis_step(a: int, d: int, lo: int, hi: int) -> int {
    if d == -1 && a - 1 >= lo {
        a - 1
    } else if d == 1 && a + 1 <= hi {
        a + 1
    } else {
        a
    }
}

/// One clamp-checked unit step on the vertical axis, in half-units: a unit
/// step moves `y2` by two, and only when the target stays within
/// `[lo2, hi2]`.
pub open spec fn vertical_step(y2: int, d: int, lo2: int, hi2: int) -> int {
    if d == -1 && y2 - 2 >= lo2 {
        y2 - 2
    } else if d == 1 && y2 + 2 <= hi2 {
        y2 + 2
    } else {
        y2
    }
}

/// The position after one key press: each axis steps independently under its
/// own bound.
pub open spec fn spec_apply_key(p: Pos, k: StepKey, b: Board) -> Pos {
    Pos {
        x: axis_step(p.x as int, key_dx(k), x_lower(k, b), b.half_extent - 1) as i64,
        y2: vertical_step(
            p.y2 as int,
            key_dy(k),
            2 * b.ground_elevation,
            2 * b.max_elevation,
        ) as i64,
        z: axis_step(p.z as int, key_dz(k), z_lower(k, b), b.half_extent - 1) as i64,
    }
}

/// The position after a whole tick: the keys pressed this tick apply one
/// after the other, in the order the host hands them over.
pub open spec fn spec_step_movement(p: Pos, ks: Seq<StepKey>, b: Board) -> Pos
    decreases ks.len(),
{
    if ks.len() == 0 {
        p
    } else {
        spec_step_movement(spec_apply_key(p, ks[0], b), ks.subrange(1, ks.len() as int), b)
    }
}

/// Applies one pressed key to the player position.
pub fn apply_key(p: Pos, k: StepKey, b: &Board) -> (r: Pos)
    requires
        b.wf(),
        p.in_bounds(*b),
    ensures
        r == spec_apply_key(p, k, *b),
        r.in_bounds(*b),
{
    let hi: i64 = b.half_extent - 1;
    let x_lo: i64 = if k == StepKey::A {
        -b.half_extent
    } else {
        -b.half_extent + 1
    };
    let z_lo: i64 = if k == StepKey::D {
        -b.half_extent
    } else {
        -b.half_extent + 1
    };
    let (dx, dz, dy): (i64, i64, i64) = match k {
        StepKey::W => (-1, -1, 0),
        StepKey::E => (0, -1, 0),
        StepKey::D => (1, -1, 0),
        StepKey::C => (1, 0, 0),
        StepKey::X => (1, 1, 0),
        StepKey::Z => (0, 1, 0),
        StepKey::A => (-1, 1, 0),
        StepKey::Q => (-1, 0, 0),
        StepKey::Up => (0, 0, 1),
        StepKey::Down => (0, 0, -1),
    };
    let x: i64 = if dx == -1 && p.x - 1 >= x_lo {
        p.x - 1
    } else if dx == 1 && p.x + 1 <= hi {
        p.x + 1
    } else {
        p.x
    };
    let z: i64 = if dz == -1 && p.z - 1 >= z_lo {
        p.z - 1
    } else if dz == 1 && p.z + 1 <= hi {
        p.z + 1
    } else {
        p.z
    };
    let lo2: i64 = 2 * b.ground_elevation;
    let hi2: i64 = 2 * b.max_elevation;
    let y2: i64 = if dy == -1 && p.y2 - 2 >= lo2 {
        p.y2 - 2
    } else if dy == 1 && p.y2 + 2 <= hi2 {
        p.y2 + 2
    } else {
        p.y2
    };
    Pos { x, y2, z }
}

/// Applies every key pressed this tick, in order, and returns the position to
/// assign for the tick. When no key produced a change the result equals the
/// input and the caller need not write it back.
pub fn step_movement(p: Pos, keys: &Vec<StepKey>, b: &Board) -> (r: Pos)
    requires
        b.wf(),
        p.in_bounds(*b),
    ensures
        r == spec_step_movement(p, keys@, *b),
        r.in_bounds(*b),
{
    let mut cur = p;
    let mut i: usize = 0;
    proof {
        assert(keys@.subrange(0, keys@.len() as int) =~= keys@);
    }
    while i < keys.len()
        invariant
            b.wf(),
            cur.in_bounds(*b),
            i <= keys@.len(),
            spec_step_movement(p, keys@, *b) == spec_step_movement(
                cur,
                keys@.subrange(i as int, keys@.len() as int),
                *b,
            ),
        decreases keys@.len() - i,
    {
        proof {
            let rest = keys@.subrange(i as int, keys@.len() as int);
            assert(rest[0] == keys@[i as int]);
            assert(rest.subrange(1, rest.len() as int) =~= keys@.subrange(
                i + 1,
                keys@.len() as int,
            ));
        }
        cur = apply_key(cur, keys[i], b);
        i += 1;
    }
    proof {
        assert(keys@.subrange(i as int, keys@.len() as int) =~= Seq::<StepKey>::empty());
    }
    cur
}

/// For every sequence of pressed keys, the player stays on the board and in
/// the elevation band: both horizontal coordinates remain within
/// `[-half_extent, half_extent - 1]` and the vertical coordinate remains
/// within `[ground_elevation, max_elevation]`.
pub proof fn lemma_step_movement_in_bounds(p: Pos, ks: Seq<StepKey>, b: Board)
    requires
        b.wf(),
        p.in_bounds(b),
    ensures
        spec_step_movement(p, ks, b).in_bounds(b),
    decreases ks.len(),
{
    if ks.len() > 0 {
        lemma_step_movement_in_bounds(spec_apply_key(p, ks[0], b), ks.subrange(1, ks.len() as int), b);
    }
}

/// The deliberate boundary asymmetry at the low `x` edge. With the player one
/// tile short of the outermost column (`x == -half_extent + 1`):
/// the single-axis key `Q` performs no movement at all; the diagonal key `W`
/// leaves `x` in place but still moves `z` when `z` is clear of its own
/// bound; and the lateral diagonal key `A` steps `x` onto the outermost
/// column at `-half_extent`.
pub proof fn lemma_boundary_asymmetry_x(p: Pos, b: Board)
    requires
        b.wf(),
        p.in_bounds(b),
        p.x == -b.half_extent + 1,
    ensures
        spec_apply_key(p, StepKey::Q, b) == p,
        spec_apply_key(p, StepKey::W, b).x == p.x,
        p.z - 1 >= -b.half_extent + 1 ==> spec_apply_key(p, StepKey::W, b).z == p.z - 1,
        spec_apply_key(p, StepKey::A, b).x == -b.half_extent,
{
}

/// The mirror of [`lemma_boundary_asymmetry_x`] at the low `z` edge: the
/// single-axis key `E` performs no movement, the diagonal key `W` leaves `z`
/// in place but still moves `x` when `x` is clear, and the lateral diagonal
/// key `D` steps `z` onto the outermost row at `-half_extent`.
pub proof fn lemma_boundary_asymmetry_z(p: Pos, b: Board)
    requires
        b.wf(),
        p.in_bounds(b),
        p.z == -b.half_extent + 1,
    ensures
        spec_apply_key(p, StepKey::E, b) == p,
        spec_apply_key(p, StepKey::W, b).z == p.z,
        p.x - 1 >= -b.half_extent + 1 ==> spec_apply_key(p, StepKey::W, b).x == p.x - 1,
        spec_apply_key(p, StepKey::D, b).z == -b.half_extent,
{
}

/// The outermost low edge is reachable only through the lateral diagonal
/// keys: a key press that lands an axis on `-half_extent` was either already
/// there, or was `A` (for `x`) or `D` (for `z`).
pub proof fn lemma_low_edge_only_diagonal(p: Pos, k: StepKey, b: Board)
    requires
        b.wf(),
        p.in_bounds(b),
    ensures
        spec_apply_key(p, k, b).x == -b.half_extent ==> (p.x == -b.half_extent || k
            == StepKey::A),
        spec_apply_key(p, k, b).z == -b.half_extent ==> (p.z == -b.half_extent || k
            == StepKey::D),
{
}

} // verus!
