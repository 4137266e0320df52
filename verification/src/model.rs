//! The mathematical model of the grid: spec functions giving the meaning of
//! every accessor and paint operation, the particle-count function used to
//! state conservation, and the lemmas (laws) proved about them.

use vstd::prelude::*;
use crate::gridmath::{GridVec, WORLD_WIDTH, WORLD_HEIGHT};
use crate::particle::{Particle, ParticleType};

verus! {

/// Number of cells in the grid (and the length of a well-formed grid
/// sequence).
pub open spec fn grid_len() -> int {
    WORLD_WIDTH * WORLD_HEIGHT
}

/// True iff `pos` lies in the full grid rectangle.
pub open spec fn contains_spec(pos: GridVec) -> bool {
    0 <= pos.x < WORLD_WIDTH && 0 <= pos.y < WORLD_HEIGHT
}

/// The boundary margin over raw coordinates: a 1-cell band at the low edges
/// and a 2-cell band at the high edges. Cells here read as `Boundary` and
/// refuse writes. The asymmetry is deliberate and must be kept.
pub open spec fn margin_xy(x: int, y: int) -> bool {
    x <= 0 || x >= WORLD_WIDTH - 2 || y <= 0 || y >= WORLD_HEIGHT - 2
}

/// The boundary margin over positions.
pub open spec fn in_margin(pos: GridVec) -> bool {
    margin_xy(pos.x as int, pos.y as int)
}

/// Row-major index of a position.
pub open spec fn index_of(pos: GridVec) -> int {
    pos.y * WORLD_WIDTH + pos.x
}

/// Column of the cell with row-major index `i`.
pub open spec fn cell_x(i: int) -> int {
    i % (WORLD_WIDTH as int)
}

/// Row of the cell with row-major index `i`.
pub open spec fn cell_y(i: int) -> int {
    i / (WORLD_WIDTH as int)
}

/// What a query at `pos` answers: the synthetic boundary particle inside
/// the margin, the stored particle elsewhere.
pub open spec fn at(s: Seq<Particle>, pos: GridVec) -> Particle {
    if in_margin(pos) {
        Particle { particle_type: ParticleType::Boundary }
    } else {
        s[index_of(pos)]
    }
}

/// The grid after an unconditional store at `pos`: unchanged inside the
/// margin (the write is a silent no-op there), updated elsewhere.
pub open spec fn replaced(s: Seq<Particle>, pos: GridVec, v: Particle) -> Seq<Particle> {
    if in_margin(pos) {
        s
    } else {
        s.update(index_of(pos), v)
    }
}

/// The grid after a store at `pos` that refuses to overwrite existing
/// material: it writes only where the current cell is `Air`.
pub open spec fn added(s: Seq<Particle>, pos: GridVec, v: Particle) -> Seq<Particle> {
    if in_margin(pos) {
        s
    } else if s[index_of(pos)].particle_type == ParticleType::Air {
        s.update(index_of(pos), v)
    } else {
        s
    }
}

/// One coordinate clamped into `[0, extent)`.
pub open spec fn clamp_coord(v: int, extent: int) -> int {
    if v < 0 {
        0
    } else if v >= extent {
        extent - 1
    } else {
        v
    }
}

/// A position with both coordinates clamped into the full grid rectangle.
pub open spec fn clamp_spec(pos: GridVec) -> GridVec {
    GridVec {
        x: clamp_coord(pos.x as int, WORLD_WIDTH as int) as i32,
        y: clamp_coord(pos.y as int, WORLD_HEIGHT as int) as i32,
    }
}

/// Left edge (inclusive) of the paint rectangle for a brush at `pos` with
/// the given radius.
pub open spec fn rect_left(pos: GridVec, radius: int) -> int {
    clamp_coord(pos.x - radius, WORLD_WIDTH as int)
}

/// Right edge (exclusive) of the paint rectangle.
pub open spec fn rect_right(pos: GridVec, radius: int) -> int {
    clamp_coord(pos.x + radius, WORLD_WIDTH as int)
}

/// Bottom edge (inclusive) of the paint rectangle.
pub open spec fn rect_bottom(pos: GridVec, radius: int) -> int {
    clamp_coord(pos.y - radius, WORLD_HEIGHT as int)
}

/// Top edge (exclusive) of the paint rectangle.
pub open spec fn rect_top(pos: GridVec, radius: int) -> int {
    clamp_coord(pos.y + radius, WORLD_HEIGHT as int)
}

/// True iff cell `(x, y)` lies in the paint rectangle of a brush at `pos`
/// with the given radius. The rectangle is half-open on the right and top,
/// so a radius of 0 covers no cell.
pub open spec fn in_rect(x: int, y: int, pos: GridVec, radius: int) -> bool {
    rect_left(pos, radius) <= x < rect_right(pos, radius)
    && rect_bottom(pos, radius) <= y < rect_top(pos, radius)
}

/// What the cell with index `i` holds after a paint operation over `s`:
/// cells in the rectangle and outside the margin take the painted value
/// (unconditionally when `replace`, only over `Air` otherwise); every other
/// cell keeps its old content.
pub open spec fn paint_cell(
    s: Seq<Particle>,
    i: int,
    pos: GridVec,
    radius: int,
    v: Particle,
    replace: bool,
) -> Particle {
    if in_rect(cell_x(i), cell_y(i), pos, radius) && !margin_xy(cell_x(i), cell_y(i)) {
        if replace {
            v
        } else if s[i].particle_type == ParticleType::Air {
            v
        } else {
            s[i]
        }
    } else {
        s[i]
    }
}

/// The whole grid after a paint operation.
pub open spec fn painted(
    s: Seq<Particle>,
    pos: GridVec,
    radius: int,
    v: Particle,
    replace: bool,
) -> Seq<Particle> {
    Seq::new(s.len(), |i: int| paint_cell(s, i, pos, radius, v, replace))
}

/// The grid part-way through a paint operation that walks the rectangle
/// row by row: rows below `yy` are fully painted, row `yy` is painted up to
/// (excluding) column `xx`, everything else still holds its old content.
pub open spec fn painted_upto(
    s: Seq<Particle>,
    pos: GridVec,
    radius: int,
    v: Particle,
    replace: bool,
    yy: int,
    xx: int,
) -> Seq<Particle> {
    Seq::new(
        s.len(),
        |i: int|
            if cell_y(i) < yy || (cell_y(i) == yy && cell_x(i) < xx) {
                paint_cell(s, i, pos, radius, v, replace)
            } else {
                s[i]
            },
    )
}

/// How many cells of `s` hold a particle of type `t`.
pub open spec fn count_of(s: Seq<Particle>, t: ParticleType) -> nat
    decreases s.len(),
{
    if s.len() == 0 {
        0
    } else {
        count_of(s.drop_last(), t) + if s.last().particle_type == t { 1nat } else { 0nat }
    }
}

/// The position reached from `base` by the offset `off` (fields wrap as
/// machine integers would; the executable code only forms sums that fit).
pub open spec fn offset_target(base: GridVec, off: GridVec) -> GridVec {
    GridVec { x: (base.x + off.x) as i32, y: (base.y + off.y) as i32 }
}

/// True iff a mobile particle may move into `tpos` this tick: the target
/// must be in bounds and hold `Air`, or `Water` when the mover is allowed
/// to displace water (sand sinking through it).
pub open spec fn can_move_to(s: Seq<Particle>, tpos: GridVec, replace_water: bool) -> bool {
    contains_spec(tpos) && (at(s, tpos).particle_type == ParticleType::Air || (replace_water
        && at(s, tpos).particle_type == ParticleType::Water))
}

/// Every gathered candidate target is a legal move destination distinct
/// from the mover's own cell.
pub open spec fn valid_moves(
    s: Seq<Particle>,
    base: GridVec,
    moves: Seq<GridVec>,
    replace_water: bool,
) -> bool {
    forall|k: int| 0 <= k < moves.len() ==> #[trigger] can_move_to(s, moves[k], replace_water)
        && moves[k] != base
}

/// The grid with the contents of cells `a` and `b` exchanged.
pub open spec fn swapped(s: Seq<Particle>, a: GridVec, b: GridVec) -> Seq<Particle> {
    s.update(index_of(a), s[index_of(b)]).update(index_of(b), s[index_of(a)])
}

/// The mover at `base` ended up exchanged with the (legal) target reached
/// by `off`.
pub open spec fn swap_choice(
    pre: Seq<Particle>,
    post: Seq<Particle>,
    base: GridVec,
    off: GridVec,
    replace_water: bool,
) -> bool {
    can_move_to(pre, offset_target(base, off), replace_water) && post == swapped(
        pre,
        base,
        offset_target(base, off),
    )
}

/// True iff a sand particle at `base` has at least one legal move: one of
/// down-right, down-left, straight down, into `Air` or `Water`.
pub open spec fn sand_has_move(pre: Seq<Particle>, base: GridVec) -> bool {
    ||| can_move_to(pre, offset_target(base, (GridVec { x: 1i32, y: -1i32 })), true)
    ||| can_move_to(pre, offset_target(base, (GridVec { x: -1i32, y: -1i32 })), true)
    ||| can_move_to(pre, offset_target(base, (GridVec { x: 0i32, y: -1i32 })), true)
}

/// The complete behavior of one sand particle's step, up to the random
/// choice among its legal moves: it swaps into one of them, or stays put
/// exactly when it has none.
pub open spec fn sand_stepped(pre: Seq<Particle>, post: Seq<Particle>, base: GridVec) -> bool {
    if sand_has_move(pre, base) {
        ||| swap_choice(pre, post, base, (GridVec { x: 1i32, y: -1i32 }), true)
        ||| swap_choice(pre, post, base, (GridVec { x: -1i32, y: -1i32 }), true)
        ||| swap_choice(pre, post, base, (GridVec { x: 0i32, y: -1i32 }), true)
    } else {
        post == pre
    }
}

/// How many of a water particle's falling moves (diagonals, straight down,
/// two-cell drop; strictly into `Air`) are legal.
pub open spec fn water_fall_count(pre: Seq<Particle>, base: GridVec) -> int {
    (if can_move_to(pre, offset_target(base, (GridVec { x: 1i32, y: -1i32 })), false) {
        1int
    } else {
        0int
    }) + (if can_move_to(pre, offset_target(base, (GridVec { x: 0i32, y: -1i32 })), false) {
        1int
    } else {
        0int
    }) + (if can_move_to(pre, offset_target(base, (GridVec { x: -1i32, y: -1i32 })), false) {
        1int
    } else {
        0int
    }) + (if can_move_to(pre, offset_target(base, (GridVec { x: 0i32, y: -2i32 })), false) {
        1int
    } else {
        0int
    })
}

/// True iff a water particle at `base` has at least one legal horizontal
/// spread move (near to far, on alternating sides, strictly into `Air`).
pub open spec fn water_can_spread(pre: Seq<Particle>, base: GridVec) -> bool {
    ||| can_move_to(pre, offset_target(base, (GridVec { x: 1i32, y: 0i32 })), false)
    ||| can_move_to(pre, offset_target(base, (GridVec { x: -1i32, y: 0i32 })), false)
    ||| can_move_to(pre, offset_target(base, (GridVec { x: 2i32, y: 0i32 })), false)
    ||| can_move_to(pre, offset_target(base, (GridVec { x: -2i32, y: 0i32 })), false)
    ||| can_move_to(pre, offset_target(base, (GridVec { x: 3i32, y: 0i32 })), false)
    ||| can_move_to(pre, offset_target(base, (GridVec { x: -3i32, y: 0i32 })), false)
}

/// True iff `t` is a target a water particle at `base` may be given by the
/// random draw: any legal falling move, or — only when at most one falling
/// move is legal — any legal spread move.
pub open spec fn water_choice_ok(pre: Seq<Particle>, base: GridVec, t: GridVec) -> bool {
    ||| (t == offset_target(base, (GridVec { x: 1i32, y: -1i32 })) && can_move_to(pre, t, false))
    ||| (t == offset_target(base, (GridVec { x: 0i32, y: -1i32 })) && can_move_to(pre, t, false))
    ||| (t == offset_target(base, (GridVec { x: -1i32, y: -1i32 })) && can_move_to(pre, t, false))
    ||| (t == offset_target(base, (GridVec { x: 0i32, y: -2i32 })) && can_move_to(pre, t, false))
    ||| (water_fall_count(pre, base) <= 1 && ((t == offset_target(base, (GridVec { x: 1i32, y: 0i32 }))
        && can_move_to(pre, t, false)) || (t == offset_target(base, (GridVec { x: -1i32, y: 0i32 }))
        && can_move_to(pre, t, false)) || (t == offset_target(base, (GridVec { x: 2i32, y: 0i32 }))
        && can_move_to(pre, t, false)) || (t == offset_target(base, (GridVec { x: -2i32, y: 0i32 }))
        && can_move_to(pre, t, false)) || (t == offset_target(base, (GridVec { x: 3i32, y: 0i32 }))
        && can_move_to(pre, t, false)) || (t == offset_target(base, (GridVec { x: -3i32, y: 0i32 }))
        && can_move_to(pre, t, false))))
}

/// The complete behavior of one water particle's step, up to the random
/// choice: it swaps into one of the targets its two-tier policy allows, or
/// stays put exactly when the pool is empty (no falling move and — the
/// spread tier being reachable then — no spread move either).
pub open spec fn water_stepped(pre: Seq<Particle>, post: Seq<Particle>, base: GridVec) -> bool {
    if water_fall_count(pre, base) >= 1 || water_can_spread(pre, base) {
        exists|t: GridVec| #[trigger] water_choice_ok(pre, base, t) && post == swapped(pre, base, t)
    } else {
        post == pre
    }
}

/// The complete behavior of one cell's step of the update pass, up to the
/// random choice: sand and water move by their rules, everything else
/// leaves the grid untouched.
pub open spec fn cell_stepped(pre: Seq<Particle>, post: Seq<Particle>, base: GridVec) -> bool {
    if at(pre, base).particle_type == ParticleType::Sand {
        sand_stepped(pre, post, base)
    } else if at(pre, base).particle_type == ParticleType::Water {
        water_stepped(pre, post, base)
    } else {
        post == pre
    }
}

/// A single grain of sand at `p` on an otherwise sand- and water-free
/// grid.
pub open spec fn lone_sand(s: Seq<Particle>, p: GridVec) -> bool {
    &&& s.len() == grid_len()
    &&& !in_margin(p)
    &&& s[index_of(p)].particle_type == ParticleType::Sand
    &&& forall|i: int|
        0 <= i < s.len() && i != index_of(p) ==> #[trigger] s[i].particle_type
            != ParticleType::Sand && s[i].particle_type != ParticleType::Water
}

/// The grain at `p` fell: the grid is the old one with the sand swapped
/// into one of its three (legal) targets.
pub open spec fn sand_fell(pre: Seq<Particle>, post: Seq<Particle>, p: GridVec) -> bool {
    ||| swap_choice(pre, post, p, (GridVec { x: 1i32, y: -1i32 }), true)
    ||| swap_choice(pre, post, p, (GridVec { x: -1i32, y: -1i32 }), true)
    ||| swap_choice(pre, post, p, (GridVec { x: 0i32, y: -1i32 }), true)
}

/// What one tick (and each of its constituent cell steps) preserves:
/// the grid's length, the count of every particle type (movement swaps
/// cells, it never creates or destroys particles), every stone cell, and
/// every cell of the boundary margin.
pub open spec fn conserving(pre: Seq<Particle>, post: Seq<Particle>) -> bool {
    &&& post.len() == pre.len()
    &&& forall|t: ParticleType| #[trigger] count_of(post, t) == count_of(pre, t)
    &&& forall|i: int|
        0 <= i < pre.len() && pre[i].particle_type == ParticleType::Stone ==> post[i] == pre[i]
    &&& forall|i: int| 0 <= i < pre.len() && margin_xy(cell_x(i), cell_y(i)) ==> post[i] == pre[i]
}

/// `conserving` composes across successive steps.
pub proof fn lemma_conserving_trans(a: Seq<Particle>, b: Seq<Particle>, c: Seq<Particle>)
    requires
        conserving(a, b),
        conserving(b, c),
    ensures
        conserving(a, c),
{
    assert forall|t: ParticleType| #[trigger] count_of(c, t) == count_of(a, t) by {
        assert(count_of(b, t) == count_of(a, t));
        assert(count_of(c, t) == count_of(b, t));
    }
    assert forall|i: int|
        0 <= i < a.len() && a[i].particle_type == ParticleType::Stone implies c[i] == a[i] by {
        assert(b[i] == a[i]);
    }
    assert forall|i: int|
        0 <= i < a.len() && margin_xy(cell_x(i), cell_y(i)) implies c[i] == a[i] by {
        assert(b[i] == a[i]);
    }
}

/// True iff the grid holds no mobile particle (no sand and no water).
pub open spec fn no_mobile(s: Seq<Particle>) -> bool {
    forall|i: int| 0 <= i < s.len() ==> #[trigger] s[i].particle_type != ParticleType::Sand
        && s[i].particle_type != ParticleType::Water
}

/// Updating one cell changes the count of each type by exactly the
/// difference between the new and the old occupant.
pub proof fn lemma_count_update(s: Seq<Particle>, i: int, v: Particle, t: ParticleType)
    requires
        0 <= i < s.len(),
    ensures
        count_of(s.update(i, v), t) + (if s[i].particle_type == t { 1nat } else { 0nat })
            == count_of(s, t) + (if v.particle_type == t { 1nat } else { 0nat }),
    decreases s.len(),
{
    let su = s.update(i, v);
    if i == s.len() - 1 {
        assert(su.drop_last() =~= s.drop_last());
        assert(su.last() == v);
    } else {
        assert(su.drop_last() =~= s.drop_last().update(i, v));
        assert(su.last() == s.last());
        lemma_count_update(s.drop_last(), i, v, t);
    }
}

/// Exchanging the contents of two cells conserves the count of every type.
pub proof fn lemma_count_swap(s: Seq<Particle>, i: int, j: int, t: ParticleType)
    requires
        0 <= i < s.len(),
        0 <= j < s.len(),
        i != j,
    ensures
        count_of(s.update(i, s[j]).update(j, s[i]), t) == count_of(s, t),
{
    let s1 = s.update(i, s[j]);
    lemma_count_update(s, i, s[j], t);
    lemma_count_update(s1, j, s[i], t);
    assert(s1[j] == s[j]);
}

/// Row-major indexing is injective over the grid rectangle.
pub proof fn lemma_index_injective(a: GridVec, b: GridVec)
    requires
        contains_spec(a),
        contains_spec(b),
        index_of(a) == index_of(b),
    ensures
        a == b,
{
}

/// The coordinates recovered from a position's row-major index are the
/// position's own, and the index lies inside the grid array.
pub proof fn lemma_cells_of_index(pos: GridVec)
    requires
        contains_spec(pos),
    ensures
        cell_x(index_of(pos)) == pos.x as int,
        cell_y(index_of(pos)) == pos.y as int,
        0 <= index_of(pos) < grid_len(),
{
    vstd::arithmetic::div_mod::lemma_fundamental_div_mod_converse(
        index_of(pos),
        WORLD_WIDTH as int,
        pos.y as int,
        pos.x as int,
    );
}

/// On a grid whose only mobile particle sits at `p`, a cell step anywhere
/// else changes nothing.
pub proof fn lemma_lone_sand_step_elsewhere(
    s0: Seq<Particle>,
    post: Seq<Particle>,
    base: GridVec,
    p: GridVec,
)
    requires
        lone_sand(s0, p),
        contains_spec(base),
        base != p,
        cell_stepped(s0, post, base),
    ensures
        post == s0,
{
    if !in_margin(base) {
        lemma_interior_contained(base);
        lemma_interior_contained(p);
        if index_of(base) == index_of(p) {
            lemma_index_injective(base, p);
        }
    }
}

/// The lone grain's own step: with a legal move available, it falls.
pub proof fn lemma_lone_sand_falls(s0: Seq<Particle>, post: Seq<Particle>, p: GridVec)
    requires
        lone_sand(s0, p),
        sand_has_move(s0, p),
        cell_stepped(s0, post, p),
    ensures
        sand_fell(s0, post, p),
{
    lemma_interior_contained(p);
}

/// One fall target considered: after the lone grain fell there, a cell
/// step in the grain's old row or above it changes nothing — the grain now
/// sits one row below, outside the remainder of the pass.
proof fn lemma_lone_sand_settled_case(
    s0: Seq<Particle>,
    pre: Seq<Particle>,
    post: Seq<Particle>,
    base: GridVec,
    p: GridVec,
    off: GridVec,
)
    requires
        lone_sand(s0, p),
        contains_spec(base),
        base.y >= p.y,
        off.y == -1,
        swap_choice(s0, pre, p, off, true),
        cell_stepped(pre, post, base),
    ensures
        post == pre,
{
    lemma_interior_contained(p);
    let t = offset_target(p, off);
    let ip = index_of(p);
    let it = index_of(t);
    assert(t.y == p.y - 1);
    if it == ip {
        lemma_index_injective(t, p);
    }
    assert(!in_margin(t));
    assert(s0[it].particle_type == ParticleType::Air);
    if !in_margin(base) {
        lemma_interior_contained(base);
        let ib = index_of(base);
        if ib == ip {
            lemma_index_injective(base, p);
            assert(pre[ib] == s0[it]);
        } else if ib == it {
            lemma_index_injective(base, t);
            assert(false);
        } else {
            assert(pre[ib] == s0[ib]);
        }
    }
}

/// After the lone grain fell, the cell steps of the rest of its row and of
/// the rows above it change nothing.
pub proof fn lemma_lone_sand_settled(
    s0: Seq<Particle>,
    pre: Seq<Particle>,
    post: Seq<Particle>,
    base: GridVec,
    p: GridVec,
)
    requires
        lone_sand(s0, p),
        sand_fell(s0, pre, p),
        contains_spec(base),
        base.y >= p.y,
        cell_stepped(pre, post, base),
    ensures
        post == pre,
{
    if swap_choice(s0, pre, p, (GridVec { x: 1i32, y: -1i32 }), true) {
        lemma_lone_sand_settled_case(s0, pre, post, base, p, GridVec { x: 1i32, y: -1i32 });
    } else if swap_choice(s0, pre, p, (GridVec { x: -1i32, y: -1i32 }), true) {
        lemma_lone_sand_settled_case(s0, pre, post, base, p, GridVec { x: -1i32, y: -1i32 });
    } else {
        lemma_lone_sand_settled_case(s0, pre, post, base, p, GridVec { x: 0i32, y: -1i32 });
    }
}

/// Read-after-write: outside the margin, an unconditional store followed
/// by a read at the same position returns the stored value.
pub proof fn lemma_read_after_write(s: Seq<Particle>, pos: GridVec, v: Particle)
    requires
        s.len() == grid_len(),
        !in_margin(pos),
    ensures
        at(replaced(s, pos, v), pos) == v,
{
    lemma_interior_contained(pos);
}

/// Inside the margin, every read answers `Boundary` and every store —
/// unconditional or not — leaves the grid untouched.
pub proof fn lemma_margin_is_wall(s: Seq<Particle>, pos: GridVec, v: Particle)
    requires
        in_margin(pos),
    ensures
        at(s, pos).particle_type == ParticleType::Boundary,
        replaced(s, pos, v) == s,
        added(s, pos, v) == s,
{
}

/// A conditional store never changes a cell holding material, and writes
/// the given value where the cell holds `Air`.
pub proof fn lemma_add_respects_material(s: Seq<Particle>, pos: GridVec, v: Particle)
    requires
        s.len() == grid_len(),
        !in_margin(pos),
    ensures
        at(s, pos).particle_type != ParticleType::Air ==> added(s, pos, v) == s,
        at(s, pos).particle_type == ParticleType::Air ==> at(added(s, pos, v), pos) == v,
{
    lemma_interior_contained(pos);
}

/// Clamping is idempotent, and the identity on positions already inside
/// the grid.
pub proof fn lemma_clamp_idempotent(pos: GridVec)
    ensures
        clamp_spec(clamp_spec(pos)) == clamp_spec(pos),
        contains_spec(pos) ==> clamp_spec(pos) == pos,
{
}

/// A brush of radius 0 covers a half-open rectangle of zero extent: it
/// touches no cell and leaves the grid unchanged.
pub proof fn lemma_paint_radius_zero(s: Seq<Particle>, pos: GridVec, v: Particle, replace: bool)
    ensures
        painted(s, pos, 0, v, replace) == s,
{
    assert(painted(s, pos, 0, v, replace) =~= s);
}

/// Painting a brush rectangle and then clearing it with the same brush
/// leaves `Air` everywhere the brush reaches outside the margin, and every
/// other cell exactly as it was.
pub proof fn lemma_place_then_clear(s: Seq<Particle>, pos: GridVec, radius: int, v: Particle)
    requires
        s.len() == grid_len(),
    ensures
        ({
            let cleared = painted(
                painted(s, pos, radius, v, true),
                pos,
                radius,
                (Particle { particle_type: ParticleType::Air }),
                true,
            );
            &&& forall|i: int|
                0 <= i < grid_len() && in_rect(cell_x(i), cell_y(i), pos, radius) && !margin_xy(
                    cell_x(i),
                    cell_y(i),
                ) ==> cleared[i].particle_type == ParticleType::Air
            &&& forall|i: int|
                0 <= i < grid_len() && !(in_rect(cell_x(i), cell_y(i), pos, radius) && !margin_xy(
                    cell_x(i),
                    cell_y(i),
                )) ==> cleared[i] == s[i]
        }),
{
}

/// A position outside the margin lies inside the full rectangle.
pub proof fn lemma_interior_contained(pos: GridVec)
    requires
        !in_margin(pos),
    ensures
        contains_spec(pos),
        0 <= index_of(pos) < grid_len(),
{
    lemma_cells_of_index(pos);
}

} // verus!
