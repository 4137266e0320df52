//! The world: the particle grid and the operations on it, including the
//! per-tick update pass.

use vstd::prelude::*;
use crate::gridmath::{GridVec, WORLD_WIDTH, WORLD_HEIGHT};
use crate::particle::{Particle, ParticleType};
use crate::model::{
    grid_len, contains_spec, in_margin, index_of, at, replaced, added, clamp_spec, rect_left,
    rect_right, rect_bottom, rect_top, painted, painted_upto, offset_target, can_move_to,
    valid_moves, conserving, no_mobile, count_of, swapped, sand_stepped, water_fall_count,
    water_choice_ok, water_stepped, cell_stepped, lone_sand, sand_has_move, sand_fell,
    lemma_interior_contained, lemma_cells_of_index, lemma_index_injective, lemma_count_swap,
    lemma_conserving_trans, lemma_lone_sand_step_elsewhere, lemma_lone_sand_falls,
    lemma_lone_sand_settled,
};
use crate::rng::{new_rng, rng_bool, rng_index};
use vstd::arithmetic::div_mod::lemma_fundamental_div_mod;

verus! {

/// The simulation state: a fixed-size, row-major dense grid of particles.
/// Cell `(x, y)` lives at index `y * WORLD_WIDTH + x`. All access goes
/// through the bounds-checked methods below.
pub struct World {
    particles: Vec<Particle>,
}

impl View for World {
    type V = Seq<Particle>;

    closed spec fn view(&self) -> Seq<Particle> {
        self.particles@
    }
}

impl World {
    /// A well-formed world holds exactly one particle per cell.
    pub open spec fn wf(&self) -> bool {
        self@.len() == grid_len()
    }

    /// A fresh world, every cell initialized to `Air`.
    pub fn new() -> (r: World)
        ensures
            r.wf(),
            forall|i: int| 0 <= i < grid_len() ==> r@[i].particle_type == ParticleType::Air,
    {
        let mut particles: Vec<Particle> = Vec::new();
        let n: usize = 4096;
        while particles.len() < n
            invariant
                particles@.len() <= n,
                n == grid_len(),
                forall|i: int| 0 <= i < particles@.len()
                    ==> particles@[i].particle_type == ParticleType::Air,
            decreases n - particles@.len(),
        {
            particles.push(Particle { particle_type: ParticleType::Air });
        }
        World { particles }
    }

    /// True iff `pos` lies in the full grid rectangle.
    pub fn contains(&self, pos: GridVec) -> (r: bool)
        ensures
            r == contains_spec(pos),
    {
        pos.x >= 0 && pos.x < WORLD_WIDTH && pos.y >= 0 && pos.y < WORLD_HEIGHT
    }

    /// `pos` unchanged when it is inside the grid; otherwise each
    /// coordinate independently clamped into the grid rectangle.
    pub fn clamp(&self, pos: GridVec) -> (r: GridVec)
        ensures
            r == clamp_spec(pos),
    {
        if self.contains(pos) {
            return pos;
        }
        let mut modified = pos;
        if pos.x < 0 {
            modified.x = 0;
        } else if pos.x >= WORLD_WIDTH {
            modified.x = WORLD_WIDTH - 1;
        }
        if pos.y < 0 {
            modified.y = 0;
        } else if pos.y >= WORLD_HEIGHT {
            modified.y = WORLD_HEIGHT - 1;
        }
        modified
    }

    /// Row-major array index of a position outside the margin.
    fn get_index(pos: GridVec) -> (r: usize)
        requires
            !in_margin(pos),
        ensures
            r == index_of(pos),
            r < grid_len(),
    {
        proof {
            lemma_interior_contained(pos);
        }
        (pos.y as usize) * (WORLD_WIDTH as usize) + (pos.x as usize)
    }

    /// The particle at `pos`: the synthetic `Boundary` particle for any
    /// position inside the margin (including every out-of-grid position),
    /// the stored particle otherwise.
    pub fn get_particle(&self, pos: GridVec) -> (r: Particle)
        requires
            self.wf(),
        ensures
            r == at(self@, pos),
    {
        if pos.x <= 0 || pos.x >= WORLD_WIDTH - 2 || pos.y <= 0 || pos.y >= WORLD_HEIGHT - 2 {
            return Particle { particle_type: ParticleType::Boundary };
        }
        self.particles[Self::get_index(pos)]
    }

    /// Unconditionally overwrite the particle at `pos`; a silent no-op for
    /// any position inside the margin.
    pub fn replace_particle(&mut self, pos: GridVec, new_val: Particle)
        requires
            old(self).wf(),
        ensures
            final(self).wf(),
            final(self)@ == replaced(old(self)@, pos, new_val),
    {
        if pos.x <= 0 || pos.x >= WORLD_WIDTH - 2 || pos.y <= 0 || pos.y >= WORLD_HEIGHT - 2 {
            return;
        }
        let i = Self::get_index(pos);
        *vstd::std_specs::vec::vec_index_mut(&mut self.particles, i) = new_val;
    }

    /// Write the particle at `pos` only where the cell currently holds
    /// `Air`; a silent no-op inside the margin or over existing material.
    pub fn add_particle(&mut self, pos: GridVec, new_val: Particle)
        requires
            old(self).wf(),
        ensures
            final(self).wf(),
            final(self)@ == added(old(self)@, pos, new_val),
    {
        if pos.x <= 0 || pos.x >= WORLD_WIDTH - 2 || pos.y <= 0 || pos.y >= WORLD_HEIGHT - 2 {
            return;
        }
        if self.get_particle(pos).particle_type == ParticleType::Air {
            let i = Self::get_index(pos);
            *vstd::std_specs::vec::vec_index_mut(&mut self.particles, i) = new_val;
        }
    }

    /// Erase a brush stroke: paint the rectangle of `place_circle` with
    /// `Air`, overwriting everything.
    pub fn clear_circle(&mut self, pos: GridVec, radius: i32)
        requires
            old(self).wf(),
            i32::MIN <= pos.x - radius <= i32::MAX,
            i32::MIN <= pos.x + radius <= i32::MAX,
            i32::MIN <= pos.y - radius <= i32::MAX,
            i32::MIN <= pos.y + radius <= i32::MAX,
        ensures
            final(self).wf(),
            final(self)@ == painted(
                old(self)@,
                pos,
                radius as int,
                (Particle { particle_type: ParticleType::Air }),
                true,
            ),
    {
        self.place_circle(pos, radius, Particle { particle_type: ParticleType::Air }, true);
    }

    /// Paint a brush stroke. The brush covers the axis-aligned rectangle
    /// spanned by clamping `pos ± radius` on each axis — deliberately a
    /// rectangle, not a circular mask — half-open on the right and top, so
    /// a radius of 0 touches no cell. Each covered cell outside the margin
    /// takes `new_val`: unconditionally when `replace` is true, only over
    /// `Air` otherwise. The integer bounds only rule out wrap-around when
    /// the brush rectangle is computed.
    pub fn place_circle(&mut self, pos: GridVec, radius: i32, new_val: Particle, replace: bool)
        requires
            old(self).wf(),
            i32::MIN <= pos.x - radius <= i32::MAX,
            i32::MIN <= pos.x + radius <= i32::MAX,
            i32::MIN <= pos.y - radius <= i32::MAX,
            i32::MIN <= pos.y + radius <= i32::MAX,
        ensures
            final(self).wf(),
            final(self)@ == painted(old(self)@, pos, radius as int, new_val, replace),
    {
        let ghost s0 = self@;
        let ghost r = radius as int;
        let left = self.clamp(GridVec::new(pos.x - radius, pos.y));
        let right = self.clamp(GridVec::new(pos.x + radius, pos.y));
        let bottom = self.clamp(GridVec::new(pos.x, pos.y - radius));
        let top = self.clamp(GridVec::new(pos.x, pos.y + radius));

        let mut y = bottom.y;
        proof {
            assert(self@ =~= painted_upto(s0, pos, r, new_val, replace, y as int, rect_left(pos, r)));
        }
        while y < top.y
            invariant
                s0.len() == grid_len(),
                left.x == rect_left(pos, r),
                right.x == rect_right(pos, r),
                bottom.y == rect_bottom(pos, r),
                top.y == rect_top(pos, r),
                bottom.y <= y,
                self@ == painted_upto(s0, pos, r, new_val, replace, y as int, rect_left(pos, r)),
            decreases top.y - y,
        {
            let mut x = left.x;
            while x < right.x
                invariant
                    s0.len() == grid_len(),
                    left.x == rect_left(pos, r),
                    right.x == rect_right(pos, r),
                    bottom.y == rect_bottom(pos, r),
                    top.y == rect_top(pos, r),
                    bottom.y <= y < top.y,
                    left.x <= x,
                    self@ == painted_upto(s0, pos, r, new_val, replace, y as int, x as int),
                decreases right.x - x,
            {
                let p = GridVec::new(x, y);
                let ghost before = self@;
                if replace {
                    self.replace_particle(p, new_val);
                } else {
                    self.add_particle(p, new_val);
                }
                proof {
                    lemma_cells_of_index(p);
                    let j = index_of(p);
                    assert forall|i: int| 0 <= i < s0.len() implies self@[i] == painted_upto(
                        s0,
                        pos,
                        r,
                        new_val,
                        replace,
                        y as int,
                        x as int + 1,
                    )[i] by {
                        lemma_fundamental_div_mod(i, WORLD_WIDTH as int);
                        if i == j {
                            assert(before[j] == s0[j]);
                        }
                    }
                    assert(self@ =~= painted_upto(
                        s0,
                        pos,
                        r,
                        new_val,
                        replace,
                        y as int,
                        x as int + 1,
                    ));
                }
                x = x + 1;
            }
            proof {
                assert(self@ =~= painted_upto(
                    s0,
                    pos,
                    r,
                    new_val,
                    replace,
                    y as int + 1,
                    rect_left(pos, r),
                ));
            }
            y = y + 1;
        }
        proof {
            assert(self@ =~= painted(s0, pos, r, new_val, replace));
        }
    }

    /// True iff a particle at `base_pos` may move by the offset `test_vec`:
    /// the target cell must be in bounds and hold `Air`, or `Water` when
    /// `replace_water` allows sinking through it. The bounds only rule out
    /// wrap-around when the target is computed.
    fn test_vec(&self, base_pos: GridVec, test_vec: GridVec, replace_water: bool) -> (r: bool)
        requires
            self.wf(),
            i32::MIN <= base_pos.x + test_vec.x <= i32::MAX,
            i32::MIN <= base_pos.y + test_vec.y <= i32::MAX,
        ensures
            r == can_move_to(self@, offset_target(base_pos, test_vec), replace_water),
    {
        let test_pos = base_pos.add(test_vec);
        if !self.contains(test_pos) {
            return false;
        }
        let material_at_test = self.get_particle(test_pos).particle_type;
        if material_at_test == ParticleType::Air {
            return true;
        }
        if replace_water && material_at_test == ParticleType::Water {
            return true;
        }
        false
    }

    /// Exchange the contents of two distinct cells outside the margin, the
    /// single atomic move of the update pass. Neither cell holds stone, so
    /// the exchange preserves everything a tick must preserve.
    fn swap_cells(&mut self, a: GridVec, b: GridVec)
        requires
            old(self).wf(),
            !in_margin(a),
            !in_margin(b),
            a != b,
            at(old(self)@, a).particle_type != ParticleType::Stone,
            at(old(self)@, b).particle_type != ParticleType::Stone,
        ensures
            final(self).wf(),
            conserving(old(self)@, final(self)@),
            final(self)@ == swapped(old(self)@, a, b),
    {
        proof {
            lemma_interior_contained(a);
            lemma_interior_contained(b);
            lemma_cells_of_index(a);
            lemma_cells_of_index(b);
            if index_of(a) == index_of(b) {
                lemma_index_injective(a, b);
            }
        }
        let part_a = self.get_particle(a);
        let part_b = self.get_particle(b);
        self.replace_particle(a, part_b);
        self.replace_particle(b, part_a);
        proof {
            let s = old(self)@;
            let ia = index_of(a);
            let ib = index_of(b);
            assert(self@ =~= s.update(ia, s[ib]).update(ib, s[ia]));
            assert forall|t: ParticleType| #[trigger] count_of(self@, t) == count_of(s, t) by {
                lemma_count_swap(s, ia, ib, t);
            }
        }
    }

    /// One sand particle's step: gather the in-priority-order candidate
    /// targets (down-right, down-left, straight down; sand may displace
    /// water), pick one uniformly at random, and swap into it; stay put
    /// when none is legal.
    fn move_sand(&mut self, base: GridVec, rng: &mut rand::rngs::ThreadRng)
        requires
            old(self).wf(),
            at(old(self)@, base).particle_type == ParticleType::Sand,
        ensures
            final(self).wf(),
            conserving(old(self)@, final(self)@),
            sand_stepped(old(self)@, final(self)@, base),
    {
        let mut possible_moves: Vec<GridVec> = Vec::new();

        let c0 = GridVec::new(1, -1);
        if self.test_vec(base, c0, true) {
            possible_moves.push(base.add(c0));
        }
        let c1 = GridVec::new(-1, -1);
        if self.test_vec(base, c1, true) {
            possible_moves.push(base.add(c1));
        }
        let c2 = GridVec::new(0, -1);
        if self.test_vec(base, c2, true) {
            possible_moves.push(base.add(c2));
        }
        assert(valid_moves(self@, base, possible_moves@, true));

        if possible_moves.len() > 0 {
            let choice = rng_index(rng, possible_moves.len());
            let chosen_pos = possible_moves[choice];
            self.swap_cells(base, chosen_pos);
        }
    }

    /// One water particle's step: gather the falling candidates (diagonals,
    /// straight down, two-cell drop; strictly into `Air`), and when at most
    /// one of those is legal, additionally the near-to-far horizontal
    /// spread offsets. Pick one of the pool uniformly at random and swap
    /// into it; stay put when the pool is empty.
    fn move_water(&mut self, base: GridVec, rng: &mut rand::rngs::ThreadRng)
        requires
            old(self).wf(),
            at(old(self)@, base).particle_type == ParticleType::Water,
        ensures
            final(self).wf(),
            conserving(old(self)@, final(self)@),
            water_stepped(old(self)@, final(self)@, base),
    {
        let mut possible_moves: Vec<GridVec> = Vec::new();

        let c0 = GridVec::new(1, -1);
        if self.test_vec(base, c0, false) {
            possible_moves.push(base.add(c0));
        }
        let c1 = GridVec::new(0, -1);
        if self.test_vec(base, c1, false) {
            possible_moves.push(base.add(c1));
        }
        let c2 = GridVec::new(-1, -1);
        if self.test_vec(base, c2, false) {
            possible_moves.push(base.add(c2));
        }
        let c3 = GridVec::new(0, -2);
        if self.test_vec(base, c3, false) {
            possible_moves.push(base.add(c3));
        }
        assert(valid_moves(self@, base, possible_moves@, false));
        assert(possible_moves@.len() == water_fall_count(self@, base));
        assert(forall|k: int| 0 <= k < possible_moves@.len()
            ==> #[trigger] water_choice_ok(self@, base, possible_moves@[k]));

        if possible_moves.len() <= 1 {
            let h0 = GridVec::new(1, 0);
            if self.test_vec(base, h0, false) {
                possible_moves.push(base.add(h0));
            }
            let h1 = GridVec::new(-1, 0);
            if self.test_vec(base, h1, false) {
                possible_moves.push(base.add(h1));
            }
            let h2 = GridVec::new(2, 0);
            if self.test_vec(base, h2, false) {
                possible_moves.push(base.add(h2));
            }
            let h3 = GridVec::new(-2, 0);
            if self.test_vec(base, h3, false) {
                possible_moves.push(base.add(h3));
            }
            let h4 = GridVec::new(3, 0);
            if self.test_vec(base, h4, false) {
                possible_moves.push(base.add(h4));
            }
            let h5 = GridVec::new(-3, 0);
            if self.test_vec(base, h5, false) {
                possible_moves.push(base.add(h5));
            }
            assert(valid_moves(self@, base, possible_moves@, false));
            assert(forall|k: int| 0 <= k < possible_moves@.len()
                ==> #[trigger] water_choice_ok(self@, base, possible_moves@[k]));
        }

        if possible_moves.len() > 0 {
            let choice = rng_index(rng, possible_moves.len());
            let chosen_pos = possible_moves[choice];
            assert(water_choice_ok(self@, base, chosen_pos));
            self.swap_cells(base, chosen_pos);
        }
    }

    /// One cell's step of the update pass: sand and water move by their
    /// rules, everything else stays.
    fn step_cell(&mut self, base: GridVec, rng: &mut rand::rngs::ThreadRng)
        requires
            old(self).wf(),
        ensures
            final(self).wf(),
            conserving(old(self)@, final(self)@),
            cell_stepped(old(self)@, final(self)@, base),
            no_mobile(old(self)@) ==> final(self)@ == old(self)@,
    {
        let cur_part = self.get_particle(base);
        if cur_part.particle_type == ParticleType::Sand {
            if base.y >= 1 {
                proof {
                    lemma_interior_contained(base);
                }
                self.move_sand(base, rng);
            }
        } else if cur_part.particle_type == ParticleType::Water {
            proof {
                lemma_interior_contained(base);
            }
            self.move_water(base, rng);
        }
    }

    /// Advance the simulation one tick: walk the rows bottom to top, each
    /// row in a freshly drawn random horizontal direction (preventing
    /// directional bias), and move each sand or water particle by its
    /// rules. The pass mutates the grid in place, so cells already moved
    /// this tick are visible to cells processed later in the same tick.
    ///
    /// Whatever the random draws, a tick preserves the count of every
    /// particle type (movement swaps cells, it never creates or destroys
    /// particles), leaves every stone cell and the whole boundary margin
    /// untouched, and leaves a grid without sand or water byte-for-byte
    /// unchanged. And a lone grain of sand with a legal move does fall: it
    /// ends up swapped into one of its three targets.
    pub fn update(&mut self)
        requires
            old(self).wf(),
        ensures
            final(self).wf(),
            conserving(old(self)@, final(self)@),
            no_mobile(old(self)@) ==> final(self)@ == old(self)@,
            forall|p: GridVec|
                (#[trigger] lone_sand(old(self)@, p)) && sand_has_move(old(self)@, p)
                    ==> sand_fell(old(self)@, final(self)@, p),
    {
        let ghost s0 = self@;
        let mut rng = new_rng();
        let mut y: i32 = 0;
        while y < WORLD_HEIGHT
            invariant
                self.wf(),
                s0.len() == grid_len(),
                0 <= y,
                conserving(s0, self@),
                no_mobile(s0) ==> self@ == s0,
                forall|p: GridVec|
                    (#[trigger] lone_sand(s0, p)) && sand_has_move(s0, p) ==> if p.y >= y {
                        self@ == s0
                    } else {
                        sand_fell(s0, self@, p)
                    },
            decreases WORLD_HEIGHT - y,
        {
            // flip processing order for a random half of rows
            let flip = rng_bool(&mut rng);
            let mut xi: i32 = 0;
            while xi < WORLD_WIDTH
                invariant
                    self.wf(),
                    s0.len() == grid_len(),
                    0 <= xi,
                    0 <= y < WORLD_HEIGHT,
                    conserving(s0, self@),
                    no_mobile(s0) ==> self@ == s0,
                    forall|p: GridVec|
                        (#[trigger] lone_sand(s0, p)) && sand_has_move(s0, p) ==> if p.y > y {
                            self@ == s0
                        } else if p.y < y {
                            sand_fell(s0, self@, p)
                        } else if (if flip {
                            p.x >= WORLD_WIDTH - xi
                        } else {
                            p.x < xi
                        }) {
                            sand_fell(s0, self@, p)
                        } else {
                            self@ == s0
                        },
                decreases WORLD_WIDTH - xi,
            {
                let x = if flip {
                    WORLD_WIDTH - xi - 1
                } else {
                    xi
                };
                let base = GridVec::new(x, y);
                let ghost pre = self@;
                self.step_cell(base, &mut rng);
                proof {
                    lemma_conserving_trans(s0, pre, self@);
                    assert forall|p: GridVec|
                        (#[trigger] lone_sand(s0, p)) && sand_has_move(s0, p) implies if p.y > y {
                        self@ == s0
                    } else if p.y < y {
                        sand_fell(s0, self@, p)
                    } else if (if flip {
                        p.x >= WORLD_WIDTH - (xi + 1)
                    } else {
                        p.x < xi + 1
                    }) {
                        sand_fell(s0, self@, p)
                    } else {
                        self@ == s0
                    } by {
                        if p.x == x && p.y == y {
                            assert(pre == s0);
                            lemma_lone_sand_falls(s0, self@, p);
                        } else if p.y > y || (p.y == y && (if flip {
                            p.x < WORLD_WIDTH - xi
                        } else {
                            p.x >= xi
                        })) {
                            assert(pre == s0);
                            lemma_lone_sand_step_elsewhere(s0, self@, base, p);
                        } else {
                            assert(sand_fell(s0, pre, p));
                            lemma_lone_sand_settled(s0, pre, self@, base, p);
                        }
                    }
                }
                xi = xi + 1;
            }
            y = y + 1;
        }
    }
}

} // verus!
