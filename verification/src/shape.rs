//! The four-block polyomino shape: bounding box, rotation center, rotated
//! copies and rasterization into a framebuffer.
//!
//! All centers are half-integers, and all rotation matrices have entries
//! -1, 0 and 1, so the geometry is computed exactly on integers: a
//! coordinate that is conceptually `v / 2` is carried around as the doubled
//! value `v`.

use vstd::prelude::*;
use crate::vecs::{Vec2, BoundingBox};
use crate::rotation::{Rotation, Mat2, spec_mat_entries};
use crate::rounding::round_frac;
use crate::pixel::Pixel;
use crate::framebuffer::Framebuffer;

verus! {

/// The narrowing cast to the unsigned coordinate type clamps a negative
/// exact result to zero.
pub open spec fn clamp_to_zero(v: int) -> int {
    if v < 0 {
        0
    } else {
        v
    }
}

/// A fixed four-block polyomino. Block coordinates are non-negative and
/// relative to the shape's own local origin, each block naming the top-left
/// corner of the unit cell it occupies.
#[derive(Clone, Copy, Debug)]
pub struct TetrisShape {
    pub blocks: [Vec2<u16>; 4],
    /// How the shape's cells are painted.
    pub render_as: Pixel,
    /// Whether a half-turn rotation additionally lowers the shape by one
    /// cell, the convention fixup some shapes need.
    pub should_shape_be_lowered_on_180_rotation: bool,
}

impl TetrisShape {
    /// Smallest x coordinate over the four blocks.
    pub open spec fn min_x(self) -> int {
        vstd::math::min(
            vstd::math::min(self.blocks[0].x as int, self.blocks[1].x as int),
            vstd::math::min(self.blocks[2].x as int, self.blocks[3].x as int),
        )
    }

    /// Largest x coordinate over the four blocks.
    pub open spec fn max_x(self) -> int {
        vstd::math::max(
            vstd::math::max(self.blocks[0].x as int, self.blocks[1].x as int),
            vstd::math::max(self.blocks[2].x as int, self.blocks[3].x as int),
        )
    }

    /// Smallest y coordinate over the four blocks.
    pub open spec fn min_y(self) -> int {
        vstd::math::min(
            vstd::math::min(self.blocks[0].y as int, self.blocks[1].y as int),
            vstd::math::min(self.blocks[2].y as int, self.blocks[3].y as int),
        )
    }

    /// Largest y coordinate over the four blocks.
    pub open spec fn max_y(self) -> int {
        vstd::math::max(
            vstd::math::max(self.blocks[0].y as int, self.blocks[1].y as int),
            vstd::math::max(self.blocks[2].y as int, self.blocks[3].y as int),
        )
    }

    /// The larger of the bounding box's width and height: the side of the
    /// enclosing square that the shape rotates inside.
    pub open spec fn max_dim(self) -> int {
        vstd::math::max(self.max_x() + 1 - self.min_x(), self.max_y() + 1 - self.min_y())
    }

    /// Both exclusive bounding-box ends still fit the coordinate type.
    pub open spec fn wf(self) -> bool {
        self.max_x() + 1 <= u16::MAX && self.max_y() + 1 <= u16::MAX
    }

    /// The minimal axis-aligned extent of the blocks, inclusive of the unit
    /// cell each block occupies: the exclusive end is one past the largest
    /// coordinate on each axis.
    pub fn get_bounding_box(&self) -> (r: BoundingBox<u16>)
        requires
            self.wf(),
        ensures
            r.start.x == self.min_x(),
            r.start.y == self.min_y(),
            r.end.x == self.max_x() + 1,
            r.end.y == self.max_y() + 1,
            r.wf(),
    {
        let mut minx: u16 = self.blocks[0].x;
        let mut maxx: u16 = self.blocks[0].x;
        let mut miny: u16 = self.blocks[0].y;
        let mut maxy: u16 = self.blocks[0].y;
        if self.blocks[1].x < minx {
            minx = self.blocks[1].x;
        }
        if self.blocks[1].x > maxx {
            maxx = self.blocks[1].x;
        }
        if self.blocks[2].x < minx {
            minx = self.blocks[2].x;
        }
        if self.blocks[2].x > maxx {
            maxx = self.blocks[2].x;
        }
        if self.blocks[3].x < minx {
            minx = self.blocks[3].x;
        }
        if self.blocks[3].x > maxx {
            maxx = self.blocks[3].x;
        }
        if self.blocks[1].y < miny {
            miny = self.blocks[1].y;
        }
        if self.blocks[1].y > maxy {
            maxy = self.blocks[1].y;
        }
        if self.blocks[2].y < miny {
            miny = self.blocks[2].y;
        }
        if self.blocks[2].y > maxy {
            maxy = self.blocks[2].y;
        }
        if self.blocks[3].y < miny {
            miny = self.blocks[3].y;
        }
        if self.blocks[3].y > maxy {
            maxy = self.blocks[3].y;
        }
        BoundingBox::new(minx, miny, maxx + 1, maxy + 1)
    }

    /// The exact rotation center has both coordinates `(max_dim - 1) / 2`,
    /// a half-integer; this returns the center with both coordinates
    /// doubled, so it stays on the integer grid. The center of the
    /// enclosing square is used on both axes, and the half-cell step back
    /// accounts for blocks naming their cell's top-left corner.
    pub fn get_center_doubled(&self) -> (r: Vec2<i32>)
        requires
            self.wf(),
        ensures
            r.x == self.max_dim() - 1,
            r.y == self.max_dim() - 1,
            0 <= r.x <= 0xfffe,
    {
        let bbox = self.get_bounding_box();
        let dims = bbox.dimensions();
        let maxd: u16 = if dims.x > dims.y {
            dims.x
        } else {
            dims.y
        };
        Vec2 { x: maxd as i32 - 1, y: maxd as i32 - 1 }
    }

    /// The rotation center rounded to whole cells, ties rounding toward
    /// zero. Both coordinates come out as `(max_dim - 1) / 2` rounded down,
    /// the centers being non-negative half-integers.
    pub fn get_rounded_center(&self) -> (r: Vec2<i32>)
        requires
            self.wf(),
        ensures
            r.x == (self.max_dim() - 1) / 2,
            r.y == (self.max_dim() - 1) / 2,
            0 <= r.x <= 0x7fff,
    {
        let c = self.get_center_doubled();
        Vec2 { x: round_frac(c.x, 2), y: round_frac(c.y, 2) }
    }
}

/// The x coordinate of block `b` after a quarter turn of `rot` about the
/// center of the enclosing square, where `d` is the doubled center
/// coordinate `max_dim - 1`. A coordinate the exact rotation sends below
/// zero is clamped to zero by the narrowing cast.
pub open spec fn spec_rotated_x(b: Vec2<u16>, d: int, rot: Rotation) -> int {
    match rot {
        Rotation::North => b.x as int,
        Rotation::East => clamp_to_zero(d - b.y),
        Rotation::South => clamp_to_zero(d - b.x),
        Rotation::West => b.y as int,
    }
}

/// The y coordinate of block `b` after a quarter turn of `rot`, with the
/// one-cell lowering fixup applied on a half turn when the shape asks for
/// it.
pub open spec fn spec_rotated_y(b: Vec2<u16>, d: int, rot: Rotation, lowered: bool) -> int {
    let base = match rot {
        Rotation::North => b.y as int,
        Rotation::East => b.x as int,
        Rotation::South => clamp_to_zero(d - b.y),
        Rotation::West => clamp_to_zero(d - b.x),
    };
    if rot == Rotation::South && lowered {
        base + 1
    } else {
        base
    }
}

/// A product with a factor of -1, 0 or 1 collapses to negation, zero or
/// identity.
proof fn lemma_mul_unit(v: int, m: int)
    requires
        -1 <= m <= 1,
    ensures
        m == -1 ==> v * m == -v,
        m == 0 ==> v * m == 0,
        m == 1 ==> v * m == v,
{
    assert((m == -1 ==> v * m == -v) && (m == 0 ==> v * m == 0) && (m == 1 ==> v * m == v))
        by (nonlinear_arith)
        requires
            -1 <= m <= 1,
    ;
}

/// Rotates one block about the doubled center `d` with the matrix of
/// `rot`, working on doubled coordinates so the arithmetic stays exact,
/// then clamps and applies the half-turn fixup.
fn rotate_block(b: Vec2<u16>, mat: &Mat2, d: i32, rot: Rotation, lowered: bool) -> (r: Vec2<u16>)
    requires
        mat.0@ == spec_mat_entries(rot),
        0 <= d <= 0xfffe,
        b.x <= 0xfffe,
        b.y <= 0xfffe,
    ensures
        r.x == spec_rotated_x(b, d as int, rot),
        r.y == spec_rotated_y(b, d as int, rot, lowered),
{
    let off = Vec2::<i32> { x: 2 * (b.x as i32) - d, y: 2 * (b.y as i32) - d };
    let rotated = mat.mul_vec(off);
    proof {
        broadcast use vstd::array::group_array_axioms;

        lemma_mul_unit(2 * (b.x as int) - d, mat.0[0] as int);
        lemma_mul_unit(2 * (b.x as int) - d, mat.0[1] as int);
        lemma_mul_unit(2 * (b.y as int) - d, mat.0[2] as int);
        lemma_mul_unit(2 * (b.y as int) - d, mat.0[3] as int);
        match rot {
            Rotation::North => {
                assert(mat.0[0] == 1 && mat.0[1] == 0 && mat.0[2] == 0 && mat.0[3] == 1);
                assert(rotated.x == 2 * (b.x as int) - d);
                assert(rotated.y == 2 * (b.y as int) - d);
            },
            Rotation::East => {
                assert(mat.0[0] == 0 && mat.0[1] == 1 && mat.0[2] == -1 && mat.0[3] == 0);
                assert(rotated.x == d - 2 * (b.y as int));
                assert(rotated.y == 2 * (b.x as int) - d);
            },
            Rotation::South => {
                assert(mat.0[0] == -1 && mat.0[1] == 0 && mat.0[2] == 0 && mat.0[3] == -1);
                assert(rotated.x == d - 2 * (b.x as int));
                assert(rotated.y == d - 2 * (b.y as int));
            },
            Rotation::West => {
                assert(mat.0[0] == 0 && mat.0[1] == -1 && mat.0[2] == 1 && mat.0[3] == 0);
                assert(rotated.x == 2 * (b.y as int) - d);
                assert(rotated.y == d - 2 * (b.x as int));
            },
        }
    }
    let rx2: i32 = d + rotated.x;
    let ry2: i32 = d + rotated.y;
    let mut bx: i32 = rx2 / 2;
    let mut by: i32 = ry2 / 2;
    proof {
        match rot {
            Rotation::North => {
                assert(rx2 == 2 * (b.x as int));
                assert(ry2 == 2 * (b.y as int));
            },
            Rotation::East => {
                assert(rx2 == 2 * (d - b.y as int));
                assert(ry2 == 2 * (b.x as int));
            },
            Rotation::South => {
                assert(rx2 == 2 * (d - b.x as int));
                assert(ry2 == 2 * (d - b.y as int));
            },
            Rotation::West => {
                assert(rx2 == 2 * (b.y as int));
                assert(ry2 == 2 * (d - b.x as int));
            },
        }
    }
    if bx < 0 {
        bx = 0;
    }
    if by < 0 {
        by = 0;
    }
    if rot == Rotation::South && lowered {
        by = by + 1;
    }
    Vec2 { x: bx as u16, y: by as u16 }
}

impl TetrisShape {
    /// `self` is `t` turned by `rot`: same color and fixup flag, every
    /// block rotated about the center of `t`'s enclosing square, with the
    /// half-turn fixup of `t` applied.
    pub open spec fn is_rotation_of(self, t: TetrisShape, rot: Rotation) -> bool {
        &&& self.render_as == t.render_as
        &&& self.should_shape_be_lowered_on_180_rotation
            == t.should_shape_be_lowered_on_180_rotation
        &&& forall|i: int|
            0 <= i < 4 ==> (#[trigger] self.blocks[i]).x == spec_rotated_x(
                t.blocks[i],
                t.max_dim() - 1,
                rot,
            ) && self.blocks[i].y == spec_rotated_y(
                t.blocks[i],
                t.max_dim() - 1,
                rot,
                t.should_shape_be_lowered_on_180_rotation,
            )
    }

    /// A copy of the shape turned by `rot`. The copy is always derived
    /// from `self` in its canonical pose, never from an already rotated
    /// value, so repeated rotation accumulates no error.
    pub fn clone_with_rotation(&self, rot: Rotation) -> (r: TetrisShape)
        requires
            self.wf(),
        ensures
            r.is_rotation_of(*self, rot),
    {
        if rot == Rotation::North {
            return self.clone();
        }
        let center = self.get_center_doubled();
        let mat = rot.get_mat2();
        let lowered = self.should_shape_be_lowered_on_180_rotation;
        let blocks: [Vec2<u16>; 4] = [
            rotate_block(self.blocks[0], &mat, center.x, rot, lowered),
            rotate_block(self.blocks[1], &mat, center.x, rot, lowered),
            rotate_block(self.blocks[2], &mat, center.x, rot, lowered),
            rotate_block(self.blocks[3], &mat, center.x, rot, lowered),
        ];
        TetrisShape {
            blocks,
            render_as: self.render_as,
            should_shape_be_lowered_on_180_rotation: lowered,
        }
    }

    /// The x coordinate of block `i` translated so the rounded rotation
    /// center lands on the anchor `x`.
    pub open spec fn spec_abs_x(self, x: int, i: int) -> int {
        x + self.blocks[i].x - (self.max_dim() - 1) / 2
    }

    /// The y coordinate of block `i` translated so the rounded rotation
    /// center lands on the anchor `y`.
    pub open spec fn spec_abs_y(self, y: int, i: int) -> int {
        y + self.blocks[i].y - (self.max_dim() - 1) / 2
    }

    /// Every block, translated to the anchor, stays inside the coordinate
    /// type.
    pub open spec fn abs_blocks_fit(self, x: int, y: int) -> bool {
        &&& forall|i: int| 0 <= i < 4 ==> 0 <= #[trigger] self.spec_abs_x(x, i) <= u16::MAX
        &&& forall|i: int| 0 <= i < 4 ==> 0 <= #[trigger] self.spec_abs_y(y, i) <= u16::MAX
    }

    /// The four blocks translated so the shape's rounded center aligns
    /// with the anchor `(x, y)`: the anchor names the shape's visual
    /// center, not a corner.
    pub fn get_blocks_in_absolute_coordinates(&self, x: u16, y: u16) -> (r: Vec<Vec2<u16>>)
        requires
            self.wf(),
            self.abs_blocks_fit(x as int, y as int),
        ensures
            r@.len() == 4,
            forall|i: int|
                0 <= i < 4 ==> (#[trigger] r@[i]).x == self.spec_abs_x(x as int, i) && r@[i].y
                    == self.spec_abs_y(y as int, i),
    {
        let c = self.get_rounded_center();
        let mut out: Vec<Vec2<u16>> = Vec::new();
        let mut k: usize = 0;
        while k < 4
            invariant
                self.wf(),
                self.abs_blocks_fit(x as int, y as int),
                c.x == (self.max_dim() - 1) / 2,
                c.y == (self.max_dim() - 1) / 2,
                0 <= c.x <= 0x7fff,
                k <= 4,
                out@.len() == k,
                forall|i: int|
                    0 <= i < k ==> (#[trigger] out@[i]).x == self.spec_abs_x(x as int, i)
                        && out@[i].y == self.spec_abs_y(y as int, i),
            decreases 4 - k,
    {
            let ax: i32 = x as i32 + self.blocks[k].x as i32 - c.x;
            let ay: i32 = y as i32 + self.blocks[k].y as i32 - c.y;
            proof {
                assert(0 <= self.spec_abs_x(x as int, k as int) <= u16::MAX && 0
                    <= self.spec_abs_y(y as int, k as int) <= u16::MAX);
                assert(ax == self.spec_abs_x(x as int, k as int));
                assert(ay == self.spec_abs_y(y as int, k as int));
            }
            out.push(Vec2 { x: ax as u16, y: ay as u16 });
            k = k + 1;
        }
        out
    }

    /// The row-major framebuffer index that block `i` lands on when the
    /// shape is anchored at `(x, y)` on a grid `w` cells wide.
    pub open spec fn spec_idx(self, x: int, y: int, w: int, i: int) -> int {
        self.spec_abs_y(y, i) * w + self.spec_abs_x(x, i)
    }

    /// Every block, translated to the anchor, lands inside the grid.
    pub open spec fn blocks_in_bounds(self, x: int, y: int, fb: Framebuffer) -> bool {
        &&& forall|i: int| 0 <= i < 4 ==> #[trigger] self.spec_abs_x(x, i) < fb.width
        &&& forall|i: int| 0 <= i < 4 ==> #[trigger] self.spec_abs_y(y, i) < fb.height
    }

    /// Writes the shape's color into every cell the anchored shape covers;
    /// all other cells keep their pixels.
    pub fn draw_to_framebuffer(&self, buff: &mut Framebuffer, x: u16, y: u16)
        requires
            old(buff).wf(),
            self.wf(),
            self.abs_blocks_fit(x as int, y as int),
            self.blocks_in_bounds(x as int, y as int, *old(buff)),
        ensures
            final(buff).term_width == old(buff).term_width,
            final(buff).term_height == old(buff).term_height,
            final(buff).xdensity == old(buff).xdensity,
            final(buff).ydensity == old(buff).ydensity,
            final(buff).width == old(buff).width,
            final(buff).height == old(buff).height,
            final(buff).wf(),
            forall|i: int|
                0 <= i < 4 ==> final(buff).data@[self.spec_idx(
                    x as int,
                    y as int,
                    old(buff).width as int,
                    i,
                )] == self.render_as,
            forall|j: int|
                0 <= j < old(buff).data@.len() && j != self.spec_idx(
                    x as int,
                    y as int,
                    old(buff).width as int,
                    0,
                ) && j != self.spec_idx(x as int, y as int, old(buff).width as int, 1) && j
                    != self.spec_idx(x as int, y as int, old(buff).width as int, 2) && j
                    != self.spec_idx(x as int, y as int, old(buff).width as int, 3)
                    ==> final(buff).data@[j] == old(buff).data@[j],
    {
        let abs = self.get_blocks_in_absolute_coordinates(x, y);
        proof {
            assert forall|i: int| 0 <= i < 4 implies 0 <= #[trigger] self.spec_idx(
                x as int,
                y as int,
                old(buff).width as int,
                i,
            ) < old(buff).data@.len() by {
                crate::framebuffer::lemma_row_major_index(
                    self.spec_abs_x(x as int, i),
                    self.spec_abs_y(y as int, i),
                    old(buff).width as int,
                    old(buff).height as int,
                );
            }
        }
        let mut k: usize = 0;
        while k < 4
            invariant
                buff.wf(),
                buff.data@.len() == old(buff).data@.len(),
                forall|i: int|
                    0 <= i < 4 ==> 0 <= #[trigger] self.spec_idx(
                        x as int,
                        y as int,
                        old(buff).width as int,
                        i,
                    ) < old(buff).data@.len(),
                self.wf(),
                buff.term_width == old(buff).term_width,
                buff.term_height == old(buff).term_height,
                buff.xdensity == old(buff).xdensity,
                buff.ydensity == old(buff).ydensity,
                buff.width == old(buff).width,
                buff.height == old(buff).height,
                self.abs_blocks_fit(x as int, y as int),
                self.blocks_in_bounds(x as int, y as int, *old(buff)),
                abs@.len() == 4,
                forall|i: int|
                    0 <= i < 4 ==> (#[trigger] abs@[i]).x == self.spec_abs_x(x as int, i)
                        && abs@[i].y == self.spec_abs_y(y as int, i),
                k <= 4,
                forall|i: int|
                    0 <= i < k ==> buff.data@[self.spec_idx(
                        x as int,
                        y as int,
                        old(buff).width as int,
                        i,
                    )] == self.render_as,
                forall|j: int|
                    0 <= j < old(buff).data@.len() && j != self.spec_idx(
                        x as int,
                        y as int,
                        old(buff).width as int,
                        0,
                    ) && j != self.spec_idx(x as int, y as int, old(buff).width as int, 1) && j
                        != self.spec_idx(x as int, y as int, old(buff).width as int, 2) && j
                        != self.spec_idx(x as int, y as int, old(buff).width as int, 3)
                        ==> buff.data@[j] == old(buff).data@[j],
            decreases 4 - k,
        {
            let block = abs[k];
            proof {
                assert(block.x == self.spec_abs_x(x as int, k as int));
                assert(block.y == self.spec_abs_y(y as int, k as int));
            }
            buff.set_pixel(block.x, block.y, self.render_as);
            proof {
                assert(block.y as int * old(buff).width as int + block.x as int == self.spec_idx(
                    x as int,
                    y as int,
                    old(buff).width as int,
                    k as int,
                ));
            }
            k = k + 1;
        }
    }
}

} // verus!
