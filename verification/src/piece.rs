//! A placed, rotatable piece and the settled single blocks it leaves
//! behind.
//!
//! A piece remembers the shape it was built from in its canonical pose and
//! recomputes the rotated shape from that template on every orientation
//! change; rotations are never composed incrementally, so repeated turns
//! accumulate no error and a full cycle of quarter turns restores the
//! original block set exactly.

use vstd::prelude::*;
use crate::vecs::Vec2;
use crate::rotation::Rotation;
use crate::shape::TetrisShape;
use crate::framebuffer::Framebuffer;
use crate::pixel::Pixel;

verus! {

/// A shape anchored on the grid together with its current orientation.
/// The anchor names the shape's visual center, not a corner.
pub struct Tetriminos {
    /// The shape in its canonical pose; every rotation starts over from
    /// here.
    pub template: TetrisShape,
    /// The template as turned to `rotation`.
    pub shape: TetrisShape,
    /// Where the shape's rounded rotation center sits on the grid.
    pub pos: Vec2<i32>,
    pub rotation: Rotation,
}

/// What one clockwise quarter turn of a piece does: template and position
/// kept, orientation stepped, shape recomputed from the template.
pub open spec fn spec_stepped_cw(pre: Tetriminos, post: Tetriminos) -> bool {
    &&& post.template == pre.template
    &&& post.pos == pre.pos
    &&& post.rotation == pre.rotation.spec_cw()
    &&& post.shape.is_rotation_of(pre.template, post.rotation)
}

/// What one counterclockwise quarter turn of a piece does.
pub open spec fn spec_stepped_ccw(pre: Tetriminos, post: Tetriminos) -> bool {
    &&& post.template == pre.template
    &&& post.pos == pre.pos
    &&& post.rotation == pre.rotation.spec_ccw()
    &&& post.shape.is_rotation_of(pre.template, post.rotation)
}

impl Tetriminos {
    /// The template fits the coordinate type and the cached shape is the
    /// template turned to the current orientation.
    pub open spec fn inv(self) -> bool {
        self.template.wf() && self.shape.is_rotation_of(self.template, self.rotation)
    }

    /// A fresh piece: unrotated, anchored at `pos`.
    pub fn new(pos: Vec2<i32>, shape: TetrisShape) -> (r: Tetriminos)
        requires
            shape.wf(),
        ensures
            r.template == shape,
            r.shape == shape,
            r.pos == pos,
            r.rotation == Rotation::North,
            r.inv(),
    {
        Tetriminos { template: shape, shape, pos, rotation: Rotation::North }
    }

    /// Turns the piece to `rot`, recomputing the shape from the unrotated
    /// template.
    pub fn set_rotation(&mut self, rot: Rotation)
        requires
            old(self).template.wf(),
        ensures
            final(self).template == old(self).template,
            final(self).pos == old(self).pos,
            final(self).rotation == rot,
            final(self).shape.is_rotation_of(old(self).template, rot),
            final(self).inv(),
    {
        self.rotation = rot;
        self.shape = self.template.clone_with_rotation(rot);
    }

    /// Steps the piece one quarter turn clockwise.
    #[allow(non_snake_case)]
    pub fn rotateCW(&mut self)
        requires
            old(self).template.wf(),
        ensures
            spec_stepped_cw(*old(self), *final(self)),
            final(self).inv(),
    {
        self.set_rotation(self.rotation.rotateCW());
    }

    /// Steps the piece one quarter turn counterclockwise.
    #[allow(non_snake_case)]
    pub fn rotateCCW(&mut self)
        requires
            old(self).template.wf(),
        ensures
            spec_stepped_ccw(*old(self), *final(self)),
            final(self).inv(),
    {
        self.set_rotation(self.rotation.rotateCCW());
    }

    /// Draws the current shape into the framebuffer at the piece's anchor.
    pub fn draw_to_framebuffer(&self, framebuffer: &mut Framebuffer)
        requires
            old(framebuffer).wf(),
            self.shape.wf(),
            0 <= self.pos.x <= u16::MAX,
            0 <= self.pos.y <= u16::MAX,
            self.shape.abs_blocks_fit(self.pos.x as int, self.pos.y as int),
            self.shape.blocks_in_bounds(self.pos.x as int, self.pos.y as int, *old(framebuffer)),
        ensures
            final(framebuffer).term_width == old(framebuffer).term_width,
            final(framebuffer).term_height == old(framebuffer).term_height,
            final(framebuffer).xdensity == old(framebuffer).xdensity,
            final(framebuffer).ydensity == old(framebuffer).ydensity,
            final(framebuffer).width == old(framebuffer).width,
            final(framebuffer).height == old(framebuffer).height,
            final(framebuffer).wf(),
            forall|i: int|
                0 <= i < 4 ==> final(framebuffer).data@[self.shape.spec_idx(
                    self.pos.x as int,
                    self.pos.y as int,
                    old(framebuffer).width as int,
                    i,
                )] == self.shape.render_as,
            forall|j: int|
                0 <= j < old(framebuffer).data@.len() && j != self.shape.spec_idx(
                    self.pos.x as int,
                    self.pos.y as int,
                    old(framebuffer).width as int,
                    0,
                ) && j != self.shape.spec_idx(
                    self.pos.x as int,
                    self.pos.y as int,
                    old(framebuffer).width as int,
                    1,
                ) && j != self.shape.spec_idx(
                    self.pos.x as int,
                    self.pos.y as int,
                    old(framebuffer).width as int,
                    2,
                ) && j != self.shape.spec_idx(
                    self.pos.x as int,
                    self.pos.y as int,
                    old(framebuffer).width as int,
                    3,
                ) ==> final(framebuffer).data@[j] == old(framebuffer).data@[j],
    {
        self.shape.draw_to_framebuffer(framebuffer, self.pos.x as u16, self.pos.y as u16);
    }
}

/// A single settled cell left behind on the grid.
pub struct LeftoverBlock {
    pub pos: Vec2<i32>,
    pub render_as: Pixel,
}

impl LeftoverBlock {
    /// Writes the block's pixel at its position.
    pub fn draw_to_framebuffer(&self, framebuffer: &mut Framebuffer)
        requires
            old(framebuffer).wf(),
            0 <= self.pos.x < old(framebuffer).width,
            0 <= self.pos.y < old(framebuffer).height,
        ensures
            final(framebuffer).data@ == old(framebuffer).data@.update(
                self.pos.y * old(framebuffer).width as int + self.pos.x,
                self.render_as,
            ),
            final(framebuffer).term_width == old(framebuffer).term_width,
            final(framebuffer).term_height == old(framebuffer).term_height,
            final(framebuffer).xdensity == old(framebuffer).xdensity,
            final(framebuffer).ydensity == old(framebuffer).ydensity,
            final(framebuffer).width == old(framebuffer).width,
            final(framebuffer).height == old(framebuffer).height,
            final(framebuffer).wf(),
    {
        framebuffer.set_pixel(self.pos.x as u16, self.pos.y as u16, self.render_as);
    }
}

/// A turn pins every block coordinate, so two shapes that are both `t`
/// turned by `rot` are the same shape.
pub proof fn lemma_rotation_of_unique(
    a: TetrisShape,
    b: TetrisShape,
    t: TetrisShape,
    rot: Rotation,
)
    requires
        a.is_rotation_of(t, rot),
        b.is_rotation_of(t, rot),
    ensures
        a == b,
{
    broadcast use vstd::array::group_array_axioms;

    assert forall|i: int| 0 <= i < 4 implies a.blocks@[i] == b.blocks@[i] by {
        assert(a.blocks[i].x == b.blocks[i].x);
        assert(a.blocks[i].y == b.blocks[i].y);
    }
    assert(a.blocks@ =~= b.blocks@);
    assert(a.blocks == b.blocks);
}

/// The turn to north is the identity: any shape is its own north turn.
pub proof fn lemma_north_rotation_identity(t: TetrisShape)
    ensures
        t.is_rotation_of(t, Rotation::North),
{
}

/// Four quarter turns clockwise return a piece exactly to its starting
/// state. Each step recomputes the shape from the unrotated template, so
/// the half-turn lowering fixup applied at the south orientation leaves no
/// residue once the cycle closes.
pub proof fn lemma_four_cw_turns_restore(
    p0: Tetriminos,
    p1: Tetriminos,
    p2: Tetriminos,
    p3: Tetriminos,
    p4: Tetriminos,
)
    requires
        p0.inv(),
        spec_stepped_cw(p0, p1),
        spec_stepped_cw(p1, p2),
        spec_stepped_cw(p2, p3),
        spec_stepped_cw(p3, p4),
    ensures
        p4 == p0,
{
    crate::rotation::lemma_quarter_turns_cycle(p0.rotation);
    lemma_rotation_of_unique(p4.shape, p0.shape, p0.template, p0.rotation);
}

/// Four quarter turns counterclockwise also return a piece exactly to its
/// starting state.
pub proof fn lemma_four_ccw_turns_restore(
    p0: Tetriminos,
    p1: Tetriminos,
    p2: Tetriminos,
    p3: Tetriminos,
    p4: Tetriminos,
)
    requires
        p0.inv(),
        spec_stepped_ccw(p0, p1),
        spec_stepped_ccw(p1, p2),
        spec_stepped_ccw(p2, p3),
        spec_stepped_ccw(p3, p4),
    ensures
        p4 == p0,
{
    crate::rotation::lemma_quarter_turns_cycle(p0.rotation);
    lemma_rotation_of_unique(p4.shape, p0.shape, p0.template, p0.rotation);
}

} // verus!
