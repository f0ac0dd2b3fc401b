//! The fixed catalog of the seven classic four-block shape templates, each
//! with its color and its half-turn lowering flag.

use vstd::prelude::*;
use crate::vecs::Vec2;
use crate::pixel::{Pixel, CellColor};
use crate::shape::TetrisShape;

verus! {

/// The I shape: a cyan row of four, lowered on a half turn.
pub open spec fn is_i_shape(s: TetrisShape) -> bool {
    &&& s.render_as == Pixel::Color(CellColor::Cyan)
    &&& s.should_shape_be_lowered_on_180_rotation == true
    &&& s.blocks[0] == (Vec2::<u16> { x: 0, y: 2 })
    &&& s.blocks[1] == (Vec2::<u16> { x: 1, y: 2 })
    &&& s.blocks[2] == (Vec2::<u16> { x: 2, y: 2 })
    &&& s.blocks[3] == (Vec2::<u16> { x: 3, y: 2 })
}

/// The J shape: blue, not lowered on a half turn.
pub open spec fn is_j_shape(s: TetrisShape) -> bool {
    &&& s.render_as == Pixel::Color(CellColor::Blue)
    &&& s.should_shape_be_lowered_on_180_rotation == false
    &&& s.blocks[0] == (Vec2::<u16> { x: 1, y: 0 })
    &&& s.blocks[1] == (Vec2::<u16> { x: 1, y: 1 })
    &&& s.blocks[2] == (Vec2::<u16> { x: 0, y: 2 })
    &&& s.blocks[3] == (Vec2::<u16> { x: 1, y: 2 })
}

/// The L shape: green, not lowered on a half turn.
pub open spec fn is_l_shape(s: TetrisShape) -> bool {
    &&& s.render_as == Pixel::Color(CellColor::Green)
    &&& s.should_shape_be_lowered_on_180_rotation == false
    &&& s.blocks[0] == (Vec2::<u16> { x: 1, y: 0 })
    &&& s.blocks[1] == (Vec2::<u16> { x: 1, y: 1 })
    &&& s.blocks[2] == (Vec2::<u16> { x: 1, y: 2 })
    &&& s.blocks[3] == (Vec2::<u16> { x: 2, y: 2 })
}

/// The O shape: a yellow two-by-two block, rotation invariant.
pub open spec fn is_o_shape(s: TetrisShape) -> bool {
    &&& s.render_as == Pixel::Color(CellColor::Yellow)
    &&& s.should_shape_be_lowered_on_180_rotation == false
    &&& s.blocks[0] == (Vec2::<u16> { x: 0, y: 0 })
    &&& s.blocks[1] == (Vec2::<u16> { x: 1, y: 0 })
    &&& s.blocks[2] == (Vec2::<u16> { x: 0, y: 1 })
    &&& s.blocks[3] == (Vec2::<u16> { x: 1, y: 1 })
}

/// The T shape: purple, lowered on a half turn.
pub open spec fn is_t_shape(s: TetrisShape) -> bool {
    &&& s.render_as == Pixel::Color(CellColor::Purple)
    &&& s.should_shape_be_lowered_on_180_rotation == true
    &&& s.blocks[0] == (Vec2::<u16> { x: 0, y: 1 })
    &&& s.blocks[1] == (Vec2::<u16> { x: 1, y: 1 })
    &&& s.blocks[2] == (Vec2::<u16> { x: 2, y: 1 })
    &&& s.blocks[3] == (Vec2::<u16> { x: 1, y: 2 })
}

/// The S shape: red, lowered on a half turn.
pub open spec fn is_s_shape(s: TetrisShape) -> bool {
    &&& s.render_as == Pixel::Color(CellColor::Red)
    &&& s.should_shape_be_lowered_on_180_rotation == true
    &&& s.blocks[0] == (Vec2::<u16> { x: 1, y: 1 })
    &&& s.blocks[1] == (Vec2::<u16> { x: 2, y: 1 })
    &&& s.blocks[2] == (Vec2::<u16> { x: 0, y: 2 })
    &&& s.blocks[3] == (Vec2::<u16> { x: 1, y: 2 })
}

/// The Z shape: green, lowered on a half turn.
pub open spec fn is_z_shape(s: TetrisShape) -> bool {
    &&& s.render_as == Pixel::Color(CellColor::Green)
    &&& s.should_shape_be_lowered_on_180_rotation == true
    &&& s.blocks[0] == (Vec2::<u16> { x: 0, y: 1 })
    &&& s.blocks[1] == (Vec2::<u16> { x: 1, y: 1 })
    &&& s.blocks[2] == (Vec2::<u16> { x: 1, y: 2 })
    &&& s.blocks[3] == (Vec2::<u16> { x: 2, y: 2 })
}

/// The seven shape templates in catalog order: I, J, L, O, T, S, Z.
pub fn standard_shapes() -> (r: Vec<TetrisShape>)
    ensures
        r@.len() == 7,
        is_i_shape(r@[0]),
        is_j_shape(r@[1]),
        is_l_shape(r@[2]),
        is_o_shape(r@[3]),
        is_t_shape(r@[4]),
        is_s_shape(r@[5]),
        is_z_shape(r@[6]),
        forall|i: int| 0 <= i < 7 ==> (#[trigger] r@[i]).wf(),
{
    let mut v: Vec<TetrisShape> = Vec::new();
    v.push(
        TetrisShape {
            blocks: [
                Vec2 { x: 0, y: 2 },
                Vec2 { x: 1, y: 2 },
                Vec2 { x: 2, y: 2 },
                Vec2 { x: 3, y: 2 },
            ],
            render_as: Pixel::Color(CellColor::Cyan),
            should_shape_be_lowered_on_180_rotation: true,
        },
    );
    v.push(
        TetrisShape {
            blocks: [
                Vec2 { x: 1, y: 0 },
                Vec2 { x: 1, y: 1 },
                Vec2 { x: 0, y: 2 },
                Vec2 { x: 1, y: 2 },
            ],
            render_as: Pixel::Color(CellColor::Blue),
            should_shape_be_lowered_on_180_rotation: false,
        },
    );
    v.push(
        TetrisShape {
            blocks: [
                Vec2 { x: 1, y: 0 },
                Vec2 { x: 1, y: 1 },
                Vec2 { x: 1, y: 2 },
                Vec2 { x: 2, y: 2 },
            ],
            render_as: Pixel::Color(CellColor::Green),
            should_shape_be_lowered_on_180_rotation: false,
        },
    );
    v.push(
        TetrisShape {
            blocks: [
                Vec2 { x: 0, y: 0 },
                Vec2 { x: 1, y: 0 },
                Vec2 { x: 0, y: 1 },
                Vec2 { x: 1, y: 1 },
            ],
            render_as: Pixel::Color(CellColor::Yellow),
            should_shape_be_lowered_on_180_rotation: false,
        },
    );
    v.push(
        TetrisShape {
            blocks: [
                Vec2 { x: 0, y: 1 },
                Vec2 { x: 1, y: 1 },
                Vec2 { x: 2, y: 1 },
                Vec2 { x: 1, y: 2 },
            ],
            render_as: Pixel::Color(CellColor::Purple),
            should_shape_be_lowered_on_180_rotation: true,
        },
    );
    v.push(
        TetrisShape {
            blocks: [
                Vec2 { x: 1, y: 1 },
                Vec2 { x: 2, y: 1 },
                Vec2 { x: 0, y: 2 },
                Vec2 { x: 1, y: 2 },
            ],
            render_as: Pixel::Color(CellColor::Red),
            should_shape_be_lowered_on_180_rotation: true,
        },
    );
    v.push(
        TetrisShape {
            blocks: [
                Vec2 { x: 0, y: 1 },
                Vec2 { x: 1, y: 1 },
                Vec2 { x: 1, y: 2 },
                Vec2 { x: 2, y: 2 },
            ],
            render_as: Pixel::Color(CellColor::Green),
            should_shape_be_lowered_on_180_rotation: true,
        },
    );
    v
}

} // verus!
