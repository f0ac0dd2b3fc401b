use tetromino_term::catalog::standard_shapes;
use tetromino_term::pixel::{CellColor, Pixel};
use tetromino_term::rotation::Rotation;
use tetromino_term::shape::TetrisShape;
use tetromino_term::vecs::Vec2;

fn shape(blocks: [[u16; 2]; 4], lowered: bool) -> TetrisShape {
    TetrisShape {
        blocks: [
            Vec2::from(blocks[0]),
            Vec2::from(blocks[1]),
            Vec2::from(blocks[2]),
            Vec2::from(blocks[3]),
        ],
        render_as: Pixel::Color(CellColor::Cyan),
        should_shape_be_lowered_on_180_rotation: lowered,
    }
}

fn block_pairs(s: &TetrisShape) -> Vec<(u16, u16)> {
    s.blocks.iter().map(|b| (b.x, b.y)).collect()
}

fn sorted_block_pairs(s: &TetrisShape) -> Vec<(u16, u16)> {
    let mut v = block_pairs(s);
    v.sort();
    v
}

#[test]
fn o_shape_bounding_box_and_center() {
    let o = shape([[0, 0], [1, 0], [0, 1], [1, 1]], false);
    let bb = o.get_bounding_box();
    assert_eq!((bb.start.x, bb.start.y), (0, 0));
    assert_eq!((bb.end.x, bb.end.y), (2, 2));
    // the exact center is (0.5, 0.5), carried as doubled coordinates
    let c = o.get_center_doubled();
    assert_eq!((c.x, c.y), (1, 1));
    let rc = o.get_rounded_center();
    assert_eq!((rc.x, rc.y), (0, 0));
}

#[test]
fn o_shape_rotation_invariant() {
    let o = shape([[0, 0], [1, 0], [0, 1], [1, 1]], false);
    let original = sorted_block_pairs(&o);
    for rot in [Rotation::North, Rotation::East, Rotation::South, Rotation::West] {
        let turned = o.clone_with_rotation(rot);
        assert_eq!(sorted_block_pairs(&turned), original);
    }
}

#[test]
fn i_shape_bounding_box_and_center() {
    let i = shape([[0, 2], [1, 2], [2, 2], [3, 2]], true);
    let bb = i.get_bounding_box();
    assert_eq!(bb.width(), 4);
    assert_eq!(bb.height(), 1);
    // the longer side is 4, so the exact center is (1.5, 1.5)
    let c = i.get_center_doubled();
    assert_eq!((c.x, c.y), (3, 3));
    let rc = i.get_rounded_center();
    assert_eq!((rc.x, rc.y), (1, 1));
}

#[test]
fn i_shape_rotation_table() {
    let i = shape([[0, 2], [1, 2], [2, 2], [3, 2]], true);
    let north = i.clone_with_rotation(Rotation::North);
    assert_eq!(block_pairs(&north), vec![(0, 2), (1, 2), (2, 2), (3, 2)]);
    let east = i.clone_with_rotation(Rotation::East);
    assert_eq!(block_pairs(&east), vec![(1, 0), (1, 1), (1, 2), (1, 3)]);
    // the half turn includes the one-cell lowering fixup, putting the bar
    // back on its original row
    let south = i.clone_with_rotation(Rotation::South);
    assert_eq!(block_pairs(&south), vec![(3, 2), (2, 2), (1, 2), (0, 2)]);
    let west = i.clone_with_rotation(Rotation::West);
    assert_eq!(block_pairs(&west), vec![(2, 3), (2, 2), (2, 1), (2, 0)]);
}

#[test]
fn i_shape_south_without_fixup_lands_one_row_higher() {
    let i = shape([[0, 2], [1, 2], [2, 2], [3, 2]], false);
    let south = i.clone_with_rotation(Rotation::South);
    assert_eq!(block_pairs(&south), vec![(3, 1), (2, 1), (1, 1), (0, 1)]);
}

#[test]
fn t_shape_south_applies_fixup() {
    let t = shape([[0, 1], [1, 1], [2, 1], [1, 2]], true);
    let south = t.clone_with_rotation(Rotation::South);
    assert_eq!(block_pairs(&south), vec![(2, 2), (1, 2), (0, 2), (1, 1)]);
}

#[test]
fn rotation_clamps_coordinates_sent_below_zero() {
    // blocks far from the origin rotate to negative coordinates, which the
    // narrowing cast clamps to zero
    let s = shape([[0, 3], [1, 3], [0, 4], [1, 4]], false);
    let east = s.clone_with_rotation(Rotation::East);
    assert_eq!(block_pairs(&east), vec![(0, 0), (0, 1), (0, 0), (0, 1)]);
}

#[test]
fn j_shape_east_rotation() {
    let j = shape([[1, 0], [1, 1], [0, 2], [1, 2]], false);
    let east = j.clone_with_rotation(Rotation::East);
    assert_eq!(block_pairs(&east), vec![(2, 1), (1, 1), (0, 0), (0, 1)]);
}

#[test]
fn four_successive_quarter_turns_close_geometrically() {
    // turning the result by east again, four times over, also comes back
    // to the starting block set: the quarter turn never triggers the
    // half-turn fixup and keeps the enclosing square
    for blocks in [
        [[0, 2], [1, 2], [2, 2], [3, 2]],
        [[0, 0], [1, 0], [0, 1], [1, 1]],
        [[1, 0], [1, 1], [0, 2], [1, 2]],
    ] {
        let start = shape(blocks, true);
        let mut turned = start;
        for _ in 0..4 {
            turned = turned.clone_with_rotation(Rotation::East);
        }
        assert_eq!(block_pairs(&turned), block_pairs(&start));
    }
}

#[test]
fn absolute_blocks_align_rounded_center_with_anchor() {
    let i = shape([[0, 2], [1, 2], [2, 2], [3, 2]], true);
    let abs = i.get_blocks_in_absolute_coordinates(5, 5);
    let pairs: Vec<(u16, u16)> = abs.iter().map(|b| (b.x, b.y)).collect();
    assert_eq!(pairs, vec![(4, 6), (5, 6), (6, 6), (7, 6)]);
}

#[test]
fn catalog_holds_the_seven_templates() {
    let shapes = standard_shapes();
    assert_eq!(shapes.len(), 7);
    assert_eq!(block_pairs(&shapes[0]), vec![(0, 2), (1, 2), (2, 2), (3, 2)]);
    assert_eq!(shapes[0].render_as, Pixel::Color(CellColor::Cyan));
    assert_eq!(block_pairs(&shapes[3]), vec![(0, 0), (1, 0), (0, 1), (1, 1)]);
    assert_eq!(shapes[3].render_as, Pixel::Color(CellColor::Yellow));
    let lowered: Vec<bool> = shapes
        .iter()
        .map(|s| s.should_shape_be_lowered_on_180_rotation)
        .collect();
    assert_eq!(lowered, vec![true, false, false, false, true, true, true]);
}
