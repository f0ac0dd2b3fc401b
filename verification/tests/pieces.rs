use tetromino_term::catalog::standard_shapes;
use tetromino_term::framebuffer::Framebuffer;
use tetromino_term::piece::{LeftoverBlock, Tetriminos};
use tetromino_term::pixel::{CellColor, Pixel};
use tetromino_term::rotation::Rotation;
use tetromino_term::vecs::Vec2;

fn block_pairs(s: &tetromino_term::shape::TetrisShape) -> Vec<(u16, u16)> {
    s.blocks.iter().map(|b| (b.x, b.y)).collect()
}

#[test]
fn new_piece_starts_unrotated() {
    let shapes = standard_shapes();
    let p = Tetriminos::new(Vec2 { x: 4, y: 4 }, shapes[0]);
    assert_eq!(p.rotation, Rotation::North);
    assert_eq!(block_pairs(&p.shape), block_pairs(&p.template));
    assert_eq!((p.pos.x, p.pos.y), (4, 4));
}

#[test]
fn set_rotation_recomputes_from_template() {
    let shapes = standard_shapes();
    let mut p = Tetriminos::new(Vec2 { x: 4, y: 4 }, shapes[0]);
    p.set_rotation(Rotation::East);
    assert_eq!(p.rotation, Rotation::East);
    let expected = shapes[0].clone_with_rotation(Rotation::East);
    assert_eq!(block_pairs(&p.shape), block_pairs(&expected));
    // a second explicit half turn is still derived from the template, not
    // from the already turned shape
    p.set_rotation(Rotation::South);
    let expected = shapes[0].clone_with_rotation(Rotation::South);
    assert_eq!(block_pairs(&p.shape), block_pairs(&expected));
}

#[test]
fn four_cw_rotations_restore_every_catalog_shape() {
    for template in standard_shapes() {
        let original = block_pairs(&template);
        let mut p = Tetriminos::new(Vec2 { x: 8, y: 8 }, template);
        for _ in 0..4 {
            p.rotateCW();
        }
        assert_eq!(p.rotation, Rotation::North);
        assert_eq!(block_pairs(&p.shape), original);
    }
}

#[test]
fn four_ccw_rotations_restore_every_catalog_shape() {
    for template in standard_shapes() {
        let original = block_pairs(&template);
        let mut p = Tetriminos::new(Vec2 { x: 8, y: 8 }, template);
        for _ in 0..4 {
            p.rotateCCW();
        }
        assert_eq!(p.rotation, Rotation::North);
        assert_eq!(block_pairs(&p.shape), original);
    }
}

#[test]
fn piece_draws_its_rotated_shape() {
    let shapes = standard_shapes();
    let mut fb = Framebuffer::new(32, 12);
    let mut p = Tetriminos::new(Vec2 { x: 5, y: 5 }, shapes[0]);
    p.rotateCW();
    p.draw_to_framebuffer(&mut fb);
    // the east-turned bar occupies column 5 (anchor 5, block x 1, rounded
    // center 1), rows 4 to 7
    for (x, y) in [(5u16, 4u16), (5, 5), (5, 6), (5, 7)] {
        let idx = (y as usize) * (fb.width as usize) + (x as usize);
        assert_eq!(fb.data[idx], Pixel::Color(CellColor::Cyan));
    }
    let background = fb
        .data
        .iter()
        .filter(|p| **p == Pixel::Background)
        .count();
    assert_eq!(background, fb.data.len() - 4);
}

#[test]
fn leftover_block_draws_one_cell() {
    let mut fb = Framebuffer::new(16, 8);
    let block = LeftoverBlock {
        pos: Vec2 { x: 3, y: 2 },
        render_as: Pixel::Color(CellColor::Red),
    };
    block.draw_to_framebuffer(&mut fb);
    let idx = 2 * (fb.width as usize) + 3;
    assert_eq!(fb.data[idx], Pixel::Color(CellColor::Red));
    let colored = fb
        .data
        .iter()
        .filter(|p| **p != Pixel::Background)
        .count();
    assert_eq!(colored, 1);
}
