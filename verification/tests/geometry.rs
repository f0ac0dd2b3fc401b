use tetromino_term::rotation::{Mat2, Rotation};
use tetromino_term::rounding::round_frac;
use tetromino_term::vecs::{BoundingBox, Vec2};

#[test]
fn vec2_from_array() {
    let v = Vec2::<u16>::from([3, 7]);
    assert_eq!(v.x, 3);
    assert_eq!(v.y, 7);
}

#[test]
fn vec2_map_applies_to_both_components() {
    let v = Vec2::<u16> { x: 2, y: 5 };
    let doubled = v.map(|c: u16| c * 2);
    assert_eq!(doubled.x, 4);
    assert_eq!(doubled.y, 10);
}

#[test]
fn vec2_to_type_widens() {
    let v = Vec2::<u16> { x: 9, y: 65535 };
    let w: Vec2<u32> = v.to_type();
    assert_eq!(w.x, 9u32);
    assert_eq!(w.y, 65535u32);
}

#[test]
fn vec2_arithmetic() {
    let a = Vec2::<i32> { x: 5, y: -3 };
    let b = Vec2::<i32> { x: 2, y: 4 };
    let s = a.add(b);
    assert_eq!(s, Vec2::<i32> { x: 7, y: 1 });
    let d = a.sub(b);
    assert_eq!(d, Vec2::<i32> { x: 3, y: -7 });
    assert_eq!(a.add_scalar(10), Vec2::<i32> { x: 15, y: 7 });
    assert_eq!(a.sub_scalar(1), Vec2::<i32> { x: 4, y: -4 });
    let mut m = a;
    m.add_assign(b);
    assert_eq!(m, Vec2::<i32> { x: 7, y: 1 });
    m.sub_assign(b);
    assert_eq!(m, a);
    m.add_assign_scalar(3);
    assert_eq!(m, Vec2::<i32> { x: 8, y: 0 });
    m.sub_assign_scalar(3);
    assert_eq!(m, a);
    let u = Vec2::<u16> { x: 10, y: 20 };
    let v = Vec2::<u16> { x: 1, y: 2 };
    assert_eq!(u.add(v), Vec2::<u16> { x: 11, y: 22 });
    assert_eq!(u.sub(v), Vec2::<u16> { x: 9, y: 18 });
}

#[test]
fn bounding_box_dimensions() {
    let b = BoundingBox::<u16>::new(1, 2, 5, 4);
    assert_eq!(b.start, Vec2::<u16> { x: 1, y: 2 });
    assert_eq!(b.end, Vec2::<u16> { x: 5, y: 4 });
    assert_eq!(b.width(), 4);
    assert_eq!(b.height(), 2);
    let d = b.dimensions();
    assert_eq!(d, Vec2::<u16> { x: 4, y: 2 });
}

#[test]
fn rotation_cw_cycle() {
    assert_eq!(Rotation::North.rotateCW(), Rotation::East);
    assert_eq!(Rotation::East.rotateCW(), Rotation::South);
    assert_eq!(Rotation::South.rotateCW(), Rotation::West);
    assert_eq!(Rotation::West.rotateCW(), Rotation::North);
    let mut r = Rotation::East;
    for _ in 0..4 {
        r = r.rotateCW();
    }
    assert_eq!(r, Rotation::East);
}

#[test]
fn rotation_ccw_cycle() {
    assert_eq!(Rotation::North.rotateCCW(), Rotation::West);
    assert_eq!(Rotation::West.rotateCCW(), Rotation::South);
    assert_eq!(Rotation::South.rotateCCW(), Rotation::East);
    assert_eq!(Rotation::East.rotateCCW(), Rotation::North);
    assert_eq!(Rotation::South.rotateCW().rotateCCW(), Rotation::South);
}

#[test]
fn rotation_matrices() {
    assert_eq!(Rotation::North.get_mat2().0, [1, 0, 0, 1]);
    assert_eq!(Rotation::East.get_mat2().0, [0, 1, -1, 0]);
    assert_eq!(Rotation::South.get_mat2().0, [-1, 0, 0, -1]);
    assert_eq!(Rotation::West.get_mat2().0, [0, -1, 1, 0]);
}

#[test]
fn mat2_mul_vec_quarter_turn() {
    let east = Rotation::East.get_mat2();
    let v = Vec2::<i32> { x: 3, y: 1 };
    let r = east.mul_vec(v);
    // the quarter turn sends (x, y) to (-y, x)
    assert_eq!(r, Vec2::<i32> { x: -1, y: 3 });
}

#[test]
fn mat2_mul_composes_to_half_turn() {
    let east = Rotation::East.get_mat2();
    let composed = east.mul(Mat2::new([0, 1, -1, 0]));
    assert_eq!(composed.0, Rotation::South.get_mat2().0);
}

#[test]
fn round_frac_half_rounds_down() {
    assert_eq!(round_frac(1, 2), 0);
}

#[test]
fn round_frac_above_half_rounds_up() {
    assert_eq!(round_frac(6, 10), 1);
}

#[test]
fn round_frac_whole_stays() {
    assert_eq!(round_frac(2, 2), 1);
}

#[test]
fn round_frac_negative_half_rounds_to_zero() {
    assert_eq!(round_frac(-1, 2), 0);
}
