use qr_stl::mat_peek;
use qr_stl::rect;
use qr_stl::Coord;
use qr_stl::Vec3;

fn c(q: i64, b: i64, h: i64) -> Coord {
    Coord { q, b, h }
}

fn v(q_x: i64, q_y: i64, q_z: i64) -> Vec3 {
    Vec3 { x: c(q_x, 0, 0), y: c(q_y, 0, 0), z: c(q_z, 0, 0) }
}

#[test]
fn coord_ops_are_componentwise() {
    let a = c(3, 1, 0);
    let b = c(-1, 2, 5);
    assert_eq!(a.add(b), c(2, 3, 5));
    assert_eq!(a.sub(b), c(4, -1, -5));
    assert_eq!(b.neg(), c(1, -2, -5));
    assert_eq!(b.scale(3), c(-3, 6, 15));
    assert_eq!(Coord::zero(), c(0, 0, 0));
}

#[test]
fn vector_ops_are_componentwise() {
    let a = Vec3 { x: c(1, 0, 0), y: c(2, 1, 0), z: c(0, 0, 1) };
    let b = Vec3 { x: c(4, 0, 0), y: c(-2, 0, 0), z: c(1, 1, 0) };
    let sum = a.add(b);
    assert_eq!(sum.x, c(5, 0, 0));
    assert_eq!(sum.y, c(0, 1, 0));
    assert_eq!(sum.z, c(1, 1, 1));
    let diff = a.sub(b);
    assert_eq!(diff.x, c(-3, 0, 0));
    assert_eq!(diff.y, c(4, 1, 0));
    assert_eq!(diff.z, c(-1, -1, 1));
    let neg = b.neg();
    assert_eq!(neg.x, c(-4, 0, 0));
    let scaled = a.scale(2);
    assert_eq!(scaled.y, c(4, 2, 0));
}

#[test]
fn rect_covers_quad_corners() {
    let p1 = v(0, 0, 0);
    let p2 = v(4, 4, 0);
    let tris = rect(p1, p2);
    assert_eq!(tris.len(), 2);
    assert_eq!(tris[0].v0, p2);
    assert_eq!(tris[0].v1, p1);
    assert_eq!(tris[0].v2, v(4, 0, 0));
    assert_eq!(tris[1].v0, p1);
    assert_eq!(tris[1].v1, p2);
    assert_eq!(tris[1].v2, v(0, 4, 0));
    let zero = Vec3 { x: c(0, 0, 0), y: c(0, 0, 0), z: c(0, 0, 0) };
    assert_eq!(tris[0].normal, zero);
    assert_eq!(tris[1].normal, zero);
}

#[test]
fn rect_argument_order_flips_winding() {
    let p1 = v(0, 0, 0);
    let p2 = v(0, 4, 1);
    let forward = rect(p1, p2);
    let reversed = rect(p2, p1);
    assert_eq!(forward[0].v0, p2);
    assert_eq!(forward[0].v1, p1);
    assert_eq!(reversed[0].v0, p1);
    assert_eq!(reversed[0].v1, p2);
    assert_eq!(forward[0].v2, v(0, 0, 1));
    assert_eq!(reversed[0].v2, v(0, 0, 1));
}

#[test]
fn triangle_scale_leaves_normal() {
    let tris = rect(v(0, 0, 0), v(1, 2, 3));
    let t = tris[0];
    let scaled = t.scale(4);
    assert_eq!(scaled.normal, t.normal);
    assert_eq!(scaled.v0, v(4, 8, 12));
    assert_eq!(scaled.v1, v(0, 0, 0));
    assert_eq!(scaled.v2, v(4, 0, 12));
}

#[test]
fn sample_out_of_bounds_is_false() {
    let m = vec![vec![true]];
    assert!(mat_peek(&m, 0, 0));
    assert!(!mat_peek(&m, -1, 0));
    assert!(!mat_peek(&m, 0, -1));
    assert!(!mat_peek(&m, -3, -3));
    assert!(!mat_peek(&m, 1, 0));
    assert!(!mat_peek(&m, 0, 1));
    assert!(!mat_peek(&m, 5, 5));
}

#[test]
fn sample_respects_ragged_rows() {
    let m = vec![vec![true], vec![true, false]];
    assert!(mat_peek(&m, 0, 0));
    assert!(!mat_peek(&m, 1, 0));
    assert!(mat_peek(&m, 0, 1));
    assert!(!mat_peek(&m, 1, 1));
    assert!(!mat_peek(&m, 2, 1));
}
