use qr_stl::build;
use qr_stl::matrix_to_triangles;
use qr_stl::offset_tris;
use qr_stl::Coord;
use qr_stl::Vec3;

fn c(q: i64, b: i64, h: i64) -> Coord {
    Coord { q, b, h }
}

#[test]
fn single_on_pixel_mesh() {
    // One on-cell: a raised top pair, four wall pairs (all neighbors are
    // out of bounds), no floor pair, plus the frame's nine pairs.
    let m = vec![vec![true]];
    let tris = build(&m);
    assert_eq!(tris.len(), 28);
    // The first pair is the top face, one quarter pixel up, moved by one
    // base margin across and one base height up.
    assert_eq!(tris[0].v0, Vec3 { x: c(4, 1, 0), y: c(4, 1, 0), z: c(1, 0, 1) });
    assert_eq!(tris[0].v1, Vec3 { x: c(0, 1, 0), y: c(0, 1, 0), z: c(1, 0, 1) });
    assert_eq!(tris[0].v2, Vec3 { x: c(4, 1, 0), y: c(0, 1, 0), z: c(1, 0, 1) });
    // Every tile triangle (the top pair plus four wall pairs: the first
    // ten) carries the assembler's offset in b and h.
    for t in tris.iter().take(10) {
        for vtx in [t.v0, t.v1, t.v2] {
            assert_eq!(vtx.x.b, 1);
            assert_eq!(vtx.y.b, 1);
            assert_eq!(vtx.z.h, 1);
        }
    }
}

#[test]
fn all_off_matrix_is_floors_plus_frame() {
    // 2 rows x 3 columns, all off: one floor pair per cell and the frame.
    let m = vec![vec![false; 3]; 2];
    let tris = build(&m);
    assert_eq!(tris.len(), 2 * 6 + 18);
    // The tile part is the first 12 triangles, all flush on the base top.
    for t in tris.iter().take(12) {
        for vtx in [t.v0, t.v1, t.v2] {
            assert_eq!(vtx.z, c(0, 0, 1));
        }
    }
}

#[test]
fn empty_matrix_yields_frame_only() {
    let m: Vec<Vec<bool>> = vec![];
    let tris = build(&m);
    assert_eq!(tris.len(), 18);
}

#[test]
fn walls_only_on_transitions() {
    // (on, off): the on-cell emits a top and all four walls, the off-cell
    // only its floor.
    let m = vec![vec![true, false]];
    assert_eq!(matrix_to_triangles(&m).len(), 10 + 2);
    // (on, on): no wall on the shared edge, three walls each.
    let m2 = vec![vec![true, true]];
    assert_eq!(matrix_to_triangles(&m2).len(), 8 + 8);
    // (off, off): no walls at all.
    let m3 = vec![vec![false, false]];
    assert_eq!(matrix_to_triangles(&m3).len(), 2 + 2);
}

#[test]
fn offsetting_translates_every_vertex() {
    let m = vec![vec![true, false]];
    let before = matrix_to_triangles(&m);
    let mut after = before.clone();
    let offset = Vec3 { x: c(2, 1, 0), y: c(0, 3, 0), z: c(-1, 0, 2) };
    offset_tris(&mut after, offset);
    assert_eq!(before.len(), after.len());
    for (t0, t1) in before.iter().zip(after.iter()) {
        assert_eq!(t1.v0, t0.v0.add(offset));
        assert_eq!(t1.v1, t0.v1.add(offset));
        assert_eq!(t1.v2, t0.v2.add(offset));
        assert_eq!(t1.normal, t0.normal);
    }
}
