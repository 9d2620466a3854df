//! The matrix sampler and the tile extruder.
//!
//! The sampler reads the boolean matrix with an out-of-bounds default of
//! `false`, which is how everything beyond the bitmap counts as background.
//! The extruder walks every cell: an "on" cell gets a raised top face one
//! quarter pixel up plus a vertical wall towards each neighbor that is off,
//! an "off" cell gets a flush floor face.

use crate::geom::Coord;
use crate::geom::Triangle;
use crate::geom::Vec3;
use crate::tess::blend_hi;
use crate::tess::blend_lo;
use crate::tess::push_rect;
use crate::tess::rect_spec;
use vstd::prelude::*;

verus! {

/// Largest matrix extent the machine integers comfortably index: cell
/// corners in quarter pixels must fit `i64` and cell indices must fit
/// `isize` on every target.
pub const MAX_EXTENT: usize = 0x4000_0000;

/// The boolean at column `x` of row `y`, or `false` anywhere outside the
/// matrix (before row 0, past the last row, or outside the row's own
/// length — rows may vary in length).
pub open spec fn sample_spec(m: Seq<Seq<bool>>, x: int, y: int) -> bool {
    0 <= y < m.len() && 0 <= x < m[y].len() && m[y][x]
}

/// Bounds-checked sampling of the matrix with the `false` default.
pub fn mat_peek(matrix: &Vec<Vec<bool>>, x: isize, y: isize) -> (r: bool)
    ensures
        r == sample_spec(matrix.deep_view(), x as int, y as int),
{
    if x >= 0 && y >= 0 {
        let xu = x as usize;
        let yu = y as usize;
        if yu < matrix.len() && xu < matrix[yu].len() {
            matrix[yu][xu]
        } else {
            false
        }
    } else {
        false
    }
}

/// Law: sampling outside the matrix bounds in any direction yields `false`,
/// for every negative and every oversized index pair.
pub proof fn lemma_sample_out_of_bounds(m: Seq<Seq<bool>>, x: int, y: int)
    requires
        x < 0 || y < 0 || y >= m.len() || (0 <= y < m.len() && x >= m[y].len()),
    ensures
        !sample_spec(m, x, y),
{
}

/// A cell corner: `px`, `py` whole pixels across, `qz` quarter pixels up.
pub open spec fn qpt(px: int, py: int, qz: int) -> Vec3 {
    Vec3::pixel_point_spec(px as i64, py as i64, qz as i64)
}

/// The raised top face of an "on" cell, one quarter pixel (the relief
/// thickness) above the floor plane.
pub open spec fn cell_top(x: int, y: int) -> Seq<Triangle> {
    rect_spec(qpt(x, y, 1), qpt(x + 1, y + 1, 1))
}

/// The flush floor face of an "off" cell.
pub open spec fn cell_floor(x: int, y: int) -> Seq<Triangle> {
    rect_spec(qpt(x, y, 0), qpt(x + 1, y + 1, 0))
}

/// The wall towards the left neighbor, on the cell's west edge.
pub open spec fn wall_left(x: int, y: int) -> Seq<Triangle> {
    rect_spec(qpt(x, y, 0), qpt(x, y + 1, 1))
}

/// The wall towards the lower neighbor, on the cell's south edge; the
/// corner pair is passed inverted to keep the face outward.
pub open spec fn wall_down(x: int, y: int) -> Seq<Triangle> {
    rect_spec(qpt(x, y + 1, 1), qpt(x + 1, y + 1, 0))
}

/// The wall towards the right neighbor, on the cell's east edge; inverted
/// corner pair, as for the lower wall.
pub open spec fn wall_right(x: int, y: int) -> Seq<Triangle> {
    rect_spec(qpt(x + 1, y + 1, 1), qpt(x + 1, y, 0))
}

/// The wall towards the upper neighbor, on the cell's north edge.
pub open spec fn wall_up(x: int, y: int) -> Seq<Triangle> {
    rect_spec(qpt(x + 1, y, 0), qpt(x, y, 1))
}

/// The west wall is present exactly when the cell is on and its left
/// neighbor is off.
pub open spec fn wall_left_if(m: Seq<Seq<bool>>, x: int, y: int) -> Seq<Triangle> {
    if sample_spec(m, x, y) && !sample_spec(m, x - 1, y) {
        wall_left(x, y)
    } else {
        Seq::empty()
    }
}

/// The south wall is present exactly when the cell is on and its lower
/// neighbor is off.
pub open spec fn wall_down_if(m: Seq<Seq<bool>>, x: int, y: int) -> Seq<Triangle> {
    if sample_spec(m, x, y) && !sample_spec(m, x, y + 1) {
        wall_down(x, y)
    } else {
        Seq::empty()
    }
}

/// The east wall is present exactly when the cell is on and its right
/// neighbor is off.
pub open spec fn wall_right_if(m: Seq<Seq<bool>>, x: int, y: int) -> Seq<Triangle> {
    if sample_spec(m, x, y) && !sample_spec(m, x + 1, y) {
        wall_right(x, y)
    } else {
        Seq::empty()
    }
}

/// The north wall is present exactly when the cell is on and its upper
/// neighbor is off.
pub open spec fn wall_up_if(m: Seq<Seq<bool>>, x: int, y: int) -> Seq<Triangle> {
    if sample_spec(m, x, y) && !sample_spec(m, x, y - 1) {
        wall_up(x, y)
    } else {
        Seq::empty()
    }
}

/// Everything one cell contributes: top face plus the west, south, east and
/// north walls in that order when the cell is on, or just the floor face
/// when it is off.
pub open spec fn cell_tris(m: Seq<Seq<bool>>, x: int, y: int) -> Seq<Triangle> {
    if sample_spec(m, x, y) {
        cell_top(x, y) + wall_left_if(m, x, y) + wall_down_if(m, x, y) + wall_right_if(m, x, y)
            + wall_up_if(m, x, y)
    } else {
        cell_floor(x, y)
    }
}

/// The contributions of the first `n` cells of row `y`, in cell order.
pub open spec fn row_tris(m: Seq<Seq<bool>>, y: int, n: int) -> Seq<Triangle>
    decreases n,
{
    if n <= 0 {
        Seq::empty()
    } else {
        row_tris(m, y, n - 1) + cell_tris(m, n - 1, y)
    }
}

/// The contributions of the first `k` whole rows, in row order.
pub open spec fn tile_rows(m: Seq<Seq<bool>>, k: int) -> Seq<Triangle>
    decreases k,
{
    if k <= 0 {
        Seq::empty()
    } else {
        tile_rows(m, k - 1) + row_tris(m, k - 1, m[k - 1].len() as int)
    }
}

/// The full tile sheet of the matrix: every cell's faces and walls, row by
/// row, cell by cell.
pub open spec fn tile_tris(m: Seq<Seq<bool>>) -> Seq<Triangle> {
    tile_rows(m, m.len() as int)
}

/// Every matrix dimension stays within `MAX_EXTENT`.
pub open spec fn dims_bounded(m: Seq<Seq<bool>>) -> bool {
    m.len() <= MAX_EXTENT && forall|i: int|
        0 <= i < m.len() ==> #[trigger] m[i].len() <= MAX_EXTENT
}

/// Law: a wall stands between two adjacent cells exactly when the pair is
/// (on, off) seen from the emitting cell — never for (on, on) and never for
/// (off, off), in any of the four directions.
pub proof fn lemma_wall_iff_transition(m: Seq<Seq<bool>>, x: int, y: int)
    ensures
        wall_left_if(m, x, y) != Seq::<Triangle>::empty() <==> sample_spec(m, x, y)
            && !sample_spec(m, x - 1, y),
        wall_down_if(m, x, y) != Seq::<Triangle>::empty() <==> sample_spec(m, x, y)
            && !sample_spec(m, x, y + 1),
        wall_right_if(m, x, y) != Seq::<Triangle>::empty() <==> sample_spec(m, x, y)
            && !sample_spec(m, x + 1, y),
        wall_up_if(m, x, y) != Seq::<Triangle>::empty() <==> sample_spec(m, x, y)
            && !sample_spec(m, x, y - 1),
        sample_spec(m, x, y) == sample_spec(m, x - 1, y) ==> wall_left_if(m, x, y)
            == Seq::<Triangle>::empty(),
        sample_spec(m, x, y) == sample_spec(m, x, y + 1) ==> wall_down_if(m, x, y)
            == Seq::<Triangle>::empty(),
        sample_spec(m, x, y) == sample_spec(m, x + 1, y) ==> wall_right_if(m, x, y)
            == Seq::<Triangle>::empty(),
        sample_spec(m, x, y) == sample_spec(m, x, y - 1) ==> wall_up_if(m, x, y)
            == Seq::<Triangle>::empty(),
{
    assert(wall_left(x, y).len() == 2);
    assert(wall_down(x, y).len() == 2);
    assert(wall_right(x, y).len() == 2);
    assert(wall_up(x, y).len() == 2);
}

/// The coordinate lies inside the tile sheet's range: a non-negative number
/// of quarter pixels no larger than the sheet allows, with no base margin
/// and no base height mixed in.
pub open spec fn coord_in_sheet(c: Coord) -> bool {
    0 <= c.q <= 0x1_0000_0004 && c.b == 0 && c.h == 0
}

pub open spec fn vec3_in_sheet(v: Vec3) -> bool {
    coord_in_sheet(v.x) && coord_in_sheet(v.y) && coord_in_sheet(v.z)
}

/// All three vertices of the triangle lie inside the tile sheet's range.
pub open spec fn tri_in_sheet(t: Triangle) -> bool {
    vec3_in_sheet(t.v0) && vec3_in_sheet(t.v1) && vec3_in_sheet(t.v2)
}

proof fn lemma_rect_in_sheet(p1: Vec3, p2: Vec3)
    requires
        vec3_in_sheet(p1),
        vec3_in_sheet(p2),
    ensures
        forall|i: int| 0 <= i < rect_spec(p1, p2).len() ==> tri_in_sheet(#[trigger] rect_spec(p1, p2)[i]),
{
    assert(vec3_in_sheet(blend_hi(p1, p2)));
    assert(vec3_in_sheet(blend_lo(p1, p2)));
    assert(tri_in_sheet(rect_spec(p1, p2)[0]));
    assert(tri_in_sheet(rect_spec(p1, p2)[1]));
}

proof fn lemma_cell_in_sheet(m: Seq<Seq<bool>>, x: int, y: int)
    requires
        0 <= x,
        x + 1 <= MAX_EXTENT,
        0 <= y,
        y + 1 <= MAX_EXTENT,
    ensures
        forall|i: int| 0 <= i < cell_tris(m, x, y).len() ==> tri_in_sheet(#[trigger] cell_tris(m, x, y)[i]),
{
    assert(vec3_in_sheet(qpt(x, y, 0)));
    assert(vec3_in_sheet(qpt(x, y, 1)));
    assert(vec3_in_sheet(qpt(x + 1, y, 0)));
    assert(vec3_in_sheet(qpt(x + 1, y, 1)));
    assert(vec3_in_sheet(qpt(x, y + 1, 0)));
    assert(vec3_in_sheet(qpt(x, y + 1, 1)));
    assert(vec3_in_sheet(qpt(x + 1, y + 1, 0)));
    assert(vec3_in_sheet(qpt(x + 1, y + 1, 1)));
    lemma_rect_in_sheet(qpt(x, y, 1), qpt(x + 1, y + 1, 1));
    lemma_rect_in_sheet(qpt(x, y, 0), qpt(x + 1, y + 1, 0));
    lemma_rect_in_sheet(qpt(x, y, 0), qpt(x, y + 1, 1));
    lemma_rect_in_sheet(qpt(x, y + 1, 1), qpt(x + 1, y + 1, 0));
    lemma_rect_in_sheet(qpt(x + 1, y + 1, 1), qpt(x + 1, y, 0));
    lemma_rect_in_sheet(qpt(x + 1, y, 0), qpt(x, y, 1));
}

/// Extrudes the whole matrix into its tile sheet: per cell, a raised top
/// with edge-detected walls when the cell is on, or a flush floor when it
/// is off. The result is exactly the tile sheet model, and every vertex
/// stays inside the sheet's coordinate range.
pub fn matrix_to_triangles(matrix: &Vec<Vec<bool>>) -> (r: Vec<Triangle>)
    requires
        dims_bounded(matrix.deep_view()),
    ensures
        r@ == tile_tris(matrix.deep_view()),
        forall|i: int| 0 <= i < r@.len() ==> tri_in_sheet(#[trigger] r@[i]),
{
    let ghost m = matrix.deep_view();
    let mut tris: Vec<Triangle> = Vec::new();
    let rows = matrix.len();
    let mut y: usize = 0;
    while y < rows
        invariant
            matrix.deep_view() == m,
            dims_bounded(m),
            rows == m.len(),
            y <= rows,
            tris@ == tile_rows(m, y as int),
            forall|i: int| 0 <= i < tris@.len() ==> tri_in_sheet(#[trigger] tris@[i]),
        decreases rows - y,
    {
        let cols = matrix[y].len();
        assert(cols == m[y as int].len());
        let mut x: usize = 0;
        while x < cols
            invariant
                matrix.deep_view() == m,
                dims_bounded(m),
                rows == m.len(),
                y < rows,
                cols == m[y as int].len(),
                cols <= MAX_EXTENT,
                x <= cols,
                tris@ == tile_rows(m, y as int) + row_tris(m, y as int, x as int),
                forall|i: int| 0 <= i < tris@.len() ==> tri_in_sheet(#[trigger] tris@[i]),
            decreases cols - x,
        {
            let ghost pre = tris@;
            let val = matrix[y][x];
            assert(val == sample_spec(m, x as int, y as int));
            let xi = x as i64;
            let yi = y as i64;
            if val {
                push_rect(&mut tris, Vec3::pixel_point(xi, yi, 1), Vec3::pixel_point(xi + 1, yi + 1, 1));
                if !mat_peek(matrix, x as isize - 1, y as isize) {
                    push_rect(&mut tris, Vec3::pixel_point(xi, yi, 0), Vec3::pixel_point(xi, yi + 1, 1));
                }
                if !mat_peek(matrix, x as isize, y as isize + 1) {
                    push_rect(
                        &mut tris,
                        Vec3::pixel_point(xi, yi + 1, 1),
                        Vec3::pixel_point(xi + 1, yi + 1, 0),
                    );
                }
                if !mat_peek(matrix, x as isize + 1, y as isize) {
                    push_rect(
                        &mut tris,
                        Vec3::pixel_point(xi + 1, yi + 1, 1),
                        Vec3::pixel_point(xi + 1, yi, 0),
                    );
                }
                if !mat_peek(matrix, x as isize, y as isize - 1) {
                    push_rect(&mut tris, Vec3::pixel_point(xi + 1, yi, 0), Vec3::pixel_point(xi, yi, 1));
                }
            } else {
                push_rect(&mut tris, Vec3::pixel_point(xi, yi, 0), Vec3::pixel_point(xi + 1, yi + 1, 0));
            }
            proof {
                assert(tris@ =~= pre + cell_tris(m, x as int, y as int));
                assert(tris@ =~= tile_rows(m, y as int) + row_tris(m, y as int, x as int + 1));
                lemma_cell_in_sheet(m, x as int, y as int);
                assert forall|i: int| 0 <= i < tris@.len() implies tri_in_sheet(#[trigger] tris@[i]) by {
                    if i < pre.len() {
                        assert(tris@[i] == pre[i]);
                    } else {
                        assert(tris@[i] == cell_tris(m, x as int, y as int)[i - pre.len()]);
                    }
                }
            }
            x = x + 1;
        }
        proof {
            assert(tris@ =~= tile_rows(m, y as int + 1));
        }
        y = y + 1;
    }
    proof {
        assert(tris@ =~= tile_tris(m));
    }
    tris
}

} // verus!
