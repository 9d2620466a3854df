//! The mesh assembler: extrude the matrix, move the tile sheet into the
//! frame's opening, append the frame, and — at the top level — feed the
//! external QR encoder's matrix through the whole pipeline.

use crate::extrude::cell_floor;
use crate::extrude::cell_tris;
use crate::extrude::dims_bounded;
use crate::extrude::matrix_to_triangles;
use crate::extrude::row_tris;
use crate::extrude::sample_spec;
use crate::extrude::tile_rows;
use crate::extrude::tile_tris;
use crate::extrude::tri_in_sheet;
use crate::frame::base_top;
use crate::frame::base_width;
use crate::frame::emit_frame;
use crate::frame::frame_spec;
use crate::frame::lemma_frame_len;
use crate::geom::Coord;
use crate::geom::Triangle;
use crate::geom::Vec3;
use crate::qr::qr_encode;
use crate::qr::qr_encoding;
use vstd::prelude::*;

verus! {

/// The uniform offset the assembler applies to the tile sheet: one base
/// margin along x and y and one base height up, so the relief sits exactly
/// in the frame's opening.
pub open spec fn tile_offset() -> Vec3 {
    Vec3 { x: base_width(), y: base_width(), z: base_top() }
}

/// Every triangle of the sequence moved by `offset`.
pub open spec fn translate_seq(tris: Seq<Triangle>, offset: Vec3) -> Seq<Triangle> {
    tris.map_values(|t: Triangle| t.translate_spec(offset))
}

/// Moves every triangle of the list by `offset`, vertex by vertex; the
/// normals are left untouched.
pub fn offset_tris(tris: &mut Vec<Triangle>, offset: Vec3)
    requires
        forall|i: int|
            0 <= i < old(tris)@.len() ==> (#[trigger] old(tris)@[i]).can_translate(offset),
    ensures
        final(tris)@ == translate_seq(old(tris)@, offset),
{
    let ghost orig = tris@;
    let n = tris.len();
    let mut i: usize = 0;
    while i < n
        invariant
            n == orig.len(),
            tris@.len() == orig.len(),
            i <= n,
            forall|j: int| 0 <= j < orig.len() ==> (#[trigger] orig[j]).can_translate(offset),
            forall|j: int| 0 <= j < i ==> tris@[j] == (#[trigger] orig[j]).translate_spec(offset),
            forall|j: int| i <= j < n ==> tris@[j] == orig[j],
        decreases n - i,
    {
        let t = tris[i];
        proof {
            assert(t == orig[i as int]);
        }
        tris[i] = t.translate(offset);
        i = i + 1;
    }
    proof {
        assert(tris@ =~= translate_seq(orig, offset));
    }
}

/// Law: translating a triangle twice is translating it once by the vector
/// sum of the two offsets.
pub proof fn lemma_translate_translate(t: Triangle, o1: Vec3, o2: Vec3)
    requires
        t.can_translate(o1),
        t.translate_spec(o1).can_translate(o2),
        o1.can_add(o2),
    ensures
        t.translate_spec(o1).translate_spec(o2) == t.translate_spec(o1.add_spec(o2)),
{
}

/// Law: offsetting the whole output is a pure translation, so offsetting by
/// `o1` and then by `o2` is exactly offsetting by their vector sum.
pub proof fn lemma_offset_compose(tris: Seq<Triangle>, o1: Vec3, o2: Vec3)
    requires
        forall|i: int| 0 <= i < tris.len() ==> (#[trigger] tris[i]).can_translate(o1),
        forall|i: int|
            0 <= i < tris.len() ==> (#[trigger] tris[i]).translate_spec(o1).can_translate(o2),
        o1.can_add(o2),
    ensures
        translate_seq(translate_seq(tris, o1), o2) == translate_seq(tris, o1.add_spec(o2)),
{
    assert forall|i: int| 0 <= i < tris.len() implies translate_seq(translate_seq(tris, o1), o2)[i]
        == translate_seq(tris, o1.add_spec(o2))[i] by {
        lemma_translate_translate(tris[i], o1, o2);
    }
    assert(translate_seq(translate_seq(tris, o1), o2) =~= translate_seq(tris, o1.add_spec(o2)));
}

/// The final mesh of a matrix: the extruded tile sheet moved by the
/// assembler's offset, followed by the frame for the matrix's row count.
pub open spec fn build_spec(m: Seq<Seq<bool>>) -> Seq<Triangle> {
    translate_seq(tile_tris(m), tile_offset()) + frame_spec(m.len() as int)
}

/// Assembles the final mesh: extrudes the matrix, moves the tile sheet one
/// base margin across and one base height up, and appends the frame.
pub fn build(matrix: &Vec<Vec<bool>>) -> (r: Vec<Triangle>)
    requires
        dims_bounded(matrix.deep_view()),
    ensures
        r@ == build_spec(matrix.deep_view()),
        r@.len() >= 18,
{
    let offset = Vec3 {
        x: Coord { q: 0, b: 1, h: 0 },
        y: Coord { q: 0, b: 1, h: 0 },
        z: Coord { q: 0, b: 0, h: 1 },
    };
    let mut tris = matrix_to_triangles(matrix);
    proof {
        assert(offset == tile_offset());
        assert forall|i: int| 0 <= i < tris@.len() implies (#[trigger] tris@[i]).can_translate(
            offset,
        ) by {
            assert(tri_in_sheet(tris@[i]));
        }
    }
    offset_tris(&mut tris, offset);
    emit_frame(&mut tris, matrix.len());
    proof {
        lemma_frame_len(matrix.deep_view().len() as int);
    }
    tris
}

/// The external QR encoding collaborator rejected the payload: it fits no
/// QR version at the configured error-correction level.
#[derive(Clone, Copy, Debug, PartialEq, Eq, Structural)]
pub struct EncodingError;

/// Encodes a byte payload as a QR symbol and assembles the full mesh for
/// it: `Ok` with exactly the built mesh of the encoded matrix whenever the
/// payload encodes, `Err` exactly when it fits no QR version.
pub fn qr_to_triangles(input: &[u8]) -> (r: Result<Vec<Triangle>, EncodingError>)
    ensures
        match qr_encoding(input@) {
            Some(m) => r is Ok && r->Ok_0@ == build_spec(m),
            None => r is Err,
        },
{
    match qr_encode(input) {
        Ok(mat) => {
            proof {
                assert(dims_bounded(mat.deep_view()));
            }
            Ok(build(&mat))
        },
        Err(_) => Err(EncodingError),
    }
}

proof fn lemma_row_all_off_len(m: Seq<Seq<bool>>, y: int, n: int)
    requires
        forall|x: int, yy: int| !sample_spec(m, x, yy),
        0 <= n,
    ensures
        row_tris(m, y, n).len() == 2 * n,
    decreases n,
{
    if n > 0 {
        lemma_row_all_off_len(m, y, n - 1);
        assert(cell_tris(m, n - 1, y) == cell_floor(n - 1, y));
    }
}

proof fn lemma_rows_all_off_len(m: Seq<Seq<bool>>, k: int, cols: int)
    requires
        forall|x: int, yy: int| !sample_spec(m, x, yy),
        0 <= k <= m.len(),
        forall|i: int| 0 <= i < m.len() ==> #[trigger] m[i].len() == cols,
    ensures
        tile_rows(m, k).len() == 2 * k * cols,
    decreases k,
{
    if k > 0 {
        assert(m[k - 1].len() == cols);
        lemma_rows_all_off_len(m, k - 1, cols);
        lemma_row_all_off_len(m, k - 1, cols);
        assert(tile_rows(m, k).len() == tile_rows(m, k - 1).len() + row_tris(
            m,
            k - 1,
            cols,
        ).len());
        assert(2 * (k - 1) * cols + 2 * cols == 2 * k * cols) by (nonlinear_arith);
    } else {
        assert(2 * k * cols == 0) by (nonlinear_arith)
            requires
                k == 0,
        ;
    }
}

/// Law: built on an all-off rows×cols matrix, the mesh is exactly one
/// floor rectangle pair per cell — `2·rows·cols` triangles and no walls —
/// plus the frame's fixed eighteen.
pub proof fn lemma_build_all_off(m: Seq<Seq<bool>>, rows: int, cols: int)
    requires
        m.len() == rows,
        forall|i: int| 0 <= i < m.len() ==> #[trigger] m[i].len() == cols,
        forall|x: int, y: int| !sample_spec(m, x, y),
    ensures
        build_spec(m).len() == 2 * rows * cols + 18,
        forall|x: int, y: int|
            0 <= y < rows && 0 <= x < cols ==> cell_tris(m, x, y) == cell_floor(x, y),
{
    lemma_rows_all_off_len(m, rows, cols);
    lemma_frame_len(rows);
    assert(translate_seq(tile_tris(m), tile_offset()).len() == tile_tris(m).len());
}

} // verus!
