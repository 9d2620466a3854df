//! The rectangle tessellator: any axis-aligned corner pair becomes exactly
//! two triangles with a fixed, deterministic vertex-winding rule. Every flat
//! face of the mesh — floors, tops, walls, frame — goes through `rect`, and
//! the argument order at each call site decides the face's orientation.

use crate::geom::Triangle;
use crate::geom::Vec3;
use vstd::multiset::Multiset;
use vstd::prelude::*;

verus! {

/// The first blended corner: maximal in x and z, minimal in y.
pub open spec fn blend_hi(p1: Vec3, p2: Vec3) -> Vec3 {
    Vec3 { x: p1.x.max_spec(p2.x), y: p1.y.min_spec(p2.y), z: p1.z.max_spec(p2.z) }
}

/// The second blended corner: minimal in x and z, maximal in y.
pub open spec fn blend_lo(p1: Vec3, p2: Vec3) -> Vec3 {
    Vec3 { x: p1.x.min_spec(p2.x), y: p1.y.max_spec(p2.y), z: p1.z.min_spec(p2.z) }
}

/// The two triangles covering the quad spanned by `p1` and `p2`: the first
/// runs `p2, p1, blend_hi`, the second `p1, p2, blend_lo`, both with the
/// unset zero normal, so the pair shares the `p1`–`p2` diagonal.
pub open spec fn rect_spec(p1: Vec3, p2: Vec3) -> Seq<Triangle> {
    seq![
        Triangle { normal: Vec3::zero_spec(), v0: p2, v1: p1, v2: blend_hi(p1, p2) },
        Triangle { normal: Vec3::zero_spec(), v0: p1, v1: p2, v2: blend_lo(p1, p2) },
    ]
}

/// Tessellates the axis-aligned quad with opposite corners `p1` and `p2`.
pub fn rect(p1: Vec3, p2: Vec3) -> (r: Vec<Triangle>)
    ensures
        r@ == rect_spec(p1, p2),
{
    let hi = Vec3 { x: p1.x.max(p2.x), y: p1.y.min(p2.y), z: p1.z.max(p2.z) };
    let lo = Vec3 { x: p1.x.min(p2.x), y: p1.y.max(p2.y), z: p1.z.min(p2.z) };
    let mut r: Vec<Triangle> = Vec::new();
    r.push(Triangle { normal: Vec3::zero(), v0: p2, v1: p1, v2: hi });
    r.push(Triangle { normal: Vec3::zero(), v0: p1, v1: p2, v2: lo });
    proof {
        assert(r@ =~= rect_spec(p1, p2));
    }
    r
}

/// Appends the tessellation of one quad to a triangle list.
pub fn push_rect(tris: &mut Vec<Triangle>, p1: Vec3, p2: Vec3)
    ensures
        final(tris)@ == old(tris)@ + rect_spec(p1, p2),
{
    let hi = Vec3 { x: p1.x.max(p2.x), y: p1.y.min(p2.y), z: p1.z.max(p2.z) };
    let lo = Vec3 { x: p1.x.min(p2.x), y: p1.y.max(p2.y), z: p1.z.min(p2.z) };
    tris.push(Triangle { normal: Vec3::zero(), v0: p2, v1: p1, v2: hi });
    tris.push(Triangle { normal: Vec3::zero(), v0: p1, v1: p2, v2: lo });
    proof {
        assert(tris@ =~= old(tris)@ + rect_spec(p1, p2));
    }
}

/// On each axis, one corner's coordinate is coefficientwise at most the
/// other's, so minima and maxima of the pair are meaningful whatever the
/// three configured lengths are.
pub open spec fn axis_comparable(p1: Vec3, p2: Vec3) -> bool {
    &&& (p1.x.le(p2.x) || p2.x.le(p1.x))
    &&& (p1.y.le(p2.y) || p2.y.le(p1.y))
    &&& (p1.z.le(p2.z) || p2.z.le(p1.z))
}

/// The pair spans a proper flat quad: axiswise comparable, and oriented so
/// that the two blended corners are fresh points, not `p1` or `p2` again.
pub open spec fn proper_quad(p1: Vec3, p2: Vec3) -> bool {
    &&& axis_comparable(p1, p2)
    &&& blend_hi(p1, p2) != p1
    &&& blend_hi(p1, p2) != p2
    &&& blend_lo(p1, p2) != p1
    &&& blend_lo(p1, p2) != p2
}

/// The multiset of the three vertex positions of one triangle.
pub open spec fn tri_vertices(t: Triangle) -> Multiset<Vec3> {
    Multiset::empty().insert(t.v0).insert(t.v1).insert(t.v2)
}

/// The multiset of all vertex positions of a triangle sequence.
pub open spec fn mesh_vertices(tris: Seq<Triangle>) -> Multiset<Vec3>
    decreases tris.len(),
{
    if tris.len() == 0 {
        Multiset::empty()
    } else {
        mesh_vertices(tris.drop_last()).add(tri_vertices(tris.last()))
    }
}

/// Law: the tessellator returns exactly two triangles whose six vertices are
/// exactly the four corners of the axis-aligned quad spanned by `p1` and
/// `p2` — the two given corners appear twice each (they form the diagonal
/// shared by both triangles) and the two blended corners once each; and for
/// a proper quad the four corners are pairwise distinct.
pub proof fn lemma_rect_corners(p1: Vec3, p2: Vec3)
    ensures
        rect_spec(p1, p2).len() == 2,
        mesh_vertices(rect_spec(p1, p2)) == Multiset::empty().insert(p1).insert(p1).insert(
            p2,
        ).insert(p2).insert(blend_hi(p1, p2)).insert(blend_lo(p1, p2)),
        tri_vertices(rect_spec(p1, p2)[0]).contains(p1) && tri_vertices(
            rect_spec(p1, p2)[0],
        ).contains(p2),
        tri_vertices(rect_spec(p1, p2)[1]).contains(p1) && tri_vertices(
            rect_spec(p1, p2)[1],
        ).contains(p2),
        proper_quad(p1, p2) ==> p1 != p2 && blend_hi(p1, p2) != blend_lo(p1, p2),
{
    let r = rect_spec(p1, p2);
    assert(r.drop_last().drop_last() =~= Seq::<Triangle>::empty());
    assert(r.drop_last().last() == r[0]);
    assert(mesh_vertices(Seq::<Triangle>::empty()) == Multiset::<Vec3>::empty());
    assert(mesh_vertices(r.drop_last()) == mesh_vertices(r.drop_last().drop_last()).add(
        tri_vertices(r.drop_last().last()),
    ));
    assert(mesh_vertices(r.drop_last()) =~= tri_vertices(r[0]));
    assert(mesh_vertices(r) =~= tri_vertices(r[0]).add(tri_vertices(r[1])));
    assert(mesh_vertices(r) =~= Multiset::empty().insert(p1).insert(p1).insert(p2).insert(
        p2,
    ).insert(blend_hi(p1, p2)).insert(blend_lo(p1, p2)));
    if proper_quad(p1, p2) {
        assert(p1 != p2) by {
            if p1 == p2 {
                assert(blend_hi(p1, p2) == p1);
            }
        }
        assert(blend_hi(p1, p2) != blend_lo(p1, p2)) by {
            if blend_hi(p1, p2) == blend_lo(p1, p2) {
                assert(p1.x == p2.x && p1.y == p2.y && p1.z == p2.z);
                assert(blend_hi(p1, p2) == p1);
            }
        }
    }
}

} // verus!
