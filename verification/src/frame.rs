//! The frame builder: a bottom plate over the whole footprint, a four-piece
//! picture-frame surround at the base height, and four outer side walls.
//! Together they close the extruded relief into a watertight solid.

use crate::extrude::MAX_EXTENT;
use crate::geom::Coord;
use crate::geom::Triangle;
use crate::geom::Vec3;
use crate::tess::push_rect;
use crate::tess::rect_spec;
use vstd::prelude::*;

verus! {

/// The footprint side of the whole solid for an `n`-row matrix: `n` pixels
/// plus the base margin on both sides.
pub open spec fn frame_total(n: int) -> Coord {
    Coord { q: (4 * n) as i64, b: 2, h: 0 }
}

/// One base margin width.
pub open spec fn base_width() -> Coord {
    Coord { q: 0, b: 1, h: 0 }
}

/// One base height: the plane the surround and the relief sit on.
pub open spec fn base_top() -> Coord {
    Coord { q: 0, b: 0, h: 1 }
}

/// The footprint side less one base margin: the far edge of the surround's
/// inner opening.
pub open spec fn total_less_base(n: int) -> Coord {
    Coord { q: (4 * n) as i64, b: 1, h: 0 }
}

/// The frame's nine rectangles, in emission order: the bottom plate, the
/// four surround pieces at the base-height plane, and the four outer side
/// walls from the bottom edge up to that plane.
pub open spec fn frame_spec(n: int) -> Seq<Triangle> {
    let zz = Coord::zero_spec();
    let t = frame_total(n);
    let bb = base_width();
    let hh = base_top();
    let tb = total_less_base(n);
    rect_spec(Vec3 { x: t, y: t, z: zz }, Vec3 { x: zz, y: zz, z: zz }) + rect_spec(
        Vec3 { x: zz, y: zz, z: hh },
        Vec3 { x: tb, y: bb, z: hh },
    ) + rect_spec(Vec3 { x: zz, y: bb, z: hh }, Vec3 { x: bb, y: t, z: hh }) + rect_spec(
        Vec3 { x: bb, y: tb, z: hh },
        Vec3 { x: tb, y: t, z: hh },
    ) + rect_spec(Vec3 { x: tb, y: zz, z: hh }, Vec3 { x: t, y: t, z: hh }) + rect_spec(
        Vec3 { x: t, y: zz, z: zz },
        Vec3 { x: zz, y: zz, z: hh },
    ) + rect_spec(Vec3 { x: zz, y: zz, z: zz }, Vec3 { x: zz, y: t, z: hh }) + rect_spec(
        Vec3 { x: t, y: t, z: hh },
        Vec3 { x: t, y: zz, z: zz },
    ) + rect_spec(Vec3 { x: zz, y: t, z: hh }, Vec3 { x: t, y: t, z: zz })
}

/// The frame is always exactly nine rectangles, eighteen triangles,
/// whatever the matrix extent.
pub proof fn lemma_frame_len(n: int)
    ensures
        frame_spec(n).len() == 18,
{
}

/// Appends the bounding frame for an `n`-row matrix to a triangle list.
pub fn emit_frame(tris: &mut Vec<Triangle>, n: usize)
    requires
        n <= MAX_EXTENT,
    ensures
        final(tris)@ == old(tris)@ + frame_spec(n as int),
{
    let zz = Coord::zero();
    let t = Coord { q: 4 * (n as i64), b: 2, h: 0 };
    let bb = Coord { q: 0, b: 1, h: 0 };
    let hh = Coord { q: 0, b: 0, h: 1 };
    let tb = Coord { q: 4 * (n as i64), b: 1, h: 0 };
    push_rect(tris, Vec3 { x: t, y: t, z: zz }, Vec3 { x: zz, y: zz, z: zz });
    push_rect(tris, Vec3 { x: zz, y: zz, z: hh }, Vec3 { x: tb, y: bb, z: hh });
    push_rect(tris, Vec3 { x: zz, y: bb, z: hh }, Vec3 { x: bb, y: t, z: hh });
    push_rect(tris, Vec3 { x: bb, y: tb, z: hh }, Vec3 { x: tb, y: t, z: hh });
    push_rect(tris, Vec3 { x: tb, y: zz, z: hh }, Vec3 { x: t, y: t, z: hh });
    push_rect(tris, Vec3 { x: t, y: zz, z: zz }, Vec3 { x: zz, y: zz, z: hh });
    push_rect(tris, Vec3 { x: zz, y: zz, z: zz }, Vec3 { x: zz, y: t, z: hh });
    push_rect(tris, Vec3 { x: t, y: t, z: hh }, Vec3 { x: t, y: zz, z: zz });
    push_rect(tris, Vec3 { x: zz, y: t, z: hh }, Vec3 { x: t, y: t, z: zz });
    proof {
        assert(tris@ =~= old(tris)@ + frame_spec(n as int));
    }
}

} // verus!
