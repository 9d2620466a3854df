//! Turns a bitmap of boolean pixels (a QR-code module matrix) into a closed
//! triangle mesh: every "on" pixel becomes a raised tile with edge-detected
//! side walls, and the whole relief sits in a watertight base frame.
//!
//! All geometry is exact: a coordinate is an integer combination
//! `q * (pixel_size / 4) + b * base_size + h * base_height` of the three
//! configured lengths, so the mesh is computed symbolically and only the
//! serialization boundary evaluates it in floating point.

pub mod assemble;
pub mod extrude;
pub mod frame;
pub mod geom;
pub mod qr;
pub mod tess;

pub use assemble::build;
pub use assemble::offset_tris;
pub use assemble::qr_to_triangles;
pub use assemble::EncodingError;
pub use extrude::mat_peek;
pub use extrude::matrix_to_triangles;
pub use geom::Coord;
pub use geom::Triangle;
pub use geom::Vec3;
pub use tess::rect;
