use std::io::Cursor;

use qr_stl::build;
use qr_stl::qr_to_triangles;
use qr_stl::Coord;
use qr_stl::EncodingError;

fn coord_value(c: Coord, pixel_size: f32, base_size: f32, base_height: f32) -> f32 {
    c.q as f32 * (pixel_size / 4.0) + c.b as f32 * base_size + c.h as f32 * base_height
}

#[test]
fn qr_mesh_matches_external_encoder() {
    let matrix =
        qrcode_generator::to_matrix("hello", qrcode_generator::QrCodeEcc::Low).unwrap();
    assert_eq!(matrix.len(), 21);
    let expected = build(&matrix);
    let got = qr_to_triangles(b"hello").unwrap();
    assert_eq!(got, expected);
    // 21x21 cells contribute at least one pair each, plus the frame.
    assert!(got.len() >= 2 * 21 * 21 + 18);
}

#[test]
fn too_long_payload_is_rejected() {
    let payload = vec![b'a'; 4000];
    let r = qr_to_triangles(&payload);
    assert_eq!(r, Err(EncodingError));
}

#[test]
fn stl_round_trip_preserves_positions() {
    let m = vec![vec![true, false], vec![false, true]];
    let tris = build(&m);
    let (pixel_size, base_size, base_height) = (2.5f32, 5.0f32, 3.0f32);
    let stl_tris: Vec<stl_io::Triangle> = tris
        .iter()
        .map(|t| stl_io::Triangle {
            normal: stl_io::Normal::new([0.0, 0.0, 0.0]),
            vertices: [t.v0, t.v1, t.v2].map(|p| {
                stl_io::Vertex::new([
                    coord_value(p.x, pixel_size, base_size, base_height),
                    coord_value(p.y, pixel_size, base_size, base_height),
                    coord_value(p.z, pixel_size, base_size, base_height),
                ])
            }),
        })
        .collect();
    let mut bytes: Vec<u8> = Vec::new();
    stl_io::write_stl(&mut bytes, stl_tris.iter()).unwrap();
    let mesh = stl_io::read_stl(&mut Cursor::new(bytes)).unwrap();
    assert_eq!(mesh.faces.len(), stl_tris.len());
    for (face, orig) in mesh.faces.iter().zip(stl_tris.iter()) {
        for k in 0..3 {
            let read_back = mesh.vertices[face.vertices[k]];
            for axis in 0..3 {
                let delta = read_back[axis] - orig.vertices[k][axis];
                assert!(delta.abs() < 1e-5);
            }
        }
    }
}
