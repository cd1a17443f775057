use mesh_dedup::mesh_reader::{DecodeError, RobloxMesh};

fn push_f32(b: &mut Vec<u8>, v: f32) {
    b.extend_from_slice(&v.to_le_bytes());
}

fn header(b: &mut Vec<u8>, num_verts: i32, num_faces: i32, num_lods: u16, num_bones: u16) {
    b.extend_from_slice(b"version 4.00\n");
    b.extend_from_slice(&24i16.to_le_bytes());
    b.extend_from_slice(&1u16.to_le_bytes());
    b.extend_from_slice(&num_verts.to_le_bytes());
    b.extend_from_slice(&num_faces.to_le_bytes());
    b.extend_from_slice(&num_lods.to_le_bytes());
    b.extend_from_slice(&num_bones.to_le_bytes());
    b.extend_from_slice(&0i32.to_le_bytes());
    b.extend_from_slice(&0u16.to_le_bytes());
    b.extend_from_slice(&0u16.to_le_bytes());
}

fn mesh_bytes(verts: &[[f32; 3]], faces: &[[i32; 3]], lods: &[i32], num_bones: u16) -> Vec<u8> {
    let mut b = Vec::new();
    header(&mut b, verts.len() as i32, faces.len() as i32, lods.len() as u16, num_bones);
    for v in verts {
        push_f32(&mut b, v[0]);
        push_f32(&mut b, v[1]);
        push_f32(&mut b, v[2]);
        // normal
        push_f32(&mut b, 0.0);
        push_f32(&mut b, 1.0);
        push_f32(&mut b, 0.0);
        // uv
        push_f32(&mut b, 0.25);
        push_f32(&mut b, 0.75);
        push_f32(&mut b, 0.0);
        // color
        b.extend_from_slice(&(-1i32).to_le_bytes());
    }
    if num_bones > 0 {
        for i in 0..verts.len() {
            b.extend_from_slice(&[i as u8, 1, 2, 3, 10, 20, 30, 40]);
        }
    }
    for f in faces {
        b.extend_from_slice(&f[0].to_le_bytes());
        b.extend_from_slice(&f[1].to_le_bytes());
        b.extend_from_slice(&f[2].to_le_bytes());
    }
    for l in lods {
        b.extend_from_slice(&l.to_le_bytes());
    }
    b
}

#[test]
fn decode_simple_mesh_fields() {
    let verts = [[2.5f32, -0.5, 0.0]];
    let faces = [[0i32, 0, 0]];
    let b = mesh_bytes(&verts, &faces, &[], 0);
    let m = RobloxMesh::from_cursor(&b).expect("decode");
    assert_eq!(m.header.num_meshes, 1);
    assert_eq!(m.header.num_verts, 1);
    assert_eq!(m.header.num_faces, 1);
    assert_eq!(m.header.num_lods, 0);
    assert_eq!(m.header.num_bones, 0);
    assert_eq!(m.vertices.len(), 1);
    assert_eq!(m.vertices[0].position.x, 2.5f32.to_bits());
    assert_eq!(m.vertices[0].position.y, (-0.5f32).to_bits());
    assert_eq!(m.vertices[0].position.z, 0.0f32.to_bits());
    assert_eq!(m.vertices[0].normal.y, 1.0f32.to_bits());
    assert_eq!(m.vertices[0].uv.x, 0.25f32.to_bits());
    assert_eq!(m.vertices[0].color, -1);
    assert_eq!(m.faces.len(), 1);
    assert_eq!(m.faces[0], [0, 0, 0]);
    assert_eq!(m.lods.len(), 0);
    assert_eq!(m.triangles, 0);
    // bounding box of a single vertex is that vertex
    assert_eq!(m.bounding_box_size.min.x, 2.5f32.to_bits());
    assert_eq!(m.bounding_box_size.max.x, 2.5f32.to_bits());
    // hash = 0 + (|2.5 - 0.5 + 0| + 2.0) as i32 = 4
    assert_eq!(m.hash, 4);
}

#[test]
fn decode_triangle_count_from_lods() {
    let verts = [[-1.0f32, -1.0, -1.0], [1.0, 1.0, 1.0]];
    let b = mesh_bytes(&verts, &[], &[0, 10, 14], 0);
    let m = RobloxMesh::from_cursor(&b).expect("decode");
    assert_eq!(m.triangles, 10);
    // hash = 10 + (|-3.0| + 3.0) as i32 = 16
    assert_eq!(m.hash, 16);
}

#[test]
fn decode_bone_weights_trailing_block() {
    let verts = [[0.0f32, 0.0, 0.0], [1.0, 2.0, 3.0]];
    let b = mesh_bytes(&verts, &[[0, 1, 0]], &[], 2);
    let m = RobloxMesh::from_cursor(&b).expect("decode");
    assert_eq!(m.vertices[0].weights.bones, [0, 1, 2, 3]);
    assert_eq!(m.vertices[0].weights.weights, [10, 20, 30, 40]);
    assert_eq!(m.vertices[1].weights.bones, [1, 1, 2, 3]);
}

#[test]
fn decode_no_bones_zeroed_weights() {
    let verts = [[0.0f32, 0.0, 0.0]];
    let b = mesh_bytes(&verts, &[], &[], 0);
    let m = RobloxMesh::from_cursor(&b).expect("decode");
    assert_eq!(m.vertices[0].weights.bones, [0, 0, 0, 0]);
    assert_eq!(m.vertices[0].weights.weights, [0, 0, 0, 0]);
}

#[test]
fn wrong_version_banner_is_bad_format() {
    let verts = [[0.0f32, 0.0, 0.0]];
    let mut b = mesh_bytes(&verts, &[], &[], 0);
    // overwrite "4.00" with "3.00"
    b[8] = b'3';
    assert_eq!(RobloxMesh::from_cursor(&b), Err(DecodeError::BadFormat));
}

#[test]
fn wrong_header_size_is_bad_format() {
    let verts = [[0.0f32, 0.0, 0.0]];
    let mut b = mesh_bytes(&verts, &[], &[], 0);
    b[13] = 23;
    assert_eq!(RobloxMesh::from_cursor(&b), Err(DecodeError::BadFormat));
}

#[test]
fn short_buffer_is_truncated() {
    let verts = [[0.0f32, 0.0, 0.0], [1.0, 1.0, 1.0]];
    let b = mesh_bytes(&verts, &[[0, 1, 0]], &[0, 1], 0);
    for cut in [5, 14, 30, b.len() - 1] {
        assert_eq!(
            RobloxMesh::from_cursor(&b[..cut]),
            Err(DecodeError::Truncated),
            "cut at {cut}"
        );
    }
}

#[test]
fn zero_vertices_is_empty() {
    let b = mesh_bytes(&[], &[[0, 0, 0]], &[0], 0);
    assert_eq!(RobloxMesh::from_cursor(&b), Err(DecodeError::Empty));
}

#[test]
fn negative_vertex_count_is_empty() {
    let mut b = Vec::new();
    header(&mut b, -5, 0, 0, 0);
    assert_eq!(RobloxMesh::from_cursor(&b), Err(DecodeError::Empty));
}

#[test]
fn trailing_bytes_are_ignored() {
    let verts = [[1.0f32, 2.0, 3.0]];
    let mut b = mesh_bytes(&verts, &[], &[], 0);
    let m1 = RobloxMesh::from_cursor(&b).expect("decode");
    b.extend_from_slice(&[0xde, 0xad, 0xbe, 0xef]);
    let m2 = RobloxMesh::from_cursor(&b).expect("decode");
    assert_eq!(m1, m2);
}

#[test]
fn redecoding_same_bytes_gives_same_key() {
    let verts = [[-2.0f32, 0.5, 8.0], [3.0, -1.5, 0.25], [0.0, 0.0, 0.0], [1.0, 1.0, 1.0]];
    let b = mesh_bytes(&verts, &[[0, 1, 2]], &[2, 9], 0);
    let m1 = RobloxMesh::from_cursor(&b).expect("decode");
    let m2 = RobloxMesh::from_cursor(&b).expect("decode");
    assert_eq!(m1.hash, m2.hash);
    assert_eq!(m1, m2);
}

#[test]
fn same_geometry_same_key_across_buffers() {
    // Same triangle count and bounding box, different vertex order and
    // different face data: the fingerprint matches.
    let va = [[-1.0f32, -1.0, -1.0], [1.0, 1.0, 1.0]];
    let vb = [[1.0f32, 1.0, 1.0], [-1.0, -1.0, -1.0]];
    let ba = mesh_bytes(&va, &[[0, 1, 0]], &[0, 10], 0);
    let bb = mesh_bytes(&vb, &[], &[5, 15], 0);
    let ma = RobloxMesh::from_cursor(&ba).expect("decode");
    let mb = RobloxMesh::from_cursor(&bb).expect("decode");
    assert_eq!(ma.triangles, mb.triangles);
    assert_eq!(ma.bounding_box_size, mb.bounding_box_size);
    assert_eq!(ma.hash, mb.hash);
}

#[test]
fn bounding_box_matches_f32_comparison() {
    let verts = [
        [3.5f32, -2.0, 0.0],
        [-7.25, 4.0, 1.5],
        [0.0, 0.0, -9.0],
        [2.0, 2.0, 2.0],
        [-0.0, 8.5, 3.25],
    ];
    let b = mesh_bytes(&verts, &[], &[], 0);
    let m = RobloxMesh::from_cursor(&b).expect("decode");
    let (mut mnx, mut mny, mut mnz) = (verts[0][0], verts[0][1], verts[0][2]);
    let (mut mxx, mut mxy, mut mxz) = (verts[0][0], verts[0][1], verts[0][2]);
    for v in &verts {
        if v[0] < mnx {
            mnx = v[0];
        }
        if v[1] < mny {
            mny = v[1];
        }
        if v[2] < mnz {
            mnz = v[2];
        }
        if v[0] > mxx {
            mxx = v[0];
        }
        if v[1] > mxy {
            mxy = v[1];
        }
        if v[2] > mxz {
            mxz = v[2];
        }
    }
    assert_eq!(m.bounding_box_size.min.x, mnx.to_bits());
    assert_eq!(m.bounding_box_size.min.y, mny.to_bits());
    assert_eq!(m.bounding_box_size.min.z, mnz.to_bits());
    assert_eq!(m.bounding_box_size.max.x, mxx.to_bits());
    assert_eq!(m.bounding_box_size.max.y, mxy.to_bits());
    assert_eq!(m.bounding_box_size.max.z, mxz.to_bits());
    // the four extreme vertices picked by the successive scans
    assert_eq!(m.bounding_box.min_x.x, (-7.25f32).to_bits());
    assert_eq!(m.bounding_box.max_x.x, 3.5f32.to_bits());
    assert_eq!(m.bounding_box.min_z.z, (-9.0f32).to_bits());
}

#[test]
fn nan_position_does_not_move_bounds() {
    let verts = [[1.0f32, 1.0, 1.0], [f32::NAN, f32::NAN, f32::NAN], [2.0, 0.5, 1.5]];
    let b = mesh_bytes(&verts, &[], &[], 0);
    let m = RobloxMesh::from_cursor(&b).expect("decode");
    assert_eq!(m.bounding_box_size.min.x, 1.0f32.to_bits());
    assert_eq!(m.bounding_box_size.max.x, 2.0f32.to_bits());
    assert_eq!(m.bounding_box_size.min.y, 0.5f32.to_bits());
}

#[test]
fn hash_truncates_toward_zero() {
    // min sum = -0.5 - 0.5 + 0 = -1.0, |.| = 1.0; max sum = 0.5 + 0.5 + 0
    // = 1.0; total 2.0 -> 2; triangles 3 -> hash 5.
    let verts = [[-0.5f32, 0.5, 0.0], [0.5, -0.5, 0.0]];
    let b = mesh_bytes(&verts, &[], &[1, 4], 0);
    let m = RobloxMesh::from_cursor(&b).expect("decode");
    assert_eq!(m.triangles, 3);
    assert_eq!(m.hash, 5);
}

#[test]
fn calculate_rotation_is_zero() {
    let verts = [[0.0f32, 0.0, 0.0]];
    let b = mesh_bytes(&verts, &[], &[], 0);
    let m1 = RobloxMesh::from_cursor(&b).expect("decode");
    let m2 = RobloxMesh::from_cursor(&b).expect("decode");
    let r = m1.calculate_rotation(&m2);
    assert_eq!(r.x, 0);
    assert_eq!(r.y, 0);
    assert_eq!(r.z, 0);
}

#[test]
fn negative_triangle_count_flows_into_hash() {
    let verts = [[0.0f32, 0.0, 0.0]];
    let b = mesh_bytes(&verts, &[], &[5, -9], 0);
    let m = RobloxMesh::from_cursor(&b).expect("decode");
    assert_eq!(m.triangles, -14);
    assert_eq!(m.hash, -14);
}
