use mesh_dedup::cframe::{CFrame, Matrix3, Vector3};
use mesh_dedup::engine::{dedup_run, DedupOutcome, RunError, SceneObject};
use mesh_dedup::mesh_reader::DecodeError;

fn v3(x: f32, y: f32, z: f32) -> Vector3 {
    Vector3 { x: x.to_bits(), y: y.to_bits(), z: z.to_bits() }
}

fn ident_cf(x: f32, y: f32, z: f32) -> CFrame {
    CFrame {
        position: v3(x, y, z),
        orientation: Matrix3 {
            x: v3(1.0, 0.0, 0.0),
            y: v3(0.0, 1.0, 0.0),
            z: v3(0.0, 0.0, 1.0),
        },
    }
}

fn object(texture: &str, mesh: &str, sx: f32, px: f32) -> SceneObject {
    SceneObject {
        texture_id: texture.to_string(),
        mesh_id: mesh.to_string(),
        init_size: v3(sx, sx, sx),
        size: v3(sx + 1.0, sx + 1.0, sx + 1.0),
        cframe: ident_cf(px, 2.0, 3.0),
    }
}

/// A valid mesh buffer with the given triangle count and bounding box
/// corners.
fn mesh_with(tri: i32, min: [f32; 3], max: [f32; 3]) -> Vec<u8> {
    let mut b = Vec::new();
    b.extend_from_slice(b"version 4.00\n");
    b.extend_from_slice(&24i16.to_le_bytes());
    b.extend_from_slice(&1u16.to_le_bytes());
    b.extend_from_slice(&2i32.to_le_bytes()); // num_verts
    b.extend_from_slice(&0i32.to_le_bytes()); // num_faces
    b.extend_from_slice(&2u16.to_le_bytes()); // num_lods
    b.extend_from_slice(&0u16.to_le_bytes()); // num_bones
    b.extend_from_slice(&0i32.to_le_bytes());
    b.extend_from_slice(&0u16.to_le_bytes());
    b.extend_from_slice(&0u16.to_le_bytes());
    for pos in [min, max] {
        for c in pos {
            b.extend_from_slice(&c.to_le_bytes());
        }
        for c in [0.0f32, 1.0, 0.0, 0.5, 0.5, 0.0] {
            b.extend_from_slice(&c.to_le_bytes());
        }
        b.extend_from_slice(&0i32.to_le_bytes());
    }
    b.extend_from_slice(&0i32.to_le_bytes()); // lod 0
    b.extend_from_slice(&tri.to_le_bytes()); // lod 1
    b
}

#[test]
fn duplicate_is_rewritten_to_first_object() {
    // Both meshes decode to 10 triangles and bounding box
    // (-1,-1,-1)..(1,1,1), so they share one fingerprint.
    let mut objects = vec![
        object("rbxasset://tex1", "rbxassetid://111", 4.0, 1.0),
        object("rbxasset://tex2", "rbxassetid://222", 9.0, 5.0),
    ];
    let fetched = vec![
        Some(mesh_with(10, [-1.0, -1.0, -1.0], [1.0, 1.0, 1.0])),
        Some(mesh_with(10, [-1.0, -1.0, -1.0], [1.0, 1.0, 1.0])),
    ];
    let outcomes = dedup_run(&mut objects, &fetched).expect("run");
    assert_eq!(outcomes, vec![DedupOutcome::Cached, DedupOutcome::Rewritten { rep: 0 }]);
    // the first object is untouched
    assert_eq!(objects[0].mesh_id, "rbxassetid://111");
    assert_eq!(objects[0].size, v3(5.0, 5.0, 5.0));
    // the second now references the first object's asset and sizes
    assert_eq!(objects[1].mesh_id, "rbxassetid://111");
    assert_eq!(objects[1].texture_id, "rbxasset://tex2");
    assert_eq!(objects[1].size, v3(5.0, 5.0, 5.0));
    assert_eq!(objects[1].init_size, v3(4.0, 4.0, 4.0));
    // corrective rotation is the zero rotation, so composing with it
    // keeps this all-positive transform bit for bit
    assert_eq!(objects[1].cframe, ident_cf(5.0, 2.0, 3.0));
}

#[test]
fn different_fingerprints_are_both_cached() {
    let mut objects = vec![
        object("t1", "rbxassetid://111", 4.0, 1.0),
        object("t2", "rbxassetid://222", 9.0, 5.0),
    ];
    let fetched = vec![
        Some(mesh_with(10, [-1.0, -1.0, -1.0], [1.0, 1.0, 1.0])),
        Some(mesh_with(11, [-1.0, -1.0, -1.0], [1.0, 1.0, 1.0])),
    ];
    let outcomes = dedup_run(&mut objects, &fetched).expect("run");
    assert_eq!(outcomes, vec![DedupOutcome::Cached, DedupOutcome::Cached]);
    assert_eq!(objects[1].mesh_id, "rbxassetid://222");
}

#[test]
fn blank_texture_is_skipped_and_unmodified() {
    // The blank-textured object carries the same mesh fingerprint as the
    // others, but it is excluded from the dedup map: the canonical
    // representative is the first non-blank carrier.
    let mut objects = vec![
        object("", "rbxassetid://111", 4.0, 1.0),
        object("t2", "rbxassetid://222", 9.0, 5.0),
        object("t3", "rbxassetid://333", 2.0, 8.0),
    ];
    let before = objects[0].clone();
    let bytes = mesh_with(10, [-1.0, -1.0, -1.0], [1.0, 1.0, 1.0]);
    let fetched = vec![Some(bytes.clone()), Some(bytes.clone()), Some(bytes)];
    let outcomes = dedup_run(&mut objects, &fetched).expect("run");
    assert_eq!(
        outcomes,
        vec![
            DedupOutcome::Skipped,
            DedupOutcome::Cached,
            DedupOutcome::Rewritten { rep: 1 },
        ]
    );
    assert_eq!(objects[0].texture_id, before.texture_id);
    assert_eq!(objects[0].mesh_id, before.mesh_id);
    assert_eq!(objects[0].size, before.size);
    assert_eq!(objects[0].init_size, before.init_size);
    assert_eq!(objects[0].cframe, before.cframe);
    assert_eq!(objects[2].mesh_id, "rbxassetid://222");
}

#[test]
fn whitespace_mesh_id_is_skipped() {
    let mut objects = vec![object("t1", " \t\n", 4.0, 1.0)];
    let fetched = vec![Some(mesh_with(10, [-1.0, -1.0, -1.0], [1.0, 1.0, 1.0]))];
    let outcomes = dedup_run(&mut objects, &fetched).expect("run");
    assert_eq!(outcomes, vec![DedupOutcome::Skipped]);
    assert_eq!(objects[0].mesh_id, " \t\n");
}

#[test]
fn failed_fetch_aborts_before_decoding() {
    // The second fetch failed; even though the third object's bytes are
    // malformed, the batch error wins because nothing is decoded.
    let mut objects = vec![
        object("t1", "rbxassetid://111", 4.0, 1.0),
        object("t2", "rbxassetid://222", 9.0, 5.0),
        object("t3", "rbxassetid://333", 2.0, 8.0),
    ];
    let snapshot: Vec<String> = objects.iter().map(|o| o.mesh_id.clone()).collect();
    let fetched = vec![
        Some(mesh_with(10, [-1.0, -1.0, -1.0], [1.0, 1.0, 1.0])),
        None,
        Some(vec![1, 2, 3]),
    ];
    let r = dedup_run(&mut objects, &fetched);
    assert_eq!(r, Err(RunError::BatchFailed));
    let after: Vec<String> = objects.iter().map(|o| o.mesh_id.clone()).collect();
    assert_eq!(after, snapshot);
}

#[test]
fn decode_failure_aborts_run_unmodified() {
    let mut objects = vec![
        object("t1", "rbxassetid://111", 4.0, 1.0),
        object("t2", "rbxassetid://222", 9.0, 5.0),
    ];
    let mut bad = mesh_with(10, [-1.0, -1.0, -1.0], [1.0, 1.0, 1.0]);
    bad[8] = b'3'; // version 3.00
    let fetched = vec![Some(mesh_with(10, [-1.0, -1.0, -1.0], [1.0, 1.0, 1.0])), Some(bad)];
    let r = dedup_run(&mut objects, &fetched);
    assert_eq!(r, Err(RunError::Decode(DecodeError::BadFormat)));
    assert_eq!(objects[0].mesh_id, "rbxassetid://111");
    assert_eq!(objects[1].mesh_id, "rbxassetid://222");
    assert_eq!(objects[1].size, v3(10.0, 10.0, 10.0));
}

#[test]
fn canonical_is_first_in_scan_order() {
    // Reversing the input order flips which asset id wins.
    let bytes = mesh_with(7, [0.0, 0.0, 0.0], [2.0, 2.0, 2.0]);
    let mut fwd = vec![
        object("t1", "rbxassetid://111", 4.0, 1.0),
        object("t2", "rbxassetid://222", 9.0, 5.0),
    ];
    let fetched = vec![Some(bytes.clone()), Some(bytes)];
    dedup_run(&mut fwd, &fetched).expect("run");
    assert_eq!(fwd[1].mesh_id, "rbxassetid://111");

    let bytes = mesh_with(7, [0.0, 0.0, 0.0], [2.0, 2.0, 2.0]);
    let mut rev = vec![
        object("t2", "rbxassetid://222", 9.0, 5.0),
        object("t1", "rbxassetid://111", 4.0, 1.0),
    ];
    let fetched = vec![Some(bytes.clone()), Some(bytes)];
    dedup_run(&mut rev, &fetched).expect("run");
    assert_eq!(rev[1].mesh_id, "rbxassetid://222");
}
