//! Decoder for the binary mesh format.
//!
//! The format is little-endian throughout: a 13-byte version banner
//! (`"version 4.00\n"`), a 16-bit header-size field that must equal 24,
//! eight fixed header fields, `num_verts` vertex records of 40 bytes,
//! a trailing block of `num_verts` 8-byte bone-weight records when
//! `num_bones > 0`, `num_faces` face records of three 32-bit indices, and
//! `num_lods` 32-bit level-of-detail boundaries.  Floating-point fields
//! are carried as their bit patterns (see [`crate::fbits`]).
//!
//! Every structural field of a successfully decoded mesh is pinned to the
//! input bytes by `from_cursor`'s contract, and conversely the bytes are
//! pinned by the fields: re-encoding the structural fields reproduces the
//! consumed prefix of the input byte for byte.

use crate::cframe::{spec_v3_zero, Vector3};
use crate::fbits::{
    abs_bits, add_bits, f32_gt, f32_lt, f32_mag, f32_sim, fadd, ftrunc, gt_bits,
    lemma_fadd_congruent, lemma_fmag_congruent, lemma_ftrunc_congruent, lt_bits, trunc_bits,
};
use vstd::prelude::*;

verus! {

/// Why a byte buffer failed to decode.
#[derive(Debug, Clone, Copy, PartialEq, Eq, Structural)]
pub enum DecodeError {
    /// The version banner or the header-size field does not match the one
    /// understood format version.
    BadFormat,
    /// The buffer ends before the structure the header declares.
    Truncated,
    /// The mesh has no vertices, so its bounding box is undefined.
    Empty,
}

/// One vertex's bone assignment: four bone indices and four weights.
#[derive(Debug, Clone, Copy, PartialEq, Eq)]
pub struct RobloxBoneWeights {
    pub bones: [u8; 4],
    pub weights: [u8; 4],
}

/// One vertex record: position, normal and UV as bit-pattern vectors, a
/// packed 32-bit color, and the bone weights (zeroed when the mesh has no
/// bones).
#[derive(Debug, Clone, Copy, PartialEq)]
pub struct RobloxMeshVertex {
    pub position: Vector3,
    pub normal: Vector3,
    pub uv: Vector3,
    pub color: i32,
    pub weights: RobloxBoneWeights,
}

/// The fixed header fields, in file order.
#[derive(Debug, Clone, Copy, PartialEq, Eq, Structural)]
pub struct RobloxMeshHeader {
    pub num_meshes: u16,
    pub num_verts: i32,
    pub num_faces: i32,
    pub num_lods: u16,
    pub num_bones: u16,
    pub num_skin_data: u16,
    pub name_table_size: i32,
    pub stub: u16,
}

/// The positions of the four extreme vertices picked by successive
/// minimum/maximum scans over the lateral and depth axes.
#[derive(Debug, Clone, Copy, PartialEq, Eq, Structural)]
pub struct RobloxMeshBoundingBox {
    pub min_x: Vector3,
    pub max_x: Vector3,
    pub min_z: Vector3,
    pub max_z: Vector3,
}

/// Componentwise minimum and maximum of all vertex positions.
#[derive(Debug, Clone, Copy, PartialEq, Eq, Structural)]
pub struct RobloxMeshBoundingBoxSize {
    pub min: Vector3,
    pub max: Vector3,
}

/// A decoded mesh: the structural fields read from the bytes, and the
/// derived fields (bounding boxes, triangle count, dedup hash).
#[derive(Debug, Clone, PartialEq)]
pub struct RobloxMesh {
    pub header: RobloxMeshHeader,
    pub lods: Vec<i32>,
    pub faces: Vec<[i32; 3]>,
    pub vertices: Vec<RobloxMeshVertex>,
    pub bounding_box: RobloxMeshBoundingBox,
    pub bounding_box_size: RobloxMeshBoundingBoxSize,
    pub rotation: Vector3,
    pub triangles: i32,
    pub hash: i32,
}

/// Little-endian 16-bit value at byte offset `i`.
pub open spec fn le16(b: Seq<u8>, i: int) -> u16 {
    (b[i] + 256 * b[i + 1]) as u16
}

/// Little-endian 32-bit value at byte offset `i`.
pub open spec fn le32(b: Seq<u8>, i: int) -> u32 {
    (b[i] + 256 * b[i + 1] + 65536 * b[i + 2] + 16777216 * b[i + 3]) as u32
}

/// The two's-complement reinterpretation of a 32-bit pattern.
pub open spec fn i32_of_u32(x: u32) -> i32 {
    if x >= 0x8000_0000 {
        (x - 0x1_0000_0000) as i32
    } else {
        x as i32
    }
}

/// Little-endian signed 32-bit value at byte offset `i`.
pub open spec fn le_i32(b: Seq<u8>, i: int) -> i32 {
    i32_of_u32(le32(b, i))
}

/// The bytes start with the exact banner `"version 4.00\n"`.
pub open spec fn banner_ok(b: Seq<u8>) -> bool {
    &&& b.len() >= 13
    &&& b[0] == 118
    &&& b[1] == 101
    &&& b[2] == 114
    &&& b[3] == 115
    &&& b[4] == 105
    &&& b[5] == 111
    &&& b[6] == 110
    &&& b[7] == 32
    &&& b[8] == 52
    &&& b[9] == 46
    &&& b[10] == 48
    &&& b[11] == 48
    &&& b[12] == 10
}

/// The header fields as laid out after the banner and the header-size
/// field.
pub open spec fn spec_header(b: Seq<u8>) -> RobloxMeshHeader {
    RobloxMeshHeader {
        num_meshes: le16(b, 15),
        num_verts: le_i32(b, 17),
        num_faces: le_i32(b, 21),
        num_lods: le16(b, 25),
        num_bones: le16(b, 27),
        name_table_size: le_i32(b, 29),
        num_skin_data: le16(b, 33),
        stub: le16(b, 35),
    }
}

/// The number of vertex records actually read: a non-positive count reads
/// none.
pub open spec fn nv_of(h: RobloxMeshHeader) -> int {
    if h.num_verts > 0 {
        h.num_verts as int
    } else {
        0
    }
}

/// The number of face records actually read.
pub open spec fn nf_of(h: RobloxMeshHeader) -> int {
    if h.num_faces > 0 {
        h.num_faces as int
    } else {
        0
    }
}

/// The number of level-of-detail boundaries.
pub open spec fn nl_of(h: RobloxMeshHeader) -> int {
    h.num_lods as int
}

/// Byte offset of the first vertex record.
pub open spec fn verts_off() -> int {
    37
}

/// Byte offset of the trailing bone-weight block.
pub open spec fn weights_off(h: RobloxMeshHeader) -> int {
    37 + 40 * nv_of(h)
}

/// Byte offset of the face records.
pub open spec fn faces_off(h: RobloxMeshHeader) -> int {
    weights_off(h) + if h.num_bones > 0 {
        8 * nv_of(h)
    } else {
        0
    }
}

/// Byte offset of the level-of-detail boundaries.
pub open spec fn lods_off(h: RobloxMeshHeader) -> int {
    faces_off(h) + 12 * nf_of(h)
}

/// Total number of bytes the structure declared by the header occupies.
pub open spec fn total_len(h: RobloxMeshHeader) -> int {
    lods_off(h) + 4 * nl_of(h)
}

/// The banner, the header-size field and the full header are present and
/// valid.
pub open spec fn header_ok(b: Seq<u8>) -> bool {
    &&& banner_ok(b)
    &&& b.len() >= 15
    &&& le16(b, 13) == 24
    &&& b.len() >= 37
}

/// The error the header stage reports, in the order the stages run.
pub open spec fn header_err(b: Seq<u8>) -> DecodeError {
    if b.len() < 13 {
        DecodeError::Truncated
    } else if !banner_ok(b) {
        DecodeError::BadFormat
    } else if b.len() < 15 {
        DecodeError::Truncated
    } else if le16(b, 13) != 24 {
        DecodeError::BadFormat
    } else {
        DecodeError::Truncated
    }
}

/// The bytes decode successfully: valid header, enough bytes for the
/// declared structure, and at least one vertex.
pub open spec fn decode_ok(b: Seq<u8>) -> bool {
    &&& header_ok(b)
    &&& b.len() >= total_len(spec_header(b))
    &&& spec_header(b).num_verts > 0
}

/// The error `from_cursor` reports when the bytes do not decode.
pub open spec fn decode_err(b: Seq<u8>) -> DecodeError {
    if !header_ok(b) {
        header_err(b)
    } else if b.len() < total_len(spec_header(b)) {
        DecodeError::Truncated
    } else {
        DecodeError::Empty
    }
}

/// Three consecutive 32-bit patterns read as a vector.
pub open spec fn spec_vec3_at(b: Seq<u8>, o: int) -> Vector3 {
    Vector3 { x: le32(b, o), y: le32(b, o + 4), z: le32(b, o + 8) }
}

/// The bone-weight record the vertex at index `i` carries: read from the
/// trailing block when the mesh has bones, zeroed otherwise.
pub open spec fn weights_match(b: Seq<u8>, h: RobloxMeshHeader, i: int, w: RobloxBoneWeights) -> bool {
    if h.num_bones > 0 {
        let o = weights_off(h) + 8 * i;
        &&& w.bones@ =~= seq![b[o], b[o + 1], b[o + 2], b[o + 3]]
        &&& w.weights@ =~= seq![b[o + 4], b[o + 5], b[o + 6], b[o + 7]]
    } else {
        &&& w.bones@ =~= seq![0u8, 0u8, 0u8, 0u8]
        &&& w.weights@ =~= seq![0u8, 0u8, 0u8, 0u8]
    }
}

/// The vertex at index `i` is exactly what the bytes hold.
pub open spec fn vert_matches(b: Seq<u8>, h: RobloxMeshHeader, i: int, v: RobloxMeshVertex) -> bool {
    let o = verts_off() + 40 * i;
    &&& v.position == spec_vec3_at(b, o)
    &&& v.normal == spec_vec3_at(b, o + 12)
    &&& v.uv == spec_vec3_at(b, o + 24)
    &&& v.color == le_i32(b, o + 36)
    &&& weights_match(b, h, i, v.weights)
}

/// The face at index `j` is exactly what the bytes hold.
pub open spec fn face_matches(b: Seq<u8>, h: RobloxMeshHeader, j: int, f: [i32; 3]) -> bool {
    let o = faces_off(h) + 12 * j;
    f@ =~= seq![le_i32(b, o), le_i32(b, o + 4), le_i32(b, o + 8)]
}

/// Which extreme vertex a selection scan looks for.
#[derive(Debug, Clone, Copy, PartialEq, Eq, Structural)]
pub enum Extreme {
    MinX,
    MaxX,
    MinZ,
    MaxZ,
}

/// Whether a scan under `rule` prefers vertex `a` over the current pick
/// `b` (a strict comparison, so the first extreme vertex wins ties).
pub open spec fn picks(rule: Extreme, a: RobloxMeshVertex, b: RobloxMeshVertex) -> bool {
    match rule {
        Extreme::MinX => f32_lt(a.position.x, b.position.x),
        Extreme::MaxX => f32_gt(a.position.x, b.position.x),
        Extreme::MinZ => f32_lt(a.position.z, b.position.z),
        Extreme::MaxZ => f32_gt(a.position.z, b.position.z),
    }
}

/// The index a left-to-right scan of the first `n` vertices settles on.
pub open spec fn sel_idx(rule: Extreme, s: Seq<RobloxMeshVertex>, n: int) -> int
    decreases n,
{
    if n <= 1 {
        0
    } else {
        let p = sel_idx(rule, s, n - 1);
        if picks(rule, s[n - 1], s[p]) {
            n - 1
        } else {
            p
        }
    }
}

/// The scan's pick is a valid index.
pub proof fn lemma_sel_idx_in_range(rule: Extreme, s: Seq<RobloxMeshVertex>, n: int)
    requires
        n >= 1,
    ensures
        0 <= sel_idx(rule, s, n) < n,
    decreases n,
{
    if n > 1 {
        lemma_sel_idx_in_range(rule, s, n - 1);
    }
}

/// Left fold of the componentwise minimum (under IEEE-754 `<`) of the
/// first `n` entries, seeded with the first entry.
pub open spec fn fold_min(s: Seq<u32>, n: int) -> u32
    decreases n,
{
    if n <= 0 {
        s[0]
    } else {
        let p = fold_min(s, n - 1);
        if f32_lt(s[n - 1], p) {
            s[n - 1]
        } else {
            p
        }
    }
}

/// Left fold of the componentwise maximum.
pub open spec fn fold_max(s: Seq<u32>, n: int) -> u32
    decreases n,
{
    if n <= 0 {
        s[0]
    } else {
        let p = fold_max(s, n - 1);
        if f32_gt(s[n - 1], p) {
            s[n - 1]
        } else {
            p
        }
    }
}

/// The lateral position components of a vertex sequence.
pub open spec fn pos_xs(vs: Seq<RobloxMeshVertex>) -> Seq<u32> {
    Seq::new(vs.len(), |i: int| vs[i].position.x)
}

/// The vertical position components.
pub open spec fn pos_ys(vs: Seq<RobloxMeshVertex>) -> Seq<u32> {
    Seq::new(vs.len(), |i: int| vs[i].position.y)
}

/// The depth position components.
pub open spec fn pos_zs(vs: Seq<RobloxMeshVertex>) -> Seq<u32> {
    Seq::new(vs.len(), |i: int| vs[i].position.z)
}

/// Componentwise minimum and maximum of all vertex positions, folded in
/// scan order.
pub open spec fn spec_bb_size(vs: Seq<RobloxMeshVertex>) -> RobloxMeshBoundingBoxSize {
    let n = vs.len() as int;
    RobloxMeshBoundingBoxSize {
        min: Vector3 {
            x: fold_min(pos_xs(vs), n),
            y: fold_min(pos_ys(vs), n),
            z: fold_min(pos_zs(vs), n),
        },
        max: Vector3 {
            x: fold_max(pos_xs(vs), n),
            y: fold_max(pos_ys(vs), n),
            z: fold_max(pos_zs(vs), n),
        },
    }
}

/// The four extreme positions picked by four successive scans, each
/// removing its pick before the next scan runs.
pub open spec fn spec_bb4(s: Seq<RobloxMeshVertex>) -> RobloxMeshBoundingBox {
    let n = s.len() as int;
    let i1 = sel_idx(Extreme::MinX, s, n);
    let v1 = s[i1];
    let s1 = s.remove(i1);
    let i2 = sel_idx(Extreme::MaxX, s1, n - 1);
    let v2 = s1[i2];
    let s2 = s1.remove(i2);
    let i3 = sel_idx(Extreme::MinZ, s2, n - 2);
    let v3 = s2[i3];
    let s3 = s2.remove(i3);
    let i4 = sel_idx(Extreme::MaxZ, s3, n - 3);
    let v4 = s3[i4];
    RobloxMeshBoundingBox {
        min_x: v1.position,
        max_x: v2.position,
        min_z: v3.position,
        max_z: v4.position,
    }
}

/// The lateral position components read straight from the bytes.
pub open spec fn byte_pos_xs(b: Seq<u8>) -> Seq<u32> {
    Seq::new(nv_of(spec_header(b)) as nat, |i: int| le32(b, verts_off() + 40 * i))
}

/// The vertical position components read straight from the bytes.
pub open spec fn byte_pos_ys(b: Seq<u8>) -> Seq<u32> {
    Seq::new(nv_of(spec_header(b)) as nat, |i: int| le32(b, verts_off() + 40 * i + 4))
}

/// The depth position components read straight from the bytes.
pub open spec fn byte_pos_zs(b: Seq<u8>) -> Seq<u32> {
    Seq::new(nv_of(spec_header(b)) as nat, |i: int| le32(b, verts_off() + 40 * i + 8))
}

/// The bounding box as a function of the bytes alone.
pub open spec fn spec_bb_size_bytes(b: Seq<u8>) -> RobloxMeshBoundingBoxSize {
    let n = nv_of(spec_header(b));
    RobloxMeshBoundingBoxSize {
        min: Vector3 {
            x: fold_min(byte_pos_xs(b), n),
            y: fold_min(byte_pos_ys(b), n),
            z: fold_min(byte_pos_zs(b), n),
        },
        max: Vector3 {
            x: fold_max(byte_pos_xs(b), n),
            y: fold_max(byte_pos_ys(b), n),
            z: fold_max(byte_pos_zs(b), n),
        },
    }
}

/// Triangle count: the difference of the first two level-of-detail
/// boundaries when there are at least two, else 0, with the wrapping
/// subtraction the release build performs.
pub open spec fn spec_tri_of(b: Seq<u8>) -> i32 {
    let h = spec_header(b);
    if nl_of(h) > 1 {
        vstd::wrapping::i32_specs::wrapping_sub(
            le_i32(b, lods_off(h) + 4),
            le_i32(b, lods_off(h)),
        )
    } else {
        0
    }
}

/// The dedup fingerprint: the triangle count plus the truncated sum of
/// the absolute summed minimum extents and the summed maximum extents.
pub open spec fn spec_hash_parts(tri: i32, bb: RobloxMeshBoundingBoxSize) -> i32 {
    let mn = fadd(fadd(bb.min.x, bb.min.y), bb.min.z);
    let mx = fadd(fadd(bb.max.x, bb.max.y), bb.max.z);
    vstd::wrapping::i32_specs::wrapping_add(tri, ftrunc(fadd(f32_mag(mn), mx)))
}

/// The dedup fingerprint as a function of the bytes alone: re-decoding
/// the same bytes always yields the same key.
pub open spec fn spec_mesh_hash(b: Seq<u8>) -> i32 {
    spec_hash_parts(spec_tri_of(b), spec_bb_size_bytes(b))
}

/// Every field of `m` is exactly what the bytes hold: the header, the
/// structural records, and the derived fields, each a function of the
/// bytes alone (the four-extreme box is a function of the vertices, which
/// the bytes pin down).
pub open spec fn decoded_from(m: RobloxMesh, b: Seq<u8>) -> bool {
    let h = spec_header(b);
    &&& m.header == h
    &&& m.vertices@.len() == nv_of(h)
    &&& forall|i: int| 0 <= i < nv_of(h) ==> vert_matches(b, h, i, #[trigger] m.vertices@[i])
    &&& m.faces@.len() == nf_of(h)
    &&& forall|j: int| 0 <= j < nf_of(h) ==> face_matches(b, h, j, #[trigger] m.faces@[j])
    &&& m.lods@.len() == nl_of(h)
    &&& forall|k: int| 0 <= k < nl_of(h) ==> #[trigger] m.lods@[k] == le_i32(b, lods_off(h) + 4 * k)
    &&& m.triangles == spec_tri_of(b)
    &&& m.bounding_box_size == spec_bb_size_bytes(b)
    &&& m.hash == spec_mesh_hash(b)
    &&& m.rotation == spec_v3_zero()
    &&& (m.vertices@.len() >= 4 ==> m.bounding_box == spec_bb4(m.vertices@))
    &&& (m.vertices@.len() < 4 ==> m.bounding_box == (RobloxMeshBoundingBox {
        min_x: spec_v3_zero(),
        max_x: spec_v3_zero(),
        min_z: spec_v3_zero(),
        max_z: spec_v3_zero(),
    }))
}

/// Two decoded meshes with the same triangle count and the same bounding
/// box carry the same dedup key, whatever bytes they came from.
pub proof fn lemma_same_geometry_same_key(
    m1: RobloxMesh,
    b1: Seq<u8>,
    m2: RobloxMesh,
    b2: Seq<u8>,
)
    requires
        decoded_from(m1, b1),
        decoded_from(m2, b2),
        m1.triangles == m2.triangles,
        m1.bounding_box_size == m2.bounding_box_size,
    ensures
        m1.hash == m2.hash,
{
}

/// The dedup key is a pure function of the bytes: two decodes of the same
/// buffer agree on the key, the triangle count and the bounding box.
pub proof fn lemma_redecode_same_key(m1: RobloxMesh, m2: RobloxMesh, b: Seq<u8>)
    requires
        decoded_from(m1, b),
        decoded_from(m2, b),
    ensures
        m1.hash == m2.hash,
        m1.triangles == m2.triangles,
        m1.bounding_box_size == m2.bounding_box_size,
        m1.header == m2.header,
{
}

/// Byte `j` of the little-endian form of a 16-bit value.
pub open spec fn u16_byte(x: u16, j: int) -> u8 {
    if j == 0 {
        (x % 256) as u8
    } else {
        ((x / 256) % 256) as u8
    }
}

/// Byte `j` of the little-endian form of a 32-bit pattern.
pub open spec fn u32_byte(x: u32, j: int) -> u8 {
    if j == 0 {
        (x % 256) as u8
    } else if j == 1 {
        ((x / 256) % 256) as u8
    } else if j == 2 {
        ((x / 65536) % 256) as u8
    } else {
        ((x / 16777216) % 256) as u8
    }
}

/// The pattern a signed 32-bit value is stored as.
pub open spec fn u32_of_i32(x: i32) -> u32 {
    if x < 0 {
        (x + 0x1_0000_0000) as u32
    } else {
        x as u32
    }
}

/// Little-endian encoding of a 16-bit value.
pub open spec fn encode_u16(x: u16) -> Seq<u8> {
    seq![u16_byte(x, 0), u16_byte(x, 1)]
}

/// Little-endian encoding of a 32-bit pattern.
pub open spec fn encode_u32(x: u32) -> Seq<u8> {
    seq![u32_byte(x, 0), u32_byte(x, 1), u32_byte(x, 2), u32_byte(x, 3)]
}

/// Little-endian encoding of a signed 32-bit value.
pub open spec fn encode_i32(x: i32) -> Seq<u8> {
    encode_u32(u32_of_i32(x))
}

/// The version banner's bytes (`"version 4.00\n"`).
pub open spec fn encode_banner() -> Seq<u8> {
    seq![118u8, 101u8, 114u8, 115u8, 105u8, 111u8, 110u8, 32u8, 52u8, 46u8, 48u8, 48u8, 10u8]
}

/// The banner, the header-size field and the header fields, in file order.
pub open spec fn encode_header(h: RobloxMeshHeader) -> Seq<u8> {
    encode_banner() + encode_u16(24) + encode_u16(h.num_meshes) + encode_i32(h.num_verts)
        + encode_i32(h.num_faces) + encode_u16(h.num_lods) + encode_u16(h.num_bones) + encode_i32(
        h.name_table_size,
    ) + encode_u16(h.num_skin_data) + encode_u16(h.stub)
}

/// Three consecutive 32-bit patterns.
pub open spec fn encode_vec3(v: Vector3) -> Seq<u8> {
    encode_u32(v.x) + encode_u32(v.y) + encode_u32(v.z)
}

/// One 40-byte vertex record.
pub open spec fn encode_vertex(v: RobloxMeshVertex) -> Seq<u8> {
    encode_vec3(v.position) + encode_vec3(v.normal) + encode_vec3(v.uv) + encode_i32(v.color)
}

/// One 8-byte bone-weight record.
pub open spec fn encode_weights(w: RobloxBoneWeights) -> Seq<u8> {
    w.bones@ + w.weights@
}

/// One 12-byte face record.
pub open spec fn encode_face(f: [i32; 3]) -> Seq<u8> {
    encode_i32(f@[0]) + encode_i32(f@[1]) + encode_i32(f@[2])
}

/// The first `n` vertex records.
pub open spec fn encode_verts(vs: Seq<RobloxMeshVertex>, n: int) -> Seq<u8>
    decreases n,
{
    if n <= 0 {
        Seq::empty()
    } else {
        encode_verts(vs, n - 1) + encode_vertex(vs[n - 1])
    }
}

/// The first `n` bone-weight records of the trailing block.
pub open spec fn encode_all_weights(vs: Seq<RobloxMeshVertex>, n: int) -> Seq<u8>
    decreases n,
{
    if n <= 0 {
        Seq::empty()
    } else {
        encode_all_weights(vs, n - 1) + encode_weights(vs[n - 1].weights)
    }
}

/// The first `n` face records.
pub open spec fn encode_faces(fs: Seq<[i32; 3]>, n: int) -> Seq<u8>
    decreases n,
{
    if n <= 0 {
        Seq::empty()
    } else {
        encode_faces(fs, n - 1) + encode_face(fs[n - 1])
    }
}

/// The first `n` level-of-detail boundaries.
pub open spec fn encode_lods(ls: Seq<i32>, n: int) -> Seq<u8>
    decreases n,
{
    if n <= 0 {
        Seq::empty()
    } else {
        encode_lods(ls, n - 1) + encode_i32(ls[n - 1])
    }
}

/// The encoder: the structural fields of a mesh laid out as the decoder
/// reads them.
pub open spec fn encode_mesh(m: RobloxMesh) -> Seq<u8> {
    let nv = m.vertices@.len() as int;
    encode_header(m.header) + encode_verts(m.vertices@, nv) + (if m.header.num_bones > 0 {
        encode_all_weights(m.vertices@, nv)
    } else {
        Seq::empty()
    }) + encode_faces(m.faces@, m.faces@.len() as int) + encode_lods(
        m.lods@,
        m.lods@.len() as int,
    )
}

/// Encoding inverts a 16-bit read.
proof fn lemma_le16_inverse(b: Seq<u8>, o: int)
    requires
        0 <= o,
        o + 2 <= b.len(),
    ensures
        encode_u16(le16(b, o)) =~= b.subrange(o, o + 2),
{
    let x = le16(b, o);
    assert(x == b[o] + 256 * b[o + 1]);
    assert(x % 256 == b[o] && x / 256 == b[o + 1] as u16) by (nonlinear_arith)
        requires
            x == b[o] + 256 * b[o + 1],
            b[o] < 256,
            b[o + 1] < 256,
    ;
}

/// Encoding inverts a 32-bit read.
proof fn lemma_le32_inverse(b: Seq<u8>, o: int)
    requires
        0 <= o,
        o + 4 <= b.len(),
    ensures
        encode_u32(le32(b, o)) =~= b.subrange(o, o + 4),
{
    let x = le32(b, o);
    let q1 = (b[o + 1] + 256 * b[o + 2] + 65536 * b[o + 3]) as u32;
    let q2 = (b[o + 2] + 256 * b[o + 3]) as u32;
    let q3 = b[o + 3] as u32;
    assert(x == b[o] + 256 * q1);
    assert(x % 256 == b[o] && x / 256 == q1) by (nonlinear_arith)
        requires
            x == b[o] + 256 * q1,
            b[o] < 256,
            0 <= q1 < 0x1000000,
    ;
    assert(q1 % 256 == b[o + 1] && q1 / 256 == q2) by (nonlinear_arith)
        requires
            q1 == b[o + 1] + 256 * q2,
            b[o + 1] < 256,
            0 <= q2 < 0x10000,
    ;
    assert(q2 % 256 == b[o + 2] && q2 / 256 == q3) by (nonlinear_arith)
        requires
            q2 == b[o + 2] + 256 * q3,
            b[o + 2] < 256,
            0 <= q3 < 256,
    ;
    assert(x / 65536 == q2 && x / 16777216 == q3) by (nonlinear_arith)
        requires
            x == b[o] + 256 * b[o + 1] + 65536 * q2,
            x == b[o] + 256 * b[o + 1] + 65536 * b[o + 2] + 16777216 * q3,
            b[o] < 256,
            b[o + 1] < 256,
            b[o + 2] < 256,
            0 <= q2 < 0x10000,
            0 <= q3 < 256,
    ;
    assert(q2 % 256 == b[o + 2]);
    assert(q3 % 256 == b[o + 3]);
}

/// Storing recovers the pattern a signed read came from.
proof fn lemma_u32_i32_roundtrip(x: u32)
    ensures
        u32_of_i32(i32_of_u32(x)) == x,
{
}

/// Encoding inverts a signed 32-bit read.
proof fn lemma_i32_inverse(b: Seq<u8>, o: int)
    requires
        0 <= o,
        o + 4 <= b.len(),
    ensures
        encode_i32(le_i32(b, o)) =~= b.subrange(o, o + 4),
{
    lemma_u32_i32_roundtrip(le32(b, o));
    lemma_le32_inverse(b, o);
}

/// Re-encoding the header reproduces the first 37 bytes.
proof fn lemma_header_region(b: Seq<u8>)
    requires
        header_ok(b),
    ensures
        encode_header(spec_header(b)) =~= b.subrange(0, 37),
{
    let h = spec_header(b);
    assert(encode_banner() =~= b.subrange(0, 13));
    lemma_le16_inverse(b, 13);
    assert(encode_u16(24) =~= b.subrange(13, 15));
    lemma_le16_inverse(b, 15);
    lemma_i32_inverse(b, 17);
    lemma_i32_inverse(b, 21);
    lemma_le16_inverse(b, 25);
    lemma_le16_inverse(b, 27);
    lemma_i32_inverse(b, 29);
    lemma_le16_inverse(b, 33);
    lemma_le16_inverse(b, 35);
    assert(encode_banner() + encode_u16(24) =~= b.subrange(0, 15));
    assert(encode_banner() + encode_u16(24) + encode_u16(h.num_meshes) =~= b.subrange(0, 17));
    assert(encode_banner() + encode_u16(24) + encode_u16(h.num_meshes) + encode_i32(h.num_verts)
        =~= b.subrange(0, 21));
    assert(encode_banner() + encode_u16(24) + encode_u16(h.num_meshes) + encode_i32(h.num_verts)
        + encode_i32(h.num_faces) =~= b.subrange(0, 25));
    assert(encode_banner() + encode_u16(24) + encode_u16(h.num_meshes) + encode_i32(h.num_verts)
        + encode_i32(h.num_faces) + encode_u16(h.num_lods) =~= b.subrange(0, 27));
    assert(encode_banner() + encode_u16(24) + encode_u16(h.num_meshes) + encode_i32(h.num_verts)
        + encode_i32(h.num_faces) + encode_u16(h.num_lods) + encode_u16(h.num_bones)
        =~= b.subrange(0, 29));
    assert(encode_banner() + encode_u16(24) + encode_u16(h.num_meshes) + encode_i32(h.num_verts)
        + encode_i32(h.num_faces) + encode_u16(h.num_lods) + encode_u16(h.num_bones) + encode_i32(
        h.name_table_size,
    ) =~= b.subrange(0, 33));
    assert(encode_banner() + encode_u16(24) + encode_u16(h.num_meshes) + encode_i32(h.num_verts)
        + encode_i32(h.num_faces) + encode_u16(h.num_lods) + encode_u16(h.num_bones) + encode_i32(
        h.name_table_size,
    ) + encode_u16(h.num_skin_data) =~= b.subrange(0, 35));
    assert(encode_header(h) =~= b.subrange(0, 37));
}

/// Re-encoding one vertex reproduces its 40-byte record.
#[verifier::rlimit(100)]
proof fn lemma_vertex_bytes(b: Seq<u8>, h: RobloxMeshHeader, i: int, v: RobloxMeshVertex)
    requires
        vert_matches(b, h, i, v),
        0 <= i,
        verts_off() + 40 * i + 40 <= b.len(),
    ensures
        encode_vertex(v) =~= b.subrange(verts_off() + 40 * i, verts_off() + 40 * i + 40),
{
    let o = verts_off() + 40 * i;
    lemma_le32_inverse(b, o);
    lemma_le32_inverse(b, o + 4);
    lemma_le32_inverse(b, o + 8);
    assert(encode_u32(v.position.x) + encode_u32(v.position.y) =~= b.subrange(o, o + 8));
    assert(encode_vec3(v.position) =~= b.subrange(o, o + 12));
    lemma_le32_inverse(b, o + 12);
    lemma_le32_inverse(b, o + 16);
    lemma_le32_inverse(b, o + 20);
    assert(encode_u32(v.normal.x) + encode_u32(v.normal.y) =~= b.subrange(o + 12, o + 20));
    assert(encode_vec3(v.normal) =~= b.subrange(o + 12, o + 24));
    lemma_le32_inverse(b, o + 24);
    lemma_le32_inverse(b, o + 28);
    lemma_le32_inverse(b, o + 32);
    assert(encode_u32(v.uv.x) + encode_u32(v.uv.y) =~= b.subrange(o + 24, o + 32));
    assert(encode_vec3(v.uv) =~= b.subrange(o + 24, o + 36));
    lemma_i32_inverse(b, o + 36);
    assert(encode_vec3(v.position) + encode_vec3(v.normal) =~= b.subrange(o, o + 24));
    assert(encode_vec3(v.position) + encode_vec3(v.normal) + encode_vec3(v.uv) =~= b.subrange(
        o,
        o + 36,
    ));
    assert(encode_vertex(v) =~= b.subrange(o, o + 40));
}

/// Re-encoding the first `n` vertices reproduces their region.
#[verifier::rlimit(100)]
proof fn lemma_verts_region(b: Seq<u8>, h: RobloxMeshHeader, vs: Seq<RobloxMeshVertex>, n: int)
    requires
        0 <= n <= vs.len(),
        vs.len() == nv_of(h),
        weights_off(h) <= b.len(),
        forall|i: int| 0 <= i < nv_of(h) ==> vert_matches(b, h, i, #[trigger] vs[i]),
    ensures
        encode_verts(vs, n) =~= b.subrange(37, 37 + 40 * n),
    decreases n,
{
    if n > 0 {
        lemma_verts_region(b, h, vs, n - 1);
        lemma_vertex_bytes(b, h, n - 1, vs[n - 1]);
        assert(encode_verts(vs, n - 1) =~= b.subrange(37, 37 + 40 * (n - 1)));
        assert(encode_vertex(vs[n - 1]) =~= b.subrange(37 + 40 * (n - 1), 37 + 40 * n));
        assert(encode_verts(vs, n) == encode_verts(vs, n - 1) + encode_vertex(vs[n - 1]));
        assert(encode_verts(vs, n) =~= b.subrange(37, 37 + 40 * n));
    }
}

/// Re-encoding the first `n` bone-weight records reproduces their region.
proof fn lemma_weights_region(b: Seq<u8>, h: RobloxMeshHeader, vs: Seq<RobloxMeshVertex>, n: int)
    requires
        0 <= n <= vs.len(),
        vs.len() == nv_of(h),
        h.num_bones > 0,
        faces_off(h) <= b.len(),
        forall|i: int| 0 <= i < nv_of(h) ==> vert_matches(b, h, i, #[trigger] vs[i]),
    ensures
        encode_all_weights(vs, n) =~= b.subrange(weights_off(h), weights_off(h) + 8 * n),
    decreases n,
{
    if n > 0 {
        lemma_weights_region(b, h, vs, n - 1);
        let o = weights_off(h) + 8 * (n - 1);
        assert(vert_matches(b, h, n - 1, vs[n - 1]));
        assert(encode_weights(vs[n - 1].weights) =~= b.subrange(o, o + 8));
        assert(encode_all_weights(vs, n) =~= b.subrange(weights_off(h), weights_off(h) + 8 * n));
    }
}

/// Re-encoding the first `n` faces reproduces their region.
#[verifier::rlimit(100)]
proof fn lemma_faces_region(b: Seq<u8>, h: RobloxMeshHeader, fs: Seq<[i32; 3]>, n: int)
    requires
        0 <= n <= fs.len(),
        fs.len() == nf_of(h),
        lods_off(h) <= b.len(),
        forall|j: int| 0 <= j < nf_of(h) ==> face_matches(b, h, j, #[trigger] fs[j]),
    ensures
        encode_faces(fs, n) =~= b.subrange(faces_off(h), faces_off(h) + 12 * n),
    decreases n,
{
    if n > 0 {
        lemma_faces_region(b, h, fs, n - 1);
        let o = faces_off(h) + 12 * (n - 1);
        assert(face_matches(b, h, n - 1, fs[n - 1]));
        lemma_i32_inverse(b, o);
        lemma_i32_inverse(b, o + 4);
        lemma_i32_inverse(b, o + 8);
        assert(encode_i32(fs[n - 1]@[0]) + encode_i32(fs[n - 1]@[1]) =~= b.subrange(o, o + 8));
        assert(encode_face(fs[n - 1]) =~= b.subrange(o, o + 12));
        assert(encode_faces(fs, n - 1) =~= b.subrange(faces_off(h), o));
        assert(encode_faces(fs, n) == encode_faces(fs, n - 1) + encode_face(fs[n - 1]));
        assert(encode_faces(fs, n) =~= b.subrange(faces_off(h), faces_off(h) + 12 * n));
    }
}

/// Re-encoding the first `n` boundaries reproduces their region.
proof fn lemma_lods_region(b: Seq<u8>, h: RobloxMeshHeader, ls: Seq<i32>, n: int)
    requires
        0 <= n <= ls.len(),
        ls.len() == nl_of(h),
        total_len(h) <= b.len(),
        forall|k: int| 0 <= k < nl_of(h) ==> #[trigger] ls[k] == le_i32(b, lods_off(h) + 4 * k),
    ensures
        encode_lods(ls, n) =~= b.subrange(lods_off(h), lods_off(h) + 4 * n),
    decreases n,
{
    if n > 0 {
        lemma_lods_region(b, h, ls, n - 1);
        let o = lods_off(h) + 4 * (n - 1);
        lemma_i32_inverse(b, o);
        assert(encode_lods(ls, n) =~= b.subrange(lods_off(h), lods_off(h) + 4 * n));
    }
}

/// Decoding then re-encoding the structural fields round-trips byte for
/// byte: the encoder reproduces exactly the prefix of the input that the
/// decoder consumed.
#[verifier::rlimit(100)]
pub proof fn lemma_encode_round_trip(m: RobloxMesh, b: Seq<u8>)
    requires
        decode_ok(b),
        decoded_from(m, b),
    ensures
        encode_mesh(m) == b.subrange(0, total_len(spec_header(b))),
{
    let h = spec_header(b);
    let nv = nv_of(h);
    lemma_header_region(b);
    lemma_verts_region(b, h, m.vertices@, nv);
    assert(encode_header(h) + encode_verts(m.vertices@, nv) =~= b.subrange(0, weights_off(h)));
    let pre_faces = encode_header(h) + encode_verts(m.vertices@, nv) + (if h.num_bones > 0 {
        encode_all_weights(m.vertices@, nv)
    } else {
        Seq::<u8>::empty()
    });
    if h.num_bones > 0 {
        lemma_weights_region(b, h, m.vertices@, nv);
        assert(pre_faces =~= b.subrange(0, faces_off(h)));
    } else {
        assert(pre_faces =~= b.subrange(0, faces_off(h)));
    }
    lemma_faces_region(b, h, m.faces@, nf_of(h));
    assert(pre_faces + encode_faces(m.faces@, nf_of(h)) =~= b.subrange(0, lods_off(h)));
    lemma_lods_region(b, h, m.lods@, nl_of(h));
    assert(pre_faces + encode_faces(m.faces@, nf_of(h)) + encode_lods(m.lods@, nl_of(h))
        =~= b.subrange(0, total_len(h)));
    assert(encode_mesh(m) =~= b.subrange(0, total_len(h)));
}

/// Little-endian 16-bit read.
fn read_u16_at(data: &[u8], pos: usize) -> (r: u16)
    requires
        pos + 2 <= data@.len(),
    ensures
        r == le16(data@, pos as int),
{
    data[pos] as u16 + data[pos + 1] as u16 * 256
}

/// Little-endian 32-bit read.
fn read_u32_at(data: &[u8], pos: usize) -> (r: u32)
    requires
        pos + 4 <= data@.len(),
    ensures
        r == le32(data@, pos as int),
{
    data[pos] as u32 + data[pos + 1] as u32 * 256 + data[pos + 2] as u32 * 65536 + data[pos
        + 3] as u32 * 16777216
}

/// Two's-complement reinterpretation, computed without a truncating cast.
fn i32_from_u32(x: u32) -> (r: i32)
    ensures
        r == i32_of_u32(x),
{
    if x >= 0x8000_0000 {
        let v: i64 = x as i64 - 0x1_0000_0000i64;
        v as i32
    } else {
        x as i32
    }
}

/// Little-endian signed 32-bit read.
fn read_i32_at(data: &[u8], pos: usize) -> (r: i32)
    requires
        pos + 4 <= data@.len(),
    ensures
        r == le_i32(data@, pos as int),
{
    i32_from_u32(read_u32_at(data, pos))
}

impl RobloxMesh {
    /// The zero vector both derived boxes start from.
    fn default_vector() -> (r: Vector3)
        ensures
            r == spec_v3_zero(),
    {
        Vector3 { x: 0, y: 0, z: 0 }
    }

    /// Validates the banner and the header-size field, then reads the
    /// header.  Reports exactly `header_err` on failure.
    pub fn read_header(data: &[u8]) -> (r: Result<RobloxMeshHeader, DecodeError>)
        ensures
            match r {
                Ok(h) => header_ok(data@) && h == spec_header(data@),
                Err(e) => !header_ok(data@) && e == header_err(data@),
            },
    {
        if data.len() < 13 {
            return Err(DecodeError::Truncated);
        }
        let banner_good = data[0] == 118 && data[1] == 101 && data[2] == 114 && data[3] == 115
            && data[4] == 105 && data[5] == 111 && data[6] == 110 && data[7] == 32 && data[8] == 52
            && data[9] == 46 && data[10] == 48 && data[11] == 48 && data[12] == 10;
        if !banner_good {
            return Err(DecodeError::BadFormat);
        }
        if data.len() < 15 {
            return Err(DecodeError::Truncated);
        }
        if read_u16_at(data, 13) != 24 {
            return Err(DecodeError::BadFormat);
        }
        if data.len() < 37 {
            return Err(DecodeError::Truncated);
        }
        Ok(
            RobloxMeshHeader {
                num_meshes: read_u16_at(data, 15),
                num_verts: read_i32_at(data, 17),
                num_faces: read_i32_at(data, 21),
                num_lods: read_u16_at(data, 25),
                num_bones: read_u16_at(data, 27),
                name_table_size: read_i32_at(data, 29),
                num_skin_data: read_u16_at(data, 33),
                stub: read_u16_at(data, 35),
            },
        )
    }

    /// A vector of three consecutive 32-bit patterns.
    fn read_vector3(data: &[u8], pos: usize) -> (r: Vector3)
        requires
            pos + 12 <= data@.len(),
        ensures
            r == spec_vec3_at(data@, pos as int),
    {
        let n = data.len();
        assert(pos + 12 <= n);
        Vector3 {
            x: read_u32_at(data, pos),
            y: read_u32_at(data, pos + 4),
            z: read_u32_at(data, pos + 8),
        }
    }

    /// One 8-byte bone-weight record.
    fn read_vert_weights(data: &[u8], pos: usize) -> (r: RobloxBoneWeights)
        requires
            pos + 8 <= data@.len(),
        ensures
            r.bones@ =~= seq![
                data@[pos as int],
                data@[pos + 1],
                data@[pos + 2],
                data@[pos + 3],
            ],
            r.weights@ =~= seq![
                data@[pos + 4],
                data@[pos + 5],
                data@[pos + 6],
                data@[pos + 7],
            ],
    {
        RobloxBoneWeights {
            bones: [data[pos], data[pos + 1], data[pos + 2], data[pos + 3]],
            weights: [data[pos + 4], data[pos + 5], data[pos + 6], data[pos + 7]],
        }
    }

    /// Reads the vertex records and, when the mesh has bones, the trailing
    /// bone-weight block.  On success the returned position is the face
    /// block's offset.
    fn read_verts(header: &RobloxMeshHeader, data: &[u8], start: usize) -> (r: Result<
        (Vec<RobloxMeshVertex>, usize),
        DecodeError,
    >)
        requires
            start as int == verts_off(),
            start <= data@.len(),
        ensures
            match r {
                Ok(p) => {
                    &&& data@.len() >= faces_off(*header)
                    &&& p.1 as int == faces_off(*header)
                    &&& p.0@.len() == nv_of(*header)
                    &&& forall|i: int|
                        0 <= i < nv_of(*header) ==> vert_matches(
                            data@,
                            *header,
                            i,
                            #[trigger] p.0@[i],
                        )
                },
                Err(e) => data@.len() < faces_off(*header) && e == DecodeError::Truncated,
            },
    {
        let n: usize = if header.num_verts > 0 {
            header.num_verts as usize
        } else {
            0
        };
        let mut verts: Vec<RobloxMeshVertex> = Vec::new();
        let mut pos: usize = start;
        let mut i: usize = 0;
        while i < n
            invariant
                0 <= i <= n,
                n == nv_of(*header),
                pos <= data@.len(),
                pos as int == verts_off() + 40 * i,
                verts@.len() == i,
                forall|k: int|
                    0 <= k < i ==> {
                        let o = verts_off() + 40 * k;
                        &&& (#[trigger] verts@[k]).position == spec_vec3_at(data@, o)
                        &&& verts@[k].normal == spec_vec3_at(data@, o + 12)
                        &&& verts@[k].uv == spec_vec3_at(data@, o + 24)
                        &&& verts@[k].color == le_i32(data@, o + 36)
                        &&& verts@[k].weights.bones@ =~= seq![0u8, 0u8, 0u8, 0u8]
                        &&& verts@[k].weights.weights@ =~= seq![0u8, 0u8, 0u8, 0u8]
                    },
            decreases n - i,
        {
            if data.len() - pos < 40 {
                return Err(DecodeError::Truncated);
            }
            let v = RobloxMeshVertex {
                position: Self::read_vector3(data, pos),
                normal: Self::read_vector3(data, pos + 12),
                uv: Self::read_vector3(data, pos + 24),
                color: read_i32_at(data, pos + 36),
                weights: RobloxBoneWeights { bones: [0, 0, 0, 0], weights: [0, 0, 0, 0] },
            };
            verts.push(v);
            pos = pos + 40;
            i = i + 1;
        }

        if header.num_bones > 0 {
            let mut j: usize = 0;
            while j < n
                invariant
                    0 <= j <= n,
                    n == nv_of(*header),
                    header.num_bones > 0,
                    pos <= data@.len(),
                    pos as int == weights_off(*header) + 8 * j,
                    verts@.len() == n,
                    forall|k: int|
                        0 <= k < n ==> {
                            let o = verts_off() + 40 * k;
                            &&& (#[trigger] verts@[k]).position == spec_vec3_at(data@, o)
                            &&& verts@[k].normal == spec_vec3_at(data@, o + 12)
                            &&& verts@[k].uv == spec_vec3_at(data@, o + 24)
                            &&& verts@[k].color == le_i32(data@, o + 36)
                        },
                    forall|k: int|
                        0 <= k < j ==> weights_match(
                            data@,
                            *header,
                            k,
                            (#[trigger] verts@[k]).weights,
                        ),
                decreases n - j,
            {
                if data.len() - pos < 8 {
                    return Err(DecodeError::Truncated);
                }
                let w = Self::read_vert_weights(data, pos);
                let v = verts[j];
                verts[j] = RobloxMeshVertex {
                    position: v.position,
                    normal: v.normal,
                    uv: v.uv,
                    color: v.color,
                    weights: w,
                };
                pos = pos + 8;
                j = j + 1;
            }
        }
        Ok((verts, pos))
    }

    /// Reads the face records.  On success the returned position is the
    /// level-of-detail block's offset.
    fn read_faces(header: &RobloxMeshHeader, data: &[u8], start: usize) -> (r: Result<
        (Vec<[i32; 3]>, usize),
        DecodeError,
    >)
        requires
            start as int == faces_off(*header),
            start <= data@.len(),
        ensures
            match r {
                Ok(p) => {
                    &&& data@.len() >= lods_off(*header)
                    &&& p.1 as int == lods_off(*header)
                    &&& p.0@.len() == nf_of(*header)
                    &&& forall|j: int|
                        0 <= j < nf_of(*header) ==> face_matches(
                            data@,
                            *header,
                            j,
                            #[trigger] p.0@[j],
                        )
                },
                Err(e) => data@.len() < lods_off(*header) && e == DecodeError::Truncated,
            },
    {
        let n: usize = if header.num_faces > 0 {
            header.num_faces as usize
        } else {
            0
        };
        let mut faces: Vec<[i32; 3]> = Vec::new();
        let mut pos: usize = start;
        let mut j: usize = 0;
        while j < n
            invariant
                0 <= j <= n,
                n == nf_of(*header),
                pos <= data@.len(),
                pos as int == faces_off(*header) + 12 * j,
                faces@.len() == j,
                forall|k: int|
                    0 <= k < j ==> face_matches(data@, *header, k, #[trigger] faces@[k]),
            decreases n - j,
        {
            if data.len() - pos < 12 {
                return Err(DecodeError::Truncated);
            }
            let f = [read_i32_at(data, pos), read_i32_at(data, pos + 4), read_i32_at(data, pos + 8)];
            faces.push(f);
            pos = pos + 12;
            j = j + 1;
        }
        Ok((faces, pos))
    }

    /// Reads the level-of-detail boundaries.
    fn read_lods(header: &RobloxMeshHeader, data: &[u8], start: usize) -> (r: Result<
        (Vec<i32>, usize),
        DecodeError,
    >)
        requires
            start as int == lods_off(*header),
            start <= data@.len(),
        ensures
            match r {
                Ok(p) => {
                    &&& data@.len() >= total_len(*header)
                    &&& p.1 as int == total_len(*header)
                    &&& p.0@.len() == nl_of(*header)
                    &&& forall|k: int|
                        0 <= k < nl_of(*header) ==> #[trigger] p.0@[k] == le_i32(
                            data@,
                            lods_off(*header) + 4 * k,
                        )
                },
                Err(e) => data@.len() < total_len(*header) && e == DecodeError::Truncated,
            },
    {
        let n: usize = header.num_lods as usize;
        let mut lods: Vec<i32> = Vec::new();
        let mut pos: usize = start;
        let mut k: usize = 0;
        while k < n
            invariant
                0 <= k <= n,
                n == nl_of(*header),
                pos <= data@.len(),
                pos as int == lods_off(*header) + 4 * k,
                lods@.len() == k,
                forall|t: int|
                    0 <= t < k ==> #[trigger] lods@[t] == le_i32(data@, lods_off(*header) + 4 * t),
            decreases n - k,
        {
            if data.len() - pos < 4 {
                return Err(DecodeError::Truncated);
            }
            lods.push(read_i32_at(data, pos));
            pos = pos + 4;
            k = k + 1;
        }
        Ok((lods, pos))
    }

    /// Scans the vertices for the extreme under `rule`, removes it from
    /// the vector, and returns it.
    fn get_vertex_and_remove(items: &mut Vec<RobloxMeshVertex>, rule: Extreme) -> (g:
        RobloxMeshVertex)
        requires
            old(items)@.len() >= 1,
        ensures
            ({
                let k = sel_idx(rule, old(items)@, old(items)@.len() as int);
                &&& g == old(items)@[k]
                &&& final(items)@ == old(items)@.remove(k)
            }),
    {
        let ghost s = items@;
        let mut g_idx: usize = 0;
        let mut g_item = items[0];
        let n = items.len();
        let mut idx: usize = 1;
        while idx < n
            invariant
                1 <= idx <= n,
                n == s.len(),
                items@ == s,
                g_idx < idx,
                g_idx as int == sel_idx(rule, s, idx as int),
                g_item == s[g_idx as int],
            decreases n - idx,
        {
            let cand = items[idx];
            let take = match rule {
                Extreme::MinX => lt_bits(cand.position.x, g_item.position.x),
                Extreme::MaxX => gt_bits(cand.position.x, g_item.position.x),
                Extreme::MinZ => lt_bits(cand.position.z, g_item.position.z),
                Extreme::MaxZ => gt_bits(cand.position.z, g_item.position.z),
            };
            if take {
                g_item = cand;
                g_idx = idx;
            }
            idx = idx + 1;
        }
        items.remove(g_idx);
        g_item
    }

    /// Recomputes the componentwise bounding box from the vertex
    /// positions.
    pub fn calculate_bounding_box_size(&mut self)
        requires
            old(self).vertices@.len() >= 1,
        ensures
            final(self).bounding_box_size == spec_bb_size(old(self).vertices@),
            final(self).header == old(self).header,
            final(self).lods == old(self).lods,
            final(self).faces == old(self).faces,
            final(self).vertices == old(self).vertices,
            final(self).bounding_box == old(self).bounding_box,
            final(self).rotation == old(self).rotation,
            final(self).triangles == old(self).triangles,
            final(self).hash == old(self).hash,
    {
        let ghost vs = old(self).vertices@;
        let first = self.vertices[0].position;
        let mut min = first;
        let mut max = first;
        let n = self.vertices.len();
        let mut i: usize = 0;
        while i < n
            invariant
                *self == *old(self),
                0 <= i <= n,
                n == vs.len(),
                self.vertices@ == vs,
                min.x == fold_min(pos_xs(vs), i as int),
                min.y == fold_min(pos_ys(vs), i as int),
                min.z == fold_min(pos_zs(vs), i as int),
                max.x == fold_max(pos_xs(vs), i as int),
                max.y == fold_max(pos_ys(vs), i as int),
                max.z == fold_max(pos_zs(vs), i as int),
            decreases n - i,
        {
            let pos = self.vertices[i].position;
            if lt_bits(pos.x, min.x) {
                min.x = pos.x;
            }
            if lt_bits(pos.y, min.y) {
                min.y = pos.y;
            }
            if lt_bits(pos.z, min.z) {
                min.z = pos.z;
            }
            if gt_bits(pos.x, max.x) {
                max.x = pos.x;
            }
            if gt_bits(pos.y, max.y) {
                max.y = pos.y;
            }
            if gt_bits(pos.z, max.z) {
                max.z = pos.z;
            }
            i = i + 1;
        }
        self.bounding_box_size = RobloxMeshBoundingBoxSize { min, max };
    }

    /// Recomputes the four extreme positions with four selection scans
    /// over a working copy of the vertex vector.
    pub fn calculate_bounding_box(&mut self)
        requires
            old(self).vertices@.len() >= 4,
        ensures
            final(self).bounding_box == spec_bb4(old(self).vertices@),
            final(self).header == old(self).header,
            final(self).lods == old(self).lods,
            final(self).faces == old(self).faces,
            final(self).vertices == old(self).vertices,
            final(self).bounding_box_size == old(self).bounding_box_size,
            final(self).rotation == old(self).rotation,
            final(self).triangles == old(self).triangles,
            final(self).hash == old(self).hash,
    {
        let ghost vs = old(self).vertices@;
        let mut vertices: Vec<RobloxMeshVertex> = Vec::new();
        let n = self.vertices.len();
        let mut i: usize = 0;
        while i < n
            invariant
                *self == *old(self),
                0 <= i <= n,
                n == vs.len(),
                self.vertices@ == vs,
                vertices@ =~= vs.subrange(0, i as int),
            decreases n - i,
        {
            vertices.push(self.vertices[i]);
            i = i + 1;
        }
        assert(vertices@ =~= vs);

        proof {
            lemma_sel_idx_in_range(Extreme::MinX, vs, vs.len() as int);
        }
        let min_x = Self::get_vertex_and_remove(&mut vertices, Extreme::MinX);
        proof {
            lemma_sel_idx_in_range(Extreme::MaxX, vertices@, vertices@.len() as int);
        }
        let max_x = Self::get_vertex_and_remove(&mut vertices, Extreme::MaxX);
        proof {
            lemma_sel_idx_in_range(Extreme::MinZ, vertices@, vertices@.len() as int);
        }
        let min_z = Self::get_vertex_and_remove(&mut vertices, Extreme::MinZ);
        proof {
            lemma_sel_idx_in_range(Extreme::MaxZ, vertices@, vertices@.len() as int);
        }
        let max_z = Self::get_vertex_and_remove(&mut vertices, Extreme::MaxZ);

        self.bounding_box = RobloxMeshBoundingBox {
            min_x: min_x.position,
            max_x: max_x.position,
            min_z: min_z.position,
            max_z: max_z.position,
        };
    }

    /// Recomputes the dedup fingerprint from the triangle count and the
    /// bounding box.
    pub fn calculate_hash(&mut self)
        ensures
            final(self).hash == spec_hash_parts(old(self).triangles, old(self).bounding_box_size),
            final(self).header == old(self).header,
            final(self).lods == old(self).lods,
            final(self).faces == old(self).faces,
            final(self).vertices == old(self).vertices,
            final(self).bounding_box == old(self).bounding_box,
            final(self).bounding_box_size == old(self).bounding_box_size,
            final(self).rotation == old(self).rotation,
            final(self).triangles == old(self).triangles,
    {
        let bb = self.bounding_box_size;
        let s1 = add_bits(bb.min.x, bb.min.y);
        let s2 = add_bits(s1, bb.min.z);
        let m1 = add_bits(bb.max.x, bb.max.y);
        let m2 = add_bits(m1, bb.max.z);
        let a = abs_bits(s2);
        let t = add_bits(a, m2);
        let c = trunc_bits(t);
        proof {
            let mn = fadd(fadd(bb.min.x, bb.min.y), bb.min.z);
            let mx = fadd(fadd(bb.max.x, bb.max.y), bb.max.z);
            lemma_fadd_congruent(s1, fadd(bb.min.x, bb.min.y), bb.min.z, bb.min.z);
            lemma_fadd_congruent(m1, fadd(bb.max.x, bb.max.y), bb.max.z, bb.max.z);
            lemma_fmag_congruent(s2, mn);
            lemma_fadd_congruent(a, f32_mag(mn), m2, mx);
            lemma_ftrunc_congruent(t, fadd(f32_mag(mn), mx));
        }
        self.hash = self.triangles.wrapping_add(c);
    }

    /// The corrective rotation applied when a duplicate is rewritten to
    /// its canonical representative.  The angle derivation is deliberately
    /// the zero rotation: the bounding-box comparison it should use has no
    /// settled formula yet.
    pub fn calculate_rotation(self, mesh2: &RobloxMesh) -> (r: Vector3)
        ensures
            r == spec_v3_zero(),
    {
        Vector3 { x: 0, y: 0, z: 0 }
    }

    /// Decodes a byte buffer, deriving the bounding boxes, the triangle
    /// count and the dedup fingerprint.  Succeeds exactly on `decode_ok`
    /// inputs, reports exactly `decode_err` otherwise, and pins every
    /// field of the result to the input bytes.
    pub fn from_cursor(data: &[u8]) -> (r: Result<RobloxMesh, DecodeError>)
        ensures
            match r {
                Ok(m) => decode_ok(data@) && decoded_from(m, data@),
                Err(e) => !decode_ok(data@) && e == decode_err(data@),
            },
    {
        let header = match Self::read_header(data) {
            Ok(h) => h,
            Err(e) => {
                return Err(e);
            },
        };
        let (vertices, pos) = match Self::read_verts(&header, data, 37) {
            Ok(p) => p,
            Err(e) => {
                return Err(e);
            },
        };
        let (faces, pos) = match Self::read_faces(&header, data, pos) {
            Ok(p) => p,
            Err(e) => {
                return Err(e);
            },
        };
        let (lods, _pos) = match Self::read_lods(&header, data, pos) {
            Ok(p) => p,
            Err(e) => {
                return Err(e);
            },
        };
        if header.num_verts <= 0 {
            return Err(DecodeError::Empty);
        }

        let mut mesh = RobloxMesh {
            header,
            vertices,
            faces,
            lods,
            hash: 0,
            triangles: 0,
            rotation: Self::default_vector(),
            bounding_box: RobloxMeshBoundingBox {
                min_x: Self::default_vector(),
                max_x: Self::default_vector(),
                min_z: Self::default_vector(),
                max_z: Self::default_vector(),
            },
            bounding_box_size: RobloxMeshBoundingBoxSize {
                min: Self::default_vector(),
                max: Self::default_vector(),
            },
        };

        if mesh.lods.len() > 1 {
            mesh.triangles = mesh.lods[1].wrapping_sub(mesh.lods[0]);
        }

        mesh.calculate_bounding_box_size();
        proof {
            let b = data@;
            let h = spec_header(b);
            assert forall|i: int| 0 <= i < nv_of(h) implies pos_xs(mesh.vertices@)[i] == byte_pos_xs(
                b,
            )[i] by {
                assert(vert_matches(b, h, i, mesh.vertices@[i]));
            };
            assert(pos_xs(mesh.vertices@) =~= byte_pos_xs(b));
            assert forall|i: int| 0 <= i < nv_of(h) implies pos_ys(mesh.vertices@)[i] == byte_pos_ys(
                b,
            )[i] by {
                assert(vert_matches(b, h, i, mesh.vertices@[i]));
            };
            assert(pos_ys(mesh.vertices@) =~= byte_pos_ys(b));
            assert forall|i: int| 0 <= i < nv_of(h) implies pos_zs(mesh.vertices@)[i] == byte_pos_zs(
                b,
            )[i] by {
                assert(vert_matches(b, h, i, mesh.vertices@[i]));
            };
            assert(pos_zs(mesh.vertices@) =~= byte_pos_zs(b));
        }
        if mesh.vertices.len() >= 4 {
            mesh.calculate_bounding_box();
        }
        mesh.calculate_hash();

        Ok(mesh)
    }
}

} // verus!
