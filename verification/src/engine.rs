//! The deduplication engine.
//!
//! Candidate scene objects are processed in the caller-supplied order.
//! An object whose texture or mesh identifier is blank after trimming is
//! skipped untouched.  Otherwise its fetched mesh bytes are decoded, and
//! the mesh's fingerprint decides: the first object to carry a fingerprint
//! becomes its canonical representative; every later object with the same
//! fingerprint is rewritten to reference the representative's asset,
//! taking the representative's size fields and composing its own transform
//! with a corrective rotation.
//!
//! The whole run is all-or-nothing: if any fetch failed, nothing is
//! decoded and nothing is modified; if any mesh fails to decode, the run
//! aborts with nothing modified.

use crate::cframe::{cframe_sim, is_angles_of, spec_cf_mult, CFrame};
use crate::mesh_reader::{decode_err, decode_ok, spec_mesh_hash, DecodeError, RobloxMesh};
use crate::cframe::Vector3;
use vstd::prelude::*;
use vstd::string::StrSliceExecFns;

verus! {

/// A candidate scene object's dedup-relevant properties, read from and
/// written back to the scene graph by the caller.
#[derive(Debug, Clone)]
pub struct SceneObject {
    pub texture_id: String,
    pub mesh_id: String,
    pub init_size: Vector3,
    pub size: Vector3,
    pub cframe: CFrame,
}

/// ASCII whitespace, the characters trimming removes here.
pub open spec fn is_space(c: char) -> bool {
    c == ' ' || c == '\t' || c == '\n' || c == '\r' || c as u32 == 11 || c as u32 == 12
}

/// Blank after trimming: every character is whitespace (an empty string is
/// blank).
pub open spec fn spec_blank(s: Seq<char>) -> bool {
    forall|k: int| 0 <= k < s.len() ==> is_space(#[trigger] s[k])
}

/// Whether a string is blank after trimming.
pub fn is_blank(s: &str) -> (r: bool)
    ensures
        r == spec_blank(s@),
{
    let n = s.unicode_len();
    let mut i: usize = 0;
    while i < n
        invariant
            0 <= i <= n,
            n == s@.len(),
            forall|k: int| 0 <= k < i ==> is_space(#[trigger] s@[k]),
        decreases n - i,
    {
        let c = s.get_char(i);
        let u = c as u32;
        let space = c == ' ' || c == '\t' || c == '\n' || c == '\r' || u == 11 || u == 12;
        if !space {
            return false;
        }
        i = i + 1;
    }
    true
}

/// An object is skipped when either identifying property is blank.
pub open spec fn obj_blank(o: SceneObject) -> bool {
    spec_blank(o.texture_id@) || spec_blank(o.mesh_id@)
}

/// What the engine did with one object.
#[derive(Debug, Clone, Copy, PartialEq, Eq, Structural)]
pub enum DedupOutcome {
    /// Texture or mesh identifier blank after trimming: left untouched and
    /// excluded from the dedup map.
    Skipped,
    /// First occurrence of its fingerprint: recorded as the canonical
    /// representative, left untouched.
    Cached,
    /// Duplicate of the object at index `rep`: rewritten to reference it.
    Rewritten { rep: usize },
}

/// Why a run aborts with nothing modified.
#[derive(Debug, Clone, Copy, PartialEq, Eq, Structural)]
pub enum RunError {
    /// Some fetch in the batch failed; no mesh is decoded at all.
    BatchFailed,
    /// A fetched mesh failed to decode.
    Decode(DecodeError),
}

/// The representative index a `Rewritten` outcome carries.
pub open spec fn rep_of(o: DedupOutcome) -> int {
    match o {
        DedupOutcome::Rewritten { rep } => rep as int,
        _ => -1,
    }
}

/// The mesh bytes per object, once every fetch is known to have succeeded.
pub open spec fn datas_of(fetched: Seq<Option<Vec<u8>>>) -> Seq<Seq<u8>> {
    Seq::new(fetched.len(), |i: int| fetched[i]->Some_0@)
}

/// Every fetch of the batch succeeded.
pub open spec fn all_fetched(fetched: Seq<Option<Vec<u8>>>) -> bool {
    forall|i: int| 0 <= i < fetched.len() ==> fetched[i] is Some
}

/// The dedup map after the first `n` objects: each fingerprint maps to the
/// index of its first-encountered non-blank carrier.
pub open spec fn rep_map(objs: Seq<SceneObject>, datas: Seq<Seq<u8>>, n: int) -> Map<i32, int>
    decreases n,
{
    if n <= 0 {
        Map::empty()
    } else {
        let m = rep_map(objs, datas, n - 1);
        let i = n - 1;
        if obj_blank(objs[i]) {
            m
        } else {
            let k = spec_mesh_hash(datas[i]);
            if m.dom().contains(k) {
                m
            } else {
                m.insert(k, i)
            }
        }
    }
}

/// The outcome the scan assigns to object `i`, a pure function of the
/// input order, the objects and the fetched bytes.
pub open spec fn spec_outcome(objs: Seq<SceneObject>, datas: Seq<Seq<u8>>, i: int) -> DedupOutcome {
    if obj_blank(objs[i]) {
        DedupOutcome::Skipped
    } else {
        let k = spec_mesh_hash(datas[i]);
        let m = rep_map(objs, datas, i);
        if m.dom().contains(k) {
            DedupOutcome::Rewritten { rep: m[k] as usize }
        } else {
            DedupOutcome::Cached
        }
    }
}

/// Every entry of the dedup map points at a non-blank object before `n`
/// that carries the entry's fingerprint and is the first to do so; and
/// every non-blank object before `n` has its fingerprint in the map.
pub proof fn lemma_rep_map_props(objs: Seq<SceneObject>, datas: Seq<Seq<u8>>, n: int)
    ensures
        forall|k: i32| #[trigger]
            rep_map(objs, datas, n).dom().contains(k) ==> {
                let r = rep_map(objs, datas, n)[k];
                &&& 0 <= r < n
                &&& !obj_blank(objs[r])
                &&& spec_mesh_hash(datas[r]) == k
                &&& forall|j: int|
                    0 <= j < r && !obj_blank(objs[j]) ==> spec_mesh_hash(datas[j]) != k
            },
        forall|j: int|
            0 <= j < n && !obj_blank(#[trigger] objs[j]) ==> rep_map(objs, datas, n).dom().contains(
                spec_mesh_hash(datas[j]),
            ),
    decreases n,
{
    if n > 0 {
        lemma_rep_map_props(objs, datas, n - 1);
        let m0 = rep_map(objs, datas, n - 1);
        let m1 = rep_map(objs, datas, n);
        let i = n - 1;
        if !obj_blank(objs[i]) {
            let k = spec_mesh_hash(datas[i]);
            if !m0.dom().contains(k) {
                assert(m1 == m0.insert(k, i));
                assert forall|j: int| 0 <= j < i && !obj_blank(objs[j]) implies spec_mesh_hash(
                    datas[j],
                ) != k by {
                    assert(m0.dom().contains(spec_mesh_hash(datas[j])));
                }
                assert forall|k2: i32| #[trigger] m1.dom().contains(k2) implies {
                    let r = m1[k2];
                    &&& 0 <= r < n
                    &&& !obj_blank(objs[r])
                    &&& spec_mesh_hash(datas[r]) == k2
                    &&& forall|j: int|
                        0 <= j < r && !obj_blank(objs[j]) ==> spec_mesh_hash(datas[j]) != k2
                } by {
                    if k2 != k {
                        assert(m0.dom().contains(k2));
                        assert(m1[k2] == m0[k2]);
                    }
                }
            }
        }
    }
}

/// Scan-order determinism: a rewritten object's representative is the
/// first non-blank object, in input order, whose mesh carries the same
/// fingerprint, and that representative's own outcome is `Cached`.
pub proof fn lemma_first_is_canonical(objs: Seq<SceneObject>, datas: Seq<Seq<u8>>, i: int)
    requires
        0 <= i < objs.len(),
        objs.len() <= usize::MAX,
        spec_outcome(objs, datas, i) is Rewritten,
    ensures
        ({
            let rep = rep_of(spec_outcome(objs, datas, i));
            &&& 0 <= rep < i
            &&& !obj_blank(objs[rep])
            &&& spec_mesh_hash(datas[rep]) == spec_mesh_hash(datas[i])
            &&& spec_outcome(objs, datas, rep) is Cached
            &&& forall|j: int|
                0 <= j < rep && !obj_blank(objs[j]) ==> spec_mesh_hash(datas[j]) != spec_mesh_hash(
                    datas[i],
                )
        }),
{
    lemma_rep_map_props(objs, datas, i);
    let k = spec_mesh_hash(datas[i]);
    let rep = rep_map(objs, datas, i)[k];
    lemma_rep_map_props(objs, datas, rep);
    if rep_map(objs, datas, rep).dom().contains(spec_mesh_hash(datas[rep])) {
        let r2 = rep_map(objs, datas, rep)[spec_mesh_hash(datas[rep])];
        assert(0 <= r2 < rep && !obj_blank(objs[r2]) && spec_mesh_hash(datas[r2]) == k);
        assert(false);
    }
}

/// First cache entry carrying `key`, if any.
fn cache_find(cache: &Vec<(i32, usize)>, key: i32) -> (r: Option<usize>)
    ensures
        match r {
            Some(ci) => ci < cache@.len() && (#[trigger] cache@[ci as int]).0 == key,
            None => forall|c: int| 0 <= c < cache@.len() ==> (#[trigger] cache@[c]).0 != key,
        },
{
    let n = cache.len();
    let mut c: usize = 0;
    while c < n
        invariant
            0 <= c <= n,
            n == cache@.len(),
            forall|t: int| 0 <= t < c ==> (#[trigger] cache@[t]).0 != key,
        decreases n - c,
    {
        if cache[c].0 == key {
            return Some(c);
        }
        c = c + 1;
    }
    None
}

/// How the scan leaves object `k`: untouched unless its outcome is
/// `Rewritten`; a rewritten object keeps its texture identifier, takes the
/// representative's mesh identifier and size fields, and composes its own
/// transform with a corrective rotation built by `CFrame::angles`.
#[verifier::opaque]
pub open spec fn object_result_ok(
    objs: Seq<SceneObject>,
    datas: Seq<Seq<u8>>,
    cur: Seq<SceneObject>,
    k: int,
) -> bool {
    let oc = spec_outcome(objs, datas, k);
    if oc is Rewritten {
        let rep = rep_of(oc);
        let o2 = cur[k];
        &&& o2.texture_id == objs[k].texture_id
        &&& o2.mesh_id == objs[rep].mesh_id
        &&& o2.size == objs[rep].size
        &&& o2.init_size == objs[rep].init_size
        &&& exists|corr: CFrame| #![auto]
            is_angles_of(corr) && cframe_sim(o2.cframe, spec_cf_mult(objs[k].cframe, corr))
    } else {
        cur[k] == objs[k]
    }
}

/// [`object_result_ok`] reads only entry `k` of the current state.
pub proof fn lemma_object_result_frame(
    objs: Seq<SceneObject>,
    datas: Seq<Seq<u8>>,
    cur1: Seq<SceneObject>,
    cur2: Seq<SceneObject>,
    k: int,
)
    requires
        object_result_ok(objs, datas, cur1, k),
        cur2[k] == cur1[k],
    ensures
        object_result_ok(objs, datas, cur2, k),
{
    reveal(object_result_ok);
}

/// Runs the dedup scan over the candidate objects, with `fetched[i]` the
/// fetch result for object `i`'s mesh asset.
///
/// All-or-nothing: if any fetch failed, the result is
/// `Err(RunError::BatchFailed)` and no byte is decoded and no object
/// touched.  If any mesh fails to decode, the run aborts with the decode
/// error of the first failing object and no object touched.  Otherwise the
/// outcome of every object is the pure fold [`spec_outcome`] of the input
/// order, and every object is left as [`object_result_ok`] states.
pub fn dedup_run(objects: &mut Vec<SceneObject>, fetched: &Vec<Option<Vec<u8>>>) -> (r: Result<
    Vec<DedupOutcome>,
    RunError,
>)
    requires
        old(objects)@.len() == fetched@.len(),
    ensures
        !all_fetched(fetched@) ==> r == Err::<Vec<DedupOutcome>, RunError>(RunError::BatchFailed)
            && final(objects)@ == old(objects)@,
        all_fetched(fetched@) ==> ({
            let objs = old(objects)@;
            let datas = datas_of(fetched@);
            match r {
                Ok(outs) => {
                    &&& outs@.len() == objs.len()
                    &&& final(objects)@.len() == objs.len()
                    &&& forall|i: int|
                        0 <= i < objs.len() && !obj_blank(objs[i]) ==> decode_ok(
                            #[trigger] datas[i],
                        )
                    &&& forall|i: int|
                        0 <= i < objs.len() ==> #[trigger] outs@[i] == spec_outcome(objs, datas, i)
                    &&& forall|i: int|
                        0 <= i < objs.len() ==> object_result_ok(
                            objs,
                            datas,
                            final(objects)@,
                            i,
                        )
                },
                Err(e) => {
                    &&& final(objects)@ == objs
                    &&& exists|i: int| #![auto]
                        {
                            &&& 0 <= i < objs.len()
                            &&& !obj_blank(objs[i])
                            &&& !decode_ok(datas[i])
                            &&& e == RunError::Decode(decode_err(datas[i]))
                            &&& forall|j: int|
                                0 <= j < i && !obj_blank(objs[j]) ==> decode_ok(datas[j])
                        }
                },
            }
        }),
{
    let ghost objs = old(objects)@;
    let ghost datas = datas_of(fetched@);
    let n = objects.len();

    // Batch rule: any failed fetch aborts before anything is decoded.
    let mut i: usize = 0;
    while i < n
        invariant
            0 <= i <= n,
            n == fetched@.len(),
            *objects == *old(objects),
            forall|k: int| 0 <= k < i ==> fetched@[k] is Some,
        decreases n - i,
    {
        if fetched[i].is_none() {
            return Err(RunError::BatchFailed);
        }
        i = i + 1;
    }
    assert(all_fetched(fetched@));

    // Decode every non-blank object's mesh before touching anything.
    let mut meshes: Vec<Option<RobloxMesh>> = Vec::new();
    let mut i: usize = 0;
    while i < n
        invariant
            0 <= i <= n,
            n == fetched@.len(),
            n == objs.len(),
            datas == datas_of(fetched@),
            all_fetched(fetched@),
            *objects == *old(objects),
            objs == old(objects)@,
            meshes@.len() == i,
            forall|k: int| 0 <= k < i ==> (obj_blank(objs[k]) <==> #[trigger] meshes@[k] is None),
            forall|k: int|
                0 <= k < i && !obj_blank(objs[k]) ==> decode_ok(#[trigger] datas[k]) && (
                meshes@[k]->Some_0).hash == spec_mesh_hash(datas[k]),
        decreases n - i,
    {
        let blank = is_blank(objects[i].texture_id.as_str()) || is_blank(
            objects[i].mesh_id.as_str(),
        );
        if blank {
            meshes.push(None);
        } else {
            let bytes: &Vec<u8> = match &fetched[i] {
                Some(b) => b,
                None => {
                    proof {
                        assert(false);
                    }
                    return Err(RunError::BatchFailed);
                },
            };
            proof {
                assert(bytes@ == datas[i as int]);
            }
            match RobloxMesh::from_cursor(bytes.as_slice()) {
                Ok(m) => {
                    meshes.push(Some(m));
                },
                Err(e) => {
                    return Err(RunError::Decode(e));
                },
            }
        }
        i = i + 1;
    }

    // Decide every object's outcome: the first carrier of a fingerprint is
    // cached as canonical, later carriers are rewritten to it.
    let mut cache: Vec<(i32, usize)> = Vec::new();
    let mut outcomes: Vec<DedupOutcome> = Vec::new();
    let mut i: usize = 0;
    while i < n
        invariant
            0 <= i <= n,
            n == objs.len(),
            n == meshes@.len(),
            forall|k: int| 0 <= k < n ==> (obj_blank(objs[k]) <==> #[trigger] meshes@[k] is None),
            forall|k: int|
                0 <= k < n && !obj_blank(objs[k]) ==> (#[trigger] meshes@[k]->Some_0).hash
                    == spec_mesh_hash(datas[k]),
            outcomes@.len() == i,
            forall|k: int| 0 <= k < i ==> #[trigger] outcomes@[k] == spec_outcome(objs, datas, k),
            forall|c: int|
                0 <= c < cache@.len() ==> {
                    let e = #[trigger] cache@[c];
                    &&& rep_map(objs, datas, i as int).dom().contains(e.0)
                    &&& rep_map(objs, datas, i as int)[e.0] == e.1 as int
                },
            forall|k: i32| #[trigger]
                rep_map(objs, datas, i as int).dom().contains(k) ==> exists|c: int| #![auto]
                    0 <= c < cache@.len() && cache@[c].0 == k,
        decreases n - i,
    {
        let is_skipped = meshes[i].is_none();
        if is_skipped {
            outcomes.push(DedupOutcome::Skipped);
            proof {
                assert(rep_map(objs, datas, i + 1) == rep_map(objs, datas, i as int));
            }
        } else {
            let mesh_hash = match &meshes[i] {
                Some(m) => m.hash,
                None => {
                    proof {
                        assert(false);
                    }
                    return Err(RunError::BatchFailed);
                },
            };
            match cache_find(&cache, mesh_hash) {
                Some(ci) => {
                    let rep: usize = cache[ci].1;
                    outcomes.push(DedupOutcome::Rewritten { rep });
                    proof {
                        lemma_rep_map_props(objs, datas, i as int);
                        assert(spec_outcome(objs, datas, i as int) == DedupOutcome::Rewritten {
                            rep,
                        });
                        assert(rep_map(objs, datas, i + 1) == rep_map(objs, datas, i as int));
                    }
                },
                None => {
                    let ghost m0 = rep_map(objs, datas, i as int);
                    let ghost m1 = rep_map(objs, datas, i + 1);
                    let ghost cache0 = cache@;
                    proof {
                        lemma_rep_map_props(objs, datas, i as int);
                        if m0.dom().contains(mesh_hash) {
                            assert(exists|c: int| #![auto]
                                0 <= c < cache@.len() && cache@[c].0 == mesh_hash);
                            assert(false);
                        }
                        assert(m1 == m0.insert(mesh_hash, i as int));
                    }
                    cache.push((mesh_hash, i));
                    outcomes.push(DedupOutcome::Cached);
                    proof {
                        assert(cache@ == cache0.push((mesh_hash, i)));
                        assert forall|c: int| 0 <= c < cache@.len() implies {
                            let e = #[trigger] cache@[c];
                            &&& m1.dom().contains(e.0)
                            &&& m1[e.0] == e.1 as int
                        } by {
                            if c < cache0.len() {
                                assert(cache@[c] == cache0[c]);
                                assert(m0.dom().contains(cache0[c].0));
                                assert(cache0[c].0 != mesh_hash);
                            } else {
                                assert(cache@[c] == (mesh_hash, i));
                            }
                        }
                        assert forall|k: i32| #[trigger] m1.dom().contains(k) implies exists|c: int|
                            #![auto]
                            0 <= c < cache@.len() && cache@[c].0 == k by {
                            if k == mesh_hash {
                                assert(cache@[cache@.len() - 1].0 == k);
                            } else {
                                assert(m0.dom().contains(k));
                                let c0 = choose|c: int| #![auto]
                                    0 <= c < cache0.len() && cache0[c].0 == k;
                                assert(cache@[c0].0 == k);
                            }
                        }
                    }
                },
            }
        }
        i = i + 1;
    }

    // Apply the decisions: rewrite every duplicate to its representative.
    let mut i: usize = 0;
    while i < n
        invariant
            0 <= i <= n,
            n == objs.len(),
            n == objects@.len(),
            n == meshes@.len(),
            n <= usize::MAX,
            objs == old(objects)@,
            outcomes@.len() == n,
            forall|k: int| 0 <= k < n ==> (obj_blank(objs[k]) <==> #[trigger] meshes@[k] is None),
            forall|k: int| 0 <= k < n ==> #[trigger] outcomes@[k] == spec_outcome(objs, datas, k),
            forall|k: int| 0 <= k < i ==> object_result_ok(objs, datas, objects@, k),
            forall|k: int| i <= k < n ==> #[trigger] objects@[k] == objs[k],
        decreases n - i,
    {
        let ghost pre = objects@;
        let decision = outcomes[i];
        match decision {
            DedupOutcome::Rewritten { rep } => {
                proof {
                    lemma_first_is_canonical(objs, datas, i as int);
                    assert(object_result_ok(objs, datas, objects@, rep_of(spec_outcome(objs, datas, i as int))));
                    reveal(object_result_ok);
                }
                let rep_mesh_id = objects[rep].mesh_id.clone();
                let rep_size = objects[rep].size;
                let rep_init_size = objects[rep].init_size;

                let own_mesh = match &meshes[i] {
                    Some(m) => m.clone(),
                    None => {
                        proof {
                            assert(false);
                        }
                        return Err(RunError::BatchFailed);
                    },
                };
                let rotation = match &meshes[rep] {
                    Some(rm) => own_mesh.calculate_rotation(rm),
                    None => {
                        proof {
                            assert(false);
                        }
                        return Err(RunError::BatchFailed);
                    },
                };
                let corr = CFrame::angles(0, rotation.y, 0);
                let new_cf = objects[i].cframe.mult(corr);
                let new_obj = SceneObject {
                    texture_id: objects[i].texture_id.clone(),
                    mesh_id: rep_mesh_id,
                    init_size: rep_init_size,
                    size: rep_size,
                    cframe: new_cf,
                };
                objects[i] = new_obj;
                proof {
                    assert(objects@ == pre.update(i as int, objects@[i as int]));
                    assert forall|k: int| 0 <= k < i implies object_result_ok(
                        objs,
                        datas,
                        objects@,
                        k,
                    ) by {
                        lemma_object_result_frame(objs, datas, pre, objects@, k);
                    }
                    assert(object_result_ok(objs, datas, objects@, i as int)) by {
                        reveal(object_result_ok);
                    }
                }
            },
            _ => {
                proof {
                    assert(object_result_ok(objs, datas, objects@, i as int)) by {
                        reveal(object_result_ok);
                    }
                }
            },
        }
        i = i + 1;
    }
    Ok(outcomes)
}

} // verus!
