//! The index resolver and vertex deduplicator: resolves every corner's
//! one-based or negative indices to absolute offsets, keys each corner by its
//! resolved attribute values, and emits a compact mesh in which structurally
//! identical corners share one dense id, assigned in first-seen order.
use vstd::prelude::*;
use crate::mesh::{Vec3, Vec2, CornerRef, RawMesh, RawView};
use crate::fixed::Fixed;

verus! {

/// A structural failure of the resolution pass: fatal for the whole load.
#[derive(Debug, PartialEq, Eq, Structural, Clone, Copy)]
pub enum ResolveError {
    /// A corner's resolved index falls outside its target attribute array.
    IndexOutOfBounds,
    /// A corner omits a texture or normal index on the deduplicating path.
    MissingAttributeIndex,
}

/// The terminal artifact: three attribute arrays of identical length indexed
/// by dense vertex ids, and a triangle index array referencing them.
#[derive(Debug)]
pub struct IndexedMesh {
    pub positions: Vec<Vec3>,
    pub texcoords: Vec<Vec2>,
    pub normals: Vec<Vec3>,
    pub indices: Vec<usize>,
}

/// The mathematical content of an `IndexedMesh`.
#[verifier::ext_equal]
pub ghost struct IdxView {
    pub positions: Seq<Vec3>,
    pub texcoords: Seq<Vec2>,
    pub normals: Seq<Vec3>,
    pub indices: Seq<int>,
}

impl View for IndexedMesh {
    type V = IdxView;

    open spec fn view(&self) -> IdxView {
        IdxView {
            positions: self.positions@,
            texcoords: self.texcoords@,
            normals: self.normals@,
            indices: self.indices@.map_values(|u: usize| u as int),
        }
    }
}

/// Resolution of one index: a positive `k` is one-based absolute into the
/// full array; a negative `k` counts back from `seen`, the length accumulated
/// when the corner was read; zero and out-of-range indices resolve to
/// nothing.
pub open spec fn sp_resolve(k: int, seen: int, full: int) -> Option<int> {
    if k > 0 {
        if k - 1 < full {
            Some(k - 1)
        } else {
            None
        }
    } else if k < 0 {
        if 0 <= seen + k && seen + k < full {
            Some(seen + k)
        } else {
            None
        }
    } else {
        None
    }
}

/// A negative index `k` with `seen` entries accumulated resolves to
/// `seen + k`: `-1` names the most recently added entry and `-seen` the
/// first.
pub proof fn lemma_negative_index_resolution(k: int, seen: int, full: int)
    requires
        -seen <= k < 0,
        seen <= full,
    ensures
        sp_resolve(k, seen, full) == Some(seen + k),
{
}

/// Resolves one index against `seen` (the accumulated length at reference
/// time) and `full` (the final length of the target array).
pub fn resolve_index(k: i64, seen: usize, full: usize) -> (r: Option<usize>)
    ensures
        match r {
            Some(j) => sp_resolve(k as int, seen as int, full as int) == Some(j as int) && j
                < full,
            None => sp_resolve(k as int, seen as int, full as int) is None,
        },
{
    if k > 0 {
        let j = (k - 1) as u64;
        if j < full as u64 {
            Some(j as usize)
        } else {
            None
        }
    } else if k < 0 {
        let t: i128 = seen as i128 + k as i128;
        if 0 <= t && t < full as i128 {
            Some(t as usize)
        } else {
            None
        }
    } else {
        None
    }
}

/// The identity under which corners merge: the three resolved attribute
/// values, already quantized.
#[derive(Debug, PartialEq, Eq, Structural, Clone, Copy)]
pub struct DedupKey {
    pub pos: Vec3,
    pub tex: Vec2,
    pub norm: Vec3,
}

/// The key of one corner under the deduplicating path: the position index
/// must resolve, and the texture and normal indices must both be present and
/// resolve; the checks run in that order.
pub open spec fn sp_corner_key(m: RawView, c: CornerRef) -> Result<DedupKey, ResolveError> {
    match sp_resolve(c.ind.coord_rindex as int, c.pos_seen as int, m.positions.len() as int) {
        None => Err(ResolveError::IndexOutOfBounds),
        Some(pi) => match c.ind.texcoord_rindex {
            None => Err(ResolveError::MissingAttributeIndex),
            Some(ti) => match sp_resolve(ti as int, c.tex_seen as int, m.texcoords.len() as int) {
                None => Err(ResolveError::IndexOutOfBounds),
                Some(tj) => match c.ind.normal_rindex {
                    None => Err(ResolveError::MissingAttributeIndex),
                    Some(ni) => match sp_resolve(
                        ni as int,
                        c.norm_seen as int,
                        m.normals.len() as int,
                    ) {
                        None => Err(ResolveError::IndexOutOfBounds),
                        Some(nj) => Ok(
                            DedupKey {
                                pos: m.positions[pi],
                                tex: m.texcoords[tj],
                                norm: m.normals[nj],
                            },
                        ),
                    },
                },
            },
        },
    }
}

fn corner_key(m: &RawMesh, c: &CornerRef) -> (r: Result<DedupKey, ResolveError>)
    ensures
        r == sp_corner_key(m@, *c),
{
    let pi = match resolve_index(c.ind.coord_rindex, c.pos_seen, m.positions.len()) {
        Some(p) => p,
        None => {
            return Err(ResolveError::IndexOutOfBounds);
        },
    };
    let ti = match c.ind.texcoord_rindex {
        Some(t) => t,
        None => {
            return Err(ResolveError::MissingAttributeIndex);
        },
    };
    let tj = match resolve_index(ti, c.tex_seen, m.texcoords.len()) {
        Some(t) => t,
        None => {
            return Err(ResolveError::IndexOutOfBounds);
        },
    };
    let ni = match c.ind.normal_rindex {
        Some(n2) => n2,
        None => {
            return Err(ResolveError::MissingAttributeIndex);
        },
    };
    let nj = match resolve_index(ni, c.norm_seen, m.normals.len()) {
        Some(n2) => n2,
        None => {
            return Err(ResolveError::IndexOutOfBounds);
        },
    };
    Ok(DedupKey { pos: m.positions[pi], tex: m.texcoords[tj], norm: m.normals[nj] })
}

/// The first position of `k` in `keys` at or after `i`, or the length when
/// `k` does not occur.
pub open spec fn sp_find_from(keys: Seq<DedupKey>, k: DedupKey, i: int) -> int
    decreases keys.len() - i,
{
    if i < 0 || i >= keys.len() {
        keys.len() as int
    } else if keys[i] == k {
        i
    } else {
        sp_find_from(keys, k, i + 1)
    }
}

fn find_key(keys: &Vec<DedupKey>, k: &DedupKey) -> (r: usize)
    ensures
        r as int == sp_find_from(keys@, *k, 0),
        r <= keys@.len(),
{
    let mut i: usize = 0;
    while i < keys.len()
        invariant
            i <= keys@.len(),
            sp_find_from(keys@, *k, 0) == sp_find_from(keys@, *k, i as int),
        decreases keys@.len() - i,
    {
        if keys[i] == *k {
            return i;
        }
        i = i + 1;
    }
    i
}

/// The deduplicator's growing state: keys in id order (the id of a key is
/// its position) and the index entries emitted so far.
#[verifier::ext_equal]
pub ghost struct DedupView {
    pub keys: Seq<DedupKey>,
    pub indices: Seq<int>,
}

/// The state after the first `n` corners: a corner whose key was seen before
/// reuses that key's id, a new key receives the next id.
pub open spec fn sp_dedup_state(m: RawView, n: int) -> Result<DedupView, ResolveError>
    decreases n,
{
    if n <= 0 {
        Ok(DedupView { keys: Seq::empty(), indices: Seq::empty() })
    } else {
        match sp_dedup_state(m, n - 1) {
            Err(e) => Err(e),
            Ok(st) => match sp_corner_key(m, m.corners[n - 1]) {
                Err(e) => Err(e),
                Ok(k) => {
                    let j = sp_find_from(st.keys, k, 0);
                    if j < st.keys.len() {
                        Ok(DedupView { keys: st.keys, indices: st.indices.push(j) })
                    } else {
                        Ok(DedupView { keys: st.keys.push(k), indices: st.indices.push(j) })
                    }
                },
            },
        }
    }
}

/// The deduplicated mesh of a raw mesh: attribute arrays in first-seen key
/// order, the index array in corner emission order.
pub open spec fn sp_dedup(m: RawView) -> Result<IdxView, ResolveError> {
    match sp_dedup_state(m, m.corners.len() as int) {
        Err(e) => Err(e),
        Ok(st) => Ok(
            IdxView {
                positions: st.keys.map_values(|k: DedupKey| k.pos),
                texcoords: st.keys.map_values(|k: DedupKey| k.tex),
                normals: st.keys.map_values(|k: DedupKey| k.norm),
                indices: st.indices,
            },
        ),
    }
}

proof fn lemma_dedup_state_key_bound(m: RawView, n: int)
    requires
        0 <= n,
        sp_dedup_state(m, n) is Ok,
    ensures
        sp_dedup_state(m, n)->Ok_0.keys.len() <= n,
    decreases n,
{
    if n > 0 {
        lemma_dedup_state_key_bound(m, n - 1);
    }
}

/// Deduplication never expands: the deduplicated vertex count is at most the
/// corner count.
pub proof fn lemma_dedup_never_expands(m: RawView)
    requires
        sp_dedup(m) is Ok,
    ensures
        sp_dedup(m)->Ok_0.positions.len() <= m.corners.len(),
{
    lemma_dedup_state_key_bound(m, m.corners.len() as int);
}

/// Determinism under re-run: deduplicating the same raw mesh again yields
/// the same id assignment and the same index array.
pub proof fn lemma_dedup_deterministic(a: RawView, b: RawView)
    requires
        a == b,
    ensures
        sp_dedup(a) == sp_dedup(b),
{
}

proof fn lemma_find_range(keys: Seq<DedupKey>, k: DedupKey, i: int)
    requires
        0 <= i <= keys.len(),
    ensures
        i <= sp_find_from(keys, k, i) <= keys.len(),
    decreases keys.len() - i,
{
    if i < keys.len() && keys[i] != k {
        lemma_find_range(keys, k, i + 1);
    }
}

/// A key found in `keys` keeps its first position when `keys` grows.
proof fn lemma_find_prefix_from(keys: Seq<DedupKey>, ext: Seq<DedupKey>, k: DedupKey, i: int)
    requires
        0 <= i,
        sp_find_from(keys, k, i) < keys.len(),
    ensures
        sp_find_from(keys + ext, k, i) == sp_find_from(keys, k, i),
    decreases keys.len() - i,
{
    if i < keys.len() {
        assert((keys + ext)[i] == keys[i]);
        if keys[i] != k {
            lemma_find_prefix_from(keys, ext, k, i + 1);
        }
    }
}

/// A key absent from `keys` is first found where it is pushed.
proof fn lemma_find_push_new_from(keys: Seq<DedupKey>, k: DedupKey, i: int)
    requires
        0 <= i <= keys.len(),
        sp_find_from(keys, k, i) == keys.len(),
    ensures
        sp_find_from(keys.push(k), k, i) == keys.len(),
    decreases keys.len() - i,
{
    if i < keys.len() {
        assert(keys[i] != k);
        assert(keys.push(k)[i] == keys[i]);
        lemma_find_push_new_from(keys, k, i + 1);
    } else {
        assert(keys.push(k)[i] == k);
    }
}

/// After `n` corners, entry `t` of the index array is the first position of
/// corner `t`'s key in the key list, and lies inside it.
proof fn lemma_dedup_state_ids(m: RawView, n: int)
    requires
        0 <= n,
        sp_dedup_state(m, n) is Ok,
    ensures
        ({
            let st = sp_dedup_state(m, n)->Ok_0;
            st.indices.len() == n && (forall|t: int|
                0 <= t < n ==> sp_corner_key(m, m.corners[t]) is Ok) && (forall|t: int|
                0 <= t < n ==> #[trigger] st.indices[t] == sp_find_from(
                    st.keys,
                    sp_corner_key(m, m.corners[t])->Ok_0,
                    0,
                )) && (forall|t: int| 0 <= t < n ==> #[trigger] st.indices[t] < st.keys.len())
        }),
    decreases n,
{
    if n > 0 {
        lemma_dedup_state_ids(m, n - 1);
        let st0 = sp_dedup_state(m, n - 1)->Ok_0;
        let k = sp_corner_key(m, m.corners[n - 1])->Ok_0;
        let j = sp_find_from(st0.keys, k, 0);
        lemma_find_range(st0.keys, k, 0);
        let st = sp_dedup_state(m, n)->Ok_0;
        if j < st0.keys.len() {
            assert(st.keys == st0.keys);
            assert forall|t: int| 0 <= t < n implies #[trigger] st.indices[t] == sp_find_from(
                st.keys,
                sp_corner_key(m, m.corners[t])->Ok_0,
                0,
            ) by {
                if t < n - 1 {
                    assert(st.indices[t] == st0.indices[t]);
                }
            }
        } else {
            assert(st.keys == st0.keys.push(k));
            assert forall|t: int| 0 <= t < n implies #[trigger] st.indices[t] == sp_find_from(
                st.keys,
                sp_corner_key(m, m.corners[t])->Ok_0,
                0,
            ) && st.indices[t] < st.keys.len() by {
                if t < n - 1 {
                    let kt = sp_corner_key(m, m.corners[t])->Ok_0;
                    assert(st.indices[t] == st0.indices[t]);
                    lemma_find_prefix_from(st0.keys, seq![k], kt, 0);
                    assert(st0.keys + seq![k] =~= st0.keys.push(k));
                } else {
                    lemma_find_push_new_from(st0.keys, k, 0);
                }
            }
        }
    }
}

/// Two corners whose resolved attribute values carry the same quantized
/// coordinates — in particular, values differing only beyond the seventh
/// fractional decimal digit — map to the same deduplicated vertex id.
pub proof fn lemma_equal_values_share_id(m: RawView, i: int, j: int)
    requires
        0 <= i < m.corners.len(),
        0 <= j < m.corners.len(),
        sp_dedup(m) is Ok,
        sp_corner_key(m, m.corners[i]) == sp_corner_key(m, m.corners[j]),
    ensures
        sp_dedup(m)->Ok_0.indices[i] == sp_dedup(m)->Ok_0.indices[j],
{
    let n = m.corners.len() as int;
    lemma_dedup_state_ids(m, n);
}

proof fn lemma_dedup_error_sticky(m: RawView, i: int, n: int)
    requires
        0 <= i <= n,
        sp_dedup_state(m, i) is Err,
    ensures
        sp_dedup_state(m, n) == sp_dedup_state(m, i),
    decreases n - i,
{
    if i < n {
        lemma_dedup_error_sticky(m, i, n - 1);
    }
}

/// Resolves and deduplicates every corner of `m`: structurally identical
/// corners share one vertex id, ids run in first-seen order, and the pass
/// fails on the first corner whose index is out of range or missing.
pub fn to_indexed_dedup(m: &RawMesh) -> (r: Result<IndexedMesh, ResolveError>)
    ensures
        match r {
            Ok(im) => Ok::<IdxView, ResolveError>(im@) == sp_dedup(m@) && im@.positions.len()
                == im@.texcoords.len() && im@.positions.len() == im@.normals.len()
                && im@.indices.len() == m@.corners.len() && forall|i: int|
                0 <= i < im@.indices.len() ==> 0 <= #[trigger] im@.indices[i]
                    < im@.positions.len(),
            Err(e) => sp_dedup(m@) == Err::<IdxView, ResolveError>(e),
        },
{
    let mut keys: Vec<DedupKey> = Vec::new();
    let mut positions: Vec<Vec3> = Vec::new();
    let mut texcoords: Vec<Vec2> = Vec::new();
    let mut normals: Vec<Vec3> = Vec::new();
    let mut indices: Vec<usize> = Vec::new();
    let mut i: usize = 0;
    proof {
        assert(indices@.map_values(|u: usize| u as int) =~= Seq::<int>::empty());
        assert(keys@.map_values(|k: DedupKey| k.pos) =~= Seq::<Vec3>::empty());
        assert(keys@.map_values(|k: DedupKey| k.tex) =~= Seq::<Vec2>::empty());
        assert(keys@.map_values(|k: DedupKey| k.norm) =~= Seq::<Vec3>::empty());
    }
    while i < m.corners.len()
        invariant
            i <= m@.corners.len(),
            indices@.len() == i,
            sp_dedup_state(m@, i as int) == Ok::<DedupView, ResolveError>(
                DedupView { keys: keys@, indices: indices@.map_values(|u: usize| u as int) },
            ),
            positions@ == keys@.map_values(|k: DedupKey| k.pos),
            texcoords@ == keys@.map_values(|k: DedupKey| k.tex),
            normals@ == keys@.map_values(|k: DedupKey| k.norm),
            forall|j: int| 0 <= j < indices@.len() ==> (#[trigger] indices@[j]) < keys@.len(),
        decreases m@.corners.len() - i,
    {
        let ghost g_keys = keys@;
        let ghost g_idx = indices@.map_values(|u: usize| u as int);
        let c = m.corners[i];
        let k = match corner_key(m, &c) {
            Ok(k) => k,
            Err(e) => {
                proof {
                    lemma_dedup_error_sticky(m@, i + 1, m@.corners.len() as int);
                }
                return Err(e);
            },
        };
        let j = find_key(&keys, &k);
        indices.push(j);
        if j == keys.len() {
            keys.push(k);
            positions.push(k.pos);
            texcoords.push(k.tex);
            normals.push(k.norm);
            proof {
                assert(keys@.map_values(|k2: DedupKey| k2.pos) =~= g_keys.map_values(
                    |k2: DedupKey| k2.pos,
                ).push(k.pos));
                assert(keys@.map_values(|k2: DedupKey| k2.tex) =~= g_keys.map_values(
                    |k2: DedupKey| k2.tex,
                ).push(k.tex));
                assert(keys@.map_values(|k2: DedupKey| k2.norm) =~= g_keys.map_values(
                    |k2: DedupKey| k2.norm,
                ).push(k.norm));
            }
        }
        proof {
            assert(indices@.map_values(|u: usize| u as int) =~= g_idx.push(j as int));
        }
        i = i + 1;
    }
    proof {
        assert(keys@.map_values(|k: DedupKey| k.pos).len() == keys@.len());
    }
    Ok(IndexedMesh { positions, texcoords, normals, indices })
}

/// The resolved texture pair of one corner on the non-deduplicating path: a
/// missing index gives the zero pair.
pub open spec fn sp_flat_tex(m: RawView, c: CornerRef) -> Result<Vec2, ResolveError> {
    match c.ind.texcoord_rindex {
        None => Ok(Vec2 { u: Fixed { scaled: 0 }, v: Fixed { scaled: 0 } }),
        Some(ti) => match sp_resolve(ti as int, c.tex_seen as int, m.texcoords.len() as int) {
            None => Err(ResolveError::IndexOutOfBounds),
            Some(tj) => Ok(m.texcoords[tj]),
        },
    }
}

/// The resolved normal of one corner on the non-deduplicating path: a
/// missing index gives the zero triple.
pub open spec fn sp_flat_norm(m: RawView, c: CornerRef) -> Result<Vec3, ResolveError> {
    match c.ind.normal_rindex {
        None => Ok(Vec3 { x: Fixed { scaled: 0 }, y: Fixed { scaled: 0 }, z: Fixed { scaled: 0 } }),
        Some(ni) => match sp_resolve(ni as int, c.norm_seen as int, m.normals.len() as int) {
            None => Err(ResolveError::IndexOutOfBounds),
            Some(nj) => Ok(m.normals[nj]),
        },
    }
}

/// One corner's resolved attribute triple on the non-deduplicating path:
/// indices resolve exactly as on the deduplicating path, but missing texture
/// or normal indices are allowed and give zero attributes.
pub open spec fn sp_flat_corner(m: RawView, c: CornerRef) -> Result<
    (Vec3, Vec2, Vec3),
    ResolveError,
> {
    match sp_resolve(c.ind.coord_rindex as int, c.pos_seen as int, m.positions.len() as int) {
        None => Err(ResolveError::IndexOutOfBounds),
        Some(pi) => match sp_flat_tex(m, c) {
            Err(e) => Err(e),
            Ok(t) => match sp_flat_norm(m, c) {
                Err(e) => Err(e),
                Ok(n2) => Ok((m.positions[pi], t, n2)),
            },
        },
    }
}

/// The flat mesh after the first `n` corners: one new vertex per corner.
pub open spec fn sp_flat_state(m: RawView, n: int) -> Result<IdxView, ResolveError>
    decreases n,
{
    if n <= 0 {
        Ok(
            IdxView {
                positions: Seq::empty(),
                texcoords: Seq::empty(),
                normals: Seq::empty(),
                indices: Seq::empty(),
            },
        )
    } else {
        match sp_flat_state(m, n - 1) {
            Err(e) => Err(e),
            Ok(st) => match sp_flat_corner(m, m.corners[n - 1]) {
                Err(e) => Err(e),
                Ok(t) => Ok(
                    IdxView {
                        positions: st.positions.push(t.0),
                        texcoords: st.texcoords.push(t.1),
                        normals: st.normals.push(t.2),
                        indices: st.indices.push(n - 1),
                    },
                ),
            },
        }
    }
}

/// The non-deduplicating mesh of a raw mesh: indices resolve identically but
/// every corner emits its own vertex, so `indices[i] == i`.
pub open spec fn sp_flat(m: RawView) -> Result<IdxView, ResolveError> {
    sp_flat_state(m, m.corners.len() as int)
}

proof fn lemma_flat_error_sticky(m: RawView, i: int, n: int)
    requires
        0 <= i <= n,
        sp_flat_state(m, i) is Err,
    ensures
        sp_flat_state(m, n) == sp_flat_state(m, i),
    decreases n - i,
{
    if i < n {
        lemma_flat_error_sticky(m, i, n - 1);
    }
}

/// Resolves every corner of `m` without sharing: one new vertex per corner,
/// for diagnostics and for meshes lacking full per-corner attributes.
pub fn to_indexed_flat(m: &RawMesh) -> (r: Result<IndexedMesh, ResolveError>)
    ensures
        match r {
            Ok(im) => Ok::<IdxView, ResolveError>(im@) == sp_flat(m@) && im@.positions.len()
                == im@.texcoords.len() && im@.positions.len() == im@.normals.len()
                && im@.indices.len() == im@.positions.len() && im@.positions.len()
                == m@.corners.len() && forall|i: int|
                0 <= i < im@.indices.len() ==> #[trigger] im@.indices[i] == i,
            Err(e) => sp_flat(m@) == Err::<IdxView, ResolveError>(e),
        },
{
    let mut positions: Vec<Vec3> = Vec::new();
    let mut texcoords: Vec<Vec2> = Vec::new();
    let mut normals: Vec<Vec3> = Vec::new();
    let mut indices: Vec<usize> = Vec::new();
    let mut i: usize = 0;
    proof {
        assert(indices@.map_values(|u: usize| u as int) =~= Seq::<int>::empty());
    }
    while i < m.corners.len()
        invariant
            i <= m@.corners.len(),
            positions@.len() == i,
            texcoords@.len() == i,
            normals@.len() == i,
            indices@.len() == i,
            sp_flat_state(m@, i as int) == Ok::<IdxView, ResolveError>(
                IdxView {
                    positions: positions@,
                    texcoords: texcoords@,
                    normals: normals@,
                    indices: indices@.map_values(|u: usize| u as int),
                },
            ),
            forall|j: int| 0 <= j < indices@.len() ==> (#[trigger] indices@[j]) == j,
        decreases m@.corners.len() - i,
    {
        let ghost g_idx = indices@.map_values(|u: usize| u as int);
        let c = m.corners[i];
        let pi = match resolve_index(c.ind.coord_rindex, c.pos_seen, m.positions.len()) {
            Some(p) => p,
            None => {
                proof {
                    lemma_flat_error_sticky(m@, i + 1, m@.corners.len() as int);
                }
                return Err(ResolveError::IndexOutOfBounds);
            },
        };
        let t = match c.ind.texcoord_rindex {
            None => Vec2 { u: Fixed { scaled: 0 }, v: Fixed { scaled: 0 } },
            Some(ti) => match resolve_index(ti, c.tex_seen, m.texcoords.len()) {
                Some(tj) => m.texcoords[tj],
                None => {
                    proof {
                        lemma_flat_error_sticky(m@, i + 1, m@.corners.len() as int);
                    }
                    return Err(ResolveError::IndexOutOfBounds);
                },
            },
        };
        let n2 = match c.ind.normal_rindex {
            None => Vec3 { x: Fixed { scaled: 0 }, y: Fixed { scaled: 0 }, z: Fixed { scaled: 0 } },
            Some(ni) => match resolve_index(ni, c.norm_seen, m.normals.len()) {
                Some(nj) => m.normals[nj],
                None => {
                    proof {
                        lemma_flat_error_sticky(m@, i + 1, m@.corners.len() as int);
                    }
                    return Err(ResolveError::IndexOutOfBounds);
                },
            },
        };
        positions.push(m.positions[pi]);
        texcoords.push(t);
        normals.push(n2);
        indices.push(i);
        proof {
            assert(indices@.map_values(|u: usize| u as int) =~= g_idx.push(i as int));
        }
        i = i + 1;
    }
    Ok(IndexedMesh { positions, texcoords, normals, indices })
}

} // verus!
