//! Which edge crossings a sweep asks for, and which of them become vertices.
//!
//! A visit is one cube asking for the vertex on one of its edges. The
//! vertices of an extraction are the first visits of each grid edge, in the
//! order of the sweep; every later visit of the same grid edge reuses the
//! vertex of the first.

use vstd::prelude::*;
use crate::index_cache::{EdgeKey, edge_key};

verus! {

/// Local edge `edge` of the cube whose origin is the grid point `(x, y, z)`.
#[derive(Clone, Copy, Debug, PartialEq, Eq)]
pub struct CubeEdge {
    pub x: usize,
    pub y: usize,
    pub z: usize,
    pub edge: usize,
}

/// The grid edge that a visit lies on.
pub open spec fn visit_key(v: CubeEdge) -> EdgeKey {
    edge_key(v.x as int, v.y as int, v.z as int, v.edge as int)
}

/// Whether some visit of `s` lies on the grid edge `k`.
pub open spec fn has_key(s: Seq<CubeEdge>, k: EdgeKey) -> bool {
    exists|j: int| 0 <= j < s.len() && visit_key(#[trigger] s[j]) == k
}

/// The visits of `s` whose grid edge no earlier visit lies on, in order.
pub open spec fn first_visits(s: Seq<CubeEdge>) -> Seq<CubeEdge>
    decreases s.len(),
{
    if s.len() == 0 {
        Seq::empty()
    } else {
        let p = first_visits(s.drop_last());
        if has_key(p, visit_key(s.last())) {
            p
        } else {
            p.push(s.last())
        }
    }
}

/// Whether `idx` names, for each visit of `s`, the vertex of `verts` on the
/// same grid edge.
pub open spec fn indices_match(idx: Seq<u32>, verts: Seq<CubeEdge>, s: Seq<CubeEdge>) -> bool {
    &&& idx.len() == s.len()
    &&& forall|n: int|
        0 <= n < s.len() ==> (#[trigger] idx[n] as int) < verts.len() && visit_key(
            verts[idx[n] as int],
        ) == visit_key(s[n])
}

/// Whether no two vertices of `verts` lie on the same grid edge.
pub open spec fn keys_distinct(verts: Seq<CubeEdge>) -> bool {
    forall|i: int, j: int|
        0 <= i < j < verts.len() ==> visit_key(#[trigger] verts[i]) != visit_key(
            #[trigger] verts[j],
        )
}

pub proof fn lemma_first_visits_push(s: Seq<CubeEdge>, v: CubeEdge)
    ensures
        first_visits(s.push(v)) == if has_key(first_visits(s), visit_key(v)) {
            first_visits(s)
        } else {
            first_visits(s).push(v)
        },
{
    assert(s.push(v).drop_last() =~= s);
}

/// The first visits are no more than the visits.
pub proof fn lemma_first_visits_len(s: Seq<CubeEdge>)
    ensures
        first_visits(s).len() <= s.len(),
    decreases s.len(),
{
    if s.len() > 0 {
        lemma_first_visits_len(s.drop_last());
    }
}

/// A grid edge has a first visit exactly when some visit lies on it.
pub proof fn lemma_first_visits_keys(s: Seq<CubeEdge>, k: EdgeKey)
    ensures
        has_key(first_visits(s), k) <==> has_key(s, k),
    decreases s.len(),
{
    if s.len() > 0 {
        let p = s.drop_last();
        lemma_first_visits_keys(p, k);
        let f = first_visits(s);
        if has_key(p, k) {
            let j = choose|j: int| 0 <= j < p.len() && visit_key(#[trigger] p[j]) == k;
            assert(s[j] == p[j]);
        }
        if has_key(s, k) && !has_key(p, k) {
            let j = choose|j: int| 0 <= j < s.len() && visit_key(#[trigger] s[j]) == k;
            if j < p.len() {
                assert(p[j] == s[j]);
            }
            assert(visit_key(s.last()) == k);
            if !has_key(first_visits(p), k) {
                assert(f[f.len() - 1] == s.last());
            }
        }
        if has_key(f, k) && !has_key(first_visits(p), k) {
            let j = choose|j: int| 0 <= j < f.len() && visit_key(#[trigger] f[j]) == k;
            if j < first_visits(p).len() {
                assert(f[j] == first_visits(p)[j]);
            }
            assert(s[s.len() - 1] == s.last());
        }
        if has_key(first_visits(p), k) {
            let j = choose|j: int|
                0 <= j < first_visits(p).len() && visit_key(#[trigger] first_visits(p)[j]) == k;
            assert(f[j] == first_visits(p)[j]);
        }
    }
}

/// No two vertices of an extraction lie on the same grid edge.
pub proof fn lemma_first_visits_distinct(s: Seq<CubeEdge>)
    ensures
        keys_distinct(first_visits(s)),
    decreases s.len(),
{
    if s.len() > 0 {
        let p = s.drop_last();
        lemma_first_visits_distinct(p);
        lemma_first_visits_push(p, s.last());
        assert(p.push(s.last()) =~= s);
    }
}

/// Extraction is deterministic: for the same visits, the vertices are the
/// same, and the index buffer that names them is the only one that matches.
pub proof fn lemma_extraction_deterministic(
    s: Seq<CubeEdge>,
    idx1: Seq<u32>,
    idx2: Seq<u32>,
)
    requires
        indices_match(idx1, first_visits(s), s),
        indices_match(idx2, first_visits(s), s),
    ensures
        idx1 == idx2,
{
    lemma_first_visits_distinct(s);
    let verts = first_visits(s);
    assert forall|n: int| 0 <= n < s.len() implies idx1[n] == idx2[n] by {
        let a = idx1[n] as int;
        let b = idx2[n] as int;
        if a < b {
            assert(visit_key(verts[a]) != visit_key(verts[b]));
        } else if b < a {
            assert(visit_key(verts[b]) != visit_key(verts[a]));
        }
    }
    assert(idx1 =~= idx2);
}

} // verus!
