//! The sweep over the cubes of a grid, one slab of cubes at a time.
//!
//! The field is given as signs: a grid point is inside when the field's
//! value there is at most zero. A layer holds the signs of one z-slice of
//! `size * size` grid points, the point `(x, y)` at `y * size + x`. Each
//! call of `extract_layer` hands over the next layer, classifies the cubes
//! between it and the layer before, appends their triangles to the index
//! buffer and appends each newly needed vertex as the cube edge that it
//! lies on, for the caller to place.

use vstd::prelude::*;
use vstd::arithmetic::power2::{pow2, lemma2_to64};
use crate::index_cache::{IndexCache, EdgeKey, in_slab, lemma_cube_edges_in_slab};
use crate::tables::{CORNERS, tri_row, tri_edges, triangles_from, triangle_row, lemma_rows_ok};
use crate::visits::{
    CubeEdge,
    visit_key,
    has_key,
    first_visits,
    lemma_first_visits_push,
    lemma_first_visits_len,
    indices_match,
};

verus! {

/// Whether corner `i` of the cube at `(x, y)` between the layers `below`
/// and `above` of a grid of `n` points per axis is inside.
pub open spec fn corner_inside(
    below: Seq<bool>,
    above: Seq<bool>,
    n: int,
    x: int,
    y: int,
    i: int,
) -> bool {
    let o = CORNERS@[i]@;
    let at = (y + o[1]) * n + x + o[0];
    if o[2] == 0 {
        below[at]
    } else {
        above[at]
    }
}

/// The sum of `2^i` over the inside corners `i < k` of a cube.
pub open spec fn mask(below: Seq<bool>, above: Seq<bool>, n: int, x: int, y: int, k: int) -> int
    decreases k,
{
    if k <= 0 {
        0
    } else {
        mask(below, above, n, x, y, k - 1) + if corner_inside(below, above, n, x, y, k - 1) {
            pow2((k - 1) as nat) as int
        } else {
            0
        }
    }
}

/// The cube index of the cube at `(x, y)`: bit `i` is set iff corner `i`
/// is inside.
pub open spec fn cube_index(below: Seq<bool>, above: Seq<bool>, n: int, x: int, y: int) -> int {
    mask(below, above, n, x, y, 8)
}

/// The visits of the cube at `(x, y, z)`, in the order of its triangles.
pub open spec fn cube_visits(
    below: Seq<bool>,
    above: Seq<bool>,
    n: int,
    x: int,
    y: int,
    z: int,
) -> Seq<CubeEdge> {
    let edges = tri_edges(cube_index(below, above, n, x, y));
    Seq::new(
        edges.len(),
        |k: int| CubeEdge { x: x as usize, y: y as usize, z: z as usize, edge: edges[k] as usize },
    )
}

/// The visits of the first `xs` cubes of row `y` of slab `z`.
pub open spec fn row_visits(
    below: Seq<bool>,
    above: Seq<bool>,
    n: int,
    y: int,
    z: int,
    xs: int,
) -> Seq<CubeEdge>
    decreases xs,
{
    if xs <= 0 {
        Seq::empty()
    } else {
        row_visits(below, above, n, y, z, xs - 1) + cube_visits(below, above, n, xs - 1, y, z)
    }
}

/// The visits of the first `ys` rows of cubes of slab `z`.
pub open spec fn slab_visits(
    below: Seq<bool>,
    above: Seq<bool>,
    n: int,
    z: int,
    ys: int,
) -> Seq<CubeEdge>
    decreases ys,
{
    if ys <= 0 {
        Seq::empty()
    } else {
        slab_visits(below, above, n, z, ys - 1) + row_visits(below, above, n, ys - 1, z, n - 1)
    }
}

proof fn lemma_sample_bound(n: int, x: int, y: int)
    requires
        0 <= x < n,
        0 <= y < n,
    ensures
        0 <= y * n + x < n * n,
{
    assert(y * n + x < n * n) by (nonlinear_arith)
        requires 0 <= x < n, 0 <= y < n;
    assert(0 <= y * n) by (nonlinear_arith)
        requires 0 <= y, 0 <= n;
}

proof fn lemma_mask_bound(below: Seq<bool>, above: Seq<bool>, n: int, x: int, y: int, k: int)
    requires
        0 <= k <= 8,
    ensures
        0 <= mask(below, above, n, x, y, k) < pow2(k as nat),
    decreases k,
{
    lemma2_to64();
    if k > 0 {
        lemma_mask_bound(below, above, n, x, y, k - 1);
    }
}

proof fn lemma_tri_edges(c: int)
    requires
        0 <= c < 256,
    ensures
        tri_edges(c).len() == 3 * triangles_from(tri_row(c), 0),
        tri_edges(c).len() <= 15,
        forall|k: int| 0 <= k < tri_edges(c).len() ==> tri_edges(c)[k] == tri_row(c)[k] as int,
{
    lemma_rows_ok(c);
    lemma_triangles_bound(tri_row(c), 0);
}

proof fn lemma_triangles_bound(row: Seq<i8>, i: int)
    requires
        0 <= i <= 5,
    ensures
        0 <= triangles_from(row, i) <= 5 - i,
    decreases 5 - i,
{
    if i < 5 {
        lemma_triangles_bound(row, i + 1);
    }
}

proof fn lemma_cube_len(below: Seq<bool>, above: Seq<bool>, n: int, x: int, y: int, z: int)
    ensures
        cube_visits(below, above, n, x, y, z).len() % 3 == 0,
{
    lemma_mask_bound(below, above, n, x, y, 8);
    lemma2_to64();
    lemma_tri_edges(cube_index(below, above, n, x, y));
}

proof fn lemma_row_len(below: Seq<bool>, above: Seq<bool>, n: int, y: int, z: int, xs: int)
    ensures
        row_visits(below, above, n, y, z, xs).len() % 3 == 0,
    decreases xs,
{
    if xs > 0 {
        lemma_row_len(below, above, n, y, z, xs - 1);
        lemma_cube_len(below, above, n, xs - 1, y, z);
    }
}

/// The visits of a slab come in whole triangles.
proof fn lemma_slab_len(below: Seq<bool>, above: Seq<bool>, n: int, z: int, ys: int)
    ensures
        slab_visits(below, above, n, z, ys).len() % 3 == 0,
    decreases ys,
{
    if ys > 0 {
        lemma_slab_len(below, above, n, z, ys - 1);
        lemma_row_len(below, above, n, ys - 1, z, n - 1);
    }
}

proof fn lemma_row_bound(m: int, z: int, y: int)
    requires
        0 <= z < m,
        0 <= y < m,
    ensures
        15 * (z * m * m) + 15 * m * y + 15 * m <= 15 * m * m * m,
        15 * (z * m * m) + 15 * m * (y + 1) <= 15 * ((z + 1) * m * m),
        15 * (z * m * m) + 15 * m * m == 15 * ((z + 1) * m * m),
{
    assert(m * y + m <= m * m) by (nonlinear_arith)
        requires 0 <= y < m;
    assert(z * m * m + m * m <= m * m * m) by (nonlinear_arith)
        requires 0 <= z < m;
    assert(z * m * m + m * m == (z + 1) * m * m) by (nonlinear_arith);
    assert(m * y + m == m * (y + 1)) by (nonlinear_arith);
    assert(15 * m * m * m == 15 * (m * m * m)) by (nonlinear_arith);
    assert(15 * m * y == 15 * (m * y)) by (nonlinear_arith);
    assert(15 * m * (y + 1) == 15 * (m * (y + 1))) by (nonlinear_arith);
    assert(m * (y + 1) <= m * m) by (nonlinear_arith)
        requires 0 <= y < m;
    assert(15 * m * m == 15 * (m * m)) by (nonlinear_arith);
}

proof fn lemma_layer_bound(m: int, z: int)
    ensures
        z * m * m + m * m == (z + 1) * m * m,
{
    assert(z * m * m + m * m == (z + 1) * m * m) by (nonlinear_arith);
}

/// The state of one extraction: the grid's resolution, the signs of the
/// current layer, the deduplication cache and the vertices emitted so far.
pub struct MarchingCubes {
    size: usize,
    layer: usize,
    below: Vec<bool>,
    cache: IndexCache,
    count: u32,
    visits: Ghost<Seq<CubeEdge>>,
}

impl MarchingCubes {
    /// Grid points per axis.
    pub closed spec fn size(&self) -> int {
        self.size as int
    }

    /// The slab of cubes that the next call of `extract_layer` handles.
    pub closed spec fn layer(&self) -> int {
        self.layer as int
    }

    /// The signs of the layer at the bottom of that slab.
    pub closed spec fn below(&self) -> Seq<bool> {
        self.below@
    }

    /// Every visit of the extraction so far, in the order of the sweep.
    pub closed spec fn visits(&self) -> Seq<CubeEdge> {
        self.visits@
    }

    /// The vertices emitted so far.
    pub open spec fn vertices(&self) -> Seq<CubeEdge> {
        first_visits(self.visits())
    }

    /// Whether `size` is a resolution that an extraction can run at: at
    /// least two points per axis, so that there is a cube, and few enough
    /// that every vertex index fits in a `u32`.
    pub open spec fn size_ok(size: int) -> bool {
        &&& 2 <= size
        &&& size * size <= usize::MAX
        &&& 15 * (size - 1) * (size - 1) * (size - 1) <= u32::MAX
    }

    #[verifier::opaque]
    pub closed spec fn wf(&self) -> bool {
        let n = self.size as int;
        let z = self.layer as int;
        &&& self.consistent()
        &&& self.visits@.len() <= 15 * (z * (n - 1) * (n - 1))
    }

    /// Starts an extraction at resolution `size` whose first layer has the
    /// signs `first`.
    pub fn new(size: usize, first: Vec<bool>) -> (r: MarchingCubes)
        requires
            Self::size_ok(size as int),
            first@.len() == size * size,
        ensures
            r.wf(),
            r.size() == size,
            r.layer() == 0,
            r.below() == first@,
            r.visits() == Seq::<CubeEdge>::empty(),
    {
        let r = MarchingCubes {
            size,
            layer: 0,
            below: first,
            cache: IndexCache::new(size),
            count: 0,
            visits: Ghost(Seq::empty()),
        };
        assert(first_visits(Seq::<CubeEdge>::empty()) =~= Seq::<CubeEdge>::empty());
        proof {
            reveal(MarchingCubes::wf);
            reveal(MarchingCubes::consistent);
        }
        r
    }

    /// The cache answers for every grid edge of the current slab with the
    /// vertex emitted on it, and no vertex lies above the slab.
    #[verifier::opaque]
    closed spec fn consistent(&self) -> bool {
        let n = self.size as int;
        let z = self.layer as int;
        let fv = first_visits(self.visits@);
        &&& Self::size_ok(n)
        &&& self.below@.len() == n * n
        &&& self.cache.wf()
        &&& self.cache.size() == n
        &&& self.cache.layer() == z
        &&& 0 <= z <= n - 1
        &&& self.count as int == fv.len()
        &&& forall|k: EdgeKey| #[trigger]
            in_slab(k, n, z) ==> match self.cache.entry(k) {
                Some(i) => (i as int) < fv.len() && visit_key(fv[i as int]) == k,
                None => !has_key(fv, k),
            }
        &&& forall|j: int|
            0 <= j < fv.len() ==> {
                let k = visit_key(#[trigger] fv[j]);
                k.3 <= z + 1 && (k.0 == 2 ==> k.3 <= z)
            }
    }

    /// What the buffers hold after the visits that followed `v0`, given
    /// that they held `idx0` and `cr0` then.
    #[verifier::opaque]
    closed spec fn outputs_ok(
        &self,
        indices: Seq<u32>,
        crossings: Seq<CubeEdge>,
        v0: Seq<CubeEdge>,
        idx0: Seq<u32>,
        cr0: Seq<CubeEdge>,
    ) -> bool {
        let fv = first_visits(self.visits@);
        let fv0 = first_visits(v0);
        &&& v0.len() <= self.visits@.len()
        &&& self.visits@.take(v0.len() as int) == v0
        &&& fv0.len() <= fv.len()
        &&& fv.take(fv0.len() as int) == fv0
        &&& crossings == cr0 + fv.skip(fv0.len() as int)
        &&& indices.len() == idx0.len() + self.visits@.len() - v0.len()
        &&& indices.take(idx0.len() as int) == idx0
        &&& indices_match(indices.skip(idx0.len() as int), fv, self.visits@.skip(v0.len() as int))
    }

    proof fn lemma_consistent_basics(&self)
        requires
            self.consistent(),
        ensures
            Self::size_ok(self.size()),
            self.below().len() == self.size() * self.size(),
            0 <= self.layer() <= self.size() - 1,
    {
        reveal(MarchingCubes::consistent);
    }

    /// One visit: edge `edge` of the cube at `(x, y)` of the current slab.
    fn visit(
        &mut self,
        x: usize,
        y: usize,
        edge: usize,
        indices: &mut Vec<u32>,
        crossings: &mut Vec<CubeEdge>,
        Ghost(v0): Ghost<Seq<CubeEdge>>,
        Ghost(idx0): Ghost<Seq<u32>>,
        Ghost(cr0): Ghost<Seq<CubeEdge>>,
    )
        requires
            old(self).consistent(),
            old(self).outputs_ok(old(indices)@, old(crossings)@, v0, idx0, cr0),
            x + 1 < old(self).size(),
            y + 1 < old(self).size(),
            edge < 12,
            old(self).visits().len() < u32::MAX,
        ensures
            final(self).consistent(),
            final(self).outputs_ok(final(indices)@, final(crossings)@, v0, idx0, cr0),
            final(self).size() == old(self).size(),
            final(self).layer() == old(self).layer(),
            final(self).below() == old(self).below(),
            final(self).visits() == old(self).visits().push(
                CubeEdge { x, y, z: old(self).layer() as usize, edge },
            ),
    {
        proof {
            reveal(MarchingCubes::consistent);
            reveal(MarchingCubes::outputs_ok);
        }
        let v = CubeEdge { x, y, z: self.layer, edge };
        let ghost n = self.size as int;
        let ghost z = self.layer as int;
        let ghost vs = self.visits@;
        let ghost fv = first_visits(vs);
        let ghost k = visit_key(v);
        let ghost old_indices = indices@;
        let ghost old_crossings = crossings@;
        proof {
            lemma_cube_edges_in_slab(n, x as int, y as int, z, edge as int);
            lemma_first_visits_push(vs, v);
            lemma_first_visits_len(vs);
        }
        match self.cache.get(x, y, edge) {
            Some(i) => {
                indices.push(i);
                proof {
                    assert(has_key(fv, k)) by {
                        assert(visit_key(fv[i as int]) == k);
                    }
                }
            },
            None => {
                let i = self.count;
                self.cache.put(x, y, edge, i);
                indices.push(i);
                crossings.push(v);
                self.count = i + 1;
                proof {
                    let fv2 = fv.push(v);
                    assert forall|k2: EdgeKey| #[trigger]
                        in_slab(k2, n, z) implies match self.cache.entry(k2) {
                        Some(i2) => (i2 as int) < fv2.len() && visit_key(fv2[i2 as int]) == k2,
                        None => !has_key(fv2, k2),
                    } by {
                        if k2 != k {
                            if has_key(fv2, k2) {
                                let j = choose|j: int|
                                    0 <= j < fv2.len() && visit_key(#[trigger] fv2[j]) == k2;
                                assert(fv[j] == fv2[j]);
                            }
                        }
                    }
                    assert(crossings@ =~= cr0 + fv2.skip(first_visits(v0).len() as int));
                }
            },
        }
        self.visits = Ghost(vs.push(v));
        proof {
            let fv2 = first_visits(self.visits@);
            let fv0 = first_visits(v0);
            assert(self.visits@.take(v0.len() as int) =~= v0);
            assert(fv2.take(fv0.len() as int) =~= fv0);
            assert(indices@.take(idx0.len() as int) =~= idx0);
            let a = indices@.skip(idx0.len() as int);
            let b = self.visits@.skip(v0.len() as int);
            assert(a =~= old_indices.skip(idx0.len() as int).push(indices@.last()));
            assert(b =~= vs.skip(v0.len() as int).push(v));
            assert forall|m: int| 0 <= m < b.len() implies (#[trigger] a[m] as int) < fv2.len()
                && visit_key(fv2[a[m] as int]) == visit_key(b[m]) by {
                if m < b.len() - 1 {
                    assert(a[m] == old_indices.skip(idx0.len() as int)[m]);
                    assert(b[m] == vs.skip(v0.len() as int)[m]);
                }
            }
            if fv2 == fv {
                assert(crossings@ =~= cr0 + fv2.skip(fv0.len() as int));
            }
        }
    }

    /// The cube index of the cube at `(x, y)` between the current layer and
    /// `above`.
    fn cube_index_at(&self, above: &Vec<bool>, x: usize, y: usize) -> (c: usize)
        requires
            Self::size_ok(self.size()),
            self.below().len() == self.size() * self.size(),
            above@.len() == self.size() * self.size(),
            x + 1 < self.size(),
            y + 1 < self.size(),
        ensures
            c == cube_index(self.below(), above@, self.size(), x as int, y as int),
            c < 256,
    {
        let n = self.size;
        let mut c: usize = 0;
        let mut bit: usize = 1;
        let mut i: usize = 0;
        proof {
            lemma2_to64();
        }
        while i < 8
            invariant
                n == self.size,
                MarchingCubes::size_ok(n as int),
                self.below@.len() == n * n,
                above@.len() == n * n,
                x + 1 < n,
                y + 1 < n,
                i <= 8,
                c == mask(self.below@, above@, n as int, x as int, y as int, i as int),
                bit == pow2(i as nat),
            decreases 8 - i,
        {
            proof {
                lemma2_to64();
                lemma_mask_bound(self.below@, above@, n as int, x as int, y as int, i as int);
            }
            let o = CORNERS[i];
            assert(o[0] <= 1 && o[1] <= 1 && o[2] <= 1);
            proof {
                lemma_sample_bound(n as int, x + o[0], y + o[1]);
            }
            let at = (y + o[1]) * n + x + o[0];
            let inside = if o[2] == 0 {
                self.below[at]
            } else {
                above[at]
            };
            if inside {
                c = c + bit;
            }
            bit = bit * 2;
            i = i + 1;
        }
        proof {
            lemma_mask_bound(self.below@, above@, n as int, x as int, y as int, 8);
        }
        c
    }

    /// Extracts the cube at `(x, y)` of the current slab.
    fn extract_cube(
        &mut self,
        above: &Vec<bool>,
        x: usize,
        y: usize,
        indices: &mut Vec<u32>,
        crossings: &mut Vec<CubeEdge>,
        Ghost(v0): Ghost<Seq<CubeEdge>>,
        Ghost(idx0): Ghost<Seq<u32>>,
        Ghost(cr0): Ghost<Seq<CubeEdge>>,
    )
        requires
            old(self).consistent(),
            old(self).outputs_ok(old(indices)@, old(crossings)@, v0, idx0, cr0),
            above@.len() == old(self).size() * old(self).size(),
            x + 1 < old(self).size(),
            y + 1 < old(self).size(),
            old(self).visits().len() + 15 <= u32::MAX,
        ensures
            final(self).consistent(),
            final(self).outputs_ok(final(indices)@, final(crossings)@, v0, idx0, cr0),
            final(self).size() == old(self).size(),
            final(self).layer() == old(self).layer(),
            final(self).below() == old(self).below(),
            final(self).visits() == old(self).visits() + cube_visits(
                old(self).below(),
                above@,
                old(self).size(),
                x as int,
                y as int,
                old(self).layer(),
            ),
            final(self).visits().len() <= old(self).visits().len() + 15,
    {
        let ghost n = self.size as int;
        let ghost z = self.layer as int;
        proof {
            self.lemma_consistent_basics();
        }
        let c = self.cube_index_at(above, x, y);
        let row = triangle_row(c);
        let ghost cv = cube_visits(self.below@, above@, n, x as int, y as int, z);
        let ghost base = self.visits@;
        let ghost cv_below = self.below@;
        proof {
            lemma_tri_edges(c as int);
            lemma_rows_ok(c as int);
            assert(base + cv.take(0) =~= base);
        }
        let mut i: usize = 0;
        let mut more = true;
        while more && i < 5
            invariant
                self.size as int == n,
                self.layer as int == z,
                self.below@ == cv_below,
                x + 1 < n,
                y + 1 < n,
                self.consistent(),
                self.outputs_ok(indices@, crossings@, v0, idx0, cr0),
                c < 256,
                row@ == tri_row(c as int),
                crate::tables::row_ok(row@),
                cv.len() == 3 * triangles_from(row@, 0),
                cv.len() <= 15,
                forall|k: int| 0 <= k < cv.len() ==> #[trigger] cv[k] == (CubeEdge {
                    x,
                    y,
                    z: z as usize,
                    edge: row@[k] as usize,
                }),
                i <= 5,
                more ==> triangles_from(row@, 0) == i + triangles_from(row@, i as int),
                !more ==> triangles_from(row@, 0) == i,
                self.visits@ == base + cv.take(3 * i),
                base.len() + 15 <= u32::MAX,
            decreases 5 - i + if more {
                1int
            } else {
                0int
            },
        {
            if row[3 * i] < 0 {
                more = false;
            } else {
                proof {
                    lemma_triangles_bound(row@, i as int + 1);
                }
                let mut j: usize = 0;
                while j < 3
                    invariant
                        self.size as int == n,
                        self.layer as int == z,
                        self.below@ == cv_below,
                        x + 1 < n,
                        y + 1 < n,
                        self.consistent(),
                        self.outputs_ok(indices@, crossings@, v0, idx0, cr0),
                        crate::tables::row_ok(row@),
                        forall|k: int| 0 <= k < cv.len() ==> #[trigger] cv[k] == (CubeEdge {
                            x,
                            y,
                            z: z as usize,
                            edge: row@[k] as usize,
                        }),
                        i < 5,
                        row@[3 * i] >= 0,
                        3 * i + 3 <= cv.len(),
                        cv.len() <= 15,
                        j <= 3,
                        self.visits@ == base + cv.take(3 * i + j),
                        base.len() + 15 <= u32::MAX,
                    decreases 3 - j,
                {
                    let e = row[3 * i + j];
                    assert(row@[3 * i + 1] >= 0 && row@[3 * i + 2] >= 0);
                    assert(0 <= e < 12);
                    self.visit(x, y, e as usize, indices, crossings, Ghost(v0), Ghost(idx0), Ghost(cr0));
                    proof {
                        assert(cv[3 * i + j] == CubeEdge { x, y, z: z as usize, edge: e as usize });
                        assert(self.visits@ =~= base + cv.take(3 * i + j + 1));
                    }
                    j = j + 1;
                }
                i = i + 1;
            }
        }
        proof {
            assert(cv.take(cv.len() as int) =~= cv);
        }
    }

    /// Extracts row `y` of cubes of the current slab.
    fn extract_row(
        &mut self,
        above: &Vec<bool>,
        y: usize,
        indices: &mut Vec<u32>,
        crossings: &mut Vec<CubeEdge>,
        Ghost(v0): Ghost<Seq<CubeEdge>>,
        Ghost(idx0): Ghost<Seq<u32>>,
        Ghost(cr0): Ghost<Seq<CubeEdge>>,
    )
        requires
            old(self).consistent(),
            old(self).outputs_ok(old(indices)@, old(crossings)@, v0, idx0, cr0),
            above@.len() == old(self).size() * old(self).size(),
            y + 1 < old(self).size(),
            old(self).layer() + 1 < old(self).size(),
            old(self).visits().len() + 15 * (old(self).size() - 1) <= u32::MAX,
        ensures
            final(self).consistent(),
            final(self).outputs_ok(final(indices)@, final(crossings)@, v0, idx0, cr0),
            final(self).size() == old(self).size(),
            final(self).layer() == old(self).layer(),
            final(self).below() == old(self).below(),
            final(self).visits() == old(self).visits() + row_visits(
                old(self).below(),
                above@,
                old(self).size(),
                y as int,
                old(self).layer(),
                old(self).size() - 1,
            ),
            final(self).visits().len() <= old(self).visits().len() + 15 * (old(self).size() - 1),
    {
        let n = self.size;
        let ghost m = n - 1;
        let ghost z = self.layer as int;
        let ghost below0 = self.below@;
        let ghost row_base = self.visits@;
        proof {
            assert(row_visits(below0, above@, n as int, y as int, z, 0) =~= Seq::<CubeEdge>::empty());
            assert(row_base + Seq::<CubeEdge>::empty() =~= row_base);
        }
        let mut x: usize = 0;
        while x < n - 1
            invariant
                n == self.size,
                self.layer as int == z,
                m == n - 1,
                z < m,
                y < m,
                self.below@ == below0,
                above@.len() == n * n,
                self.consistent(),
                self.outputs_ok(indices@, crossings@, v0, idx0, cr0),
                x <= m,
                self.visits@ == row_base + row_visits(below0, above@, n as int, y as int, z, x as int),
                self.visits@.len() <= row_base.len() + 15 * x,
                row_base.len() + 15 * m <= u32::MAX,
            decreases m - x,
        {
            self.extract_cube(above, x, y, indices, crossings, Ghost(v0), Ghost(idx0), Ghost(cr0));
            proof {
                assert(self.visits@ =~= row_base + row_visits(below0, above@, n as int, y as int, z, x as int + 1));
            }
            x = x + 1;
        }
    }

    /// Extracts the slab of cubes between the current layer and the layer
    /// `above`, which then becomes the current layer.
    ///
    /// The cubes are taken row by row, `x` fastest. For each triangle of
    /// each cube, three vertex indices are appended to `indices`; a grid
    /// edge that no earlier visit of this extraction lay on gets the next
    /// vertex index, and its cube edge is appended to `crossings`.
    pub fn extract_layer(
        &mut self,
        above: Vec<bool>,
        indices: &mut Vec<u32>,
        crossings: &mut Vec<CubeEdge>,
    )
        requires
            old(self).wf(),
            old(self).layer() < old(self).size() - 1,
            above@.len() == old(self).size() * old(self).size(),
        ensures
            final(self).wf(),
            final(self).size() == old(self).size(),
            final(self).layer() == old(self).layer() + 1,
            final(self).below() == above@,
            final(self).visits() == old(self).visits() + slab_visits(
                old(self).below(),
                above@,
                old(self).size(),
                old(self).layer(),
                old(self).size() - 1,
            ),
            old(self).vertices().len() <= final(self).vertices().len(),
            final(self).vertices().take(old(self).vertices().len() as int) == old(
                self,
            ).vertices(),
            final(crossings)@ == old(crossings)@ + final(self).vertices().skip(
                old(self).vertices().len() as int,
            ),
            final(indices)@.len() == old(indices)@.len() + final(self).visits().len() - old(
                self,
            ).visits().len(),
            (final(indices)@.len() - old(indices)@.len()) % 3 == 0,
            final(indices)@.take(old(indices)@.len() as int) == old(indices)@,
            indices_match(
                final(indices)@.skip(old(indices)@.len() as int),
                final(self).vertices(),
                final(self).visits().skip(old(self).visits().len() as int),
            ),
    {
        let n = self.size;
        let ghost z = self.layer as int;
        let ghost m = n - 1;
        let ghost below0 = self.below@;
        let ghost v0 = self.visits@;
        let ghost idx0 = indices@;
        let ghost cr0 = crossings@;
        proof {
            reveal(MarchingCubes::wf);
            self.lemma_consistent_basics();
            assert(15 * (m * m * m) == 15 * m * m * m) by (nonlinear_arith);
            reveal(MarchingCubes::outputs_ok);
            assert(v0.take(v0.len() as int) =~= v0);
            assert(first_visits(v0).take(first_visits(v0).len() as int) =~= first_visits(v0));
            assert(idx0.take(idx0.len() as int) =~= idx0);
            assert(crossings@ =~= cr0 + first_visits(v0).skip(first_visits(v0).len() as int));
            assert(indices@.skip(idx0.len() as int) =~= Seq::<u32>::empty());
            assert(v0.skip(v0.len() as int) =~= Seq::<CubeEdge>::empty());
            assert(slab_visits(below0, above@, n as int, z, 0) =~= Seq::<CubeEdge>::empty());
            assert(v0 + Seq::<CubeEdge>::empty() =~= v0);
            lemma_layer_bound(m, z);
        }
        let mut y: usize = 0;
        while y < n - 1
            invariant
                n == self.size,
                self.layer as int == z,
                m == n - 1,
                z < m,
                self.below@ == below0,
                above@.len() == n * n,
                self.consistent(),
                self.outputs_ok(indices@, crossings@, v0, idx0, cr0),
                y <= m,
                self.visits@ == v0 + slab_visits(below0, above@, n as int, z, y as int),
                v0.len() <= 15 * (z * m * m),
                self.visits@.len() <= v0.len() + 15 * m * y,
                15 * m * m * m <= u32::MAX,
            decreases m - y,
        {
            proof {
                lemma_row_bound(m, z, y as int);
            }
            self.extract_row(&above, y, indices, crossings, Ghost(v0), Ghost(idx0), Ghost(cr0));
            proof {
                assert(self.visits@ =~= v0 + slab_visits(below0, above@, n as int, z, y as int + 1));
                assert(15 * m * y + 15 * m == 15 * m * (y + 1)) by (nonlinear_arith);
            }
            y = y + 1;
        }
        self.finish_layer(above);
        proof {
            reveal(MarchingCubes::wf);
            reveal(MarchingCubes::outputs_ok);
            assert(self.visits@.skip(v0.len() as int) =~= slab_visits(below0, self.below@, n as int, z, m));
            lemma_row_bound(m, z, m - 1);
            lemma_slab_len(below0, self.below@, n as int, z, m);
            assert(15 * m * m == 15 * (m * m)) by (nonlinear_arith);
        }
    }

    /// Moves on to the next slab once the cubes of the current one are done.
    fn finish_layer(&mut self, above: Vec<bool>)
        requires
            old(self).consistent(),
            old(self).layer() + 1 < old(self).size(),
            above@.len() == old(self).size() * old(self).size(),
        ensures
            final(self).consistent(),
            final(self).size() == old(self).size(),
            final(self).layer() == old(self).layer() + 1,
            final(self).below() == above@,
            final(self).visits() == old(self).visits(),
    {
        let ghost z = self.layer as int;
        let ghost n = self.size as int;
        proof {
            reveal(MarchingCubes::consistent);
        }
        self.cache.advance_layer();
        self.below = above;
        self.layer = self.layer + 1;
        proof {
            let fv = first_visits(self.visits@);
            assert forall|k: EdgeKey| #[trigger]
                in_slab(k, n, z + 1) implies match self.cache.entry(k) {
                Some(i) => (i as int) < fv.len() && visit_key(fv[i as int]) == k,
                None => !has_key(fv, k),
            } by {
                if k.0 != 2 && k.3 == z + 1 {
                    assert(in_slab(k, n, z));
                } else if has_key(fv, k) {
                    let j = choose|j: int| 0 <= j < fv.len() && visit_key(#[trigger] fv[j]) == k;
                }
            }
        }
    }
}

} // verus!
