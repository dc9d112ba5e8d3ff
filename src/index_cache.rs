//! Deduplication of vertices along shared cube edges.
//!
//! A grid edge is named by its key `(axis, gx, gy, gz)`: the axis it runs
//! along (0 for x, 1 for y, 2 for z) and the grid point at its lower end.
//! While the sweep works on the slab of cubes between layers `z` and
//! `z + 1`, the cache answers for every edge that a cube of that slab can
//! touch, and holds O(size²) slots.

use vstd::prelude::*;

verus! {

/// The key of a grid edge: axis, then the grid point at its lower end.
pub type EdgeKey = (int, int, int, int);

/// The grid edge that local edge `edge` of the cube at `(x, y, z)` lies on.
pub open spec fn edge_key(x: int, y: int, z: int, edge: int) -> EdgeKey {
    if edge == 0 {
        (0, x, y, z)
    } else if edge == 1 {
        (1, x + 1, y, z)
    } else if edge == 2 {
        (0, x, y + 1, z)
    } else if edge == 3 {
        (1, x, y, z)
    } else if edge == 4 {
        (0, x, y, z + 1)
    } else if edge == 5 {
        (1, x + 1, y, z + 1)
    } else if edge == 6 {
        (0, x, y + 1, z + 1)
    } else if edge == 7 {
        (1, x, y, z + 1)
    } else if edge == 8 {
        (2, x, y, z)
    } else if edge == 9 {
        (2, x + 1, y, z)
    } else if edge == 10 {
        (2, x + 1, y + 1, z)
    } else {
        (2, x, y + 1, z)
    }
}

/// Whether a cube of the slab between layers `z` and `z + 1` of a grid of
/// `n` points per axis can touch the edge `k`.
pub open spec fn in_slab(k: EdgeKey, n: int, z: int) -> bool {
    &&& 0 <= k.1 < n
    &&& 0 <= k.2 < n
    &&& if k.0 == 2 {
        k.3 == z
    } else {
        (k.0 == 0 || k.0 == 1) && (k.3 == z || k.3 == z + 1)
    }
}

/// Every edge of a cube of the slab lies in the slab.
pub proof fn lemma_cube_edges_in_slab(n: int, x: int, y: int, z: int, edge: int)
    requires
        0 <= x < n - 1,
        0 <= y < n - 1,
        0 <= edge < 12,
    ensures
        in_slab(edge_key(x, y, z, edge), n, z),
{
}

proof fn lemma_slot_injective(n: int, a: int, b: int, c: int, d: int)
    requires
        0 <= a < n,
        0 <= c < n,
        0 <= b,
        0 <= d,
        b * n + a == d * n + c,
    ensures
        a == c,
        b == d,
{
    if b < d {
        assert(b * n + a < (b + 1) * n) by (nonlinear_arith)
            requires a < n;
        assert((b + 1) * n <= d * n) by (nonlinear_arith)
            requires b + 1 <= d, 0 <= n;
    } else if d < b {
        assert(d * n + c < (d + 1) * n) by (nonlinear_arith)
            requires c < n;
        assert((d + 1) * n <= b * n) by (nonlinear_arith)
            requires d + 1 <= b, 0 <= n;
    }
}

proof fn lemma_slot_bound(n: int, x: int, y: int)
    requires
        0 <= x < n,
        0 <= y < n,
    ensures
        0 <= y * n + x < n * n,
{
    assert(y * n + x < n * n) by (nonlinear_arith)
        requires 0 <= x < n, 0 <= y < n;
    assert(0 <= y * n) by (nonlinear_arith)
        requires 0 <= y, 0 <= n;
}

/// Vertex indices of the edges of one slab, kept in five planes of
/// `size * size` slots.
pub struct IndexCache {
    size: usize,
    bottom_x: Vec<Option<u32>>,
    bottom_y: Vec<Option<u32>>,
    top_x: Vec<Option<u32>>,
    top_y: Vec<Option<u32>>,
    vertical: Vec<Option<u32>>,
    layer: Ghost<int>,
}

fn empty_plane(len: usize) -> (r: Vec<Option<u32>>)
    ensures
        r@.len() == len,
        forall|i: int| 0 <= i < len ==> r@[i] is None,
{
    let mut r: Vec<Option<u32>> = Vec::new();
    while r.len() < len
        invariant
            r@.len() <= len,
            forall|i: int| 0 <= i < r@.len() ==> r@[i] is None,
        decreases len - r@.len(),
    {
        r.push(None);
    }
    r
}

impl IndexCache {
    /// Grid points per axis.
    pub closed spec fn size(&self) -> int {
        self.size as int
    }

    /// The lower layer of the slab that the cache answers for.
    pub closed spec fn layer(&self) -> int {
        self.layer@
    }

    pub closed spec fn wf(&self) -> bool {
        let n = self.size as int;
        &&& 2 <= n
        &&& n * n <= usize::MAX
        &&& self.bottom_x@.len() == n * n
        &&& self.bottom_y@.len() == n * n
        &&& self.top_x@.len() == n * n
        &&& self.top_y@.len() == n * n
        &&& self.vertical@.len() == n * n
    }

    /// The vertex index recorded for edge `k` of the current slab.
    pub closed spec fn entry(&self, k: EdgeKey) -> Option<u32> {
        let i = k.2 * self.size + k.1;
        if k.0 == 2 {
            self.vertical@[i]
        } else if k.3 == self.layer@ {
            if k.0 == 0 {
                self.bottom_x@[i]
            } else {
                self.bottom_y@[i]
            }
        } else {
            if k.0 == 0 {
                self.top_x@[i]
            } else {
                self.top_y@[i]
            }
        }
    }

    /// An empty cache for the first slab of a grid of `size` points per axis.
    pub fn new(size: usize) -> (r: IndexCache)
        requires
            2 <= size,
            size * size <= usize::MAX,
        ensures
            r.wf(),
            r.size() == size,
            r.layer() == 0,
            forall|k: EdgeKey| in_slab(k, size as int, 0) ==> r.entry(k) is None,
    {
        let len = size * size;
        let r = IndexCache {
            size,
            bottom_x: empty_plane(len),
            bottom_y: empty_plane(len),
            top_x: empty_plane(len),
            top_y: empty_plane(len),
            vertical: empty_plane(len),
            layer: Ghost(0),
        };
        assert forall|k: EdgeKey| in_slab(k, size as int, 0) implies r.entry(k) is None by {
            lemma_slot_bound(size as int, k.1, k.2);
        }
        r
    }

    /// The position of edge `edge` of the cube at `(x, y)` in its plane.
    fn slot(&self, x: usize, y: usize, edge: usize) -> (r: usize)
        requires
            self.wf(),
            x + 1 < self.size(),
            y + 1 < self.size(),
            edge < 12,
        ensures
            ({
                let k = edge_key(x as int, y as int, self.layer(), edge as int);
                r == k.2 * self.size() + k.1 && r < self.size() * self.size()
            }),
    {
        let gx = if edge == 1 || edge == 5 || edge == 9 || edge == 10 { x + 1 } else { x };
        let gy = if edge == 2 || edge == 6 || edge == 10 || edge == 11 { y + 1 } else { y };
        proof {
            lemma_slot_bound(self.size as int, gx as int, gy as int);
        }
        gy * self.size + gx
    }

    /// The vertex index recorded for edge `edge` of the cube at `(x, y)` of
    /// the current slab, if one was recorded.
    pub fn get(&self, x: usize, y: usize, edge: usize) -> (r: Option<u32>)
        requires
            self.wf(),
            x + 1 < self.size(),
            y + 1 < self.size(),
            edge < 12,
        ensures
            r == self.entry(edge_key(x as int, y as int, self.layer(), edge as int)),
    {
        let i = self.slot(x, y, edge);
        if edge >= 8 {
            self.vertical[i]
        } else if edge < 4 {
            if edge == 0 || edge == 2 {
                self.bottom_x[i]
            } else {
                self.bottom_y[i]
            }
        } else {
            if edge == 4 || edge == 6 {
                self.top_x[i]
            } else {
                self.top_y[i]
            }
        }
    }

    /// Records `index` as the vertex of edge `edge` of the cube at `(x, y)`.
    pub fn put(&mut self, x: usize, y: usize, edge: usize, index: u32)
        requires
            old(self).wf(),
            x + 1 < old(self).size(),
            y + 1 < old(self).size(),
            edge < 12,
            old(self).entry(edge_key(x as int, y as int, old(self).layer(), edge as int)) is None,
        ensures
            final(self).wf(),
            final(self).size() == old(self).size(),
            final(self).layer() == old(self).layer(),
            forall|k: EdgeKey|
                in_slab(k, old(self).size(), old(self).layer()) ==> final(self).entry(k) == if k
                    == edge_key(x as int, y as int, old(self).layer(), edge as int) {
                    Some(index)
                } else {
                    old(self).entry(k)
                },
    {
        let i = self.slot(x, y, edge);
        if edge >= 8 {
            self.vertical.set(i, Some(index));
        } else if edge < 4 {
            if edge == 0 || edge == 2 {
                self.bottom_x.set(i, Some(index));
            } else {
                self.bottom_y.set(i, Some(index));
            }
        } else {
            if edge == 4 || edge == 6 {
                self.top_x.set(i, Some(index));
            } else {
                self.top_y.set(i, Some(index));
            }
        }
        proof {
            let n = self.size as int;
            let key = edge_key(x as int, y as int, self.layer@, edge as int);
            assert(key.0 == 2 <==> edge >= 8);
            assert(key.0 == 0 <==> (edge == 0 || edge == 2 || edge == 4 || edge == 6));
            assert(key.0 == 1 <==> (edge == 1 || edge == 3 || edge == 5 || edge == 7));
            assert(key.3 == self.layer@ <==> (edge < 4 || edge >= 8));
            assert(key.3 == self.layer@ + 1 <==> (4 <= edge < 8));
            assert forall|k: EdgeKey| in_slab(k, n, self.layer@) && k != key implies self.entry(k)
                == old(self).entry(k) by {
                lemma_slot_bound(n, k.1, k.2);
                if k.2 * n + k.1 == key.2 * n + key.1 {
                    lemma_slot_injective(n, k.1, k.2, key.1, key.2);
                }
            }
        }
    }

    /// Moves on to the next slab: the edges of the layer that the two slabs
    /// share keep their entries, every other edge of the new slab has none.
    pub fn advance_layer(&mut self)
        requires
            old(self).wf(),
        ensures
            final(self).wf(),
            final(self).size() == old(self).size(),
            final(self).layer() == old(self).layer() + 1,
            forall|k: EdgeKey|
                in_slab(k, old(self).size(), old(self).layer() + 1) ==> final(self).entry(k) == if k.0
                    != 2 && k.3 == old(self).layer() + 1 {
                    old(self).entry(k)
                } else {
                    None
                },
    {
        let len = self.size * self.size;
        let fresh_x = empty_plane(len);
        let fresh_y = empty_plane(len);
        let fresh_v = empty_plane(len);
        std::mem::swap(&mut self.bottom_x, &mut self.top_x);
        std::mem::swap(&mut self.bottom_y, &mut self.top_y);
        self.top_x = fresh_x;
        self.top_y = fresh_y;
        self.vertical = fresh_v;
        self.layer = Ghost(self.layer@ + 1);
        proof {
            let n = self.size as int;
            assert forall|k: EdgeKey| in_slab(k, n, self.layer@) implies self.entry(k) == if k.0 != 2
                && k.3 == self.layer@ {
                old(self).entry(k)
            } else {
                None
            } by {
                lemma_slot_bound(n, k.1, k.2);
                let i = k.2 * n + k.1;
                assert(self.top_x@[i] is None);
                assert(self.top_y@[i] is None);
                assert(self.vertical@[i] is None);
                assert(self.bottom_x@[i] == old(self).top_x@[i]);
                assert(self.bottom_y@[i] == old(self).top_y@[i]);
            }
        }
    }
}

} // verus!
