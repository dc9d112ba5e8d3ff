use isosurface::marching_cubes::MarchingCubes;
use isosurface::tables::{triangle_row, CORNERS, EDGE_CONNECTION};
use isosurface::visits::CubeEdge;

fn layer(size: usize, inside: &dyn Fn(usize, usize) -> bool) -> Vec<bool> {
    let mut v = Vec::new();
    for y in 0..size {
        for x in 0..size {
            v.push(inside(x, y));
        }
    }
    v
}

fn run(size: usize, inside: &dyn Fn(usize, usize, usize) -> bool) -> (Vec<u32>, Vec<CubeEdge>) {
    let mut mc = MarchingCubes::new(size, layer(size, &|x, y| inside(x, y, 0)));
    let mut indices = Vec::new();
    let mut crossings = Vec::new();
    for z in 0..size - 1 {
        mc.extract_layer(layer(size, &|x, y| inside(x, y, z + 1)), &mut indices, &mut crossings);
    }
    (indices, crossings)
}

fn grid_edge(c: &CubeEdge) -> ([usize; 3], [usize; 3]) {
    let [u, v] = EDGE_CONNECTION[c.edge];
    let a = [c.x + CORNERS[u][0], c.y + CORNERS[u][1], c.z + CORNERS[u][2]];
    let b = [c.x + CORNERS[v][0], c.y + CORNERS[v][1], c.z + CORNERS[v][2]];
    if a < b { (a, b) } else { (b, a) }
}

#[test]
fn uniform_cubes_yield_no_triangles() {
    assert_eq!(triangle_row(0)[0], -1);
    assert_eq!(triangle_row(255)[0], -1);
    let (indices, crossings) = run(3, &|_, _, _| true);
    assert!(indices.is_empty() && crossings.is_empty());
    let (indices, crossings) = run(3, &|_, _, _| false);
    assert!(indices.is_empty() && crossings.is_empty());
}

#[test]
fn table_rows_use_exactly_the_crossing_edges() {
    for c in 0..256usize {
        let row = triangle_row(c);
        let mut used = [false; 12];
        let mut k = 0;
        while k < 15 && row[k] >= 0 {
            used[row[k] as usize] = true;
            k += 1;
        }
        assert_eq!(k % 3, 0);
        for e in 0..12 {
            let [u, v] = EDGE_CONNECTION[e];
            let crosses = ((c >> u) & 1) != ((c >> v) & 1);
            assert_eq!(used[e], crosses, "cube index {} edge {}", c, e);
        }
    }
}

#[test]
fn plane_gives_one_vertex_per_crossing_edge() {
    let size = 4;
    let (indices, crossings) = run(size, &|_, _, z| z == 0);
    assert_eq!(crossings.len(), size * size);
    for c in &crossings {
        let (a, b) = grid_edge(c);
        assert_eq!(a[2], 0);
        assert_eq!(b[2], 1);
        assert_eq!(a[0], b[0]);
        assert_eq!(a[1], b[1]);
    }
    assert_eq!(indices.len(), (size - 1) * (size - 1) * 6);
}

#[test]
fn single_inside_corner() {
    let (indices, crossings) = run(2, &|x, y, z| x == 0 && y == 0 && z == 0);
    assert_eq!(indices, vec![0, 1, 2]);
    let edges: Vec<usize> = crossings.iter().map(|c| c.edge).collect();
    assert_eq!(edges, vec![0, 8, 3]);
}

#[test]
fn shared_edges_share_vertices() {
    let (indices, crossings) = run(3, &|x, y, z| x == 1 && y == 1 && z == 1);
    assert_eq!(crossings.len(), 6);
    assert_eq!(indices.len(), 8 * 3);
    let mut keys: Vec<([usize; 3], [usize; 3])> = crossings.iter().map(grid_edge).collect();
    keys.sort();
    keys.dedup();
    assert_eq!(keys.len(), 6);
    for k in &keys {
        assert!(k.0 == [1, 1, 1] || k.1 == [1, 1, 1]);
    }
}

#[test]
fn indices_never_refer_forward() {
    let field = |x: usize, y: usize, z: usize| (x * 7 + y * 3 + z * 5) % 4 == 0;
    let (indices, crossings) = run(5, &field);
    let mut emitted: u32 = 0;
    for &i in &indices {
        assert!(i <= emitted);
        if i == emitted {
            emitted += 1;
        }
    }
    assert_eq!(emitted as usize, crossings.len());
    let mut keys: Vec<([usize; 3], [usize; 3])> = crossings.iter().map(grid_edge).collect();
    keys.sort();
    keys.dedup();
    assert_eq!(keys.len(), crossings.len());
}

#[test]
fn extraction_is_deterministic() {
    let field = |x: usize, y: usize, z: usize| (x + 2 * y + z) % 3 == 1;
    let first = run(4, &field);
    let second = run(4, &field);
    assert_eq!(first, second);
}

#[test]
fn first_vertex_index_zero_is_reused() {
    let (indices, crossings) = run(3, &|x, y, z| x == 0 && y == 0 && z == 0);
    assert_eq!(crossings.len(), 3);
    assert_eq!(indices, vec![0, 1, 2]);
    let (indices, crossings) = run(3, &|x, y, z| x <= 1 && y == 0 && z == 0);
    assert_eq!(crossings.len(), 5);
    assert_eq!(indices.iter().filter(|&&i| i == 0).count(), 3);
    assert!(indices.iter().all(|&i| (i as usize) < 5));
}
