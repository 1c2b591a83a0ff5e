//! Grid algorithms over the atlas: 8- and 4-neighbourhoods of a row-major
//! grid, connected-component labelling of a land mask, and the chamfer
//! distance transform to the nearest cell of a given mask value.

use vstd::prelude::*;

verus! {

/// Distance reported for every cell when no cell carries the source value.
pub const NO_SOURCE_DISTANCE: u32 = 1_000_000_000;

/// Distance a cell keeps when no path from a source reaches it more cheaply.
pub const UNREACHED_DISTANCE: u32 = 1_073_741_823;

/// Cost of one horizontal or vertical step (a thousandth of a cell).
pub const CARDINAL_STEP_COST: u32 = 1000;

/// Cost of one diagonal step, `1000 * sqrt(2)` rounded down.
pub const DIAGONAL_STEP_COST: u32 = 1414;

/// Shape of a row-major grid that the neighbour functions accept.
pub open spec fn grid_ok(width: u32, height: u32) -> bool {
    &&& width as int * height as int <= usize::MAX
    &&& width <= i32::MAX
    &&& height <= i32::MAX
}

/// Cells `i` and `j` are distinct members of the 8-neighbourhood of each other.
pub open spec fn is_grid_neighbor(i: int, j: int, width: int, height: int) -> bool {
    &&& 0 <= i < width * height
    &&& 0 <= j < width * height
    &&& i != j
    &&& -1 <= j % width - i % width <= 1
    &&& -1 <= j / width - i / width <= 1
}

/// Cells `i` and `j` share an edge.
pub open spec fn is_cardinal_neighbor(i: int, j: int, width: int, height: int) -> bool {
    &&& is_grid_neighbor(i, j, width, height)
    &&& (j % width == i % width || j / width == i / width)
}

/// Step cost between two neighbouring cells.
pub open spec fn step_cost(i: int, j: int, width: int) -> u32 {
    if j % width != i % width && j / width != i / width {
        DIAGONAL_STEP_COST
    } else {
        CARDINAL_STEP_COST
    }
}

/// Row-major index arithmetic: `z * width + x` has column `x` and row `z`.
pub proof fn lemma_index_coords(x: int, z: int, width: int)
    requires
        width > 0,
        0 <= x < width,
    ensures
        (z * width + x) % width == x,
        (z * width + x) / width == z,
{
    vstd::arithmetic::div_mod::lemma_fundamental_div_mod_converse(z * width + x, width, z, x);
}

/// A cell index splits into its column and row.
pub proof fn lemma_index_split(i: int, width: int)
    requires
        width > 0,
    ensures
        i == (i / width) * width + i % width,
        0 <= i % width < width,
{
    vstd::arithmetic::div_mod::lemma_fundamental_div_mod(i, width);
    vstd::arithmetic::div_mod::lemma_mod_bound(i, width);
    vstd::arithmetic::mul::lemma_mul_is_commutative(width, i / width);
}

/// Cells of a `width * height` grid lie in rows `0..height`.
pub proof fn lemma_row_bound(i: int, width: int, height: int)
    requires
        width > 0,
        height >= 0,
        0 <= i < width * height,
    ensures
        0 <= i / width < height,
{
    lemma_index_split(i, width);
    vstd::arithmetic::div_mod::lemma_div_pos_is_pos(i, width);
    if i / width >= height {
        assert(false) by (nonlinear_arith)
            requires
                i / width >= height,
                width > 0,
                i == (i / width) * width + i % width,
                0 <= i % width,
                i < width * height;
    }
}

/// Row-major index of `(x, z)` is below `width * height` when the cell lies in the grid.
pub proof fn lemma_index_in_grid(x: int, z: int, width: int, height: int)
    requires
        0 <= x < width,
        0 <= z < height,
    ensures
        0 <= z * width + x < width * height,
{
    assert(z * width + x < width * height) by (nonlinear_arith)
        requires 0 <= x < width, 0 <= z < height;
    assert(z * width >= 0) by (nonlinear_arith)
        requires 0 <= x < width, 0 <= z;
}

/// The 8-neighbourhood of `index`, in row-major order, with the step cost to each neighbour.
pub fn for_each_neighbor(index: usize, width: u32, height: u32) -> (neighbors: Vec<(usize, u32)>)
    requires
        grid_ok(width, height),
        index < width * height,
    ensures
        forall|k: int|
            0 <= k < neighbors.len() ==> is_grid_neighbor(
                index as int,
                #[trigger] neighbors@[k].0 as int,
                width as int,
                height as int,
            ) && neighbors@[k].1 == step_cost(index as int, neighbors@[k].0 as int, width as int),
        forall|j: int|
            is_grid_neighbor(index as int, j, width as int, height as int) ==> exists|k: int|
                0 <= k < neighbors.len() && #[trigger] neighbors@[k].0 == j,
        forall|k1: int, k2: int|
            0 <= k1 < k2 < neighbors.len() ==> #[trigger] neighbors@[k1].0 < #[trigger] neighbors@[k2].0,
{
    let w: usize = width as usize;
    let x: usize = index % w;
    let z: usize = index / w;
    proof {
        lemma_index_split(index as int, w as int);
        lemma_row_bound(index as int, w as int, height as int);
    }
    let mut neighbors: Vec<(usize, u32)> = Vec::new();
    let z_lo: usize = if z > 0 { z - 1 } else { 0 };
    let z_hi: usize = if z + 1 < height as usize { z + 1 } else { z };
    let x_lo: usize = if x > 0 { x - 1 } else { 0 };
    let x_hi: usize = if x + 1 < w { x + 1 } else { x };
    let mut nz: usize = z_lo;
    while nz <= z_hi
        invariant
            grid_ok(width, height),
            w == width,
            index < width * height,
            x == index as int % w as int,
            z == index as int / w as int,
            index == z * w + x,
            x < w,
            z < height,
            z_lo <= nz,
            nz <= z_hi + 1,
            z_hi < height,
            z_lo == if z > 0 { z - 1 } else { 0 },
            z_hi == if z + 1 < height { z + 1 } else { z as int },
            x_lo == if x > 0 { x - 1 } else { 0 },
            x_hi == if x + 1 < w { x + 1 } else { x as int },
            forall|k: int|
                0 <= k < neighbors.len() ==> is_grid_neighbor(
                    index as int,
                    #[trigger] neighbors@[k].0 as int,
                    width as int,
                    height as int,
                ) && neighbors@[k].1 == step_cost(index as int, neighbors@[k].0 as int, width as int)
                    && neighbors@[k].0 < nz * w,
            forall|j: int|
                is_grid_neighbor(index as int, j, width as int, height as int) && j / (w as int) < nz
                    ==> exists|k: int| 0 <= k < neighbors.len() && #[trigger] neighbors@[k].0 == j,
            forall|k1: int, k2: int|
                0 <= k1 < k2 < neighbors.len() ==> #[trigger] neighbors@[k1].0
                    < #[trigger] neighbors@[k2].0,
        decreases z_hi + 1 - nz,
    {
        let mut nx: usize = x_lo;
        while nx <= x_hi
            invariant
                grid_ok(width, height),
                w == width,
                index < width * height,
                x == index as int % w as int,
                z == index as int / w as int,
                index == z * w + x,
                x < w,
                z < height,
                z_lo <= nz <= z_hi,
                z_hi < height,
                x_lo <= nx <= x_hi + 1,
                x_hi < w,
                z_lo == if z > 0 { z - 1 } else { 0 },
                z_hi == if z + 1 < height { z + 1 } else { z as int },
                x_lo == if x > 0 { x - 1 } else { 0 },
                x_hi == if x + 1 < w { x + 1 } else { x as int },
                forall|k: int|
                    0 <= k < neighbors.len() ==> is_grid_neighbor(
                        index as int,
                        #[trigger] neighbors@[k].0 as int,
                        width as int,
                        height as int,
                    ) && neighbors@[k].1 == step_cost(
                        index as int,
                        neighbors@[k].0 as int,
                        width as int,
                    ) && neighbors@[k].0 < nz * w + nx,
                forall|j: int|
                    is_grid_neighbor(index as int, j, width as int, height as int) && (j / (w as int)
                        < nz || (j / (w as int) == nz && j % (w as int) < nx)) ==> exists|k: int|
                        0 <= k < neighbors.len() && #[trigger] neighbors@[k].0 == j,
                forall|k1: int, k2: int|
                    0 <= k1 < k2 < neighbors.len() ==> #[trigger] neighbors@[k1].0
                        < #[trigger] neighbors@[k2].0,
            decreases x_hi + 1 - nx,
        {
            proof {
                lemma_index_in_grid(nx as int, nz as int, w as int, height as int);
                lemma_index_coords(nx as int, nz as int, w as int);
            }
            let neighbor: usize = nz * w + nx;
            let ghost before = neighbors@;
            if nx != x || nz != z {
                let cost: u32 = if nx != x && nz != z {
                    DIAGONAL_STEP_COST
                } else {
                    CARDINAL_STEP_COST
                };
                neighbors.push((neighbor, cost));
            }
            proof {
                assert forall|j: int|
                    is_grid_neighbor(index as int, j, width as int, height as int) && (j / (w as int)
                        < nz || (j / (w as int) == nz && j % (w as int) < nx + 1)) implies exists|
                    k: int,
                | 0 <= k < neighbors.len() && #[trigger] neighbors@[k].0 == j by {
                    lemma_index_split(j, w as int);
                    lemma_index_split(index as int, w as int);
                    if j / (w as int) == nz && j % (w as int) == nx {
                        assert(j == neighbor);
                        assert(neighbors@[neighbors.len() - 1].0 == j);
                    } else {
                        let k = choose|k: int| 0 <= k < before.len() && #[trigger] before[k].0 == j;
                        assert(neighbors@[k] == before[k]);
                    }
                }
                assert forall|k: int| 0 <= k < neighbors.len() implies #[trigger] neighbors@[k].0
                    < nz * w + nx + 1 by {}
            }
            nx = nx + 1;
        }
        proof {
            assert forall|j: int|
                is_grid_neighbor(index as int, j, width as int, height as int) && j / (w as int) < nz
                    + 1 implies exists|k: int|
                0 <= k < neighbors.len() && #[trigger] neighbors@[k].0 == j by {
                lemma_index_split(j, w as int);
            }
            assert forall|k: int| 0 <= k < neighbors.len() implies #[trigger] neighbors@[k].0 < (nz
                + 1) * w by {
                assert(nz * w + x_hi + 1 <= (nz + 1) * w) by (nonlinear_arith)
                    requires x_hi < w;
            }
        }
        nz = nz + 1;
    }
    proof {
        assert forall|j: int| is_grid_neighbor(index as int, j, width as int, height as int) implies exists|
            k: int,
        | 0 <= k < neighbors.len() && #[trigger] neighbors@[k].0 == j by {
            lemma_index_split(j, w as int);
            lemma_row_bound(j, w as int, height as int);
        }
    }
    neighbors
}

/// The edge-sharing neighbours of `index`: west, east, north, south, those that lie in the grid.
#[verifier::rlimit(40)]
pub fn for_each_cardinal_neighbor(index: usize, width: u32, height: u32) -> (neighbors: Vec<usize>)
    requires
        grid_ok(width, height),
        index < width * height,
    ensures
        forall|k: int|
            0 <= k < neighbors.len() ==> is_cardinal_neighbor(
                index as int,
                #[trigger] neighbors@[k] as int,
                width as int,
                height as int,
            ),
        forall|j: int|
            is_cardinal_neighbor(index as int, j, width as int, height as int) ==> exists|k: int|
                0 <= k < neighbors.len() && #[trigger] neighbors@[k] == j,
        neighbors@.no_duplicates(),
        neighbors.len() <= 4,
{
    let w: usize = width as usize;
    let x: usize = index % w;
    let z: usize = index / w;
    proof {
        lemma_index_split(index as int, w as int);
        lemma_row_bound(index as int, w as int, height as int);
    }
    let mut neighbors: Vec<usize> = Vec::new();
    if x > 0 {
        proof {
            lemma_index_coords(x - 1, z as int, w as int);
        }
        neighbors.push(index - 1);
        assert(neighbors@[neighbors.len() - 1] == index - 1);
    }
    let ghost after_west = neighbors@;
    if x + 1 < w {
        proof {
            lemma_index_coords(x + 1, z as int, w as int);
            lemma_index_in_grid(x + 1, z as int, w as int, height as int);
        }
        neighbors.push(index + 1);
        assert(neighbors@[neighbors.len() - 1] == index + 1);
    }
    let ghost after_east = neighbors@;
    if z > 0 {
        proof {
            lemma_index_coords(x as int, z - 1, w as int);
            assert((z - 1) * w + x == index - w) by (nonlinear_arith)
                requires index == z * w + x;
        }
        neighbors.push(index - w);
        assert(neighbors@[neighbors.len() - 1] == index - w);
    }
    let ghost after_north = neighbors@;
    if z + 1 < height as usize {
        proof {
            lemma_index_coords(x as int, z + 1, w as int);
            lemma_index_in_grid(x as int, z + 1, w as int, height as int);
            assert((z + 1) * w + x == index + w) by (nonlinear_arith)
                requires index == z * w + x;
        }
        neighbors.push(index + w);
        assert(neighbors@[neighbors.len() - 1] == index + w);
    }
    proof {
        assert(x > 0 ==> neighbors@[0] == index - 1);
        assert(x + 1 < w ==> neighbors@[after_west.len() as int] == index + 1);
        assert(z > 0 ==> neighbors@[after_east.len() as int] == index - w);
        assert(z + 1 < height ==> neighbors@[after_north.len() as int] == index + w);
        assert forall|j: int|
            is_cardinal_neighbor(index as int, j, width as int, height as int) implies exists|k: int|
            0 <= k < neighbors.len() && #[trigger] neighbors@[k] == j by {
            lemma_index_split(j, w as int);
            lemma_row_bound(j, w as int, height as int);
            if j / (w as int) == z {
                if j % (w as int) == x - 1 {
                    assert(j == index - 1);
                } else {
                    assert(j == index + 1);
                }
            } else if j / (w as int) == z - 1 {
                assert(j == index - w) by (nonlinear_arith)
                    requires
                        j == (j / (w as int)) * w + j % (w as int),
                        j % (w as int) == x,
                        j / (w as int) == z - 1,
                        index == z * w + x;
            } else {
                assert(j == index + w) by (nonlinear_arith)
                    requires
                        j == (j / (w as int)) * w + j % (w as int),
                        j % (w as int) == x,
                        j / (w as int) == z + 1,
                        index == z * w + x;
            }
        }
    }
    neighbors
}

/// `path` walks from cell to edge-sharing cell over cells where `mask` is set.
pub open spec fn is_mask_path(mask: Seq<bool>, width: int, height: int, path: Seq<int>) -> bool {
    &&& path.len() >= 1
    &&& forall|k: int| 0 <= k < path.len() ==> (#[trigger] path[k]) < mask.len() && mask[path[k]]
    &&& forall|k: int|
        0 <= k < path.len() - 1 ==> is_cardinal_neighbor(
            #[trigger] path[k],
            path[k + 1],
            width,
            height,
        )
}

/// Cells `a` and `b` lie in the same 4-connected component of `mask`.
pub open spec fn mask_connected(mask: Seq<bool>, width: int, height: int, a: int, b: int) -> bool {
    exists|path: Seq<int>|
        #[trigger] is_mask_path(mask, width, height, path) && path[0] == a && path.last() == b
}

/// Every edge-sharing pair of set cells carries the same label.
pub open spec fn labels_closed(mask: Seq<bool>, ids: Seq<u32>, width: int, height: int) -> bool {
    forall|i: int, j: int|
        #![trigger is_cardinal_neighbor(i, j, width, height), ids[i], ids[j]]
        is_cardinal_neighbor(i, j, width, height) && mask[i] && mask[j] ==> ids[i] == ids[j]
}

/// A set cell is connected to itself.
pub proof fn lemma_connected_refl(mask: Seq<bool>, width: int, height: int, a: int)
    requires
        0 <= a < mask.len(),
        mask[a],
    ensures
        mask_connected(mask, width, height, a, a),
{
    let p = seq![a];
    assert(is_mask_path(mask, width, height, p));
}

/// Extending a path by one edge-sharing set cell keeps it connected.
pub proof fn lemma_connected_step(mask: Seq<bool>, width: int, height: int, a: int, b: int, c: int)
    requires
        mask_connected(mask, width, height, a, b),
        is_cardinal_neighbor(b, c, width, height),
        0 <= c < mask.len(),
        mask[c],
    ensures
        mask_connected(mask, width, height, a, c),
{
    let p = choose|p: Seq<int>| #[trigger] is_mask_path(mask, width, height, p) && p[0] == a && p.last() == b;
    let q = p.push(c);
    assert forall|k: int| 0 <= k < q.len() - 1 implies is_cardinal_neighbor(
        #[trigger] q[k],
        q[k + 1],
        width,
        height,
    ) by {
        if k < p.len() - 1 {
            assert(q[k] == p[k] && q[k + 1] == p[k + 1]);
        }
    }
    assert forall|k: int| 0 <= k < q.len() implies (#[trigger] q[k]) < mask.len() && mask[q[k]] by {
        if k < p.len() {
            assert(q[k] == p[k]);
        }
    }
    assert(is_mask_path(mask, width, height, q));
}

/// Connectivity is symmetric.
pub proof fn lemma_connected_symmetric(mask: Seq<bool>, width: int, height: int, a: int, b: int)
    requires
        mask_connected(mask, width, height, a, b),
    ensures
        mask_connected(mask, width, height, b, a),
{
    let p = choose|p: Seq<int>| #[trigger] is_mask_path(mask, width, height, p) && p[0] == a && p.last() == b;
    let q = p.reverse();
    assert forall|k: int| 0 <= k < q.len() - 1 implies is_cardinal_neighbor(
        #[trigger] q[k],
        q[k + 1],
        width,
        height,
    ) by {
        let i = p.len() - 1 - k;
        assert(q[k] == p[i] && q[k + 1] == p[i - 1]);
        assert(is_cardinal_neighbor(p[i - 1], p[i], width, height));
    }
    assert forall|k: int| 0 <= k < q.len() implies (#[trigger] q[k]) < mask.len() && mask[q[k]] by {
        assert(q[k] == p[p.len() - 1 - k]);
    }
    assert(is_mask_path(mask, width, height, q));
}

/// Connectivity is transitive.
pub proof fn lemma_connected_trans(mask: Seq<bool>, width: int, height: int, a: int, b: int, c: int)
    requires
        mask_connected(mask, width, height, a, b),
        mask_connected(mask, width, height, b, c),
    ensures
        mask_connected(mask, width, height, a, c),
{
    let p = choose|p: Seq<int>| #[trigger] is_mask_path(mask, width, height, p) && p[0] == a && p.last() == b;
    let r = choose|r: Seq<int>| #[trigger] is_mask_path(mask, width, height, r) && r[0] == b && r.last() == c;
    let q = p + r.drop_first();
    assert forall|k: int| 0 <= k < q.len() - 1 implies is_cardinal_neighbor(
        #[trigger] q[k],
        q[k + 1],
        width,
        height,
    ) by {
        if k < p.len() - 1 {
            assert(q[k] == p[k] && q[k + 1] == p[k + 1]);
        } else if k == p.len() - 1 {
            assert(q[k] == r[0] && q[k + 1] == r[1]);
        } else {
            assert(q[k] == r[k - p.len() + 1] && q[k + 1] == r[k - p.len() + 2]);
        }
    }
    assert forall|k: int| 0 <= k < q.len() implies (#[trigger] q[k]) < mask.len() && mask[q[k]] by {
        if k < p.len() {
            assert(q[k] == p[k]);
        } else {
            assert(q[k] == r[k - p.len() + 1]);
        }
    }
    if r.len() == 1 {
        assert(q =~= p);
    } else {
        assert(q.last() == r.last());
    }
    assert(is_mask_path(mask, width, height, q));
}

/// Labels that agree across every edge agree along every path.
pub proof fn lemma_closed_labels_constant_on_path(
    mask: Seq<bool>,
    ids: Seq<u32>,
    width: int,
    height: int,
    path: Seq<int>,
)
    requires
        is_mask_path(mask, width, height, path),
        labels_closed(mask, ids, width, height),
    ensures
        ids[path[0]] == ids[path.last()],
    decreases path.len(),
{
    if path.len() > 1 {
        let prefix = path.drop_last();
        assert forall|k: int| 0 <= k < prefix.len() - 1 implies is_cardinal_neighbor(
            #[trigger] prefix[k],
            prefix[k + 1],
            width,
            height,
        ) by {
            assert(prefix[k] == path[k] && prefix[k + 1] == path[k + 1]);
        }
        assert forall|k: int| 0 <= k < prefix.len() implies (#[trigger] prefix[k]) < mask.len() && mask[prefix[k]] by {
            assert(prefix[k] == path[k]);
        }
        lemma_closed_labels_constant_on_path(mask, ids, width, height, prefix);
        let n = path.len() - 1;
        assert(is_cardinal_neighbor(path[n - 1], path[n], width, height));
        assert(mask[path[n - 1]] && mask[path[n]]);
        assert(ids[path[n - 1]] == ids[path[n]]);
    }
}

/// A sequence of distinct indices below `n` has at most `n` entries.
pub proof fn lemma_distinct_indices_len(s: Seq<usize>, n: int)
    requires
        s.no_duplicates(),
        n >= 0,
        forall|k: int| 0 <= k < s.len() ==> (#[trigger] s[k] as int) < n,
    ensures
        s.len() <= n,
{
    let f = |x: usize| x as int;
    let t = s.map_values(f);
    assert(forall|a: usize, b: usize| #[trigger] f(a) == #[trigger] f(b) ==> a == b);
    s.lemma_no_duplicates_injective(f);
    t.unique_seq_to_set();
    vstd::set_lib::lemma_int_range(0, n);
    assert(t.to_set().subset_of(vstd::set_lib::set_int_range(0, n))) by {
        assert forall|v: int| t.to_set().contains(v) implies vstd::set_lib::set_int_range(0, n).contains(v) by {
            let k = choose|k: int| 0 <= k < t.len() && t[k] == v;
            assert(t[k] == s[k] as int);
        }
    }
    vstd::set_lib::lemma_len_subset(t.to_set(), vstd::set_lib::set_int_range(0, n));
}

/// Cell `i` is labelled and every set edge-sharing neighbour carries its label.
pub open spec fn cell_closed(mask: Seq<bool>, ids: Seq<u32>, width: int, height: int, i: int) -> bool {
    forall|m: int|
        #![trigger is_cardinal_neighbor(i, m, width, height)]
        is_cardinal_neighbor(i, m, width, height) && mask[m] ==> ids[m] == ids[i]
}

/// Labels the 4-connected components of `mask` (a `width * height` row-major
/// grid): cells outside the mask get 0, and the components get `1, 2, ...` in
/// the order of their lowest cell index.
pub fn assign_continent_ids(mask: &Vec<bool>, width: u32, height: u32) -> (ids: Vec<u32>)
    requires
        grid_ok(width, height),
        mask.len() == width * height,
        mask.len() < u32::MAX,
    ensures
        ids.len() == mask.len(),
        forall|i: int| 0 <= i < ids.len() ==> (#[trigger] ids@[i] == 0 <==> !mask@[i]),
        forall|i: int, j: int|
            0 <= i < ids.len() && 0 <= j < ids.len() && mask@[i] && mask@[j] ==> (ids@[i] == ids@[j]
                <==> mask_connected(mask@, width as int, height as int, i, j)),
        forall|i: int|
            0 <= i < ids.len() && #[trigger] ids@[i] > 1 ==> exists|j: int|
                0 <= j < i && ids@[j] == ids@[i] - 1,
{
    let n: usize = mask.len();
    let ghost w = width as int;
    let ghost h = height as int;
    let mut ids: Vec<u32> = Vec::new();
    while ids.len() < n
        invariant
            ids.len() <= n,
            forall|j: int| 0 <= j < ids.len() ==> ids@[j] == 0,
        decreases n - ids.len(),
    {
        ids.push(0);
    }
    let mut next_id: u32 = 1;
    let ghost mut seeds: Seq<usize> = Seq::empty();
    let mut start: usize = 0;
    while start < n
        invariant
            grid_ok(width, height),
            n == mask.len(),
            n == w * h,
            n < u32::MAX,
            w == width,
            h == height,
            ids.len() == n,
            start <= n,
            next_id as int == seeds.len() + 1,
            next_id <= start + 1,
            forall|j: int| 0 <= j < n ==> (#[trigger] ids@[j] != 0 ==> mask@[j]),
            forall|j: int| 0 <= j < n ==> #[trigger] ids@[j] < next_id,
            forall|j: int| 0 <= j < start && #[trigger] mask@[j] ==> ids@[j] != 0,
            forall|j: int|
                0 <= j < n && #[trigger] ids@[j] != 0 ==> cell_closed(mask@, ids@, w, h, j),
            forall|k: int|
                0 <= k < seeds.len() ==> #[trigger] seeds[k] < start && ids@[seeds[k] as int]
                    == k + 1,
            forall|k1: int, k2: int|
                0 <= k1 < k2 < seeds.len() ==> #[trigger] seeds[k1] < #[trigger] seeds[k2],
            forall|j: int|
                0 <= j < n && #[trigger] ids@[j] != 0 ==> seeds[ids@[j] - 1] <= j,
            forall|j: int|
                0 <= j < n && #[trigger] ids@[j] != 0 ==> mask_connected(
                    mask@,
                    w,
                    h,
                    seeds[ids@[j] - 1] as int,
                    j,
                ),
        decreases n - start,
    {
        if mask[start] && ids[start] == 0 {
            ids.set(start, next_id);
            proof {
                seeds = seeds.push(start);
                lemma_connected_refl(mask@, w, h, start as int);
            }
            let mut queue: Vec<usize> = Vec::new();
            queue.push(start);
            let mut head: usize = 0;
            proof {
                assert(queue@ =~= seq![start]);
                assert(queue@[0] == start);
                assert forall|j: int| 0 <= j < n implies (#[trigger] ids@[j] == next_id
                    <==> queue@.contains(j as usize)) by {
                    if queue@.contains(j as usize) {
                        let q = choose|q: int| 0 <= q < queue.len() && queue@[q] == j as usize;
                        assert(q == 0);
                    }
                }
            }
            while head < queue.len()
                invariant
                    grid_ok(width, height),
                    n == mask.len(),
                    n == w * h,
                    n < u32::MAX,
                    w == width,
                    h == height,
                    ids.len() == n,
                    start < n,
                    next_id as int == seeds.len(),
                    next_id >= 1,
                    next_id <= start + 1,
                    seeds.last() == start,
                    head <= queue.len(),
                    queue@.no_duplicates(),
                    forall|k: int| 0 <= k < queue.len() ==> (#[trigger] queue@[k] as int) < n,
                    forall|j: int|
                        0 <= j < n ==> (#[trigger] ids@[j] == next_id <==> queue@.contains(j as usize)),
                    forall|j: int| 0 <= j < n ==> (#[trigger] ids@[j] != 0 ==> mask@[j]),
                    forall|j: int| 0 <= j < n ==> #[trigger] ids@[j] <= next_id,
                    forall|j: int| 0 <= j <= start && #[trigger] mask@[j] ==> ids@[j] != 0,
                    forall|j: int|
                        0 <= j < n && 0 < #[trigger] ids@[j] < next_id ==> cell_closed(
                            mask@,
                            ids@,
                            w,
                            h,
                            j,
                        ),
                    forall|k: int|
                        0 <= k < head ==> cell_closed(mask@, ids@, w, h, #[trigger] queue@[k] as int),
                    forall|k: int|
                        0 <= k < seeds.len() ==> #[trigger] seeds[k] <= start && ids@[seeds[k] as int]
                            == k + 1,
                    forall|k1: int, k2: int|
                        0 <= k1 < k2 < seeds.len() ==> #[trigger] seeds[k1] < #[trigger] seeds[k2],
                    forall|j: int|
                        0 <= j < n && #[trigger] ids@[j] != 0 ==> seeds[ids@[j] - 1] <= j,
                    forall|j: int|
                        0 <= j < n && #[trigger] ids@[j] != 0 ==> mask_connected(
                            mask@,
                            w,
                            h,
                            seeds[ids@[j] - 1] as int,
                            j,
                        ),
                decreases 2 * n - queue.len() - head,
            {
                let index: usize = queue[head];
                assert(queue@.contains(index));
                let neighbors = for_each_cardinal_neighbor(index, width, height);
                let mut k: usize = 0;
                let ghost qlen0 = queue.len();
                while k < neighbors.len()
                    invariant
                        grid_ok(width, height),
                        n == mask.len(),
                        n == w * h,
                        n < u32::MAX,
                        w == width,
                        h == height,
                        ids.len() == n,
                        start < n,
                        next_id as int == seeds.len(),
                        next_id >= 1,
                        next_id <= start + 1,
                        seeds.last() == start,
                        head < queue.len(),
                        qlen0 <= queue.len(),
                        index == queue@[head as int],
                        index < n,
                        ids@[index as int] == next_id,
                        k <= neighbors.len(),
                        forall|q: int|
                            0 <= q < neighbors.len() ==> is_cardinal_neighbor(
                                index as int,
                                #[trigger] neighbors@[q] as int,
                                w,
                                h,
                            ),
                        forall|j: int|
                            is_cardinal_neighbor(index as int, j, w, h) ==> exists|q: int|
                                0 <= q < neighbors.len() && #[trigger] neighbors@[q] == j,
                        forall|q: int|
                            0 <= q < k && mask@[#[trigger] neighbors@[q] as int] ==> ids@[neighbors@[q] as int]
                                == next_id,
                        queue@.no_duplicates(),
                        forall|q: int| 0 <= q < queue.len() ==> (#[trigger] queue@[q] as int) < n,
                        forall|j: int|
                            0 <= j < n ==> (#[trigger] ids@[j] == next_id <==> queue@.contains(
                                j as usize,
                            )),
                        forall|j: int| 0 <= j < n ==> (#[trigger] ids@[j] != 0 ==> mask@[j]),
                        forall|j: int| 0 <= j < n ==> #[trigger] ids@[j] <= next_id,
                        forall|j: int| 0 <= j <= start && #[trigger] mask@[j] ==> ids@[j] != 0,
                        forall|j: int|
                            0 <= j < n && 0 < #[trigger] ids@[j] < next_id ==> cell_closed(
                                mask@,
                                ids@,
                                w,
                                h,
                                j,
                            ),
                        forall|q: int|
                            0 <= q < head ==> cell_closed(mask@, ids@, w, h, #[trigger] queue@[q] as int),
                        forall|q: int|
                            0 <= q < seeds.len() ==> #[trigger] seeds[q] <= start && ids@[seeds[q] as int]
                                == q + 1,
                        forall|k1: int, k2: int|
                            0 <= k1 < k2 < seeds.len() ==> #[trigger] seeds[k1] < #[trigger] seeds[k2],
                        forall|j: int|
                            0 <= j < n && #[trigger] ids@[j] != 0 ==> seeds[ids@[j] - 1] <= j,
                        forall|j: int|
                            0 <= j < n && #[trigger] ids@[j] != 0 ==> mask_connected(
                                mask@,
                                w,
                                h,
                                seeds[ids@[j] - 1] as int,
                                j,
                            ),
                    decreases neighbors.len() - k,
                {
                    let m: usize = neighbors[k];
                    if mask[m] && ids[m] == 0 {
                        let ghost old_ids = ids@;
                        let ghost old_queue = queue@;
                        proof {
                            assert(ids@[index as int] != 0);
                            assert(mask_connected(mask@, w, h, seeds[ids@[index as int] - 1] as int, index as int));
                            assert(seeds[ids@[index as int] - 1] == start);
                            lemma_connected_step(mask@, w, h, start as int, index as int, m as int);
                            assert(!queue@.contains(m));
                            lemma_distinct_indices_len(queue@, n as int);
                            assert(queue@.contains(m) == false);
                        }
                        ids.set(m, next_id);
                        queue.push(m);
                        proof {
                            assert(queue@.no_duplicates()) by {
                                assert forall|a: int, b: int| 0 <= a < b < queue.len() implies queue@[a] != queue@[b] by {
                                    if b == queue.len() - 1 {
                                        assert(old_queue[a] == queue@[a]);
                                        assert(old_queue.contains(queue@[a]));
                                    } else {
                                        assert(old_queue[a] == queue@[a] && old_queue[b] == queue@[b]);
                                    }
                                }
                            }
                            assert forall|j: int| 0 <= j < n implies (#[trigger] ids@[j] == next_id
                                <==> queue@.contains(j as usize)) by {
                                if j == m {
                                    assert(queue@[queue.len() - 1] == m);
                                } else {
                                    assert(ids@[j] == old_ids[j]);
                                    if old_queue.contains(j as usize) {
                                        let q = choose|q: int| 0 <= q < old_queue.len() && old_queue[q] == j as usize;
                                        assert(queue@[q] == j as usize);
                                    }
                                    if queue@.contains(j as usize) {
                                        let q = choose|q: int| 0 <= q < queue.len() && queue@[q] == j as usize;
                                        assert(q < old_queue.len());
                                        assert(old_queue[q] == j as usize);
                                    }
                                }
                            }
                            assert forall|j: int|
                                0 <= j < n && 0 < #[trigger] ids@[j] < next_id implies cell_closed(
                                    mask@,
                                    ids@,
                                    w,
                                    h,
                                    j,
                                ) by {
                                assert(old_ids[j] == ids@[j]);
                                assert(cell_closed(mask@, old_ids, w, h, j));
                                assert forall|mm: int|
                                    #![trigger is_cardinal_neighbor(j, mm, w, h)]
                                    is_cardinal_neighbor(j, mm, w, h) && mask@[mm] implies ids@[mm] == ids@[j] by {
                                    if mm == m {
                                        assert(is_cardinal_neighbor(m as int, j, w, h));
                                        assert(old_ids[mm] == old_ids[j]);
                                    }
                                }
                            }
                            assert forall|q: int| 0 <= q < head implies cell_closed(
                                mask@,
                                ids@,
                                w,
                                h,
                                #[trigger] queue@[q] as int,
                            ) by {
                                let c = queue@[q] as int;
                                assert(queue@[q] == old_queue[q]);
                                assert(cell_closed(mask@, old_ids, w, h, c));
                                assert forall|mm: int|
                                    #![trigger is_cardinal_neighbor(c, mm, w, h)]
                                    is_cardinal_neighbor(c, mm, w, h) && mask@[mm] implies ids@[mm] == ids@[c] by {
                                    if mm == m {
                                        assert(is_cardinal_neighbor(m as int, c, w, h));
                                        assert(old_ids[mm] == old_ids[c]);
                                    }
                                }
                            }
                        }
                    } else {
                        proof {
                            if mask@[m as int] {
                                assert(ids@[m as int] != 0);
                                if ids@[m as int] < next_id {
                                    assert(cell_closed(mask@, ids@, w, h, m as int));
                                    assert(is_cardinal_neighbor(m as int, index as int, w, h));
                                    assert(ids@[index as int] == ids@[m as int]);
                                }
                            }
                        }
                    }
                    k = k + 1;
                }
                proof {
                    assert(cell_closed(mask@, ids@, w, h, index as int)) by {
                        assert forall|mm: int|
                            #![trigger is_cardinal_neighbor(index as int, mm, w, h)]
                            is_cardinal_neighbor(index as int, mm, w, h) && mask@[mm] implies ids@[mm] == ids@[index as int] by {
                            let q = choose|q: int| 0 <= q < neighbors.len() && #[trigger] neighbors@[q] == mm;
                        }
                    }
                    lemma_distinct_indices_len(queue@, n as int);
                }
                head = head + 1;
            }
            proof {
                assert forall|j: int|
                    0 <= j < n && #[trigger] ids@[j] != 0 implies cell_closed(mask@, ids@, w, h, j) by {
                    if ids@[j] == next_id {
                        assert(queue@.contains(j as usize));
                        let q = choose|q: int| 0 <= q < queue.len() && queue@[q] == j as usize;
                        assert(cell_closed(mask@, ids@, w, h, queue@[q] as int));
                    }
                }
            }
            next_id = next_id + 1;
        }
        start = start + 1;
    }
    proof {
        assert forall|i: int, j: int|
            0 <= i < ids.len() && 0 <= j < ids.len() && mask@[i] && mask@[j] implies (ids@[i] == ids@[j]
                <==> mask_connected(mask@, w, h, i, j)) by {
            if ids@[i] == ids@[j] {
                let s = seeds[ids@[i] - 1] as int;
                lemma_connected_symmetric(mask@, w, h, s, i);
                lemma_connected_trans(mask@, w, h, i, s, j);
            }
            if mask_connected(mask@, w, h, i, j) {
                let p = choose|p: Seq<int>| #[trigger] is_mask_path(mask@, w, h, p) && p[0] == i && p.last() == j;
                assert(labels_closed(mask@, ids@, w, h)) by {
                    assert forall|a: int, b: int|
                        #![trigger is_cardinal_neighbor(a, b, w, h), ids@[a], ids@[b]]
                        is_cardinal_neighbor(a, b, w, h) && mask@[a] && mask@[b] implies ids@[a] == ids@[b] by {
                        assert(cell_closed(mask@, ids@, w, h, a));
                    }
                }
                lemma_closed_labels_constant_on_path(mask@, ids@, w, h, p);
            }
        }
        assert forall|i: int| 0 <= i < ids.len() && #[trigger] ids@[i] > 1 implies exists|j: int|
            0 <= j < i && ids@[j] == ids@[i] - 1 by {
            let l = ids@[i] as int;
            let j = seeds[l - 2] as int;
            assert(seeds[l - 2] < seeds[l - 1]);
            assert(ids@[j] == l - 1);
        }
    }
    ids
}

/// Sum of a sequence of distances.
pub open spec fn seq_sum(s: Seq<u32>) -> int
    decreases s.len(),
{
    if s.len() == 0 {
        0
    } else {
        seq_sum(s.drop_last()) + s.last()
    }
}

/// Replacing one entry changes the sum by the difference.
pub proof fn lemma_seq_sum_update(s: Seq<u32>, i: int, v: u32)
    requires
        0 <= i < s.len(),
    ensures
        seq_sum(s.update(i, v)) == seq_sum(s) - s[i] + v,
    decreases s.len(),
{
    let t = s.update(i, v);
    if i == s.len() - 1 {
        assert(t.drop_last() =~= s.drop_last());
    } else {
        assert(t.drop_last() =~= s.drop_last().update(i, v));
        lemma_seq_sum_update(s.drop_last(), i, v);
    }
}

/// A sum of unsigned entries is not negative.
pub proof fn lemma_seq_sum_nonneg(s: Seq<u32>)
    ensures
        seq_sum(s) >= 0,
    decreases s.len(),
{
    if s.len() > 0 {
        lemma_seq_sum_nonneg(s.drop_last());
    }
}

/// Cell `i` of `mask` carries the value distances are measured from.
pub open spec fn is_distance_source(mask: Seq<bool>, source_value: bool, i: int) -> bool {
    mask[i] == source_value
}

/// The relaxation property every intermediate distance field keeps: sources at
/// zero, other cells capped at [`UNREACHED_DISTANCE`] and, unless still
/// unreached, no lower than some neighbour plus the step from it.
#[verifier::opaque]
pub open spec fn distance_field_sound(
    mask: Seq<bool>,
    width: int,
    height: int,
    source_value: bool,
    d: Seq<u32>,
) -> bool {
    &&& d.len() == mask.len()
    &&& forall|i: int|
        0 <= i < d.len() && is_distance_source(mask, source_value, i) ==> #[trigger] d[i] == 0
    &&& forall|i: int|
        0 <= i < d.len() && !is_distance_source(mask, source_value, i) ==> (#[trigger] d[i]
            <= UNREACHED_DISTANCE && (d[i] == UNREACHED_DISTANCE || exists|j: int|
            is_grid_neighbor(i, j, width, height) && d[i] >= #[trigger] d[j] + step_cost(
                j,
                i,
                width,
            )))
}

/// The distance field is the capped chamfer distance: every source is 0, and
/// every other cell is the least of [`UNREACHED_DISTANCE`] and its neighbours'
/// distances plus the step from them.
pub open spec fn distance_field_exact(
    mask: Seq<bool>,
    width: int,
    height: int,
    source_value: bool,
    d: Seq<u32>,
) -> bool {
    &&& d.len() == mask.len()
    &&& forall|i: int|
        0 <= i < d.len() && is_distance_source(mask, source_value, i) ==> #[trigger] d[i] == 0
    &&& forall|i: int|
        0 <= i < d.len() && !is_distance_source(mask, source_value, i) ==> #[trigger] d[i]
            <= UNREACHED_DISTANCE
    &&& forall|i: int, j: int|
        #![trigger d[i], is_grid_neighbor(i, j, width, height)]
        0 <= i < d.len() && !is_distance_source(mask, source_value, i) && is_grid_neighbor(
            i,
            j,
            width,
            height,
        ) ==> d[i] <= d[j] + step_cost(j, i, width)
    &&& forall|i: int|
        0 <= i < d.len() && !is_distance_source(mask, source_value, i) && #[trigger] d[i]
            < UNREACHED_DISTANCE ==> exists|j: int|
            is_grid_neighbor(i, j, width, height) && d[i] == #[trigger] d[j] + step_cost(j, i, width)
}

/// Every edge of the neighbourhood graph is relaxed: no cell is further than
/// a neighbour plus the step between them.
pub open spec fn distance_field_relaxed(width: int, height: int, d: Seq<u32>) -> bool {
    forall|i: int, j: int|
        #![trigger d[j], is_grid_neighbor(i, j, width, height)]
        0 <= i < d.len() && is_grid_neighbor(i, j, width, height) ==> d[j] <= d[i] + step_cost(i, j, width)
}

/// A sound field in which every edge is relaxed is the exact capped distance field.
pub proof fn lemma_relaxed_field_is_exact(mask: Seq<bool>, width: int, height: int, source_value: bool, d: Seq<u32>)
    requires
        distance_field_sound(mask, width, height, source_value, d),
        distance_field_relaxed(width, height, d),
        d.len() == width * height,
    ensures
        distance_field_exact(mask, width, height, source_value, d),
{
    reveal(distance_field_sound);
    assert forall|i: int, j: int|
        #![trigger d[i], is_grid_neighbor(i, j, width, height)]
        0 <= i < d.len() && !is_distance_source(mask, source_value, i) && is_grid_neighbor(
            i,
            j,
            width,
            height,
        ) implies d[i] <= d[j] + step_cost(j, i, width) by {
        assert(is_grid_neighbor(j, i, width, height));
    }
    assert forall|i: int|
        0 <= i < d.len() && !is_distance_source(mask, source_value, i) && #[trigger] d[i]
            < UNREACHED_DISTANCE implies exists|j: int|
            is_grid_neighbor(i, j, width, height) && d[i] == #[trigger] d[j] + step_cost(j, i, width) by {
        let j = choose|j: int|
            is_grid_neighbor(i, j, width, height) && d[i] >= #[trigger] d[j] + step_cost(j, i, width);
        assert(is_grid_neighbor(j, i, width, height));
    }
}

/// Relaxes every edge out of `index` once, lowering a neighbour's distance when
/// going through `index` is shorter.
fn relax_cell(
    mask: &Vec<bool>,
    width: u32,
    height: u32,
    source_value: bool,
    index: usize,
    distances: &mut Vec<u32>,
) -> (changed: bool)
    requires
        grid_ok(width, height),
        mask.len() == width * height,
        index < mask.len(),
        old(distances).len() == mask.len(),
        distance_field_sound(mask@, width as int, height as int, source_value, old(distances)@),
    ensures
        final(distances).len() == mask.len(),
        distance_field_sound(mask@, width as int, height as int, source_value, final(distances)@),
        forall|i: int| 0 <= i < final(distances).len() ==> #[trigger] final(distances)@[i] <= old(distances)@[i],
        changed ==> seq_sum(final(distances)@) < seq_sum(old(distances)@),
        !changed ==> final(distances)@ == old(distances)@,
        !changed ==> forall|j: int|
            is_grid_neighbor(index as int, j, width as int, height as int) ==> #[trigger] final(distances)@[j]
                <= final(distances)@[index as int] + step_cost(index as int, j, width as int),
{
    let ghost w = width as int;
    let ghost h = height as int;
    let ghost start = distances@;
    reveal(distance_field_sound);
    let neighbors = for_each_neighbor(index, width, height);
    let mut changed = false;
    let mut k: usize = 0;
    while k < neighbors.len()
        invariant
            grid_ok(width, height),
            mask.len() == w * h,
            w == width,
            h == height,
            index < mask.len(),
            k <= neighbors.len(),
            distance_field_sound(mask@, w, h, source_value, distances@),
            distances.len() == start.len(),
            start.len() == mask.len(),
            forall|i: int| 0 <= i < distances.len() ==> #[trigger] distances@[i] <= start[i],
            changed ==> seq_sum(distances@) < seq_sum(start),
            !changed ==> distances@ == start,
            !changed ==> forall|q: int|
                0 <= q < k ==> distances@[#[trigger] neighbors@[q].0 as int] <= distances@[index as int]
                    + neighbors@[q].1,
            forall|q: int|
                0 <= q < neighbors.len() ==> is_grid_neighbor(
                    index as int,
                    #[trigger] neighbors@[q].0 as int,
                    w,
                    h,
                ) && neighbors@[q].1 == step_cost(index as int, neighbors@[q].0 as int, w),
            forall|j: int|
                is_grid_neighbor(index as int, j, w, h) ==> exists|q: int|
                    0 <= q < neighbors.len() && #[trigger] neighbors@[q].0 == j,
        decreases neighbors.len() - k,
    {
        proof {
            reveal(distance_field_sound);
        }
        let (neighbor, step) = neighbors[k];
        let here: u32 = distances[index];
        let next: u32 = here + step;
        if next < distances[neighbor] {
            let ghost before = distances@;
            proof {
                lemma_seq_sum_update(before, neighbor as int, next);
            }
            distances.set(neighbor, next);
            changed = true;
            proof {
                let d = distances@;
                assert forall|i: int|
                    0 <= i < d.len() && !is_distance_source(mask@, source_value, i) implies (#[trigger] d[i]
                        <= UNREACHED_DISTANCE && (d[i] == UNREACHED_DISTANCE || exists|j: int|
                        is_grid_neighbor(i, j, w, h) && d[i] >= #[trigger] d[j] + step_cost(j, i, w))) by {
                    if i == neighbor {
                        assert(is_grid_neighbor(i, index as int, w, h));
                        assert(d[index as int] == here);
                        assert(d[i] >= d[index as int] + step_cost(index as int, i, w));
                    } else {
                        assert(d[i] == before[i]);
                        if d[i] != UNREACHED_DISTANCE {
                            let j = choose|j: int|
                                is_grid_neighbor(i, j, w, h) && before[i] >= #[trigger] before[j] + step_cost(j, i, w);
                            assert(d[j] <= before[j]);
                        }
                    }
                }
            }
        }
        k = k + 1;
    }
    proof {
        if !changed {
            assert forall|j: int| is_grid_neighbor(index as int, j, w, h) implies #[trigger] distances@[j]
                <= distances@[index as int] + step_cost(index as int, j, w) by {
                let q = choose|q: int| 0 <= q < neighbors.len() && #[trigger] neighbors@[q].0 == j;
            }
        }
    }
    changed
}

/// One sweep over all cells, relaxing every edge once; reports whether any distance dropped.
fn relax_all_cells(
    mask: &Vec<bool>,
    width: u32,
    height: u32,
    source_value: bool,
    distances: &mut Vec<u32>,
) -> (changed: bool)
    requires
        grid_ok(width, height),
        mask.len() == width * height,
        old(distances).len() == mask.len(),
        distance_field_sound(mask@, width as int, height as int, source_value, old(distances)@),
    ensures
        final(distances).len() == mask.len(),
        distance_field_sound(mask@, width as int, height as int, source_value, final(distances)@),
        changed ==> seq_sum(final(distances)@) < seq_sum(old(distances)@),
        !changed ==> final(distances)@ == old(distances)@,
        !changed ==> distance_field_relaxed(width as int, height as int, final(distances)@),
{
    let ghost w = width as int;
    let ghost h = height as int;
    let ghost start = distances@;
    let len = mask.len();
    let mut changed = false;
    let mut index: usize = 0;
    while index < len
        invariant
            grid_ok(width, height),
            len == mask.len(),
            mask.len() == w * h,
            w == width,
            h == height,
            index <= len,
            distance_field_sound(mask@, w, h, source_value, distances@),
            distances.len() == start.len(),
            start.len() == mask.len(),
            changed ==> seq_sum(distances@) < seq_sum(start),
            !changed ==> distances@ == start,
            !changed ==> forall|i: int, j: int|
                #![trigger distances@[j], is_grid_neighbor(i, j, w, h)]
                0 <= i < index && is_grid_neighbor(i, j, w, h) ==> distances@[j] <= distances@[i]
                    + step_cost(i, j, w),
        decreases len - index,
    {
        let ghost before = distances@;
        let cell_changed = relax_cell(mask, width, height, source_value, index, distances);
        if cell_changed {
            changed = true;
        }
        index = index + 1;
    }
    changed
}

/// Sources at 0, every other cell unreached; also counts the sources.
fn initial_distances(mask: &Vec<bool>, width: u32, height: u32, source_value: bool) -> (out: (Vec<u32>, usize))
    requires
        mask.len() == width * height,
    ensures
        out.0.len() == mask.len(),
        distance_field_sound(mask@, width as int, height as int, source_value, out.0@),
        out.1 == 0 <==> forall|i: int| 0 <= i < mask.len() ==> !is_distance_source(mask@, source_value, i),
{
    let len: usize = mask.len();
    let mut distances: Vec<u32> = Vec::new();
    let mut source_count: usize = 0;
    let mut index: usize = 0;
    while index < len
        invariant
            len == mask.len(),
            index <= len,
            distances.len() == index,
            source_count <= index,
            source_count == 0 <==> forall|i: int| 0 <= i < index ==> !is_distance_source(mask@, source_value, i),
            forall|i: int|
                0 <= i < index ==> #[trigger] distances@[i] == if is_distance_source(mask@, source_value, i) {
                    0
                } else {
                    UNREACHED_DISTANCE
                },
        decreases len - index,
    {
        if mask[index] == source_value {
            distances.push(0);
            source_count = source_count + 1;
            proof {
                assert(is_distance_source(mask@, source_value, index as int));
            }
        } else {
            distances.push(UNREACHED_DISTANCE);
        }
        index = index + 1;
    }
    proof {
        reveal(distance_field_sound);
    }
    (distances, source_count)
}


/// Chamfer distance (1000 per straight step, 1414 per diagonal step) from
/// every cell to the nearest cell whose mask value is `source_value`, capped
/// at [`UNREACHED_DISTANCE`]; [`NO_SOURCE_DISTANCE`] everywhere when no cell
/// has that value.
pub fn compute_distance_to_value(mask: &Vec<bool>, width: u32, height: u32, source_value: bool) -> (distances: Vec<u32>)
    requires
        grid_ok(width, height),
        mask.len() == width * height,
    ensures
        distances.len() == mask.len(),
        (forall|i: int| 0 <= i < mask.len() ==> !is_distance_source(mask@, source_value, i))
            ==> forall|i: int| 0 <= i < distances.len() ==> #[trigger] distances@[i] == NO_SOURCE_DISTANCE,
        (exists|i: int| 0 <= i < mask.len() && is_distance_source(mask@, source_value, i))
            ==> distance_field_exact(mask@, width as int, height as int, source_value, distances@),
{
    let len: usize = mask.len();
    let (mut distances, source_count) = initial_distances(mask, width, height, source_value);
    if source_count == 0 {
        let mut far: Vec<u32> = Vec::new();
        while far.len() < len
            invariant
                far.len() <= len,
                forall|i: int| 0 <= i < far.len() ==> #[trigger] far@[i] == NO_SOURCE_DISTANCE,
            decreases len - far.len(),
        {
            far.push(NO_SOURCE_DISTANCE);
        }
        return far;
    }
    loop
        invariant
            grid_ok(width, height),
            len == mask.len(),
            len == width * height,
            distances.len() == len,
            distance_field_sound(mask@, width as int, height as int, source_value, distances@),
        ensures
            distance_field_exact(mask@, width as int, height as int, source_value, distances@),
        decreases seq_sum(distances@),
    {
        proof {
            lemma_seq_sum_nonneg(distances@);
        }
        let changed = relax_all_cells(mask, width, height, source_value, &mut distances);
        proof {
            lemma_seq_sum_nonneg(distances@);
        }
        if !changed {
            proof {
                lemma_relaxed_field_is_exact(mask@, width as int, height as int, source_value, distances@);
            }
            break;
        }
    }
    distances
}

/// A walk over the grid: at least one cell, each next cell a neighbour of the
/// one before.
pub open spec fn is_grid_walk(walk: Seq<int>, width: int, height: int) -> bool {
    &&& walk.len() >= 1
    &&& 0 <= walk[0] < width * height
    &&& forall|k: int| 0 <= k < walk.len() - 1 ==> is_grid_neighbor(#[trigger] walk[k + 1], walk[k], width, height)
}

/// Chamfer cost of a walk: the sum of its steps.
pub open spec fn walk_cost(walk: Seq<int>, width: int) -> int
    decreases walk.len(),
{
    if walk.len() <= 1 {
        0
    } else {
        walk_cost(walk.drop_last(), width) + step_cost(walk[walk.len() - 2], walk[walk.len() - 1], width)
    }
}

/// No cell is further than the cost of any walk to it from a source.
pub proof fn lemma_distance_at_most_walk_cost(
    mask: Seq<bool>,
    width: int,
    height: int,
    source_value: bool,
    d: Seq<u32>,
    walk: Seq<int>,
)
    requires
        distance_field_exact(mask, width, height, source_value, d),
        d.len() == width * height,
        is_grid_walk(walk, width, height),
        is_distance_source(mask, source_value, walk[0]),
    ensures
        d[walk.last()] <= walk_cost(walk, width),
    decreases walk.len(),
{
    if walk.len() > 1 {
        let before = walk.drop_last();
        assert forall|k: int| 0 <= k < before.len() - 1 implies is_grid_neighbor(
            #[trigger] before[k + 1],
            before[k],
            width,
            height,
        ) by {
            assert(is_grid_neighbor(walk[k + 1], walk[k], width, height));
        }
        lemma_distance_at_most_walk_cost(mask, width, height, source_value, d, before);
        let i = walk[walk.len() - 1];
        let j = walk[walk.len() - 2];
        assert(is_grid_neighbor(walk[(walk.len() - 2) + 1], walk[walk.len() - 2], width, height));
        assert(d[i] == 0 || d[i] <= d[j] + step_cost(j, i, width));
    }
}

/// Every cell closer than [`UNREACHED_DISTANCE`] is reached by a walk from a
/// source whose cost is exactly its distance.
pub proof fn lemma_distance_reached_by_walk(
    mask: Seq<bool>,
    width: int,
    height: int,
    source_value: bool,
    d: Seq<u32>,
    target: int,
) -> (walk: Seq<int>)
    requires
        distance_field_exact(mask, width, height, source_value, d),
        d.len() == width * height,
        0 <= target < d.len(),
        d[target] < UNREACHED_DISTANCE,
    ensures
        is_grid_walk(walk, width, height),
        is_distance_source(mask, source_value, walk[0]),
        walk.last() == target,
        walk_cost(walk, width) == d[target],
    decreases d[target],
{
    if is_distance_source(mask, source_value, target) {
        seq![target]
    } else {
        let j = choose|j: int|
            is_grid_neighbor(target, j, width, height) && d[target] == #[trigger] d[j] + step_cost(j, target, width);
        assert(step_cost(j, target, width) >= 1000);
        let before = lemma_distance_reached_by_walk(mask, width, height, source_value, d, j);
        let walk = before.push(target);
        assert(walk.drop_last() =~= before);
        assert forall|k: int| 0 <= k < walk.len() - 1 implies is_grid_neighbor(
            #[trigger] walk[k + 1],
            walk[k],
            width,
            height,
        ) by {
            if k < walk.len() - 2 {
                assert(walk[k + 1] == before[k + 1]);
                assert(is_grid_neighbor(before[k + 1], before[k], width, height));
            }
        }
        walk
    }
}

} // verus!
