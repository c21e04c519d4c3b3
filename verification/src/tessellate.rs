//! Tessellation of the sampling grid.
//!
//! The vertices of a grid of `U` by `V` segments are laid out row by row: the
//! vertex at grid position `(i, j)`, with `0 <= i <= U` and `0 <= j <= V`,
//! stands in slot `j + i * (V + 1)`. Each cell `(i, j)`, with `i < U` and
//! `j < V`, is covered by two triangles over its four corner vertices.

use vstd::arithmetic::div_mod::{
    lemma_div_pos_is_pos, lemma_fundamental_div_mod, lemma_fundamental_div_mod_converse,
    lemma_mod_bound, lemma_multiply_divide_lt,
};
use vstd::prelude::*;

use crate::config::{ConfigError, SurfaceConfig, MAX_VERTICES};

verus! {

/// The number of vertices of a grid: one more than the number of segments
/// along each axis.
pub open spec fn vertex_count(u_segments: nat, v_segments: nat) -> nat {
    (u_segments + 1) * (v_segments + 1)
}

/// The number of entries of the index list: two triangles of three indices
/// for each cell.
pub open spec fn index_count(u_segments: nat, v_segments: nat) -> nat {
    6 * (u_segments * v_segments)
}

/// The slot of the vertex at grid position `(i, j)`.
pub open spec fn vertex_slot(i: int, j: int, v_segments: nat) -> int {
    j + i * (v_segments + 1)
}

/// The six index entries of cell `(i, j)`: the triangle over the corners
/// `(i, j)`, `(i, j + 1)`, `(i + 1, j + 1)`, then the triangle over
/// `(i + 1, j + 1)`, `(i + 1, j)`, `(i, j)`.
pub open spec fn cell_indices(i: int, j: int, v_segments: nat) -> Seq<int> {
    seq![
        vertex_slot(i, j, v_segments),
        vertex_slot(i, j + 1, v_segments),
        vertex_slot(i + 1, j + 1, v_segments),
        vertex_slot(i + 1, j + 1, v_segments),
        vertex_slot(i + 1, j, v_segments),
        vertex_slot(i, j, v_segments),
    ]
}

/// Entry `n` of the index list. The cells follow each other row by row, six
/// entries each.
pub open spec fn index_entry(v_segments: nat, n: int) -> int {
    cell_indices((n / 6) / (v_segments as int), (n / 6) % (v_segments as int), v_segments)[n % 6]
}

/// The index list of a grid.
pub open spec fn grid_indices(u_segments: nat, v_segments: nat) -> Seq<int> {
    Seq::new(index_count(u_segments, v_segments), |n: int| index_entry(v_segments, n))
}

/// A list of 16-bit indices as mathematical integers.
pub open spec fn widen(indices: Seq<u16>) -> Seq<int> {
    indices.map_values(|index: u16| index as int)
}

/// `vertices` holds, for every grid position, a value that `sample` returns
/// there, in row-major order.
pub open spec fn is_vertex_grid<V, F: FnMut(usize, usize) -> V>(
    config: SurfaceConfig,
    sample: F,
    vertices: Seq<V>,
) -> bool {
    &&& vertices.len() == config.spec_vertex_count()
    &&& forall|i: int, j: int|
        0 <= i <= config.u_segments && 0 <= j <= config.v_segments ==> call_ensures(
            sample,
            (i as usize, j as usize),
            #[trigger] vertices[vertex_slot(i, j, config.v_segments as nat)],
        )
}

/// `vertices` holds, for every grid position, a value with which `sample`
/// succeeds there, in row-major order.
pub open spec fn is_checked_vertex_grid<V, E, F: FnMut(usize, usize) -> Result<V, E>>(
    config: SurfaceConfig,
    sample: F,
    vertices: Seq<V>,
) -> bool {
    &&& vertices.len() == config.spec_vertex_count()
    &&& forall|i: int, j: int|
        0 <= i <= config.u_segments && 0 <= j <= config.v_segments ==> call_ensures(
            sample,
            (i as usize, j as usize),
            Ok::<V, E>(#[trigger] vertices[vertex_slot(i, j, config.v_segments as nat)]),
        )
}

/// `sample` can succeed at the grid position `(i, j)`.
pub open spec fn succeeds_at<V, E, F: FnMut(usize, usize) -> Result<V, E>>(
    sample: F,
    i: int,
    j: int,
) -> bool {
    exists|vertex: V| call_ensures(sample, (i as usize, j as usize), Ok::<V, E>(vertex))
}

/// `sample` fails with `error` at the grid position `(i, j)` and can succeed
/// at every position before it in row-major order.
pub open spec fn failed_at<V, E, F: FnMut(usize, usize) -> Result<V, E>>(
    config: SurfaceConfig,
    sample: F,
    i: int,
    j: int,
    error: E,
) -> bool {
    &&& 0 <= i <= config.u_segments
    &&& 0 <= j <= config.v_segments
    &&& call_ensures(sample, (i as usize, j as usize), Err::<V, E>(error))
    &&& forall|a: int, b: int|
        0 <= a && 0 <= b <= config.v_segments && (a < i || (a == i && b < j))
            ==> #[trigger] succeeds_at(sample, a, b)
}

/// Entry `6 * (i * V + j) + k` of the index list is entry `k` of cell `(i, j)`.
pub proof fn lemma_index_entry_of_cell(v_segments: nat, i: int, j: int, k: int)
    requires
        0 <= i,
        0 <= j < v_segments,
        0 <= k < 6,
    ensures
        index_entry(v_segments, 6 * (i * v_segments + j) + k) == cell_indices(i, j, v_segments)[k],
{
    let cell = i * v_segments + j;
    let n = 6 * cell + k;
    assert(0 <= i * v_segments) by (nonlinear_arith)
        requires
            0 <= i,
            0 <= v_segments,
    ;
    lemma_fundamental_div_mod_converse(n, 6, cell, k);
    lemma_fundamental_div_mod_converse(cell, v_segments as int, i, j);
}

/// The slots of the four corners of a cell lie within the vertex list.
pub proof fn lemma_cell_within_grid(u_segments: nat, v_segments: nat, i: int, j: int)
    requires
        0 <= i < u_segments,
        0 <= j < v_segments,
    ensures
        0 <= vertex_slot(i, j, v_segments),
        vertex_slot(i + 1, j + 1, v_segments) < vertex_count(u_segments, v_segments),
        forall|k: int|
            0 <= k < 6 ==> 0 <= #[trigger] cell_indices(i, j, v_segments)[k] < vertex_count(
                u_segments,
                v_segments,
            ),
{
    let stride = v_segments + 1;
    assert(0 <= i * stride && (i + 1) * stride == i * stride + stride && (i + 1) * stride
        <= u_segments * stride && (u_segments + 1) * stride == u_segments * stride + stride)
        by (nonlinear_arith)
        requires
            0 <= i < u_segments,
            0 < stride,
    ;
}

/// Slots follow the row-major order of the grid positions.
pub proof fn lemma_slot_is_monotonic(v_segments: nat, a: int, b: int, i: int, j: int)
    requires
        0 <= b <= v_segments,
        0 <= j <= v_segments,
        a < i || (a == i && b <= j),
    ensures
        vertex_slot(a, b, v_segments) <= vertex_slot(i, j, v_segments),
        a < i || b < j ==> vertex_slot(a, b, v_segments) < vertex_slot(i, j, v_segments),
{
    let stride = v_segments + 1;
    if a < i {
        assert(a * stride + stride <= i * stride) by (nonlinear_arith)
            requires
                a < i,
                0 < stride,
        ;
    }
}

/// Two grid positions that share a slot are the same position.
pub proof fn lemma_slot_is_injective(v_segments: nat, a: int, b: int, i: int, j: int)
    requires
        0 <= b <= v_segments,
        0 <= j <= v_segments,
    ensures
        vertex_slot(a, b, v_segments) == vertex_slot(i, j, v_segments) <==> a == i && b == j,
        vertex_slot(a, b, v_segments) < vertex_slot(i, j, v_segments) <==> a < i || (a == i && b
            < j),
{
    if a < i || (a == i && b <= j) {
        lemma_slot_is_monotonic(v_segments, a, b, i, j);
    }
    if i < a || (i == a && j <= b) {
        lemma_slot_is_monotonic(v_segments, i, j, a, b);
    }
}

/// Neither axis has more vertices than the whole grid.
pub proof fn lemma_axes_within_grid(u_segments: nat, v_segments: nat)
    ensures
        u_segments + 1 <= vertex_count(u_segments, v_segments),
        v_segments + 1 <= vertex_count(u_segments, v_segments),
        index_count(u_segments, v_segments) <= 6 * vertex_count(u_segments, v_segments),
{
    assert((u_segments + 1) * (v_segments + 1) == u_segments * v_segments + u_segments
        + v_segments + 1 && 0 <= u_segments * v_segments) by (nonlinear_arith);
}

/// Every non-negative slot is the slot of one grid position.
pub proof fn lemma_position_of_slot(u_segments: nat, v_segments: nat, slot: int)
    requires
        0 <= slot < vertex_count(u_segments, v_segments),
    ensures
        ({
            let stride = (v_segments + 1) as int;
            &&& 0 <= slot / stride <= u_segments
            &&& 0 <= slot % stride <= v_segments
            &&& vertex_slot(slot / stride, slot % stride, v_segments) == slot
        }),
{
    let stride = (v_segments + 1) as int;
    lemma_fundamental_div_mod(slot, stride);
    lemma_mod_bound(slot, stride);
    lemma_div_pos_is_pos(slot, stride);
    assert(stride * (u_segments + 1) == (u_segments + 1) * stride) by (nonlinear_arith);
    lemma_multiply_divide_lt(slot, stride, (u_segments + 1) as int);
    assert(stride * (slot / stride) == (slot / stride) * stride) by (nonlinear_arith);
}

/// The index list has six entries for each cell, and every entry names a
/// vertex of the grid.
pub proof fn lemma_indices_name_vertices(u_segments: nat, v_segments: nat)
    ensures
        grid_indices(u_segments, v_segments).len() == 6 * u_segments * v_segments,
        forall|n: int|
            0 <= n < grid_indices(u_segments, v_segments).len() ==> 0 <= #[trigger] grid_indices(
                u_segments,
                v_segments,
            )[n] < vertex_count(u_segments, v_segments),
{
    assert(6 * (u_segments * v_segments) == 6 * u_segments * v_segments) by (nonlinear_arith);
    assert forall|n: int| 0 <= n < grid_indices(u_segments, v_segments).len() implies 0
        <= #[trigger] grid_indices(u_segments, v_segments)[n] < vertex_count(
        u_segments,
        v_segments,
    ) by {
        let cell = n / 6;
        let v = v_segments as int;
        assert(v > 0) by (nonlinear_arith)
            requires
                0 <= n < 6 * (u_segments * v_segments),
                v == v_segments,
        ;
        assert(0 <= cell < u_segments * v_segments);
        assert(v * u_segments == u_segments * v_segments) by (nonlinear_arith)
            requires
                v == v_segments,
        ;
        lemma_multiply_divide_lt(cell, v, u_segments as int);
        lemma_div_pos_is_pos(cell, v);
        lemma_mod_bound(cell, v);
        lemma_cell_within_grid(u_segments, v_segments, cell / v, cell % v);
    }
}

/// A grid without segments along one of its axes has no triangles, and a grid
/// without segments along both consists of a single vertex.
pub proof fn lemma_grid_without_cells(u_segments: nat, v_segments: nat)
    requires
        u_segments == 0 || v_segments == 0,
    ensures
        grid_indices(u_segments, v_segments) == Seq::<int>::empty(),
        u_segments == 0 && v_segments == 0 ==> vertex_count(u_segments, v_segments) == 1,
{
    assert(u_segments * v_segments == 0) by (nonlinear_arith)
        requires
            u_segments == 0 || v_segments == 0,
    ;
    assert(grid_indices(u_segments, v_segments) =~= Seq::<int>::empty());
    if u_segments == 0 && v_segments == 0 {
        assert(vertex_count(0, 0) == 1) by (nonlinear_arith);
    }
}

/// The six entries that the index list holds for cell `(i, j)` are those of
/// [`cell_indices`], and they start at entry `6 * (i * V + j)`.
pub proof fn lemma_indices_of_cell(u_segments: nat, v_segments: nat, i: int, j: int)
    requires
        0 <= i < u_segments,
        0 <= j < v_segments,
    ensures
        0 <= 6 * (i * v_segments + j),
        6 * (i * v_segments + j) + 6 <= grid_indices(u_segments, v_segments).len(),
        grid_indices(u_segments, v_segments).subrange(
            6 * (i * v_segments + j),
            6 * (i * v_segments + j) + 6,
        ) == cell_indices(i, j, v_segments),
{
    let base = 6 * (i * v_segments + j);
    assert(0 <= i * v_segments && i * v_segments + v_segments <= u_segments * v_segments)
        by (nonlinear_arith)
        requires
            0 <= i < u_segments,
            0 <= v_segments,
    ;
    assert forall|k: int| 0 <= k < 6 implies grid_indices(u_segments, v_segments)[base + k]
        == cell_indices(i, j, v_segments)[k] by {
        lemma_index_entry_of_cell(v_segments, i, j, k);
    }
    assert(grid_indices(u_segments, v_segments).subrange(base, base + 6) =~= cell_indices(
        i,
        j,
        v_segments,
    ));
}

/// Neither triangle of a cell is degenerate: its three corners are three
/// different vertices.
pub proof fn lemma_triangles_are_proper(v_segments: nat, i: int, j: int)
    requires
        0 <= j < v_segments,
    ensures
        ({
            let cell = cell_indices(i, j, v_segments);
            &&& cell[0] != cell[1] && cell[1] != cell[2] && cell[2] != cell[0]
            &&& cell[3] != cell[4] && cell[4] != cell[5] && cell[5] != cell[3]
        }),
{
    lemma_slot_is_injective(v_segments, i, j, i, j + 1);
    lemma_slot_is_injective(v_segments, i, j + 1, i + 1, j + 1);
    lemma_slot_is_injective(v_segments, i + 1, j + 1, i, j);
    lemma_slot_is_injective(v_segments, i + 1, j + 1, i + 1, j);
    lemma_slot_is_injective(v_segments, i + 1, j, i, j);
}

/// The row of the grid position that stands in `slot`.
pub open spec fn row_of(slot: int, v_segments: nat) -> int {
    slot / (v_segments + 1) as int
}

/// The column of the grid position that stands in `slot`.
pub open spec fn column_of(slot: int, v_segments: nat) -> int {
    slot % (v_segments + 1) as int
}

/// Twice the signed area, in grid coordinates, of the triangle over the
/// vertices in the slots `a`, `b` and `c`. Its sign tells the winding of the
/// triangle.
pub open spec fn doubled_area(v_segments: nat, a: int, b: int, c: int) -> int {
    (row_of(b, v_segments) - row_of(a, v_segments)) * (column_of(c, v_segments) - column_of(
        a,
        v_segments,
    )) - (column_of(b, v_segments) - column_of(a, v_segments)) * (row_of(c, v_segments) - row_of(
        a,
        v_segments,
    ))
}

/// The slot of a grid position gives its row and its column back.
pub proof fn lemma_position_of_vertex_slot(v_segments: nat, i: int, j: int)
    requires
        0 <= i,
        0 <= j <= v_segments,
    ensures
        row_of(vertex_slot(i, j, v_segments), v_segments) == i,
        column_of(vertex_slot(i, j, v_segments), v_segments) == j,
{
    lemma_fundamental_div_mod_converse(
        vertex_slot(i, j, v_segments),
        (v_segments + 1) as int,
        i,
        j,
    );
}

/// All triangles wind alike: in grid coordinates, each of the two triangles
/// of each cell has the same signed area.
pub proof fn lemma_triangles_wind_alike(v_segments: nat, i: int, j: int)
    requires
        0 <= i,
        0 <= j < v_segments,
    ensures
        ({
            let cell = cell_indices(i, j, v_segments);
            &&& doubled_area(v_segments, cell[0], cell[1], cell[2]) == -1
            &&& doubled_area(v_segments, cell[3], cell[4], cell[5]) == -1
        }),
{
    lemma_position_of_vertex_slot(v_segments, i, j);
    lemma_position_of_vertex_slot(v_segments, i, j + 1);
    lemma_position_of_vertex_slot(v_segments, i + 1, j + 1);
    lemma_position_of_vertex_slot(v_segments, i + 1, j);
    let cell = cell_indices(i, j, v_segments);
    let row = |k: int| row_of(cell[k], v_segments);
    let column = |k: int| column_of(cell[k], v_segments);
    assert((row(1) - row(0)) * (column(2) - column(0)) - (column(1) - column(0)) * (row(2) - row(0))
        == -1) by (nonlinear_arith)
        requires
            row(1) - row(0) == 0,
            column(2) - column(0) == 1,
            column(1) - column(0) == 1,
            row(2) - row(0) == 1,
    ;
    assert((row(4) - row(3)) * (column(5) - column(3)) - (column(4) - column(3)) * (row(5) - row(3))
        == -1) by (nonlinear_arith)
        requires
            row(4) - row(3) == 0,
            column(5) - column(3) == -1,
            column(4) - column(3) == -1,
            row(5) - row(3) == -1,
    ;
}

/// In a grid with cells no vertex is left out: every slot of the vertex list
/// occurs in the index list.
pub proof fn lemma_every_vertex_is_used(u_segments: nat, v_segments: nat, slot: int)
    requires
        u_segments >= 1,
        v_segments >= 1,
        0 <= slot < vertex_count(u_segments, v_segments),
    ensures
        exists|n: int|
            0 <= n < grid_indices(u_segments, v_segments).len() && #[trigger] grid_indices(
                u_segments,
                v_segments,
            )[n] == slot,
{
    lemma_position_of_slot(u_segments, v_segments, slot);
    let i = row_of(slot, v_segments);
    let j = column_of(slot, v_segments);
    let cell_i = if i < u_segments { i } else { i - 1 };
    let cell_j = if j < v_segments { j } else { j - 1 };
    let k: int = if i == cell_i {
        if j == cell_j { 0 } else { 1 }
    } else {
        if j == cell_j { 4 } else { 2 }
    };
    let n = 6 * (cell_i * v_segments + cell_j) + k;
    lemma_indices_of_cell(u_segments, v_segments, cell_i, cell_j);
    lemma_index_entry_of_cell(v_segments, cell_i, cell_j, k);
    assert(grid_indices(u_segments, v_segments)[n] == slot);
}

/// Tessellating the same grid twice with a sampling function that returns one
/// value for each grid position gives the same vertex list twice.
pub proof fn lemma_vertex_grid_is_unique<V, F: FnMut(usize, usize) -> V>(
    config: SurfaceConfig,
    sample: F,
    first: Seq<V>,
    second: Seq<V>,
)
    requires
        forall|i: usize, j: usize, x: V, y: V|
            call_ensures(sample, (i, j), x) && call_ensures(sample, (i, j), y) ==> x == y,
        is_vertex_grid(config, sample, first),
        is_vertex_grid(config, sample, second),
    ensures
        first == second,
{
    let u = config.u_segments as nat;
    let v = config.v_segments as nat;
    let stride = (v + 1) as int;
    assert forall|slot: int| 0 <= slot < first.len() implies first[slot] == second[slot] by {
        lemma_position_of_slot(u, v, slot);
        let i = slot / stride;
        let j = slot % stride;
        assert(call_ensures(sample, (i as usize, j as usize), first[vertex_slot(i, j, v)]));
        assert(call_ensures(sample, (i as usize, j as usize), second[vertex_slot(i, j, v)]));
    }
    assert(first =~= second);
}

/// The index list depends on the resolution alone: two lists of 16-bit
/// indices that both stand for the index list of one grid are equal.
pub proof fn lemma_index_list_is_unique(
    u_segments: nat,
    v_segments: nat,
    first: Seq<u16>,
    second: Seq<u16>,
)
    requires
        widen(first) == grid_indices(u_segments, v_segments),
        widen(second) == grid_indices(u_segments, v_segments),
    ensures
        first == second,
{
    assert(first.len() == widen(first).len());
    assert(second.len() == widen(second).len());
    assert forall|n: int| 0 <= n < first.len() implies first[n] == second[n] by {
        assert(widen(first)[n] == first[n] as int);
        assert(widen(second)[n] == second[n] as int);
    }
    assert(first =~= second);
}

impl SurfaceConfig {
    /// The triangle index list of the grid: for each cell, row by row, the six
    /// entries of [`cell_indices`]. Every entry names a vertex of the grid.
    pub fn generate_indices(&self) -> (indices: Vec<u16>)
        requires
            self.fits_index_format(),
        ensures
            widen(indices@) == grid_indices(self.u_segments as nat, self.v_segments as nat),
            indices@.len() == index_count(self.u_segments as nat, self.v_segments as nat),
            forall|n: int| 0 <= n < indices@.len() ==> (#[trigger] indices@[n]) < self.spec_vertex_count(),
    {
        let u_segments = self.u_segments;
        let v_segments = self.v_segments;
        let ghost u = u_segments as nat;
        let ghost v = v_segments as nat;
        proof {
            lemma_axes_within_grid(u, v);
        }
        let stride = v_segments + 1;
        let mut indices: Vec<u16> = Vec::with_capacity(6 * (u_segments * v_segments));
        let mut i: usize = 0;
        while i < u_segments
            invariant
                u == u_segments,
                v == v_segments,
                stride == v_segments + 1,
                vertex_count(u, v) <= MAX_VERTICES,
                i <= u_segments,
                indices@.len() == 6 * (i * v),
                forall|n: int|
                    0 <= n < indices@.len() ==> (#[trigger] indices@[n]) as int == index_entry(v, n),
                forall|n: int|
                    0 <= n < indices@.len() ==> (#[trigger] indices@[n]) < vertex_count(u, v),
            decreases u_segments - i,
        {
            let mut j: usize = 0;
            while j < v_segments
                invariant
                    u == u_segments,
                    v == v_segments,
                    stride == v_segments + 1,
                    vertex_count(u, v) <= MAX_VERTICES,
                    i < u_segments,
                    j <= v_segments,
                    indices@.len() == 6 * (i * v + j),
                    forall|n: int|
                        0 <= n < indices@.len() ==> (#[trigger] indices@[n]) as int == index_entry(
                            v,
                            n,
                        ),
                    forall|n: int|
                        0 <= n < indices@.len() ==> (#[trigger] indices@[n]) < vertex_count(u, v),
                decreases v_segments - j,
            {
                proof {
                    lemma_cell_within_grid(u, v, i as int, j as int);
                    assert forall|k: int| 0 <= k < 6 implies index_entry(
                        v,
                        6 * (i * v + j) + k,
                    ) == cell_indices(i as int, j as int, v)[k] by {
                        lemma_index_entry_of_cell(v, i as int, j as int, k);
                    }
                    assert((i + 1) * stride == i * stride + stride) by (nonlinear_arith);
                }
                let ghost before = indices@;
                let idx0 = j + i * stride;
                let idx1 = idx0 + 1;
                let idx2 = idx1 + stride;
                let idx3 = idx0 + stride;
                indices.push(idx0 as u16);
                indices.push(idx1 as u16);
                indices.push(idx2 as u16);
                indices.push(idx2 as u16);
                indices.push(idx3 as u16);
                indices.push(idx0 as u16);
                proof {
                    let base = 6 * (i * v + j);
                    assert(before.len() == base);
                    assert forall|n: int| 0 <= n < indices@.len() implies (#[trigger] indices@[n])
                        as int == index_entry(v, n) && indices@[n] < vertex_count(u, v) by {
                        if n < base {
                            assert(indices@[n] == before[n]);
                        } else {
                            let k = n - base;
                            assert(n == base + k);
                            assert(indices@[n] as int == cell_indices(i as int, j as int, v)[k]);
                        }
                    }
                }
                j += 1;
            }
            proof {
                assert((i + 1) * v == i * v + v) by (nonlinear_arith);
            }
            i += 1;
        }
        proof {
            assert(widen(indices@) =~= grid_indices(u, v));
        }
        indices
    }

    /// The vertex list of the grid: `sample` is called once for each grid
    /// position `(i, j)`, row by row (`i` outer, `j` inner), and what it
    /// returns is stored in slot `j + i * (V + 1)`.
    pub fn generate_vertices<V, F: FnMut(usize, usize) -> V>(&self, sample: F) -> (vertices: Vec<V>)
        requires
            self.fits_index_format(),
            forall|i: usize, j: usize|
                i <= self.u_segments && j <= self.v_segments ==> call_requires(sample, (i, j)),
        ensures
            is_vertex_grid(*self, sample, vertices@),
    {
        let u_segments = self.u_segments;
        let v_segments = self.v_segments;
        let ghost u = u_segments as nat;
        let ghost v = v_segments as nat;
        proof {
            lemma_axes_within_grid(u, v);
        }
        let stride = v_segments + 1;
        let mut call = sample;
        let mut vertices: Vec<V> = Vec::with_capacity((u_segments + 1) * stride);
        let mut i: usize = 0;
        while i <= u_segments
            invariant
                u == u_segments,
                v == v_segments,
                stride == v_segments + 1,
                vertex_count(u, v) <= MAX_VERTICES,
                u_segments < MAX_VERTICES,
                v_segments < MAX_VERTICES,
                call == sample,
                i <= u_segments + 1,
                vertices@.len() == i * stride,
                forall|a: usize, b: usize|
                    a <= u_segments && b <= v_segments ==> call_requires(sample, (a, b)),
                forall|a: int, b: int|
                    0 <= a <= u_segments && 0 <= b <= v_segments && vertex_slot(a, b, v)
                        < vertices@.len() ==> call_ensures(
                        sample,
                        (a as usize, b as usize),
                        #[trigger] vertices@[vertex_slot(a, b, v)],
                    ),
            decreases u_segments + 1 - i,
        {
            let mut j: usize = 0;
            while j <= v_segments
                invariant
                    u == u_segments,
                    v == v_segments,
                    stride == v_segments + 1,
                    v_segments < MAX_VERTICES,
                    call == sample,
                    i <= u_segments,
                    j <= v_segments + 1,
                    vertices@.len() == i * stride + j,
                    forall|a: usize, b: usize|
                        a <= u_segments && b <= v_segments ==> call_requires(sample, (a, b)),
                    forall|a: int, b: int|
                        0 <= a <= u_segments && 0 <= b <= v_segments && vertex_slot(a, b, v)
                            < vertices@.len() ==> call_ensures(
                            sample,
                            (a as usize, b as usize),
                            #[trigger] vertices@[vertex_slot(a, b, v)],
                        ),
                decreases v_segments + 1 - j,
            {
                let ghost before = vertices@;
                let vertex = call(i, j);
                vertices.push(vertex);
                proof {
                    assert forall|a: int, b: int|
                        0 <= a <= u_segments && 0 <= b <= v_segments && vertex_slot(a, b, v)
                            < vertices@.len() implies call_ensures(
                        sample,
                        (a as usize, b as usize),
                        #[trigger] vertices@[vertex_slot(a, b, v)],
                    ) by {
                        lemma_slot_is_injective(v, a, b, i as int, j as int);
                        if vertex_slot(a, b, v) < before.len() {
                            assert(vertices@[vertex_slot(a, b, v)] == before[vertex_slot(a, b, v)]);
                        }
                    }
                }
                j += 1;
            }
            proof {
                assert((i + 1) * stride == i * stride + stride) by (nonlinear_arith);
            }
            i += 1;
        }
        proof {
            assert((u + 1) * stride == u * stride + stride) by (nonlinear_arith);
            assert forall|a: int, b: int|
                0 <= a <= u_segments && 0 <= b <= v_segments implies vertex_slot(a, b, v)
                < vertices@.len() by {
                lemma_slot_is_monotonic(v, a, b, u as int, v as int);
            }
        }
        vertices
    }

    /// As [`SurfaceConfig::generate_vertices`], for a `sample` that can fail:
    /// the first failure, in row-major order, ends the tessellation and is
    /// returned.
    pub fn try_generate_vertices<V, E, F: FnMut(usize, usize) -> Result<V, E>>(
        &self,
        sample: F,
    ) -> (result: Result<Vec<V>, E>)
        requires
            self.fits_index_format(),
            forall|i: usize, j: usize|
                i <= self.u_segments && j <= self.v_segments ==> call_requires(sample, (i, j)),
        ensures
            match result {
                Ok(vertices) => is_checked_vertex_grid(*self, sample, vertices@),
                Err(error) => exists|i: int, j: int| failed_at(*self, sample, i, j, error),
            },
    {
        let u_segments = self.u_segments;
        let v_segments = self.v_segments;
        let ghost u = u_segments as nat;
        let ghost v = v_segments as nat;
        proof {
            lemma_axes_within_grid(u, v);
        }
        let stride = v_segments + 1;
        let mut call = sample;
        let mut vertices: Vec<V> = Vec::with_capacity((u_segments + 1) * stride);
        let mut i: usize = 0;
        while i <= u_segments
            invariant
                u == u_segments,
                v == v_segments,
                u == self.u_segments,
                v == self.v_segments,
                stride == v_segments + 1,
                u_segments < MAX_VERTICES,
                v_segments < MAX_VERTICES,
                call == sample,
                i <= u_segments + 1,
                vertices@.len() == i * stride,
                forall|a: usize, b: usize|
                    a <= u_segments && b <= v_segments ==> call_requires(sample, (a, b)),
                forall|a: int, b: int|
                    0 <= a <= u_segments && 0 <= b <= v_segments && vertex_slot(a, b, v)
                        < vertices@.len() ==> call_ensures(
                        sample,
                        (a as usize, b as usize),
                        Ok::<V, E>(#[trigger] vertices@[vertex_slot(a, b, v)]),
                    ),
            decreases u_segments + 1 - i,
        {
            let mut j: usize = 0;
            while j <= v_segments
                invariant
                    u == u_segments,
                    v == v_segments,
                    u == self.u_segments,
                    v == self.v_segments,
                    stride == v_segments + 1,
                    v_segments < MAX_VERTICES,
                    call == sample,
                    i <= u_segments,
                    j <= v_segments + 1,
                    vertices@.len() == i * stride + j,
                    forall|a: usize, b: usize|
                        a <= u_segments && b <= v_segments ==> call_requires(sample, (a, b)),
                    forall|a: int, b: int|
                        0 <= a <= u_segments && 0 <= b <= v_segments && vertex_slot(a, b, v)
                            < vertices@.len() ==> call_ensures(
                            sample,
                            (a as usize, b as usize),
                            Ok::<V, E>(#[trigger] vertices@[vertex_slot(a, b, v)]),
                        ),
                decreases v_segments + 1 - j,
            {
                let ghost before = vertices@;
                match call(i, j) {
                    Ok(vertex) => {
                        vertices.push(vertex);
                    },
                    Err(error) => {
                        proof {
                            assert forall|a: int, b: int|
                                0 <= a && 0 <= b <= v && (a < i || (a == i && b
                                    < j)) implies #[trigger] succeeds_at(sample, a, b) by {
                                lemma_slot_is_injective(v, a, b, i as int, j as int);
                                let vertex = before[vertex_slot(a, b, v)];
                                assert(call_ensures(
                                    sample,
                                    (a as usize, b as usize),
                                    Ok::<V, E>(vertex),
                                ));
                            }
                        }
                        let result = Err(error);
                        assert(failed_at(*self, sample, i as int, j as int, result->Err_0));
                        return result;
                    },
                }
                proof {
                    assert forall|a: int, b: int|
                        0 <= a <= u_segments && 0 <= b <= v_segments && vertex_slot(a, b, v)
                            < vertices@.len() implies call_ensures(
                        sample,
                        (a as usize, b as usize),
                        Ok::<V, E>(#[trigger] vertices@[vertex_slot(a, b, v)]),
                    ) by {
                        lemma_slot_is_injective(v, a, b, i as int, j as int);
                        if vertex_slot(a, b, v) < before.len() {
                            assert(vertices@[vertex_slot(a, b, v)] == before[vertex_slot(a, b, v)]);
                        }
                    }
                }
                j += 1;
            }
            proof {
                assert((i + 1) * stride == i * stride + stride) by (nonlinear_arith);
            }
            i += 1;
        }
        proof {
            assert((u + 1) * stride == u * stride + stride) by (nonlinear_arith);
            assert forall|a: int, b: int|
                0 <= a <= u_segments && 0 <= b <= v_segments implies vertex_slot(a, b, v)
                < vertices@.len() by {
                lemma_slot_is_monotonic(v, a, b, u as int, v as int);
            }
        }
        Ok(vertices)
    }

    /// The vertex list and the index list of the grid, or
    /// [`ConfigError::TooManyVertices`] for a grid that 16-bit indices cannot
    /// address, in which case `sample` is not called.
    pub fn tessellate<V, F: FnMut(usize, usize) -> V>(&self, sample: F) -> (result: Result<
        (Vec<V>, Vec<u16>),
        ConfigError,
    >)
        requires
            forall|i: usize, j: usize|
                i <= self.u_segments && j <= self.v_segments ==> call_requires(sample, (i, j)),
        ensures
            match result {
                Ok((vertices, indices)) => {
                    &&& self.fits_index_format()
                    &&& is_vertex_grid(*self, sample, vertices@)
                    &&& widen(indices@) == grid_indices(
                        self.u_segments as nat,
                        self.v_segments as nat,
                    )
                    &&& forall|n: int|
                        0 <= n < indices@.len() ==> (#[trigger] indices@[n]) < vertices@.len()
                },
                Err(error) => error == ConfigError::TooManyVertices && !self.fits_index_format(),
            },
    {
        if !self.check_index_format() {
            return Err(ConfigError::TooManyVertices);
        }
        let vertices = self.generate_vertices(sample);
        let indices = self.generate_indices();
        Ok((vertices, indices))
    }
}

} // verus!
