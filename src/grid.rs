use vstd::prelude::*;

verus! {

/// The largest grid side the preview samples.
pub const MAX_RESOLUTION: usize = 1024;

/// A grid coordinate as the exact ratio `numer / denom`, before the
/// viewport's shift is added to it.
#[derive(Debug, Clone, Copy, PartialEq, Eq, Hash, Structural)]
pub struct Ratio {
    pub numer: i64,
    pub denom: i64,
}

/// The numerator of the coordinate of grid index `index` on an axis of
/// `size` cells, over the denominator `size`.
///
/// Tileable grids cover the half-open unit interval, `index / size`; the
/// others the centred window `[-1, 1)`, `index / size * 2 - 1`.
pub open spec fn axis_numer(index: int, size: int, tileable: bool) -> int {
    if tileable {
        index
    } else {
        2 * index - size
    }
}

pub open spec fn axis_ratio(index: int, size: int, tileable: bool) -> Ratio {
    Ratio { numer: axis_numer(index, size, tileable) as i64, denom: size as i64 }
}

/// The rational value of a ratio, scaled by the denominator of another:
/// `a` and `b` denote the same number exactly when their cross products agree.
pub open spec fn same_value(a: Ratio, b: Ratio) -> bool {
    a.numer * b.denom == b.numer * a.denom
}

/// Grid index along the first axis of linear index `i`: `i = ix * size + iy`.
pub open spec fn cell_x(i: int, size: int) -> int {
    i / size
}

/// Grid index along the second axis of linear index `i`.
pub open spec fn cell_y(i: int, size: int) -> int {
    i % size
}

/// `values` holds, at each linear index, what `sampler` returns for the
/// coordinates of that cell.
pub open spec fn sampled_grid<V, F: Fn(Ratio, Ratio) -> V>(
    sampler: F,
    values: Seq<V>,
    size: nat,
    tileable: bool,
) -> bool {
    &&& values.len() == size * size
    &&& forall|i: int|
        0 <= i < values.len() ==> sampler.ensures(
            (
                axis_ratio(cell_x(i, size as int), size as int, tileable),
                axis_ratio(cell_y(i, size as int), size as int, tileable),
            ),
            #[trigger] values[i],
        )
}

/// The coordinate of grid index `index` on an axis of `size` cells. `index`
/// may be `size` itself, the first cell past the grid.
pub fn axis_coordinate(index: usize, size: usize, tileable: bool) -> (r: Ratio)
    requires
        index <= size <= MAX_RESOLUTION,
    ensures
        r == axis_ratio(index as int, size as int, tileable),
{
    let numer: i64 = if tileable {
        index as i64
    } else {
        2 * (index as i64) - size as i64
    };
    Ratio { numer, denom: size as i64 }
}

proof fn lemma_cell_in_grid(i: int, size: int)
    requires
        0 <= i < size * size,
        0 < size,
    ensures
        0 <= cell_x(i, size) < size,
        0 <= cell_y(i, size) < size,
{
    assert(0 <= i / size < size) by (nonlinear_arith)
        requires
            0 <= i < size * size,
            0 < size,
    ;
    assert(0 <= i % size < size) by (nonlinear_arith)
        requires
            0 < size,
    ;
}

/// Fills a grid of `size` by `size` cells in place: the value at linear index
/// `ix * size + iy` is the sampler's value at the coordinates of `(ix, iy)`.
/// Nothing is allocated, and each cell is computed on its own.
pub fn fill<V, F: Fn(Ratio, Ratio) -> V>(values: &mut Vec<V>, size: usize, tileable: bool, sampler: &F)
    requires
        old(values).len() == size * size,
        size <= MAX_RESOLUTION,
        forall|x: Ratio, y: Ratio| sampler.requires((x, y)),
    ensures
        sampled_grid(*sampler, final(values)@, size as nat, tileable),
{
    let count: usize = size * size;
    let mut i: usize = 0;
    while i < count
        invariant
            count == size * size,
            size <= MAX_RESOLUTION,
            i <= count,
            values.len() == count,
            forall|x: Ratio, y: Ratio| sampler.requires((x, y)),
            forall|j: int|
                0 <= j < i ==> sampler.ensures(
                    (
                        axis_ratio(cell_x(j, size as int), size as int, tileable),
                        axis_ratio(cell_y(j, size as int), size as int, tileable),
                    ),
                    #[trigger] values@[j],
                ),
        decreases count - i,
    {
        proof {
            lemma_cell_in_grid(i as int, size as int);
        }
        let x = axis_coordinate(i / size, size, tileable);
        let y = axis_coordinate(i % size, size, tileable);
        let v = sampler(x, y);
        values.set(i, v);
        i = i + 1;
    }
}

/// `pixels` holds, at each index, what `shader` returns for the value at the
/// same index.
pub open spec fn shaded<V, P, G: Fn(V) -> P>(shader: G, values: Seq<V>, pixels: Seq<P>) -> bool {
    &&& pixels.len() == values.len()
    &&& forall|i: int| 0 <= i < pixels.len() ==> shader.ensures((values[i],), #[trigger] pixels[i])
}

/// Turns every raw value into a pixel in place, index by index.
pub fn shade<V: Copy, P, G: Fn(V) -> P>(values: &Vec<V>, pixels: &mut Vec<P>, shader: &G)
    requires
        old(pixels).len() == values.len(),
        forall|v: V| shader.requires((v,)),
    ensures
        shaded(*shader, values@, final(pixels)@),
{
    let mut i: usize = 0;
    while i < values.len()
        invariant
            i <= values.len(),
            pixels.len() == values.len(),
            forall|v: V| shader.requires((v,)),
            forall|j: int| 0 <= j < i ==> shader.ensures((values@[j],), #[trigger] pixels@[j]),
        decreases values.len() - i,
    {
        let p = shader(values[i]);
        pixels.set(i, p);
        i = i + 1;
    }
}

/// A closure that gives one result for one argument.
pub open spec fn functional2<A, B, V, F: Fn(A, B) -> V>(f: F) -> bool {
    forall|a: A, b: B, r1: V, r2: V| f.ensures((a, b), r1) && f.ensures((a, b), r2) ==> r1 == r2
}

/// A closure that gives one result for one argument.
pub open spec fn functional1<A, P, G: Fn(A) -> P>(g: G) -> bool {
    forall|a: A, r1: P, r2: P| g.ensures((a,), r1) && g.ensures((a,), r2) ==> r1 == r2
}

/// Determinism: sampling the same grid twice with a sampler that is a
/// function of its coordinates, then shading both results with a shader that
/// is a function of its value, gives identical pixel grids.
pub proof fn lemma_pipeline_deterministic<V, P, F: Fn(Ratio, Ratio) -> V, G: Fn(V) -> P>(
    sampler: F,
    shader: G,
    size: nat,
    tileable: bool,
    values1: Seq<V>,
    values2: Seq<V>,
    pixels1: Seq<P>,
    pixels2: Seq<P>,
)
    requires
        functional2(sampler),
        functional1(shader),
        sampled_grid(sampler, values1, size, tileable),
        sampled_grid(sampler, values2, size, tileable),
        shaded(shader, values1, pixels1),
        shaded(shader, values2, pixels2),
    ensures
        values1 == values2,
        pixels1 == pixels2,
{
    assert forall|i: int| 0 <= i < values1.len() implies values1[i] == values2[i] by {
        let x = axis_ratio(cell_x(i, size as int), size as int, tileable);
        let y = axis_ratio(cell_y(i, size as int), size as int, tileable);
        assert(sampler.ensures((x, y), values1[i]));
        assert(sampler.ensures((x, y), values2[i]));
    }
    assert(values1 =~= values2);
    assert forall|i: int| 0 <= i < pixels1.len() implies pixels1[i] == pixels2[i] by {
        assert(shader.ensures((values1[i],), pixels1[i]));
        assert(shader.ensures((values2[i],), pixels2[i]));
    }
    assert(pixels1 =~= pixels2);
}

/// Tiling period: on a tileable grid, the column one past the last lies
/// exactly one unit beyond column 0, so a field whose period is one unit
/// repeats there; the second coordinate does not depend on the column.
pub proof fn lemma_tile_period(size: nat)
    requires
        0 < size <= MAX_RESOLUTION,
    ensures
        axis_numer(size as int, size as int, true) - axis_numer(0, size as int, true) == size,
        axis_ratio(size as int, size as int, true).denom == size,
        axis_ratio(0, size as int, true).denom == size,
{
}

/// The two coordinate policies differ: for every cell of a non-empty grid,
/// the tileable coordinate and the centred one are different numbers.
pub proof fn lemma_policies_differ(size: nat, index: nat)
    requires
        index < size <= MAX_RESOLUTION,
    ensures
        !same_value(axis_ratio(index as int, size as int, true), axis_ratio(index as int, size as int, false)),
{
    let a = axis_ratio(index as int, size as int, true);
    let b = axis_ratio(index as int, size as int, false);
    assert(a.numer != b.numer);
    assert(a.denom == b.denom && a.denom > 0);
    assert(a.numer * b.denom != b.numer * a.denom) by (nonlinear_arith)
        requires
            a.numer != b.numer,
            a.denom == b.denom,
            a.denom > 0,
    ;
}

} // verus!
