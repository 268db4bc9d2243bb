use vstd::prelude::*;

verus! {

/// The raw sample buffer and the pixel buffer of the preview, kept between
/// render passes so that they are only reallocated when the grid size
/// changes.
pub struct Cache<V, P> {
    values: Vec<V>,
    pixels: Vec<P>,
    size: usize,
}

/// `len` copies of `value`.
pub open spec fn repeated<T>(value: T, len: nat) -> Seq<T> {
    Seq::new(len, |_i: int| value)
}

fn filled<T: Copy>(value: T, len: usize) -> (r: Vec<T>)
    ensures
        r@ == repeated(value, len as nat),
{
    let mut r: Vec<T> = Vec::new();
    while r.len() < len
        invariant
            r.len() <= len,
            r@ == repeated(value, r.len() as nat),
        decreases len - r.len(),
    {
        r.push(value);
        assert(r@ =~= repeated(value, r.len() as nat));
    }
    r
}

/// What a cache holds: its two buffers and the cell count they are sized for.
pub struct CacheView<V, P> {
    pub values: Seq<V>,
    pub pixels: Seq<P>,
    pub size: nat,
}

impl<V, P> View for Cache<V, P> {
    type V = CacheView<V, P>;

    closed spec fn view(&self) -> CacheView<V, P> {
        CacheView { values: self.values@, pixels: self.pixels@, size: self.size as nat }
    }
}

/// The cache after `resize(new_size)`: unchanged where the size is the same,
/// else two fresh buffers of `new_size` cells, the samples zeroed and the
/// pixels set to the sentinel that marks a cell nothing has filled.
pub open spec fn resized<V, P>(c: CacheView<V, P>, new_size: nat, zero: V, sentinel: P) -> CacheView<V, P> {
    if new_size == c.size {
        c
    } else {
        CacheView { values: repeated(zero, new_size), pixels: repeated(sentinel, new_size), size: new_size }
    }
}

impl<V, P> CacheView<V, P> {
    /// Both buffers have one entry per cell.
    pub open spec fn wf(self) -> bool {
        self.values.len() == self.size && self.pixels.len() == self.size
    }
}

impl<V: Copy, P: Copy> Cache<V, P> {
    /// An empty cache: no cells, no buffers.
    pub fn new() -> (r: Self)
        ensures
            r@.size == 0,
            r@.values.len() == 0,
            r@.pixels.len() == 0,
    {
        Cache { values: Vec::new(), pixels: Vec::new(), size: 0 }
    }

    /// The number of cells the buffers are sized for.
    pub fn size(&self) -> (r: usize)
        ensures
            r == self@.size,
    {
        self.size
    }

    /// The raw samples.
    pub fn values(&self) -> (r: &Vec<V>)
        ensures
            r@ == self@.values,
    {
        &self.values
    }

    /// The pixels of the last shading pass.
    pub fn pixels(&self) -> (r: &Vec<P>)
        ensures
            r@ == self@.pixels,
    {
        &self.pixels
    }

    /// Sizes both buffers for `new_size` cells. Where the size is already
    /// `new_size` nothing happens: the buffers and their contents stay as
    /// they are. Otherwise both are replaced by fresh ones.
    pub fn resize(&mut self, new_size: usize, zero: V, sentinel: P)
        requires
            old(self)@.wf(),
        ensures
            final(self)@ == resized(old(self)@, new_size as nat, zero, sentinel),
            final(self)@.wf(),
            new_size == old(self)@.size ==> *final(self) == *old(self),
    {
        if new_size == self.size {
            return;
        }
        self.values = filled(zero, new_size);
        self.pixels = filled(sentinel, new_size);
        self.size = new_size;
    }

    /// Fills the sample buffer of a `side` by `side` grid; see
    /// [`crate::grid::fill`].
    pub fn sample<F: Fn(crate::grid::Ratio, crate::grid::Ratio) -> V>(&mut self, side: usize, tileable: bool, sampler: &F)
        requires
            old(self)@.wf(),
            old(self)@.size == side * side,
            side <= crate::grid::MAX_RESOLUTION,
            forall|x: crate::grid::Ratio, y: crate::grid::Ratio| sampler.requires((x, y)),
        ensures
            final(self)@.wf(),
            final(self)@.size == old(self)@.size,
            final(self)@.pixels == old(self)@.pixels,
            crate::grid::sampled_grid(*sampler, final(self)@.values, side as nat, tileable),
    {
        crate::grid::fill(&mut self.values, side, tileable, sampler);
    }

    /// Turns the samples into pixels; see [`crate::grid::shade`].
    pub fn shade<G: Fn(V) -> P>(&mut self, shader: &G)
        requires
            old(self)@.wf(),
            forall|v: V| shader.requires((v,)),
        ensures
            final(self)@.wf(),
            final(self)@.size == old(self)@.size,
            final(self)@.values == old(self)@.values,
            crate::grid::shaded(*shader, final(self)@.values, final(self)@.pixels),
    {
        crate::grid::shade(&self.values, &mut self.pixels, shader);
    }
}

/// Resizing is idempotent: a second `resize` to the same size changes
/// nothing, and the cache it leaves is sized for that many cells.
pub proof fn lemma_resize_idempotent<V, P>(c: CacheView<V, P>, new_size: nat, zero: V, sentinel: P)
    requires
        c.wf(),
    ensures
        resized(resized(c, new_size, zero, sentinel), new_size, zero, sentinel) == resized(c, new_size, zero, sentinel),
        resized(c, new_size, zero, sentinel).size == new_size,
        resized(c, new_size, zero, sentinel).wf(),
{
}

} // verus!
