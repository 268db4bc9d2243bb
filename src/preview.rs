use vstd::prelude::*;
use crate::cache::{resized, Cache, CacheView};
use crate::grid::{sampled_grid, shaded, Ratio, MAX_RESOLUTION};
use crate::kind::{normalization_of, Normalization};
use crate::resolve::{resolution_of, resolve, Resolution};
use crate::settings::{default_settings, with_default, Field, Settings};

verus! {

/// What a render pass samples: decided when the pass begins, from the
/// settings of that moment.
#[derive(Debug, Clone, Copy, PartialEq, Eq, Hash, Structural)]
pub struct Pass {
    /// The evaluator to sample with, or the fallback.
    pub resolution: Resolution,
    /// The side of the square grid.
    pub side: usize,
    /// Which coordinate policy the grid uses.
    pub tileable: bool,
    /// How samples become pixels.
    pub normalization: Normalization,
}

/// The pass that settings call for.
pub open spec fn pass_for(s: Settings) -> Pass {
    Pass {
        resolution: resolution_of(s.noise, s.dimension, s.tileable, s.simd),
        side: s.texture_size,
        tileable: s.tileable,
        normalization: normalization_of(s.noise),
    }
}

/// The render loop's state apart from the buffers.
pub struct PreviewState {
    pub settings: Settings,
    pub dirty: bool,
    pub sample_success: bool,
    pub pass: Pass,
}

/// The state after the settings are replaced by `s`: a change marks the
/// output stale.
pub open spec fn edited(st: PreviewState, s: Settings) -> PreviewState {
    PreviewState { settings: s, dirty: st.dirty || s != st.settings, ..st }
}

/// The state after a render cycle begins: a stale output starts a pass,
/// which clears the flag and records whether the request can be sampled.
pub open spec fn begun(st: PreviewState) -> PreviewState {
    if st.dirty {
        let p = pass_for(st.settings);
        PreviewState {
            dirty: false,
            sample_success: p.resolution != Resolution::Unsupported,
            pass: p,
            ..st
        }
    } else {
        st
    }
}

/// The preview engine: the settings, the dirty flag and the cached buffers.
/// `V` is the raw sample type and `P` the pixel type.
pub struct Preview<V, P> {
    settings: Settings,
    dirty: bool,
    sample_success: bool,
    pass: Pass,
    cache: Cache<V, P>,
}

impl<V: Copy, P: Copy> Preview<V, P> {
    pub closed spec fn state(&self) -> PreviewState {
        PreviewState {
            settings: self.settings,
            dirty: self.dirty,
            sample_success: self.sample_success,
            pass: self.pass,
        }
    }

    pub closed spec fn buffers(&self) -> CacheView<V, P> {
        self.cache@
    }

    /// The buffers are sized for the current pass and the settings are usable.
    pub open spec fn wf(&self) -> bool {
        &&& self.buffers().wf()
        &&& self.buffers().size == self.state().pass.side * self.state().pass.side
        &&& self.state().pass.side <= MAX_RESOLUTION
        &&& self.state().settings.wf()
    }

    /// A preview with default settings, no buffers, and stale output so that
    /// the first cycle renders.
    pub fn new() -> (r: Self)
        ensures
            r.wf(),
            r.state().settings == default_settings(),
            r.state().dirty,
            r.state().sample_success,
            r.buffers().size == 0,
    {
        Preview {
            settings: Settings::default(),
            dirty: true,
            sample_success: true,
            pass: Pass {
                resolution: Resolution::Unsupported,
                side: 0,
                tileable: false,
                normalization: Normalization::Signed,
            },
            cache: Cache::new(),
        }
    }

    pub fn settings(&self) -> (r: Settings)
        ensures
            r == self.state().settings,
    {
        self.settings
    }

    /// Whether the output is stale and the next cycle recomputes it.
    pub fn is_dirty(&self) -> (r: bool)
        ensures
            r == self.state().dirty,
    {
        self.dirty
    }

    /// Whether the last pass could sample; `false` means the display shows
    /// the unsupported-configuration fallback.
    pub fn sample_success(&self) -> (r: bool)
        ensures
            r == self.state().sample_success,
    {
        self.sample_success
    }

    pub fn cache(&self) -> (r: &Cache<V, P>)
        ensures
            r@ == self.buffers(),
    {
        &self.cache
    }

    /// Marks the output stale.
    pub fn mark_dirty(&mut self)
        requires
            old(self).wf(),
        ensures
            final(self).wf(),
            final(self).state() == (PreviewState { dirty: true, ..old(self).state() }),
            final(self).buffers() == old(self).buffers(),
    {
        self.dirty = true;
    }

    /// Replaces the settings. Any change marks the output stale; equal
    /// settings leave the flag as it was.
    pub fn edit(&mut self, s: Settings)
        requires
            old(self).wf(),
            s.wf(),
        ensures
            final(self).wf(),
            final(self).state() == edited(old(self).state(), s),
            final(self).buffers() == old(self).buffers(),
    {
        if s != self.settings {
            self.settings = s;
            self.mark_dirty();
        }
    }

    /// Resets one field to its default; a change marks the output stale.
    pub fn reset(&mut self, field: Field) -> (changed: bool)
        requires
            old(self).wf(),
        ensures
            final(self).wf(),
            final(self).state() == edited(old(self).state(), with_default(old(self).state().settings, field)),
            final(self).buffers() == old(self).buffers(),
            changed == (with_default(old(self).state().settings, field) != old(self).state().settings),
    {
        let mut s = self.settings;
        let changed = s.reset(field);
        self.edit(s);
        changed
    }

    /// Begins a render cycle. With a stale output it starts a pass: the flag
    /// is cleared, the buffers are sized for the grid (reallocated only when
    /// the cell count changes), the evaluator is resolved, and the pass is
    /// returned. Otherwise nothing is recomputed and the result is `None`.
    pub fn begin_pass(&mut self, zero: V, sentinel: P) -> (r: Option<Pass>)
        requires
            old(self).wf(),
        ensures
            final(self).wf(),
            final(self).state() == begun(old(self).state()),
            r == (if old(self).state().dirty { Some(pass_for(old(self).state().settings)) } else { None }),
            old(self).state().dirty ==> final(self).buffers() == resized(
                old(self).buffers(),
                (old(self).state().settings.texture_size * old(self).state().settings.texture_size) as nat,
                zero,
                sentinel,
            ),
            !old(self).state().dirty ==> final(self).buffers() == old(self).buffers(),
    {
        if !self.dirty {
            return None;
        }
        self.dirty = false;
        let side = self.settings.texture_size;
        assert(side * side <= MAX_RESOLUTION * MAX_RESOLUTION) by (nonlinear_arith)
            requires
                side <= MAX_RESOLUTION,
        ;
        self.cache.resize(side * side, zero, sentinel);
        let resolution = resolve(
            self.settings.noise,
            self.settings.dimension,
            self.settings.tileable,
            self.settings.simd,
        );
        let pass = Pass {
            resolution,
            side,
            tileable: self.settings.tileable,
            normalization: self.settings.noise.normalization(),
        };
        self.pass = pass;
        self.sample_success = match resolution {
            Resolution::Unsupported => false,
            Resolution::Sample(_) => true,
        };
        Some(pass)
    }

    /// Samples the grid of the current pass into the value buffer.
    pub fn sample<F: Fn(Ratio, Ratio) -> V>(&mut self, sampler: &F)
        requires
            old(self).wf(),
            forall|x: Ratio, y: Ratio| sampler.requires((x, y)),
        ensures
            final(self).wf(),
            final(self).state() == old(self).state(),
            final(self).buffers().pixels == old(self).buffers().pixels,
            sampled_grid(
                *sampler,
                final(self).buffers().values,
                old(self).state().pass.side as nat,
                old(self).state().pass.tileable,
            ),
    {
        let side = self.pass.side;
        let tileable = self.pass.tileable;
        self.cache.sample(side, tileable, sampler);
    }

    /// Turns the sampled values into pixels for the display.
    pub fn shade<G: Fn(V) -> P>(&mut self, shader: &G)
        requires
            old(self).wf(),
            forall|v: V| shader.requires((v,)),
        ensures
            final(self).wf(),
            final(self).state() == old(self).state(),
            final(self).buffers().values == old(self).buffers().values,
            shaded(*shader, final(self).buffers().values, final(self).buffers().pixels),
    {
        self.cache.shade(shader);
    }
}

/// Dirty coverage: a change of any setting before a cycle makes that cycle
/// run a pass, and only one: the cycle after it, with nothing changed in
/// between, recomputes nothing. Leaving the settings as they are never starts
/// a pass on a clean output.
pub proof fn lemma_dirty_coverage(st: PreviewState, s: Settings)
    ensures
        s != st.settings ==> edited(st, s).dirty,
        !begun(edited(st, s)).dirty,
        begun(begun(edited(st, s))) == begun(edited(st, s)),
        !st.dirty && s == st.settings ==> !edited(st, s).dirty,
        !begun(st).dirty && begun(begun(st)) == begun(st),
{
}

/// Fallback: a cycle that resolves no evaluator records that sampling
/// failed, and the pass it hands out says `Unsupported`.
pub proof fn lemma_unsupported_fallback(st: PreviewState)
    requires
        st.dirty,
        resolution_of(st.settings.noise, st.settings.dimension, st.settings.tileable, st.settings.simd)
            == Resolution::Unsupported,
    ensures
        !begun(st).sample_success,
        begun(st).pass.resolution == Resolution::Unsupported,
{
}

} // verus!
