use vstd::prelude::*;
use crate::dimension::Dimension;
use crate::kind::{has_4d, NoiseKind};

verus! {

/// Whether the noise crate has an evaluator for a kind sampled in a
/// dimension, with or without tiling.
///
/// Only the noise kind and the tiling flag decide it: a tileable 2D field is
/// sampled through the kind's 4D evaluator, and 3D and 4D fields are never
/// tileable.
pub open spec fn has_evaluator(kind: NoiseKind, dimension: Dimension, tileable: bool) -> bool {
    match dimension {
        Dimension::D2 => has_4d(kind) || !tileable,
        Dimension::D3 => !tileable,
        Dimension::D4 => has_4d(kind) && !tileable,
    }
}

/// Whether a request can be sampled. The wide (simd) evaluators of the noise
/// crate are only built with its nightly feature, which this library does not
/// enable, so a request for wide evaluation is never supported.
pub open spec fn is_supported(kind: NoiseKind, dimension: Dimension, tileable: bool, simd: bool) -> bool {
    !simd && has_evaluator(kind, dimension, tileable)
}

/// The outcome of resolving a sampler.
#[derive(Debug, Clone, Copy, PartialEq, Eq, Hash, Structural)]
pub enum Resolution {
    /// The noise crate's scalar evaluator of this dimension applies.
    Sample(Dimension),
    /// No evaluator exists for the request; the caller shows a fallback.
    Unsupported,
}

pub open spec fn resolution_of(kind: NoiseKind, dimension: Dimension, tileable: bool, simd: bool) -> Resolution {
    if is_supported(kind, dimension, tileable, simd) {
        Resolution::Sample(dimension)
    } else {
        Resolution::Unsupported
    }
}

/// Relies on noise_functions_config::Config::sampler2: it returns a sampler
/// unless tiling is asked of a kind without a 4D evaluator (ValueCubic); the
/// config's other fields do not decide it.
#[verifier::external_body]
fn offers_sampler2(kind: NoiseKind, tileable: bool) -> (r: bool)
    ensures
        r == has_evaluator(kind, Dimension::D2, tileable),
{
    let config = noise_functions_config::Config {
        noise: noise_functions_config::Noise::VARIANTS[kind.index()],
        tileable,
        ..Default::default()
    };
    config.sampler2().is_some()
}

/// Relies on noise_functions_config::Config::sampler3: it returns a sampler
/// exactly when tiling is off; the config's other fields do not decide it.
#[verifier::external_body]
fn offers_sampler3(kind: NoiseKind, tileable: bool) -> (r: bool)
    ensures
        r == has_evaluator(kind, Dimension::D3, tileable),
{
    let config = noise_functions_config::Config {
        noise: noise_functions_config::Noise::VARIANTS[kind.index()],
        tileable,
        ..Default::default()
    };
    config.sampler3().is_some()
}

/// Relies on noise_functions_config::Config::sampler4: it returns a sampler
/// exactly when tiling is off and the kind has a 4D evaluator (all but
/// ValueCubic); the config's other fields do not decide it.
#[verifier::external_body]
fn offers_sampler4(kind: NoiseKind, tileable: bool) -> (r: bool)
    ensures
        r == has_evaluator(kind, Dimension::D4, tileable),
{
    let config = noise_functions_config::Config {
        noise: noise_functions_config::Noise::VARIANTS[kind.index()],
        tileable,
        ..Default::default()
    };
    config.sampler4().is_some()
}

/// Resolves the evaluator for a configuration: the same request always gives
/// the same answer, and an unsupported one is an ordinary outcome.
pub fn resolve(kind: NoiseKind, dimension: Dimension, tileable: bool, simd: bool) -> (r: Resolution)
    ensures
        r == resolution_of(kind, dimension, tileable, simd),
{
    if simd {
        return Resolution::Unsupported;
    }
    let offered = match dimension {
        Dimension::D2 => offers_sampler2(kind, tileable),
        Dimension::D3 => offers_sampler3(kind, tileable),
        Dimension::D4 => offers_sampler4(kind, tileable),
    };
    if offered {
        Resolution::Sample(dimension)
    } else {
        Resolution::Unsupported
    }
}

} // verus!
