//! Sampling, caching and dispatch engine for an interactive noise preview.
//!
//! The library holds the configuration model, the capability tables of the
//! noise kinds, the resolver that asks the noise crate whether it has an
//! evaluator for a request, the grid coordinate policies, the value cache and
//! the dirty-flag bookkeeping of the render loop. Floating-point work (the
//! noise evaluation itself and the conversion of samples to bytes) is handed
//! in by the caller as closures.
use vstd::prelude::*;

pub mod cache;
pub mod dimension;
pub mod grid;
pub mod kind;
pub mod preview;
pub mod resolve;
pub mod settings;
pub mod widgets;

pub use cache::Cache;
pub use dimension::Dimension;
pub use grid::{axis_coordinate, fill, shade, Ratio, MAX_RESOLUTION};
pub use kind::{Improve, Modifier, NoiseKind, Normalization};
pub use preview::{Pass, Preview};
pub use resolve::{resolve, Resolution};
pub use settings::{Field, FloatBits, Settings};
pub use widgets::{Reset, Setting, SimpleComboBox};
