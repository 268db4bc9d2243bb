use vstd::prelude::*;

verus! {

/// The noise algorithms the preview can sample, in the order the noise
/// crate declares them.
#[derive(Debug, Clone, Copy, PartialEq, Eq, Hash, Structural)]
pub enum NoiseKind {
    Value,
    ValueCubic,
    Perlin,
    Simplex,
    OpenSimplex2,
    OpenSimplex2s,
    CellValue,
    CellDistance,
    CellDistanceSq,
}

/// A transformation applied to the base noise before any fractal layering.
#[derive(Debug, Clone, Copy, PartialEq, Eq, Hash, Structural)]
pub enum Modifier {
    /// The base noise as it is.
    Plain,
    Ridged,
    TriangleWave,
}

/// The orientation correction of the OpenSimplex kinds.
#[derive(Debug, Clone, Copy, PartialEq, Eq, Hash, Structural)]
pub enum Improve {
    /// The kind's own default orientation.
    Default,
    X,
    Xy,
    Xz,
    Xyz,
    XyzXy,
    XyzXz,
    XyZw,
}

/// How a raw sample of a kind becomes a display intensity.
#[derive(Debug, Clone, Copy, PartialEq, Eq, Hash, Structural)]
pub enum Normalization {
    /// Samples nominally in `[-1, 1]`: the byte is `(v * 0.5 + 0.5) * 255`.
    Signed,
    /// Non-negative distances: the byte is `v * 255`.
    Distance,
}

/// The normalization policy of each kind.
pub open spec fn normalization_of(k: NoiseKind) -> Normalization {
    match k {
        NoiseKind::CellDistance | NoiseKind::CellDistanceSq => Normalization::Distance,
        _ => Normalization::Signed,
    }
}

/// Whether the noise crate has a four-dimensional evaluator for the kind.
/// Tiling a 2D field is done through that evaluator.
pub open spec fn has_4d(k: NoiseKind) -> bool {
    k != NoiseKind::ValueCubic
}

/// The kinds built on a jittered point lattice.
pub open spec fn is_cellular(k: NoiseKind) -> bool {
    k == NoiseKind::CellValue || k == NoiseKind::CellDistance || k == NoiseKind::CellDistanceSq
}

/// The kinds that take an orientation correction.
pub open spec fn is_open_simplex(k: NoiseKind) -> bool {
    k == NoiseKind::OpenSimplex2 || k == NoiseKind::OpenSimplex2s
}

/// Position of a kind in the declaration order.
pub open spec fn kind_index(k: NoiseKind) -> nat {
    match k {
        NoiseKind::Value => 0,
        NoiseKind::ValueCubic => 1,
        NoiseKind::Perlin => 2,
        NoiseKind::Simplex => 3,
        NoiseKind::OpenSimplex2 => 4,
        NoiseKind::OpenSimplex2s => 5,
        NoiseKind::CellValue => 6,
        NoiseKind::CellDistance => 7,
        NoiseKind::CellDistanceSq => 8,
    }
}

impl NoiseKind {
    /// The normalization policy of this kind: an explicit table with one row
    /// per kind.
    pub fn normalization(self) -> (r: Normalization)
        ensures
            r == normalization_of(self),
    {
        match self {
            NoiseKind::Value => Normalization::Signed,
            NoiseKind::ValueCubic => Normalization::Signed,
            NoiseKind::Perlin => Normalization::Signed,
            NoiseKind::Simplex => Normalization::Signed,
            NoiseKind::OpenSimplex2 => Normalization::Signed,
            NoiseKind::OpenSimplex2s => Normalization::Signed,
            NoiseKind::CellValue => Normalization::Signed,
            NoiseKind::CellDistance => Normalization::Distance,
            NoiseKind::CellDistanceSq => Normalization::Distance,
        }
    }

    pub fn is_cellular(self) -> (r: bool)
        ensures
            r == is_cellular(self),
    {
        matches!(self, NoiseKind::CellValue | NoiseKind::CellDistance | NoiseKind::CellDistanceSq)
    }

    pub fn is_open_simplex(self) -> (r: bool)
        ensures
            r == is_open_simplex(self),
    {
        matches!(self, NoiseKind::OpenSimplex2 | NoiseKind::OpenSimplex2s)
    }

    /// Position of this kind in the declaration order, which is also the
    /// noise crate's order.
    pub fn index(self) -> (r: usize)
        ensures
            r == kind_index(self),
            r < 9,
    {
        match self {
            NoiseKind::Value => 0,
            NoiseKind::ValueCubic => 1,
            NoiseKind::Perlin => 2,
            NoiseKind::Simplex => 3,
            NoiseKind::OpenSimplex2 => 4,
            NoiseKind::OpenSimplex2s => 5,
            NoiseKind::CellValue => 6,
            NoiseKind::CellDistance => 7,
            NoiseKind::CellDistanceSq => 8,
        }
    }
}

} // verus!
