use vstd::prelude::*;
use crate::dimension::Dimension;
use crate::grid::MAX_RESOLUTION;
use crate::kind::{is_cellular, is_open_simplex, Improve, Modifier, NoiseKind};
use crate::resolve::{has_evaluator, resolve, Resolution};

verus! {

/// An `f32` setting held by its IEEE-754 bit pattern. The library only
/// compares and copies such values; the caller converts them to and from
/// `f32` at its edge. Two values are equal when their bits are.
#[derive(Debug, Clone, Copy, PartialEq, Eq, Hash, Structural)]
pub struct FloatBits {
    pub bits: u32,
}

/// The bits of `0.0`.
pub const BITS_0: u32 = 0x0000_0000;

/// The bits of `0.5`.
pub const BITS_HALF: u32 = 0x3F00_0000;

/// The bits of `1.0`.
pub const BITS_1: u32 = 0x3F80_0000;

/// The bits of `2.0`.
pub const BITS_2: u32 = 0x4000_0000;

/// The bits of `3.0`.
pub const BITS_3: u32 = 0x4040_0000;

/// Everything the preview is configured by: the noise configuration and the
/// viewport.
#[derive(Debug, Clone, Copy, PartialEq, Eq, Hash, Structural)]
pub struct Settings {
    // noise configuration
    /// The noise algorithm.
    pub noise: NoiseKind,
    pub seed: i32,
    /// Scales the input coordinates.
    pub frequency: FloatBits,
    pub modifier: Modifier,
    /// Only read under [`Modifier::TriangleWave`].
    pub triangle_wave_frequency: FloatBits,
    /// Fractal layering; the four fields after it are its parameters.
    pub fractal: bool,
    pub lacunarity: FloatBits,
    pub octaves: u32,
    pub gain: FloatBits,
    pub weighted_strength: FloatBits,
    /// Only read for the OpenSimplex kinds.
    pub improve: Improve,
    /// Only read for the cellular kinds.
    pub jitter: FloatBits,
    /// Tileable sampling; the tile sizes are its period.
    pub tileable: bool,
    pub tile_width: FloatBits,
    pub tile_height: FloatBits,
    // viewport
    /// The side of the square grid, in cells.
    pub texture_size: usize,
    pub dimension: Dimension,
    /// Shift added to the first coordinate.
    pub x: FloatBits,
    /// Shift added to the second coordinate.
    pub y: FloatBits,
    /// The third coordinate, the same for every cell.
    pub z: FloatBits,
    /// The fourth coordinate, the same for every cell.
    pub w: FloatBits,
    /// Asks for the wide (simd) evaluators.
    pub simd: bool,
    /// Shows the texture four times, to judge tiling.
    pub show_tiles: bool,
    /// Keeps frequency, tile width and tile height equal while set.
    pub link_tile_size_to_frequency: bool,
}

/// The settings, one variant per field, for the form's per-field actions.
#[derive(Debug, Clone, Copy, PartialEq, Eq, Hash, Structural)]
pub enum Field {
    Noise,
    Seed,
    Frequency,
    Modifier,
    TriangleWaveFrequency,
    Fractal,
    Lacunarity,
    Octaves,
    Gain,
    WeightedStrength,
    Improve,
    Jitter,
    Tileable,
    TileWidth,
    TileHeight,
    TextureSize,
    Dimension,
    X,
    Y,
    Z,
    W,
    Simd,
    ShowTiles,
    LinkTileSize,
}

/// The settings a fresh preview starts from.
pub open spec fn default_settings() -> Settings {
    Settings {
        noise: NoiseKind::Simplex,
        seed: 0,
        frequency: FloatBits { bits: BITS_3 },
        modifier: Modifier::Plain,
        triangle_wave_frequency: FloatBits { bits: BITS_2 },
        fractal: false,
        lacunarity: FloatBits { bits: BITS_2 },
        octaves: 3,
        gain: FloatBits { bits: BITS_HALF },
        weighted_strength: FloatBits { bits: BITS_0 },
        improve: Improve::Xy,
        jitter: FloatBits { bits: BITS_1 },
        tileable: true,
        tile_width: FloatBits { bits: BITS_3 },
        tile_height: FloatBits { bits: BITS_3 },
        texture_size: 295,
        dimension: Dimension::D2,
        x: FloatBits { bits: BITS_0 },
        y: FloatBits { bits: BITS_0 },
        z: FloatBits { bits: BITS_0 },
        w: FloatBits { bits: BITS_0 },
        simd: false,
        show_tiles: true,
        link_tile_size_to_frequency: true,
    }
}

/// Frequency set to `v`; in linked mode the tile sizes follow it.
pub open spec fn linked_frequency(s: Settings, v: FloatBits) -> Settings {
    if s.link_tile_size_to_frequency {
        Settings { frequency: v, tile_width: v, tile_height: v, ..s }
    } else {
        Settings { frequency: v, ..s }
    }
}

/// Tile width set to `v`; in linked mode the frequency and the tile height
/// follow it.
pub open spec fn linked_tile_width(s: Settings, v: FloatBits) -> Settings {
    if s.link_tile_size_to_frequency {
        Settings { frequency: v, tile_width: v, tile_height: v, ..s }
    } else {
        Settings { tile_width: v, ..s }
    }
}

/// Tile height set to `v`; in linked mode the frequency and the tile width
/// follow it.
pub open spec fn linked_tile_height(s: Settings, v: FloatBits) -> Settings {
    if s.link_tile_size_to_frequency {
        Settings { frequency: v, tile_width: v, tile_height: v, ..s }
    } else {
        Settings { tile_height: v, ..s }
    }
}

/// The settings after resetting one field to its default. Resetting the
/// frequency or a tile size is a setting of it, so linked values follow.
pub open spec fn with_default(s: Settings, f: Field) -> Settings {
    let d = default_settings();
    match f {
        Field::Noise => Settings { noise: d.noise, ..s },
        Field::Seed => Settings { seed: d.seed, ..s },
        Field::Frequency => linked_frequency(s, d.frequency),
        Field::Modifier => Settings { modifier: d.modifier, ..s },
        Field::TriangleWaveFrequency => Settings { triangle_wave_frequency: d.triangle_wave_frequency, ..s },
        Field::Fractal => Settings { fractal: d.fractal, ..s },
        Field::Lacunarity => Settings { lacunarity: d.lacunarity, ..s },
        Field::Octaves => Settings { octaves: d.octaves, ..s },
        Field::Gain => Settings { gain: d.gain, ..s },
        Field::WeightedStrength => Settings { weighted_strength: d.weighted_strength, ..s },
        Field::Improve => Settings { improve: d.improve, ..s },
        Field::Jitter => Settings { jitter: d.jitter, ..s },
        Field::Tileable => Settings { tileable: d.tileable, ..s },
        Field::TileWidth => linked_tile_width(s, d.tile_width),
        Field::TileHeight => linked_tile_height(s, d.tile_height),
        Field::TextureSize => Settings { texture_size: d.texture_size, ..s },
        Field::Dimension => Settings { dimension: d.dimension, ..s },
        Field::X => Settings { x: d.x, ..s },
        Field::Y => Settings { y: d.y, ..s },
        Field::Z => Settings { z: d.z, ..s },
        Field::W => Settings { w: d.w, ..s },
        Field::Simd => Settings { simd: d.simd, ..s },
        Field::ShowTiles => Settings { show_tiles: d.show_tiles, ..s },
        Field::LinkTileSize => Settings { link_tile_size_to_frequency: d.link_tile_size_to_frequency, ..s },
    }
}

/// Whether tiling takes effect: it is switched on and the kind can tile in
/// the active dimension.
pub open spec fn tiling_applies(s: Settings) -> bool {
    s.tileable && has_evaluator(s.noise, s.dimension, true)
}

/// Whether a field is meaningfully editable under the current settings.
pub open spec fn applicable(s: Settings, f: Field) -> bool {
    match f {
        Field::Improve => is_open_simplex(s.noise) && s.dimension == Dimension::D3,
        Field::Jitter => is_cellular(s.noise),
        Field::TriangleWaveFrequency => s.modifier == Modifier::TriangleWave,
        Field::Octaves | Field::Lacunarity | Field::Gain | Field::WeightedStrength => s.fractal,
        Field::LinkTileSize | Field::TileWidth | Field::TileHeight | Field::ShowTiles => tiling_applies(s),
        Field::Z => s.dimension != Dimension::D2,
        Field::W => s.dimension == Dimension::D4,
        _ => true,
    }
}

impl Settings {
    /// The settings are usable: the grid side is at most
    /// [`MAX_RESOLUTION`].
    pub open spec fn wf(self) -> bool {
        self.texture_size <= MAX_RESOLUTION
    }

    /// Whether a field holds its default value, so that the reset action is
    /// not offered.
    pub open spec fn field_is_default(self, f: Field) -> bool {
        let d = default_settings();
        match f {
            Field::Noise => self.noise == d.noise,
            Field::Seed => self.seed == d.seed,
            Field::Frequency => self.frequency == d.frequency,
            Field::Modifier => self.modifier == d.modifier,
            Field::TriangleWaveFrequency => self.triangle_wave_frequency == d.triangle_wave_frequency,
            Field::Fractal => self.fractal == d.fractal,
            Field::Lacunarity => self.lacunarity == d.lacunarity,
            Field::Octaves => self.octaves == d.octaves,
            Field::Gain => self.gain == d.gain,
            Field::WeightedStrength => self.weighted_strength == d.weighted_strength,
            Field::Improve => self.improve == d.improve,
            Field::Jitter => self.jitter == d.jitter,
            Field::Tileable => self.tileable == d.tileable,
            Field::TileWidth => self.tile_width == d.tile_width,
            Field::TileHeight => self.tile_height == d.tile_height,
            Field::TextureSize => self.texture_size == d.texture_size,
            Field::Dimension => self.dimension == d.dimension,
            Field::X => self.x == d.x,
            Field::Y => self.y == d.y,
            Field::Z => self.z == d.z,
            Field::W => self.w == d.w,
            Field::Simd => self.simd == d.simd,
            Field::ShowTiles => self.show_tiles == d.show_tiles,
            Field::LinkTileSize => self.link_tile_size_to_frequency == d.link_tile_size_to_frequency,
        }
    }

    pub fn is_default(&self, field: Field) -> (r: bool)
        ensures
            r == self.field_is_default(field),
    {
        let d = Settings::default();
        match field {
            Field::Noise => self.noise == d.noise,
            Field::Seed => self.seed == d.seed,
            Field::Frequency => self.frequency == d.frequency,
            Field::Modifier => self.modifier == d.modifier,
            Field::TriangleWaveFrequency => self.triangle_wave_frequency == d.triangle_wave_frequency,
            Field::Fractal => self.fractal == d.fractal,
            Field::Lacunarity => self.lacunarity == d.lacunarity,
            Field::Octaves => self.octaves == d.octaves,
            Field::Gain => self.gain == d.gain,
            Field::WeightedStrength => self.weighted_strength == d.weighted_strength,
            Field::Improve => self.improve == d.improve,
            Field::Jitter => self.jitter == d.jitter,
            Field::Tileable => self.tileable == d.tileable,
            Field::TileWidth => self.tile_width == d.tile_width,
            Field::TileHeight => self.tile_height == d.tile_height,
            Field::TextureSize => self.texture_size == d.texture_size,
            Field::Dimension => self.dimension == d.dimension,
            Field::X => self.x == d.x,
            Field::Y => self.y == d.y,
            Field::Z => self.z == d.z,
            Field::W => self.w == d.w,
            Field::Simd => self.simd == d.simd,
            Field::ShowTiles => self.show_tiles == d.show_tiles,
            Field::LinkTileSize => self.link_tile_size_to_frequency == d.link_tile_size_to_frequency,
        }
    }

    /// Whether a field is meaningfully editable under these settings.
    pub fn is_applicable(&self, field: Field) -> (r: bool)
        ensures
            r == applicable(*self, field),
    {
        let tiling = self.tileable && resolve(self.noise, self.dimension, true, false) == Resolution::Sample(
            self.dimension,
        );
        match field {
            Field::Improve => self.noise.is_open_simplex() && self.dimension == Dimension::D3,
            Field::Jitter => self.noise.is_cellular(),
            Field::TriangleWaveFrequency => self.modifier == Modifier::TriangleWave,
            Field::Octaves | Field::Lacunarity | Field::Gain | Field::WeightedStrength => self.fractal,
            Field::LinkTileSize | Field::TileWidth | Field::TileHeight | Field::ShowTiles => tiling,
            Field::Z => self.dimension != Dimension::D2,
            Field::W => self.dimension == Dimension::D4,
            _ => true,
        }
    }

    /// Sets the frequency; in linked mode the tile sizes follow.
    pub fn set_frequency(&mut self, v: FloatBits)
        ensures
            *final(self) == linked_frequency(*old(self), v),
    {
        self.frequency = v;
        if self.link_tile_size_to_frequency {
            self.tile_width = v;
            self.tile_height = v;
        }
    }

    /// Sets the tile width; in linked mode the frequency and the tile height
    /// follow.
    pub fn set_tile_width(&mut self, v: FloatBits)
        ensures
            *final(self) == linked_tile_width(*old(self), v),
    {
        self.tile_width = v;
        if self.link_tile_size_to_frequency {
            self.frequency = v;
            self.tile_height = v;
        }
    }

    /// Sets the tile height; in linked mode the frequency and the tile width
    /// follow.
    pub fn set_tile_height(&mut self, v: FloatBits)
        ensures
            *final(self) == linked_tile_height(*old(self), v),
    {
        self.tile_height = v;
        if self.link_tile_size_to_frequency {
            self.frequency = v;
            self.tile_width = v;
        }
    }

    /// Resets one field to its default. The result says whether anything
    /// changed.
    pub fn reset(&mut self, field: Field) -> (changed: bool)
        ensures
            *final(self) == with_default(*old(self), field),
            changed == (*final(self) != *old(self)),
            final(self).field_is_default(field),
    {
        let before = *self;
        let d = Settings::default();
        match field {
            Field::Noise => self.noise = d.noise,
            Field::Seed => self.seed = d.seed,
            Field::Frequency => self.set_frequency(d.frequency),
            Field::Modifier => self.modifier = d.modifier,
            Field::TriangleWaveFrequency => self.triangle_wave_frequency = d.triangle_wave_frequency,
            Field::Fractal => self.fractal = d.fractal,
            Field::Lacunarity => self.lacunarity = d.lacunarity,
            Field::Octaves => self.octaves = d.octaves,
            Field::Gain => self.gain = d.gain,
            Field::WeightedStrength => self.weighted_strength = d.weighted_strength,
            Field::Improve => self.improve = d.improve,
            Field::Jitter => self.jitter = d.jitter,
            Field::Tileable => self.tileable = d.tileable,
            Field::TileWidth => self.set_tile_width(d.tile_width),
            Field::TileHeight => self.set_tile_height(d.tile_height),
            Field::TextureSize => self.texture_size = d.texture_size,
            Field::Dimension => self.dimension = d.dimension,
            Field::X => self.x = d.x,
            Field::Y => self.y = d.y,
            Field::Z => self.z = d.z,
            Field::W => self.w = d.w,
            Field::Simd => self.simd = d.simd,
            Field::ShowTiles => self.show_tiles = d.show_tiles,
            Field::LinkTileSize => self.link_tile_size_to_frequency = d.link_tile_size_to_frequency,
        }
        *self != before
    }
}

impl Default for Settings {
    fn default() -> (r: Settings)
        ensures
            r == default_settings(),
    {
        Settings {
            noise: NoiseKind::Simplex,
            seed: 0,
            frequency: FloatBits { bits: BITS_3 },
            modifier: Modifier::Plain,
            triangle_wave_frequency: FloatBits { bits: BITS_2 },
            fractal: false,
            lacunarity: FloatBits { bits: BITS_2 },
            octaves: 3,
            gain: FloatBits { bits: BITS_HALF },
            weighted_strength: FloatBits { bits: BITS_0 },
            improve: Improve::Xy,
            jitter: FloatBits { bits: BITS_1 },
            tileable: true,
            tile_width: FloatBits { bits: BITS_3 },
            tile_height: FloatBits { bits: BITS_3 },
            texture_size: 295,
            dimension: Dimension::D2,
            x: FloatBits { bits: BITS_0 },
            y: FloatBits { bits: BITS_0 },
            z: FloatBits { bits: BITS_0 },
            w: FloatBits { bits: BITS_0 },
            simd: false,
            show_tiles: true,
            link_tile_size_to_frequency: true,
        }
    }
}

} // verus!
