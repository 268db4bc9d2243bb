use noise_functions::Noise as _;
use noise_functions_config::Config;
use noise_functions_demo::{
    axis_coordinate, fill, resolve, shade, Cache, Dimension, Field, FloatBits, Improve, Modifier, NoiseKind,
    Normalization, Pass, Preview, Ratio, Reset, Resolution, Setting, Settings, SimpleComboBox,
};

fn bits(v: f32) -> FloatBits {
    FloatBits { bits: v.to_bits() }
}

fn config_of(s: &Settings) -> Config {
    Config {
        noise: noise_functions_config::Noise::VARIANTS[s.noise.index()],
        seed: s.seed,
        frequency: f32::from_bits(s.frequency.bits),
        modifier: match s.modifier {
            Modifier::Plain => noise_functions_config::Modifier::None,
            Modifier::Ridged => noise_functions_config::Modifier::Ridged,
            Modifier::TriangleWave => noise_functions_config::Modifier::TriangleWave,
        },
        triangle_wave_frequency: f32::from_bits(s.triangle_wave_frequency.bits),
        fractal: s.fractal,
        lacunarity: f32::from_bits(s.lacunarity.bits),
        octaves: s.octaves,
        gain: f32::from_bits(s.gain.bits),
        weighted_strength: f32::from_bits(s.weighted_strength.bits),
        improve: match s.improve {
            Improve::Default => noise_functions_config::Improve::None,
            Improve::X => noise_functions_config::Improve::X,
            Improve::Xy => noise_functions_config::Improve::Xy,
            Improve::Xz => noise_functions_config::Improve::Xz,
            Improve::Xyz => noise_functions_config::Improve::Xyz,
            Improve::XyzXy => noise_functions_config::Improve::XyzXy,
            Improve::XyzXz => noise_functions_config::Improve::XyzXz,
            Improve::XyZw => noise_functions_config::Improve::XyZw,
        },
        jitter: f32::from_bits(s.jitter.bits),
        tileable: s.tileable,
        tile_width: f32::from_bits(s.tile_width.bits),
        tile_height: f32::from_bits(s.tile_height.bits),
    }
}

fn to_f32(r: Ratio) -> f32 {
    r.numer as f32 / r.denom as f32
}

fn to_byte(v: f32, n: Normalization) -> u8 {
    let unit = match n {
        Normalization::Signed => v * 0.5 + 0.5,
        Normalization::Distance => v,
    };
    (unit * 255.0) as u8
}

/// Runs one render cycle; `None` where no pass ran or it could not sample.
fn render(p: &mut Preview<f32, u8>) -> Option<Vec<u8>> {
    let pass: Pass = p.begin_pass(0.0, 0)?;
    let s = p.settings();
    let config = config_of(&s);
    let (sx, sy, sz, sw) = (
        f32::from_bits(s.x.bits),
        f32::from_bits(s.y.bits),
        f32::from_bits(s.z.bits),
        f32::from_bits(s.w.bits),
    );
    match pass.resolution {
        Resolution::Sample(Dimension::D2) => {
            let n = config.sampler2().unwrap();
            p.sample(&|x: Ratio, y: Ratio| n.sample2([to_f32(x) + sx, to_f32(y) + sy]));
        }
        Resolution::Sample(Dimension::D3) => {
            let n = config.sampler3().unwrap();
            p.sample(&|x: Ratio, y: Ratio| n.sample3([to_f32(x) + sx, to_f32(y) + sy, sz]));
        }
        Resolution::Sample(Dimension::D4) => {
            let n = config.sampler4().unwrap();
            p.sample(&|x: Ratio, y: Ratio| n.sample4([to_f32(x) + sx, to_f32(y) + sy, sz, sw]));
        }
        Resolution::Unsupported => return None,
    }
    let norm = pass.normalization;
    p.shade(&|v: f32| to_byte(v, norm));
    Some(p.cache().pixels().clone())
}

fn scenario_settings() -> Settings {
    let mut s = Settings::default();
    s.noise = NoiseKind::OpenSimplex2;
    s.frequency = bits(3.0);
    s.seed = 0;
    s.dimension = Dimension::D2;
    s.tileable = false;
    s.texture_size = 4;
    s.x = bits(0.0);
    s.y = bits(0.0);
    s
}

fn raw_values(s: Settings) -> Vec<f32> {
    let mut p: Preview<f32, u8> = Preview::new();
    p.edit(s);
    render(&mut p).unwrap();
    p.cache().values().clone()
}

#[test]
fn dimension_labels() {
    assert_eq!(Dimension::D2.to_str(), "2D");
    assert_eq!(Dimension::D3.to_str(), "3D");
    assert_eq!(Dimension::D4.to_str(), "4D");
    assert_eq!(Dimension::variants(), [Dimension::D2, Dimension::D3, Dimension::D4]);
}

#[test]
fn normalization_table() {
    assert_eq!(NoiseKind::Perlin.normalization(), Normalization::Signed);
    assert_eq!(NoiseKind::CellValue.normalization(), Normalization::Signed);
    assert_eq!(NoiseKind::CellDistance.normalization(), Normalization::Distance);
    assert_eq!(NoiseKind::CellDistanceSq.normalization(), Normalization::Distance);
}

#[test]
fn kind_index_matches_crate_order() {
    let kinds = [
        NoiseKind::Value,
        NoiseKind::ValueCubic,
        NoiseKind::Perlin,
        NoiseKind::Simplex,
        NoiseKind::OpenSimplex2,
        NoiseKind::OpenSimplex2s,
        NoiseKind::CellValue,
        NoiseKind::CellDistance,
        NoiseKind::CellDistanceSq,
    ];
    for k in kinds {
        assert_eq!(noise_functions_config::Noise::VARIANTS[k.index()].to_str(), format!("{:?}", k));
    }
}

#[test]
fn resolve_supported_requests() {
    assert_eq!(resolve(NoiseKind::Perlin, Dimension::D2, true, false), Resolution::Sample(Dimension::D2));
    assert_eq!(resolve(NoiseKind::ValueCubic, Dimension::D2, false, false), Resolution::Sample(Dimension::D2));
    assert_eq!(resolve(NoiseKind::Simplex, Dimension::D3, false, false), Resolution::Sample(Dimension::D3));
    assert_eq!(resolve(NoiseKind::CellDistance, Dimension::D4, false, false), Resolution::Sample(Dimension::D4));
}

#[test]
fn resolve_unsupported_requests() {
    assert_eq!(resolve(NoiseKind::ValueCubic, Dimension::D2, true, false), Resolution::Unsupported);
    assert_eq!(resolve(NoiseKind::ValueCubic, Dimension::D4, false, false), Resolution::Unsupported);
    assert_eq!(resolve(NoiseKind::Perlin, Dimension::D3, true, false), Resolution::Unsupported);
    assert_eq!(resolve(NoiseKind::CellValue, Dimension::D4, true, false), Resolution::Unsupported);
    assert_eq!(resolve(NoiseKind::Perlin, Dimension::D2, false, true), Resolution::Unsupported);
}

#[test]
fn unsupported_request_falls_back() {
    let mut p: Preview<f32, u8> = Preview::new();
    let mut s = Settings::default();
    s.noise = NoiseKind::ValueCubic;
    s.dimension = Dimension::D4;
    s.tileable = false;
    s.texture_size = 8;
    p.edit(s);
    let pass = p.begin_pass(0.0, 7).unwrap();
    assert_eq!(pass.resolution, Resolution::Unsupported);
    assert!(!p.sample_success());
    assert_eq!(p.cache().pixels(), &vec![7u8; 64]);
}

#[test]
fn axis_coordinates_exact() {
    assert_eq!(axis_coordinate(0, 4, true), Ratio { numer: 0, denom: 4 });
    assert_eq!(axis_coordinate(3, 4, true), Ratio { numer: 3, denom: 4 });
    assert_eq!(axis_coordinate(0, 4, false), Ratio { numer: -4, denom: 4 });
    assert_eq!(axis_coordinate(3, 4, false), Ratio { numer: 2, denom: 4 });
    assert_eq!(axis_coordinate(4, 4, true), Ratio { numer: 4, denom: 4 });
}

#[test]
fn fill_uses_linear_index() {
    let mut values = vec![(0i64, 0i64); 9];
    fill(&mut values, 3, true, &|x: Ratio, y: Ratio| (x.numer, y.numer));
    assert_eq!(values, vec![(0, 0), (0, 1), (0, 2), (1, 0), (1, 1), (1, 2), (2, 0), (2, 1), (2, 2)]);
    fill(&mut values, 3, false, &|x: Ratio, y: Ratio| (x.numer, y.numer));
    assert_eq!(values[0], (-3, -3));
    assert_eq!(values[5], (-1, 1));
}

#[test]
fn shade_maps_each_value() {
    let values = vec![-1.0f32, 0.0, 1.0, 0.5];
    let mut pixels = vec![0u8; 4];
    shade(&values, &mut pixels, &|v: f32| to_byte(v, Normalization::Signed));
    assert_eq!(pixels, vec![0, 127, 255, 191]);
    shade(&values, &mut pixels, &|v: f32| to_byte(v, Normalization::Distance));
    assert_eq!(pixels, vec![0, 0, 255, 127]);
}

#[test]
fn resize_allocates_sentinel_buffers() {
    let mut c: Cache<f32, u8> = Cache::new();
    assert_eq!(c.size(), 0);
    c.resize(4, 0.0, 9);
    assert_eq!(c.size(), 4);
    assert_eq!(c.values(), &vec![0.0f32; 4]);
    assert_eq!(c.pixels(), &vec![9u8; 4]);
}

#[test]
fn resize_twice_keeps_buffers() {
    let mut c: Cache<f32, u8> = Cache::new();
    c.resize(4, 0.0, 9);
    c.sample(2, true, &|x: Ratio, _y: Ratio| x.numer as f32);
    let before = c.values().as_ptr();
    c.resize(4, 0.0, 9);
    assert_eq!(c.values().as_ptr(), before);
    assert_eq!(c.values(), &vec![0.0f32, 0.0, 1.0, 1.0]);
    c.resize(1, 0.0, 9);
    assert_eq!(c.values(), &vec![0.0f32]);
}

#[test]
fn dirty_flag_covers_edits() {
    let mut p: Preview<f32, u8> = Preview::new();
    assert!(p.is_dirty());
    assert!(p.begin_pass(0.0, 0).is_some());
    assert!(!p.is_dirty());
    assert!(p.begin_pass(0.0, 0).is_none());
    let same = p.settings();
    p.edit(same);
    assert!(!p.is_dirty());
    let mut s = p.settings();
    s.seed = 5;
    p.edit(s);
    assert!(p.is_dirty());
    assert!(p.begin_pass(0.0, 0).is_some());
    assert!(p.begin_pass(0.0, 0).is_none());
    assert!(p.reset(Field::Seed));
    assert!(p.is_dirty());
    assert!(p.begin_pass(0.0, 0).is_some());
    assert!(!p.reset(Field::Seed));
    assert!(!p.is_dirty());
    p.mark_dirty();
    assert!(p.is_dirty());
}

#[test]
fn pipeline_is_deterministic() {
    let mut a: Preview<f32, u8> = Preview::new();
    let mut b: Preview<f32, u8> = Preview::new();
    a.edit(scenario_settings());
    b.edit(scenario_settings());
    let ga = render(&mut a).unwrap();
    let gb = render(&mut b).unwrap();
    assert_eq!(ga.len(), 16);
    assert_eq!(ga, gb);
    a.mark_dirty();
    assert_eq!(render(&mut a).unwrap(), ga);
}

#[test]
fn zero_resolution_gives_empty_grid() {
    let mut p: Preview<f32, u8> = Preview::new();
    let mut s = scenario_settings();
    s.texture_size = 0;
    p.edit(s);
    let grid = render(&mut p).unwrap();
    assert!(grid.is_empty());
    assert_eq!(p.cache().size(), 0);
    assert!(p.sample_success());
}

#[test]
fn tileable_toggle_changes_samples() {
    let mut s = scenario_settings();
    s.texture_size = 8;
    s.tileable = true;
    s.tile_width = bits(3.0);
    s.tile_height = bits(3.0);
    let tiled = raw_values(s);
    s.tileable = false;
    let centred = raw_values(s);
    let differs = (1..7).any(|ix| (1..7).any(|iy| tiled[ix * 8 + iy] != centred[ix * 8 + iy]));
    assert!(differs);
}

#[test]
fn tileable_grid_repeats_past_last_column() {
    let s = Settings::default();
    let config = config_of(&s);
    let n = config.sampler2().unwrap();
    let side: usize = 16;
    for iy in 0..side {
        let y = to_f32(axis_coordinate(iy, side, true));
        let first = n.sample2([to_f32(axis_coordinate(0, side, true)), y]);
        let past = n.sample2([to_f32(axis_coordinate(side, side, true)), y]);
        assert!((first - past).abs() < 1e-4, "{first} {past}");
    }
}

#[test]
fn settings_defaults_and_reset() {
    let mut s = Settings::default();
    assert_eq!(s.noise, NoiseKind::Simplex);
    assert_eq!(s.frequency, bits(3.0));
    assert_eq!(s.gain, bits(0.5));
    assert_eq!(s.texture_size, 295);
    assert!(s.is_default(Field::Frequency));
    s.octaves = 6;
    assert!(!s.is_default(Field::Octaves));
    assert!(s.reset(Field::Octaves));
    assert_eq!(s.octaves, 3);
    assert!(!s.reset(Field::Octaves));
}

#[test]
fn linked_tile_size_follows_frequency() {
    let mut s = Settings::default();
    s.set_frequency(bits(5.0));
    assert_eq!((s.frequency, s.tile_width, s.tile_height), (bits(5.0), bits(5.0), bits(5.0)));
    s.set_tile_height(bits(2.0));
    assert_eq!((s.frequency, s.tile_width, s.tile_height), (bits(2.0), bits(2.0), bits(2.0)));
    assert!(s.reset(Field::TileWidth));
    assert_eq!((s.frequency, s.tile_width, s.tile_height), (bits(3.0), bits(3.0), bits(3.0)));
    s.link_tile_size_to_frequency = false;
    s.set_tile_width(bits(7.0));
    assert_eq!((s.frequency, s.tile_width, s.tile_height), (bits(3.0), bits(7.0), bits(3.0)));
}

#[test]
fn applicability_predicates() {
    let mut s = Settings::default();
    assert!(!s.is_applicable(Field::Improve));
    s.noise = NoiseKind::OpenSimplex2;
    s.dimension = Dimension::D3;
    assert!(s.is_applicable(Field::Improve));
    assert!(s.is_applicable(Field::Z));
    assert!(!s.is_applicable(Field::W));
    assert!(!s.is_applicable(Field::TileWidth));
    s.dimension = Dimension::D2;
    assert!(s.is_applicable(Field::TileWidth));
    assert!(s.is_applicable(Field::ShowTiles));
    s.noise = NoiseKind::ValueCubic;
    assert!(!s.is_applicable(Field::TileWidth));
    assert!(!s.is_applicable(Field::Jitter));
    s.noise = NoiseKind::CellDistanceSq;
    assert!(s.is_applicable(Field::Jitter));
    assert!(!s.is_applicable(Field::Octaves));
    s.fractal = true;
    assert!(s.is_applicable(Field::Octaves));
    assert!(!s.is_applicable(Field::TriangleWaveFrequency));
    s.modifier = Modifier::TriangleWave;
    assert!(s.is_applicable(Field::TriangleWaveFrequency));
    assert!(s.is_applicable(Field::Seed));
}

#[test]
fn reset_widget_logic() {
    let mut v: u32 = 4;
    assert!(Reset::new(&mut v, 4).is_enabled() == false);
    assert!(!Reset::new(&mut v, 4).click());
    assert_eq!(v, 4);
    assert!(Reset::new(&mut v, 9).is_enabled());
    assert!(Reset::new(&mut v, 9).click());
    assert_eq!(v, 9);
    let row = Setting { name: "Seed", value: &mut v, default: 1 };
    assert!(row.reset().click());
    assert_eq!(v, 1);
}

static DIMS: [Dimension; 3] = [Dimension::D2, Dimension::D3, Dimension::D4];

#[test]
fn combo_box_selection() {
    let mut d = Dimension::D2;
    assert!(SimpleComboBox { id: "dimension", value: &mut d, variants: &DIMS }.select(2));
    assert_eq!(d, Dimension::D4);
    assert!(!SimpleComboBox { id: "dimension", value: &mut d, variants: &DIMS }.select(2));
    assert_eq!(d, Dimension::D4);
}
