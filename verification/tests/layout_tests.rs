use warbler_grass::bundle::GrassColor;
use warbler_grass::layout::{
    ShaderAabb, ShaderColorUniform, ShaderHeightUniform, ShaderRegionConfiguration,
};

#[test]
fn height_uniform_is_sixteen_bytes_little_endian() {
    let bytes = ShaderHeightUniform { height: 1.0f32.to_bits() }.bytes();
    assert_eq!(bytes.len(), 16);
    assert_eq!(bytes.len() % 16, 0);
    assert_eq!(&bytes[..4], &[0x00, 0x00, 0x80, 0x3F]);
    assert!(bytes[4..].iter().all(|&b| b == 0));
}

#[test]
fn region_uniform_is_sixteen_bytes_with_zero_padding() {
    let wind_x = 1.5f32.to_bits();
    let wind_y = (-2.0f32).to_bits();
    let bytes = ShaderRegionConfiguration { wind_x, wind_y }.bytes();
    assert_eq!(bytes.len(), 16);
    assert_eq!(bytes.len() % 16, 0);
    assert_eq!(&bytes[..4], &wind_x.to_le_bytes());
    assert_eq!(&bytes[4..8], &wind_y.to_le_bytes());
    assert!(bytes[8..].iter().all(|&b| b == 0));
}

#[test]
fn aabb_uniform_is_sixteen_bytes_with_zero_padding() {
    let bytes = ShaderAabb {
        extent_x: 4.0f32.to_bits(),
        extent_y: 2.0f32.to_bits(),
        extent_z: 8.0f32.to_bits(),
    }
    .bytes();
    assert_eq!(bytes.len(), 16);
    assert_eq!(&bytes[..4], &4.0f32.to_bits().to_le_bytes());
    assert_eq!(&bytes[4..8], &2.0f32.to_bits().to_le_bytes());
    assert_eq!(&bytes[8..12], &8.0f32.to_bits().to_le_bytes());
    assert_eq!(&bytes[12..], &[0, 0, 0, 0]);
}

#[test]
fn default_colors_match_the_documented_values() {
    let c = GrassColor::default();
    assert_eq!(c.main_color.red, 0.2f32.to_bits());
    assert_eq!(c.main_color.green, 0.5f32.to_bits());
    assert_eq!(c.main_color.blue, 0.0f32.to_bits());
    assert_eq!(c.main_color.alpha, 1.0f32.to_bits());
    assert_eq!(c.bottom_color.red, 0.1f32.to_bits());
    assert_eq!(c.bottom_color.green, 0.1f32.to_bits());
    assert_eq!(c.bottom_color.blue, 0.0f32.to_bits());
    assert_eq!(c.bottom_color.alpha, 1.0f32.to_bits());
}

#[test]
fn color_uniform_encodes_two_four_component_vectors() {
    let c = GrassColor::default();
    let bytes = ShaderColorUniform { main_color: c.main_color, bottom_color: c.bottom_color }
        .bytes();
    assert_eq!(bytes.len(), 32);
    assert_eq!(bytes.len() % 16, 0);
    let expected: Vec<u8> = [0.2f32, 0.5, 0.0, 1.0, 0.1, 0.1, 0.0, 1.0]
        .iter()
        .flat_map(|f| f.to_bits().to_le_bytes())
        .collect();
    assert_eq!(bytes, expected);
}
