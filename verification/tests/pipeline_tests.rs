use warbler_grass::bundle::{Aabb, Grass, GrassColor, Position, WarblerHeight, WarblersBundle};
use warbler_grass::cache::{ExplicitGrassCache, HeightBinding, UniformBuffer};
use warbler_grass::config::{GrassConfiguration, GrassNoiseTexture, RegionState};
use warbler_grass::draw::{draw_steps, DrawStep};
use warbler_grass::gpu::{Images, RenderDevice};
use warbler_grass::height_map::HeightMap;
use warbler_grass::prepare::{
    prepare_explicit_positions_buffer, prepare_grass_color, prepare_height_buffer,
    prepare_height_map_buffer, prepare_uniform_buffers,
};

fn grid_positions(n: usize) -> Vec<Position> {
    (0..n)
        .map(|i| Position {
            x: (i as f32).to_bits(),
            y: 2.0f32.to_bits(),
            z: (i as f32 + 0.5).to_bits(),
        })
        .collect()
}

#[test]
fn explicit_count_and_buffers_match_the_record() {
    let mut device = RenderDevice::new();
    let mut cache = ExplicitGrassCache::new();
    cache.register(77);
    let grass = Grass::new(grid_positions(100), 2.0f32.to_bits());
    let skipped = prepare_explicit_positions_buffer(&mut device, &mut cache, &vec![(77, grass)]);
    assert!(skipped.is_empty());

    let entry = cache.get(77).unwrap();
    assert_eq!(entry.explicit_count, 100);
    let xz = entry.explicit_xz_buffer.as_ref().unwrap();
    assert_eq!(xz.bytes.len(), 800);
    assert_eq!(&xz.bytes[..4], &0.0f32.to_bits().to_le_bytes());
    assert_eq!(&xz.bytes[4..8], &0.5f32.to_bits().to_le_bytes());

    let y = entry.y_binding.as_ref().unwrap();
    assert_eq!(y.texture.side, 10);
    assert_eq!(y.texture.texels.len(), 100);
    assert!(y.texture.texels.iter().all(|&t| t == 2.0f32.to_bits()));

    match entry.height_binding.as_ref().unwrap() {
        HeightBinding::Uniform { buffer, .. } => {
            assert_eq!(buffer.bytes.len(), 16);
            assert_eq!(&buffer.bytes[..4], &2.0f32.to_bits().to_le_bytes());
        }
        _ => panic!("expected the uniform height variant"),
    }
}

#[test]
fn despawning_releases_the_entry() {
    let mut device = RenderDevice::new();
    let mut cache = ExplicitGrassCache::new();
    cache.register(3);
    let grass = Grass::new(grid_positions(100), 2.0f32.to_bits());
    prepare_explicit_positions_buffer(&mut device, &mut cache, &vec![(3, grass)]);
    assert!(cache.get(3).is_some());
    cache.remove(3);
    assert!(cache.get(3).is_none());
    assert!(!cache.contains(3));
}

#[test]
fn builders_report_untracked_objects() {
    let mut device = RenderDevice::new();
    let mut cache = ExplicitGrassCache::new();
    cache.register(1);
    let skipped = prepare_grass_color(
        &mut device,
        &mut cache,
        &vec![(1, GrassColor::default()), (99, GrassColor::default())],
    );
    assert_eq!(skipped, vec![99]);
    assert!(cache.get(1).unwrap().color_binding.is_some());
    assert!(cache.get(99).is_none());
}

#[test]
fn switching_height_variant_replaces_the_binding() {
    let mut device = RenderDevice::new();
    let mut cache = ExplicitGrassCache::new();
    let images = Images::new();
    cache.register(5);

    prepare_height_buffer(
        &mut device,
        &mut cache,
        &images,
        9,
        &vec![(5, WarblerHeight::Uniform(1.5f32.to_bits()))],
    );
    let first_group = match cache.get(5).unwrap().height_binding.as_ref().unwrap() {
        HeightBinding::Uniform { bind_group, buffer } => {
            assert_eq!(&buffer.bytes[..4], &1.5f32.to_bits().to_le_bytes());
            bind_group.id
        }
        _ => panic!("expected the uniform height variant"),
    };

    prepare_height_buffer(
        &mut device,
        &mut cache,
        &images,
        9,
        &vec![(5, WarblerHeight::Texture(33))],
    );
    match cache.get(5).unwrap().height_binding.as_ref().unwrap() {
        HeightBinding::FromImage { bind_group, view_id } => {
            assert_eq!(*view_id, 9, "unresolved image must fall back to the neutral view");
            assert_ne!(bind_group.id, first_group, "the bind group must be fully replaced");
        }
        _ => panic!("expected the image-backed height variant"),
    }
}

#[test]
fn resident_image_is_bound_instead_of_the_fallback() {
    let mut device = RenderDevice::new();
    let mut cache = ExplicitGrassCache::new();
    let mut images = Images::new();
    images.insert(33, 444);
    cache.register(5);
    prepare_height_buffer(
        &mut device,
        &mut cache,
        &images,
        9,
        &vec![(5, WarblerHeight::Texture(33))],
    );
    match cache.get(5).unwrap().height_binding.as_ref().unwrap() {
        HeightBinding::FromImage { view_id, .. } => assert_eq!(*view_id, 444),
        _ => panic!("expected the image-backed height variant"),
    }
}

#[test]
fn height_map_builder_combines_view_and_extent_buffer() {
    let mut device = RenderDevice::new();
    let mut cache = ExplicitGrassCache::new();
    let images = Images::new();
    cache.register(2);
    let record = (
        HeightMap { height_map: 8 },
        Aabb {
            extent_x: 4.0f32.to_bits(),
            extent_y: 2.0f32.to_bits(),
            extent_z: 8.0f32.to_bits(),
        },
    );
    let skipped =
        prepare_height_map_buffer(&mut device, &mut cache, &images, 7, &vec![(2, record)]);
    assert!(skipped.is_empty());
    let binding = cache.get(2).unwrap().height_map_binding.as_ref().unwrap();
    assert_eq!(binding.view_id, 7);
    assert_eq!(binding.aabb_buffer.bytes.len(), 16);
    assert_eq!(&binding.aabb_buffer.bytes[..4], &4.0f32.to_bits().to_le_bytes());
    assert_eq!(&binding.aabb_buffer.bytes[12..], &[0, 0, 0, 0]);
}

#[test]
fn unchanged_region_config_reuses_the_bind_group() {
    let mut device = RenderDevice::new();
    let images = Images::new();
    let config = GrassConfiguration { wind_x: 1.0f32.to_bits(), wind_y: 0.5f32.to_bits() };
    let noise = GrassNoiseTexture { image: 42 };
    let mut state = RegionState::new();
    let mut region = UniformBuffer::new();

    prepare_uniform_buffers(
        &mut device, &config, true, &noise, &images, 99, &mut state, &mut region,
    );
    let first_group = region.bind_group.unwrap().id;
    let allocated_after_first = device.next_id;

    prepare_uniform_buffers(
        &mut device, &config, false, &noise, &images, 99, &mut state, &mut region,
    );
    assert_eq!(device.next_id, allocated_after_first, "the second frame must not reallocate");
    assert_eq!(region.bind_group.unwrap().id, first_group, "the bind group must be reused");

    prepare_uniform_buffers(
        &mut device, &config, true, &noise, &images, 99, &mut state, &mut region,
    );
    assert_ne!(region.bind_group.unwrap().id, first_group, "a changed config must rebuild");
}

#[test]
fn changed_texture_identity_rebuilds_the_region_resource() {
    let mut device = RenderDevice::new();
    let mut images = Images::new();
    let config = GrassConfiguration { wind_x: 0, wind_y: 0 };
    let noise = GrassNoiseTexture { image: 42 };
    let mut state = RegionState::new();
    let mut region = UniformBuffer::new();

    prepare_uniform_buffers(
        &mut device, &config, false, &noise, &images, 99, &mut state, &mut region,
    );
    let first_group = region.bind_group.unwrap().id;

    images.insert(42, 123);
    prepare_uniform_buffers(
        &mut device, &config, false, &noise, &images, 99, &mut state, &mut region,
    );
    assert_ne!(region.bind_group.unwrap().id, first_group);
    assert_eq!(state.last_texture_id, Some(123));
}

#[test]
fn region_uniform_carries_the_wind_vector() {
    let mut device = RenderDevice::new();
    let images = Images::new();
    let config = GrassConfiguration { wind_x: 1.0f32.to_bits(), wind_y: (-0.5f32).to_bits() };
    let noise = GrassNoiseTexture { image: 42 };
    let mut state = RegionState::new();
    let mut region = UniformBuffer::new();
    prepare_uniform_buffers(
        &mut device, &config, true, &noise, &images, 99, &mut state, &mut region,
    );
    let buffer = region.buffer.as_ref().unwrap();
    assert_eq!(buffer.bytes.len(), 16);
    assert_eq!(&buffer.bytes[..4], &1.0f32.to_bits().to_le_bytes());
    assert_eq!(&buffer.bytes[4..8], &(-0.5f32).to_bits().to_le_bytes());
}

#[test]
fn draw_sequence_has_the_fixed_slot_order() {
    let mut device = RenderDevice::new();
    let mut cache = ExplicitGrassCache::new();
    let images = Images::new();
    cache.register(7);
    let grass = Grass::new(grid_positions(4), 1.0f32.to_bits());
    prepare_explicit_positions_buffer(&mut device, &mut cache, &vec![(7, grass)]);
    prepare_grass_color(&mut device, &mut cache, &vec![(7, GrassColor::default())]);

    let mut state = RegionState::new();
    let mut region = UniformBuffer::new();
    let config = GrassConfiguration { wind_x: 0, wind_y: 0 };
    let noise = GrassNoiseTexture { image: 1 };
    prepare_uniform_buffers(
        &mut device, &config, true, &noise, &images, 99, &mut state, &mut region,
    );

    let entry = cache.get(7).unwrap();
    let steps = draw_steps(entry, &region).expect("a fully prepared object must be drawable");
    assert_eq!(steps.len(), 8);
    assert_eq!(steps[0], DrawStep::SetItemPipeline);
    assert_eq!(steps[1], DrawStep::SetMeshViewBindGroup);
    assert_eq!(steps[2], DrawStep::SetMeshBindGroup);
    assert_eq!(steps[3], DrawStep::SetUniformBindGroup(region.bind_group.unwrap()));
    let color_group = entry.color_binding.as_ref().unwrap().bind_group;
    assert_eq!(steps[4], DrawStep::SetColorBindGroup(color_group));
    let y_group = entry.y_binding.as_ref().unwrap().bind_group;
    assert_eq!(steps[5], DrawStep::SetYBindGroup(y_group));
    match (&steps[6], entry.height_binding.as_ref().unwrap()) {
        (DrawStep::SetHeightBindGroup(g), HeightBinding::Uniform { bind_group, .. }) => {
            assert_eq!(g, bind_group)
        }
        _ => panic!("expected the uniform height group in slot order"),
    }
    let xz_id = entry.explicit_xz_buffer.as_ref().unwrap().id;
    assert_eq!(steps[7], DrawStep::SetVertexBuffer(xz_id));
}

#[test]
fn missing_slot_skips_the_object() {
    let mut device = RenderDevice::new();
    let mut cache = ExplicitGrassCache::new();
    cache.register(7);
    let grass = Grass::new(grid_positions(4), 1.0f32.to_bits());
    prepare_explicit_positions_buffer(&mut device, &mut cache, &vec![(7, grass)]);
    // No color record was prepared and no region resource exists yet.
    let region = UniformBuffer::new();
    assert!(draw_steps(cache.get(7).unwrap(), &region).is_none());
}

#[test]
fn explicit_rebuild_preserves_other_builders_fields() {
    let mut device = RenderDevice::new();
    let mut cache = ExplicitGrassCache::new();
    cache.register(4);
    prepare_grass_color(&mut device, &mut cache, &vec![(4, GrassColor::default())]);
    let color_group = cache.get(4).unwrap().color_binding.as_ref().unwrap().bind_group;

    let grass = Grass::new(grid_positions(2), 1.0f32.to_bits());
    prepare_explicit_positions_buffer(&mut device, &mut cache, &vec![(4, grass)]);
    let entry = cache.get(4).unwrap();
    assert_eq!(entry.explicit_count, 2);
    assert_eq!(
        entry.color_binding.as_ref().unwrap().bind_group,
        color_group,
        "the explicit builder must not touch the color resource"
    );
}

#[test]
fn changed_positions_replace_the_buffers_wholesale() {
    let mut device = RenderDevice::new();
    let mut cache = ExplicitGrassCache::new();
    cache.register(6);
    let grass = Grass::new(grid_positions(5), 1.0f32.to_bits());
    prepare_explicit_positions_buffer(&mut device, &mut cache, &vec![(6, grass)]);
    let first_buffer = cache.get(6).unwrap().explicit_xz_buffer.as_ref().unwrap().id;

    let grown = Grass::new(grid_positions(9), 1.0f32.to_bits());
    prepare_explicit_positions_buffer(&mut device, &mut cache, &vec![(6, grown)]);
    let entry = cache.get(6).unwrap();
    assert_eq!(entry.explicit_count, 9);
    assert_eq!(entry.y_binding.as_ref().unwrap().texture.side, 3);
    let second = entry.explicit_xz_buffer.as_ref().unwrap();
    assert_ne!(second.id, first_buffer, "a rebuild replaces the buffer, never patches it");
    assert_eq!(second.bytes.len(), 72);
}

#[test]
fn grass_builders_agree() {
    let positions = grid_positions(10);
    let height = 2.0f32.to_bits();
    let grass1 = Grass::new(positions.clone(), height);
    let grass2 = Grass::from_slice(&positions[..]).with_height(height);
    assert_eq!(grass1, grass2);
}

#[test]
fn grass_from_slice_starts_at_zero_height() {
    let positions = grid_positions(3);
    let grass = Grass::from_slice(&positions[..]);
    assert_eq!(grass.positions, positions);
    assert_eq!(grass.height, 0);
}

#[test]
fn bundle_defaults_are_the_documented_ones() {
    let bundle = WarblersBundle::default();
    assert_eq!(bundle.height, WarblerHeight::Uniform(1.0f32.to_bits()));
    assert_eq!(bundle.grass_color, GrassColor::default());
    let explicit = warbler_grass::bundle::WarblersExplicitBundle::default();
    assert!(explicit.grass.positions.is_empty());
    assert_eq!(explicit.grass.height, 1.0f32.to_bits());
}
