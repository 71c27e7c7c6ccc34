use vulkan_factory::descriptors::{
    Comparison, FilterMethod, Lod, PackedColor, SamplerInfo, WrapMode,
};
use vulkan_factory::factory::Factory;
use vulkan_factory::handle::Arena;

#[test]
fn factory_creates_its_command_pool_first() {
    let mut f = Factory::new(5, 1, 2);
    assert_eq!(f.command_pools.len(), 1);
    assert_eq!(f.command_pools[0].stype, 39);
    assert_eq!(f.command_pools[0].flags, 2); // reset-command-buffer
    assert_eq!(f.command_pools[0].queue_family_index, 5);
    let cb = f.create_command_buffer();
    assert_eq!(cb.pool, 0);
    assert_eq!(cb.queue_family_index, 5);
    f.destroy();
    assert!(f.torn_down);
}

#[test]
fn fences_carry_the_signalled_flag() {
    let mut f = Factory::new(0, 1, 2);
    let a = f.create_fence(false);
    let b = f.create_fence(true);
    assert_eq!(f.fences[a as usize].flags, 0);
    assert_eq!(f.fences[b as usize].flags, 1);
    assert_eq!(f.fences[b as usize].stype, 8);
}

#[test]
fn sampler_translation_is_complete() {
    let mut f = Factory::new(0, 1, 2);
    let info = SamplerInfo {
        filter: FilterMethod::Anisotropic(8),
        wrap_mode: (WrapMode::Tile, WrapMode::Mirror, WrapMode::Clamp),
        lod_bias: Lod(16),
        lod_range: (Lod(0), Lod(256)),
        comparison: Some(Comparison::LessEqual),
        border: PackedColor(0xFFFF_FFFF),
    };
    let h = f.create_sampler(info);
    let rec = f.samplers.resolve(h).unwrap();
    assert_eq!(rec.info, info); // kept for introspection
    let native = &f.sampler_objects[rec.sampler as usize];
    assert_eq!(native.stype, 31);
    assert_eq!(native.min_filter, 1);
    assert_eq!(native.mag_filter, 1);
    assert_eq!(native.mipmap_mode, 1);
    assert_eq!(native.anisotropy_enable, 1);
    assert_eq!(native.max_anisotropy, 8);
    assert_eq!(native.address_mode_u, 0);
    assert_eq!(native.address_mode_v, 1);
    assert_eq!(native.address_mode_w, 2);
    assert_eq!(native.mip_lod_bias, 16);
    assert_eq!(native.min_lod, 0);
    assert_eq!(native.max_lod, 256);
    assert_eq!(native.compare_enable, 1);
    assert_eq!(native.compare_op, 3);
    assert_eq!(native.border_color, 4); // opaque white
    assert_eq!(native.unnormalized_coordinates, 0);
}

#[test]
fn sampler_without_comparison_uses_the_inert_compare() {
    let mut f = Factory::new(0, 1, 2);
    let info = SamplerInfo {
        filter: FilterMethod::Scale,
        wrap_mode: (WrapMode::Clamp, WrapMode::Clamp, WrapMode::Clamp),
        lod_bias: Lod(0),
        lod_range: (Lod(0), Lod(0)),
        comparison: None,
        border: PackedColor(0),
    };
    let h = f.create_sampler(info);
    let rec = f.samplers.resolve(h).unwrap();
    let native = &f.sampler_objects[rec.sampler as usize];
    assert_eq!(native.compare_enable, 0);
    assert_eq!(native.compare_op, 0); // never
    assert_eq!(native.anisotropy_enable, 0);
    assert_eq!(native.max_anisotropy, 0);
}

#[test]
fn unsupported_border_color_falls_back_to_transparent_black() {
    let mut f = Factory::new(0, 1, 2);
    let info = SamplerInfo {
        filter: FilterMethod::Bilinear,
        wrap_mode: (WrapMode::Border, WrapMode::Border, WrapMode::Border),
        lod_bias: Lod(0),
        lod_range: (Lod(0), Lod(0)),
        comparison: None,
        border: PackedColor(0x00FF_00FF),
    };
    let h = f.create_sampler(info);
    let rec = f.samplers.resolve(h).unwrap();
    assert_eq!(f.sampler_objects[rec.sampler as usize].border_color, 0);
}

#[test]
fn handles_resolve_until_the_last_reference_drops() {
    let mut arena: Arena<u64> = Arena::new();
    let h = arena.register(7);
    assert_eq!(arena.resolve(h), Some(7));
    arena.add_ref(h);
    assert!(!arena.release(h)); // one reference still held
    assert_eq!(arena.resolve(h), Some(7));
    assert!(arena.release(h)); // the last reference retires the record
    assert_eq!(arena.resolve(h), None);
}

#[test]
fn retired_slots_are_reused_under_a_fresh_generation() {
    let mut arena: Arena<u64> = Arena::new();
    let first = arena.register(1);
    arena.release(first);
    let second = arena.register(2);
    // The slot is reused, but the retired handle never resolves again.
    assert_eq!(arena.resolve(first), None);
    assert_eq!(arena.resolve(second), Some(2));
    let third = arena.register(3);
    assert_eq!(arena.resolve(third), Some(3));
    assert_eq!(arena.resolve(second), Some(2));
}

#[test]
fn shader_modules_carry_the_binary_verbatim() {
    let mut f = Factory::new(0, 1, 2);
    let code: Vec<u8> = (0..12u8).collect();
    let h = f
        .create_shader(vulkan_factory::descriptors::ShaderStage::Vertex, &code)
        .unwrap();
    let rec = f.shaders.resolve(h).unwrap();
    let native = &f.shader_modules[rec.module as usize];
    assert_eq!(native.stype, 16);
    assert_eq!(native.code_size, 12);
    assert_eq!(native.code, code);
}
