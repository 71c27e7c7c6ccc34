use vulkan_factory::descriptors::{
    AaMode, Bind, ChannelType, DepthStencilDesc, Format, Kind, LayerError, RenderDesc,
    ResourceDesc, ResourceViewError, SurfaceType, Swizzle, TargetViewError, TextureDescriptor,
    TextureError, Usage,
};
use vulkan_factory::factory::Factory;

fn render_target_bind() -> Bind {
    Bind { render_target: true, depth_stencil: false, shader_resource: false, unordered_access: false }
}

fn shader_resource_bind() -> Bind {
    Bind { render_target: false, depth_stencil: false, shader_resource: true, unordered_access: false }
}

fn rgba8_texture(bind: Bind) -> TextureDescriptor {
    TextureDescriptor {
        kind: Kind::D2(64, 32, AaMode::Single),
        levels: 1,
        format: SurfaceType::R8_G8_B8_A8,
        bind,
        usage: Usage::GpuOnly,
    }
}

#[test]
fn texture_creation_files_the_image_record() {
    let mut f = Factory::new(0, 1, 2);
    let desc = rgba8_texture(render_target_bind());
    let h = f.create_texture_raw(desc, None).unwrap();
    let rec = f.textures.resolve(h).unwrap();
    let image = &f.images[rec.image as usize];
    assert_eq!(image.stype, 14);
    assert_eq!(image.flags, 0x8); // mutable format, not cube compatible
    assert_eq!(image.image_type, 1); // 2D
    assert_eq!(image.format, 41); // rgba8 uint: the default channel hint
    assert_eq!(image.extent.width, 64);
    assert_eq!(image.extent.height, 32);
    assert_eq!(image.extent.depth, 1);
    assert_eq!(image.mip_levels, 1);
    assert_eq!(image.array_layers, 1);
    assert_eq!(image.samples, 1);
    assert_eq!(image.sharing_mode, 0);
    assert_eq!(image.initial_layout, 2); // color-attachment optimal
    assert_eq!(rec.layout, 2);
    // The backing allocation covers one texel per sample position.
    assert_eq!(f.memory[rec.memory.unwrap()].bytes.len(), 64 * 32 * 4);
}

#[test]
fn cube_textures_get_the_cube_flag_and_six_layers() {
    let mut f = Factory::new(0, 1, 2);
    let desc = TextureDescriptor {
        kind: Kind::Cube(16),
        levels: 1,
        format: SurfaceType::R8_G8_B8_A8,
        bind: shader_resource_bind(),
        usage: Usage::GpuOnly,
    };
    let h = f.create_texture_raw(desc, Some(ChannelType::Unorm)).unwrap();
    let rec = f.textures.resolve(h).unwrap();
    let image = &f.images[rec.image as usize];
    assert_eq!(image.flags, 0x8 | 0x10);
    assert_eq!(image.array_layers, 6);
    assert_eq!(image.extent.depth, 1);
}

#[test]
fn unresolved_texture_format_creates_nothing() {
    let mut f = Factory::new(0, 1, 2);
    let desc = TextureDescriptor {
        kind: Kind::D2(4, 4, AaMode::Single),
        levels: 1,
        format: SurfaceType::D32,
        bind: render_target_bind(),
        usage: Usage::GpuOnly,
    };
    // D32 has no unsigned-integer interpretation (the default hint).
    let r = f.create_texture_raw(desc, None);
    assert_eq!(r, Err(TextureError::Format(SurfaceType::D32, None)));
    assert!(f.images.is_empty());
    assert!(f.memory.is_empty());
}

#[test]
fn render_target_view_of_2d_texture_has_the_base_subresource_range() {
    // A render-target view of a 2D texture with no array layer and an sRGB
    // channel on an RGBA8 texture: success, with the base mip level and one
    // layer.
    let mut f = Factory::new(0, 1, 2);
    let tex = f.create_texture_raw(rgba8_texture(render_target_bind()), None).unwrap();
    let view_desc = RenderDesc { channel: ChannelType::Srgb, level: 0, layer: None };
    let h = f.view_texture_as_render_target_raw(tex, view_desc).unwrap();
    let rtv = f.rtvs.resolve(h).unwrap();
    assert_eq!(rtv.view.sub_range.base_array_layer, 0);
    assert_eq!(rtv.view.sub_range.layer_count, 1);
    assert_eq!(rtv.view.sub_range.base_mip_level, 0);
    assert_eq!(rtv.view.sub_range.level_count, 1);
    assert_eq!(rtv.view.sub_range.aspect_mask, 1); // color
    assert_eq!(rtv.dimensions, (64, 32, 1, AaMode::Single));
    // The view record resolved the sRGB format.
    assert_eq!(f.image_views[rtv.view.view as usize].format, 43);
    assert_eq!(f.image_views[rtv.view.view as usize].view_type, 1); // 2D
}

#[test]
fn view_without_the_required_bind_flag_is_rejected() {
    let mut f = Factory::new(0, 1, 2);
    // Created as a render target only: no shader-resource views of it.
    let tex = f.create_texture_raw(rgba8_texture(render_target_bind()), None).unwrap();
    let desc = ResourceDesc {
        channel: ChannelType::Unorm,
        layer: None,
        min: 0,
        max: 0,
        swizzle: Swizzle::new(),
    };
    let r = f.view_texture_as_shader_resource_raw(tex, desc);
    assert_eq!(r, Err(ResourceViewError::NoBindFlag));
    assert!(f.image_views.is_empty());

    // And the other way round: no render-target view of a sampling-only
    // texture.
    let tex2 = f.create_texture_raw(rgba8_texture(shader_resource_bind()), None).unwrap();
    let r2 = f.view_texture_as_render_target_raw(
        tex2,
        RenderDesc { channel: ChannelType::Unorm, level: 0, layer: None },
    );
    assert_eq!(r2, Err(TargetViewError::NoBindFlag));
}

#[test]
fn view_with_unsupported_channel_is_rejected() {
    let mut f = Factory::new(0, 1, 2);
    let tex = f.create_texture_raw(rgba8_texture(render_target_bind()), None).unwrap();
    let r = f.view_texture_as_render_target_raw(
        tex,
        RenderDesc { channel: ChannelType::Float, level: 0, layer: None },
    );
    assert_eq!(r, Err(TargetViewError::Channel(ChannelType::Float)));
    assert!(f.image_views.is_empty());
}

#[test]
fn view_layer_errors_pass_through() {
    let mut f = Factory::new(0, 1, 2);
    let tex = f.create_texture_raw(rgba8_texture(render_target_bind()), None).unwrap();
    let r = f.view_texture_as_render_target_raw(
        tex,
        RenderDesc { channel: ChannelType::Unorm, level: 0, layer: Some(1) },
    );
    assert_eq!(
        r,
        Err(TargetViewError::Layer(LayerError::NotExpected(Kind::D2(64, 32, AaMode::Single))))
    );
}

#[test]
fn shader_resource_view_covers_the_requested_mip_range() {
    let mut f = Factory::new(0, 1, 2);
    let desc = TextureDescriptor {
        kind: Kind::D2Array(32, 32, 5, AaMode::Single),
        levels: 4,
        format: SurfaceType::R8_G8_B8_A8,
        bind: shader_resource_bind(),
        usage: Usage::GpuOnly,
    };
    let tex = f.create_texture_raw(desc, None).unwrap();
    let vdesc = ResourceDesc {
        channel: ChannelType::Unorm,
        layer: None,
        min: 1,
        max: 3,
        swizzle: Swizzle::new(),
    };
    let h = f.view_texture_as_shader_resource_raw(tex, vdesc).unwrap();
    let srv = f.srvs.resolve(h).unwrap();
    assert_eq!(srv.sub_range.base_mip_level, 1);
    assert_eq!(srv.sub_range.level_count, 3);
    assert_eq!(srv.sub_range.base_array_layer, 0);
    assert_eq!(srv.sub_range.layer_count, 5); // all slices of the array
    assert_eq!(f.image_views[srv.view as usize].view_type, 5); // 2D array
}

#[test]
fn depth_stencil_view_uses_the_depth_aspects() {
    let mut f = Factory::new(0, 1, 2);
    let desc = TextureDescriptor {
        kind: Kind::D2(8, 8, AaMode::Single),
        levels: 1,
        format: SurfaceType::D24_S8,
        bind: Bind {
            render_target: false,
            depth_stencil: true,
            shader_resource: false,
            unordered_access: false,
        },
        usage: Usage::GpuOnly,
    };
    let tex = f.create_texture_raw(desc, Some(ChannelType::Unorm)).unwrap();
    let h = f
        .view_texture_as_depth_stencil_raw(tex, DepthStencilDesc { layer: None })
        .unwrap();
    let dsv = f.dsvs.resolve(h).unwrap();
    assert_eq!(dsv.view.sub_range.aspect_mask, 2 | 4); // depth and stencil
    assert_eq!(dsv.view.layout, 3); // depth-stencil attachment optimal
}

#[test]
fn unsupported_view_kinds_are_named_errors() {
    let mut f = Factory::new(0, 1, 2);
    let info = vulkan_factory::descriptors::BufferInfo {
        role: vulkan_factory::descriptors::BufferRole::Vertex,
        usage: Usage::GpuOnly,
        bind: shader_resource_bind(),
        size: 4,
        stride: 4,
    };
    let buf = f.create_buffer_raw(info).unwrap();
    assert_eq!(
        f.view_buffer_as_shader_resource_raw(buf),
        Err(ResourceViewError::Unsupported)
    );
    assert_eq!(
        f.view_buffer_as_unordered_access_raw(buf),
        Err(ResourceViewError::Unsupported)
    );
    let tex = f.create_texture_raw(rgba8_texture(shader_resource_bind()), None).unwrap();
    assert_eq!(
        f.view_texture_as_unordered_access_raw(tex),
        Err(ResourceViewError::Unsupported)
    );
}

#[test]
fn swapchain_images_wrap_as_render_targets() {
    let mut f = Factory::new(0, 1, 2);
    let h = f
        .view_swapchain_image(42, Format(SurfaceType::R8_G8_B8_A8, ChannelType::Unorm), (800, 600))
        .unwrap();
    let rtv = f.rtvs.resolve(h).unwrap();
    assert_eq!(rtv.view.image, 42);
    assert_eq!(rtv.view.layout, 1); // general
    assert_eq!(rtv.dimensions, (800, 600, 1, AaMode::Single));
    assert_eq!(rtv.view.sub_range.layer_count, 1);
    assert_eq!(rtv.view.sub_range.level_count, 1);
    // The call registered exactly one texture: the wrapper around the
    // swapchain image, with no factory-owned memory.
    assert_eq!(f.textures.slots.len(), 1);
    let tex = f.textures.slots[0].value.unwrap();
    assert_eq!(tex.image, 42);
    assert_eq!(tex.layout, 1);
    assert_eq!(tex.memory, None);
    assert_eq!(tex.desc.kind, Kind::D2(800, 600, AaMode::Single));
    assert_eq!(tex.desc.levels, 1);
    assert_eq!(tex.desc.format, SurfaceType::R8_G8_B8_A8);
    assert!(tex.desc.bind.render_target);
    assert!(!tex.desc.bind.shader_resource);
    assert_eq!(tex.desc.usage, Usage::GpuOnly);
    // And filed exactly one image-view creation record for it.
    assert_eq!(f.image_views.len(), 1);
    assert_eq!(f.image_views[0].image, 42);
    assert_eq!(f.image_views[0].format, 37); // rgba8 unorm
    assert_eq!(f.image_views[0].view_type, 1); // 2D
}

#[test]
fn swapchain_image_with_unsupported_channel_registers_nothing() {
    let mut f = Factory::new(0, 1, 2);
    let r = f.view_swapchain_image(
        7,
        Format(SurfaceType::R8_G8_B8_A8, ChannelType::Float),
        (64, 64),
    );
    assert_eq!(r, Err(TargetViewError::Channel(ChannelType::Float)));
    assert_eq!(f.textures.slots.len(), 0);
    assert!(f.image_views.is_empty());
}

#[test]
fn layout_tag_is_shared_by_later_views() {
    let mut f = Factory::new(0, 1, 2);
    let tex = f.create_texture_raw(rgba8_texture(render_target_bind()), None).unwrap();
    // The external transition logic moves the image to the general layout;
    // a view created afterwards snapshots the new tag.
    f.set_texture_layout(tex, 1);
    let h = f
        .view_texture_as_render_target_raw(
            tex,
            RenderDesc { channel: ChannelType::Unorm, level: 0, layer: None },
        )
        .unwrap();
    assert_eq!(f.rtvs.resolve(h).unwrap().view.layout, 1);
}
