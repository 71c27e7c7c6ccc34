use vulkan_factory::descriptors::{
    ChannelType, Kind, LayerError, SurfaceType, AaMode, Bind, BufferRole, StageUsage, Primitive,
    Comparison, CullFace, FrontFace, RasterMethod, WrapMode, FilterMethod, PackedColor, Usage,
    Access,
};
use vulkan_factory::translate::{
    map_format, unmap_format, map_image_view_type, map_image_type, map_image_aspect,
    map_image_layout, map_buffer_usage, map_usage_tiling, map_stage, map_topology,
    map_comparison, map_cull_face, map_front_face, map_polygon_mode, map_wrap, map_filter,
    map_border_color,
};

fn supported_pairs() -> Vec<(SurfaceType, ChannelType)> {
    let mut v = Vec::new();
    for s in [SurfaceType::R8, SurfaceType::R8_G8, SurfaceType::R8_G8_B8_A8] {
        for c in [
            ChannelType::Int,
            ChannelType::Uint,
            ChannelType::Inorm,
            ChannelType::Unorm,
            ChannelType::Srgb,
        ] {
            v.push((s, c));
        }
    }
    for s in [SurfaceType::R16, SurfaceType::R16_G16, SurfaceType::R16_G16_B16_A16] {
        for c in [
            ChannelType::Int,
            ChannelType::Uint,
            ChannelType::Inorm,
            ChannelType::Unorm,
            ChannelType::Float,
        ] {
            v.push((s, c));
        }
    }
    for s in [
        SurfaceType::R32,
        SurfaceType::R32_G32,
        SurfaceType::R32_G32_B32,
        SurfaceType::R32_G32_B32_A32,
    ] {
        for c in [ChannelType::Int, ChannelType::Uint, ChannelType::Float] {
            v.push((s, c));
        }
    }
    v.push((SurfaceType::D16, ChannelType::Unorm));
    v.push((SurfaceType::D24, ChannelType::Unorm));
    v.push((SurfaceType::D24_S8, ChannelType::Unorm));
    v.push((SurfaceType::D32, ChannelType::Float));
    v
}

#[test]
fn format_round_trip_all_supported_pairs() {
    for (s, c) in supported_pairs() {
        let native = map_format(s, c);
        assert!(native.is_some(), "{:?} {:?} should resolve", s, c);
        assert_eq!(unmap_format(native.unwrap()), Some((s, c)));
    }
}

#[test]
fn format_exact_native_values() {
    assert_eq!(map_format(SurfaceType::R8_G8_B8_A8, ChannelType::Unorm), Some(37));
    assert_eq!(map_format(SurfaceType::R8_G8_B8_A8, ChannelType::Srgb), Some(43));
    assert_eq!(map_format(SurfaceType::R8, ChannelType::Uint), Some(13));
    assert_eq!(map_format(SurfaceType::R16_G16_B16_A16, ChannelType::Float), Some(97));
    assert_eq!(map_format(SurfaceType::R32, ChannelType::Float), Some(100));
    assert_eq!(map_format(SurfaceType::D16, ChannelType::Unorm), Some(124));
    assert_eq!(map_format(SurfaceType::D24_S8, ChannelType::Unorm), Some(129));
    assert_eq!(map_format(SurfaceType::D32, ChannelType::Float), Some(126));
}

#[test]
fn format_unsupported_pairs_fail() {
    assert_eq!(map_format(SurfaceType::R8, ChannelType::Float), None);
    assert_eq!(map_format(SurfaceType::R16, ChannelType::Srgb), None);
    assert_eq!(map_format(SurfaceType::R32, ChannelType::Unorm), None);
    assert_eq!(map_format(SurfaceType::D16, ChannelType::Uint), None);
    assert_eq!(map_format(SurfaceType::D32, ChannelType::Unorm), None);
    assert_eq!(unmap_format(1000), None);
    assert_eq!(unmap_format(0), None);
}

#[test]
fn image_view_types() {
    let aa = AaMode::Single;
    assert_eq!(map_image_view_type(Kind::D1(4), None), Ok(0));
    assert_eq!(map_image_view_type(Kind::D2(4, 4, aa), None), Ok(1));
    assert_eq!(map_image_view_type(Kind::D3(4, 4, 4), None), Ok(2));
    assert_eq!(map_image_view_type(Kind::Cube(4), None), Ok(3));
    assert_eq!(map_image_view_type(Kind::D1Array(4, 6), None), Ok(4));
    assert_eq!(map_image_view_type(Kind::D2Array(4, 4, 6, aa), None), Ok(5));
    assert_eq!(map_image_view_type(Kind::CubeArray(4, 2), None), Ok(6));
    // Selecting a layer of an array kind views one element of it.
    assert_eq!(map_image_view_type(Kind::D2Array(4, 4, 6, aa), Some(3)), Ok(1));
    assert_eq!(map_image_view_type(Kind::D1Array(4, 6), Some(0)), Ok(0));
}

#[test]
fn image_view_layer_errors() {
    let aa = AaMode::Single;
    let kind = Kind::D2(4, 4, aa);
    assert_eq!(
        map_image_view_type(kind, Some(0)),
        Err(LayerError::NotExpected(kind))
    );
    assert_eq!(
        map_image_view_type(Kind::D2Array(4, 4, 6, aa), Some(6)),
        Err(LayerError::OutOfBounds(6, 6))
    );
    assert_eq!(
        map_image_view_type(Kind::D3(4, 4, 4), Some(1)),
        Err(LayerError::NotExpected(Kind::D3(4, 4, 4)))
    );
}

#[test]
fn image_type_and_aspects() {
    assert_eq!(map_image_type(Kind::D1(1)), 0);
    assert_eq!(map_image_type(Kind::Cube(1)), 1);
    assert_eq!(map_image_type(Kind::D3(1, 1, 1)), 2);
    // Color surfaces address the color plane; depth surfaces their planes.
    assert_eq!(map_image_aspect(SurfaceType::R8_G8_B8_A8, ChannelType::Unorm, true), 1);
    assert_eq!(map_image_aspect(SurfaceType::D16, ChannelType::Unorm, true), 2);
    assert_eq!(map_image_aspect(SurfaceType::D24_S8, ChannelType::Unorm, false), 2 | 4);
}

#[test]
fn usage_flags_and_layouts() {
    let bind = Bind {
        render_target: true,
        depth_stencil: false,
        shader_resource: true,
        unordered_access: false,
    };
    let (flags, tiling) = map_usage_tiling(Usage::GpuOnly, bind);
    assert_eq!(flags, 0x1 | 0x2 | 0x4 | 0x10);
    assert_eq!(tiling, 0); // optimal
    let (_, linear) = map_usage_tiling(Usage::CpuOnly(Access::Readable), bind);
    assert_eq!(linear, 1);
    assert_eq!(map_image_layout(bind), 2); // color-attachment optimal
    let none = Bind {
        render_target: false,
        depth_stencil: false,
        shader_resource: false,
        unordered_access: false,
    };
    assert_eq!(map_image_layout(none), 1); // general
    assert_eq!(map_buffer_usage(BufferRole::Vertex, none), 0x1 | 0x2 | 0x80);
    assert_eq!(map_buffer_usage(BufferRole::Index, none), 0x1 | 0x2 | 0x40);
    assert_eq!(map_buffer_usage(BufferRole::Uniform, none), 0x1 | 0x2 | 0x10);
}

#[test]
fn stage_masks() {
    let all = StageUsage { vertex: true, geometry: true, pixel: true };
    assert_eq!(map_stage(all), 0x1 | 0x8 | 0x10);
    let vs = StageUsage { vertex: true, geometry: false, pixel: false };
    assert_eq!(map_stage(vs), 0x1);
}

#[test]
fn fixed_function_tables() {
    assert_eq!(map_topology(Primitive::TriangleList), 3);
    assert_eq!(map_topology(Primitive::PointList), 0);
    assert_eq!(map_comparison(Comparison::LessEqual), 3);
    assert_eq!(map_comparison(Comparison::Always), 7);
    assert_eq!(map_cull_face(CullFace::Back), 2);
    assert_eq!(map_front_face(FrontFace::Clockwise), 1);
    assert_eq!(map_polygon_mode(RasterMethod::Fill), (0, 1));
    assert_eq!(map_polygon_mode(RasterMethod::Line(3)), (1, 3));
    assert_eq!(map_wrap(WrapMode::Tile), 0);
    assert_eq!(map_wrap(WrapMode::Border), 3);
}

#[test]
fn filter_table() {
    assert_eq!(map_filter(FilterMethod::Scale), (0, 0, 0, 0));
    assert_eq!(map_filter(FilterMethod::Bilinear), (1, 1, 0, 0));
    assert_eq!(map_filter(FilterMethod::Trilinear), (1, 1, 1, 0));
    assert_eq!(map_filter(FilterMethod::Anisotropic(16)), (1, 1, 1, 16));
}

#[test]
fn border_colors() {
    assert_eq!(map_border_color(PackedColor(0)), Some(0));
    assert_eq!(map_border_color(PackedColor(0xFF00_0000)), Some(2));
    assert_eq!(map_border_color(PackedColor(0xFFFF_FFFF)), Some(4));
    assert_eq!(map_border_color(PackedColor(0x1234_5678)), None);
}
