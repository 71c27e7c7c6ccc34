//! The format and enumeration translator: pure mappings from the abstract
//! descriptor vocabulary to the native API's enumeration values and bitflags.
//! Stateless; every creation entry point of the factory goes through it.

use vstd::prelude::*;
use crate::descriptors::{
    SurfaceType, ChannelType, ChannelSource, Swizzle, Kind, LayerError, Usage, Bind, BufferRole,
    StageUsage, Primitive, Comparison, StencilOp, StencilSide, CullFace, FrontFace, RasterMethod,
    Factor, BlendValue, Equation, ColorMask, ColorInfo, FilterMethod, WrapMode, PackedColor,
};
use crate::native::{
    FORMAT_R8_UNORM, FORMAT_R8_SNORM, FORMAT_R8_UINT, FORMAT_R8_SINT, FORMAT_R8_SRGB,
    FORMAT_R8G8_UNORM, FORMAT_R8G8_SNORM, FORMAT_R8G8_UINT, FORMAT_R8G8_SINT, FORMAT_R8G8_SRGB,
    FORMAT_R8G8B8A8_UNORM, FORMAT_R8G8B8A8_SNORM, FORMAT_R8G8B8A8_UINT, FORMAT_R8G8B8A8_SINT,
    FORMAT_R8G8B8A8_SRGB, FORMAT_R16_UNORM, FORMAT_R16_SNORM, FORMAT_R16_UINT, FORMAT_R16_SINT,
    FORMAT_R16_SFLOAT, FORMAT_R16G16_UNORM, FORMAT_R16G16_SNORM, FORMAT_R16G16_UINT,
    FORMAT_R16G16_SINT, FORMAT_R16G16_SFLOAT, FORMAT_R16G16B16A16_UNORM, FORMAT_R16G16B16A16_SNORM,
    FORMAT_R16G16B16A16_UINT, FORMAT_R16G16B16A16_SINT, FORMAT_R16G16B16A16_SFLOAT,
    FORMAT_R32_UINT, FORMAT_R32_SINT, FORMAT_R32_SFLOAT, FORMAT_R32G32_UINT, FORMAT_R32G32_SINT,
    FORMAT_R32G32_SFLOAT, FORMAT_R32G32B32_UINT, FORMAT_R32G32B32_SINT, FORMAT_R32G32B32_SFLOAT,
    FORMAT_R32G32B32A32_UINT, FORMAT_R32G32B32A32_SINT, FORMAT_R32G32B32A32_SFLOAT,
    FORMAT_D16_UNORM, FORMAT_X8_D24_UNORM_PACK32, FORMAT_D32_SFLOAT, FORMAT_D24_UNORM_S8_UINT,
    IMAGE_VIEW_TYPE_1D, IMAGE_VIEW_TYPE_2D, IMAGE_VIEW_TYPE_3D, IMAGE_VIEW_TYPE_CUBE,
    IMAGE_VIEW_TYPE_1D_ARRAY, IMAGE_VIEW_TYPE_2D_ARRAY, IMAGE_VIEW_TYPE_CUBE_ARRAY,
    IMAGE_TYPE_1D, IMAGE_TYPE_2D, IMAGE_TYPE_3D, IMAGE_TILING_OPTIMAL, IMAGE_TILING_LINEAR,
    IMAGE_LAYOUT_GENERAL, IMAGE_LAYOUT_COLOR_ATTACHMENT_OPTIMAL,
    IMAGE_LAYOUT_DEPTH_STENCIL_ATTACHMENT_OPTIMAL, IMAGE_LAYOUT_SHADER_READ_ONLY_OPTIMAL,
    IMAGE_ASPECT_COLOR_BIT, IMAGE_ASPECT_DEPTH_BIT, IMAGE_ASPECT_STENCIL_BIT,
    IMAGE_USAGE_TRANSFER_SRC_BIT, IMAGE_USAGE_TRANSFER_DST_BIT, IMAGE_USAGE_SAMPLED_BIT,
    IMAGE_USAGE_STORAGE_BIT, IMAGE_USAGE_COLOR_ATTACHMENT_BIT,
    IMAGE_USAGE_DEPTH_STENCIL_ATTACHMENT_BIT, BUFFER_USAGE_TRANSFER_SRC_BIT,
    BUFFER_USAGE_TRANSFER_DST_BIT, BUFFER_USAGE_UNIFORM_BUFFER_BIT, BUFFER_USAGE_STORAGE_BUFFER_BIT,
    BUFFER_USAGE_INDEX_BUFFER_BIT, BUFFER_USAGE_VERTEX_BUFFER_BIT, COMPONENT_SWIZZLE_R,
    COMPONENT_SWIZZLE_G, COMPONENT_SWIZZLE_B, COMPONENT_SWIZZLE_A, SHADER_STAGE_VERTEX_BIT,
    SHADER_STAGE_GEOMETRY_BIT, SHADER_STAGE_FRAGMENT_BIT, PRIMITIVE_TOPOLOGY_POINT_LIST,
    PRIMITIVE_TOPOLOGY_LINE_LIST, PRIMITIVE_TOPOLOGY_LINE_STRIP, PRIMITIVE_TOPOLOGY_TRIANGLE_LIST,
    PRIMITIVE_TOPOLOGY_TRIANGLE_STRIP, POLYGON_MODE_FILL, POLYGON_MODE_LINE, POLYGON_MODE_POINT,
    CULL_MODE_NONE, CULL_MODE_FRONT_BIT, CULL_MODE_BACK_BIT, FRONT_FACE_COUNTER_CLOCKWISE,
    FRONT_FACE_CLOCKWISE, COMPARE_OP_NEVER, COMPARE_OP_LESS, COMPARE_OP_EQUAL,
    COMPARE_OP_LESS_OR_EQUAL, COMPARE_OP_GREATER, COMPARE_OP_NOT_EQUAL,
    COMPARE_OP_GREATER_OR_EQUAL, COMPARE_OP_ALWAYS, STENCIL_OP_KEEP, STENCIL_OP_ZERO,
    STENCIL_OP_REPLACE, STENCIL_OP_INCREMENT_AND_CLAMP, STENCIL_OP_DECREMENT_AND_CLAMP,
    STENCIL_OP_INVERT, STENCIL_OP_INCREMENT_AND_WRAP, STENCIL_OP_DECREMENT_AND_WRAP,
    BLEND_FACTOR_ZERO, BLEND_FACTOR_ONE, BLEND_FACTOR_SRC_COLOR, BLEND_FACTOR_ONE_MINUS_SRC_COLOR,
    BLEND_FACTOR_DST_COLOR, BLEND_FACTOR_ONE_MINUS_DST_COLOR, BLEND_FACTOR_SRC_ALPHA,
    BLEND_FACTOR_ONE_MINUS_SRC_ALPHA, BLEND_FACTOR_DST_ALPHA, BLEND_FACTOR_ONE_MINUS_DST_ALPHA,
    BLEND_FACTOR_CONSTANT_COLOR, BLEND_FACTOR_ONE_MINUS_CONSTANT_COLOR, BLEND_FACTOR_CONSTANT_ALPHA,
    BLEND_FACTOR_ONE_MINUS_CONSTANT_ALPHA, BLEND_FACTOR_SRC_ALPHA_SATURATE, BLEND_OP_ADD,
    BLEND_OP_SUBTRACT, BLEND_OP_REVERSE_SUBTRACT, BLEND_OP_MIN, BLEND_OP_MAX,
    COLOR_COMPONENT_R_BIT, COLOR_COMPONENT_G_BIT, COLOR_COMPONENT_B_BIT, COLOR_COMPONENT_A_BIT,
    FILTER_NEAREST, FILTER_LINEAR, SAMPLER_MIPMAP_MODE_NEAREST, SAMPLER_MIPMAP_MODE_LINEAR,
    SAMPLER_ADDRESS_MODE_REPEAT, SAMPLER_ADDRESS_MODE_MIRRORED_REPEAT,
    SAMPLER_ADDRESS_MODE_CLAMP_TO_EDGE, SAMPLER_ADDRESS_MODE_CLAMP_TO_BORDER,
    BORDER_COLOR_FLOAT_TRANSPARENT_BLACK, BORDER_COLOR_FLOAT_OPAQUE_BLACK,
    BORDER_COLOR_FLOAT_OPAQUE_WHITE, BOOL32_TRUE, BOOL32_FALSE,
};
use crate::records::{ComponentMapping, StencilOpState, PipelineColorBlendAttachmentState};

verus! {

/// The native format, if any, for a surface type under a channel
/// interpretation.
pub open spec fn spec_map_format(surface: SurfaceType, chan: ChannelType) -> Option<u32> {
    match (surface, chan) {
        (SurfaceType::R8, ChannelType::Inorm) => Some(FORMAT_R8_SNORM),
        (SurfaceType::R8, ChannelType::Unorm) => Some(FORMAT_R8_UNORM),
        (SurfaceType::R8, ChannelType::Int) => Some(FORMAT_R8_SINT),
        (SurfaceType::R8, ChannelType::Uint) => Some(FORMAT_R8_UINT),
        (SurfaceType::R8, ChannelType::Srgb) => Some(FORMAT_R8_SRGB),
        (SurfaceType::R8_G8, ChannelType::Inorm) => Some(FORMAT_R8G8_SNORM),
        (SurfaceType::R8_G8, ChannelType::Unorm) => Some(FORMAT_R8G8_UNORM),
        (SurfaceType::R8_G8, ChannelType::Int) => Some(FORMAT_R8G8_SINT),
        (SurfaceType::R8_G8, ChannelType::Uint) => Some(FORMAT_R8G8_UINT),
        (SurfaceType::R8_G8, ChannelType::Srgb) => Some(FORMAT_R8G8_SRGB),
        (SurfaceType::R8_G8_B8_A8, ChannelType::Inorm) => Some(FORMAT_R8G8B8A8_SNORM),
        (SurfaceType::R8_G8_B8_A8, ChannelType::Unorm) => Some(FORMAT_R8G8B8A8_UNORM),
        (SurfaceType::R8_G8_B8_A8, ChannelType::Int) => Some(FORMAT_R8G8B8A8_SINT),
        (SurfaceType::R8_G8_B8_A8, ChannelType::Uint) => Some(FORMAT_R8G8B8A8_UINT),
        (SurfaceType::R8_G8_B8_A8, ChannelType::Srgb) => Some(FORMAT_R8G8B8A8_SRGB),
        (SurfaceType::R16, ChannelType::Inorm) => Some(FORMAT_R16_SNORM),
        (SurfaceType::R16, ChannelType::Unorm) => Some(FORMAT_R16_UNORM),
        (SurfaceType::R16, ChannelType::Int) => Some(FORMAT_R16_SINT),
        (SurfaceType::R16, ChannelType::Uint) => Some(FORMAT_R16_UINT),
        (SurfaceType::R16, ChannelType::Float) => Some(FORMAT_R16_SFLOAT),
        (SurfaceType::R16_G16, ChannelType::Inorm) => Some(FORMAT_R16G16_SNORM),
        (SurfaceType::R16_G16, ChannelType::Unorm) => Some(FORMAT_R16G16_UNORM),
        (SurfaceType::R16_G16, ChannelType::Int) => Some(FORMAT_R16G16_SINT),
        (SurfaceType::R16_G16, ChannelType::Uint) => Some(FORMAT_R16G16_UINT),
        (SurfaceType::R16_G16, ChannelType::Float) => Some(FORMAT_R16G16_SFLOAT),
        (SurfaceType::R16_G16_B16_A16, ChannelType::Inorm) => Some(FORMAT_R16G16B16A16_SNORM),
        (SurfaceType::R16_G16_B16_A16, ChannelType::Unorm) => Some(FORMAT_R16G16B16A16_UNORM),
        (SurfaceType::R16_G16_B16_A16, ChannelType::Int) => Some(FORMAT_R16G16B16A16_SINT),
        (SurfaceType::R16_G16_B16_A16, ChannelType::Uint) => Some(FORMAT_R16G16B16A16_UINT),
        (SurfaceType::R16_G16_B16_A16, ChannelType::Float) => Some(FORMAT_R16G16B16A16_SFLOAT),
        (SurfaceType::R32, ChannelType::Int) => Some(FORMAT_R32_SINT),
        (SurfaceType::R32, ChannelType::Uint) => Some(FORMAT_R32_UINT),
        (SurfaceType::R32, ChannelType::Float) => Some(FORMAT_R32_SFLOAT),
        (SurfaceType::R32_G32, ChannelType::Int) => Some(FORMAT_R32G32_SINT),
        (SurfaceType::R32_G32, ChannelType::Uint) => Some(FORMAT_R32G32_UINT),
        (SurfaceType::R32_G32, ChannelType::Float) => Some(FORMAT_R32G32_SFLOAT),
        (SurfaceType::R32_G32_B32, ChannelType::Int) => Some(FORMAT_R32G32B32_SINT),
        (SurfaceType::R32_G32_B32, ChannelType::Uint) => Some(FORMAT_R32G32B32_UINT),
        (SurfaceType::R32_G32_B32, ChannelType::Float) => Some(FORMAT_R32G32B32_SFLOAT),
        (SurfaceType::R32_G32_B32_A32, ChannelType::Int) => Some(FORMAT_R32G32B32A32_SINT),
        (SurfaceType::R32_G32_B32_A32, ChannelType::Uint) => Some(FORMAT_R32G32B32A32_UINT),
        (SurfaceType::R32_G32_B32_A32, ChannelType::Float) => Some(FORMAT_R32G32B32A32_SFLOAT),
        (SurfaceType::D16, ChannelType::Unorm) => Some(FORMAT_D16_UNORM),
        (SurfaceType::D24, ChannelType::Unorm) => Some(FORMAT_X8_D24_UNORM_PACK32),
        (SurfaceType::D24_S8, ChannelType::Unorm) => Some(FORMAT_D24_UNORM_S8_UINT),
        (SurfaceType::D32, ChannelType::Float) => Some(FORMAT_D32_SFLOAT),
        _ => None,
    }
}

/// Resolves a surface type and channel interpretation to the native format.
pub fn map_format(surface: SurfaceType, chan: ChannelType) -> (r: Option<u32>)
    ensures
        r == spec_map_format(surface, chan),
{
    match (surface, chan) {
        (SurfaceType::R8, ChannelType::Inorm) => Some(FORMAT_R8_SNORM),
        (SurfaceType::R8, ChannelType::Unorm) => Some(FORMAT_R8_UNORM),
        (SurfaceType::R8, ChannelType::Int) => Some(FORMAT_R8_SINT),
        (SurfaceType::R8, ChannelType::Uint) => Some(FORMAT_R8_UINT),
        (SurfaceType::R8, ChannelType::Srgb) => Some(FORMAT_R8_SRGB),
        (SurfaceType::R8_G8, ChannelType::Inorm) => Some(FORMAT_R8G8_SNORM),
        (SurfaceType::R8_G8, ChannelType::Unorm) => Some(FORMAT_R8G8_UNORM),
        (SurfaceType::R8_G8, ChannelType::Int) => Some(FORMAT_R8G8_SINT),
        (SurfaceType::R8_G8, ChannelType::Uint) => Some(FORMAT_R8G8_UINT),
        (SurfaceType::R8_G8, ChannelType::Srgb) => Some(FORMAT_R8G8_SRGB),
        (SurfaceType::R8_G8_B8_A8, ChannelType::Inorm) => Some(FORMAT_R8G8B8A8_SNORM),
        (SurfaceType::R8_G8_B8_A8, ChannelType::Unorm) => Some(FORMAT_R8G8B8A8_UNORM),
        (SurfaceType::R8_G8_B8_A8, ChannelType::Int) => Some(FORMAT_R8G8B8A8_SINT),
        (SurfaceType::R8_G8_B8_A8, ChannelType::Uint) => Some(FORMAT_R8G8B8A8_UINT),
        (SurfaceType::R8_G8_B8_A8, ChannelType::Srgb) => Some(FORMAT_R8G8B8A8_SRGB),
        (SurfaceType::R16, ChannelType::Inorm) => Some(FORMAT_R16_SNORM),
        (SurfaceType::R16, ChannelType::Unorm) => Some(FORMAT_R16_UNORM),
        (SurfaceType::R16, ChannelType::Int) => Some(FORMAT_R16_SINT),
        (SurfaceType::R16, ChannelType::Uint) => Some(FORMAT_R16_UINT),
        (SurfaceType::R16, ChannelType::Float) => Some(FORMAT_R16_SFLOAT),
        (SurfaceType::R16_G16, ChannelType::Inorm) => Some(FORMAT_R16G16_SNORM),
        (SurfaceType::R16_G16, ChannelType::Unorm) => Some(FORMAT_R16G16_UNORM),
        (SurfaceType::R16_G16, ChannelType::Int) => Some(FORMAT_R16G16_SINT),
        (SurfaceType::R16_G16, ChannelType::Uint) => Some(FORMAT_R16G16_UINT),
        (SurfaceType::R16_G16, ChannelType::Float) => Some(FORMAT_R16G16_SFLOAT),
        (SurfaceType::R16_G16_B16_A16, ChannelType::Inorm) => Some(FORMAT_R16G16B16A16_SNORM),
        (SurfaceType::R16_G16_B16_A16, ChannelType::Unorm) => Some(FORMAT_R16G16B16A16_UNORM),
        (SurfaceType::R16_G16_B16_A16, ChannelType::Int) => Some(FORMAT_R16G16B16A16_SINT),
        (SurfaceType::R16_G16_B16_A16, ChannelType::Uint) => Some(FORMAT_R16G16B16A16_UINT),
        (SurfaceType::R16_G16_B16_A16, ChannelType::Float) => Some(FORMAT_R16G16B16A16_SFLOAT),
        (SurfaceType::R32, ChannelType::Int) => Some(FORMAT_R32_SINT),
        (SurfaceType::R32, ChannelType::Uint) => Some(FORMAT_R32_UINT),
        (SurfaceType::R32, ChannelType::Float) => Some(FORMAT_R32_SFLOAT),
        (SurfaceType::R32_G32, ChannelType::Int) => Some(FORMAT_R32G32_SINT),
        (SurfaceType::R32_G32, ChannelType::Uint) => Some(FORMAT_R32G32_UINT),
        (SurfaceType::R32_G32, ChannelType::Float) => Some(FORMAT_R32G32_SFLOAT),
        (SurfaceType::R32_G32_B32, ChannelType::Int) => Some(FORMAT_R32G32B32_SINT),
        (SurfaceType::R32_G32_B32, ChannelType::Uint) => Some(FORMAT_R32G32B32_UINT),
        (SurfaceType::R32_G32_B32, ChannelType::Float) => Some(FORMAT_R32G32B32_SFLOAT),
        (SurfaceType::R32_G32_B32_A32, ChannelType::Int) => Some(FORMAT_R32G32B32A32_SINT),
        (SurfaceType::R32_G32_B32_A32, ChannelType::Uint) => Some(FORMAT_R32G32B32A32_UINT),
        (SurfaceType::R32_G32_B32_A32, ChannelType::Float) => Some(FORMAT_R32G32B32A32_SFLOAT),
        (SurfaceType::D16, ChannelType::Unorm) => Some(FORMAT_D16_UNORM),
        (SurfaceType::D24, ChannelType::Unorm) => Some(FORMAT_X8_D24_UNORM_PACK32),
        (SurfaceType::D24_S8, ChannelType::Unorm) => Some(FORMAT_D24_UNORM_S8_UINT),
        (SurfaceType::D32, ChannelType::Float) => Some(FORMAT_D32_SFLOAT),
        _ => None,
    }
}

/// The inverse lookup: the surface type and channel interpretation a native
/// format value stands for.
pub open spec fn spec_unmap_format(native: u32) -> Option<(SurfaceType, ChannelType)> {
    if native == FORMAT_R8_SNORM { Some((SurfaceType::R8, ChannelType::Inorm)) }
    else if native == FORMAT_R8_UNORM { Some((SurfaceType::R8, ChannelType::Unorm)) }
    else if native == FORMAT_R8_SINT { Some((SurfaceType::R8, ChannelType::Int)) }
    else if native == FORMAT_R8_UINT { Some((SurfaceType::R8, ChannelType::Uint)) }
    else if native == FORMAT_R8_SRGB { Some((SurfaceType::R8, ChannelType::Srgb)) }
    else if native == FORMAT_R8G8_SNORM { Some((SurfaceType::R8_G8, ChannelType::Inorm)) }
    else if native == FORMAT_R8G8_UNORM { Some((SurfaceType::R8_G8, ChannelType::Unorm)) }
    else if native == FORMAT_R8G8_SINT { Some((SurfaceType::R8_G8, ChannelType::Int)) }
    else if native == FORMAT_R8G8_UINT { Some((SurfaceType::R8_G8, ChannelType::Uint)) }
    else if native == FORMAT_R8G8_SRGB { Some((SurfaceType::R8_G8, ChannelType::Srgb)) }
    else if native == FORMAT_R8G8B8A8_SNORM { Some((SurfaceType::R8_G8_B8_A8, ChannelType::Inorm)) }
    else if native == FORMAT_R8G8B8A8_UNORM { Some((SurfaceType::R8_G8_B8_A8, ChannelType::Unorm)) }
    else if native == FORMAT_R8G8B8A8_SINT { Some((SurfaceType::R8_G8_B8_A8, ChannelType::Int)) }
    else if native == FORMAT_R8G8B8A8_UINT { Some((SurfaceType::R8_G8_B8_A8, ChannelType::Uint)) }
    else if native == FORMAT_R8G8B8A8_SRGB { Some((SurfaceType::R8_G8_B8_A8, ChannelType::Srgb)) }
    else if native == FORMAT_R16_SNORM { Some((SurfaceType::R16, ChannelType::Inorm)) }
    else if native == FORMAT_R16_UNORM { Some((SurfaceType::R16, ChannelType::Unorm)) }
    else if native == FORMAT_R16_SINT { Some((SurfaceType::R16, ChannelType::Int)) }
    else if native == FORMAT_R16_UINT { Some((SurfaceType::R16, ChannelType::Uint)) }
    else if native == FORMAT_R16_SFLOAT { Some((SurfaceType::R16, ChannelType::Float)) }
    else if native == FORMAT_R16G16_SNORM { Some((SurfaceType::R16_G16, ChannelType::Inorm)) }
    else if native == FORMAT_R16G16_UNORM { Some((SurfaceType::R16_G16, ChannelType::Unorm)) }
    else if native == FORMAT_R16G16_SINT { Some((SurfaceType::R16_G16, ChannelType::Int)) }
    else if native == FORMAT_R16G16_UINT { Some((SurfaceType::R16_G16, ChannelType::Uint)) }
    else if native == FORMAT_R16G16_SFLOAT { Some((SurfaceType::R16_G16, ChannelType::Float)) }
    else if native == FORMAT_R16G16B16A16_SNORM { Some((SurfaceType::R16_G16_B16_A16, ChannelType::Inorm)) }
    else if native == FORMAT_R16G16B16A16_UNORM { Some((SurfaceType::R16_G16_B16_A16, ChannelType::Unorm)) }
    else if native == FORMAT_R16G16B16A16_SINT { Some((SurfaceType::R16_G16_B16_A16, ChannelType::Int)) }
    else if native == FORMAT_R16G16B16A16_UINT { Some((SurfaceType::R16_G16_B16_A16, ChannelType::Uint)) }
    else if native == FORMAT_R16G16B16A16_SFLOAT { Some((SurfaceType::R16_G16_B16_A16, ChannelType::Float)) }
    else if native == FORMAT_R32_SINT { Some((SurfaceType::R32, ChannelType::Int)) }
    else if native == FORMAT_R32_UINT { Some((SurfaceType::R32, ChannelType::Uint)) }
    else if native == FORMAT_R32_SFLOAT { Some((SurfaceType::R32, ChannelType::Float)) }
    else if native == FORMAT_R32G32_SINT { Some((SurfaceType::R32_G32, ChannelType::Int)) }
    else if native == FORMAT_R32G32_UINT { Some((SurfaceType::R32_G32, ChannelType::Uint)) }
    else if native == FORMAT_R32G32_SFLOAT { Some((SurfaceType::R32_G32, ChannelType::Float)) }
    else if native == FORMAT_R32G32B32_SINT { Some((SurfaceType::R32_G32_B32, ChannelType::Int)) }
    else if native == FORMAT_R32G32B32_UINT { Some((SurfaceType::R32_G32_B32, ChannelType::Uint)) }
    else if native == FORMAT_R32G32B32_SFLOAT { Some((SurfaceType::R32_G32_B32, ChannelType::Float)) }
    else if native == FORMAT_R32G32B32A32_SINT { Some((SurfaceType::R32_G32_B32_A32, ChannelType::Int)) }
    else if native == FORMAT_R32G32B32A32_UINT { Some((SurfaceType::R32_G32_B32_A32, ChannelType::Uint)) }
    else if native == FORMAT_R32G32B32A32_SFLOAT { Some((SurfaceType::R32_G32_B32_A32, ChannelType::Float)) }
    else if native == FORMAT_D16_UNORM { Some((SurfaceType::D16, ChannelType::Unorm)) }
    else if native == FORMAT_X8_D24_UNORM_PACK32 { Some((SurfaceType::D24, ChannelType::Unorm)) }
    else if native == FORMAT_D24_UNORM_S8_UINT { Some((SurfaceType::D24_S8, ChannelType::Unorm)) }
    else if native == FORMAT_D32_SFLOAT { Some((SurfaceType::D32, ChannelType::Float)) }
    else { None }
}

/// Looks a native format value back up in the inverse table.
pub fn unmap_format(native: u32) -> (r: Option<(SurfaceType, ChannelType)>)
    ensures
        r == spec_unmap_format(native),
{
    if native == FORMAT_R8_SNORM { Some((SurfaceType::R8, ChannelType::Inorm)) }
    else if native == FORMAT_R8_UNORM { Some((SurfaceType::R8, ChannelType::Unorm)) }
    else if native == FORMAT_R8_SINT { Some((SurfaceType::R8, ChannelType::Int)) }
    else if native == FORMAT_R8_UINT { Some((SurfaceType::R8, ChannelType::Uint)) }
    else if native == FORMAT_R8_SRGB { Some((SurfaceType::R8, ChannelType::Srgb)) }
    else if native == FORMAT_R8G8_SNORM { Some((SurfaceType::R8_G8, ChannelType::Inorm)) }
    else if native == FORMAT_R8G8_UNORM { Some((SurfaceType::R8_G8, ChannelType::Unorm)) }
    else if native == FORMAT_R8G8_SINT { Some((SurfaceType::R8_G8, ChannelType::Int)) }
    else if native == FORMAT_R8G8_UINT { Some((SurfaceType::R8_G8, ChannelType::Uint)) }
    else if native == FORMAT_R8G8_SRGB { Some((SurfaceType::R8_G8, ChannelType::Srgb)) }
    else if native == FORMAT_R8G8B8A8_SNORM { Some((SurfaceType::R8_G8_B8_A8, ChannelType::Inorm)) }
    else if native == FORMAT_R8G8B8A8_UNORM { Some((SurfaceType::R8_G8_B8_A8, ChannelType::Unorm)) }
    else if native == FORMAT_R8G8B8A8_SINT { Some((SurfaceType::R8_G8_B8_A8, ChannelType::Int)) }
    else if native == FORMAT_R8G8B8A8_UINT { Some((SurfaceType::R8_G8_B8_A8, ChannelType::Uint)) }
    else if native == FORMAT_R8G8B8A8_SRGB { Some((SurfaceType::R8_G8_B8_A8, ChannelType::Srgb)) }
    else if native == FORMAT_R16_SNORM { Some((SurfaceType::R16, ChannelType::Inorm)) }
    else if native == FORMAT_R16_UNORM { Some((SurfaceType::R16, ChannelType::Unorm)) }
    else if native == FORMAT_R16_SINT { Some((SurfaceType::R16, ChannelType::Int)) }
    else if native == FORMAT_R16_UINT { Some((SurfaceType::R16, ChannelType::Uint)) }
    else if native == FORMAT_R16_SFLOAT { Some((SurfaceType::R16, ChannelType::Float)) }
    else if native == FORMAT_R16G16_SNORM { Some((SurfaceType::R16_G16, ChannelType::Inorm)) }
    else if native == FORMAT_R16G16_UNORM { Some((SurfaceType::R16_G16, ChannelType::Unorm)) }
    else if native == FORMAT_R16G16_SINT { Some((SurfaceType::R16_G16, ChannelType::Int)) }
    else if native == FORMAT_R16G16_UINT { Some((SurfaceType::R16_G16, ChannelType::Uint)) }
    else if native == FORMAT_R16G16_SFLOAT { Some((SurfaceType::R16_G16, ChannelType::Float)) }
    else if native == FORMAT_R16G16B16A16_SNORM { Some((SurfaceType::R16_G16_B16_A16, ChannelType::Inorm)) }
    else if native == FORMAT_R16G16B16A16_UNORM { Some((SurfaceType::R16_G16_B16_A16, ChannelType::Unorm)) }
    else if native == FORMAT_R16G16B16A16_SINT { Some((SurfaceType::R16_G16_B16_A16, ChannelType::Int)) }
    else if native == FORMAT_R16G16B16A16_UINT { Some((SurfaceType::R16_G16_B16_A16, ChannelType::Uint)) }
    else if native == FORMAT_R16G16B16A16_SFLOAT { Some((SurfaceType::R16_G16_B16_A16, ChannelType::Float)) }
    else if native == FORMAT_R32_SINT { Some((SurfaceType::R32, ChannelType::Int)) }
    else if native == FORMAT_R32_UINT { Some((SurfaceType::R32, ChannelType::Uint)) }
    else if native == FORMAT_R32_SFLOAT { Some((SurfaceType::R32, ChannelType::Float)) }
    else if native == FORMAT_R32G32_SINT { Some((SurfaceType::R32_G32, ChannelType::Int)) }
    else if native == FORMAT_R32G32_UINT { Some((SurfaceType::R32_G32, ChannelType::Uint)) }
    else if native == FORMAT_R32G32_SFLOAT { Some((SurfaceType::R32_G32, ChannelType::Float)) }
    else if native == FORMAT_R32G32B32_SINT { Some((SurfaceType::R32_G32_B32, ChannelType::Int)) }
    else if native == FORMAT_R32G32B32_UINT { Some((SurfaceType::R32_G32_B32, ChannelType::Uint)) }
    else if native == FORMAT_R32G32B32_SFLOAT { Some((SurfaceType::R32_G32_B32, ChannelType::Float)) }
    else if native == FORMAT_R32G32B32A32_SINT { Some((SurfaceType::R32_G32_B32_A32, ChannelType::Int)) }
    else if native == FORMAT_R32G32B32A32_UINT { Some((SurfaceType::R32_G32_B32_A32, ChannelType::Uint)) }
    else if native == FORMAT_R32G32B32A32_SFLOAT { Some((SurfaceType::R32_G32_B32_A32, ChannelType::Float)) }
    else if native == FORMAT_D16_UNORM { Some((SurfaceType::D16, ChannelType::Unorm)) }
    else if native == FORMAT_X8_D24_UNORM_PACK32 { Some((SurfaceType::D24, ChannelType::Unorm)) }
    else if native == FORMAT_D24_UNORM_S8_UINT { Some((SurfaceType::D24_S8, ChannelType::Unorm)) }
    else if native == FORMAT_D32_SFLOAT { Some((SurfaceType::D32, ChannelType::Float)) }
    else { None }
}

/// Every supported (surface, channel) pair resolves to a native format that
/// the inverse lookup maps back to exactly that pair.
pub proof fn lemma_format_round_trip(surface: SurfaceType, chan: ChannelType)
    ensures
        spec_map_format(surface, chan) is Some ==> spec_unmap_format(
            spec_map_format(surface, chan)->Some_0,
        ) == Some((surface, chan)),
{
}

/// Every native format value the table produces comes from exactly one
/// supported pair: the forward table is injective.
pub proof fn lemma_format_injective(
    s1: SurfaceType,
    c1: ChannelType,
    s2: SurfaceType,
    c2: ChannelType,
)
    requires
        spec_map_format(s1, c1) is Some,
        spec_map_format(s1, c1) == spec_map_format(s2, c2),
    ensures
        s1 == s2 && c1 == c2,
{
    lemma_format_round_trip(s1, c1);
    lemma_format_round_trip(s2, c2);
}

/// The native image-view type for a texture kind and an optional layer
/// selection.  Selecting a layer of a kind without array structure is a
/// layer error, as is a layer at or past the slice count; a selected layer
/// of an array kind views one element of it.
pub open spec fn spec_map_image_view_type(kind: Kind, layer: Option<u16>) -> Result<u32, LayerError> {
    match kind {
        Kind::D1(_) => match layer {
            None => Ok(IMAGE_VIEW_TYPE_1D),
            Some(_) => Err(LayerError::NotExpected(kind)),
        },
        Kind::D1Array(_, n) => match layer {
            None => Ok(IMAGE_VIEW_TYPE_1D_ARRAY),
            Some(l) => if l < n {
                Ok(IMAGE_VIEW_TYPE_1D)
            } else {
                Err(LayerError::OutOfBounds(l, n))
            },
        },
        Kind::D2(_, _, _) => match layer {
            None => Ok(IMAGE_VIEW_TYPE_2D),
            Some(_) => Err(LayerError::NotExpected(kind)),
        },
        Kind::D2Array(_, _, n, _) => match layer {
            None => Ok(IMAGE_VIEW_TYPE_2D_ARRAY),
            Some(l) => if l < n {
                Ok(IMAGE_VIEW_TYPE_2D)
            } else {
                Err(LayerError::OutOfBounds(l, n))
            },
        },
        Kind::D3(_, _, _) => match layer {
            None => Ok(IMAGE_VIEW_TYPE_3D),
            Some(_) => Err(LayerError::NotExpected(kind)),
        },
        Kind::Cube(_) => match layer {
            None => Ok(IMAGE_VIEW_TYPE_CUBE),
            Some(l) => if l < 6 {
                Ok(IMAGE_VIEW_TYPE_2D)
            } else {
                Err(LayerError::OutOfBounds(l, 6u16))
            },
        },
        Kind::CubeArray(_, n) => match layer {
            None => Ok(IMAGE_VIEW_TYPE_CUBE_ARRAY),
            Some(l) => if l < n {
                Ok(IMAGE_VIEW_TYPE_CUBE)
            } else {
                Err(LayerError::OutOfBounds(l, n))
            },
        },
    }
}

pub fn map_image_view_type(kind: Kind, layer: Option<u16>) -> (r: Result<u32, LayerError>)
    ensures
        r == spec_map_image_view_type(kind, layer),
{
    match kind {
        Kind::D1(_) => match layer {
            None => Ok(IMAGE_VIEW_TYPE_1D),
            Some(_) => Err(LayerError::NotExpected(kind)),
        },
        Kind::D1Array(_, n) => match layer {
            None => Ok(IMAGE_VIEW_TYPE_1D_ARRAY),
            Some(l) => if l < n {
                Ok(IMAGE_VIEW_TYPE_1D)
            } else {
                Err(LayerError::OutOfBounds(l, n))
            },
        },
        Kind::D2(_, _, _) => match layer {
            None => Ok(IMAGE_VIEW_TYPE_2D),
            Some(_) => Err(LayerError::NotExpected(kind)),
        },
        Kind::D2Array(_, _, n, _) => match layer {
            None => Ok(IMAGE_VIEW_TYPE_2D_ARRAY),
            Some(l) => if l < n {
                Ok(IMAGE_VIEW_TYPE_2D)
            } else {
                Err(LayerError::OutOfBounds(l, n))
            },
        },
        Kind::D3(_, _, _) => match layer {
            None => Ok(IMAGE_VIEW_TYPE_3D),
            Some(_) => Err(LayerError::NotExpected(kind)),
        },
        Kind::Cube(_) => match layer {
            None => Ok(IMAGE_VIEW_TYPE_CUBE),
            Some(l) => if l < 6 {
                Ok(IMAGE_VIEW_TYPE_2D)
            } else {
                Err(LayerError::OutOfBounds(l, 6u16))
            },
        },
        Kind::CubeArray(_, n) => match layer {
            None => Ok(IMAGE_VIEW_TYPE_CUBE_ARRAY),
            Some(l) => if l < n {
                Ok(IMAGE_VIEW_TYPE_CUBE)
            } else {
                Err(LayerError::OutOfBounds(l, n))
            },
        },
    }
}

/// The native image type of a texture kind.
pub open spec fn spec_map_image_type(kind: Kind) -> u32 {
    match kind {
        Kind::D1(_) | Kind::D1Array(_, _) => IMAGE_TYPE_1D,
        Kind::D2(_, _, _) | Kind::D2Array(_, _, _, _) => IMAGE_TYPE_2D,
        Kind::Cube(_) | Kind::CubeArray(_, _) => IMAGE_TYPE_2D,
        Kind::D3(_, _, _) => IMAGE_TYPE_3D,
    }
}

pub fn map_image_type(kind: Kind) -> (r: u32)
    ensures
        r == spec_map_image_type(kind),
{
    match kind {
        Kind::D1(_) | Kind::D1Array(_, _) => IMAGE_TYPE_1D,
        Kind::D2(_, _, _) | Kind::D2Array(_, _, _, _) => IMAGE_TYPE_2D,
        Kind::Cube(_) | Kind::CubeArray(_, _) => IMAGE_TYPE_2D,
        Kind::D3(_, _, _) => IMAGE_TYPE_3D,
    }
}

/// The native source a view channel selects.
pub open spec fn spec_map_channel_source(source: ChannelSource) -> u32 {
    match source {
        ChannelSource::X => COMPONENT_SWIZZLE_R,
        ChannelSource::Y => COMPONENT_SWIZZLE_G,
        ChannelSource::Z => COMPONENT_SWIZZLE_B,
        ChannelSource::W => COMPONENT_SWIZZLE_A,
    }
}

/// The native component mapping of a view swizzle.
pub open spec fn spec_map_swizzle(swizzle: Swizzle) -> ComponentMapping {
    ComponentMapping {
        r: spec_map_channel_source(swizzle.0),
        g: spec_map_channel_source(swizzle.1),
        b: spec_map_channel_source(swizzle.2),
        a: spec_map_channel_source(swizzle.3),
    }
}

pub fn map_swizzle(swizzle: Swizzle) -> (r: ComponentMapping)
    ensures
        r == spec_map_swizzle(swizzle),
{
    let sources: [u32; 4] = [
        map_channel_source(swizzle.0),
        map_channel_source(swizzle.1),
        map_channel_source(swizzle.2),
        map_channel_source(swizzle.3),
    ];
    ComponentMapping { r: sources[0], g: sources[1], b: sources[2], a: sources[3] }
}

fn map_channel_source(source: ChannelSource) -> (r: u32)
    ensures
        r == spec_map_channel_source(source),
{
    match source {
        ChannelSource::X => COMPONENT_SWIZZLE_R,
        ChannelSource::Y => COMPONENT_SWIZZLE_G,
        ChannelSource::Z => COMPONENT_SWIZZLE_B,
        ChannelSource::W => COMPONENT_SWIZZLE_A,
    }
}

/// The aspect planes a view of the given surface addresses: the depth bit,
/// plus the stencil bit where the surface has a stencil plane, for depth
/// surfaces; the color bit for every other surface.  The channel hint and
/// the render-target flag do not change the planes a surface owns.
pub open spec fn spec_map_image_aspect(
    surface: SurfaceType,
    chan: ChannelType,
    is_target: bool,
) -> u32 {
    if surface.spec_has_depth() {
        if surface.spec_has_stencil() {
            IMAGE_ASPECT_DEPTH_BIT | IMAGE_ASPECT_STENCIL_BIT
        } else {
            IMAGE_ASPECT_DEPTH_BIT
        }
    } else {
        IMAGE_ASPECT_COLOR_BIT
    }
}

pub fn map_image_aspect(surface: SurfaceType, chan: ChannelType, is_target: bool) -> (r: u32)
    ensures
        r == spec_map_image_aspect(surface, chan, is_target),
{
    if surface.has_depth() {
        match surface {
            SurfaceType::D24_S8 => IMAGE_ASPECT_DEPTH_BIT | IMAGE_ASPECT_STENCIL_BIT,
            _ => IMAGE_ASPECT_DEPTH_BIT,
        }
    } else {
        IMAGE_ASPECT_COLOR_BIT
    }
}

/// The native image-usage flags and tiling for a usage class and bind flags:
/// each bind flag contributes its attachment or sampling bit, transfers are
/// always permitted, and host-only resources use linear tiling.
pub open spec fn spec_map_usage_tiling(usage: Usage, bind: Bind) -> (u32, u32) {
    let flags = IMAGE_USAGE_TRANSFER_SRC_BIT | IMAGE_USAGE_TRANSFER_DST_BIT
        | (if bind.shader_resource { IMAGE_USAGE_SAMPLED_BIT } else { 0 })
        | (if bind.render_target { IMAGE_USAGE_COLOR_ATTACHMENT_BIT } else { 0 })
        | (if bind.depth_stencil { IMAGE_USAGE_DEPTH_STENCIL_ATTACHMENT_BIT } else { 0 })
        | (if bind.unordered_access { IMAGE_USAGE_STORAGE_BIT } else { 0 });
    let tiling = if usage.is_cpu_only() { IMAGE_TILING_LINEAR } else { IMAGE_TILING_OPTIMAL };
    (flags, tiling)
}

pub fn map_usage_tiling(usage: Usage, bind: Bind) -> (r: (u32, u32))
    ensures
        r == spec_map_usage_tiling(usage, bind),
{
    let flags: u32 = IMAGE_USAGE_TRANSFER_SRC_BIT | IMAGE_USAGE_TRANSFER_DST_BIT
        | (if bind.shader_resource { IMAGE_USAGE_SAMPLED_BIT } else { 0 })
        | (if bind.render_target { IMAGE_USAGE_COLOR_ATTACHMENT_BIT } else { 0 })
        | (if bind.depth_stencil { IMAGE_USAGE_DEPTH_STENCIL_ATTACHMENT_BIT } else { 0 })
        | (if bind.unordered_access { IMAGE_USAGE_STORAGE_BIT } else { 0 });
    let tiling: u32 = match usage {
        Usage::CpuOnly(_) => IMAGE_TILING_LINEAR,
        _ => IMAGE_TILING_OPTIMAL,
    };
    (flags, tiling)
}

/// The native buffer-usage flags for a buffer role, usage class and bind
/// flags: the role contributes its binding bit, transfers are always
/// permitted, and unordered access adds the storage bit.
pub open spec fn spec_map_buffer_usage(role: BufferRole, bind: Bind) -> u32 {
    BUFFER_USAGE_TRANSFER_SRC_BIT | BUFFER_USAGE_TRANSFER_DST_BIT
        | (match role {
            BufferRole::Vertex => BUFFER_USAGE_VERTEX_BUFFER_BIT,
            BufferRole::Index => BUFFER_USAGE_INDEX_BUFFER_BIT,
            BufferRole::Uniform => BUFFER_USAGE_UNIFORM_BUFFER_BIT,
        })
        | (if bind.unordered_access { BUFFER_USAGE_STORAGE_BUFFER_BIT } else { 0 })
}

pub fn map_buffer_usage(role: BufferRole, bind: Bind) -> (r: u32)
    ensures
        r == spec_map_buffer_usage(role, bind),
{
    BUFFER_USAGE_TRANSFER_SRC_BIT | BUFFER_USAGE_TRANSFER_DST_BIT
        | (match role {
            BufferRole::Vertex => BUFFER_USAGE_VERTEX_BUFFER_BIT,
            BufferRole::Index => BUFFER_USAGE_INDEX_BUFFER_BIT,
            BufferRole::Uniform => BUFFER_USAGE_UNIFORM_BUFFER_BIT,
        })
        | (if bind.unordered_access { BUFFER_USAGE_STORAGE_BUFFER_BIT } else { 0 })
}

/// The initial image layout a texture's bind flags imply.
pub open spec fn spec_map_image_layout(bind: Bind) -> u32 {
    if bind.render_target {
        IMAGE_LAYOUT_COLOR_ATTACHMENT_OPTIMAL
    } else if bind.depth_stencil {
        IMAGE_LAYOUT_DEPTH_STENCIL_ATTACHMENT_OPTIMAL
    } else if bind.shader_resource {
        IMAGE_LAYOUT_SHADER_READ_ONLY_OPTIMAL
    } else {
        IMAGE_LAYOUT_GENERAL
    }
}

pub fn map_image_layout(bind: Bind) -> (r: u32)
    ensures
        r == spec_map_image_layout(bind),
{
    if bind.render_target {
        IMAGE_LAYOUT_COLOR_ATTACHMENT_OPTIMAL
    } else if bind.depth_stencil {
        IMAGE_LAYOUT_DEPTH_STENCIL_ATTACHMENT_OPTIMAL
    } else if bind.shader_resource {
        IMAGE_LAYOUT_SHADER_READ_ONLY_OPTIMAL
    } else {
        IMAGE_LAYOUT_GENERAL
    }
}

/// The native shader-stage mask of a binding slot's stage visibility.
pub open spec fn spec_map_stage(usage: StageUsage) -> u32 {
    (if usage.vertex { SHADER_STAGE_VERTEX_BIT } else { 0 })
        | (if usage.geometry { SHADER_STAGE_GEOMETRY_BIT } else { 0 })
        | (if usage.pixel { SHADER_STAGE_FRAGMENT_BIT } else { 0 })
}

pub fn map_stage(usage: StageUsage) -> (r: u32)
    ensures
        r == spec_map_stage(usage),
{
    (if usage.vertex { SHADER_STAGE_VERTEX_BIT } else { 0 })
        | (if usage.geometry { SHADER_STAGE_GEOMETRY_BIT } else { 0 })
        | (if usage.pixel { SHADER_STAGE_FRAGMENT_BIT } else { 0 })
}

/// The native topology of a primitive type.
pub open spec fn spec_map_topology(primitive: Primitive) -> u32 {
    match primitive {
        Primitive::PointList => PRIMITIVE_TOPOLOGY_POINT_LIST,
        Primitive::LineList => PRIMITIVE_TOPOLOGY_LINE_LIST,
        Primitive::LineStrip => PRIMITIVE_TOPOLOGY_LINE_STRIP,
        Primitive::TriangleList => PRIMITIVE_TOPOLOGY_TRIANGLE_LIST,
        Primitive::TriangleStrip => PRIMITIVE_TOPOLOGY_TRIANGLE_STRIP,
    }
}

pub fn map_topology(primitive: Primitive) -> (r: u32)
    ensures
        r == spec_map_topology(primitive),
{
    match primitive {
        Primitive::PointList => PRIMITIVE_TOPOLOGY_POINT_LIST,
        Primitive::LineList => PRIMITIVE_TOPOLOGY_LINE_LIST,
        Primitive::LineStrip => PRIMITIVE_TOPOLOGY_LINE_STRIP,
        Primitive::TriangleList => PRIMITIVE_TOPOLOGY_TRIANGLE_LIST,
        Primitive::TriangleStrip => PRIMITIVE_TOPOLOGY_TRIANGLE_STRIP,
    }
}

/// The native polygon mode and line width of a raster method; filled and
/// point rasterization use width one.
pub open spec fn spec_map_polygon_mode(method: RasterMethod) -> (u32, u32) {
    match method {
        RasterMethod::Point => (POLYGON_MODE_POINT, 1u32),
        RasterMethod::Line(width) => (POLYGON_MODE_LINE, width),
        RasterMethod::Fill => (POLYGON_MODE_FILL, 1u32),
    }
}

pub fn map_polygon_mode(method: RasterMethod) -> (r: (u32, u32))
    ensures
        r == spec_map_polygon_mode(method),
{
    match method {
        RasterMethod::Point => (POLYGON_MODE_POINT, 1u32),
        RasterMethod::Line(width) => (POLYGON_MODE_LINE, width),
        RasterMethod::Fill => (POLYGON_MODE_FILL, 1u32),
    }
}

/// The native cull mode of a cull-face setting.
pub open spec fn spec_map_cull_face(cull: CullFace) -> u32 {
    match cull {
        CullFace::Nothing => CULL_MODE_NONE,
        CullFace::Front => CULL_MODE_FRONT_BIT,
        CullFace::Back => CULL_MODE_BACK_BIT,
    }
}

pub fn map_cull_face(cull: CullFace) -> (r: u32)
    ensures
        r == spec_map_cull_face(cull),
{
    match cull {
        CullFace::Nothing => CULL_MODE_NONE,
        CullFace::Front => CULL_MODE_FRONT_BIT,
        CullFace::Back => CULL_MODE_BACK_BIT,
    }
}

/// The native front-face winding.
pub open spec fn spec_map_front_face(front: FrontFace) -> u32 {
    match front {
        FrontFace::Clockwise => FRONT_FACE_CLOCKWISE,
        FrontFace::CounterClockwise => FRONT_FACE_COUNTER_CLOCKWISE,
    }
}

pub fn map_front_face(front: FrontFace) -> (r: u32)
    ensures
        r == spec_map_front_face(front),
{
    match front {
        FrontFace::Clockwise => FRONT_FACE_CLOCKWISE,
        FrontFace::CounterClockwise => FRONT_FACE_COUNTER_CLOCKWISE,
    }
}

/// The native comparison operation.
pub open spec fn spec_map_comparison(fun: Comparison) -> u32 {
    match fun {
        Comparison::Never => COMPARE_OP_NEVER,
        Comparison::Less => COMPARE_OP_LESS,
        Comparison::LessEqual => COMPARE_OP_LESS_OR_EQUAL,
        Comparison::Equal => COMPARE_OP_EQUAL,
        Comparison::GreaterEqual => COMPARE_OP_GREATER_OR_EQUAL,
        Comparison::Greater => COMPARE_OP_GREATER,
        Comparison::NotEqual => COMPARE_OP_NOT_EQUAL,
        Comparison::Always => COMPARE_OP_ALWAYS,
    }
}

pub fn map_comparison(fun: Comparison) -> (r: u32)
    ensures
        r == spec_map_comparison(fun),
{
    match fun {
        Comparison::Never => COMPARE_OP_NEVER,
        Comparison::Less => COMPARE_OP_LESS,
        Comparison::LessEqual => COMPARE_OP_LESS_OR_EQUAL,
        Comparison::Equal => COMPARE_OP_EQUAL,
        Comparison::GreaterEqual => COMPARE_OP_GREATER_OR_EQUAL,
        Comparison::Greater => COMPARE_OP_GREATER,
        Comparison::NotEqual => COMPARE_OP_NOT_EQUAL,
        Comparison::Always => COMPARE_OP_ALWAYS,
    }
}

/// The native stencil operation.
pub open spec fn spec_map_stencil_op(op: StencilOp) -> u32 {
    match op {
        StencilOp::Keep => STENCIL_OP_KEEP,
        StencilOp::Zero => STENCIL_OP_ZERO,
        StencilOp::Replace => STENCIL_OP_REPLACE,
        StencilOp::IncrementClamp => STENCIL_OP_INCREMENT_AND_CLAMP,
        StencilOp::IncrementWrap => STENCIL_OP_INCREMENT_AND_WRAP,
        StencilOp::DecrementClamp => STENCIL_OP_DECREMENT_AND_CLAMP,
        StencilOp::DecrementWrap => STENCIL_OP_DECREMENT_AND_WRAP,
        StencilOp::Invert => STENCIL_OP_INVERT,
    }
}

pub fn map_stencil_op(op: StencilOp) -> (r: u32)
    ensures
        r == spec_map_stencil_op(op),
{
    match op {
        StencilOp::Keep => STENCIL_OP_KEEP,
        StencilOp::Zero => STENCIL_OP_ZERO,
        StencilOp::Replace => STENCIL_OP_REPLACE,
        StencilOp::IncrementClamp => STENCIL_OP_INCREMENT_AND_CLAMP,
        StencilOp::IncrementWrap => STENCIL_OP_INCREMENT_AND_WRAP,
        StencilOp::DecrementClamp => STENCIL_OP_DECREMENT_AND_CLAMP,
        StencilOp::DecrementWrap => STENCIL_OP_DECREMENT_AND_WRAP,
        StencilOp::Invert => STENCIL_OP_INVERT,
    }
}

/// The native stencil state of one face; the dynamic reference value starts
/// at zero and is set per draw.
pub open spec fn spec_map_stencil_side(side: StencilSide) -> StencilOpState {
    StencilOpState {
        fail_op: spec_map_stencil_op(side.op_fail),
        pass_op: spec_map_stencil_op(side.op_pass),
        depth_fail_op: spec_map_stencil_op(side.op_depth_fail),
        compare_op: spec_map_comparison(side.fun),
        compare_mask: side.mask_read as u32,
        write_mask: side.mask_write as u32,
        reference: 0,
    }
}

pub fn map_stencil_side(side: &StencilSide) -> (r: StencilOpState)
    ensures
        r == spec_map_stencil_side(*side),
{
    StencilOpState {
        fail_op: map_stencil_op(side.op_fail),
        pass_op: map_stencil_op(side.op_pass),
        depth_fail_op: map_stencil_op(side.op_depth_fail),
        compare_op: map_comparison(side.fun),
        compare_mask: side.mask_read as u32,
        write_mask: side.mask_write as u32,
        reference: 0,
    }
}

/// The native blend factor.
pub open spec fn spec_map_blend_factor(factor: Factor) -> u32 {
    match factor {
        Factor::Zero => BLEND_FACTOR_ZERO,
        Factor::One => BLEND_FACTOR_ONE,
        Factor::SourceAlphaSaturated => BLEND_FACTOR_SRC_ALPHA_SATURATE,
        Factor::ZeroPlus(BlendValue::SourceColor) => BLEND_FACTOR_SRC_COLOR,
        Factor::ZeroPlus(BlendValue::SourceAlpha) => BLEND_FACTOR_SRC_ALPHA,
        Factor::ZeroPlus(BlendValue::DestColor) => BLEND_FACTOR_DST_COLOR,
        Factor::ZeroPlus(BlendValue::DestAlpha) => BLEND_FACTOR_DST_ALPHA,
        Factor::ZeroPlus(BlendValue::ConstColor) => BLEND_FACTOR_CONSTANT_COLOR,
        Factor::ZeroPlus(BlendValue::ConstAlpha) => BLEND_FACTOR_CONSTANT_ALPHA,
        Factor::OneMinus(BlendValue::SourceColor) => BLEND_FACTOR_ONE_MINUS_SRC_COLOR,
        Factor::OneMinus(BlendValue::SourceAlpha) => BLEND_FACTOR_ONE_MINUS_SRC_ALPHA,
        Factor::OneMinus(BlendValue::DestColor) => BLEND_FACTOR_ONE_MINUS_DST_COLOR,
        Factor::OneMinus(BlendValue::DestAlpha) => BLEND_FACTOR_ONE_MINUS_DST_ALPHA,
        Factor::OneMinus(BlendValue::ConstColor) => BLEND_FACTOR_ONE_MINUS_CONSTANT_COLOR,
        Factor::OneMinus(BlendValue::ConstAlpha) => BLEND_FACTOR_ONE_MINUS_CONSTANT_ALPHA,
    }
}

pub fn map_blend_factor(factor: Factor) -> (r: u32)
    ensures
        r == spec_map_blend_factor(factor),
{
    match factor {
        Factor::Zero => BLEND_FACTOR_ZERO,
        Factor::One => BLEND_FACTOR_ONE,
        Factor::SourceAlphaSaturated => BLEND_FACTOR_SRC_ALPHA_SATURATE,
        Factor::ZeroPlus(BlendValue::SourceColor) => BLEND_FACTOR_SRC_COLOR,
        Factor::ZeroPlus(BlendValue::SourceAlpha) => BLEND_FACTOR_SRC_ALPHA,
        Factor::ZeroPlus(BlendValue::DestColor) => BLEND_FACTOR_DST_COLOR,
        Factor::ZeroPlus(BlendValue::DestAlpha) => BLEND_FACTOR_DST_ALPHA,
        Factor::ZeroPlus(BlendValue::ConstColor) => BLEND_FACTOR_CONSTANT_COLOR,
        Factor::ZeroPlus(BlendValue::ConstAlpha) => BLEND_FACTOR_CONSTANT_ALPHA,
        Factor::OneMinus(BlendValue::SourceColor) => BLEND_FACTOR_ONE_MINUS_SRC_COLOR,
        Factor::OneMinus(BlendValue::SourceAlpha) => BLEND_FACTOR_ONE_MINUS_SRC_ALPHA,
        Factor::OneMinus(BlendValue::DestColor) => BLEND_FACTOR_ONE_MINUS_DST_COLOR,
        Factor::OneMinus(BlendValue::DestAlpha) => BLEND_FACTOR_ONE_MINUS_DST_ALPHA,
        Factor::OneMinus(BlendValue::ConstColor) => BLEND_FACTOR_ONE_MINUS_CONSTANT_COLOR,
        Factor::OneMinus(BlendValue::ConstAlpha) => BLEND_FACTOR_ONE_MINUS_CONSTANT_ALPHA,
    }
}

/// The native blend equation.
pub open spec fn spec_map_blend_op(equation: Equation) -> u32 {
    match equation {
        Equation::Add => BLEND_OP_ADD,
        Equation::Sub => BLEND_OP_SUBTRACT,
        Equation::RevSub => BLEND_OP_REVERSE_SUBTRACT,
        Equation::Min => BLEND_OP_MIN,
        Equation::Max => BLEND_OP_MAX,
    }
}

pub fn map_blend_op(equation: Equation) -> (r: u32)
    ensures
        r == spec_map_blend_op(equation),
{
    match equation {
        Equation::Add => BLEND_OP_ADD,
        Equation::Sub => BLEND_OP_SUBTRACT,
        Equation::RevSub => BLEND_OP_REVERSE_SUBTRACT,
        Equation::Min => BLEND_OP_MIN,
        Equation::Max => BLEND_OP_MAX,
    }
}

/// The native color write mask.
pub open spec fn spec_map_color_mask(mask: ColorMask) -> u32 {
    (if mask.red { COLOR_COMPONENT_R_BIT } else { 0 })
        | (if mask.green { COLOR_COMPONENT_G_BIT } else { 0 })
        | (if mask.blue { COLOR_COMPONENT_B_BIT } else { 0 })
        | (if mask.alpha { COLOR_COMPONENT_A_BIT } else { 0 })
}

pub fn map_color_mask(mask: ColorMask) -> (r: u32)
    ensures
        r == spec_map_color_mask(mask),
{
    (if mask.red { COLOR_COMPONENT_R_BIT } else { 0 })
        | (if mask.green { COLOR_COMPONENT_G_BIT } else { 0 })
        | (if mask.blue { COLOR_COMPONENT_B_BIT } else { 0 })
        | (if mask.alpha { COLOR_COMPONENT_A_BIT } else { 0 })
}

/// The blending of one channel group, or the inert pass-through
/// (source times one, plus destination times zero) where none is described.
pub open spec fn spec_map_blend_channel(channel: Option<crate::descriptors::BlendChannel>) -> (
    u32,
    u32,
    u32,
) {
    match channel {
        Some(b) => (
            spec_map_blend_factor(b.source),
            spec_map_blend_factor(b.destination),
            spec_map_blend_op(b.equation),
        ),
        None => (BLEND_FACTOR_ONE, BLEND_FACTOR_ZERO, BLEND_OP_ADD),
    }
}

/// The native per-attachment blend state of one color target: blending is
/// enabled exactly when a color or alpha blend channel is described.
pub open spec fn spec_map_blend(info: ColorInfo) -> PipelineColorBlendAttachmentState {
    let color = spec_map_blend_channel(info.color);
    let alpha = spec_map_blend_channel(info.alpha);
    PipelineColorBlendAttachmentState {
        blend_enable: if info.color is Some || info.alpha is Some {
            BOOL32_TRUE
        } else {
            BOOL32_FALSE
        },
        src_color_blend_factor: color.0,
        dst_color_blend_factor: color.1,
        color_blend_op: color.2,
        src_alpha_blend_factor: alpha.0,
        dst_alpha_blend_factor: alpha.1,
        alpha_blend_op: alpha.2,
        color_write_mask: spec_map_color_mask(info.mask),
    }
}

pub fn map_blend(info: &ColorInfo) -> (r: PipelineColorBlendAttachmentState)
    ensures
        r == spec_map_blend(*info),
{
    let (src_color, dst_color, color_op): (u32, u32, u32) = match info.color {
        Some(b) => (map_blend_factor(b.source), map_blend_factor(b.destination), map_blend_op(
            b.equation,
        )),
        None => (BLEND_FACTOR_ONE, BLEND_FACTOR_ZERO, BLEND_OP_ADD),
    };
    let (src_alpha, dst_alpha, alpha_op): (u32, u32, u32) = match info.alpha {
        Some(b) => (map_blend_factor(b.source), map_blend_factor(b.destination), map_blend_op(
            b.equation,
        )),
        None => (BLEND_FACTOR_ONE, BLEND_FACTOR_ZERO, BLEND_OP_ADD),
    };
    let enable: u32 = match (info.color, info.alpha) {
        (None, None) => BOOL32_FALSE,
        _ => BOOL32_TRUE,
    };
    PipelineColorBlendAttachmentState {
        blend_enable: enable,
        src_color_blend_factor: src_color,
        dst_color_blend_factor: dst_color,
        color_blend_op: color_op,
        src_alpha_blend_factor: src_alpha,
        dst_alpha_blend_factor: dst_alpha,
        alpha_blend_op: alpha_op,
        color_write_mask: map_color_mask(info.mask),
    }
}

/// The minification, magnification and mipmap filters plus the anisotropy
/// level of a filter method; anisotropy is zero for every non-anisotropic
/// method.
pub open spec fn spec_map_filter(filter: FilterMethod) -> (u32, u32, u32, u8) {
    match filter {
        FilterMethod::Scale => (FILTER_NEAREST, FILTER_NEAREST, SAMPLER_MIPMAP_MODE_NEAREST, 0u8),
        FilterMethod::Mipmap => (FILTER_NEAREST, FILTER_NEAREST, SAMPLER_MIPMAP_MODE_LINEAR, 0u8),
        FilterMethod::Bilinear => (FILTER_LINEAR, FILTER_LINEAR, SAMPLER_MIPMAP_MODE_NEAREST, 0u8),
        FilterMethod::Trilinear => (FILTER_LINEAR, FILTER_LINEAR, SAMPLER_MIPMAP_MODE_LINEAR, 0u8),
        FilterMethod::Anisotropic(level) => (
            FILTER_LINEAR,
            FILTER_LINEAR,
            SAMPLER_MIPMAP_MODE_LINEAR,
            level,
        ),
    }
}

pub fn map_filter(filter: FilterMethod) -> (r: (u32, u32, u32, u8))
    ensures
        r == spec_map_filter(filter),
{
    match filter {
        FilterMethod::Scale => (FILTER_NEAREST, FILTER_NEAREST, SAMPLER_MIPMAP_MODE_NEAREST, 0u8),
        FilterMethod::Mipmap => (FILTER_NEAREST, FILTER_NEAREST, SAMPLER_MIPMAP_MODE_LINEAR, 0u8),
        FilterMethod::Bilinear => (FILTER_LINEAR, FILTER_LINEAR, SAMPLER_MIPMAP_MODE_NEAREST, 0u8),
        FilterMethod::Trilinear => (FILTER_LINEAR, FILTER_LINEAR, SAMPLER_MIPMAP_MODE_LINEAR, 0u8),
        FilterMethod::Anisotropic(level) => (
            FILTER_LINEAR,
            FILTER_LINEAR,
            SAMPLER_MIPMAP_MODE_LINEAR,
            level,
        ),
    }
}

/// The native address mode of a wrap mode.
pub open spec fn spec_map_wrap(wrap: WrapMode) -> u32 {
    match wrap {
        WrapMode::Tile => SAMPLER_ADDRESS_MODE_REPEAT,
        WrapMode::Mirror => SAMPLER_ADDRESS_MODE_MIRRORED_REPEAT,
        WrapMode::Clamp => SAMPLER_ADDRESS_MODE_CLAMP_TO_EDGE,
        WrapMode::Border => SAMPLER_ADDRESS_MODE_CLAMP_TO_BORDER,
    }
}

pub fn map_wrap(wrap: WrapMode) -> (r: u32)
    ensures
        r == spec_map_wrap(wrap),
{
    match wrap {
        WrapMode::Tile => SAMPLER_ADDRESS_MODE_REPEAT,
        WrapMode::Mirror => SAMPLER_ADDRESS_MODE_MIRRORED_REPEAT,
        WrapMode::Clamp => SAMPLER_ADDRESS_MODE_CLAMP_TO_EDGE,
        WrapMode::Border => SAMPLER_ADDRESS_MODE_CLAMP_TO_BORDER,
    }
}

/// The native border color of a packed color, where one exists: only
/// transparent black, opaque black and opaque white have native equivalents.
pub open spec fn spec_map_border_color(color: PackedColor) -> Option<u32> {
    if color.0 == 0x0 {
        Some(BORDER_COLOR_FLOAT_TRANSPARENT_BLACK)
    } else if color.0 == 0xFF00_0000u32 {
        Some(BORDER_COLOR_FLOAT_OPAQUE_BLACK)
    } else if color.0 == 0xFFFF_FFFFu32 {
        Some(BORDER_COLOR_FLOAT_OPAQUE_WHITE)
    } else {
        None
    }
}

pub fn map_border_color(color: PackedColor) -> (r: Option<u32>)
    ensures
        r == spec_map_border_color(color),
{
    if color.0 == 0x0 {
        Some(BORDER_COLOR_FLOAT_TRANSPARENT_BLACK)
    } else if color.0 == 0xFF00_0000u32 {
        Some(BORDER_COLOR_FLOAT_OPAQUE_BLACK)
    } else if color.0 == 0xFFFF_FFFFu32 {
        Some(BORDER_COLOR_FLOAT_OPAQUE_WHITE)
    } else {
        None
    }
}

} // verus!
