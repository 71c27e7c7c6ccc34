//! The fixed-shape creation records of the native driver protocol.  Each
//! record a creation entry point composes is tagged with its structure-type
//! discriminator from [`crate::native`]; the reserved extension pointer the
//! wire protocol carries next to the discriminator is always the null
//! sentinel and is not represented.  Boolean fields use the native 32-bit
//! encoding (`BOOL32_TRUE` / `BOOL32_FALSE`).

use vstd::prelude::*;

verus! {

/// Record creating a command pool.
#[derive(Clone, Copy, Debug, PartialEq, Eq, Structural)]
pub struct CommandPoolCreateInfo {
    pub stype: u32,
    pub flags: u32,
    pub queue_family_index: u32,
}

/// Record creating a fence.
#[derive(Clone, Copy, Debug, PartialEq, Eq, Structural)]
pub struct FenceCreateInfo {
    pub stype: u32,
    pub flags: u32,
}

/// Record creating a buffer; sharing is always exclusive to one queue family.
#[derive(Clone, Copy, Debug, PartialEq, Eq, Structural)]
pub struct BufferCreateInfo {
    pub stype: u32,
    pub flags: u32,
    pub size: u64,
    pub usage: u32,
    pub sharing_mode: u32,
    pub queue_family_index_count: u32,
    pub queue_family_index: u32,
}

/// Record requesting a device-memory allocation.
#[derive(Clone, Copy, Debug, PartialEq, Eq, Structural)]
pub struct MemoryAllocateInfo {
    pub stype: u32,
    pub allocation_size: u64,
    pub memory_type_index: u32,
}

/// The three-dimensional extent of an image.
#[derive(Clone, Copy, Debug, PartialEq, Eq, Structural)]
pub struct Extent3d {
    pub width: u32,
    pub height: u32,
    pub depth: u32,
}

/// Record creating an image.
#[derive(Clone, Copy, Debug, PartialEq, Eq, Structural)]
pub struct ImageCreateInfo {
    pub stype: u32,
    pub flags: u32,
    pub image_type: u32,
    pub format: u32,
    pub extent: Extent3d,
    pub mip_levels: u32,
    pub array_layers: u32,
    pub samples: u32,
    pub tiling: u32,
    pub usage: u32,
    pub sharing_mode: u32,
    pub queue_family_index_count: u32,
    pub initial_layout: u32,
}

/// Per-channel source selection of an image view.
#[derive(Clone, Copy, Debug, PartialEq, Eq, Structural)]
pub struct ComponentMapping {
    pub r: u32,
    pub g: u32,
    pub b: u32,
    pub a: u32,
}

/// The mip-level range, array-layer range and aspect planes a view exposes.
#[derive(Clone, Copy, Debug, PartialEq, Eq, Structural)]
pub struct ImageSubresourceRange {
    pub aspect_mask: u32,
    pub base_mip_level: u32,
    pub level_count: u32,
    pub base_array_layer: u32,
    pub layer_count: u32,
}

/// Record creating an image view.
#[derive(Clone, Copy, Debug, PartialEq, Eq, Structural)]
pub struct ImageViewCreateInfo {
    pub stype: u32,
    pub flags: u32,
    /// Native handle of the viewed image.
    pub image: u64,
    pub view_type: u32,
    pub format: u32,
    pub components: ComponentMapping,
    pub subresource_range: ImageSubresourceRange,
}

/// Record wrapping a pre-compiled shader binary into a module; the record
/// carries the binary verbatim.
#[derive(Clone, Debug, PartialEq, Eq)]
pub struct ShaderModuleCreateInfo {
    pub stype: u32,
    pub flags: u32,
    /// Byte size of the binary; always a multiple of four.
    pub code_size: usize,
    /// The pre-compiled binary itself.
    pub code: Vec<u8>,
}

/// One shader stage of a pipeline; the entry point is the fixed "main"
/// symbol convention and carries no further state.
#[derive(Clone, Copy, Debug, PartialEq, Eq, Structural)]
pub struct PipelineShaderStageCreateInfo {
    pub stype: u32,
    pub flags: u32,
    pub stage: u32,
    /// Native handle of the shader module.
    pub module: u64,
}

/// One binding of a descriptor-set layout.
#[derive(Clone, Copy, Debug, PartialEq, Eq, Structural)]
pub struct DescriptorSetLayoutBinding {
    pub binding: u32,
    pub descriptor_type: u32,
    pub descriptor_count: u32,
    pub stage_flags: u32,
}

/// Record creating a descriptor-set layout.
#[derive(Clone, Debug, PartialEq, Eq)]
pub struct DescriptorSetLayoutCreateInfo {
    pub stype: u32,
    pub flags: u32,
    pub bindings: Vec<DescriptorSetLayoutBinding>,
}

/// Record creating a pipeline layout: one descriptor-set layout, no
/// push-constant ranges.
#[derive(Clone, Debug, PartialEq, Eq)]
pub struct PipelineLayoutCreateInfo {
    pub stype: u32,
    pub flags: u32,
    /// Native handles of the referenced descriptor-set layouts.
    pub set_layouts: Vec<u64>,
    pub push_constant_range_count: u32,
}

/// Record creating a descriptor pool.
#[derive(Clone, Copy, Debug, PartialEq, Eq, Structural)]
pub struct DescriptorPoolCreateInfo {
    pub stype: u32,
    pub flags: u32,
    /// Upper bound on simultaneously allocated descriptor sets.
    pub max_sets: u32,
    pub pool_size_count: u32,
}

/// One attachment of a render pass.
#[derive(Clone, Copy, Debug, PartialEq, Eq, Structural)]
pub struct AttachmentDescription {
    pub flags: u32,
    pub format: u32,
    pub samples: u32,
    pub load_op: u32,
    pub store_op: u32,
    pub stencil_load_op: u32,
    pub stencil_store_op: u32,
    pub initial_layout: u32,
    pub final_layout: u32,
}

/// A reference from a subpass to an attachment, by index.
#[derive(Clone, Copy, Debug, PartialEq, Eq, Structural)]
pub struct AttachmentReference {
    pub attachment: u32,
    pub layout: u32,
}

/// The single subpass of a render pass: all color attachments plus the
/// optional depth-stencil attachment; no input, resolve or preserve
/// attachments.
#[derive(Clone, Debug, PartialEq, Eq)]
pub struct SubpassDescription {
    pub flags: u32,
    pub pipeline_bind_point: u32,
    pub color_attachments: Vec<AttachmentReference>,
    pub depth_stencil_attachment: Option<AttachmentReference>,
}

/// Record creating a render pass: one subpass, no subpass dependencies.
#[derive(Clone, Debug, PartialEq, Eq)]
pub struct RenderPassCreateInfo {
    pub stype: u32,
    pub flags: u32,
    pub attachments: Vec<AttachmentDescription>,
    pub subpasses: Vec<SubpassDescription>,
    pub dependency_count: u32,
}

/// One vertex-buffer binding of the vertex input state.
#[derive(Clone, Copy, Debug, PartialEq, Eq, Structural)]
pub struct VertexInputBindingDescription {
    pub binding: u32,
    pub stride: u32,
    pub input_rate: u32,
}

/// One vertex attribute of the vertex input state.
#[derive(Clone, Copy, Debug, PartialEq, Eq, Structural)]
pub struct VertexInputAttributeDescription {
    pub location: u32,
    pub binding: u32,
    pub format: u32,
    pub offset: u32,
}

/// Fixed-function rasterization state.  Width and bias factors are carried
/// in the units of the abstract descriptor; translation to the driver's
/// floating-point wire encoding happens at the dispatch edge.
#[derive(Clone, Copy, Debug, PartialEq, Eq, Structural)]
pub struct RasterizationState {
    pub depth_clamp_enable: u32,
    pub rasterizer_discard_enable: u32,
    pub polygon_mode: u32,
    pub cull_mode: u32,
    pub front_face: u32,
    pub depth_bias_enable: u32,
    pub depth_bias_constant_factor: i32,
    pub depth_bias_slope_factor: i32,
    pub line_width: u32,
}

/// Stencil state of one face, translated to native values.
#[derive(Clone, Copy, Debug, PartialEq, Eq, Structural)]
pub struct StencilOpState {
    pub fail_op: u32,
    pub pass_op: u32,
    pub depth_fail_op: u32,
    pub compare_op: u32,
    pub compare_mask: u32,
    pub write_mask: u32,
    pub reference: u32,
}

impl StencilOpState {
    /// The inert all-zero state used where a face has no stencil description.
    pub open spec fn spec_zeroed() -> StencilOpState {
        StencilOpState {
            fail_op: 0,
            pass_op: 0,
            depth_fail_op: 0,
            compare_op: 0,
            compare_mask: 0,
            write_mask: 0,
            reference: 0,
        }
    }

    pub fn zeroed() -> (r: StencilOpState)
        ensures
            r == StencilOpState::spec_zeroed(),
    {
        StencilOpState {
            fail_op: 0,
            pass_op: 0,
            depth_fail_op: 0,
            compare_op: 0,
            compare_mask: 0,
            write_mask: 0,
            reference: 0,
        }
    }
}

/// Depth and stencil test state of a pipeline.
#[derive(Clone, Copy, Debug, PartialEq, Eq, Structural)]
pub struct DepthStencilState {
    pub depth_test_enable: u32,
    pub depth_write_enable: u32,
    pub depth_compare_op: u32,
    pub depth_bounds_test_enable: u32,
    pub stencil_test_enable: u32,
    pub front: StencilOpState,
    pub back: StencilOpState,
}

/// Color blend state of one attachment.
#[derive(Clone, Copy, Debug, PartialEq, Eq, Structural)]
pub struct PipelineColorBlendAttachmentState {
    pub blend_enable: u32,
    pub src_color_blend_factor: u32,
    pub dst_color_blend_factor: u32,
    pub color_blend_op: u32,
    pub src_alpha_blend_factor: u32,
    pub dst_alpha_blend_factor: u32,
    pub alpha_blend_op: u32,
    pub color_write_mask: u32,
}

/// Record creating a graphics pipeline, with the fixed-function state
/// composed inline.  The placeholder viewport and scissor extents are
/// configurable at creation; the actual viewport and scissor are dynamic
/// state supplied per draw.
#[derive(Clone, Debug, PartialEq, Eq)]
pub struct GraphicsPipelineCreateInfo {
    pub stype: u32,
    pub flags: u32,
    pub stages: Vec<PipelineShaderStageCreateInfo>,
    pub vertex_bindings: Vec<VertexInputBindingDescription>,
    pub vertex_attributes: Vec<VertexInputAttributeDescription>,
    pub topology: u32,
    pub primitive_restart_enable: u32,
    pub viewport_count: u32,
    pub scissor_count: u32,
    pub rasterization: RasterizationState,
    pub sample_count: u32,
    pub depth_stencil: DepthStencilState,
    pub blend_attachments: Vec<PipelineColorBlendAttachmentState>,
    pub dynamic_states: Vec<u32>,
    /// Native handle of the pipeline layout.
    pub layout: u64,
    /// Native handle of the render pass.
    pub render_pass: u64,
    pub subpass: u32,
}

/// Record creating a sampler.  Level-of-detail fields are carried in the
/// abstract descriptor's signed fixed-point units.
#[derive(Clone, Copy, Debug, PartialEq, Eq, Structural)]
pub struct SamplerCreateInfo {
    pub stype: u32,
    pub flags: u32,
    pub mag_filter: u32,
    pub min_filter: u32,
    pub mipmap_mode: u32,
    pub address_mode_u: u32,
    pub address_mode_v: u32,
    pub address_mode_w: u32,
    pub mip_lod_bias: i16,
    pub anisotropy_enable: u32,
    pub max_anisotropy: u8,
    pub compare_enable: u32,
    pub compare_op: u32,
    pub min_lod: i16,
    pub max_lod: i16,
    pub border_color: u32,
    pub unnormalized_coordinates: u32,
}

} // verus!
