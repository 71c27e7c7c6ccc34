use vulkan_factory::descriptors::{
    ChannelType, ColorInfo, ColorMask, Comparison, CreationError, CullFace, Depth,
    DepthStencilInfo, Format, FrontFace, Primitive, RasterMethod, Rasterizer, ShaderStage,
    StageUsage, SurfaceType, VertexBufferDesc,
};
use vulkan_factory::factory::{Factory, ShaderSet};
use vulkan_factory::handle::Handle;

fn empty_descriptor() -> vulkan_factory::descriptors::PipelineDescriptor {
    vulkan_factory::descriptors::PipelineDescriptor {
        primitive: Primitive::TriangleList,
        rasterizer: Rasterizer {
            front_face: FrontFace::Clockwise,
            cull_face: CullFace::Back,
            method: RasterMethod::Fill,
            offset: None,
        },
        constant_buffers: Vec::new(),
        resource_views: Vec::new(),
        unordered_views: Vec::new(),
        samplers: Vec::new(),
        vertex_buffers: Vec::new(),
        attributes: Vec::new(),
        color_targets: Vec::new(),
        depth_stencil: None,
    }
}

fn opaque_target() -> Option<(Format, ColorInfo)> {
    Some((
        Format(SurfaceType::R8_G8_B8_A8, ChannelType::Unorm),
        ColorInfo {
            mask: ColorMask { red: true, green: true, blue: true, alpha: true },
            color: None,
            alpha: None,
        },
    ))
}

fn simple_program(f: &mut Factory) -> Handle {
    let code = vec![0u8; 8];
    let vs = f.create_shader(ShaderStage::Vertex, &code).unwrap();
    let ps = f.create_shader(ShaderStage::Pixel, &code).unwrap();
    f.create_program(&ShaderSet::Simple(vs, ps)).unwrap()
}

#[test]
fn two_color_targets_and_no_depth_stencil() {
    // A pipeline with two color targets and no depth/stencil target: a
    // render pass with exactly two color attachments, zero depth-stencil
    // attachments, and depth testing disabled.
    let mut f = Factory::new(0, 1, 2);
    let program = simple_program(&mut f);
    let mut desc = empty_descriptor();
    desc.color_targets.push(opaque_target());
    desc.color_targets.push(opaque_target());
    let h = f.create_pipeline_state_raw(program, &desc).unwrap();
    let rec = f.pipelines.resolve(h).unwrap();
    let pass = &f.render_passes[rec.render_pass as usize];
    assert_eq!(pass.attachments.len(), 2);
    assert_eq!(pass.subpasses.len(), 1);
    assert_eq!(pass.subpasses[0].color_attachments.len(), 2);
    assert!(pass.subpasses[0].depth_stencil_attachment.is_none());
    assert_eq!(pass.dependency_count, 0);
    let pso = &f.graphics_pipelines[rec.pipeline as usize];
    assert_eq!(pso.depth_stencil.depth_test_enable, 0);
    // Attachments always load then store, never clear, at one sample.
    for a in pass.attachments.iter() {
        assert_eq!(a.load_op, 0);
        assert_eq!(a.store_op, 0);
        assert_eq!(a.samples, 1);
        assert_eq!(a.format, 37);
    }
    // The subpass references the attachments in order.
    assert_eq!(pass.subpasses[0].color_attachments[0].attachment, 0);
    assert_eq!(pass.subpasses[0].color_attachments[1].attachment, 1);
}

#[test]
fn binding_indices_equal_slot_indices() {
    // Populated binding slots keep their own index; gaps are not compacted.
    let mut f = Factory::new(0, 1, 2);
    let program = simple_program(&mut f);
    let mut desc = empty_descriptor();
    let vs_only = StageUsage { vertex: true, geometry: false, pixel: false };
    let ps_only = StageUsage { vertex: false, geometry: false, pixel: true };
    desc.constant_buffers.push(None);
    desc.constant_buffers.push(Some(vs_only));
    desc.samplers.push(Some(ps_only));
    desc.color_targets.push(opaque_target());
    let h = f.create_pipeline_state_raw(program, &desc).unwrap();
    let rec = f.pipelines.resolve(h).unwrap();
    let layout = &f.set_layouts[rec.desc_layout as usize];
    assert_eq!(layout.bindings.len(), 2);
    // The populated constant-buffer slot sits at index 1 and stays binding 1.
    assert_eq!(layout.bindings[0].binding, 1);
    assert_eq!(layout.bindings[0].descriptor_type, 6); // uniform buffer
    assert_eq!(layout.bindings[0].descriptor_count, 1);
    assert_eq!(layout.bindings[0].stage_flags, 0x1);
    // The sampler slot at index 0 stays binding 0, with its own type.
    assert_eq!(layout.bindings[1].binding, 0);
    assert_eq!(layout.bindings[1].descriptor_type, 0); // sampler
    assert_eq!(layout.bindings[1].stage_flags, 0x10);
    // One set layout, no push constants, the fixed pool capacity.
    let pl = &f.pipe_layouts[rec.pipe_layout as usize];
    assert_eq!(pl.set_layouts, vec![rec.desc_layout]);
    assert_eq!(pl.push_constant_range_count, 0);
    assert_eq!(f.desc_pools[rec.desc_pool as usize].max_sets, 100);
}

#[test]
fn unresolved_color_format_aborts_pipeline_creation() {
    let mut f = Factory::new(0, 1, 2);
    let program = simple_program(&mut f);
    let mut desc = empty_descriptor();
    desc.color_targets.push(Some((
        Format(SurfaceType::D16, ChannelType::Float), // unsupported pair
        ColorInfo {
            mask: ColorMask { red: true, green: true, blue: true, alpha: true },
            color: None,
            alpha: None,
        },
    )));
    let layouts_before = f.set_layouts.len();
    let passes_before = f.render_passes.len();
    assert_eq!(f.create_pipeline_state_raw(program, &desc), Err(CreationError));
    // Nothing was created or registered.
    assert_eq!(f.set_layouts.len(), layouts_before);
    assert_eq!(f.render_passes.len(), passes_before);
    assert_eq!(f.graphics_pipelines.len(), 0);
}

#[test]
fn unresolved_depth_stencil_format_aborts_pipeline_creation() {
    let mut f = Factory::new(0, 1, 2);
    let program = simple_program(&mut f);
    let mut desc = empty_descriptor();
    desc.color_targets.push(opaque_target());
    desc.depth_stencil = Some((
        Format(SurfaceType::D24_S8, ChannelType::Float), // unsupported pair
        DepthStencilInfo { depth: None, front: None, back: None },
    ));
    assert_eq!(f.create_pipeline_state_raw(program, &desc), Err(CreationError));
    assert_eq!(f.render_passes.len(), 0);
}

#[test]
fn unresolved_attribute_format_aborts_pipeline_creation() {
    let mut f = Factory::new(0, 1, 2);
    let program = simple_program(&mut f);
    let mut desc = empty_descriptor();
    desc.color_targets.push(opaque_target());
    desc.attributes.push(Some(vulkan_factory::descriptors::AttributeDesc(
        0,
        vulkan_factory::descriptors::Element {
            format: Format(SurfaceType::R8, ChannelType::Float), // unsupported pair
            offset: 0,
        },
    )));
    assert_eq!(f.create_pipeline_state_raw(program, &desc), Err(CreationError));
    assert_eq!(f.graphics_pipelines.len(), 0);
}

#[test]
fn descriptor_pool_capacity_is_configurable() {
    let mut f = Factory::new(0, 1, 2);
    f.set_descriptor_pool_capacity(17);
    let program = simple_program(&mut f);
    let mut desc = empty_descriptor();
    desc.color_targets.push(opaque_target());
    let h = f.create_pipeline_state_raw(program, &desc).unwrap();
    let rec = f.pipelines.resolve(h).unwrap();
    assert_eq!(f.desc_pools[rec.desc_pool as usize].max_sets, 17);
}

#[test]
fn depth_stencil_target_enables_the_depth_test() {
    let mut f = Factory::new(0, 1, 2);
    let program = simple_program(&mut f);
    let mut desc = empty_descriptor();
    desc.color_targets.push(opaque_target());
    desc.depth_stencil = Some((
        Format(SurfaceType::D24_S8, ChannelType::Unorm),
        DepthStencilInfo {
            depth: Some(Depth { fun: Comparison::LessEqual, write: true }),
            front: None,
            back: None,
        },
    ));
    let h = f.create_pipeline_state_raw(program, &desc).unwrap();
    let rec = f.pipelines.resolve(h).unwrap();
    let pass = &f.render_passes[rec.render_pass as usize];
    assert_eq!(pass.attachments.len(), 2); // one color, one depth-stencil
    let ds_ref = pass.subpasses[0].depth_stencil_attachment.unwrap();
    assert_eq!(ds_ref.attachment, 1);
    // The depth-stencil attachment loads and stores both planes.
    assert_eq!(pass.attachments[1].stencil_load_op, 0);
    assert_eq!(pass.attachments[1].stencil_store_op, 0);
    let pso = &f.graphics_pipelines[rec.pipeline as usize];
    assert_eq!(pso.depth_stencil.depth_test_enable, 1);
    assert_eq!(pso.depth_stencil.depth_write_enable, 1);
    assert_eq!(pso.depth_stencil.depth_compare_op, 3); // less-or-equal
    assert_eq!(pso.depth_stencil.stencil_test_enable, 0);
}

#[test]
fn stage_records_follow_the_program_shape() {
    let mut f = Factory::new(0, 1, 2);
    let code = vec![0u8; 4];
    let vs = f.create_shader(ShaderStage::Vertex, &code).unwrap();
    let gs = f.create_shader(ShaderStage::Geometry, &code).unwrap();
    let ps = f.create_shader(ShaderStage::Pixel, &code).unwrap();
    let program = f.create_program(&ShaderSet::Geometry(vs, gs, ps)).unwrap();
    let stages = f.get_shader_stages(program);
    assert_eq!(stages.len(), 3);
    assert_eq!(stages[0].stage, 0x1);
    assert_eq!(stages[1].stage, 0x8);
    assert_eq!(stages[2].stage, 0x10);
    let simple = f.create_program(&ShaderSet::Simple(vs, ps)).unwrap();
    assert_eq!(f.get_shader_stages(simple).len(), 2);
}

#[test]
fn vertex_input_state_follows_the_slots() {
    let mut f = Factory::new(0, 1, 2);
    let program = simple_program(&mut f);
    let mut desc = empty_descriptor();
    desc.color_targets.push(opaque_target());
    desc.vertex_buffers.push(Some(VertexBufferDesc { stride: 24, rate: 0 }));
    desc.vertex_buffers.push(None);
    desc.vertex_buffers.push(Some(VertexBufferDesc { stride: 8, rate: 1 }));
    desc.attributes.push(Some(vulkan_factory::descriptors::AttributeDesc(
        0,
        vulkan_factory::descriptors::Element {
            format: Format(SurfaceType::R32_G32_B32, ChannelType::Float),
            offset: 12,
        },
    )));
    let h = f.create_pipeline_state_raw(program, &desc).unwrap();
    let rec = f.pipelines.resolve(h).unwrap();
    let pso = &f.graphics_pipelines[rec.pipeline as usize];
    assert_eq!(pso.vertex_bindings.len(), 2);
    assert_eq!(pso.vertex_bindings[0].binding, 0);
    assert_eq!(pso.vertex_bindings[0].stride, 24);
    assert_eq!(pso.vertex_bindings[0].input_rate, 0);
    assert_eq!(pso.vertex_bindings[1].binding, 2); // the gap is kept
    assert_eq!(pso.vertex_bindings[1].input_rate, 1);
    assert_eq!(pso.vertex_attributes.len(), 1);
    assert_eq!(pso.vertex_attributes[0].location, 0);
    assert_eq!(pso.vertex_attributes[0].binding, 0);
    assert_eq!(pso.vertex_attributes[0].format, 106); // rgb32 float
    assert_eq!(pso.vertex_attributes[0].offset, 12);
    // Fixed-function constants of every pipeline.
    assert_eq!(pso.topology, 3);
    assert_eq!(pso.primitive_restart_enable, 0);
    assert_eq!(pso.viewport_count, 1);
    assert_eq!(pso.scissor_count, 1);
    assert_eq!(pso.sample_count, 1);
    assert_eq!(pso.dynamic_states, vec![0, 1, 4, 8]);
    assert_eq!(pso.rasterization.cull_mode, 2);
    assert_eq!(pso.rasterization.front_face, 1);
    assert_eq!(pso.rasterization.depth_bias_enable, 0);
}
