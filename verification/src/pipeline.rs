//! The pure builders of the pipeline-state creation path: descriptor-set
//! layout bindings, render-pass shape, vertex input state, fixed-function
//! state, and the dynamic-state list.  Everything here is a function of the
//! pipeline descriptor alone; the factory composes these records and files
//! them with the model driver.

use vstd::prelude::*;
use crate::descriptors::{
    StageUsage, ColorInfo, Format, VertexBufferDesc, AttributeDesc, CreationError,
    DepthStencilInfo, Rasterizer, PipelineDescriptor,
};
use crate::native::{
    DESCRIPTOR_TYPE_UNIFORM_BUFFER, DESCRIPTOR_TYPE_SAMPLED_IMAGE, DESCRIPTOR_TYPE_STORAGE_IMAGE,
    DESCRIPTOR_TYPE_SAMPLER, ATTACHMENT_LOAD_OP_LOAD, ATTACHMENT_LOAD_OP_DONT_CARE,
    ATTACHMENT_STORE_OP_STORE, ATTACHMENT_STORE_OP_DONT_CARE, SAMPLE_COUNT_1_BIT,
    IMAGE_LAYOUT_GENERAL, PIPELINE_BIND_POINT_GRAPHICS, STRUCTURE_TYPE_RENDER_PASS_CREATE_INFO,
    BOOL32_TRUE, BOOL32_FALSE, COMPARE_OP_NEVER, DYNAMIC_STATE_VIEWPORT, DYNAMIC_STATE_SCISSOR,
    DYNAMIC_STATE_BLEND_CONSTANTS, DYNAMIC_STATE_STENCIL_REFERENCE,
};
use crate::records::{
    DescriptorSetLayoutBinding, AttachmentDescription, AttachmentReference, SubpassDescription,
    RenderPassCreateInfo, VertexInputBindingDescription, VertexInputAttributeDescription,
    PipelineColorBlendAttachmentState, DepthStencilState, StencilOpState, RasterizationState,
};
use crate::translate::{
    spec_map_stage, map_stage, spec_map_format, map_format, spec_map_blend, map_blend,
    spec_map_stencil_side, map_stencil_side, spec_map_comparison, map_comparison,
    spec_map_polygon_mode, map_polygon_mode, spec_map_cull_face, map_cull_face,
    spec_map_front_face, map_front_face,
};

verus! {

/// The descriptor-set layout binding of slot `index` in a category with the
/// fixed descriptor type `dtype`: the binding index is the slot's own array
/// index, and the stage mask is the slot's translated visibility.
pub open spec fn spec_binding(index: int, dtype: u32, usage: StageUsage) -> DescriptorSetLayoutBinding {
    DescriptorSetLayoutBinding {
        binding: index as u32,
        descriptor_type: dtype,
        descriptor_count: 1,
        stage_flags: spec_map_stage(usage),
    }
}

/// The bindings the first `n` slots of one category contribute, in slot
/// order: one binding per populated slot, none for a gap, never renumbered.
pub open spec fn spec_category_bindings(
    slots: Seq<Option<StageUsage>>,
    dtype: u32,
    n: int,
) -> Seq<DescriptorSetLayoutBinding>
    decreases n,
{
    if n <= 0 {
        Seq::empty()
    } else {
        let prefix = spec_category_bindings(slots, dtype, n - 1);
        match slots[n - 1] {
            Some(usage) => prefix.push(spec_binding(n - 1, dtype, usage)),
            None => prefix,
        }
    }
}

/// The whole descriptor-set layout of a pipeline descriptor: the
/// constant-buffer slots as uniform buffers, then the shader-resource slots
/// as sampled images, then the unordered slots as storage images, then the
/// sampler slots, each scanned in index order.
pub open spec fn spec_descriptor_bindings(
    cbs: Seq<Option<StageUsage>>,
    srvs: Seq<Option<StageUsage>>,
    uavs: Seq<Option<StageUsage>>,
    sams: Seq<Option<StageUsage>>,
) -> Seq<DescriptorSetLayoutBinding> {
    spec_category_bindings(cbs, DESCRIPTOR_TYPE_UNIFORM_BUFFER, cbs.len() as int) + spec_category_bindings(
        srvs,
        DESCRIPTOR_TYPE_SAMPLED_IMAGE,
        srvs.len() as int,
    ) + spec_category_bindings(uavs, DESCRIPTOR_TYPE_STORAGE_IMAGE, uavs.len() as int)
        + spec_category_bindings(sams, DESCRIPTOR_TYPE_SAMPLER, sams.len() as int)
}

/// Every populated slot among the first `n` of a category contributes the
/// binding whose index equals the slot's array index.
pub proof fn lemma_category_binding_of_slot(
    slots: Seq<Option<StageUsage>>,
    dtype: u32,
    n: int,
    i: int,
)
    requires
        0 <= i < n,
        slots[i] is Some,
    ensures
        spec_category_bindings(slots, dtype, n).contains(
            spec_binding(i, dtype, slots[i]->Some_0),
        ),
    decreases n,
{
    let whole = spec_category_bindings(slots, dtype, n);
    let prefix = spec_category_bindings(slots, dtype, n - 1);
    if i == n - 1 {
        assert(whole[whole.len() - 1] == spec_binding(i, dtype, slots[i]->Some_0));
    } else {
        lemma_category_binding_of_slot(slots, dtype, n - 1, i);
        let k = choose|k: int|
            0 <= k < prefix.len() && prefix[k] == spec_binding(i, dtype, slots[i]->Some_0);
        assert(whole[k] == spec_binding(i, dtype, slots[i]->Some_0));
    }
}

/// Every binding among the first `n` of a category comes from a populated
/// slot and carries that slot's own index: the layout holds nothing else.
pub proof fn lemma_category_bindings_exact(
    slots: Seq<Option<StageUsage>>,
    dtype: u32,
    n: int,
    k: int,
)
    requires
        0 <= n,
        0 <= k < spec_category_bindings(slots, dtype, n).len(),
    ensures
        exists|i: int|
            0 <= i < n && slots[i] is Some && spec_category_bindings(slots, dtype, n)[k]
                == spec_binding(i, dtype, slots[i]->Some_0),
    decreases n,
{
    let whole = spec_category_bindings(slots, dtype, n);
    let prefix = spec_category_bindings(slots, dtype, n - 1);
    if n > 0 {
        if slots[n - 1] is Some && k == whole.len() - 1 {
            assert(whole[k] == spec_binding(n - 1, dtype, slots[n - 1]->Some_0));
        } else {
            lemma_category_bindings_exact(slots, dtype, n - 1, k);
            assert(whole[k] == prefix[k]);
        }
    }
}

/// For every populated binding slot of a pipeline descriptor, the resulting
/// descriptor-set layout holds the binding whose binding index equals the
/// slot's array index, whose descriptor type is the category's fixed type,
/// and whose stage mask is the slot's translated visibility; unused slots
/// leave gaps and nothing is renumbered or compacted.
pub proof fn lemma_binding_index_equals_slot_index(
    cbs: Seq<Option<StageUsage>>,
    srvs: Seq<Option<StageUsage>>,
    uavs: Seq<Option<StageUsage>>,
    sams: Seq<Option<StageUsage>>,
    i: int,
)
    ensures
        0 <= i < cbs.len() && cbs[i] is Some ==> spec_descriptor_bindings(
            cbs,
            srvs,
            uavs,
            sams,
        ).contains(spec_binding(i, DESCRIPTOR_TYPE_UNIFORM_BUFFER, cbs[i]->Some_0)),
        0 <= i < srvs.len() && srvs[i] is Some ==> spec_descriptor_bindings(
            cbs,
            srvs,
            uavs,
            sams,
        ).contains(spec_binding(i, DESCRIPTOR_TYPE_SAMPLED_IMAGE, srvs[i]->Some_0)),
        0 <= i < uavs.len() && uavs[i] is Some ==> spec_descriptor_bindings(
            cbs,
            srvs,
            uavs,
            sams,
        ).contains(spec_binding(i, DESCRIPTOR_TYPE_STORAGE_IMAGE, uavs[i]->Some_0)),
        0 <= i < sams.len() && sams[i] is Some ==> spec_descriptor_bindings(
            cbs,
            srvs,
            uavs,
            sams,
        ).contains(spec_binding(i, DESCRIPTOR_TYPE_SAMPLER, sams[i]->Some_0)),
{
    let whole = spec_descriptor_bindings(cbs, srvs, uavs, sams);
    let s1 = spec_category_bindings(cbs, DESCRIPTOR_TYPE_UNIFORM_BUFFER, cbs.len() as int);
    let s2 = spec_category_bindings(srvs, DESCRIPTOR_TYPE_SAMPLED_IMAGE, srvs.len() as int);
    let s3 = spec_category_bindings(uavs, DESCRIPTOR_TYPE_STORAGE_IMAGE, uavs.len() as int);
    let s4 = spec_category_bindings(sams, DESCRIPTOR_TYPE_SAMPLER, sams.len() as int);
    if 0 <= i < cbs.len() && cbs[i] is Some {
        lemma_category_binding_of_slot(cbs, DESCRIPTOR_TYPE_UNIFORM_BUFFER, cbs.len() as int, i);
        let k = choose|k: int|
            0 <= k < s1.len() && s1[k] == spec_binding(
                i,
                DESCRIPTOR_TYPE_UNIFORM_BUFFER,
                cbs[i]->Some_0,
            );
        assert(whole[k] == s1[k]);
    }
    if 0 <= i < srvs.len() && srvs[i] is Some {
        lemma_category_binding_of_slot(srvs, DESCRIPTOR_TYPE_SAMPLED_IMAGE, srvs.len() as int, i);
        let k = choose|k: int|
            0 <= k < s2.len() && s2[k] == spec_binding(
                i,
                DESCRIPTOR_TYPE_SAMPLED_IMAGE,
                srvs[i]->Some_0,
            );
        assert(whole[s1.len() + k] == s2[k]);
    }
    if 0 <= i < uavs.len() && uavs[i] is Some {
        lemma_category_binding_of_slot(uavs, DESCRIPTOR_TYPE_STORAGE_IMAGE, uavs.len() as int, i);
        let k = choose|k: int|
            0 <= k < s3.len() && s3[k] == spec_binding(
                i,
                DESCRIPTOR_TYPE_STORAGE_IMAGE,
                uavs[i]->Some_0,
            );
        assert(whole[s1.len() + s2.len() + k] == s3[k]);
    }
    if 0 <= i < sams.len() && sams[i] is Some {
        lemma_category_binding_of_slot(sams, DESCRIPTOR_TYPE_SAMPLER, sams.len() as int, i);
        let k = choose|k: int|
            0 <= k < s4.len() && s4[k] == spec_binding(i, DESCRIPTOR_TYPE_SAMPLER, sams[i]->Some_0);
        assert(whole[s1.len() + s2.len() + s3.len() + k] == s4[k]);
    }
}

/// Appends one category's bindings to the output, scanning the slots in
/// index order.
fn push_category_bindings(
    out: &mut Vec<DescriptorSetLayoutBinding>,
    slots: &Vec<Option<StageUsage>>,
    dtype: u32,
)
    requires
        slots@.len() <= 0xFFFF_FFFF,
    ensures
        final(out)@ == old(out)@ + spec_category_bindings(slots@, dtype, slots@.len() as int),
{
    let n = slots.len();
    let mut i: usize = 0;
    while i < n
        invariant
            i <= n,
            n == slots@.len() <= 0xFFFF_FFFF,
            out@ == old(out)@ + spec_category_bindings(slots@, dtype, i as int),
        decreases n - i,
    {
        match slots[i] {
            Some(usage) => {
                out.push(
                    DescriptorSetLayoutBinding {
                        binding: i as u32,
                        descriptor_type: dtype,
                        descriptor_count: 1,
                        stage_flags: map_stage(usage),
                    },
                );
                proof {
                    assert(out@ =~= old(out)@ + spec_category_bindings(
                        slots@,
                        dtype,
                        i as int + 1,
                    ));
                }
            },
            None => {
                proof {
                    assert(out@ =~= old(out)@ + spec_category_bindings(
                        slots@,
                        dtype,
                        i as int + 1,
                    ));
                }
            },
        }
        i = i + 1;
    }
}

/// Builds the descriptor-set layout bindings of a pipeline descriptor by
/// scanning the constant-buffer, shader-resource, unordered and sampler
/// slots in index order; each populated slot yields one binding whose
/// binding index is the slot's array index.
pub fn build_descriptor_bindings(desc: &PipelineDescriptor) -> (v: Vec<DescriptorSetLayoutBinding>)
    requires
        desc.constant_buffers@.len() <= 0xFFFF_FFFF,
        desc.resource_views@.len() <= 0xFFFF_FFFF,
        desc.unordered_views@.len() <= 0xFFFF_FFFF,
        desc.samplers@.len() <= 0xFFFF_FFFF,
    ensures
        v@ == spec_descriptor_bindings(
            desc.constant_buffers@,
            desc.resource_views@,
            desc.unordered_views@,
            desc.samplers@,
        ),
{
    let mut out: Vec<DescriptorSetLayoutBinding> = Vec::new();
    push_category_bindings(&mut out, &desc.constant_buffers, DESCRIPTOR_TYPE_UNIFORM_BUFFER);
    push_category_bindings(&mut out, &desc.resource_views, DESCRIPTOR_TYPE_SAMPLED_IMAGE);
    push_category_bindings(&mut out, &desc.unordered_views, DESCRIPTOR_TYPE_STORAGE_IMAGE);
    push_category_bindings(&mut out, &desc.samplers, DESCRIPTOR_TYPE_SAMPLER);
    proof {
        assert(out@ =~= spec_descriptor_bindings(
            desc.constant_buffers@,
            desc.resource_views@,
            desc.unordered_views@,
            desc.samplers@,
        ));
    }
    out
}

/// Whether every present color target's format resolves.
pub open spec fn spec_colors_resolvable(targets: Seq<Option<(Format, ColorInfo)>>) -> bool {
    forall|i: int| 0 <= i < targets.len() && targets[i] is Some ==> spec_map_format(
        (#[trigger] targets[i])->Some_0.0.0,
        targets[i]->Some_0.0.1,
    ) is Some
}

/// The native formats of the present color targets among the first `n`
/// slots, in slot order.
pub open spec fn spec_color_formats(targets: Seq<Option<(Format, ColorInfo)>>, n: int) -> Seq<u32>
    decreases n,
{
    if n <= 0 {
        Seq::empty()
    } else {
        let prefix = spec_color_formats(targets, n - 1);
        match targets[n - 1] {
            Some(t) => prefix.push(spec_map_format(t.0.0, t.0.1)->Some_0),
            None => prefix,
        }
    }
}

/// The blend states of the present color targets among the first `n`
/// slots, in slot order.
pub open spec fn spec_blend_states(targets: Seq<Option<(Format, ColorInfo)>>, n: int) -> Seq<
    PipelineColorBlendAttachmentState,
>
    decreases n,
{
    if n <= 0 {
        Seq::empty()
    } else {
        let prefix = spec_blend_states(targets, n - 1);
        match targets[n - 1] {
            Some(t) => prefix.push(spec_map_blend(t.1)),
            None => prefix,
        }
    }
}

/// Resolves the formats and blend states of every present color target, in
/// slot order; fails with the creation error exactly when some present
/// target's format does not resolve.
pub fn resolve_color_targets(targets: &Vec<Option<(Format, ColorInfo)>>) -> (r: Result<
    (Vec<u32>, Vec<PipelineColorBlendAttachmentState>),
    CreationError,
>)
    ensures
        r is Ok <==> spec_colors_resolvable(targets@),
        r is Ok ==> r->Ok_0.0@ == spec_color_formats(targets@, targets@.len() as int)
            && r->Ok_0.1@ == spec_blend_states(targets@, targets@.len() as int)
            && r->Ok_0.0@.len() <= targets@.len(),
        r is Err ==> r == Err::<(Vec<u32>, Vec<PipelineColorBlendAttachmentState>), CreationError>(
            CreationError,
        ),
{
    let n = targets.len();
    let mut formats: Vec<u32> = Vec::new();
    let mut blends: Vec<PipelineColorBlendAttachmentState> = Vec::new();
    let mut i: usize = 0;
    while i < n
        invariant
            i <= n,
            n == targets@.len(),
            formats@ == spec_color_formats(targets@, i as int),
            formats@.len() <= i,
            blends@ == spec_blend_states(targets@, i as int),
            forall|j: int| 0 <= j < i && targets@[j] is Some ==> spec_map_format(
                (#[trigger] targets@[j])->Some_0.0.0,
                targets@[j]->Some_0.0.1,
            ) is Some,
        decreases n - i,
    {
        match &targets[i] {
            Some(t) => {
                let fmt = t.0;
                match map_format(fmt.0, fmt.1) {
                    Some(f) => {
                        formats.push(f);
                        blends.push(map_blend(&t.1));
                    },
                    None => {
                        return Err(CreationError);
                    },
                }
            },
            None => {},
        }
        proof {
            assert(formats@ =~= spec_color_formats(targets@, i as int + 1));
            assert(blends@ =~= spec_blend_states(targets@, i as int + 1));
        }
        i = i + 1;
    }
    Ok((formats, blends))
}

/// A color attachment: load then store, never clear; stencil planes
/// untouched; one sample; kept in the general layout.
pub open spec fn spec_color_attachment(format: u32) -> AttachmentDescription {
    AttachmentDescription {
        flags: 0,
        format,
        samples: SAMPLE_COUNT_1_BIT,
        load_op: ATTACHMENT_LOAD_OP_LOAD,
        store_op: ATTACHMENT_STORE_OP_STORE,
        stencil_load_op: ATTACHMENT_LOAD_OP_DONT_CARE,
        stencil_store_op: ATTACHMENT_STORE_OP_DONT_CARE,
        initial_layout: IMAGE_LAYOUT_GENERAL,
        final_layout: IMAGE_LAYOUT_GENERAL,
    }
}

/// A depth-stencil attachment: load then store for both the depth and the
/// stencil planes, never clear; one sample; kept in the general layout.
pub open spec fn spec_depth_stencil_attachment(format: u32) -> AttachmentDescription {
    AttachmentDescription {
        flags: 0,
        format,
        samples: SAMPLE_COUNT_1_BIT,
        load_op: ATTACHMENT_LOAD_OP_LOAD,
        store_op: ATTACHMENT_STORE_OP_STORE,
        stencil_load_op: ATTACHMENT_LOAD_OP_LOAD,
        stencil_store_op: ATTACHMENT_STORE_OP_STORE,
        initial_layout: IMAGE_LAYOUT_GENERAL,
        final_layout: IMAGE_LAYOUT_GENERAL,
    }
}

/// The attachments of a render pass: one per present color target, then
/// the optional depth-stencil attachment.
pub open spec fn spec_render_pass_attachments(
    color_formats: Seq<u32>,
    ds_format: Option<u32>,
) -> Seq<AttachmentDescription> {
    let colors = Seq::new(color_formats.len(), |i: int| spec_color_attachment(color_formats[i]));
    match ds_format {
        Some(f) => colors.push(spec_depth_stencil_attachment(f)),
        None => colors,
    }
}

/// The subpass color references: attachment `i` for the `i`-th color
/// target, all in the general layout.
pub open spec fn spec_color_refs(n: int) -> Seq<AttachmentReference> {
    Seq::new(n as nat, |i: int| AttachmentReference {
        attachment: i as u32,
        layout: IMAGE_LAYOUT_GENERAL,
    })
}

/// Builds the render pass record: one attachment per present color target
/// plus the optional depth-stencil attachment, exactly one subpass
/// referencing them all, and no subpass dependencies.
pub fn build_render_pass_info(color_formats: &Vec<u32>, ds_format: Option<u32>) -> (r:
    RenderPassCreateInfo)
    requires
        color_formats@.len() <= 0xFFFF_FFFF,
    ensures
        r.stype == STRUCTURE_TYPE_RENDER_PASS_CREATE_INFO,
        r.flags == 0,
        r.attachments@ == spec_render_pass_attachments(color_formats@, ds_format),
        r.subpasses@.len() == 1,
        r.subpasses@[0].flags == 0,
        r.subpasses@[0].pipeline_bind_point == PIPELINE_BIND_POINT_GRAPHICS,
        r.subpasses@[0].color_attachments@ == spec_color_refs(color_formats@.len() as int),
        r.subpasses@[0].depth_stencil_attachment == (match ds_format {
            Some(_) => Some(
                AttachmentReference {
                    attachment: color_formats@.len() as u32,
                    layout: IMAGE_LAYOUT_GENERAL,
                },
            ),
            None => None::<AttachmentReference>,
        }),
        r.dependency_count == 0,
{
    let n = color_formats.len();
    let mut attachments: Vec<AttachmentDescription> = Vec::new();
    let mut color_refs: Vec<AttachmentReference> = Vec::new();
    let mut i: usize = 0;
    while i < n
        invariant
            i <= n,
            n == color_formats@.len() <= 0xFFFF_FFFF,
            attachments@ == Seq::new(
                i as nat,
                |k: int| spec_color_attachment(color_formats@[k]),
            ),
            color_refs@ == spec_color_refs(i as int),
        decreases n - i,
    {
        color_refs.push(
            AttachmentReference { attachment: i as u32, layout: IMAGE_LAYOUT_GENERAL },
        );
        attachments.push(
            AttachmentDescription {
                flags: 0,
                format: color_formats[i],
                samples: SAMPLE_COUNT_1_BIT,
                load_op: ATTACHMENT_LOAD_OP_LOAD,
                store_op: ATTACHMENT_STORE_OP_STORE,
                stencil_load_op: ATTACHMENT_LOAD_OP_DONT_CARE,
                stencil_store_op: ATTACHMENT_STORE_OP_DONT_CARE,
                initial_layout: IMAGE_LAYOUT_GENERAL,
                final_layout: IMAGE_LAYOUT_GENERAL,
            },
        );
        proof {
            assert(attachments@ =~= Seq::new(
                i as nat + 1,
                |k: int| spec_color_attachment(color_formats@[k]),
            ));
            assert(color_refs@ =~= spec_color_refs(i as int + 1));
        }
        i = i + 1;
    }
    let depth_stencil_attachment: Option<AttachmentReference> = match ds_format {
        Some(f) => {
            attachments.push(
                AttachmentDescription {
                    flags: 0,
                    format: f,
                    samples: SAMPLE_COUNT_1_BIT,
                    load_op: ATTACHMENT_LOAD_OP_LOAD,
                    store_op: ATTACHMENT_STORE_OP_STORE,
                    stencil_load_op: ATTACHMENT_LOAD_OP_LOAD,
                    stencil_store_op: ATTACHMENT_STORE_OP_STORE,
                    initial_layout: IMAGE_LAYOUT_GENERAL,
                    final_layout: IMAGE_LAYOUT_GENERAL,
                },
            );
            Some(AttachmentReference { attachment: n as u32, layout: IMAGE_LAYOUT_GENERAL })
        },
        None => None,
    };
    proof {
        assert(attachments@ =~= spec_render_pass_attachments(color_formats@, ds_format));
    }
    let mut subpasses: Vec<SubpassDescription> = Vec::new();
    subpasses.push(
        SubpassDescription {
            flags: 0,
            pipeline_bind_point: PIPELINE_BIND_POINT_GRAPHICS,
            color_attachments: color_refs,
            depth_stencil_attachment,
        },
    );
    RenderPassCreateInfo {
        stype: STRUCTURE_TYPE_RENDER_PASS_CREATE_INFO,
        flags: 0,
        attachments,
        subpasses,
        dependency_count: 0,
    }
}

/// The vertex-buffer bindings of the present slots, in slot order: binding
/// index equals the slot index, stride and input rate from the slot.
pub open spec fn spec_vertex_bindings(slots: Seq<Option<VertexBufferDesc>>, n: int) -> Seq<
    VertexInputBindingDescription,
>
    decreases n,
{
    if n <= 0 {
        Seq::empty()
    } else {
        let prefix = spec_vertex_bindings(slots, n - 1);
        match slots[n - 1] {
            Some(v) => prefix.push(
                VertexInputBindingDescription {
                    binding: (n - 1) as u32,
                    stride: v.stride as u32,
                    input_rate: v.rate as u32,
                },
            ),
            None => prefix,
        }
    }
}

/// Builds the vertex-buffer bindings of the present slots.
pub fn build_vertex_bindings(slots: &Vec<Option<VertexBufferDesc>>) -> (r: Vec<
    VertexInputBindingDescription,
>)
    requires
        slots@.len() <= 0xFFFF_FFFF,
    ensures
        r@ == spec_vertex_bindings(slots@, slots@.len() as int),
{
    let n = slots.len();
    let mut out: Vec<VertexInputBindingDescription> = Vec::new();
    let mut i: usize = 0;
    while i < n
        invariant
            i <= n,
            n == slots@.len() <= 0xFFFF_FFFF,
            out@ == spec_vertex_bindings(slots@, i as int),
        decreases n - i,
    {
        match slots[i] {
            Some(v) => {
                out.push(
                    VertexInputBindingDescription {
                        binding: i as u32,
                        stride: v.stride as u32,
                        input_rate: v.rate as u32,
                    },
                );
            },
            None => {},
        }
        proof {
            assert(out@ =~= spec_vertex_bindings(slots@, i as int + 1));
        }
        i = i + 1;
    }
    out
}

/// Whether every present attribute's element format resolves.
pub open spec fn spec_attributes_resolvable(attrs: Seq<Option<AttributeDesc>>) -> bool {
    forall|i: int| 0 <= i < attrs.len() && attrs[i] is Some ==> spec_map_format(
        (#[trigger] attrs[i])->Some_0.1.format.0,
        attrs[i]->Some_0.1.format.1,
    ) is Some
}

/// The vertex attributes of the present slots, in slot order: the location
/// is the attribute's slot index, the binding the referenced vertex-buffer
/// slot.
pub open spec fn spec_vertex_attributes(attrs: Seq<Option<AttributeDesc>>, n: int) -> Seq<
    VertexInputAttributeDescription,
>
    decreases n,
{
    if n <= 0 {
        Seq::empty()
    } else {
        let prefix = spec_vertex_attributes(attrs, n - 1);
        match attrs[n - 1] {
            Some(a) => prefix.push(
                VertexInputAttributeDescription {
                    location: (n - 1) as u32,
                    binding: a.0 as u32,
                    format: spec_map_format(a.1.format.0, a.1.format.1)->Some_0,
                    offset: a.1.offset,
                },
            ),
            None => prefix,
        }
    }
}

/// Builds the vertex attributes of the present slots; fails with the
/// creation error exactly when some present attribute's format does not
/// resolve.
pub fn build_vertex_attributes(attrs: &Vec<Option<AttributeDesc>>) -> (r: Result<
    Vec<VertexInputAttributeDescription>,
    CreationError,
>)
    requires
        attrs@.len() <= 0xFFFF_FFFF,
    ensures
        r is Ok <==> spec_attributes_resolvable(attrs@),
        r is Ok ==> r->Ok_0@ == spec_vertex_attributes(attrs@, attrs@.len() as int),
        r is Err ==> r == Err::<Vec<VertexInputAttributeDescription>, CreationError>(CreationError),
{
    let n = attrs.len();
    let mut out: Vec<VertexInputAttributeDescription> = Vec::new();
    let mut i: usize = 0;
    while i < n
        invariant
            i <= n,
            n == attrs@.len() <= 0xFFFF_FFFF,
            out@ == spec_vertex_attributes(attrs@, i as int),
            forall|j: int| 0 <= j < i && attrs@[j] is Some ==> spec_map_format(
                (#[trigger] attrs@[j])->Some_0.1.format.0,
                attrs@[j]->Some_0.1.format.1,
            ) is Some,
        decreases n - i,
    {
        match attrs[i] {
            Some(a) => {
                let fmt = a.1.format;
                match map_format(fmt.0, fmt.1) {
                    Some(f) => {
                        out.push(
                            VertexInputAttributeDescription {
                                location: i as u32,
                                binding: a.0 as u32,
                                format: f,
                                offset: a.1.offset,
                            },
                        );
                    },
                    None => {
                        return Err(CreationError);
                    },
                }
            },
            None => {},
        }
        proof {
            assert(out@ =~= spec_vertex_attributes(attrs@, i as int + 1));
        }
        i = i + 1;
    }
    Ok(out)
}

/// Whether the optional depth-stencil target's format resolves.
pub open spec fn spec_depth_stencil_resolvable(ds: Option<(Format, DepthStencilInfo)>) -> bool {
    ds is Some ==> spec_map_format(ds->Some_0.0.0, ds->Some_0.0.1) is Some
}

/// The depth and stencil test state a depth-stencil description yields:
/// absence of a component disables the corresponding test, and a disabled
/// depth test compares with the inert never-compare.
pub open spec fn spec_depth_stencil_state(ds: Option<(Format, DepthStencilInfo)>) -> DepthStencilState {
    let info = ds->Some_0.1;
    DepthStencilState {
        depth_test_enable: if ds is Some && info.depth is Some {
            BOOL32_TRUE
        } else {
            BOOL32_FALSE
        },
        depth_write_enable: if ds is Some && info.depth is Some && info.depth->Some_0.write {
            BOOL32_TRUE
        } else {
            BOOL32_FALSE
        },
        depth_compare_op: if ds is Some && info.depth is Some {
            spec_map_comparison(info.depth->Some_0.fun)
        } else {
            COMPARE_OP_NEVER
        },
        depth_bounds_test_enable: BOOL32_FALSE,
        stencil_test_enable: if ds is Some && (info.front is Some || info.back is Some) {
            BOOL32_TRUE
        } else {
            BOOL32_FALSE
        },
        front: if ds is Some && info.front is Some {
            spec_map_stencil_side(info.front->Some_0)
        } else {
            StencilOpState::spec_zeroed()
        },
        back: if ds is Some && info.back is Some {
            spec_map_stencil_side(info.back->Some_0)
        } else {
            StencilOpState::spec_zeroed()
        },
    }
}

/// Builds the depth and stencil test state.
pub fn build_depth_stencil_state(ds: &Option<(Format, DepthStencilInfo)>) -> (r: DepthStencilState)
    ensures
        r == spec_depth_stencil_state(*ds),
{
    match ds {
        Some((_, info)) => DepthStencilState {
            depth_test_enable: if info.depth.is_some() {
                BOOL32_TRUE
            } else {
                BOOL32_FALSE
            },
            depth_write_enable: match info.depth {
                Some(d) => if d.write {
                    BOOL32_TRUE
                } else {
                    BOOL32_FALSE
                },
                None => BOOL32_FALSE,
            },
            depth_compare_op: match info.depth {
                Some(d) => map_comparison(d.fun),
                None => COMPARE_OP_NEVER,
            },
            depth_bounds_test_enable: BOOL32_FALSE,
            stencil_test_enable: if info.front.is_some() || info.back.is_some() {
                BOOL32_TRUE
            } else {
                BOOL32_FALSE
            },
            front: match &info.front {
                Some(s) => map_stencil_side(s),
                None => StencilOpState::zeroed(),
            },
            back: match &info.back {
                Some(s) => map_stencil_side(s),
                None => StencilOpState::zeroed(),
            },
        },
        None => DepthStencilState {
            depth_test_enable: BOOL32_FALSE,
            depth_write_enable: BOOL32_FALSE,
            depth_compare_op: COMPARE_OP_NEVER,
            depth_bounds_test_enable: BOOL32_FALSE,
            stencil_test_enable: BOOL32_FALSE,
            front: StencilOpState::zeroed(),
            back: StencilOpState::zeroed(),
        },
    }
}

/// The rasterization state a rasterizer description yields: depth clamping
/// on, polygon mode and line width from the raster method, depth bias
/// enabled exactly when bias factors are given.
pub open spec fn spec_rasterization_state(r: Rasterizer) -> RasterizationState {
    let polygon = spec_map_polygon_mode(r.method);
    RasterizationState {
        depth_clamp_enable: BOOL32_TRUE,
        rasterizer_discard_enable: BOOL32_FALSE,
        polygon_mode: polygon.0,
        cull_mode: spec_map_cull_face(r.cull_face),
        front_face: spec_map_front_face(r.front_face),
        depth_bias_enable: if r.offset is Some {
            BOOL32_TRUE
        } else {
            BOOL32_FALSE
        },
        depth_bias_constant_factor: if r.offset is Some {
            r.offset->Some_0.1
        } else {
            0
        },
        depth_bias_slope_factor: if r.offset is Some {
            r.offset->Some_0.0
        } else {
            0
        },
        line_width: polygon.1,
    }
}

/// Builds the rasterization state.
pub fn build_rasterization_state(rasterizer: &Rasterizer) -> (r: RasterizationState)
    ensures
        r == spec_rasterization_state(*rasterizer),
{
    let (polygon_mode, line_width) = map_polygon_mode(rasterizer.method);
    RasterizationState {
        depth_clamp_enable: BOOL32_TRUE,
        rasterizer_discard_enable: BOOL32_FALSE,
        polygon_mode,
        cull_mode: map_cull_face(rasterizer.cull_face),
        front_face: map_front_face(rasterizer.front_face),
        depth_bias_enable: if rasterizer.offset.is_some() {
            BOOL32_TRUE
        } else {
            BOOL32_FALSE
        },
        depth_bias_constant_factor: match rasterizer.offset {
            Some(off) => off.1,
            None => 0,
        },
        depth_bias_slope_factor: match rasterizer.offset {
            Some(off) => off.0,
            None => 0,
        },
        line_width,
    }
}

/// The dynamic-state list of every pipeline: exactly viewport, scissor,
/// blend constants and stencil reference, supplied per draw rather than
/// baked into the pipeline.
pub open spec fn spec_dynamic_states() -> Seq<u32> {
    seq![
        DYNAMIC_STATE_VIEWPORT,
        DYNAMIC_STATE_SCISSOR,
        DYNAMIC_STATE_BLEND_CONSTANTS,
        DYNAMIC_STATE_STENCIL_REFERENCE,
    ]
}

/// Builds the dynamic-state list.
pub fn build_dynamic_states() -> (r: Vec<u32>)
    ensures
        r@ == spec_dynamic_states(),
{
    let mut out: Vec<u32> = Vec::new();
    out.push(DYNAMIC_STATE_VIEWPORT);
    out.push(DYNAMIC_STATE_SCISSOR);
    out.push(DYNAMIC_STATE_BLEND_CONSTANTS);
    out.push(DYNAMIC_STATE_STENCIL_REFERENCE);
    proof {
        assert(out@ =~= spec_dynamic_states());
    }
    out
}

} // verus!
