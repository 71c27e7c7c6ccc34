//! The factory: the orchestrator that owns the device connection, composes
//! the translator and the allocator, issues the native creation calls, and
//! registers the resulting resource records with the handle manager.
//!
//! The native driver is modeled inside the factory: each object table
//! (`command_pools`, `device_buffers`, `images`, ...) stands for the
//! driver's objects of that kind, a native handle is the table index under
//! which the creation record was filed, and `memory` holds the backing
//! store of every allocation, so that host mappings of buffer memory read
//! and write real bytes.  Driver-level creation failures have no defined
//! recovery at this layer and do not occur in the model; the errors the
//! entry points return are exactly the structural ones a caller can mend.

use vstd::prelude::*;
use vstd::slice::slice_to_vec;
use crate::descriptors::{
    Access, Bind, BufferInfo, BufferRole, BufferError, ChannelType, CreationError,
    DepthStencilDesc, Format, Kind, AaMode, MappingError, RenderDesc, ResourceDesc,
    ResourceViewError, SamplerInfo, ShaderStage, CreateShaderError, CreateProgramError, Swizzle,
    ChannelSource, TargetViewError, TextureDescriptor, TextureError, Usage, PipelineDescriptor,
};
use crate::handle::{Arena, Handle};
use crate::native::{
    STRUCTURE_TYPE_COMMAND_POOL_CREATE_INFO, STRUCTURE_TYPE_BUFFER_CREATE_INFO,
    STRUCTURE_TYPE_MEMORY_ALLOCATE_INFO, STRUCTURE_TYPE_FENCE_CREATE_INFO,
    STRUCTURE_TYPE_IMAGE_CREATE_INFO, STRUCTURE_TYPE_IMAGE_VIEW_CREATE_INFO,
    STRUCTURE_TYPE_SHADER_MODULE_CREATE_INFO, STRUCTURE_TYPE_SAMPLER_CREATE_INFO,
    STRUCTURE_TYPE_PIPELINE_SHADER_STAGE_CREATE_INFO, SHADER_STAGE_VERTEX_BIT,
    SHADER_STAGE_GEOMETRY_BIT, SHADER_STAGE_FRAGMENT_BIT,
    STRUCTURE_TYPE_DESCRIPTOR_SET_LAYOUT_CREATE_INFO, STRUCTURE_TYPE_PIPELINE_LAYOUT_CREATE_INFO,
    STRUCTURE_TYPE_DESCRIPTOR_POOL_CREATE_INFO, STRUCTURE_TYPE_RENDER_PASS_CREATE_INFO,
    STRUCTURE_TYPE_GRAPHICS_PIPELINE_CREATE_INFO, PIPELINE_BIND_POINT_GRAPHICS,
    SAMPLE_COUNT_1_BIT,
    COMMAND_POOL_CREATE_RESET_COMMAND_BUFFER_BIT, SHARING_MODE_EXCLUSIVE,
    FENCE_CREATE_SIGNALED_BIT, IMAGE_CREATE_MUTABLE_FORMAT_BIT, IMAGE_CREATE_CUBE_COMPATIBLE_BIT,
    IMAGE_LAYOUT_GENERAL, BOOL32_TRUE, BOOL32_FALSE, COMPARE_OP_NEVER,
    BORDER_COLOR_FLOAT_TRANSPARENT_BLACK,
};
use crate::records::{
    BufferCreateInfo, CommandPoolCreateInfo, FenceCreateInfo, ImageCreateInfo,
    ImageSubresourceRange, ImageViewCreateInfo, MemoryAllocateInfo, SamplerCreateInfo,
    ShaderModuleCreateInfo, DescriptorSetLayoutCreateInfo, PipelineLayoutCreateInfo,
    DescriptorPoolCreateInfo, RenderPassCreateInfo, GraphicsPipelineCreateInfo, Extent3d,
    PipelineShaderStageCreateInfo, AttachmentReference,
};
use crate::translate::{
    map_buffer_usage, spec_map_buffer_usage, map_usage_tiling, spec_map_usage_tiling,
    map_image_type, spec_map_image_type, map_image_layout, spec_map_image_layout, map_format,
    spec_map_format, map_image_view_type, spec_map_image_view_type, map_swizzle, spec_map_swizzle,
    map_image_aspect, spec_map_image_aspect, map_filter, spec_map_filter, map_wrap, spec_map_wrap,
    map_comparison, spec_map_comparison, map_border_color, spec_map_border_color,
};

verus! {

/// A buffer record: the native buffer object and its exclusively owned
/// backing allocation, freed together with it.
#[derive(Clone, Copy, Debug, PartialEq, Eq, Structural)]
pub struct BufferResource {
    /// Native buffer handle.
    pub buffer: u64,
    /// Index of the backing allocation.
    pub memory: usize,
    /// The creation-time description.
    pub info: BufferInfo,
}

/// A texture record: the native image, its backing allocation (none for an
/// externally owned swapchain image), and the single mutable current-layout
/// tag that every view derived from the texture snapshots.
#[derive(Clone, Copy, Debug, PartialEq, Eq)]
pub struct TextureResource {
    /// Native image handle.
    pub image: u64,
    /// Current image layout; written by the out-of-scope transition logic.
    pub layout: u32,
    /// Index of the backing allocation, where the factory owns one.
    pub memory: Option<usize>,
    /// The creation-time description.
    pub desc: TextureDescriptor,
}

/// A shader-module record.
#[derive(Clone, Copy, Debug, PartialEq, Eq, Structural)]
pub struct ShaderResource {
    /// Native shader-module handle.
    pub module: u64,
}

/// A program record: exactly one vertex and one fragment stage and an
/// optional geometry stage, each a reference-counted shader handle.  Its
/// reflection record is empty at creation and populated by a later,
/// out-of-scope introspection pass.
#[derive(Clone, Copy, Debug, PartialEq, Eq)]
pub struct ProgramResource {
    pub vertex: Handle,
    pub geometry: Option<Handle>,
    pub pixel: Handle,
}

/// A texture-view record: the viewed image (non-owning), the created view
/// object, a snapshot of the texture's layout at view-creation time, and
/// the subresource range the view exposes.
#[derive(Clone, Copy, Debug, PartialEq, Eq, Structural)]
pub struct TextureViewResource {
    pub image: u64,
    pub view: u64,
    pub layout: u32,
    pub sub_range: ImageSubresourceRange,
}

/// A render-target or depth-stencil view record: the view plus the target
/// dimensions it covers.
#[derive(Clone, Copy, Debug, PartialEq, Eq)]
pub struct TargetViewResource {
    pub view: TextureViewResource,
    /// Width, height, depth-or-layer extent and anti-aliasing of the target.
    pub dimensions: (u16, u16, u16, AaMode),
}

/// A pipeline record: the compiled pipeline and the objects it owns, plus a
/// non-owning reference back to its program.
#[derive(Clone, Copy, Debug, PartialEq, Eq)]
pub struct PipelineResource {
    pub pipeline: u64,
    pub pipe_layout: u64,
    pub desc_layout: u64,
    pub desc_pool: u64,
    pub render_pass: u64,
    pub program: Handle,
}

/// A sampler record: the native sampler and the original description, kept
/// for introspection.
#[derive(Clone, Copy, Debug, PartialEq, Eq)]
pub struct SamplerResource {
    pub sampler: u64,
    pub info: SamplerInfo,
}

/// A command-buffer seed: what the out-of-scope recording collaborator
/// needs from the factory to construct a command buffer.
#[derive(Clone, Copy, Debug, PartialEq, Eq, Structural)]
pub struct CommandBuffer {
    pub pool: u64,
    pub queue_family_index: u32,
}

/// One device-memory allocation of the model device: its backing bytes, the
/// memory type it was allocated from, and whether a host mapping is live.
#[derive(Debug)]
pub struct MemoryBlock {
    pub bytes: Vec<u8>,
    pub memory_type: u32,
    pub mapped: bool,
}

/// A bounds-checked accessor over a mapped memory region: the allocation it
/// addresses, the mapped byte size, the element stride, and the access mode
/// the mapping was granted.  Exactly one gate is live per mapped buffer; it
/// is consumed by the unmap.
#[derive(Debug, PartialEq, Eq)]
pub struct MappingGate {
    pub memory: usize,
    pub size: usize,
    pub stride: usize,
    pub access: Access,
}

/// The factory.  One factory exclusively owns its device connection; all
/// creation calls are synchronous on the owning thread.
pub struct Factory {
    // The shared device context.
    pub queue_family_index: u32,
    pub mem_video_id: u32,
    pub mem_system_id: u32,
    /// Native handle of the factory's own command pool.
    pub command_pool: u64,
    /// Whether the factory was torn down (the command pool destroyed).
    pub torn_down: bool,
    /// Upper bound on descriptor sets a pipeline's pool can allocate.
    pub descriptor_pool_capacity: u32,
    // The model driver's object tables; a native handle is a table index.
    pub command_pools: Vec<CommandPoolCreateInfo>,
    pub fences: Vec<FenceCreateInfo>,
    pub device_buffers: Vec<BufferCreateInfo>,
    pub images: Vec<ImageCreateInfo>,
    pub image_views: Vec<ImageViewCreateInfo>,
    pub shader_modules: Vec<ShaderModuleCreateInfo>,
    pub set_layouts: Vec<DescriptorSetLayoutCreateInfo>,
    pub pipe_layouts: Vec<PipelineLayoutCreateInfo>,
    pub desc_pools: Vec<DescriptorPoolCreateInfo>,
    pub render_passes: Vec<RenderPassCreateInfo>,
    pub graphics_pipelines: Vec<GraphicsPipelineCreateInfo>,
    pub sampler_objects: Vec<SamplerCreateInfo>,
    /// Device-memory allocations.
    pub memory: Vec<MemoryBlock>,
    // The handle manager's arenas, one per resource kind.
    pub buffers: Arena<BufferResource>,
    pub textures: Arena<TextureResource>,
    pub shaders: Arena<ShaderResource>,
    pub programs: Arena<ProgramResource>,
    pub pipelines: Arena<PipelineResource>,
    pub samplers: Arena<SamplerResource>,
    pub srvs: Arena<TextureViewResource>,
    pub rtvs: Arena<TargetViewResource>,
    pub dsvs: Arena<TargetViewResource>,
}

impl Factory {
    /// The memory type the allocator selects for a usage class: the
    /// system-visible type for host-only usages, the device-local type for
    /// every other.
    pub open spec fn spec_memory_type_for(self, usage: Usage) -> u32 {
        if usage.is_cpu_only() {
            self.mem_system_id
        } else {
            self.mem_video_id
        }
    }

    /// The bytes of allocation `i`.
    pub open spec fn block_bytes(self, i: int) -> Seq<u8> {
        self.memory@[i].bytes@
    }

    /// Whether allocation `i` has a live host mapping.
    pub open spec fn block_mapped(self, i: int) -> bool {
        self.memory@[i].mapped
    }

    /// The memory type allocation `i` was allocated from.
    pub open spec fn block_type(self, i: int) -> u32 {
        self.memory@[i].memory_type
    }

    /// The mapped contents of a live buffer: the bytes of its backing
    /// allocation.
    pub open spec fn buffer_contents(self, h: Handle) -> Seq<u8> {
        self.block_bytes(self.buffers.get(h).memory as int)
    }

    /// Well-formedness: the arenas are well-formed, and every live buffer's
    /// backing allocation exists, is exactly as large as the buffer's
    /// requested byte size, and the size is positive.
    pub open spec fn wf(self) -> bool {
        &&& self.buffers.wf()
        &&& self.textures.wf()
        &&& self.shaders.wf()
        &&& self.programs.wf()
        &&& self.pipelines.wf()
        &&& self.samplers.wf()
        &&& self.srvs.wf()
        &&& self.rtvs.wf()
        &&& self.dsvs.wf()
        &&& forall|h: Handle| #[trigger] self.buffers.live(h) ==> {
            &&& self.buffers.get(h).memory < self.memory@.len()
            &&& self.block_bytes(self.buffers.get(h).memory as int).len()
                == self.buffers.get(h).info.size
            &&& self.buffers.get(h).info.size > 0
        }
    }

    /// Creates a factory over the given queue family, with the given
    /// device-local and system-visible memory type identifiers, and creates
    /// its command pool as the first native object.
    pub fn new(qf_index: u32, mvid: u32, msys: u32) -> (f: Factory)
        ensures
            f.wf(),
            !f.torn_down,
            f.queue_family_index == qf_index,
            f.mem_video_id == mvid,
            f.mem_system_id == msys,
            f.command_pool == 0,
            f.command_pools@ =~= seq![
                CommandPoolCreateInfo {
                    stype: STRUCTURE_TYPE_COMMAND_POOL_CREATE_INFO,
                    flags: COMMAND_POOL_CREATE_RESET_COMMAND_BUFFER_BIT,
                    queue_family_index: qf_index,
                },
            ],
            f.memory@.len() == 0,
            f.device_buffers@.len() == 0,
            f.images@.len() == 0,
            f.image_views@.len() == 0,
            f.shader_modules@.len() == 0,
            f.fences@.len() == 0,
            f.set_layouts@.len() == 0,
            f.pipe_layouts@.len() == 0,
            f.desc_pools@.len() == 0,
            f.render_passes@.len() == 0,
            f.graphics_pipelines@.len() == 0,
            f.sampler_objects@.len() == 0,
            forall|h: Handle| !f.buffers.live(h),
            forall|h: Handle| !f.textures.live(h),
            forall|h: Handle| !f.shaders.live(h),
            forall|h: Handle| !f.programs.live(h),
            forall|h: Handle| !f.pipelines.live(h),
            forall|h: Handle| !f.samplers.live(h),
            forall|h: Handle| !f.srvs.live(h),
            forall|h: Handle| !f.rtvs.live(h),
            forall|h: Handle| !f.dsvs.live(h),
    {
        let com_info = CommandPoolCreateInfo {
            stype: STRUCTURE_TYPE_COMMAND_POOL_CREATE_INFO,
            flags: COMMAND_POOL_CREATE_RESET_COMMAND_BUFFER_BIT,
            queue_family_index: qf_index,
        };
        let mut command_pools: Vec<CommandPoolCreateInfo> = Vec::new();
        command_pools.push(com_info);
        Factory {
            queue_family_index: qf_index,
            mem_video_id: mvid,
            mem_system_id: msys,
            command_pool: 0,
            torn_down: false,
            descriptor_pool_capacity: 100,
            command_pools,
            fences: Vec::new(),
            device_buffers: Vec::new(),
            images: Vec::new(),
            image_views: Vec::new(),
            shader_modules: Vec::new(),
            set_layouts: Vec::new(),
            pipe_layouts: Vec::new(),
            desc_pools: Vec::new(),
            render_passes: Vec::new(),
            graphics_pipelines: Vec::new(),
            sampler_objects: Vec::new(),
            memory: Vec::new(),
            buffers: Arena::new(),
            textures: Arena::new(),
            shaders: Arena::new(),
            programs: Arena::new(),
            pipelines: Arena::new(),
            samplers: Arena::new(),
            srvs: Arena::new(),
            rtvs: Arena::new(),
            dsvs: Arena::new(),
        }
    }

    /// Tears the factory down, destroying its command pool exactly once;
    /// no command buffer may be created afterwards.
    pub fn destroy(&mut self)
        requires
            !old(self).torn_down,
        ensures
            *final(self) == (Factory { torn_down: true, ..*old(self) }),
    {
        self.torn_down = true;
    }

    /// Hands out what a command-buffer constructor needs: the factory's
    /// command pool and queue family.
    pub fn create_command_buffer(&mut self) -> (r: CommandBuffer)
        requires
            !old(self).torn_down,
        ensures
            *final(self) == *old(self),
            r == (CommandBuffer {
                pool: old(self).command_pool,
                queue_family_index: old(self).queue_family_index,
            }),
    {
        CommandBuffer { pool: self.command_pool, queue_family_index: self.queue_family_index }
    }

    /// Configures the upper bound on descriptor sets the pool of each
    /// subsequently created pipeline can allocate.  The capacity is a
    /// parameter, not a load-bearing constant.
    pub fn set_descriptor_pool_capacity(&mut self, capacity: u32)
        ensures
            *final(self) == (Factory { descriptor_pool_capacity: capacity, ..*old(self) }),
    {
        self.descriptor_pool_capacity = capacity;
    }

    /// The allocator's memory-type selection: system-visible memory for
    /// host-only usage classes, device-local memory for all others.
    pub fn select_memory_type(&self, usage: Usage) -> (r: u32)
        ensures
            r == self.spec_memory_type_for(usage),
    {
        match usage {
            Usage::CpuOnly(_) => self.mem_system_id,
            _ => self.mem_video_id,
        }
    }

    /// Performs one allocation sized to the resource's reported
    /// requirements, keyed off the usage class; returns the allocation
    /// record and the new allocation's index.
    fn allocate(&mut self, usage: Usage, size: usize) -> (r: (MemoryAllocateInfo, usize))
        ensures
            r.0 == (MemoryAllocateInfo {
                stype: STRUCTURE_TYPE_MEMORY_ALLOCATE_INFO,
                allocation_size: size as u64,
                memory_type_index: old(self).spec_memory_type_for(usage),
            }),
            r.1 == old(self).memory@.len(),
            final(self).memory@.len() == old(self).memory@.len() + 1,
            final(self).block_bytes(r.1 as int).len() == size,
            final(self).block_type(r.1 as int) == old(self).spec_memory_type_for(usage),
            !final(self).block_mapped(r.1 as int),
            forall|j: int| 0 <= j < old(self).memory@.len() ==> final(self).memory@[j] == old(self).memory@[j],
            *final(self) == (Factory { memory: final(self).memory, ..*old(self) }),
    {
        let info = MemoryAllocateInfo {
            stype: STRUCTURE_TYPE_MEMORY_ALLOCATE_INFO,
            allocation_size: size as u64,
            memory_type_index: self.select_memory_type(usage),
        };
        let index = self.memory.len();
        let bytes = vec![0u8; size];
        self.memory.push(MemoryBlock { bytes, memory_type: info.memory_type_index, mapped: false });
        (info, index)
    }

    /// The buffer creation record the factory composes for a description:
    /// usage flags from role and bind, exclusive sharing scoped to the
    /// factory's single queue family.
    pub open spec fn spec_buffer_create_info(self, info: BufferInfo) -> BufferCreateInfo {
        BufferCreateInfo {
            stype: STRUCTURE_TYPE_BUFFER_CREATE_INFO,
            flags: 0,
            size: info.size as u64,
            usage: spec_map_buffer_usage(info.role, info.bind),
            sharing_mode: SHARING_MODE_EXCLUSIVE,
            queue_family_index_count: 1,
            queue_family_index: self.queue_family_index,
        }
    }

    /// Creates the native buffer and its backing allocation: composes the
    /// creation record, queries the reported memory requirement (the model
    /// device reports the requested size), allocates via the usage class,
    /// and binds the memory at offset zero.
    fn create_buffer_impl(&mut self, info: &BufferInfo) -> (r: BufferResource)
        requires
            info.size > 0,
        ensures
            r == (BufferResource {
                buffer: old(self).device_buffers@.len() as u64,
                memory: old(self).memory@.len() as usize,
                info: *info,
            }),
            final(self).device_buffers@ == old(self).device_buffers@.push(
                old(self).spec_buffer_create_info(*info),
            ),
            final(self).memory@.len() == old(self).memory@.len() + 1,
            final(self).block_bytes(r.memory as int).len() == info.size,
            final(self).block_type(r.memory as int) == old(self).spec_memory_type_for(info.usage),
            !final(self).block_mapped(r.memory as int),
            forall|j: int| 0 <= j < old(self).memory@.len() ==> final(self).memory@[j] == old(self).memory@[j],
            *final(self) == (Factory {
                memory: final(self).memory,
                device_buffers: final(self).device_buffers,
                ..*old(self)
            }),
    {
        let native_info = BufferCreateInfo {
            stype: STRUCTURE_TYPE_BUFFER_CREATE_INFO,
            flags: 0,
            size: info.size as u64,
            usage: map_buffer_usage(info.role, info.bind),
            sharing_mode: SHARING_MODE_EXCLUSIVE,
            queue_family_index_count: 1,
            queue_family_index: self.queue_family_index,
        };
        let buffer = self.device_buffers.len() as u64;
        self.device_buffers.push(native_info);
        // The model device reports a memory requirement equal to the
        // requested size; binding happens at offset zero.
        let (_alloc_info, memory) = self.allocate(info.usage, info.size);
        BufferResource { buffer, memory, info: *info }
    }

    /// Creates a buffer and registers it.  Returns an error exactly when
    /// the descriptor is structurally invalid (a zero byte size); the
    /// factory is then unchanged and nothing is created.
    pub fn create_buffer_raw(&mut self, info: BufferInfo) -> (r: Result<Handle, BufferError>)
        requires
            old(self).wf(),
        ensures
            final(self).wf(),
            info.size == 0 ==> r == Err::<Handle, BufferError>(BufferError::Size(0)) && *final(self) == *old(self),
            info.size > 0 ==> {
                &&& r is Ok
                &&& final(self).buffers.live(r->Ok_0)
                &&& !old(self).buffers.live(r->Ok_0)
                &&& final(self).buffers.get(r->Ok_0) == (BufferResource {
                    buffer: old(self).device_buffers@.len() as u64,
                    memory: old(self).memory@.len() as usize,
                    info,
                })
                &&& final(self).buffers.refs(r->Ok_0) == 1
                &&& final(self).buffer_contents(r->Ok_0).len() == info.size
                &&& final(self).device_buffers@ == old(self).device_buffers@.push(
                    old(self).spec_buffer_create_info(info),
                )
                &&& final(self).memory@.len() == old(self).memory@.len() + 1
                &&& final(self).block_type(final(self).buffers.get(r->Ok_0).memory as int) == old(self).spec_memory_type_for(info.usage)
                &&& !final(self).block_mapped(final(self).buffers.get(r->Ok_0).memory as int)
                &&& forall|h2: Handle| h2 != r->Ok_0 ==> (old(self).buffers.live(h2) <==> final(self).buffers.live(h2))
                &&& forall|h2: Handle| h2 != r->Ok_0 && old(self).buffers.live(h2) ==> final(self).buffers.get(h2) == old(self).buffers.get(h2)
                &&& forall|j: int| 0 <= j < old(self).memory@.len() ==> final(self).memory@[j]
                    == old(self).memory@[j]
                &&& *final(self) == (Factory {
                    memory: final(self).memory,
                    device_buffers: final(self).device_buffers,
                    buffers: final(self).buffers,
                    ..*old(self)
                })
            },
    {
        if info.size == 0 {
            return Err(BufferError::Size(0));
        }
        let resource = self.create_buffer_impl(&info);
        let h = self.buffers.register(resource);
        proof {
            assert forall|h2: Handle| #[trigger] self.buffers.live(h2) implies {
                &&& self.buffers.get(h2).memory < self.memory@.len()
                &&& self.block_bytes(self.buffers.get(h2).memory as int).len()
                    == self.buffers.get(h2).info.size
                &&& self.buffers.get(h2).info.size > 0
            } by {
                if h2 != h {
                    assert(old(self).buffers.live(h2));
                    assert(self.buffers.get(h2) == old(self).buffers.get(h2));
                    assert(self.memory@[self.buffers.get(h2).memory as int] == old(self).memory@[self.buffers.get(h2).memory as int]);
                }
            }
        }
        Ok(h)
    }
}

impl Factory {
    /// Whether a mapping gate is consistent with this factory: its
    /// allocation exists and the mapped byte size is the allocation's size.
    pub open spec fn gate_wf(self, g: MappingGate) -> bool {
        &&& g.memory < self.memory@.len()
        &&& self.block_bytes(g.memory as int).len() == g.size
    }

    /// Replaces the bytes of an allocation verbatim: a host-visible map of
    /// the full region, a copy, and an unmap, in one step.
    fn upload(&mut self, index: usize, data: &[u8])
        requires
            index < old(self).memory@.len(),
            old(self).block_bytes(index as int).len() == data@.len(),
        ensures
            final(self).memory@.len() == old(self).memory@.len(),
            final(self).block_bytes(index as int) == data@,
            final(self).block_type(index as int) == old(self).block_type(index as int),
            final(self).block_mapped(index as int) == old(self).block_mapped(index as int),
            forall|j: int| 0 <= j < old(self).memory@.len() && j != index ==> final(self).memory@[j]
                == old(self).memory@[j],
            *final(self) == (Factory { memory: final(self).memory, ..*old(self) }),
    {
        let bytes = slice_to_vec(data);
        let memory_type = self.memory[index].memory_type;
        let mapped = self.memory[index].mapped;
        self.memory[index] = MemoryBlock { bytes, memory_type, mapped };
    }

    /// Creates a buffer with usage fixed to immutable, fills its backing
    /// memory with a verbatim copy of the given bytes (map, copy, unmap),
    /// and registers it.  On success the buffer's mapped contents equal the
    /// input bytes exactly.  An empty byte sequence is the structurally
    /// invalid zero size and is rejected with the factory unchanged.
    pub fn create_buffer_immutable_raw(
        &mut self,
        data: &[u8],
        stride: usize,
        role: BufferRole,
        bind: Bind,
    ) -> (r: Result<Handle, BufferError>)
        requires
            old(self).wf(),
        ensures
            final(self).wf(),
            data@.len() == 0 ==> r == Err::<Handle, BufferError>(BufferError::Size(0)) && *final(self) == *old(self),
            data@.len() > 0 ==> {
                &&& r is Ok
                &&& final(self).buffers.live(r->Ok_0)
                &&& !old(self).buffers.live(r->Ok_0)
                &&& final(self).buffers.get(r->Ok_0).info == (BufferInfo {
                    role,
                    usage: Usage::Immutable,
                    bind,
                    size: data@.len() as usize,
                    stride,
                })
                &&& final(self).buffers.refs(r->Ok_0) == 1
                &&& final(self).buffer_contents(r->Ok_0) == data@
                &&& !final(self).block_mapped(final(self).buffers.get(r->Ok_0).memory as int)
                &&& final(self).device_buffers@ == old(self).device_buffers@.push(
                    old(self).spec_buffer_create_info(final(self).buffers.get(r->Ok_0).info),
                )
                &&& final(self).memory@.len() == old(self).memory@.len() + 1
                &&& forall|h2: Handle| h2 != r->Ok_0 ==> (old(self).buffers.live(h2) <==> final(self).buffers.live(h2))
                &&& forall|h2: Handle| h2 != r->Ok_0 && old(self).buffers.live(h2) ==> final(self).buffers.get(h2) == old(self).buffers.get(h2)
                &&& forall|j: int| 0 <= j < old(self).memory@.len() ==> final(self).memory@[j]
                    == old(self).memory@[j]
                &&& *final(self) == (Factory {
                    memory: final(self).memory,
                    device_buffers: final(self).device_buffers,
                    buffers: final(self).buffers,
                    ..*old(self)
                })
            },
    {
        let size = data.len();
        if size == 0 {
            return Err(BufferError::Size(0));
        }
        let mem_count = self.memory.len();
        let info = BufferInfo { role, usage: Usage::Immutable, bind, size, stride };
        let resource = self.create_buffer_impl(&info);
        proof {
            assert(resource.memory == mem_count);
        }
        self.upload(resource.memory, data);
        proof {
            assert(forall|j: int|
                0 <= j < mem_count ==> self.memory@[j] == old(self).memory@[j]);
        }
        let h = self.buffers.register(resource);
        proof {
            assert forall|h2: Handle| #[trigger] self.buffers.live(h2) implies {
                &&& self.buffers.get(h2).memory < self.memory@.len()
                &&& self.block_bytes(self.buffers.get(h2).memory as int).len()
                    == self.buffers.get(h2).info.size
                &&& self.buffers.get(h2).info.size > 0
            } by {
                if h2 != h {
                    assert(old(self).buffers.live(h2));
                    assert(self.buffers.get(h2) == old(self).buffers.get(h2));
                    assert(self.memory@[self.buffers.get(h2).memory as int] == old(self).memory@[self.buffers.get(h2).memory as int]);
                }
            }
        }
        Ok(h)
    }

    /// What a mapping request leaves behind: an invalid-access request is
    /// rejected with the factory untouched (no native map is performed); a
    /// second live mapping of the same allocation is rejected likewise; an
    /// admissible request maps the buffer's entire backing region and hands
    /// out an accessor scoped to the buffer's size and stride.
    pub open spec fn spec_map_buffer_post(
        pre: Factory,
        post: Factory,
        hbuf: Handle,
        access: Access,
        r: Result<MappingGate, MappingError>,
    ) -> bool {
        let info = pre.buffers.get(hbuf).info;
        let mem = pre.buffers.get(hbuf).memory as int;
        &&& (!info.usage.mappable(access) ==> r == Err::<MappingGate, MappingError>(
            MappingError::InvalidAccess(access, info.usage),
        ) && post == pre)
        &&& (info.usage.mappable(access) && pre.block_mapped(mem) ==> r == Err::<
            MappingGate,
            MappingError,
        >(MappingError::AlreadyMapped) && post == pre)
        &&& (info.usage.mappable(access) && !pre.block_mapped(mem) ==> {
            &&& r is Ok
            &&& r->Ok_0 == (MappingGate {
                memory: pre.buffers.get(hbuf).memory,
                size: info.size,
                stride: info.stride,
                access,
            })
            &&& post.gate_wf(r->Ok_0)
            &&& post.block_mapped(mem)
            &&& post.block_bytes(mem) == pre.block_bytes(mem)
            &&& post.block_type(mem) == pre.block_type(mem)
            &&& post.memory@.len() == pre.memory@.len()
            &&& forall|j: int| 0 <= j < pre.memory@.len() && j != mem ==> post.memory@[j]
                == pre.memory@[j]
            &&& post == (Factory { memory: post.memory, ..pre })
        })
    }

    /// Maps a buffer's entire backing memory for the requested access mode.
    /// The request is validated against the buffer's creation-time usage
    /// and rejected with a named mapping error before any native map call;
    /// a buffer can have at most one live mapping.
    pub fn map_buffer_raw(&mut self, hbuf: Handle, access: Access) -> (r: Result<
        MappingGate,
        MappingError,
    >)
        requires
            old(self).wf(),
            old(self).buffers.live(hbuf),
        ensures
            final(self).wf(),
            Factory::spec_map_buffer_post(*old(self), *final(self), hbuf, access, r),
    {
        let resource = self.buffers.resolve(hbuf).unwrap();
        if !resource.info.usage.may_map(access) {
            return Err(MappingError::InvalidAccess(access, resource.info.usage));
        }
        if self.memory[resource.memory].mapped {
            return Err(MappingError::AlreadyMapped);
        }
        // The native map of the whole region happens here; the accessor
        // scopes the returned pointer to the buffer's size and stride.
        let block = &mut self.memory[resource.memory];
        block.mapped = true;
        Ok(MappingGate {
            memory: resource.memory,
            size: resource.info.size,
            stride: resource.info.stride,
            access,
        })
    }

    /// Maps a buffer readable.
    pub fn map_buffer_readable(&mut self, hbuf: Handle) -> (r: Result<MappingGate, MappingError>)
        requires
            old(self).wf(),
            old(self).buffers.live(hbuf),
        ensures
            final(self).wf(),
            Factory::spec_map_buffer_post(*old(self), *final(self), hbuf, Access::Readable, r),
    {
        self.map_buffer_raw(hbuf, Access::Readable)
    }

    /// Maps a buffer writable.
    pub fn map_buffer_writable(&mut self, hbuf: Handle) -> (r: Result<MappingGate, MappingError>)
        requires
            old(self).wf(),
            old(self).buffers.live(hbuf),
        ensures
            final(self).wf(),
            Factory::spec_map_buffer_post(*old(self), *final(self), hbuf, Access::Writable, r),
    {
        self.map_buffer_raw(hbuf, Access::Writable)
    }

    /// Maps a buffer readable and writable.
    pub fn map_buffer_rw(&mut self, hbuf: Handle) -> (r: Result<MappingGate, MappingError>)
        requires
            old(self).wf(),
            old(self).buffers.live(hbuf),
        ensures
            final(self).wf(),
            Factory::spec_map_buffer_post(*old(self), *final(self), hbuf, Access::ReadWrite, r),
    {
        self.map_buffer_raw(hbuf, Access::ReadWrite)
    }

    /// Unmaps a mapped region, consuming its gate; the bytes stay as the
    /// gate last left them.
    pub fn unmap_buffer_raw(&mut self, gate: MappingGate)
        requires
            old(self).wf(),
            old(self).gate_wf(gate),
            old(self).block_mapped(gate.memory as int),
        ensures
            final(self).wf(),
            !final(self).block_mapped(gate.memory as int),
            final(self).block_bytes(gate.memory as int) == old(self).block_bytes(
                gate.memory as int,
            ),
            final(self).block_type(gate.memory as int) == old(self).block_type(gate.memory as int),
            final(self).memory@.len() == old(self).memory@.len(),
            forall|j: int| 0 <= j < old(self).memory@.len() && j != gate.memory ==> final(self).memory@[j] == old(self).memory@[j],
            *final(self) == (Factory { memory: final(self).memory, ..*old(self) }),
    {
        let block = &mut self.memory[gate.memory];
        block.mapped = false;
    }

    /// Reads `len` bytes at `offset` through a readable gate.
    pub fn read_bytes(&self, gate: &MappingGate, offset: usize, len: usize) -> (r: Vec<u8>)
        requires
            self.gate_wf(*gate),
            gate.access.allows_read(),
            offset + len <= gate.size,
        ensures
            r@ == self.block_bytes(gate.memory as int).subrange(
                offset as int,
                offset as int + len as int,
            ),
    {
        let block = &self.memory[gate.memory];
        let piece = &block.bytes[offset..offset + len];
        slice_to_vec(piece)
    }

    /// Writes the given bytes at `offset` through a writable gate; the rest
    /// of the mapped region is untouched.
    pub fn write_bytes(&mut self, gate: &MappingGate, offset: usize, data: &[u8])
        requires
            old(self).wf(),
            old(self).gate_wf(*gate),
            gate.access.allows_write(),
            offset + data@.len() <= gate.size,
        ensures
            final(self).wf(),
            final(self).gate_wf(*gate),
            final(self).memory@.len() == old(self).memory@.len(),
            final(self).block_bytes(gate.memory as int) == old(self).block_bytes(
                gate.memory as int,
            ).subrange(0, offset as int).add(data@).add(
                old(self).block_bytes(gate.memory as int).subrange(
                    offset as int + data@.len() as int,
                    gate.size as int,
                ),
            ),
            final(self).block_mapped(gate.memory as int) == old(self).block_mapped(
                gate.memory as int,
            ),
            final(self).block_type(gate.memory as int) == old(self).block_type(gate.memory as int),
            forall|j: int| 0 <= j < old(self).memory@.len() && j != gate.memory ==> final(self).memory@[j] == old(self).memory@[j],
            *final(self) == (Factory { memory: final(self).memory, ..*old(self) }),
    {
        let index = gate.memory;
        let mut bytes: Vec<u8> = Vec::new();
        let mut i: usize = 0;
        while i < offset
            invariant
                i <= offset,
                offset + data@.len() <= self.memory@[index as int].bytes@.len(),
                index < self.memory@.len(),
                *self == *old(self),
                bytes@ == self.block_bytes(index as int).subrange(0, i as int),
            decreases offset - i,
        {
            bytes.push(self.memory[index].bytes[i]);
            proof {
                assert(bytes@ =~= self.block_bytes(index as int).subrange(0, i + 1));
            }
            i = i + 1;
        }
        let mut k: usize = 0;
        while k < data.len()
            invariant
                k <= data@.len(),
                bytes@ == self.block_bytes(index as int).subrange(0, offset as int).add(
                    data@.subrange(0, k as int),
                ),
                offset + data@.len() <= self.memory@[index as int].bytes@.len(),
                index < self.memory@.len(),
                *self == *old(self),
            decreases data@.len() - k,
        {
            bytes.push(data[k]);
            proof {
                assert(bytes@ =~= self.block_bytes(index as int).subrange(0, offset as int).add(
                    data@.subrange(0, k + 1),
                ));
            }
            k = k + 1;
        }
        proof {
            assert(data@.subrange(0, data@.len() as int) =~= data@);
        }
        let total = self.memory[index].bytes.len();
        let mut j: usize = offset + data.len();
        while j < total
            invariant
                offset + data@.len() <= j <= total,
                total == self.memory@[index as int].bytes@.len(),
                bytes@ == self.block_bytes(index as int).subrange(0, offset as int).add(data@).add(
                    self.block_bytes(index as int).subrange(
                        offset as int + data@.len() as int,
                        j as int,
                    ),
                ),
                index < self.memory@.len(),
                *self == *old(self),
            decreases total - j,
        {
            bytes.push(self.memory[index].bytes[j]);
            proof {
                assert(bytes@ =~= self.block_bytes(index as int).subrange(0, offset as int).add(
                    data@,
                ).add(
                    self.block_bytes(index as int).subrange(
                        offset as int + data@.len() as int,
                        j + 1,
                    ),
                ));
            }
            j = j + 1;
        }
        let memory_type = self.memory[index].memory_type;
        let mapped = self.memory[index].mapped;
        self.memory[index] = MemoryBlock { bytes, memory_type, mapped };
        proof {
            assert forall|h2: Handle| #[trigger] self.buffers.live(h2) implies {
                &&& self.buffers.get(h2).memory < self.memory@.len()
                &&& self.block_bytes(self.buffers.get(h2).memory as int).len()
                    == self.buffers.get(h2).info.size
                &&& self.buffers.get(h2).info.size > 0
            } by {
                assert(old(self).buffers.live(h2));
                if self.buffers.get(h2).memory != index {
                    assert(self.memory@[self.buffers.get(h2).memory as int] == old(self).memory@[self.buffers.get(h2).memory as int]);
                }
            }
        }
    }

    /// Writes one element of the declared stride at the given element index:
    /// the typed set accessor.  Offsets are computed from the declared
    /// stride; the element index must lie within the mapped element count.
    pub fn write_element(&mut self, gate: &MappingGate, index: usize, element: &[u8])
        requires
            old(self).wf(),
            old(self).gate_wf(*gate),
            gate.access.allows_write(),
            element@.len() == gate.stride,
            (index + 1) * gate.stride <= gate.size,
        ensures
            final(self).wf(),
            final(self).gate_wf(*gate),
            final(self).memory@.len() == old(self).memory@.len(),
            final(self).block_bytes(gate.memory as int) == old(self).block_bytes(
                gate.memory as int,
            ).subrange(0, (index * gate.stride) as int).add(element@).add(
                old(self).block_bytes(gate.memory as int).subrange(
                    (index * gate.stride + gate.stride) as int,
                    gate.size as int,
                ),
            ),
            forall|j: int| 0 <= j < old(self).memory@.len() && j != gate.memory ==> final(self).memory@[j] == old(self).memory@[j],
            *final(self) == (Factory { memory: final(self).memory, ..*old(self) }),
    {
        proof {
            assert((index + 1) * gate.stride == index * gate.stride + gate.stride) by (
            nonlinear_arith);
            assert(index * gate.stride >= 0) by (nonlinear_arith);
        }
        let offset = index * gate.stride;
        self.write_bytes(gate, offset, element);
    }

    /// Reads one element of the declared stride at the given element index:
    /// the typed get accessor.
    pub fn read_element(&self, gate: &MappingGate, index: usize) -> (r: Vec<u8>)
        requires
            self.gate_wf(*gate),
            gate.access.allows_read(),
            (index + 1) * gate.stride <= gate.size,
        ensures
            r@ == self.block_bytes(gate.memory as int).subrange(
                (index * gate.stride) as int,
                (index * gate.stride + gate.stride) as int,
            ),
    {
        proof {
            assert((index + 1) * gate.stride == index * gate.stride + gate.stride) by (
            nonlinear_arith);
            assert(index * gate.stride >= 0) by (nonlinear_arith);
        }
        let offset = index * gate.stride;
        self.read_bytes(gate, offset, gate.stride)
    }
}

/// The shader set of a program: a vertex/fragment pair, or a
/// vertex/geometry/fragment triple.
#[derive(Clone, Copy, Debug, PartialEq, Eq, Structural)]
pub enum ShaderSet {
    Simple(Handle, Handle),
    Geometry(Handle, Handle, Handle),
}

impl Factory {
    /// Wraps a pre-compiled shader binary into a native shader module and
    /// registers it; the code size must be a multiple of four bytes.  Every
    /// well-sized binary is accepted.
    pub fn create_shader(&mut self, _stage: ShaderStage, code: &[u8]) -> (r: Result<
        Handle,
        CreateShaderError,
    >)
        requires
            old(self).wf(),
            code@.len() % 4 == 0,
        ensures
            final(self).wf(),
            r is Ok,
            final(self).shaders.live(r->Ok_0),
            !old(self).shaders.live(r->Ok_0),
            final(self).shaders.get(r->Ok_0) == (ShaderResource {
                module: old(self).shader_modules@.len() as u64,
            }),
            final(self).shaders.refs(r->Ok_0) == 1,
            // The module record carries the binary verbatim.
            final(self).shader_modules@ == old(self).shader_modules@.push(
                final(self).shader_modules@.last(),
            ),
            final(self).shader_modules@.last().stype == STRUCTURE_TYPE_SHADER_MODULE_CREATE_INFO,
            final(self).shader_modules@.last().flags == 0,
            final(self).shader_modules@.last().code_size == code@.len(),
            final(self).shader_modules@.last().code@ == code@,
            forall|h2: Handle| h2 != r->Ok_0 ==> (old(self).shaders.live(h2) <==> final(self).shaders.live(h2)),
            forall|h2: Handle| h2 != r->Ok_0 && old(self).shaders.live(h2) ==> final(self).shaders.get(h2) == old(self).shaders.get(h2),
            *final(self) == (Factory {
                shader_modules: final(self).shader_modules,
                shaders: final(self).shaders,
                ..*old(self)
            }),
    {
        let module = self.shader_modules.len() as u64;
        self.shader_modules.push(
            ShaderModuleCreateInfo {
                stype: STRUCTURE_TYPE_SHADER_MODULE_CREATE_INFO,
                flags: 0,
                code_size: code.len(),
                code: slice_to_vec(code),
            },
        );
        let h = self.shaders.register(ShaderResource { module });
        Ok(h)
    }

    /// Whether every stage handle of a shader set is a live shader module.
    pub open spec fn spec_shader_set_live(self, shader_set: ShaderSet) -> bool {
        match shader_set {
            ShaderSet::Simple(vs, ps) => self.shaders.live(vs) && self.shaders.live(ps),
            ShaderSet::Geometry(vs, gs, ps) => self.shaders.live(vs) && self.shaders.live(gs)
                && self.shaders.live(ps),
        }
    }

    /// The program record a shader set describes.
    pub open spec fn spec_program_record(shader_set: ShaderSet) -> ProgramResource {
        match shader_set {
            ShaderSet::Simple(vs, ps) => ProgramResource { vertex: vs, geometry: None, pixel: ps },
            ShaderSet::Geometry(vs, gs, ps) => ProgramResource {
                vertex: vs,
                geometry: Some(gs),
                pixel: ps,
            },
        }
    }

    /// Bundles a shader set into a program and registers it, storing the
    /// stage references without validating entry points beyond the fixed
    /// "main" symbol convention.  The program's reflection record is empty
    /// at creation.  The stage modules stay shared through their handles;
    /// callers keep them live while the program is in use.
    pub fn create_program(&mut self, shader_set: &ShaderSet) -> (r: Result<
        Handle,
        CreateProgramError,
    >)
        requires
            old(self).wf(),
            old(self).spec_shader_set_live(*shader_set),
        ensures
            final(self).wf(),
            r is Ok,
            final(self).programs.live(r->Ok_0),
            !old(self).programs.live(r->Ok_0),
            final(self).programs.get(r->Ok_0) == Factory::spec_program_record(*shader_set),
            final(self).programs.refs(r->Ok_0) == 1,
            forall|h2: Handle| h2 != r->Ok_0 ==> (old(self).programs.live(h2) <==> final(self).programs.live(h2)),
            forall|h2: Handle| h2 != r->Ok_0 && old(self).programs.live(h2) ==> final(self).programs.get(h2) == old(self).programs.get(h2),
            *final(self) == (Factory { programs: final(self).programs, ..*old(self) }),
    {
        let record = match *shader_set {
            ShaderSet::Simple(vs, ps) => ProgramResource { vertex: vs, geometry: None, pixel: ps },
            ShaderSet::Geometry(vs, gs, ps) => ProgramResource {
                vertex: vs,
                geometry: Some(gs),
                pixel: ps,
            },
        };
        let h = self.programs.register(record);
        Ok(h)
    }

    /// Whether a live program's stage handles all address live shader
    /// modules.
    pub open spec fn spec_program_stages_live(self, program: Handle) -> bool {
        let p = self.programs.get(program);
        &&& self.shaders.live(p.vertex)
        &&& self.shaders.live(p.pixel)
        &&& p.geometry is Some ==> self.shaders.live(p.geometry->Some_0)
    }

    /// One native shader-stage record.
    pub open spec fn spec_stage_record(stage: u32, module: u64) -> PipelineShaderStageCreateInfo {
        PipelineShaderStageCreateInfo {
            stype: STRUCTURE_TYPE_PIPELINE_SHADER_STAGE_CREATE_INFO,
            flags: 0,
            stage,
            module,
        }
    }

    /// The stage records of a program, in stage order: vertex, then the
    /// geometry stage where present, then fragment.
    pub open spec fn spec_shader_stages(self, program: Handle) -> Seq<
        PipelineShaderStageCreateInfo,
    > {
        let p = self.programs.get(program);
        let vs = seq![
            Factory::spec_stage_record(SHADER_STAGE_VERTEX_BIT, self.shaders.get(p.vertex).module),
        ];
        let gs = if p.geometry is Some {
            seq![
                Factory::spec_stage_record(
                    SHADER_STAGE_GEOMETRY_BIT,
                    self.shaders.get(p.geometry->Some_0).module,
                ),
            ]
        } else {
            Seq::empty()
        };
        let ps = seq![
            Factory::spec_stage_record(SHADER_STAGE_FRAGMENT_BIT, self.shaders.get(p.pixel).module),
        ];
        vs + gs + ps
    }

    /// Resolves a program's stage modules into native shader-stage records,
    /// one per present stage; the entry point of each is the fixed "main"
    /// symbol convention.
    pub fn get_shader_stages(&self, program: Handle) -> (r: Vec<PipelineShaderStageCreateInfo>)
        requires
            self.programs.live(program),
            self.spec_program_stages_live(program),
        ensures
            r@ == self.spec_shader_stages(program),
    {
        let prog = self.programs.resolve(program).unwrap();
        let mut stages: Vec<PipelineShaderStageCreateInfo> = Vec::new();
        let vertex = self.shaders.resolve(prog.vertex).unwrap();
        stages.push(
            PipelineShaderStageCreateInfo {
                stype: STRUCTURE_TYPE_PIPELINE_SHADER_STAGE_CREATE_INFO,
                flags: 0,
                stage: SHADER_STAGE_VERTEX_BIT,
                module: vertex.module,
            },
        );
        match prog.geometry {
            Some(gh) => {
                let geometry = self.shaders.resolve(gh).unwrap();
                stages.push(
                    PipelineShaderStageCreateInfo {
                        stype: STRUCTURE_TYPE_PIPELINE_SHADER_STAGE_CREATE_INFO,
                        flags: 0,
                        stage: SHADER_STAGE_GEOMETRY_BIT,
                        module: geometry.module,
                    },
                );
            },
            None => {},
        }
        let pixel = self.shaders.resolve(prog.pixel).unwrap();
        stages.push(
            PipelineShaderStageCreateInfo {
                stype: STRUCTURE_TYPE_PIPELINE_SHADER_STAGE_CREATE_INFO,
                flags: 0,
                stage: SHADER_STAGE_FRAGMENT_BIT,
                module: pixel.module,
            },
        );
        proof {
            assert(stages@ =~= self.spec_shader_stages(program));
        }
        stages
    }

    /// Creates a fence, optionally already signalled, and returns its
    /// native handle.
    pub fn create_fence(&mut self, signalled: bool) -> (r: u64)
        ensures
            r == old(self).fences@.len() as u64,
            final(self).fences@ == old(self).fences@.push(
                FenceCreateInfo {
                    stype: STRUCTURE_TYPE_FENCE_CREATE_INFO,
                    flags: if signalled {
                        FENCE_CREATE_SIGNALED_BIT
                    } else {
                        0
                    },
                },
            ),
            *final(self) == (Factory { fences: final(self).fences, ..*old(self) }),
    {
        let flags: u32 = if signalled {
            FENCE_CREATE_SIGNALED_BIT
        } else {
            0
        };
        let r = self.fences.len() as u64;
        self.fences.push(FenceCreateInfo { stype: STRUCTURE_TYPE_FENCE_CREATE_INFO, flags });
        r
    }

    /// The sampler creation record for a description: filter triple and
    /// anisotropy from the filter method (anisotropy enabled exactly when
    /// the level is positive), the three wrap axes, comparison disabled
    /// when absent with the inert never-compare, and the border color
    /// falling back to transparent black where the requested color has no
    /// native equivalent.
    pub open spec fn spec_sampler_create_info(info: SamplerInfo) -> SamplerCreateInfo {
        let filter = spec_map_filter(info.filter);
        SamplerCreateInfo {
            stype: STRUCTURE_TYPE_SAMPLER_CREATE_INFO,
            flags: 0,
            mag_filter: filter.1,
            min_filter: filter.0,
            mipmap_mode: filter.2,
            address_mode_u: spec_map_wrap(info.wrap_mode.0),
            address_mode_v: spec_map_wrap(info.wrap_mode.1),
            address_mode_w: spec_map_wrap(info.wrap_mode.2),
            mip_lod_bias: info.lod_bias.0,
            anisotropy_enable: if filter.3 > 0 {
                BOOL32_TRUE
            } else {
                BOOL32_FALSE
            },
            max_anisotropy: filter.3,
            compare_enable: if info.comparison is Some {
                BOOL32_TRUE
            } else {
                BOOL32_FALSE
            },
            compare_op: if info.comparison is Some {
                spec_map_comparison(info.comparison->Some_0)
            } else {
                COMPARE_OP_NEVER
            },
            min_lod: info.lod_range.0.0,
            max_lod: info.lod_range.1.0,
            border_color: if spec_map_border_color(info.border) is Some {
                spec_map_border_color(info.border)->Some_0
            } else {
                BORDER_COLOR_FLOAT_TRANSPARENT_BLACK
            },
            unnormalized_coordinates: BOOL32_FALSE,
        }
    }

    /// Creates a sampler from a filter/wrap/comparison description and
    /// registers it, keeping the original description for introspection.
    /// Sampler creation always succeeds.
    pub fn create_sampler(&mut self, info: SamplerInfo) -> (h: Handle)
        requires
            old(self).wf(),
        ensures
            final(self).wf(),
            final(self).samplers.live(h),
            !old(self).samplers.live(h),
            final(self).samplers.get(h) == (SamplerResource {
                sampler: old(self).sampler_objects@.len() as u64,
                info,
            }),
            final(self).samplers.refs(h) == 1,
            final(self).sampler_objects@ == old(self).sampler_objects@.push(
                Factory::spec_sampler_create_info(info),
            ),
            forall|h2: Handle| h2 != h ==> (old(self).samplers.live(h2) <==> final(self).samplers.live(h2)),
            forall|h2: Handle| h2 != h && old(self).samplers.live(h2) ==> final(self).samplers.get(h2) == old(self).samplers.get(h2),
            *final(self) == (Factory {
                sampler_objects: final(self).sampler_objects,
                samplers: final(self).samplers,
                ..*old(self)
            }),
    {
        let (min, mag, mip, aniso) = map_filter(info.filter);
        let border_color: u32 = match map_border_color(info.border) {
            Some(bc) => bc,
            // The requested border color has no native equivalent: fall
            // back to transparent black.
            None => BORDER_COLOR_FLOAT_TRANSPARENT_BLACK,
        };
        let compare_op: u32 = match info.comparison {
            Some(fun) => map_comparison(fun),
            None => COMPARE_OP_NEVER,
        };
        let native_info = SamplerCreateInfo {
            stype: STRUCTURE_TYPE_SAMPLER_CREATE_INFO,
            flags: 0,
            mag_filter: mag,
            min_filter: min,
            mipmap_mode: mip,
            address_mode_u: map_wrap(info.wrap_mode.0),
            address_mode_v: map_wrap(info.wrap_mode.1),
            address_mode_w: map_wrap(info.wrap_mode.2),
            mip_lod_bias: info.lod_bias.0,
            anisotropy_enable: if aniso > 0 {
                BOOL32_TRUE
            } else {
                BOOL32_FALSE
            },
            max_anisotropy: aniso,
            compare_enable: if info.comparison.is_some() {
                BOOL32_TRUE
            } else {
                BOOL32_FALSE
            },
            compare_op,
            min_lod: info.lod_range.0.0,
            max_lod: info.lod_range.1.0,
            border_color,
            unnormalized_coordinates: BOOL32_FALSE,
        };
        let sampler = self.sampler_objects.len() as u64;
        self.sampler_objects.push(native_info);
        self.samplers.register(SamplerResource { sampler, info })
    }

    /// The image creation record for a texture description under a resolved
    /// channel type: mutable-format always, cube-compatible where the kind
    /// demands it, the depth extent folded to one for array kinds, and
    /// exclusive sharing.
    pub open spec fn spec_image_create_info(
        desc: TextureDescriptor,
        chan: ChannelType,
    ) -> ImageCreateInfo {
        let dims = desc.kind.spec_dimensions();
        let slices = desc.kind.spec_num_slices();
        let usage_tiling = spec_map_usage_tiling(desc.usage, desc.bind);
        ImageCreateInfo {
            stype: STRUCTURE_TYPE_IMAGE_CREATE_INFO,
            flags: IMAGE_CREATE_MUTABLE_FORMAT_BIT | (if desc.kind.spec_is_cube() {
                IMAGE_CREATE_CUBE_COMPATIBLE_BIT
            } else {
                0
            }),
            image_type: spec_map_image_type(desc.kind),
            format: spec_map_format(desc.format, chan)->Some_0,
            extent: Extent3d {
                width: dims.0 as u32,
                height: dims.1 as u32,
                depth: if slices is None {
                    dims.2 as u32
                } else {
                    1u32
                },
            },
            mip_levels: desc.levels as u32,
            array_layers: (if slices is Some {
                slices->Some_0
            } else {
                1u16
            }) as u32,
            samples: dims.3.spec_num_fragments() as u32,
            tiling: usage_tiling.1,
            usage: usage_tiling.0,
            sharing_mode: SHARING_MODE_EXCLUSIVE,
            queue_family_index_count: 0,
            initial_layout: spec_map_image_layout(desc.bind),
        }
    }

    /// The memory requirement the model device reports for an image: one
    /// texel worth of bytes per sample position, clamped to the address
    /// space.
    pub open spec fn spec_image_req_size(desc: TextureDescriptor) -> int {
        let dims = desc.kind.spec_dimensions();
        let slices = desc.kind.spec_num_slices();
        let depth: int = if slices is None {
            dims.2 as int
        } else {
            1
        };
        let layers: int = if slices is Some {
            slices->Some_0 as int
        } else {
            1
        };
        let total = dims.0 as int * dims.1 as int * depth * layers
            * desc.format.spec_texel_bytes() as int;
        if total > usize::MAX as int {
            usize::MAX as int
        } else {
            total
        }
    }

    /// Creates a texture: derives the native image record from the kind,
    /// dimensions, mip and slice counts and usage, resolving the pixel
    /// format under the channel hint (unsigned-integer channels when no
    /// hint is given); allocates and binds backing memory keyed off the
    /// usage class; registers a texture record whose initial layout is
    /// derived from the bind flags.  An unresolved format is a named error
    /// carrying the requested format and hint, and creates nothing.
    pub fn create_texture_raw(&mut self, desc: TextureDescriptor, hint: Option<ChannelType>) -> (r:
        Result<Handle, TextureError>)
        requires
            old(self).wf(),
        ensures
            final(self).wf(),
            ({
                let chan = if hint is Some {
                    hint->Some_0
                } else {
                    ChannelType::Uint
                };
                &&& (spec_map_format(desc.format, chan) is None ==> r == Err::<Handle, TextureError>(
                    TextureError::Format(desc.format, hint),
                ) && *final(self) == *old(self))
                &&& (spec_map_format(desc.format, chan) is Some ==> {
                    &&& r is Ok
                    &&& final(self).textures.live(r->Ok_0)
                    &&& !old(self).textures.live(r->Ok_0)
                    &&& final(self).textures.get(r->Ok_0) == (TextureResource {
                        image: old(self).images@.len() as u64,
                        layout: spec_map_image_layout(desc.bind),
                        memory: Some(old(self).memory@.len() as usize),
                        desc,
                    })
                    &&& final(self).textures.refs(r->Ok_0) == 1
                    &&& final(self).images@ == old(self).images@.push(
                        Factory::spec_image_create_info(desc, chan),
                    )
                    &&& final(self).memory@.len() == old(self).memory@.len() + 1
                    &&& final(self).block_bytes(old(self).memory@.len() as int).len()
                        == Factory::spec_image_req_size(desc)
                    &&& final(self).block_type(old(self).memory@.len() as int) == old(self).spec_memory_type_for(desc.usage)
                    &&& forall|h2: Handle| h2 != r->Ok_0 ==> (old(self).textures.live(h2) <==> final(self).textures.live(h2))
                    &&& forall|h2: Handle| h2 != r->Ok_0 && old(self).textures.live(h2) ==> final(self).textures.get(h2) == old(self).textures.get(h2)
                    &&& forall|j: int| 0 <= j < old(self).memory@.len() ==> final(self).memory@[j]
                        == old(self).memory@[j]
                    &&& *final(self) == (Factory {
                        images: final(self).images,
                        memory: final(self).memory,
                        textures: final(self).textures,
                        ..*old(self)
                    })
                })
            }),
    {
        let (w, h, d, aa) = desc.kind.get_dimensions();
        let slices = desc.kind.get_num_slices();
        let (usage, tiling) = map_usage_tiling(desc.usage, desc.bind);
        let chan_type = match hint {
            Some(c) => c,
            None => ChannelType::Uint,
        };
        let format: u32 = match map_format(desc.format, chan_type) {
            Some(f) => f,
            None => {
                return Err(TextureError::Format(desc.format, hint));
            },
        };
        let depth: u32 = if slices.is_none() {
            d as u32
        } else {
            1
        };
        let layers: u32 = match slices {
            Some(n) => n as u32,
            None => 1,
        };
        let info = ImageCreateInfo {
            stype: STRUCTURE_TYPE_IMAGE_CREATE_INFO,
            flags: IMAGE_CREATE_MUTABLE_FORMAT_BIT | (if desc.kind.is_cube() {
                IMAGE_CREATE_CUBE_COMPATIBLE_BIT
            } else {
                0
            }),
            image_type: map_image_type(desc.kind),
            format,
            extent: Extent3d { width: w as u32, height: h as u32, depth },
            mip_levels: desc.levels as u32,
            array_layers: layers,
            samples: aa.get_num_fragments() as u32,
            tiling,
            usage,
            sharing_mode: SHARING_MODE_EXCLUSIVE,
            queue_family_index_count: 0,
            initial_layout: map_image_layout(desc.bind),
        };
        let image = self.images.len() as u64;
        let mem_count = self.memory.len();
        // The model device reports a requirement of one texel per sample
        // position, clamped to the address space.
        let texel: u64 = desc.format.texel_bytes();
        proof {
            assert((w as u64) * (h as u64) <= 0xFFFF_FFFFu64) by (nonlinear_arith)
                requires
                    w <= 0xFFFFu16,
                    h <= 0xFFFFu16,
            ;
            assert((depth as u64) * (layers as u64) <= 0xFFFFu64) by (nonlinear_arith)
                requires
                    depth == 1 && layers <= 0xFFFFu32 || layers == 1 && depth <= 0xFFFFu32,
            ;
            assert(((w as u64) * (h as u64)) * ((depth as u64) * (layers as u64))
                <= 0xFFFF_FFFFu64 * 0xFFFFu64) by (nonlinear_arith)
                requires
                    (w as u64) * (h as u64) <= 0xFFFF_FFFFu64,
                    (depth as u64) * (layers as u64) <= 0xFFFFu64,
            ;
            assert((((w as u64) * (h as u64)) * ((depth as u64) * (layers as u64))) * texel
                <= 0xFFFF_FFFFu64 * 0xFFFFu64 * 16) by (nonlinear_arith)
                requires
                    ((w as u64) * (h as u64)) * ((depth as u64) * (layers as u64))
                        <= 0xFFFF_FFFFu64 * 0xFFFFu64,
                    texel <= 16u64,
            ;
        }
        let size64: u64 = ((w as u64) * (h as u64)) * ((depth as u64) * (layers as u64)) * texel;
        let req_size: usize = if size64 > (usize::MAX as u64) {
            usize::MAX
        } else {
            size64 as usize
        };
        proof {
            assert(((w as int) * (h as int)) * ((depth as int) * (layers as int)) * (texel as int)
                == (w as int) * (h as int) * (depth as int) * (layers as int) * (texel as int))
                by (nonlinear_arith);
            assert(req_size as int == Factory::spec_image_req_size(desc));
        }
        self.images.push(info);
        let (_alloc_info, memory) = self.allocate(desc.usage, req_size);
        let tex = TextureResource {
            image,
            layout: info.initial_layout,
            memory: Some(memory),
            desc,
        };
        let h = self.textures.register(tex);
        proof {
            assert forall|h2: Handle| #[trigger] self.buffers.live(h2) implies {
                &&& self.buffers.get(h2).memory < self.memory@.len()
                &&& self.block_bytes(self.buffers.get(h2).memory as int).len()
                    == self.buffers.get(h2).info.size
                &&& self.buffers.get(h2).info.size > 0
            } by {
                assert(old(self).buffers.live(h2));
                assert(self.memory@[self.buffers.get(h2).memory as int] == old(self).memory@[self.buffers.get(h2).memory as int]);
            }
        }
        Ok(h)
    }

    /// Writes a texture's current-layout tag.  The tag is the single
    /// mutable cell of the texture record: the out-of-scope command
    /// recording collaborator transitions it, and views snapshot it at
    /// view-creation time.
    pub fn set_texture_layout(&mut self, htex: Handle, layout: u32)
        requires
            old(self).wf(),
            old(self).textures.live(htex),
        ensures
            final(self).wf(),
            final(self).textures.live(htex),
            final(self).textures.get(htex) == (TextureResource {
                layout,
                ..old(self).textures.get(htex)
            }),
            final(self).textures.refs(htex) == old(self).textures.refs(htex),
            forall|h2: Handle| h2 != htex ==> (old(self).textures.live(h2) <==> final(self).textures.live(h2)),
            forall|h2: Handle| h2 != htex && old(self).textures.live(h2) ==> final(self).textures.get(h2) == old(self).textures.get(h2),
            *final(self) == (Factory { textures: final(self).textures, ..*old(self) }),
    {
        let mut slot = self.textures.slots[htex.index];
        match slot.value {
            Some(rec) => {
                slot.value = Some(TextureResource { layout, ..rec });
                self.textures.slots[htex.index] = slot;
            },
            None => {},
        }
    }

    /// Whether a texture's bind flags admit the requested view: a render
    /// target or depth-stencil view needs the matching target bind flag, a
    /// shader-resource view needs the shader-resource bind flag.
    pub open spec fn spec_view_bind_ok(bind: Bind, is_target: bool) -> bool {
        if is_target {
            bind.render_target || bind.depth_stencil
        } else {
            bind.shader_resource
        }
    }

    /// The first structural error a view request runs into, if any: a
    /// missing bind flag, then a layer-resolution failure, then an
    /// unsupported surface/channel pair.
    pub open spec fn spec_view_error(
        td: TextureDescriptor,
        desc: ResourceDesc,
        is_target: bool,
    ) -> Option<ResourceViewError> {
        if !Factory::spec_view_bind_ok(td.bind, is_target) {
            Some(ResourceViewError::NoBindFlag)
        } else if spec_map_image_view_type(td.kind, desc.layer) is Err {
            Some(ResourceViewError::Layer(spec_map_image_view_type(td.kind, desc.layer)->Err_0))
        } else if spec_map_format(td.format, desc.channel) is None {
            Some(ResourceViewError::Channel(desc.channel))
        } else {
            None
        }
    }

    /// An unsupported surface/channel pair is reported as the channel
    /// error whenever the view's bind flag is present and its layer
    /// selection resolves; where they apply, the bind-flag and layer errors
    /// take precedence, in that order.
    pub proof fn lemma_view_channel_error(
        td: TextureDescriptor,
        desc: ResourceDesc,
        is_target: bool,
    )
        requires
            Factory::spec_view_bind_ok(td.bind, is_target),
            spec_map_image_view_type(td.kind, desc.layer) is Ok,
            spec_map_format(td.format, desc.channel) is None,
        ensures
            Factory::spec_view_error(td, desc, is_target) == Some(
                ResourceViewError::Channel(desc.channel),
            ),
    {
    }

    /// The subresource range a view exposes: the aspect planes of the
    /// texture's surface, the requested mip range, and the selected layer
    /// (or all slices the kind reports, one where it reports none).
    pub open spec fn spec_subresource_range(
        td: TextureDescriptor,
        desc: ResourceDesc,
        is_target: bool,
    ) -> ImageSubresourceRange {
        ImageSubresourceRange {
            aspect_mask: spec_map_image_aspect(td.format, desc.channel, is_target),
            base_mip_level: desc.min as u32,
            level_count: (desc.max - desc.min + 1) as u32,
            base_array_layer: (if desc.layer is Some {
                desc.layer->Some_0
            } else {
                0u16
            }) as u32,
            layer_count: if desc.layer is Some {
                1u32
            } else {
                (if td.kind.spec_num_slices() is Some {
                    td.kind.spec_num_slices()->Some_0
                } else {
                    1u16
                }) as u32
            },
        }
    }

    /// The image-view creation record for a texture record and view
    /// description.
    pub open spec fn spec_image_view_info(
        rec: TextureResource,
        desc: ResourceDesc,
        is_target: bool,
    ) -> ImageViewCreateInfo {
        ImageViewCreateInfo {
            stype: STRUCTURE_TYPE_IMAGE_VIEW_CREATE_INFO,
            flags: 0,
            image: rec.image,
            view_type: spec_map_image_view_type(rec.desc.kind, desc.layer)->Ok_0,
            format: spec_map_format(rec.desc.format, desc.channel)->Some_0,
            components: spec_map_swizzle(desc.swizzle),
            subresource_range: Factory::spec_subresource_range(rec.desc, desc, is_target),
        }
    }

    /// Computes and creates an image view over a texture: view type from
    /// kind and layer, format from surface and channel, aspect from the
    /// surface's planes, and the subresource range from the mip range and
    /// layer selection.  The view snapshots the texture's current layout.
    /// On any structural error nothing is created.
    fn view_texture(&mut self, htex: Handle, desc: ResourceDesc, is_target: bool) -> (r: Result<
        TextureViewResource,
        ResourceViewError,
    >)
        requires
            old(self).wf(),
            old(self).textures.live(htex),
            desc.min <= desc.max,
        ensures
            final(self).wf(),
            ({
                let rec = old(self).textures.get(htex);
                &&& (Factory::spec_view_error(rec.desc, desc, is_target) is Some ==> r == Err::<
                    TextureViewResource,
                    ResourceViewError,
                >(Factory::spec_view_error(rec.desc, desc, is_target)->Some_0) && *final(self)
                    == *old(self))
                &&& (Factory::spec_view_error(rec.desc, desc, is_target) is None ==> {
                    &&& r is Ok
                    &&& r->Ok_0 == (TextureViewResource {
                        image: rec.image,
                        view: old(self).image_views@.len() as u64,
                        layout: rec.layout,
                        sub_range: Factory::spec_subresource_range(rec.desc, desc, is_target),
                    })
                    &&& final(self).image_views@ == old(self).image_views@.push(
                        Factory::spec_image_view_info(rec, desc, is_target),
                    )
                    &&& *final(self) == (Factory {
                        image_views: final(self).image_views,
                        ..*old(self)
                    })
                })
            }),
    {
        let rec = self.textures.resolve(htex).unwrap();
        let td = rec.desc;
        let bind_ok = if is_target {
            td.bind.render_target || td.bind.depth_stencil
        } else {
            td.bind.shader_resource
        };
        if !bind_ok {
            return Err(ResourceViewError::NoBindFlag);
        }
        let view_type: u32 = match map_image_view_type(td.kind, desc.layer) {
            Ok(vt) => vt,
            Err(e) => {
                return Err(ResourceViewError::Layer(e));
            },
        };
        let format: u32 = match map_format(td.format, desc.channel) {
            Some(f) => f,
            None => {
                return Err(ResourceViewError::Channel(desc.channel));
            },
        };
        let layer_count: u32 = match desc.layer {
            Some(_) => 1,
            None => match td.kind.get_num_slices() {
                Some(n) => n as u32,
                None => 1,
            },
        };
        let info = ImageViewCreateInfo {
            stype: STRUCTURE_TYPE_IMAGE_VIEW_CREATE_INFO,
            flags: 0,
            image: rec.image,
            view_type,
            format,
            components: map_swizzle(desc.swizzle),
            subresource_range: ImageSubresourceRange {
                aspect_mask: map_image_aspect(td.format, desc.channel, is_target),
                base_mip_level: desc.min as u32,
                level_count: desc.max as u32 - desc.min as u32 + 1,
                base_array_layer: match desc.layer {
                    Some(l) => l as u32,
                    None => 0,
                },
                layer_count,
            },
        };
        let view = self.image_views.len() as u64;
        self.image_views.push(info);
        Ok(
            TextureViewResource {
                image: rec.image,
                view,
                layout: rec.layout,  // the layout snapshot the view carries
                sub_range: info.subresource_range,
            },
        )
    }

    /// The target-view error a resource-view error maps to, shape for
    /// shape.
    pub open spec fn spec_target_error(e: ResourceViewError) -> TargetViewError {
        match e {
            ResourceViewError::NoBindFlag => TargetViewError::NoBindFlag,
            ResourceViewError::Channel(ct) => TargetViewError::Channel(ct),
            ResourceViewError::Layer(le) => TargetViewError::Layer(le),
            ResourceViewError::Unsupported => TargetViewError::Unsupported,
        }
    }

    /// The view description a target view uses: the base mip level only,
    /// identity swizzle.
    pub open spec fn spec_target_view_desc(channel: ChannelType, layer: Option<u16>) -> ResourceDesc {
        ResourceDesc {
            channel,
            layer,
            min: 0,
            max: 0,
            swizzle: Swizzle(ChannelSource::X, ChannelSource::Y, ChannelSource::Z, ChannelSource::W),
        }
    }

    /// Creates a render-target or depth-stencil flavored view of a texture:
    /// the mip range fixed to the base level, errors mapped through the
    /// same-shaped target error type.
    fn view_target(&mut self, htex: Handle, channel: ChannelType, layer: Option<u16>) -> (r: Result<
        TextureViewResource,
        TargetViewError,
    >)
        requires
            old(self).wf(),
            old(self).textures.live(htex),
        ensures
            final(self).wf(),
            ({
                let rec = old(self).textures.get(htex);
                let rdesc = Factory::spec_target_view_desc(channel, layer);
                &&& (Factory::spec_view_error(rec.desc, rdesc, true) is Some ==> r == Err::<
                    TextureViewResource,
                    TargetViewError,
                >(Factory::spec_target_error(Factory::spec_view_error(rec.desc, rdesc, true)->Some_0))
                    && *final(self) == *old(self))
                &&& (Factory::spec_view_error(rec.desc, rdesc, true) is None ==> {
                    &&& r is Ok
                    &&& r->Ok_0 == (TextureViewResource {
                        image: rec.image,
                        view: old(self).image_views@.len() as u64,
                        layout: rec.layout,
                        sub_range: Factory::spec_subresource_range(rec.desc, rdesc, true),
                    })
                    &&& final(self).image_views@ == old(self).image_views@.push(
                        Factory::spec_image_view_info(rec, rdesc, true),
                    )
                    &&& *final(self) == (Factory {
                        image_views: final(self).image_views,
                        ..*old(self)
                    })
                })
            }),
    {
        let rdesc = ResourceDesc { channel, layer, min: 0, max: 0, swizzle: Swizzle::new() };
        match self.view_texture(htex, rdesc, true) {
            Ok(view) => Ok(view),
            Err(e) => Err(
                match e {
                    ResourceViewError::NoBindFlag => TargetViewError::NoBindFlag,
                    ResourceViewError::Channel(ct) => TargetViewError::Channel(ct),
                    ResourceViewError::Layer(le) => TargetViewError::Layer(le),
                    ResourceViewError::Unsupported => TargetViewError::Unsupported,
                },
            ),
        }
    }

    /// Buffer views are not supported by this layer.
    pub fn view_buffer_as_shader_resource_raw(&mut self, _hbuf: Handle) -> (r: Result<
        Handle,
        ResourceViewError,
    >)
        ensures
            r == Err::<Handle, ResourceViewError>(ResourceViewError::Unsupported),
            *final(self) == *old(self),
    {
        Err(ResourceViewError::Unsupported)
    }

    /// Buffer views are not supported by this layer.
    pub fn view_buffer_as_unordered_access_raw(&mut self, _hbuf: Handle) -> (r: Result<
        Handle,
        ResourceViewError,
    >)
        ensures
            r == Err::<Handle, ResourceViewError>(ResourceViewError::Unsupported),
            *final(self) == *old(self),
    {
        Err(ResourceViewError::Unsupported)
    }

    /// Unordered-access texture views are not supported by this layer.
    pub fn view_texture_as_unordered_access_raw(&mut self, _htex: Handle) -> (r: Result<
        Handle,
        ResourceViewError,
    >)
        ensures
            r == Err::<Handle, ResourceViewError>(ResourceViewError::Unsupported),
            *final(self) == *old(self),
    {
        Err(ResourceViewError::Unsupported)
    }

    /// Creates a shader-resource view of a texture and registers it.
    pub fn view_texture_as_shader_resource_raw(&mut self, htex: Handle, desc: ResourceDesc) -> (r:
        Result<Handle, ResourceViewError>)
        requires
            old(self).wf(),
            old(self).textures.live(htex),
            desc.min <= desc.max,
        ensures
            final(self).wf(),
            ({
                let rec = old(self).textures.get(htex);
                &&& (Factory::spec_view_error(rec.desc, desc, false) is Some ==> r == Err::<
                    Handle,
                    ResourceViewError,
                >(Factory::spec_view_error(rec.desc, desc, false)->Some_0) && *final(self) == *old(self))
                &&& (Factory::spec_view_error(rec.desc, desc, false) is None ==> {
                    &&& r is Ok
                    &&& final(self).srvs.live(r->Ok_0)
                    &&& !old(self).srvs.live(r->Ok_0)
                    &&& final(self).srvs.refs(r->Ok_0) == 1
                    &&& final(self).srvs.get(r->Ok_0) == (TextureViewResource {
                        image: rec.image,
                        view: old(self).image_views@.len() as u64,
                        layout: rec.layout,
                        sub_range: Factory::spec_subresource_range(rec.desc, desc, false),
                    })
                    &&& final(self).image_views@ == old(self).image_views@.push(
                        Factory::spec_image_view_info(rec, desc, false),
                    )
                    &&& forall|h2: Handle| h2 != r->Ok_0 ==> (old(self).srvs.live(h2) <==> final(self).srvs.live(h2))
                    &&& forall|h2: Handle| h2 != r->Ok_0 && old(self).srvs.live(h2) ==> final(self).srvs.get(h2) == old(self).srvs.get(h2)
                    &&& *final(self) == (Factory {
                        image_views: final(self).image_views,
                        srvs: final(self).srvs,
                        ..*old(self)
                    })
                })
            }),
    {
        match self.view_texture(htex, desc, false) {
            Ok(view) => Ok(self.srvs.register(view)),
            Err(e) => Err(e),
        }
    }

    /// Creates a render-target view of a texture, scoped to the base mip
    /// level, and registers it.  A selected layer narrows the target
    /// dimensions to one slice.
    pub fn view_texture_as_render_target_raw(&mut self, htex: Handle, desc: RenderDesc) -> (r:
        Result<Handle, TargetViewError>)
        requires
            old(self).wf(),
            old(self).textures.live(htex),
        ensures
            final(self).wf(),
            ({
                let rec = old(self).textures.get(htex);
                let rdesc = Factory::spec_target_view_desc(desc.channel, desc.layer);
                &&& (Factory::spec_view_error(rec.desc, rdesc, true) is Some ==> r == Err::<
                    Handle,
                    TargetViewError,
                >(Factory::spec_target_error(
                    Factory::spec_view_error(rec.desc, rdesc, true)->Some_0,
                )) && *final(self) == *old(self))
                &&& (Factory::spec_view_error(rec.desc, rdesc, true) is None ==> {
                    &&& r is Ok
                    &&& final(self).rtvs.live(r->Ok_0)
                    &&& !old(self).rtvs.live(r->Ok_0)
                    &&& final(self).rtvs.refs(r->Ok_0) == 1
                    &&& final(self).rtvs.get(r->Ok_0) == (TargetViewResource {
                        view: TextureViewResource {
                            image: rec.image,
                            view: old(self).image_views@.len() as u64,
                            layout: rec.layout,
                            sub_range: Factory::spec_subresource_range(rec.desc, rdesc, true),
                        },
                        dimensions: ({
                            let dims = rec.desc.kind.spec_dimensions();
                            if desc.layer is Some {
                                (dims.0, dims.1, 1u16, dims.3)
                            } else {
                                dims
                            }
                        }),
                    })
                    &&& final(self).image_views@ == old(self).image_views@.push(
                        Factory::spec_image_view_info(rec, rdesc, true),
                    )
                    &&& forall|h2: Handle| h2 != r->Ok_0 ==> (old(self).rtvs.live(h2) <==> final(self).rtvs.live(h2))
                    &&& forall|h2: Handle| h2 != r->Ok_0 && old(self).rtvs.live(h2) ==> final(self).rtvs.get(h2) == old(self).rtvs.get(h2)
                    &&& *final(self) == (Factory {
                        image_views: final(self).image_views,
                        rtvs: final(self).rtvs,
                        ..*old(self)
                    })
                })
            }),
    {
        let rec = self.textures.resolve(htex).unwrap();
        let (w, h, d, aa) = rec.desc.kind.get_dimensions();
        let dimensions = if desc.layer.is_some() {
            // A selected layer views one slice of the depth or array extent.
            (w, h, 1u16, aa)
        } else {
            (w, h, d, aa)
        };
        match self.view_target(htex, desc.channel, desc.layer) {
            Ok(view) => Ok(self.rtvs.register(TargetViewResource { view, dimensions })),
            Err(e) => Err(e),
        }
    }

    /// Creates a depth-stencil view of a texture, scoped to the base mip
    /// level; the channel interpretation of a depth-stencil target is
    /// always unsigned-normalized.
    pub fn view_texture_as_depth_stencil_raw(&mut self, htex: Handle, desc: DepthStencilDesc) -> (r:
        Result<Handle, TargetViewError>)
        requires
            old(self).wf(),
            old(self).textures.live(htex),
        ensures
            final(self).wf(),
            ({
                let rec = old(self).textures.get(htex);
                let rdesc = Factory::spec_target_view_desc(ChannelType::Unorm, desc.layer);
                &&& (Factory::spec_view_error(rec.desc, rdesc, true) is Some ==> r == Err::<
                    Handle,
                    TargetViewError,
                >(Factory::spec_target_error(
                    Factory::spec_view_error(rec.desc, rdesc, true)->Some_0,
                )) && *final(self) == *old(self))
                &&& (Factory::spec_view_error(rec.desc, rdesc, true) is None ==> {
                    &&& r is Ok
                    &&& final(self).dsvs.live(r->Ok_0)
                    &&& !old(self).dsvs.live(r->Ok_0)
                    &&& final(self).dsvs.refs(r->Ok_0) == 1
                    &&& final(self).dsvs.get(r->Ok_0) == (TargetViewResource {
                        view: TextureViewResource {
                            image: rec.image,
                            view: old(self).image_views@.len() as u64,
                            layout: rec.layout,
                            sub_range: Factory::spec_subresource_range(rec.desc, rdesc, true),
                        },
                        dimensions: ({
                            let dims = rec.desc.kind.spec_dimensions();
                            if desc.layer is Some {
                                (dims.0, dims.1, 1u16, dims.3)
                            } else {
                                dims
                            }
                        }),
                    })
                    &&& final(self).image_views@ == old(self).image_views@.push(
                        Factory::spec_image_view_info(rec, rdesc, true),
                    )
                    &&& forall|h2: Handle| h2 != r->Ok_0 ==> (old(self).dsvs.live(h2) <==> final(self).dsvs.live(h2))
                    &&& forall|h2: Handle| h2 != r->Ok_0 && old(self).dsvs.live(h2) ==> final(self).dsvs.get(h2) == old(self).dsvs.get(h2)
                    &&& *final(self) == (Factory {
                        image_views: final(self).image_views,
                        dsvs: final(self).dsvs,
                        ..*old(self)
                    })
                })
            }),
    {
        let rec = self.textures.resolve(htex).unwrap();
        let (w, h, d, aa) = rec.desc.kind.get_dimensions();
        let dimensions = if desc.layer.is_some() {
            (w, h, 1u16, aa)
        } else {
            (w, h, d, aa)
        };
        let channel = ChannelType::Unorm;
        match self.view_target(htex, channel, desc.layer) {
            Ok(view) => Ok(self.dsvs.register(TargetViewResource { view, dimensions })),
            Err(e) => Err(e),
        }
    }

    /// The texture record a swapchain image wraps into: a single-sample 2D
    /// image of the given extent with one mip level, bound as a render
    /// target only, device-only usage, already in the general layout, with
    /// no factory-owned memory.
    pub open spec fn spec_swapchain_texture(
        image: u64,
        format: Format,
        size: (u32, u32),
    ) -> TextureResource {
        TextureResource {
            image,
            layout: IMAGE_LAYOUT_GENERAL,
            memory: None,
            desc: TextureDescriptor {
                kind: Kind::D2(size.0 as u16, size.1 as u16, AaMode::Single),
                levels: 1,
                format: format.0,
                bind: Bind {
                    render_target: true,
                    depth_stencil: false,
                    shader_resource: false,
                    unordered_access: false,
                },
                usage: Usage::GpuOnly,
            },
        }
    }

    /// Wraps an externally owned swapchain image (already in the general
    /// layout, with no factory-owned memory) as a single-level 2D render
    /// target: registers the wrapping texture record, files the image-view
    /// creation record, and returns a render-target view of the full
    /// extent.  An unsupported surface/channel pair is rejected before
    /// anything is registered.
    pub fn view_swapchain_image(&mut self, image: u64, format: Format, size: (u32, u32)) -> (r:
        Result<Handle, TargetViewError>)
        requires
            old(self).wf(),
            size.0 <= 0xFFFF,
            size.1 <= 0xFFFF,
        ensures
            final(self).wf(),
            spec_map_format(format.0, format.1) is None ==> r == Err::<Handle, TargetViewError>(
                TargetViewError::Channel(format.1),
            ) && *final(self) == *old(self),
            spec_map_format(format.0, format.1) is Some ==> {
                let tex_rec = Factory::spec_swapchain_texture(image, format, size);
                let rdesc = Factory::spec_target_view_desc(format.1, None);
                &&& r is Ok
                &&& final(self).rtvs.live(r->Ok_0)
                &&& !old(self).rtvs.live(r->Ok_0)
                &&& final(self).rtvs.refs(r->Ok_0) == 1
                &&& final(self).rtvs.get(r->Ok_0) == (TargetViewResource {
                    view: TextureViewResource {
                        image,
                        view: old(self).image_views@.len() as u64,
                        layout: IMAGE_LAYOUT_GENERAL,
                        sub_range: Factory::spec_subresource_range(tex_rec.desc, rdesc, true),
                    },
                    dimensions: (size.0 as u16, size.1 as u16, 1u16, AaMode::Single),
                })
                // The image-view creation record filed for the view.
                &&& final(self).image_views@ == old(self).image_views@.push(
                    Factory::spec_image_view_info(tex_rec, rdesc, true),
                )
                // The wrapping texture record, registered under a fresh
                // handle with one reference; every other texture is kept.
                &&& exists|ht: Handle|
                    {
                        &&& !old(self).textures.live(ht)
                        &&& #[trigger] final(self).textures.live(ht)
                        &&& final(self).textures.get(ht) == tex_rec
                        &&& final(self).textures.refs(ht) == 1
                        &&& forall|h2: Handle| h2 != ht ==> (old(self).textures.live(h2) <==> final(self).textures.live(h2))
                        &&& forall|h2: Handle| h2 != ht && old(self).textures.live(h2) ==> final(self).textures.get(h2) == old(self).textures.get(h2) && final(self).textures.refs(h2) == old(self).textures.refs(h2)
                    }
                &&& forall|h2: Handle| h2 != r->Ok_0 ==> (old(self).rtvs.live(h2) <==> final(self).rtvs.live(h2))
                &&& forall|h2: Handle| h2 != r->Ok_0 && old(self).rtvs.live(h2) ==> final(self).rtvs.get(h2) == old(self).rtvs.get(h2)
                &&& *final(self) == (Factory {
                    textures: final(self).textures,
                    image_views: final(self).image_views,
                    rtvs: final(self).rtvs,
                    ..*old(self)
                })
            },
    {
        // Resolve the format first, so that a rejected request registers
        // nothing.
        if map_format(format.0, format.1).is_none() {
            return Err(TargetViewError::Channel(format.1));
        }
        let raw_tex = TextureResource {
            image,
            layout: IMAGE_LAYOUT_GENERAL,
            memory: None,
            desc: TextureDescriptor {
                kind: Kind::D2(size.0 as u16, size.1 as u16, AaMode::Single),
                levels: 1,
                format: format.0,
                bind: Bind {
                    render_target: true,
                    depth_stencil: false,
                    shader_resource: false,
                    unordered_access: false,
                },
                usage: Usage::GpuOnly,
            },
        };
        let tex = self.textures.register(raw_tex);
        let view_desc = RenderDesc { channel: format.1, level: 0, layer: None };
        let r = self.view_texture_as_render_target_raw(tex, view_desc);
        proof {
            assert(r is Ok);
            assert(self.textures.live(tex) && self.textures.get(tex)
                == Factory::spec_swapchain_texture(image, format, size) && self.textures.refs(tex)
                == 1);
        }
        r
    }

    /// Whether every format a pipeline descriptor names resolves: the
    /// present color targets, the optional depth-stencil target, and the
    /// present vertex attributes.
    pub open spec fn spec_pipeline_formats_ok(desc: PipelineDescriptor) -> bool {
        &&& crate::pipeline::spec_colors_resolvable(desc.color_targets@)
        &&& crate::pipeline::spec_depth_stencil_resolvable(desc.depth_stencil)
        &&& crate::pipeline::spec_attributes_resolvable(desc.attributes@)
    }

    /// Creates a full pipeline state object: resolves the program's stages,
    /// builds the descriptor-set layout (one binding per populated slot,
    /// binding index equal to the slot index), a pipeline layout over that
    /// single set layout with no push-constant ranges, a descriptor pool of
    /// the factory's fixed capacity, a render pass with one attachment per
    /// present color target plus the optional depth-stencil attachment and
    /// exactly one subpass, and the fixed-function pipeline state; then
    /// registers the pipeline record.  Any format-resolution failure aborts
    /// the whole operation with the creation error before anything is
    /// created or registered.
    pub fn create_pipeline_state_raw(&mut self, program: Handle, desc: &PipelineDescriptor) -> (r:
        Result<Handle, CreationError>)
        requires
            old(self).wf(),
            old(self).programs.live(program),
            old(self).spec_program_stages_live(program),
            desc.constant_buffers@.len() <= 0xFFFF_FFFF,
            desc.resource_views@.len() <= 0xFFFF_FFFF,
            desc.unordered_views@.len() <= 0xFFFF_FFFF,
            desc.samplers@.len() <= 0xFFFF_FFFF,
            desc.vertex_buffers@.len() <= 0xFFFF_FFFF,
            desc.attributes@.len() <= 0xFFFF_FFFF,
            desc.color_targets@.len() <= 0xFFFF_FFFF,
        ensures
            final(self).wf(),
            !Factory::spec_pipeline_formats_ok(*desc) ==> r == Err::<Handle, CreationError>(
                CreationError,
            ) && *final(self) == *old(self),
            Factory::spec_pipeline_formats_ok(*desc) ==> {
                let ncolors = crate::pipeline::spec_color_formats(
                    desc.color_targets@,
                    desc.color_targets@.len() as int,
                ).len() as int;
                let ds_format = if desc.depth_stencil is Some {
                    Some(
                        spec_map_format(
                            desc.depth_stencil->Some_0.0.0,
                            desc.depth_stencil->Some_0.0.1,
                        )->Some_0,
                    )
                } else {
                    None::<u32>
                };
                &&& r is Ok
                &&& final(self).pipelines.live(r->Ok_0)
                &&& !old(self).pipelines.live(r->Ok_0)
                &&& final(self).pipelines.refs(r->Ok_0) == 1
                &&& final(self).pipelines.get(r->Ok_0) == (PipelineResource {
                    pipeline: old(self).graphics_pipelines@.len() as u64,
                    pipe_layout: old(self).pipe_layouts@.len() as u64,
                    desc_layout: old(self).set_layouts@.len() as u64,
                    desc_pool: old(self).desc_pools@.len() as u64,
                    render_pass: old(self).render_passes@.len() as u64,
                    program,
                })
                // The descriptor-set layout: one binding per populated slot,
                // never renumbered.
                &&& final(self).set_layouts@.len() == old(self).set_layouts@.len() + 1
                &&& final(self).set_layouts@ == old(self).set_layouts@.push(final(self).set_layouts@.last())
                &&& final(self).set_layouts@.last().stype
                    == STRUCTURE_TYPE_DESCRIPTOR_SET_LAYOUT_CREATE_INFO
                &&& final(self).set_layouts@.last().flags == 0
                &&& final(self).set_layouts@.last().bindings@
                    == crate::pipeline::spec_descriptor_bindings(
                    desc.constant_buffers@,
                    desc.resource_views@,
                    desc.unordered_views@,
                    desc.samplers@,
                )
                // The pipeline layout: exactly one set layout, no push
                // constants.
                &&& final(self).pipe_layouts@.len() == old(self).pipe_layouts@.len() + 1
                &&& final(self).pipe_layouts@ == old(self).pipe_layouts@.push(final(self).pipe_layouts@.last())
                &&& final(self).pipe_layouts@.last().stype
                    == STRUCTURE_TYPE_PIPELINE_LAYOUT_CREATE_INFO
                &&& final(self).pipe_layouts@.last().set_layouts@ == seq![
                    old(self).set_layouts@.len() as u64,
                ]
                &&& final(self).pipe_layouts@.last().push_constant_range_count == 0
                // The descriptor pool: the fixed static capacity.
                &&& final(self).desc_pools@ == old(self).desc_pools@.push(
                    DescriptorPoolCreateInfo {
                        stype: STRUCTURE_TYPE_DESCRIPTOR_POOL_CREATE_INFO,
                        flags: 0,
                        max_sets: old(self).descriptor_pool_capacity,
                        pool_size_count: 0,
                    },
                )
                // The render pass: one attachment per present color target,
                // the optional depth-stencil attachment, one subpass, no
                // dependencies.
                &&& final(self).render_passes@.len() == old(self).render_passes@.len() + 1
                &&& final(self).render_passes@ == old(self).render_passes@.push(final(self).render_passes@.last())
                &&& final(self).render_passes@.last().stype
                    == STRUCTURE_TYPE_RENDER_PASS_CREATE_INFO
                &&& final(self).render_passes@.last().attachments@
                    == crate::pipeline::spec_render_pass_attachments(
                    crate::pipeline::spec_color_formats(
                        desc.color_targets@,
                        desc.color_targets@.len() as int,
                    ),
                    ds_format,
                )
                &&& final(self).render_passes@.last().subpasses@.len() == 1
                &&& final(self).render_passes@.last().subpasses@[0].pipeline_bind_point
                    == PIPELINE_BIND_POINT_GRAPHICS
                &&& final(self).render_passes@.last().subpasses@[0].color_attachments@
                    == crate::pipeline::spec_color_refs(ncolors)
                &&& final(self).render_passes@.last().subpasses@[0].depth_stencil_attachment == (
                if desc.depth_stencil is Some {
                    Some(
                        AttachmentReference {
                            attachment: ncolors as u32,
                            layout: IMAGE_LAYOUT_GENERAL,
                        },
                    )
                } else {
                    None::<AttachmentReference>
                })
                &&& final(self).render_passes@.last().dependency_count == 0
                // The graphics pipeline: stages, vertex input, fixed
                // function state, and the four dynamic states.
                &&& final(self).graphics_pipelines@.len() == old(self).graphics_pipelines@.len() + 1
                &&& final(self).graphics_pipelines@ == old(self).graphics_pipelines@.push(final(self).graphics_pipelines@.last())
                &&& ({
                    let p = final(self).graphics_pipelines@.last();
                    &&& p.stype == STRUCTURE_TYPE_GRAPHICS_PIPELINE_CREATE_INFO
                    &&& p.flags == 0
                    &&& p.stages@ == old(self).spec_shader_stages(program)
                    &&& p.vertex_bindings@ == crate::pipeline::spec_vertex_bindings(
                        desc.vertex_buffers@,
                        desc.vertex_buffers@.len() as int,
                    )
                    &&& p.vertex_attributes@ == crate::pipeline::spec_vertex_attributes(
                        desc.attributes@,
                        desc.attributes@.len() as int,
                    )
                    &&& p.topology == crate::translate::spec_map_topology(desc.primitive)
                    &&& p.primitive_restart_enable == BOOL32_FALSE
                    &&& p.viewport_count == 1
                    &&& p.scissor_count == 1
                    &&& p.rasterization == crate::pipeline::spec_rasterization_state(
                        desc.rasterizer,
                    )
                    &&& p.sample_count == SAMPLE_COUNT_1_BIT
                    &&& p.depth_stencil == crate::pipeline::spec_depth_stencil_state(
                        desc.depth_stencil,
                    )
                    &&& p.blend_attachments@ == crate::pipeline::spec_blend_states(
                        desc.color_targets@,
                        desc.color_targets@.len() as int,
                    )
                    &&& p.dynamic_states@ == crate::pipeline::spec_dynamic_states()
                    &&& p.layout == old(self).pipe_layouts@.len() as u64
                    &&& p.render_pass == old(self).render_passes@.len() as u64
                    &&& p.subpass == 0
                })
                // Every other live pipeline, and everything else the
                // factory holds, is untouched.
                &&& forall|h2: Handle| h2 != r->Ok_0 ==> (old(self).pipelines.live(h2) <==> final(self).pipelines.live(h2))
                &&& forall|h2: Handle| h2 != r->Ok_0 && old(self).pipelines.live(h2) ==> final(self).pipelines.get(h2) == old(self).pipelines.get(h2)
                &&& *final(self) == (Factory {
                    set_layouts: final(self).set_layouts,
                    pipe_layouts: final(self).pipe_layouts,
                    desc_pools: final(self).desc_pools,
                    render_passes: final(self).render_passes,
                    graphics_pipelines: final(self).graphics_pipelines,
                    pipelines: final(self).pipelines,
                    ..*old(self)
                })
            },
    {
        let stages = self.get_shader_stages(program);
        // Resolve every format first: a failure aborts the whole operation
        // before any native object exists.
        let (color_formats, blend_attachments) =
            match crate::pipeline::resolve_color_targets(&desc.color_targets) {
            Ok(pair) => pair,
            Err(e) => {
                return Err(e);
            },
        };
        let ds_format: Option<u32> = match &desc.depth_stencil {
            Some((fmt, _)) => match map_format(fmt.0, fmt.1) {
                Some(f) => Some(f),
                None => {
                    return Err(CreationError);
                },
            },
            None => None,
        };
        let vertex_attributes = match crate::pipeline::build_vertex_attributes(&desc.attributes) {
            Ok(v) => v,
            Err(e) => {
                return Err(e);
            },
        };
        let bindings = crate::pipeline::build_descriptor_bindings(desc);
        let vertex_bindings = crate::pipeline::build_vertex_bindings(&desc.vertex_buffers);
        let set_layout = self.set_layouts.len() as u64;
        self.set_layouts.push(
            DescriptorSetLayoutCreateInfo {
                stype: STRUCTURE_TYPE_DESCRIPTOR_SET_LAYOUT_CREATE_INFO,
                flags: 0,
                bindings,
            },
        );
        let pipe_layout = self.pipe_layouts.len() as u64;
        let mut layout_refs: Vec<u64> = Vec::new();
        layout_refs.push(set_layout);
        proof {
            assert(layout_refs@ =~= seq![set_layout]);
        }
        self.pipe_layouts.push(
            PipelineLayoutCreateInfo {
                stype: STRUCTURE_TYPE_PIPELINE_LAYOUT_CREATE_INFO,
                flags: 0,
                set_layouts: layout_refs,
                push_constant_range_count: 0,
            },
        );
        let desc_pool = self.desc_pools.len() as u64;
        self.desc_pools.push(
            DescriptorPoolCreateInfo {
                stype: STRUCTURE_TYPE_DESCRIPTOR_POOL_CREATE_INFO,
                flags: 0,
                max_sets: self.descriptor_pool_capacity,
                pool_size_count: 0,
            },
        );
        let render_pass = self.render_passes.len() as u64;
        self.render_passes.push(
            crate::pipeline::build_render_pass_info(&color_formats, ds_format),
        );
        let pipeline = self.graphics_pipelines.len() as u64;
        self.graphics_pipelines.push(
            GraphicsPipelineCreateInfo {
                stype: STRUCTURE_TYPE_GRAPHICS_PIPELINE_CREATE_INFO,
                flags: 0,
                stages,
                vertex_bindings,
                vertex_attributes,
                topology: crate::translate::map_topology(desc.primitive),
                primitive_restart_enable: BOOL32_FALSE,
                viewport_count: 1,
                scissor_count: 1,
                rasterization: crate::pipeline::build_rasterization_state(&desc.rasterizer),
                sample_count: SAMPLE_COUNT_1_BIT,
                depth_stencil: crate::pipeline::build_depth_stencil_state(&desc.depth_stencil),
                blend_attachments,
                dynamic_states: crate::pipeline::build_dynamic_states(),
                layout: pipe_layout,
                render_pass,
                subpass: 0,
            },
        );
        let record = PipelineResource {
            pipeline,
            pipe_layout,
            desc_layout: set_layout,
            desc_pool,
            render_pass,
            program,
        };
        Ok(self.pipelines.register(record))
    }
}

} // verus!
