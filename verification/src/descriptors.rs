//! The device-agnostic resource descriptions the factory consumes: pixel
//! formats, buffer and texture descriptors, pipeline fixed-function state,
//! sampler state, and the error taxonomy of the creation entry points.

use vstd::prelude::*;

verus! {

/// An abstract pixel layout: how many channels a texel has and how wide each is.
#[allow(non_camel_case_types)]
#[derive(Clone, Copy, Debug, PartialEq, Eq, Structural)]
pub enum SurfaceType {
    R8,
    R8_G8,
    R8_G8_B8_A8,
    R16,
    R16_G16,
    R16_G16_B16_A16,
    R32,
    R32_G32,
    R32_G32_B32,
    R32_G32_B32_A32,
    D16,
    D24,
    D24_S8,
    D32,
}

impl SurfaceType {
    /// Whether the surface carries a depth plane.
    pub open spec fn spec_has_depth(self) -> bool {
        self is D16 || self is D24 || self is D24_S8 || self is D32
    }

    /// Whether the surface carries a stencil plane.
    pub open spec fn spec_has_stencil(self) -> bool {
        self is D24_S8
    }

    pub fn has_depth(self) -> (r: bool)
        ensures
            r == self.spec_has_depth(),
    {
        match self {
            SurfaceType::D16 | SurfaceType::D24 | SurfaceType::D24_S8 | SurfaceType::D32 => true,
            _ => false,
        }
    }

    /// Bytes one texel of this surface occupies.
    pub open spec fn spec_texel_bytes(self) -> u64 {
        match self {
            SurfaceType::R8 => 1,
            SurfaceType::R8_G8 => 2,
            SurfaceType::R8_G8_B8_A8 => 4,
            SurfaceType::R16 => 2,
            SurfaceType::R16_G16 => 4,
            SurfaceType::R16_G16_B16_A16 => 8,
            SurfaceType::R32 => 4,
            SurfaceType::R32_G32 => 8,
            SurfaceType::R32_G32_B32 => 12,
            SurfaceType::R32_G32_B32_A32 => 16,
            SurfaceType::D16 => 2,
            SurfaceType::D24 => 4,
            SurfaceType::D24_S8 => 4,
            SurfaceType::D32 => 4,
        }
    }

    pub fn texel_bytes(self) -> (r: u64)
        ensures
            r == self.spec_texel_bytes(),
    {
        match self {
            SurfaceType::R8 => 1,
            SurfaceType::R8_G8 => 2,
            SurfaceType::R8_G8_B8_A8 => 4,
            SurfaceType::R16 => 2,
            SurfaceType::R16_G16 => 4,
            SurfaceType::R16_G16_B16_A16 => 8,
            SurfaceType::R32 => 4,
            SurfaceType::R32_G32 => 8,
            SurfaceType::R32_G32_B32 => 12,
            SurfaceType::R32_G32_B32_A32 => 16,
            SurfaceType::D16 => 2,
            SurfaceType::D24 => 4,
            SurfaceType::D24_S8 => 4,
            SurfaceType::D32 => 4,
        }
    }
}

/// How the channels of a texel are to be interpreted.
#[derive(Clone, Copy, Debug, PartialEq, Eq, Structural)]
pub enum ChannelType {
    Int,
    Uint,
    Inorm,
    Unorm,
    Float,
    Srgb,
}

/// A full pixel format: a surface and a channel interpretation.
#[derive(Clone, Copy, Debug, PartialEq, Eq, Structural)]
pub struct Format(pub SurfaceType, pub ChannelType);

/// Which pipeline binding points a resource may be attached to.
#[derive(Clone, Copy, Debug, PartialEq, Eq, Structural)]
pub struct Bind {
    pub render_target: bool,
    pub depth_stencil: bool,
    pub shader_resource: bool,
    pub unordered_access: bool,
}

/// The access mode a host mapping requests or a usage class grants.
#[derive(Clone, Copy, Debug, PartialEq, Eq, Structural)]
pub enum Access {
    Readable,
    Writable,
    ReadWrite,
}

impl Access {
    pub open spec fn allows_read(self) -> bool {
        self is Readable || self is ReadWrite
    }

    pub open spec fn allows_write(self) -> bool {
        self is Writable || self is ReadWrite
    }

    /// Whether a grant of `self` covers a request of `requested`.
    pub open spec fn permits(self, requested: Access) -> bool {
        &&& requested.allows_read() ==> self.allows_read()
        &&& requested.allows_write() ==> self.allows_write()
    }
}

/// The declared usage class of a buffer or texture.
#[derive(Clone, Copy, Debug, PartialEq, Eq, Structural)]
pub enum Usage {
    GpuOnly,
    Immutable,
    Dynamic,
    CpuOnly(Access),
}

impl Usage {
    pub open spec fn is_cpu_only(self) -> bool {
        self is CpuOnly
    }

    /// The access modes a host mapping of a resource of this usage may request:
    /// device-only resources map not at all, immutable ones only for reading,
    /// dynamic ones freely, and host-only ones within their declared access.
    pub open spec fn mappable(self, access: Access) -> bool {
        match self {
            Usage::GpuOnly => false,
            Usage::Immutable => !access.allows_write(),
            Usage::Dynamic => true,
            Usage::CpuOnly(granted) => granted.permits(access),
        }
    }

    pub fn may_map(self, access: Access) -> (r: bool)
        ensures
            r == self.mappable(access),
    {
        match self {
            Usage::GpuOnly => false,
            Usage::Immutable => match access {
                Access::Readable => true,
                _ => false,
            },
            Usage::Dynamic => true,
            Usage::CpuOnly(granted) => match (granted, access) {
                (Access::ReadWrite, _) => true,
                (Access::Readable, Access::Readable) => true,
                (Access::Writable, Access::Writable) => true,
                _ => false,
            },
        }
    }
}

/// What a buffer is for.
#[derive(Clone, Copy, Debug, PartialEq, Eq, Structural)]
pub enum BufferRole {
    Vertex,
    Index,
    Uniform,
}

/// A caller-facing buffer description.
#[derive(Clone, Copy, Debug, PartialEq, Eq, Structural)]
pub struct BufferInfo {
    pub role: BufferRole,
    pub usage: Usage,
    pub bind: Bind,
    /// Byte size of the buffer.
    pub size: usize,
    /// Byte stride of one element.
    pub stride: usize,
}

/// Anti-aliasing mode of a texture.
#[derive(Clone, Copy, Debug, PartialEq, Eq, Structural)]
pub enum AaMode {
    Single,
    Multi(u8),
}

impl AaMode {
    pub open spec fn spec_num_fragments(self) -> u8 {
        match self {
            AaMode::Single => 1,
            AaMode::Multi(n) => n,
        }
    }

    pub fn get_num_fragments(self) -> (r: u8)
        ensures
            r == self.spec_num_fragments(),
    {
        match self {
            AaMode::Single => 1,
            AaMode::Multi(n) => n,
        }
    }
}

/// The shape of a texture: dimensionality, extent, and array/cube structure.
#[derive(Clone, Copy, Debug, PartialEq, Eq, Structural)]
pub enum Kind {
    D1(u16),
    D1Array(u16, u16),
    D2(u16, u16, AaMode),
    D2Array(u16, u16, u16, AaMode),
    D3(u16, u16, u16),
    Cube(u16),
    CubeArray(u16, u16),
}

impl Kind {
    /// Width, height, depth and anti-aliasing of the kind; the depth slot
    /// carries the array length for array kinds.
    pub open spec fn spec_dimensions(self) -> (u16, u16, u16, AaMode) {
        match self {
            Kind::D1(w) => (w, 1u16, 1u16, AaMode::Single),
            Kind::D1Array(w, n) => (w, 1u16, n, AaMode::Single),
            Kind::D2(w, h, aa) => (w, h, 1u16, aa),
            Kind::D2Array(w, h, n, aa) => (w, h, n, aa),
            Kind::D3(w, h, d) => (w, h, d, AaMode::Single),
            Kind::Cube(w) => (w, w, 6u16, AaMode::Single),
            Kind::CubeArray(w, n) => (w, w, n, AaMode::Single),
        }
    }

    pub fn get_dimensions(self) -> (r: (u16, u16, u16, AaMode))
        ensures
            r == self.spec_dimensions(),
    {
        match self {
            Kind::D1(w) => (w, 1u16, 1u16, AaMode::Single),
            Kind::D1Array(w, n) => (w, 1u16, n, AaMode::Single),
            Kind::D2(w, h, aa) => (w, h, 1u16, aa),
            Kind::D2Array(w, h, n, aa) => (w, h, n, aa),
            Kind::D3(w, h, d) => (w, h, d, AaMode::Single),
            Kind::Cube(w) => (w, w, 6u16, AaMode::Single),
            Kind::CubeArray(w, n) => (w, w, n, AaMode::Single),
        }
    }

    /// The number of array slices, where the kind has array structure; cube
    /// kinds count six faces per slice.
    pub open spec fn spec_num_slices(self) -> Option<u16> {
        match self {
            Kind::D1Array(_, n) => Some(n),
            Kind::D2Array(_, _, n, _) => Some(n),
            Kind::Cube(_) => Some(6u16),
            Kind::CubeArray(_, n) => if n <= 10922 {
                Some((6 * n) as u16)
            } else {
                None
            },
            _ => None,
        }
    }

    pub fn get_num_slices(self) -> (r: Option<u16>)
        ensures
            r == self.spec_num_slices(),
    {
        match self {
            Kind::D1Array(_, n) => Some(n),
            Kind::D2Array(_, _, n, _) => Some(n),
            Kind::Cube(_) => Some(6u16),
            Kind::CubeArray(_, n) => if n <= 10922 {
                Some(6 * n)
            } else {
                None
            },
            _ => None,
        }
    }

    pub open spec fn spec_is_cube(self) -> bool {
        self is Cube || self is CubeArray
    }

    pub fn is_cube(self) -> (r: bool)
        ensures
            r == self.spec_is_cube(),
    {
        match self {
            Kind::Cube(_) | Kind::CubeArray(_, _) => true,
            _ => false,
        }
    }
}

/// A caller-facing texture description.
#[derive(Clone, Copy, Debug, PartialEq, Eq, Structural)]
pub struct TextureDescriptor {
    pub kind: Kind,
    /// Number of mipmap levels.
    pub levels: u8,
    pub format: SurfaceType,
    pub bind: Bind,
    pub usage: Usage,
}

/// Where a view channel draws its value from.
#[derive(Clone, Copy, Debug, PartialEq, Eq, Structural)]
pub enum ChannelSource {
    X,
    Y,
    Z,
    W,
}

/// Per-channel source selection of a view.
#[derive(Clone, Copy, Debug, PartialEq, Eq, Structural)]
pub struct Swizzle(pub ChannelSource, pub ChannelSource, pub ChannelSource, pub ChannelSource);

impl Swizzle {
    /// The identity swizzle.
    pub fn new() -> (s: Swizzle)
        ensures
            s == (Swizzle(ChannelSource::X, ChannelSource::Y, ChannelSource::Z, ChannelSource::W)),
    {
        Swizzle(ChannelSource::X, ChannelSource::Y, ChannelSource::Z, ChannelSource::W)
    }
}

/// A shader-resource view description: channel reinterpretation, mip range
/// (inclusive), optional array layer and swizzle.
#[derive(Clone, Copy, Debug, PartialEq, Eq, Structural)]
pub struct ResourceDesc {
    pub channel: ChannelType,
    pub layer: Option<u16>,
    pub min: u8,
    pub max: u8,
    pub swizzle: Swizzle,
}

/// A render-target view description.
#[derive(Clone, Copy, Debug, PartialEq, Eq, Structural)]
pub struct RenderDesc {
    pub channel: ChannelType,
    pub level: u8,
    pub layer: Option<u16>,
}

/// A depth-stencil view description.
#[derive(Clone, Copy, Debug, PartialEq, Eq, Structural)]
pub struct DepthStencilDesc {
    pub layer: Option<u16>,
}

/// Why an array-layer selection could not be honoured.
#[derive(Clone, Copy, Debug, PartialEq, Eq, Structural)]
pub enum LayerError {
    /// The texture kind has no array structure to select a layer from.
    NotExpected(Kind),
    /// The selected layer is at or past the kind's slice count.
    OutOfBounds(u16, u16),
}

/// Why a shader-resource or unordered-access view could not be created.
#[derive(Clone, Copy, Debug, PartialEq, Eq, Structural)]
pub enum ResourceViewError {
    /// The texture was created without the bind flag the view requires.
    NoBindFlag,
    /// The texture's surface does not support the requested channel type.
    Channel(ChannelType),
    Layer(LayerError),
    /// The view kind is not supported by this layer.
    Unsupported,
}

/// Why a render-target or depth-stencil view could not be created.
#[derive(Clone, Copy, Debug, PartialEq, Eq, Structural)]
pub enum TargetViewError {
    NoBindFlag,
    Channel(ChannelType),
    Layer(LayerError),
    Unsupported,
}

/// Why a texture could not be created.
#[derive(Clone, Copy, Debug, PartialEq, Eq, Structural)]
pub enum TextureError {
    /// The surface type admits no native format under the given channel hint.
    Format(SurfaceType, Option<ChannelType>),
}

/// Why a buffer could not be created: the descriptor was structurally invalid.
#[derive(Clone, Copy, Debug, PartialEq, Eq, Structural)]
pub enum BufferError {
    /// A zero byte size was requested.
    Size(usize),
}

/// Why a pipeline state object could not be created.
#[derive(Clone, Copy, Debug, PartialEq, Eq, Structural)]
pub struct CreationError;

/// Why a host mapping could not be established.
#[derive(Clone, Copy, Debug, PartialEq, Eq, Structural)]
pub enum MappingError {
    /// The buffer's creation-time usage does not permit the requested access.
    InvalidAccess(Access, Usage),
    /// The buffer already has a live mapping.
    AlreadyMapped,
}

/// A shader stage.
#[derive(Clone, Copy, Debug, PartialEq, Eq, Structural)]
pub enum ShaderStage {
    Vertex,
    Geometry,
    Pixel,
}

/// Why a shader module could not be created.  The factory wraps any
/// well-sized pre-compiled binary, so no input of its entry point produces
/// these.
#[derive(Clone, Copy, Debug, PartialEq, Eq, Structural)]
pub enum CreateShaderError {
    ModelNotSupported,
    StageNotSupported(ShaderStage),
}

/// Why a program could not be linked.  The factory stores stage references
/// without validating entry points, so no input of its entry point
/// produces this.
#[derive(Clone, Copy, Debug, PartialEq, Eq, Structural)]
pub struct CreateProgramError;

/// The shader stages a binding slot is visible to.
#[derive(Clone, Copy, Debug, PartialEq, Eq, Structural)]
pub struct StageUsage {
    pub vertex: bool,
    pub geometry: bool,
    pub pixel: bool,
}

/// Primitive assembly topology.
#[derive(Clone, Copy, Debug, PartialEq, Eq, Structural)]
pub enum Primitive {
    PointList,
    LineList,
    LineStrip,
    TriangleList,
    TriangleStrip,
}

/// Depth/stencil comparison function.
#[derive(Clone, Copy, Debug, PartialEq, Eq, Structural)]
pub enum Comparison {
    Never,
    Less,
    LessEqual,
    Equal,
    GreaterEqual,
    Greater,
    NotEqual,
    Always,
}

/// Depth-test state.
#[derive(Clone, Copy, Debug, PartialEq, Eq, Structural)]
pub struct Depth {
    pub fun: Comparison,
    pub write: bool,
}

/// Stencil operation.
#[derive(Clone, Copy, Debug, PartialEq, Eq, Structural)]
pub enum StencilOp {
    Keep,
    Zero,
    Replace,
    IncrementClamp,
    IncrementWrap,
    DecrementClamp,
    DecrementWrap,
    Invert,
}

/// Stencil state of one face.
#[derive(Clone, Copy, Debug, PartialEq, Eq, Structural)]
pub struct StencilSide {
    pub fun: Comparison,
    pub mask_read: u8,
    pub mask_write: u8,
    pub op_fail: StencilOp,
    pub op_depth_fail: StencilOp,
    pub op_pass: StencilOp,
}

/// Optional depth and per-face stencil state of a pipeline.
#[derive(Clone, Copy, Debug, PartialEq, Eq, Structural)]
pub struct DepthStencilInfo {
    pub depth: Option<Depth>,
    pub front: Option<StencilSide>,
    pub back: Option<StencilSide>,
}

/// Which faces the rasterizer culls.
#[derive(Clone, Copy, Debug, PartialEq, Eq, Structural)]
pub enum CullFace {
    Nothing,
    Front,
    Back,
}

/// Winding order that counts as front-facing.
#[derive(Clone, Copy, Debug, PartialEq, Eq, Structural)]
pub enum FrontFace {
    Clockwise,
    CounterClockwise,
}

/// How primitives are rasterized; a line method carries its width.
#[derive(Clone, Copy, Debug, PartialEq, Eq, Structural)]
pub enum RasterMethod {
    Point,
    Line(u32),
    Fill,
}

/// Depth-bias factors: slope scale and constant units.
#[derive(Clone, Copy, Debug, PartialEq, Eq, Structural)]
pub struct Offset(pub i32, pub i32);

/// Fixed-function rasterizer state.
#[derive(Clone, Copy, Debug, PartialEq, Eq, Structural)]
pub struct Rasterizer {
    pub front_face: FrontFace,
    pub cull_face: CullFace,
    pub method: RasterMethod,
    pub offset: Option<Offset>,
}

/// A blend-factor operand.
#[derive(Clone, Copy, Debug, PartialEq, Eq, Structural)]
pub enum BlendValue {
    SourceColor,
    SourceAlpha,
    DestColor,
    DestAlpha,
    ConstColor,
    ConstAlpha,
}

/// A blend factor.
#[derive(Clone, Copy, Debug, PartialEq, Eq, Structural)]
pub enum Factor {
    Zero,
    One,
    SourceAlphaSaturated,
    ZeroPlus(BlendValue),
    OneMinus(BlendValue),
}

/// A blend equation.
#[derive(Clone, Copy, Debug, PartialEq, Eq, Structural)]
pub enum Equation {
    Add,
    Sub,
    RevSub,
    Min,
    Max,
}

/// Blending of one channel group.
#[derive(Clone, Copy, Debug, PartialEq, Eq, Structural)]
pub struct BlendChannel {
    pub equation: Equation,
    pub source: Factor,
    pub destination: Factor,
}

/// Which color components a target writes.
#[derive(Clone, Copy, Debug, PartialEq, Eq, Structural)]
pub struct ColorMask {
    pub red: bool,
    pub green: bool,
    pub blue: bool,
    pub alpha: bool,
}

/// Per-target color state: write mask and optional color/alpha blending.
#[derive(Clone, Copy, Debug, PartialEq, Eq, Structural)]
pub struct ColorInfo {
    pub mask: ColorMask,
    pub color: Option<BlendChannel>,
    pub alpha: Option<BlendChannel>,
}

/// One vertex-buffer binding slot: element stride and input rate
/// (0 per-vertex, 1 per-instance).
#[derive(Clone, Copy, Debug, PartialEq, Eq, Structural)]
pub struct VertexBufferDesc {
    pub stride: u16,
    pub rate: u8,
}

/// The format and byte offset of one vertex attribute.
#[derive(Clone, Copy, Debug, PartialEq, Eq, Structural)]
pub struct Element {
    pub format: Format,
    pub offset: u32,
}

/// One attribute slot: the vertex-buffer binding it reads and its element.
#[derive(Clone, Copy, Debug, PartialEq, Eq, Structural)]
pub struct AttributeDesc(pub u8, pub Element);

/// The full pipeline descriptor: slot-indexed optional bindings, vertex
/// layout, fixed-function state and render-target formats.
#[derive(Clone, Debug, PartialEq, Eq)]
pub struct PipelineDescriptor {
    pub primitive: Primitive,
    pub rasterizer: Rasterizer,
    pub constant_buffers: Vec<Option<StageUsage>>,
    pub resource_views: Vec<Option<StageUsage>>,
    pub unordered_views: Vec<Option<StageUsage>>,
    pub samplers: Vec<Option<StageUsage>>,
    pub vertex_buffers: Vec<Option<VertexBufferDesc>>,
    pub attributes: Vec<Option<AttributeDesc>>,
    pub color_targets: Vec<Option<(Format, ColorInfo)>>,
    pub depth_stencil: Option<(Format, DepthStencilInfo)>,
}

/// How a sampler filters texels.
#[derive(Clone, Copy, Debug, PartialEq, Eq, Structural)]
pub enum FilterMethod {
    /// Nearest texel, nearest mip.
    Scale,
    /// Nearest texel, interpolated mips.
    Mipmap,
    /// Interpolated texels, one mip.
    Bilinear,
    /// Interpolated texels and mips.
    Trilinear,
    /// Anisotropic filtering up to the given level.
    Anisotropic(u8),
}

/// Texture-coordinate wrapping of one axis.
#[derive(Clone, Copy, Debug, PartialEq, Eq, Structural)]
pub enum WrapMode {
    Tile,
    Mirror,
    Clamp,
    Border,
}

/// A level-of-detail value in signed 27.5 fixed-point form.
#[derive(Clone, Copy, Debug, PartialEq, Eq, Structural)]
pub struct Lod(pub i16);

/// A packed RGBA8 color.
#[derive(Clone, Copy, Debug, PartialEq, Eq, Structural)]
pub struct PackedColor(pub u32);

/// A caller-facing sampler description, kept on the created sampler for
/// introspection.
#[derive(Clone, Copy, Debug, PartialEq, Eq)]
pub struct SamplerInfo {
    pub filter: FilterMethod,
    pub wrap_mode: (WrapMode, WrapMode, WrapMode),
    pub lod_bias: Lod,
    pub lod_range: (Lod, Lod),
    pub comparison: Option<Comparison>,
    pub border: PackedColor,
}

} // verus!
