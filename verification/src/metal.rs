//! Plain values shared with the Metal side: formats, commands and sizes.

use vstd::prelude::*;

verus! {

/// The handle value that names no object.
pub const NULL_HANDLE: u64 = 0;

/// Vertex buffer slots a D3D9 stream index can name.
pub const VERTEX_STREAM_SLOTS: u32 = 16;

/// The buffer slot of the vertex shader constants.
pub const VS_FLOAT_CONST_SLOT: u32 = 16;

/// The buffer slot of the position correction.
pub const VS_POS_FIXUP_SLOT: u32 = 17;

/// The buffer slot of the per-draw vertex values.
pub const VS_DRAW_SLOT: u32 = 18;

/// The buffer slot of the level-of-detail biases.
pub const PS_LOD_BIAS_SLOT: u32 = 11;

/// `1.0` as an IEEE single.
pub const F32_ONE: u32 = 0x3f80_0000;

/// Metal pixel formats that a colour or depth attachment can have.
#[derive(Clone, Copy, Debug, PartialEq, Eq, Structural)]
pub enum PixelFormat {
    A8Unorm,
    R8Unorm,
    Rg8Unorm,
    Rgba8Unorm,
    Rgba8UnormSrgb,
    Bgra8Unorm,
    Bgra8UnormSrgb,
    B5g6r5Unorm,
    Bgr5a1Unorm,
    Abgr4Unorm,
    Rgb10a2Unorm,
    Rg16Unorm,
    Rgba16Unorm,
    R16Float,
    Rg16Float,
    Rgba16Float,
    R32Float,
    Rg32Float,
    Rgba32Float,
    Depth32Float,
    Depth32FloatStencil8,
}

impl PixelFormat {
    /// The format that stores the same bytes and encodes sRGB on write, where there is one.
    pub open spec fn srgb_twin_spec(self) -> Option<PixelFormat> {
        match self {
            PixelFormat::Bgra8Unorm => Some(PixelFormat::Bgra8UnormSrgb),
            PixelFormat::Rgba8Unorm => Some(PixelFormat::Rgba8UnormSrgb),
            _ => None,
        }
    }

    /// The sRGB view format of this format, if it has one.
    pub fn srgb_twin(self) -> (r: Option<PixelFormat>)
        ensures
            r == self.srgb_twin_spec(),
    {
        match self {
            PixelFormat::Bgra8Unorm => Some(PixelFormat::Bgra8UnormSrgb),
            PixelFormat::Rgba8Unorm => Some(PixelFormat::Rgba8UnormSrgb),
            _ => None,
        }
    }
}

/// Which sample of a multisampled depth texture a resolve keeps.
#[derive(Clone, Copy, Debug, PartialEq, Eq, Structural)]
pub enum DepthResolveFilter {
    Sample0,
    Min,
    Max,
}

/// Triangle culling as Metal names it.
#[derive(Clone, Copy, Debug, PartialEq, Eq, Structural)]
pub enum CullMode {
    Disabled,
    Front,
    Back,
}

impl CullMode {
    pub open spec fn code_spec(self) -> u32 {
        match self {
            CullMode::Disabled => 0,
            CullMode::Front => 1,
            CullMode::Back => 2,
        }
    }

    /// The value a cull-mode command carries.
    pub fn code(self) -> (r: u32)
        ensures
            r == self.code_spec(),
    {
        match self {
            CullMode::Disabled => 0,
            CullMode::Front => 1,
            CullMode::Back => 2,
        }
    }
}

/// `param_a` of a visibility command that counts samples.
pub const VISIBILITY_COUNTING: u32 = 2;

/// What a render command does. `Unknown` is any code the pass logic has no name for.
#[derive(Clone, Copy, Debug, PartialEq, Eq, Structural)]
pub enum CommandType {
    SetRenderPipelineState,
    SetViewport,
    SetVertexBytes,
    DrawPrimitives,
    SetDepthStencilState,
    SetCullMode,
    SetFragmentTexture,
    SetFragmentSamplerState,
    SetVertexBytesAt,
    SetFragmentBytesAt,
    SetScissorRect,
    SetVertexBuffer,
    DrawIndexedPrimitives,
    SetBlendColor,
    SetDepthBias,
    DrawIndexedPrimitivesUp,
    SetStencilReference,
    SetVisibilityResultMode,
    SetFragmentNullTexture,
    SetVertexTexture,
    SetVertexSamplerState,
    SetVertexNullTexture,
    SetFragmentBuffer,
    PushDebugGroup,
    PopDebugGroup,
    Unknown,
}

/// One render command: a kind and its packed parameters.
#[derive(Clone, Copy, Debug, PartialEq, Eq, Structural)]
pub struct Command {
    pub cmd: CommandType,
    pub param_a: u32,
    pub param_b: u64,
    pub param_c: u64,
    pub param_d: u64,
}

/// Two 32-bit values in one parameter, `hi` in the upper half.
pub open spec fn pair64_spec(hi: u32, lo: u32) -> u64 {
    ((hi as u64) << 32) | (lo as u64)
}

/// Packs two 32-bit values into one parameter.
pub fn pair64(hi: u32, lo: u32) -> (r: u64)
    ensures
        r == pair64_spec(hi, lo),
{
    ((hi as u64) << 32) | (lo as u64)
}

impl Command {
    /// The command that sets the viewport rectangle and its depth range.
    pub open spec fn set_viewport_spec(
        x: u32,
        y: u32,
        w: u32,
        h: u32,
        min_z: u32,
        max_z: u32,
    ) -> Command {
        Command {
            cmd: CommandType::SetViewport,
            param_a: x,
            param_b: y as u64,
            param_c: pair64_spec(w, h),
            param_d: pair64_spec(min_z, max_z),
        }
    }

    /// Sets the viewport; the depth range is given as IEEE bits.
    pub fn set_viewport(x: u32, y: u32, w: u32, h: u32, min_z: u32, max_z: u32) -> (r: Command)
        ensures
            r == Self::set_viewport_spec(x, y, w, h, min_z, max_z),
    {
        Command {
            cmd: CommandType::SetViewport,
            param_a: x,
            param_b: y as u64,
            param_c: pair64(w, h),
            param_d: pair64(min_z, max_z),
        }
    }

    pub open spec fn set_scissor_rect_spec(x: u32, y: u32, w: u32, h: u32) -> Command {
        Command {
            cmd: CommandType::SetScissorRect,
            param_a: x,
            param_b: y as u64,
            param_c: pair64_spec(w, h),
            param_d: 0,
        }
    }

    /// Sets the scissor rectangle.
    pub fn set_scissor_rect(x: u32, y: u32, w: u32, h: u32) -> (r: Command)
        ensures
            r == Self::set_scissor_rect_spec(x, y, w, h),
    {
        Command {
            cmd: CommandType::SetScissorRect,
            param_a: x,
            param_b: y as u64,
            param_c: pair64(w, h),
            param_d: 0,
        }
    }

    pub open spec fn set_blend_color_spec(r: u32, g: u32, b: u32, a: u32) -> Command {
        Command {
            cmd: CommandType::SetBlendColor,
            param_a: r,
            param_b: g as u64,
            param_c: b as u64,
            param_d: a as u64,
        }
    }

    /// Sets the blend constant, each lane as IEEE bits.
    pub fn set_blend_color(r: u32, g: u32, b: u32, a: u32) -> (c: Command)
        ensures
            c == Self::set_blend_color_spec(r, g, b, a),
    {
        Command {
            cmd: CommandType::SetBlendColor,
            param_a: r,
            param_b: g as u64,
            param_c: b as u64,
            param_d: a as u64,
        }
    }

    pub open spec fn set_depth_bias_spec(bias: u32, slope: u32) -> Command {
        Command {
            cmd: CommandType::SetDepthBias,
            param_a: bias,
            param_b: slope as u64,
            param_c: 0,
            param_d: 0,
        }
    }

    /// Sets the depth bias and its slope scale, both as IEEE bits.
    pub fn set_depth_bias(bias: u32, slope: u32) -> (r: Command)
        ensures
            r == Self::set_depth_bias_spec(bias, slope),
    {
        Command {
            cmd: CommandType::SetDepthBias,
            param_a: bias,
            param_b: slope as u64,
            param_c: 0,
            param_d: 0,
        }
    }

    pub open spec fn set_stencil_reference_spec(value: u32) -> Command {
        Command {
            cmd: CommandType::SetStencilReference,
            param_a: value,
            param_b: 0,
            param_c: 0,
            param_d: 0,
        }
    }

    /// Sets the stencil reference value.
    pub fn set_stencil_reference(value: u32) -> (r: Command)
        ensures
            r == Self::set_stencil_reference_spec(value),
    {
        Command {
            cmd: CommandType::SetStencilReference,
            param_a: value,
            param_b: 0,
            param_c: 0,
            param_d: 0,
        }
    }

    /// A command that rasterizes primitives from bound buffers.
    pub open spec fn is_draw_spec(self) -> bool {
        self.cmd == CommandType::DrawPrimitives || self.cmd == CommandType::DrawIndexedPrimitives
    }

    /// Whether the command draws.
    pub fn is_draw(&self) -> (r: bool)
        ensures
            r == self.is_draw_spec(),
    {
        self.cmd == CommandType::DrawPrimitives || self.cmd == CommandType::DrawIndexedPrimitives
    }
}

/// What a blit command does. `Unknown` is any code the pass logic has no name for.
#[derive(Clone, Copy, Debug, PartialEq, Eq, Structural)]
pub enum BlitCommandType {
    CopyBufferToTexture,
    CopyTextureToTexture,
    GenerateMipmaps,
    CopyBufferToBuffer,
    NotifyBufferDidModifyRange,
    Unknown,
}

/// One blit: its kind and the handles it reads and writes.
#[derive(Clone, Copy, Debug, PartialEq, Eq, Structural)]
pub struct BlitCommand {
    pub cmd: BlitCommandType,
    pub src_handle: u64,
    pub dst_handle: u64,
}

/// The fraction of a logical size at which a target is rasterized, in percent.
///
/// One hundred percent is the identity and changes no coordinate.
#[derive(Clone, Copy, Debug, PartialEq, Eq, Structural)]
pub struct RenderScale {
    percent: u32,
}

impl RenderScale {
    #[verifier::type_invariant]
    pub closed spec fn in_range(self) -> bool {
        1 <= self.percent <= 100
    }

    /// The scale as a number of hundredths.
    pub closed spec fn percent_spec(self) -> int {
        self.percent as int
    }

    /// A coordinate at this scale, rounded down.
    pub open spec fn scaled_spec(self, value: u32) -> u32 {
        (value * self.percent_spec() / 100) as u32
    }

    /// An extent at this scale: rounded down, but one pixel of a non-empty extent always stays.
    pub open spec fn dimension_spec(self, value: u32) -> u32 {
        if value != 0 && self.scaled_spec(value) == 0 {
            1
        } else {
            self.scaled_spec(value)
        }
    }

    /// A rectangle at this scale. Its extent may round to nothing.
    pub open spec fn rect_spec(self, x: u32, y: u32, w: u32, h: u32) -> (u32, u32, u32, u32) {
        (self.scaled_spec(x), self.scaled_spec(y), self.scaled_spec(w), self.scaled_spec(h))
    }

    /// The scale of one hundred percent.
    pub closed spec fn identity_spec() -> RenderScale {
        RenderScale { percent: 100 }
    }

    /// The identity scale.
    pub fn identity() -> (r: RenderScale)
        ensures
            r == Self::identity_spec(),
            r.percent_spec() == 100,
    {
        RenderScale { percent: 100 }
    }

    /// The scale of `percent` hundredths, held to the range from one to one hundred.
    pub fn from_percent(percent: u32) -> (r: RenderScale)
        ensures
            r.percent_spec() == (if percent < 1 {
                1
            } else if percent > 100 {
                100
            } else {
                percent as int
            }),
    {
        if percent < 1 {
            RenderScale { percent: 1 }
        } else if percent > 100 {
            RenderScale { percent: 100 }
        } else {
            RenderScale { percent }
        }
    }

    /// The scale in hundredths.
    pub fn percent(&self) -> (r: u32)
        ensures
            r == self.percent_spec(),
    {
        self.percent
    }

    /// Whether the scale changes nothing.
    pub fn is_identity(&self) -> (r: bool)
        ensures
            r == (self.percent_spec() == 100),
    {
        self.percent == 100
    }

    fn scaled(&self, value: u32) -> (r: u32)
        ensures
            r == self.scaled_spec(value),
    {
        proof {
            use_type_invariant(self);
        }
        let percent: u64 = self.percent as u64;
        assert(value * percent <= 0xffff_ffff * 100 && value * percent / 100 <= value) by (nonlinear_arith)
            requires
                percent <= 100,
                value <= 0xffff_ffff,
        ;
        ((value as u64) * percent / 100) as u32
    }

    /// Scales an extent.
    pub fn dimension(&self, value: u32) -> (r: u32)
        ensures
            r == self.dimension_spec(value),
    {
        let s: u32 = self.scaled(value);
        if value != 0 && s == 0 {
            1
        } else {
            s
        }
    }

    /// Scales a rectangle.
    pub fn rect(&self, x: u32, y: u32, w: u32, h: u32) -> (r: (u32, u32, u32, u32))
        ensures
            r == self.rect_spec(x, y, w, h),
    {
        (self.scaled(x), self.scaled(y), self.scaled(w), self.scaled(h))
    }
}

/// The identity scale changes no extent and no rectangle.
pub proof fn identity_scale_is_exact(scale: RenderScale, x: u32, y: u32, w: u32, h: u32)
    requires
        scale.percent_spec() == 100,
    ensures
        scale.dimension_spec(w) == w,
        scale.rect_spec(x, y, w, h) == (x, y, w, h),
{
}

/// The smallest half-open byte range that covers everything noted so far.
#[derive(Clone, Copy, Debug, PartialEq, Eq, Structural)]
pub struct DirtyRange {
    pub start: u32,
    pub end: u32,
}

impl DirtyRange {
    /// A range that covers nothing.
    pub open spec fn is_empty_spec(self) -> bool {
        self.start >= self.end
    }

    /// Whether byte `at` is covered.
    pub open spec fn covers(self, at: int) -> bool {
        self.start <= at < self.end
    }

    /// The end of a noted range: a size of zero runs to the end of the buffer, and no
    /// range runs past it.
    pub open spec fn noted_end(offset: u32, size: u32, logical_len: u32) -> u32 {
        if size == 0 || offset + size > logical_len {
            logical_len
        } else {
            (offset + size) as u32
        }
    }

    /// This range grown to cover `[offset, noted_end)` too.
    pub open spec fn conjoin_spec(self, offset: u32, size: u32, logical_len: u32) -> DirtyRange {
        let end = Self::noted_end(offset, size, logical_len);
        if offset >= end {
            self
        } else if self.is_empty_spec() {
            DirtyRange { start: offset, end }
        } else {
            DirtyRange {
                start: if offset < self.start { offset } else { self.start },
                end: if end > self.end { end } else { self.end },
            }
        }
    }

    /// Whether some byte of `[off, end)` is covered.
    pub open spec fn overlaps_spec(self, off: u32, end: u32) -> bool {
        exists|at: int| #[trigger] self.covers(at) && off <= at < end
    }

    /// The range that covers nothing.
    pub fn empty() -> (r: DirtyRange)
        ensures
            r == (DirtyRange { start: 0, end: 0 }),
    {
        DirtyRange { start: 0, end: 0 }
    }

    /// Grows the range to cover `size` bytes from `offset`, or all of them when `size` is zero.
    pub fn conjoin(&mut self, offset: u32, size: u32, logical_len: u32)
        ensures
            *final(self) == old(self).conjoin_spec(offset, size, logical_len),
    {
        let end: u32 = if size == 0 || offset as u64 + size as u64 > logical_len as u64 {
            logical_len
        } else {
            offset + size
        };
        if offset < end {
            if self.start >= self.end {
                self.start = offset;
                self.end = end;
            } else {
                if offset < self.start {
                    self.start = offset;
                }
                if end > self.end {
                    self.end = end;
                }
            }
        }
    }

    /// Whether the range shares a byte with `[off, end)`.
    pub fn overlaps(&self, off: u32, end: u32) -> (r: bool)
        ensures
            r == self.overlaps_spec(off, end),
    {
        let lo: u32 = if self.start > off { self.start } else { off };
        let hi: u32 = if self.end < end { self.end } else { end };
        assert(lo < hi ==> self.covers(lo as int));
        lo < hi
    }
}

/// Noting a range keeps everything covered before and covers every byte of the new one.
pub proof fn conjoin_covers_both(r: DirtyRange, offset: u32, size: u32, logical_len: u32, at: int)
    ensures
        r.covers(at) ==> r.conjoin_spec(offset, size, logical_len).covers(at),
        offset <= at < DirtyRange::noted_end(offset, size, logical_len)
            ==> r.conjoin_spec(offset, size, logical_len).covers(at),
{
}

/// How a value is compared with the one it may replace.
#[derive(Clone, Copy, Debug, PartialEq, Eq, Hash, Structural)]
pub enum CompareFunc {
    Never,
    Less,
    Equal,
    LessEqual,
    Greater,
    NotEqual,
    GreaterEqual,
    Always,
}

/// What happens to a stencil value.
#[derive(Clone, Copy, Debug, PartialEq, Eq, Hash, Structural)]
pub enum StencilOp {
    Keep,
    Zero,
    Replace,
    IncrementClamp,
    DecrementClamp,
    Invert,
    IncrementWrap,
    DecrementWrap,
}

/// What a colour is multiplied by when it is blended.
#[derive(Clone, Copy, Debug, PartialEq, Eq, Hash, Structural)]
pub enum BlendFactor {
    Zero,
    One,
    SourceColor,
    OneMinusSourceColor,
    SourceAlpha,
    OneMinusSourceAlpha,
    DestinationAlpha,
    OneMinusDestinationAlpha,
    DestinationColor,
    OneMinusDestinationColor,
    SourceAlphaSaturated,
    BlendColor,
    OneMinusBlendColor,
}

/// How two weighted colours are put together.
#[derive(Clone, Copy, Debug, PartialEq, Eq, Hash, Structural)]
pub enum BlendOperation {
    Add,
    Subtract,
    ReverseSubtract,
    Min,
    Max,
}

/// How texels are mixed within a level.
#[derive(Clone, Copy, Debug, PartialEq, Eq, Hash, Structural)]
pub enum MinMagFilter {
    Nearest,
    Linear,
}

/// How levels are mixed.
#[derive(Clone, Copy, Debug, PartialEq, Eq, Hash, Structural)]
pub enum MipFilter {
    NotMipmapped,
    Nearest,
    Linear,
}

/// The colour outside a texture.
#[derive(Clone, Copy, Debug, PartialEq, Eq, Hash, Structural)]
pub enum BorderColor {
    TransparentBlack,
    OpaqueBlack,
    OpaqueWhite,
}

/// What a coordinate outside a texture reads.
#[derive(Clone, Copy, Debug, PartialEq, Eq, Hash, Structural)]
pub enum AddressMode {
    Repeat,
    MirrorRepeat,
    ClampToEdge,
    ClampToBorderColor,
    MirrorClampToEdge,
}

/// What vertices are drawn as.
#[derive(Clone, Copy, Debug, PartialEq, Eq, Hash, Structural)]
pub enum PrimitiveType {
    Point,
    Line,
    LineStrip,
    Triangle,
    TriangleStrip,
}

/// How wide an index is.
#[derive(Clone, Copy, Debug, PartialEq, Eq, Hash, Structural)]
pub enum IndexType {
    UInt16,
    UInt32,
}

/// How an attribute lies in memory.
#[derive(Clone, Copy, Debug, PartialEq, Eq, Hash, Structural)]
pub enum VertexFormat {
    Invalid,
    Float,
    Float2,
    Float3,
    Float4,
    UChar4NormalizedBgra,
    UChar4,
    Short2,
    Short4,
    UChar4Normalized,
    Short2Normalized,
    Short4Normalized,
    UShort2Normalized,
    UShort4Normalized,
    Half2,
    Half4,
}

/// Which channels are written.
#[derive(Clone, Copy, Debug, PartialEq, Eq, Hash, Structural)]
pub struct ColorWriteMask {
    pub red: bool,
    pub green: bool,
    pub blue: bool,
    pub alpha: bool,
}

/// One attribute of a vertex and where it lies.
#[derive(Clone, Copy, Debug, PartialEq, Eq, Hash, Structural)]
pub struct VertexAttrDesc {
    pub attr_index: u32,
    pub buffer_index: u32,
    pub offset: u32,
    pub format: VertexFormat,
}

} // verus!
