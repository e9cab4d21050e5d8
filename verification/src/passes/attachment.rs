//! Attachments: what is bound, and what a pass froze of it.

use super::{ColorLoad, SavedColorAttachments, StoreAction};
use crate::metal::{DepthResolveFilter, PixelFormat, RenderScale};
use vstd::prelude::*;

verus! {

/// Render target 1, 2 or 3 as it is bound now.
///
/// `size` is the extent of the texture and `logical_size` the one D3D9 reports; `scale`
/// relates the two. The slot is unbound when `texture` is zero.
#[derive(Clone, Copy, Debug, PartialEq, Eq)]
pub struct ExtraColorSlot {
    pub texture: u64,
    pub msaa_texture: u64,
    pub msaa_srgb_texture: u64,
    pub sample_count: u8,
    pub subresource: u32,
    pub size: (u32, u32),
    pub logical_size: (u32, u32),
    pub format: PixelFormat,
    pub scale: RenderScale,
    pub has_alpha: bool,
}

impl ExtraColorSlot {
    /// The slot with nothing bound.
    pub open spec fn none_spec() -> ExtraColorSlot {
        ExtraColorSlot {
            texture: 0,
            msaa_texture: 0,
            msaa_srgb_texture: 0,
            sample_count: 1,
            subresource: 0,
            size: (0, 0),
            logical_size: (0, 0),
            format: PixelFormat::Bgra8Unorm,
            scale: RenderScale::identity_spec(),
            has_alpha: false,
        }
    }

    pub open spec fn is_bound_spec(self) -> bool {
        self.texture != 0
    }

    /// The slot with `size` recomputed from the logical size.
    pub open spec fn sized(self) -> ExtraColorSlot {
        ExtraColorSlot {
            size: (
                self.scale.dimension_spec(self.logical_size.0),
                self.scale.dimension_spec(self.logical_size.1),
            ),
            ..self
        }
    }

    /// The unbound slot.
    pub fn none() -> (r: ExtraColorSlot)
        ensures
            r == Self::none_spec(),
    {
        ExtraColorSlot {
            texture: 0,
            msaa_texture: 0,
            msaa_srgb_texture: 0,
            sample_count: 1,
            subresource: 0,
            size: (0, 0),
            logical_size: (0, 0),
            format: PixelFormat::Bgra8Unorm,
            scale: RenderScale::identity(),
            has_alpha: false,
        }
    }

    /// Whether a texture is bound here.
    pub fn is_bound(&self) -> (r: bool)
        ensures
            r == self.is_bound_spec(),
    {
        self.texture != 0
    }

    /// Whether every field agrees with `other`.
    pub fn same_as(&self, other: &ExtraColorSlot) -> (r: bool)
        ensures
            r == (*self == *other),
    {
        self.texture == other.texture && self.msaa_texture == other.msaa_texture
            && self.msaa_srgb_texture == other.msaa_srgb_texture
            && self.sample_count == other.sample_count && self.subresource == other.subresource
            && self.size.0 == other.size.0 && self.size.1 == other.size.1
            && self.logical_size.0 == other.logical_size.0
            && self.logical_size.1 == other.logical_size.1 && self.format == other.format
            && self.scale == other.scale && self.has_alpha == other.has_alpha
    }
}

/// Render targets 1 to 3 as a pipeline has to declare them.
#[derive(Clone, Copy, Debug, PartialEq, Eq)]
pub struct ExtraColorAttachments {
    pub formats: [PixelFormat; 3],
    pub present_mask: u8,
    pub has_alpha_mask: u8,
}

/// A colour attachment as a pass froze it.
///
/// `texture` is the identity every rule asks about. `srgb_texture` is the view written
/// through when the pass encodes sRGB, `msaa_texture` the multisampled companion that is
/// really attached, and `resolve_texture` the view a resolve writes when the pass ends.
#[derive(Clone, Copy, Debug, PartialEq, Eq)]
pub struct PassColorAttachment {
    pub texture: u64,
    pub srgb_texture: u64,
    pub msaa_texture: u64,
    pub msaa_srgb_texture: u64,
    pub resolve_texture: u64,
    pub subresource: u32,
    pub size: (u32, u32),
    pub format: PixelFormat,
    pub load: ColorLoad,
    pub store: StoreAction,
}

impl PassColorAttachment {
    /// The unbound attachment.
    pub open spec fn none_spec() -> PassColorAttachment {
        PassColorAttachment {
            texture: 0,
            srgb_texture: 0,
            msaa_texture: 0,
            msaa_srgb_texture: 0,
            resolve_texture: 0,
            subresource: 0,
            size: (0, 0),
            format: PixelFormat::Bgra8Unorm,
            load: ColorLoad::DontCare,
            store: StoreAction::DontCare,
        }
    }

    pub open spec fn is_bound_spec(self) -> bool {
        self.texture != 0
    }

    /// The view a resolve of this attachment writes: the sRGB one where the pass uses it.
    pub open spec fn resolve_view_spec(self) -> u64 {
        if self.srgb_texture == 0 {
            self.texture
        } else {
            self.srgb_texture
        }
    }

    /// The texture the render pass descriptor names.
    pub open spec fn attachment_texture_spec(self) -> u64 {
        if self.msaa_texture == 0 {
            self.resolve_view_spec()
        } else if self.msaa_srgb_texture == 0 {
            self.msaa_texture
        } else {
            self.msaa_srgb_texture
        }
    }

    /// The attachment without its image: no texture, no actions worth anything.
    pub open spec fn stripped(self) -> PassColorAttachment {
        PassColorAttachment {
            texture: 0,
            subresource: 0,
            load: ColorLoad::DontCare,
            store: StoreAction::DontCare,
            ..self
        }
    }

    /// The unbound attachment.
    pub fn none() -> (r: PassColorAttachment)
        ensures
            r == Self::none_spec(),
    {
        PassColorAttachment {
            texture: 0,
            srgb_texture: 0,
            msaa_texture: 0,
            msaa_srgb_texture: 0,
            resolve_texture: 0,
            subresource: 0,
            size: (0, 0),
            format: PixelFormat::Bgra8Unorm,
            load: ColorLoad::DontCare,
            store: StoreAction::DontCare,
        }
    }

    /// Whether a texture is attached here.
    pub fn is_bound(&self) -> (r: bool)
        ensures
            r == self.is_bound_spec(),
    {
        self.texture != 0
    }

    /// The attachment's identity.
    pub fn texture(&self) -> (r: u64)
        ensures
            r == self.texture,
    {
        self.texture
    }

    /// The texture the render pass descriptor names.
    pub fn attachment_texture(&self) -> (r: u64)
        ensures
            r == self.attachment_texture_spec(),
    {
        if self.msaa_texture == 0 {
            if self.srgb_texture == 0 {
                self.texture
            } else {
                self.srgb_texture
            }
        } else if self.msaa_srgb_texture == 0 {
            self.msaa_texture
        } else {
            self.msaa_srgb_texture
        }
    }

    /// The view the pass resolves into, zero for none.
    pub fn resolve_texture(&self) -> (r: u64)
        ensures
            r == self.resolve_texture,
    {
        self.resolve_texture
    }

    /// The view a resolve would write.
    pub fn resolve_view(&self) -> (r: u64)
        ensures
            r == self.resolve_view_spec(),
    {
        if self.srgb_texture == 0 {
            self.texture
        } else {
            self.srgb_texture
        }
    }

    /// The array slice attached.
    pub fn slice(&self) -> (r: u32)
        ensures
            r == self.subresource & 0xff,
    {
        self.subresource & 0xff
    }

    /// The mip level attached.
    pub fn level(&self) -> (r: u32)
        ensures
            r == self.subresource >> 8,
    {
        self.subresource >> 8
    }

    pub fn format(&self) -> (r: PixelFormat)
        ensures
            r == self.format,
    {
        self.format
    }

    pub fn load(&self) -> (r: ColorLoad)
        ensures
            r == self.load,
    {
        self.load
    }

    pub fn store(&self) -> (r: StoreAction)
        ensures
            r == self.store,
    {
        self.store
    }
}

/// A colour attachment of a pass together with the slot it sits in.
#[derive(Clone, Copy, Debug, PartialEq, Eq)]
pub struct BoundColorAttachment {
    pub slot: usize,
    pub texture: u64,
    pub subresource: u32,
    pub store: StoreAction,
}

/// Where a texture upload draws, and how much of it.
#[derive(Clone, Copy, Debug, PartialEq, Eq)]
pub struct UploadPassTarget {
    pub texture: u64,
    /// Slice and mip level.
    pub subresource: (u32, u32),
    /// Extent of that mip level.
    pub size: (u32, u32),
    pub format: PixelFormat,
    /// The part of it that is written.
    pub rect: (u32, u32, u32, u32),
}

/// The two ends of a depth resolve.
#[derive(Clone, Copy, Debug, PartialEq, Eq)]
pub struct DepthResolve {
    pub source: u64,
    pub level: u32,
    pub size: (u32, u32),
    pub destination: u64,
    pub filter: DepthResolveFilter,
    pub source_is_sampleable: bool,
}

/// What a new frame starts from.
#[derive(Clone, Copy, Debug, PartialEq, Eq)]
pub struct FrameReset {
    pub backbuffer: u64,
    pub backbuffer_srgb: u64,
    pub backbuffer_msaa: u64,
    pub backbuffer_msaa_srgb: u64,
    pub backbuffer_sample_count: u8,
    /// The size D3D9 reports.
    pub backbuffer_size: (u32, u32),
    pub backbuffer_format: PixelFormat,
    pub depth_texture: u64,
    pub depth_size: (u32, u32),
    pub depth_has_stencil: bool,
    pub render_scale: RenderScale,
    /// Whether the last submit was a flush in the middle of a frame.
    pub continues_frame: bool,
}

/// Facts about the attachments bound now.
#[derive(Clone, Copy, Debug, PartialEq, Eq, Structural)]
pub struct CurrentAttachmentFlags {
    pub color_has_alpha: bool,
    pub depth_sampleable: bool,
    pub depth_has_stencil: bool,
}

/// The colour bindings a [`SavedColorAttachments`] holds.
#[verifier::ext_equal]
pub struct SavedColorView {
    pub texture: u64,
    pub msaa_texture: u64,
    pub msaa_srgb_texture: u64,
    pub sample_count: u8,
    pub slice: u32,
    pub level: u32,
    pub logical_size: (u32, u32),
    pub format: PixelFormat,
    pub scale: RenderScale,
    pub has_alpha: bool,
    pub extra: Seq<ExtraColorSlot>,
}

impl SavedColorView {
    /// The extent of render target 0.
    pub open spec fn size(self) -> (u32, u32) {
        (
            self.scale.dimension_spec(self.logical_size.0),
            self.scale.dimension_spec(self.logical_size.1),
        )
    }

    /// Render target 0 in the shape of the others.
    pub open spec fn rt0(self) -> ExtraColorSlot {
        ExtraColorSlot {
            texture: self.texture,
            msaa_texture: self.msaa_texture,
            msaa_srgb_texture: self.msaa_srgb_texture,
            sample_count: self.sample_count,
            subresource: self.slice | (self.level << 8),
            size: self.size(),
            logical_size: self.logical_size,
            format: self.format,
            scale: self.scale,
            has_alpha: self.has_alpha,
        }
    }
}

impl SavedColorAttachments {
    /// The saved binding of render target `slot`: always for target 0, and for the others
    /// where something was bound.
    pub fn slot(&self, slot: usize) -> (r: Option<ExtraColorSlot>)
        requires
            slot <= 3,
        ensures
            r == (if slot == 0 {
                Some(self@.rt0())
            } else if self@.extra[slot - 1].is_bound_spec() {
                Some(self@.extra[slot - 1])
            } else {
                None
            }),
    {
        if slot == 0 {
            return Some(
                ExtraColorSlot {
                    texture: self.texture,
                    msaa_texture: self.msaa_texture,
                    msaa_srgb_texture: self.msaa_srgb_texture,
                    sample_count: self.sample_count,
                    subresource: self.slice | (self.level << 8),
                    size: (
                        self.scale.dimension(self.logical_size.0),
                        self.scale.dimension(self.logical_size.1),
                    ),
                    logical_size: self.logical_size,
                    format: self.format,
                    scale: self.scale,
                    has_alpha: self.has_alpha,
                },
            );
        }
        let extra: ExtraColorSlot = self.extra[slot - 1];
        if extra.is_bound() {
            Some(extra)
        } else {
            None
        }
    }

    /// Whether render target `slot` (1 to 3) was bound with the extent of target 0.
    pub fn extra_matches_rt0(&self, slot: usize) -> (r: bool)
        requires
            1 <= slot <= 3,
        ensures
            r == (self@.extra[slot - 1].is_bound_spec() && self@.extra[slot - 1].size
                == self@.size()),
    {
        let extra: ExtraColorSlot = self.extra[slot - 1];
        extra.is_bound() && extra.size.0 == self.scale.dimension(self.logical_size.0)
            && extra.size.1 == self.scale.dimension(self.logical_size.1)
    }
}

} // verus!
