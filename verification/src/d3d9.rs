//! Direct3D 9 constants and plain structures.

use vstd::prelude::*;

verus! {

pub const D3DCMP_NEVER: u32 = 1;

pub const D3DCMP_LESS: u32 = 2;

pub const D3DCMP_EQUAL: u32 = 3;

pub const D3DCMP_LESSEQUAL: u32 = 4;

pub const D3DCMP_GREATER: u32 = 5;

pub const D3DCMP_NOTEQUAL: u32 = 6;

pub const D3DCMP_GREATEREQUAL: u32 = 7;

pub const D3DCMP_ALWAYS: u32 = 8;

pub const D3DTOP_DISABLE: u32 = 1;

pub const D3DTOP_SELECTARG1: u32 = 2;

pub const D3DTOP_SELECTARG2: u32 = 3;

pub const D3DTOP_MODULATE: u32 = 4;

pub const D3DTOP_MODULATE2X: u32 = 5;

pub const D3DTOP_MODULATE4X: u32 = 6;

pub const D3DTOP_ADD: u32 = 7;

pub const D3DTOP_ADDSIGNED: u32 = 8;

pub const D3DTOP_ADDSIGNED2X: u32 = 9;

pub const D3DTOP_SUBTRACT: u32 = 10;

pub const D3DTOP_ADDSMOOTH: u32 = 11;

pub const D3DTOP_BLENDDIFFUSEALPHA: u32 = 12;

pub const D3DTOP_BLENDTEXTUREALPHA: u32 = 13;

pub const D3DTOP_BLENDFACTORALPHA: u32 = 14;

pub const D3DTOP_BLENDCURRENTALPHA: u32 = 16;

pub const D3DTOP_DOTPRODUCT3: u32 = 24;

pub const D3DTA_SELECTMASK: u32 = 0x0f;

pub const D3DTA_DIFFUSE: u32 = 0;

pub const D3DTA_CURRENT: u32 = 1;

pub const D3DTA_TEXTURE: u32 = 2;

pub const D3DTA_TFACTOR: u32 = 3;

pub const D3DTA_SPECULAR: u32 = 4;

pub const D3DTA_COMPLEMENT: u32 = 0x10;

pub const D3DTA_ALPHAREPLICATE: u32 = 0x20;

pub const D3DDECLUSAGE_POSITION: u8 = 0;

pub const D3DDECLUSAGE_BLENDWEIGHT: u8 = 1;

pub const D3DDECLUSAGE_BLENDINDICES: u8 = 2;

pub const D3DDECLUSAGE_NORMAL: u8 = 3;

pub const D3DDECLUSAGE_PSIZE: u8 = 4;

pub const D3DDECLUSAGE_TEXCOORD: u8 = 5;

pub const D3DDECLUSAGE_TANGENT: u8 = 6;

pub const D3DDECLUSAGE_BINORMAL: u8 = 7;

pub const D3DDECLUSAGE_TESSFACTOR: u8 = 8;

pub const D3DDECLUSAGE_POSITIONT: u8 = 9;

pub const D3DDECLUSAGE_COLOR: u8 = 10;

pub const D3DDECLUSAGE_FOG: u8 = 11;

pub const D3DDECLUSAGE_DEPTH: u8 = 12;

pub const D3DDECLUSAGE_SAMPLE: u8 = 13;

pub const D3DDECLTYPE_FLOAT1: u8 = 0;

pub const D3DDECLTYPE_FLOAT2: u8 = 1;

pub const D3DDECLTYPE_FLOAT3: u8 = 2;

pub const D3DDECLTYPE_FLOAT4: u8 = 3;

pub const D3DDECLTYPE_D3DCOLOR: u8 = 4;

pub const D3DDECLTYPE_UBYTE4: u8 = 5;

pub const D3DDECLTYPE_SHORT2: u8 = 6;

pub const D3DDECLTYPE_SHORT4: u8 = 7;

pub const D3DDECLTYPE_UBYTE4N: u8 = 8;

pub const D3DDECLTYPE_SHORT2N: u8 = 9;

pub const D3DDECLTYPE_SHORT4N: u8 = 10;

pub const D3DDECLTYPE_USHORT2N: u8 = 11;

pub const D3DDECLTYPE_USHORT4N: u8 = 12;

pub const D3DDECLTYPE_UDEC3: u8 = 13;

pub const D3DDECLTYPE_DEC3N: u8 = 14;

pub const D3DDECLTYPE_FLOAT16_2: u8 = 15;

pub const D3DDECLTYPE_FLOAT16_4: u8 = 16;

pub const D3DDECLTYPE_UNUSED: u8 = 17;

pub const D3DDECLMETHOD_DEFAULT: u8 = 0;

pub const D3DDECL_END_STREAM: u16 = 0xff;

pub const MAX_STREAMS: u32 = 16;

pub const D3DFVF_POSITION_MASK: u32 = 0x00e;

pub const D3DFVF_XYZ: u32 = 0x002;

pub const D3DFVF_XYZRHW: u32 = 0x004;

pub const D3DFVF_XYZB1: u32 = 0x006;

pub const D3DFVF_XYZB2: u32 = 0x008;

pub const D3DFVF_XYZB3: u32 = 0x00a;

pub const D3DFVF_XYZB4: u32 = 0x00c;

pub const D3DFVF_XYZB5: u32 = 0x00e;

pub const D3DFVF_XYZW: u32 = 0x4002;

pub const D3DFVF_NORMAL: u32 = 0x010;

pub const D3DFVF_PSIZE: u32 = 0x020;

pub const D3DFVF_DIFFUSE: u32 = 0x040;

pub const D3DFVF_SPECULAR: u32 = 0x080;

pub const D3DFVF_TEXCOUNT_MASK: u32 = 0xf00;

pub const D3DFVF_TEXCOUNT_SHIFT: u32 = 8;

pub const D3DFVF_LASTBETA_UBYTE4: u32 = 0x1000;

pub const D3DFVF_LASTBETA_D3DCOLOR: u32 = 0x8000;

pub const D3DFVF_TEXTUREFORMAT1: u32 = 3;

pub const D3DFVF_TEXTUREFORMAT2: u32 = 0;

pub const D3DFVF_TEXTUREFORMAT3: u32 = 1;

pub const D3DFVF_TEXTUREFORMAT4: u32 = 2;

pub const D3DFMT_A8R8G8B8: u32 = 21;

pub const D3DFMT_X8R8G8B8: u32 = 22;

pub const D3DFMT_R5G6B5: u32 = 23;

pub const D3DFMT_X1R5G5B5: u32 = 24;

pub const D3DFMT_A1R5G5B5: u32 = 25;

pub const D3DFMT_A4R4G4B4: u32 = 26;

pub const D3DFMT_A8: u32 = 28;

pub const D3DFMT_A8B8G8R8: u32 = 32;

pub const D3DFMT_X8B8G8R8: u32 = 33;

pub const D3DFMT_G16R16: u32 = 34;

pub const D3DFMT_A16B16G16R16: u32 = 36;

pub const D3DFMT_L8: u32 = 50;

pub const D3DFMT_R16F: u32 = 111;

pub const D3DFMT_G16R16F: u32 = 112;

pub const D3DFMT_A16B16G16R16F: u32 = 113;

pub const D3DFMT_R32F: u32 = 114;

pub const D3DFMT_G32R32F: u32 = 115;

pub const D3DFMT_A32B32G32R32F: u32 = 116;

pub const D3DBLEND_ZERO: u32 = 1;

pub const D3DBLEND_ONE: u32 = 2;

pub const D3DBLEND_SRCCOLOR: u32 = 3;

pub const D3DBLEND_INVSRCCOLOR: u32 = 4;

pub const D3DBLEND_SRCALPHA: u32 = 5;

pub const D3DBLEND_INVSRCALPHA: u32 = 6;

pub const D3DBLEND_DESTALPHA: u32 = 7;

pub const D3DBLEND_INVDESTALPHA: u32 = 8;

pub const D3DBLEND_DESTCOLOR: u32 = 9;

pub const D3DBLEND_INVDESTCOLOR: u32 = 10;

pub const D3DBLEND_SRCALPHASAT: u32 = 11;

pub const D3DBLEND_BLENDFACTOR: u32 = 14;

pub const D3DBLEND_INVBLENDFACTOR: u32 = 15;

pub const D3DBLENDOP_ADD: u32 = 1;

pub const D3DBLENDOP_SUBTRACT: u32 = 2;

pub const D3DBLENDOP_REVSUBTRACT: u32 = 3;

pub const D3DBLENDOP_MIN: u32 = 4;

pub const D3DBLENDOP_MAX: u32 = 5;

pub const D3DSTENCILOP_KEEP: u32 = 1;

pub const D3DSTENCILOP_ZERO: u32 = 2;

pub const D3DSTENCILOP_REPLACE: u32 = 3;

pub const D3DSTENCILOP_INCRSAT: u32 = 4;

pub const D3DSTENCILOP_DECRSAT: u32 = 5;

pub const D3DSTENCILOP_INVERT: u32 = 6;

pub const D3DSTENCILOP_INCR: u32 = 7;

pub const D3DSTENCILOP_DECR: u32 = 8;

pub const D3DCULL_NONE: u32 = 1;

pub const D3DCULL_CW: u32 = 2;

pub const D3DCULL_CCW: u32 = 3;

pub const D3DTEXF_NONE: u32 = 0;

pub const D3DTEXF_POINT: u32 = 1;

pub const D3DTEXF_LINEAR: u32 = 2;

pub const D3DTEXF_ANISOTROPIC: u32 = 3;

pub const D3DTADDRESS_WRAP: u32 = 1;

pub const D3DTADDRESS_MIRROR: u32 = 2;

pub const D3DTADDRESS_CLAMP: u32 = 3;

pub const D3DTADDRESS_BORDER: u32 = 4;

pub const D3DTADDRESS_MIRRORONCE: u32 = 5;

pub const D3DPT_POINTLIST: u32 = 1;

pub const D3DPT_LINELIST: u32 = 2;

pub const D3DPT_LINESTRIP: u32 = 3;

pub const D3DPT_TRIANGLELIST: u32 = 4;

pub const D3DPT_TRIANGLESTRIP: u32 = 5;

pub const D3DPT_TRIANGLEFAN: u32 = 6;

pub const D3DTS_VIEW: u32 = 2;

pub const D3DTS_PROJECTION: u32 = 3;

pub const D3DTS_TEXTURE0: u32 = 16;

pub const D3DTS_TEXTURE7: u32 = 23;

pub const D3DTS_WORLD: u32 = 256;

pub const D3DTSS_COLOROP: u32 = 1;

pub const D3DTSS_COLORARG1: u32 = 2;

pub const D3DTSS_COLORARG2: u32 = 3;

pub const D3DTSS_ALPHAOP: u32 = 4;

pub const D3DTSS_ALPHAARG1: u32 = 5;

pub const D3DTSS_ALPHAARG2: u32 = 6;

pub const D3DTSS_BUMPENVMAT00: u32 = 7;

pub const D3DTSS_BUMPENVMAT01: u32 = 8;

pub const D3DTSS_BUMPENVMAT10: u32 = 9;

pub const D3DTSS_BUMPENVMAT11: u32 = 10;

pub const D3DTSS_TEXCOORDINDEX: u32 = 11;

pub const D3DTSS_BUMPENVLSCALE: u32 = 22;

pub const D3DTSS_BUMPENVLOFFSET: u32 = 23;

pub const D3DTSS_TEXTURETRANSFORMFLAGS: u32 = 24;

pub const D3DTSS_COLORARG0: u32 = 26;

pub const D3DTSS_ALPHAARG0: u32 = 27;

pub const D3DTSS_RESULTARG: u32 = 28;

pub const D3DTSS_CONSTANT: u32 = 32;

pub const D3DTTFF_PROJECTED: u32 = 256;

pub const D3DLIGHT_POINT: u32 = 1;

pub const D3DLIGHT_SPOT: u32 = 2;

pub const D3DLIGHT_DIRECTIONAL: u32 = 3;

pub const D3DVBF_DISABLE: u32 = 0;

pub const D3DVBF_1WEIGHTS: u32 = 1;

pub const D3DVBF_2WEIGHTS: u32 = 2;

pub const D3DVBF_3WEIGHTS: u32 = 3;

pub const D3DVBF_TWEENING: u32 = 255;

pub const D3DVBF_0WEIGHTS: u32 = 256;

pub const D3DSHADE_FLAT: u32 = 1;

pub const D3DSHADE_GOURAUD: u32 = 2;

pub const D3DRS_SHADEMODE: usize = 9;

pub const D3DRS_ALPHATESTENABLE: usize = 15;

pub const D3DRS_ALPHAREF: usize = 24;

pub const D3DRS_ALPHAFUNC: usize = 25;

pub const D3DRS_FOGENABLE: usize = 28;

pub const D3DRS_SPECULARENABLE: usize = 29;

pub const D3DRS_FOGCOLOR: usize = 34;

pub const D3DRS_FOGTABLEMODE: usize = 35;

pub const D3DRS_FOGSTART: usize = 36;

pub const D3DRS_FOGEND: usize = 37;

pub const D3DRS_FOGDENSITY: usize = 38;

pub const D3DRS_TEXTUREFACTOR: usize = 60;

pub const D3DRS_LIGHTING: usize = 137;

pub const D3DRS_AMBIENT: usize = 139;

pub const D3DRS_FOGVERTEXMODE: usize = 140;

pub const D3DRS_COLORVERTEX: usize = 141;

pub const D3DRS_LOCALVIEWER: usize = 142;

pub const D3DRS_NORMALIZENORMALS: usize = 143;

pub const D3DRS_DIFFUSEMATERIALSOURCE: usize = 145;

pub const D3DRS_SPECULARMATERIALSOURCE: usize = 146;

pub const D3DRS_AMBIENTMATERIALSOURCE: usize = 147;

pub const D3DRS_EMISSIVEMATERIALSOURCE: usize = 148;

pub const D3DRS_VERTEXBLEND: usize = 151;

pub const D3DRS_POINTSPRITEENABLE: usize = 156;

pub const D3DRS_POINTSCALEENABLE: usize = 157;

pub const D3DRS_INDEXEDVERTEXBLENDENABLE: usize = 167;

pub const D3DRS_SRGBWRITEENABLE: usize = 194;

pub const D3DRS_DEPTHBIAS: usize = 195;

/// One element of a vertex declaration.
#[derive(Clone, Copy, Debug, PartialEq, Eq, Hash, Structural)]
pub struct D3DVERTEXELEMENT9 {
    pub stream: u16,
    pub offset: u16,
    pub type_: u8,
    pub method: u8,
    pub usage: u8,
    pub usage_index: u8,
}

/// How many render states there are.
pub const RENDER_STATE_COUNT: usize = 210;

/// How many states a texture stage has.
pub const TEXTURE_STAGE_STATE_COUNT: usize = 33;

/// A matrix of four rows, row by row. Its elements are the bits of single-precision floats.
#[derive(Clone, Copy, Debug, PartialEq, Eq)]
pub struct D3DMATRIX {
    pub m: [u32; 16],
}

/// A colour. Its channels are the bits of single-precision floats.
#[derive(Clone, Copy, Debug, PartialEq, Eq, Structural)]
pub struct D3DCOLORVALUE {
    pub r: u32,
    pub g: u32,
    pub b: u32,
    pub a: u32,
}

/// A vector. Its components are the bits of single-precision floats.
#[derive(Clone, Copy, Debug, PartialEq, Eq, Structural)]
pub struct D3DVECTOR {
    pub x: u32,
    pub y: u32,
    pub z: u32,
}

/// What a surface is made of.
#[derive(Clone, Copy, Debug, PartialEq, Eq, Structural)]
pub struct D3DMATERIAL9 {
    pub diffuse: D3DCOLORVALUE,
    pub ambient: D3DCOLORVALUE,
    pub specular: D3DCOLORVALUE,
    pub emissive: D3DCOLORVALUE,
    pub power: u32,
}

/// A light. All but its type are the bits of single-precision floats.
#[derive(Clone, Copy, Debug, PartialEq, Eq, Structural)]
pub struct D3DLIGHT9 {
    pub type_: u32,
    pub diffuse: D3DCOLORVALUE,
    pub specular: D3DCOLORVALUE,
    pub ambient: D3DCOLORVALUE,
    pub position: D3DVECTOR,
    pub direction: D3DVECTOR,
    pub range: u32,
    pub falloff: u32,
    pub attenuation0: u32,
    pub attenuation1: u32,
    pub attenuation2: u32,
    pub theta: u32,
    pub phi: u32,
}

/// The bits of the float one.
pub const ONE: u32 = 0x3f80_0000;

impl D3DMATRIX {
    /// Element `i` of the identity.
    pub open spec fn identity_element(i: int) -> u32 {
        if i % 5 == 0 {
            ONE
        } else {
            0
        }
    }

    /// Whether a matrix is the identity.
    pub open spec fn is_identity(self) -> bool {
        forall|i: int| 0 <= i < 16 ==> #[trigger] self.m@[i] == Self::identity_element(i)
    }

    /// The identity.
    pub fn identity() -> (r: D3DMATRIX)
        ensures
            r.is_identity(),
    {
        D3DMATRIX {
            m: [ONE, 0, 0, 0, 0, ONE, 0, 0, 0, 0, ONE, 0, 0, 0, 0, ONE],
        }
    }
}

impl D3DCOLORVALUE {
    /// Black without alpha.
    pub open spec fn zero_spec() -> D3DCOLORVALUE {
        D3DCOLORVALUE { r: 0, g: 0, b: 0, a: 0 }
    }

    /// Black without alpha.
    pub fn zero() -> (r: D3DCOLORVALUE)
        ensures
            r == Self::zero_spec(),
    {
        D3DCOLORVALUE { r: 0, g: 0, b: 0, a: 0 }
    }
}

impl D3DMATERIAL9 {
    /// The material before any was set.
    pub open spec fn initial_spec() -> D3DMATERIAL9 {
        D3DMATERIAL9 {
            diffuse: D3DCOLORVALUE::zero_spec(),
            ambient: D3DCOLORVALUE::zero_spec(),
            specular: D3DCOLORVALUE::zero_spec(),
            emissive: D3DCOLORVALUE::zero_spec(),
            power: 0,
        }
    }
}

impl Default for D3DMATERIAL9 {
    fn default() -> (r: D3DMATERIAL9)
        ensures
            r == D3DMATERIAL9::initial_spec(),
    {
        D3DMATERIAL9 {
            diffuse: D3DCOLORVALUE::zero(),
            ambient: D3DCOLORVALUE::zero(),
            specular: D3DCOLORVALUE::zero(),
            emissive: D3DCOLORVALUE::zero(),
            power: 0,
        }
    }
}

impl D3DLIGHT9 {
    /// The light of a slot that was never set: directional, along the third axis, and black.
    pub open spec fn initial_spec() -> D3DLIGHT9 {
        D3DLIGHT9 {
            type_: D3DLIGHT_DIRECTIONAL,
            diffuse: D3DCOLORVALUE::zero_spec(),
            specular: D3DCOLORVALUE::zero_spec(),
            ambient: D3DCOLORVALUE::zero_spec(),
            position: D3DVECTOR { x: 0, y: 0, z: 0 },
            direction: D3DVECTOR { x: 0, y: 0, z: ONE },
            range: 0,
            falloff: 0,
            attenuation0: 0,
            attenuation1: 0,
            attenuation2: 0,
            theta: 0,
            phi: 0,
        }
    }
}

impl Default for D3DLIGHT9 {
    fn default() -> (r: D3DLIGHT9)
        ensures
            r == D3DLIGHT9::initial_spec(),
    {
        D3DLIGHT9 {
            type_: D3DLIGHT_DIRECTIONAL,
            diffuse: D3DCOLORVALUE::zero(),
            specular: D3DCOLORVALUE::zero(),
            ambient: D3DCOLORVALUE::zero(),
            position: D3DVECTOR { x: 0, y: 0, z: 0 },
            direction: D3DVECTOR { x: 0, y: 0, z: ONE },
            range: 0,
            falloff: 0,
            attenuation0: 0,
            attenuation1: 0,
            attenuation2: 0,
            theta: 0,
            phi: 0,
        }
    }
}

/// The value that a state of a texture stage has before any was set.
pub open spec fn tss_default(stage: int, ty: int) -> u32 {
    if ty == D3DTSS_COLOROP {
        if stage == 0 {
            D3DTOP_MODULATE
        } else {
            D3DTOP_DISABLE
        }
    } else if ty == D3DTSS_ALPHAOP {
        if stage == 0 {
            D3DTOP_SELECTARG1
        } else {
            D3DTOP_DISABLE
        }
    } else if ty == D3DTSS_COLORARG1 || ty == D3DTSS_ALPHAARG1 {
        D3DTA_TEXTURE
    } else if ty == D3DTSS_COLORARG2 || ty == D3DTSS_ALPHAARG2 || ty == D3DTSS_COLORARG0 || ty
        == D3DTSS_ALPHAARG0 || ty == D3DTSS_RESULTARG {
        D3DTA_CURRENT
    } else if ty == D3DTSS_TEXCOORDINDEX {
        stage as u32
    } else {
        0
    }
}

/// The value that a state of a texture stage has before any was set.
pub fn texture_stage_state_default(stage: usize, ty: usize) -> (r: u32)
    requires
        stage < 8,
        ty < TEXTURE_STAGE_STATE_COUNT,
    ensures
        r == tss_default(stage as int, ty as int),
{
    let code: u32 = ty as u32;
    if code == D3DTSS_COLOROP {
        if stage == 0 {
            D3DTOP_MODULATE
        } else {
            D3DTOP_DISABLE
        }
    } else if code == D3DTSS_ALPHAOP {
        if stage == 0 {
            D3DTOP_SELECTARG1
        } else {
            D3DTOP_DISABLE
        }
    } else if code == D3DTSS_COLORARG1 || code == D3DTSS_ALPHAARG1 {
        D3DTA_TEXTURE
    } else if code == D3DTSS_COLORARG2 || code == D3DTSS_ALPHAARG2 || code == D3DTSS_COLORARG0
        || code == D3DTSS_ALPHAARG0 || code == D3DTSS_RESULTARG {
        D3DTA_CURRENT
    } else if code == D3DTSS_TEXCOORDINDEX {
        stage as u32
    } else {
        0
    }
}

/// Which states a state block holds.
#[derive(Clone, Copy, Debug, PartialEq, Eq, Structural)]
pub enum StateBlockType {
    All,
    Pixel,
    Vertex,
}

impl StateBlockType {
    /// Whether a block holds a state of the texture stages.
    pub open spec fn includes_tss_spec(self, ty: int) -> bool {
        match self {
            StateBlockType::All => true,
            StateBlockType::Pixel => D3DTSS_COLOROP <= ty <= D3DTSS_TEXCOORDINDEX || ty
                == D3DTSS_BUMPENVLSCALE || ty == D3DTSS_BUMPENVLOFFSET || ty
                == D3DTSS_TEXTURETRANSFORMFLAGS || D3DTSS_COLORARG0 <= ty <= D3DTSS_RESULTARG,
            StateBlockType::Vertex => ty == D3DTSS_TEXCOORDINDEX || ty
                == D3DTSS_TEXTURETRANSFORMFLAGS,
        }
    }

    /// Whether a block holds a state of the texture stages.
    pub fn includes_tss(self, ty: u32) -> (r: bool)
        ensures
            r == self.includes_tss_spec(ty as int),
    {
        match self {
            StateBlockType::All => true,
            StateBlockType::Pixel => (D3DTSS_COLOROP <= ty && ty <= D3DTSS_TEXCOORDINDEX) || ty
                == D3DTSS_BUMPENVLSCALE || ty == D3DTSS_BUMPENVLOFFSET || ty
                == D3DTSS_TEXTURETRANSFORMFLAGS || (D3DTSS_COLORARG0 <= ty && ty
                <= D3DTSS_RESULTARG),
            StateBlockType::Vertex => ty == D3DTSS_TEXCOORDINDEX || ty
                == D3DTSS_TEXTURETRANSFORMFLAGS,
        }
    }
}

} // verus!
