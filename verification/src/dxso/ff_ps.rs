//! The text of fixed-function pixel shaders.
//!
//! Each function here has a twin whose name ends in `_text`: the text that it
//! gives for the same arguments.

use super::ff::{active_stage_count, active_stages, FfPsKey, FfStage};
use super::ff_vs::emit_varyings;
use super::variant::{SharedText, VariantKey, DEFAULT_PS_ENTRY};
use crate::bits::{bit16, bit8, has_bit16, has_bit8};
use crate::d3d9::{
    D3DCMP_ALWAYS, D3DCMP_EQUAL, D3DCMP_GREATER, D3DCMP_GREATEREQUAL, D3DCMP_LESS,
    D3DCMP_LESSEQUAL, D3DCMP_NEVER, D3DCMP_NOTEQUAL, D3DTA_ALPHAREPLICATE, D3DTA_COMPLEMENT,
    D3DTA_CURRENT, D3DTA_DIFFUSE, D3DTA_SELECTMASK, D3DTA_SPECULAR, D3DTA_TEXTURE, D3DTA_TFACTOR,
    D3DTOP_ADD, D3DTOP_ADDSIGNED, D3DTOP_ADDSIGNED2X, D3DTOP_ADDSMOOTH, D3DTOP_BLENDCURRENTALPHA,
    D3DTOP_BLENDDIFFUSEALPHA, D3DTOP_BLENDFACTORALPHA, D3DTOP_BLENDTEXTUREALPHA,
    D3DTOP_DOTPRODUCT3, D3DTOP_MODULATE, D3DTOP_MODULATE2X, D3DTOP_MODULATE4X, D3DTOP_SELECTARG1,
    D3DTOP_SELECTARG2, D3DTOP_SUBTRACT,
};
use crate::metal::PS_LOD_BIAS_SLOT;
use crate::text::{dec, each, given, owned, push, push_if, push_num};
use vstd::prelude::*;

verus! {

/// Whether an argument selects the texture of its stage.
pub open spec fn selects_texture(arg: u8) -> bool {
    arg as u32 & D3DTA_SELECTMASK == D3DTA_TEXTURE
}

/// Whether an operation uses the texture of its stage as one of its arguments.
pub open spec fn op_reads_texture_spec(op: u8, arg1: u8, arg2: u8) -> bool {
    (selects_texture(arg1) && op != D3DTOP_SELECTARG2) || (selects_texture(arg2) && op
        != D3DTOP_SELECTARG1)
}

fn op_reads_texture(op: u8, arg1: u8, arg2: u8) -> (r: bool)
    ensures
        r == op_reads_texture_spec(op, arg1, arg2),
{
    let first: bool = arg1 as u32 & D3DTA_SELECTMASK == D3DTA_TEXTURE;
    let second: bool = arg2 as u32 & D3DTA_SELECTMASK == D3DTA_TEXTURE;
    (first && op as u32 != D3DTOP_SELECTARG2) || (second && op as u32 != D3DTOP_SELECTARG1)
}

/// What an argument selects, before its modifiers.
pub open spec fn selected_text(arg: u8, stage: int, has_texture: bool) -> Seq<char> {
    let selector = arg as u32 & D3DTA_SELECTMASK;
    if selector == D3DTA_DIFFUSE {
        "in.color0"@
    } else if selector == D3DTA_CURRENT {
        "current"@
    } else if selector == D3DTA_SPECULAR {
        "in.color1"@
    } else if selector == D3DTA_TEXTURE && has_texture {
        "t"@ + dec(stage as nat)
    } else if selector == D3DTA_TFACTOR {
        "ps_c[0]"@
    } else {
        "float4(1.0)"@
    }
}

/// An argument with its modifiers: its alpha in every component, then its complement.
pub open spec fn resolve_arg_text(arg: u8, stage: int, has_texture: bool) -> Seq<char> {
    let complement = arg as u32 & D3DTA_COMPLEMENT != 0;
    given(complement, "(1.0 - "@) + selected_text(arg, stage, has_texture) + given(
        arg as u32 & D3DTA_ALPHAREPLICATE != 0,
        ".aaaa"@,
    ) + given(complement, ")"@)
}

fn selected(arg: u8, stage: u32, has_texture: bool) -> (r: String)
    ensures
        r@ == selected_text(arg, stage as int, has_texture),
{
    let selector: u32 = arg as u32 & D3DTA_SELECTMASK;
    if selector == D3DTA_DIFFUSE {
        owned("in.color0")
    } else if selector == D3DTA_CURRENT {
        owned("current")
    } else if selector == D3DTA_SPECULAR {
        owned("in.color1")
    } else if selector == D3DTA_TEXTURE && has_texture {
        let mut out: String = owned("t");
        push_num(&mut out, stage);
        out
    } else if selector == D3DTA_TFACTOR {
        owned("ps_c[0]")
    } else {
        owned("float4(1.0)")
    }
}

fn resolve_arg(arg: u8, stage: u32, has_texture: bool) -> (r: String)
    ensures
        r@ == resolve_arg_text(arg, stage as int, has_texture),
{
    let complement: bool = arg as u32 & D3DTA_COMPLEMENT != 0;
    let mut out: String = String::new();
    push_if(&mut out, complement, "(1.0 - ");
    let value: String = selected(arg, stage, has_texture);
    push(&mut out, value.as_str());
    push_if(&mut out, arg as u32 & D3DTA_ALPHAREPLICATE != 0, ".aaaa");
    push_if(&mut out, complement, ")");
    assert(Seq::<char>::empty() + given(complement, "(1.0 - "@) =~= given(complement, "(1.0 - "@));
    out
}

/// Two values with text before, between and behind them.
pub open spec fn joined(before: Seq<char>, a: Seq<char>, between: Seq<char>, b: Seq<char>, behind: Seq<char>) -> Seq<char> {
    before + a + between + b + behind
}

fn join(before: &str, a: &str, between: &str, b: &str, behind: &str) -> (r: String)
    ensures
        r@ == joined(before@, a@, between@, b@, behind@),
{
    let mut out: String = owned(before);
    push(&mut out, a);
    push(&mut out, between);
    push(&mut out, b);
    push(&mut out, behind);
    out
}

/// The mix of two values by the alpha of a third.
pub open spec fn blend_text(a: Seq<char>, b: Seq<char>, by: Seq<char>) -> Seq<char> {
    "("@ + a + " * "@ + by + ".a + "@ + b + " * (1.0 - "@ + by + ".a))"@
}

fn blend(a: &str, b: &str, by: &str) -> (r: String)
    ensures
        r@ == blend_text(a@, b@, by@),
{
    let mut out: String = owned("(");
    push(&mut out, a);
    push(&mut out, " * ");
    push(&mut out, by);
    push(&mut out, ".a + ");
    push(&mut out, b);
    push(&mut out, " * (1.0 - ");
    push(&mut out, by);
    push(&mut out, ".a))");
    out
}

/// What blending by the alpha of the stage's texture goes by: the colour so far when there is none.
pub open spec fn texture_or_current(stage: int, has_texture: bool) -> Seq<char> {
    if has_texture {
        "t"@ + dec(stage as nat)
    } else {
        "current"@
    }
}

/// The result of an operation on two values; an unknown operation gives the first.
pub open spec fn apply_op_text(op: u8, a: Seq<char>, b: Seq<char>, stage: int, has_texture: bool) -> Seq<char> {
    if op == D3DTOP_SELECTARG2 {
        b
    } else if op == D3DTOP_MODULATE {
        joined("("@, a, " * "@, b, ")"@)
    } else if op == D3DTOP_MODULATE2X {
        joined("saturate(2.0 * "@, a, " * "@, b, ")"@)
    } else if op == D3DTOP_MODULATE4X {
        joined("saturate(4.0 * "@, a, " * "@, b, ")"@)
    } else if op == D3DTOP_ADD {
        joined("saturate("@, a, " + "@, b, ")"@)
    } else if op == D3DTOP_ADDSIGNED {
        joined("saturate("@, a, " + "@, b, " - 0.5)"@)
    } else if op == D3DTOP_ADDSIGNED2X {
        joined("saturate(2.0 * ("@, a, " + "@, b, " - 0.5))"@)
    } else if op == D3DTOP_SUBTRACT {
        joined("saturate("@, a, " - "@, b, ")"@)
    } else if op == D3DTOP_ADDSMOOTH {
        joined("saturate("@, a, " + "@, b, " * (1.0 - "@) + a + "))"@
    } else if op == D3DTOP_BLENDDIFFUSEALPHA {
        blend_text(a, b, "in.color0"@)
    } else if op == D3DTOP_BLENDTEXTUREALPHA {
        blend_text(a, b, texture_or_current(stage, has_texture))
    } else if op == D3DTOP_BLENDFACTORALPHA {
        blend_text(a, b, "ps_c[0]"@)
    } else if op == D3DTOP_BLENDCURRENTALPHA {
        blend_text(a, b, "current"@)
    } else if op == D3DTOP_DOTPRODUCT3 {
        joined("float4(saturate(4.0 * dot(("@, a, ").rgb - 0.5, ("@, b, ").rgb - 0.5)))"@)
    } else {
        a
    }
}

fn apply_op(op: u8, a: &str, b: &str, stage: u32, has_texture: bool) -> (r: String)
    ensures
        r@ == apply_op_text(op, a@, b@, stage as int, has_texture),
{
    let op: u32 = op as u32;
    if op == D3DTOP_SELECTARG1 {
        owned(a)
    } else if op == D3DTOP_SELECTARG2 {
        owned(b)
    } else if op == D3DTOP_MODULATE {
        join("(", a, " * ", b, ")")
    } else if op == D3DTOP_MODULATE2X {
        join("saturate(2.0 * ", a, " * ", b, ")")
    } else if op == D3DTOP_MODULATE4X {
        join("saturate(4.0 * ", a, " * ", b, ")")
    } else if op == D3DTOP_ADD {
        join("saturate(", a, " + ", b, ")")
    } else if op == D3DTOP_ADDSIGNED {
        join("saturate(", a, " + ", b, " - 0.5)")
    } else if op == D3DTOP_ADDSIGNED2X {
        join("saturate(2.0 * (", a, " + ", b, " - 0.5))")
    } else if op == D3DTOP_SUBTRACT {
        join("saturate(", a, " - ", b, ")")
    } else if op == D3DTOP_ADDSMOOTH {
        let mut out: String = join("saturate(", a, " + ", b, " * (1.0 - ");
        push(&mut out, a);
        push(&mut out, "))");
        out
    } else if op == D3DTOP_BLENDDIFFUSEALPHA {
        blend(a, b, "in.color0")
    } else if op == D3DTOP_BLENDTEXTUREALPHA {
        if has_texture {
            let mut t: String = owned("t");
            push_num(&mut t, stage);
            blend(a, b, t.as_str())
        } else {
            blend(a, b, "current")
        }
    } else if op == D3DTOP_BLENDFACTORALPHA {
        blend(a, b, "ps_c[0]")
    } else if op == D3DTOP_BLENDCURRENTALPHA {
        blend(a, b, "current")
    } else if op == D3DTOP_DOTPRODUCT3 {
        join("float4(saturate(4.0 * dot((", a, ").rgb - 0.5, (", b, ").rgb - 0.5)))")
    } else {
        owned(a)
    }
}

/// The value of one half of a stage, colour or alpha: what the operation gives,
/// or the colour so far where the operation asks for a texture that is not there.
pub open spec fn combined_text(op: u8, arg1: u8, arg2: u8, stage: int, has_texture: bool) -> Seq<char> {
    if !has_texture && op_reads_texture_spec(op, arg1, arg2) {
        "current"@
    } else {
        apply_op_text(
            op,
            resolve_arg_text(arg1, stage, has_texture),
            resolve_arg_text(arg2, stage, has_texture),
            stage,
            has_texture,
        )
    }
}

fn combined(op: u8, arg1: u8, arg2: u8, stage: u32, has_texture: bool) -> (r: String)
    ensures
        r@ == combined_text(op, arg1, arg2, stage as int, has_texture),
{
    if !has_texture && op_reads_texture(op, arg1, arg2) {
        owned("current")
    } else {
        let a: String = resolve_arg(arg1, stage, has_texture);
        let b: String = resolve_arg(arg2, stage, has_texture);
        apply_op(op, a.as_str(), b.as_str(), stage, has_texture)
    }
}

/// The type of the texture of stage `i`.
pub open spec fn texture_type(v: VariantKey, i: int) -> Seq<char> {
    if bit16(v.depth_sampler_mask, i) {
        "depth2d<float>"@
    } else if bit16(v.volume_sampler_mask, i) {
        "texture3d<float>"@
    } else if bit16(v.cube_sampler_mask, i) {
        "texturecube<float>"@
    } else {
        "texture2d<float>"@
    }
}

fn texture_type_name(v: &VariantKey, i: u32) -> (r: &'static str)
    requires
        i < 8,
    ensures
        r@ == texture_type(*v, i as int),
{
    if has_bit16(v.depth_sampler_mask, i) {
        "depth2d<float>"
    } else if has_bit16(v.volume_sampler_mask, i) {
        "texture3d<float>"
    } else if has_bit16(v.cube_sampler_mask, i) {
        "texturecube<float>"
    } else {
        "texture2d<float>"
    }
}

/// The parameters for the texture and the sampler of stage `i`.
pub open spec fn texture_arg_text(v: VariantKey, i: int) -> Seq<char> {
    Seq::<char>::empty()
        + ",\n    "@
        + texture_type(v, i)
        + " s"@
        + dec(i as nat)
        + " [[texture("@
        + dec(i as nat)
        + ")]],\n    sampler samp"@
        + dec(i as nat)
        + " [[sampler("@
        + dec(i as nat)
        + ")]]"@
}

fn texture_arg(v: &VariantKey, i: u32) -> (r: String)
    requires
        i < 8,
    ensures
        r@ == texture_arg_text(*v, i as int),
{
    let mut out: String = String::new();
    push(&mut out, ",\n    ");
    push(&mut out, texture_type_name(v, i));
    push(&mut out, " s");
    push_num(&mut out, i);
    push(&mut out, " [[texture(");
    push_num(&mut out, i);
    push(&mut out, ")]],\n    sampler samp");
    push_num(&mut out, i);
    push(&mut out, " [[sampler(");
    push_num(&mut out, i);
    push(&mut out, ")]]");
    out
}

/// The parameters for the textures and samplers: those of each stage that samples, in order.
pub open spec fn texture_args_text(k: FfPsKey, v: VariantKey) -> Seq<char> {
    each(8, |i: int| given(k.samples(i), texture_arg_text(v, i)))
}

fn texture_args(k: &FfPsKey, v: &VariantKey) -> (r: String)
    ensures
        r@ == texture_args_text(*k, *v),
{
    let mut out: String = String::new();
    let n: u32 = active_stage_count(&k.stages);
    let ghost f = |i: int| given(k.samples(i), texture_arg_text(*v, i));
    let mut i: u32 = 0;
    while i < 8
        invariant
            i <= 8,
            n == active_stages(k.stages@),
            f == (|i: int| given(k.samples(i), texture_arg_text(*v, i))),
            out@ == each(i as nat, f),
        decreases 8 - i,
    {
        let piece: String = if i < n && k.stages[i as usize].has_texture {
            texture_arg(v, i)
        } else {
            String::new()
        };
        push(&mut out, piece.as_str());
        assert(piece@ == f(i as int));
        i += 1;
    }
    out
}

/// A coordinate of stage `i`: the components `sw`, divided by the last component when projected, `zero` where that is zero.
pub open spec fn stage_uv_text(projected: bool, i: int, sw: Seq<char>, zero: Seq<char>) -> Seq<char> {
    Seq::<char>::empty()
        + given(projected, uv_test_text(i))
        + "in.texcoord"@
        + dec(i as nat)
        + "."@
        + sw
        + given(projected, uv_divide_text(i, zero))
}

fn stage_uv(projected: bool, i: u32, sw: &str, zero: &str) -> (r: String)
    ensures
        r@ == stage_uv_text(projected, i as int, sw@, zero@),
{
    let mut out: String = String::new();
    let piece1: String = if projected {
        uv_test(i)
    } else {
        String::new()
    };
    push(&mut out, piece1.as_str());
    push(&mut out, "in.texcoord");
    push_num(&mut out, i);
    push(&mut out, ".");
    push(&mut out, sw);
    let piece2: String = if projected {
        uv_divide(i, zero)
    } else {
        String::new()
    };
    push(&mut out, piece2.as_str());
    out
}

/// The test for a coordinate that can be divided.
pub open spec fn uv_test_text(i: int) -> Seq<char> {
    Seq::<char>::empty()
        + "(in.texcoord"@
        + dec(i as nat)
        + ".w != 0.0 ? "@
}

fn uv_test(i: u32) -> (r: String)
    ensures
        r@ == uv_test_text(i as int),
{
    let mut out: String = String::new();
    push(&mut out, "(in.texcoord");
    push_num(&mut out, i);
    push(&mut out, ".w != 0.0 ? ");
    out
}

/// The division of a coordinate.
pub open spec fn uv_divide_text(i: int, zero: Seq<char>) -> Seq<char> {
    Seq::<char>::empty()
        + " / in.texcoord"@
        + dec(i as nat)
        + ".w : "@
        + zero
        + ")"@
}

fn uv_divide(i: u32, zero: &str) -> (r: String)
    ensures
        r@ == uv_divide_text(i as int, zero@),
{
    let mut out: String = String::new();
    push(&mut out, " / in.texcoord");
    push_num(&mut out, i);
    push(&mut out, ".w : ");
    push(&mut out, zero);
    push(&mut out, ")");
    out
}

/// The depth texture of stage `i`, read as a value.
pub open spec fn depth_fetch_text(projected: bool, i: int) -> Seq<char> {
    Seq::<char>::empty()
        + "    float4 t"@
        + dec(i as nat)
        + " = float4(s"@
        + dec(i as nat)
        + ".sample(samp"@
        + dec(i as nat)
        + ", "@
        + stage_uv_text(projected, i, "xy"@, "float2(0.0)"@)
        + ", level(0)));\n"@
}

fn depth_fetch(projected: bool, i: u32) -> (r: String)
    ensures
        r@ == depth_fetch_text(projected, i as int),
{
    let mut out: String = String::new();
    push(&mut out, "    float4 t");
    push_num(&mut out, i);
    push(&mut out, " = float4(s");
    push_num(&mut out, i);
    push(&mut out, ".sample(samp");
    push_num(&mut out, i);
    push(&mut out, ", ");
    let piece1: String = stage_uv(projected, i, "xy", "float2(0.0)");
    push(&mut out, piece1.as_str());
    push(&mut out, ", level(0)));\n");
    out
}

/// The depth texture of stage `i`, compared with the coordinate.
pub open spec fn depth_compare_text(i: int) -> Seq<char> {
    Seq::<char>::empty()
        + "    float4 t"@
        + dec(i as nat)
        + " = float4(s"@
        + dec(i as nat)
        + ".sample_compare(samp"@
        + dec(i as nat)
        + ", in.texcoord"@
        + dec(i as nat)
        + ".xy, saturate(in.texcoord"@
        + dec(i as nat)
        + ".z), level(0)));\n"@
}

fn depth_compare(i: u32) -> (r: String)
    ensures
        r@ == depth_compare_text(i as int),
{
    let mut out: String = String::new();
    push(&mut out, "    float4 t");
    push_num(&mut out, i);
    push(&mut out, " = float4(s");
    push_num(&mut out, i);
    push(&mut out, ".sample_compare(samp");
    push_num(&mut out, i);
    push(&mut out, ", in.texcoord");
    push_num(&mut out, i);
    push(&mut out, ".xy, saturate(in.texcoord");
    push_num(&mut out, i);
    push(&mut out, ".z), level(0)));\n");
    out
}

/// The level-of-detail bias of stage `i`.
pub open spec fn sample_bias_text(i: int) -> Seq<char> {
    Seq::<char>::empty()
        + ", bias(lod_bias["@
        + dec(i as nat)
        + "].x)"@
}

fn sample_bias(i: u32) -> (r: String)
    ensures
        r@ == sample_bias_text(i as int),
{
    let mut out: String = String::new();
    push(&mut out, ", bias(lod_bias[");
    push_num(&mut out, i);
    push(&mut out, "].x)");
    out
}

/// The colour texture of stage `i`, with a coordinate of three components if it is solid.
pub open spec fn color_sample_text(projected: bool, solid: bool, bias: bool, i: int) -> Seq<char> {
    Seq::<char>::empty()
        + "    float4 t"@
        + dec(i as nat)
        + " = s"@
        + dec(i as nat)
        + ".sample(samp"@
        + dec(i as nat)
        + ", "@
        + given(solid, stage_uv_text(projected, i, "xyz"@, "float3(0.0)"@))
        + given(!solid, stage_uv_text(projected, i, "xy"@, "float2(0.0)"@))
        + given(bias, sample_bias_text(i))
        + ");\n"@
}

fn color_sample(projected: bool, solid: bool, bias: bool, i: u32) -> (r: String)
    ensures
        r@ == color_sample_text(projected, solid, bias, i as int),
{
    let mut out: String = String::new();
    push(&mut out, "    float4 t");
    push_num(&mut out, i);
    push(&mut out, " = s");
    push_num(&mut out, i);
    push(&mut out, ".sample(samp");
    push_num(&mut out, i);
    push(&mut out, ", ");
    let piece1: String = if solid {
        stage_uv(projected, i, "xyz", "float3(0.0)")
    } else {
        String::new()
    };
    push(&mut out, piece1.as_str());
    let piece2: String = if !solid {
        stage_uv(projected, i, "xy", "float2(0.0)")
    } else {
        String::new()
    };
    push(&mut out, piece2.as_str());
    let piece3: String = if bias {
        sample_bias(i)
    } else {
        String::new()
    };
    push(&mut out, piece3.as_str());
    push(&mut out, ");\n");
    out
}

/// What samples the texture of stage `i`.
pub open spec fn stage_sample_text(k: FfPsKey, v: VariantKey, i: int) -> Seq<char> {
    let projected = bit8(k.tt_projected_mask, i);
    if bit16(v.depth_fetch_mask, i) {
        depth_fetch_text(projected, i)
    } else if bit16(v.depth_sampler_mask, i) {
        depth_compare_text(i)
    } else {
        let solid = bit16(v.volume_sampler_mask, i) || bit16(v.cube_sampler_mask, i);
        color_sample_text(projected, solid, v.flags.lod_bias, i)
    }
}

fn stage_sample(k: &FfPsKey, v: &VariantKey, i: u32) -> (r: String)
    requires
        i < 8,
    ensures
        r@ == stage_sample_text(*k, *v, i as int),
{
    let projected: bool = has_bit8(k.tt_projected_mask, i);
    if has_bit16(v.depth_fetch_mask, i) {
        depth_fetch(projected, i)
    } else if has_bit16(v.depth_sampler_mask, i) {
        depth_compare(i)
    } else {
        let solid: bool = has_bit16(v.volume_sampler_mask, i) || has_bit16(v.cube_sampler_mask, i);
        color_sample(projected, solid, v.flags.lod_bias, i)
    }
}

/// What stage `i` does to the colour.
pub open spec fn stage_combine_text(s: FfStage, i: int) -> Seq<char> {
    Seq::<char>::empty()
        + "    current = float4(("@
        + combined_text(s.color_op, s.color_arg1, s.color_arg2, i, s.has_texture)
        + ").rgb, ("@
        + combined_text(s.alpha_op, s.alpha_arg1, s.alpha_arg2, i, s.has_texture)
        + ").a);\n"@
}

fn stage_combine(s: &FfStage, i: u32) -> (r: String)
    ensures
        r@ == stage_combine_text(*s, i as int),
{
    let mut out: String = String::new();
    push(&mut out, "    current = float4((");
    let piece1: String = combined(s.color_op, s.color_arg1, s.color_arg2, i, s.has_texture);
    push(&mut out, piece1.as_str());
    push(&mut out, ").rgb, (");
    let piece2: String = combined(s.alpha_op, s.alpha_arg1, s.alpha_arg2, i, s.has_texture);
    push(&mut out, piece2.as_str());
    push(&mut out, ").a);\n");
    out
}

/// Stage `i`: its texture, if it has one, and what it does to the colour.
pub open spec fn stage_text(k: FfPsKey, v: VariantKey, i: int) -> Seq<char> {
    given(k.stages@[i].has_texture, stage_sample_text(k, v, i)) + stage_combine_text(
        k.stages@[i],
        i,
    )
}

/// The active stages in order.
pub open spec fn stages_text(k: FfPsKey, v: VariantKey) -> Seq<char> {
    each(active_stages(k.stages@) as nat, |i: int| stage_text(k, v, i))
}

fn stages(k: &FfPsKey, v: &VariantKey) -> (r: String)
    ensures
        r@ == stages_text(*k, *v),
{
    let mut out: String = String::new();
    let n: u32 = active_stage_count(&k.stages);
    let ghost f = |i: int| stage_text(*k, *v, i);
    let mut i: u32 = 0;
    while i < n
        invariant
            i <= n <= 8,
            f == (|i: int| stage_text(*k, *v, i)),
            out@ == each(i as nat, f),
        decreases n - i,
    {
        let stage: FfStage = k.stages[i as usize];
        let mut piece: String = if stage.has_texture {
            stage_sample(k, v, i)
        } else {
            String::new()
        };
        let combine: String = stage_combine(&stage, i);
        push(&mut piece, combine.as_str());
        push(&mut out, piece.as_str());
        assert(piece@ == f(i as int));
        i += 1;
    }
    out
}

/// Whether pixels are tested by their alpha.
pub open spec fn alpha_tested(v: VariantKey) -> bool {
    v.alpha_func != 0 && v.alpha_func != D3DCMP_ALWAYS
}

fn alpha_code(v: &VariantKey) -> (r: u32)
    ensures
        r == v.alpha_func,
{
    v.alpha_func as u32
}

fn tests_alpha(v: &VariantKey) -> (r: bool)
    ensures
        r == alpha_tested(*v),
{
    let code: u32 = alpha_code(v);
    code != 0 && code != D3DCMP_ALWAYS
}

/// The condition on which a pixel passes the alpha test; an unknown function passes all.
pub open spec fn alpha_condition(code: u32) -> Seq<char> {
    if code == D3DCMP_NEVER {
        "false"@
    } else if code == D3DCMP_LESS {
        "oC0.a < alpha_ref"@
    } else if code == D3DCMP_EQUAL {
        "oC0.a == alpha_ref"@
    } else if code == D3DCMP_LESSEQUAL {
        "oC0.a <= alpha_ref"@
    } else if code == D3DCMP_GREATER {
        "oC0.a > alpha_ref"@
    } else if code == D3DCMP_NOTEQUAL {
        "oC0.a != alpha_ref"@
    } else if code == D3DCMP_GREATEREQUAL {
        "oC0.a >= alpha_ref"@
    } else {
        "true"@
    }
}

fn alpha_condition_name(code: u32) -> (r: &'static str)
    ensures
        r@ == alpha_condition(code),
{
    if code == D3DCMP_NEVER {
        "false"
    } else if code == D3DCMP_LESS {
        "oC0.a < alpha_ref"
    } else if code == D3DCMP_EQUAL {
        "oC0.a == alpha_ref"
    } else if code == D3DCMP_LESSEQUAL {
        "oC0.a <= alpha_ref"
    } else if code == D3DCMP_GREATER {
        "oC0.a > alpha_ref"
    } else if code == D3DCMP_NOTEQUAL {
        "oC0.a != alpha_ref"
    } else if code == D3DCMP_GREATEREQUAL {
        "oC0.a >= alpha_ref"
    } else {
        "true"
    }
}

/// The alpha test.
pub open spec fn alpha_test_text(code: u32) -> Seq<char> {
    Seq::<char>::empty()
        + "    if (!("@
        + alpha_condition(code)
        + ")) discard_fragment();\n"@
}

fn alpha_test(code: u32) -> (r: String)
    ensures
        r@ == alpha_test_text(code),
{
    let mut out: String = String::new();
    push(&mut out, "    if (!(");
    push(&mut out, alpha_condition_name(code));
    push(&mut out, ")) discard_fragment();\n");
    out
}

/// The head of the pixel function, up to its first parameter.
pub open spec fn ps_head_text(v: VariantKey, entry: Seq<char>) -> Seq<char> {
    Seq::<char>::empty()
        + given(v.flags.sample_mask, "struct FfPsOut {\n    float4 oC0 [[color(0)]];\n"@)
        + given(v.flags.sample_mask, "    uint oMask [[sample_mask]];\n};\n\n"@)
        + (if v.flags.sample_mask { "fragment FfPsOut "@ } else { "fragment float4 "@ })
        + entry
        + "(\n"@
        + given(v.flags.point_sprite, "    Varyings in_stage [[stage_in]],\n"@)
        + given(v.flags.point_sprite, "    float2 point_coord [[point_coord]],\n"@)
        + given(!v.flags.point_sprite, "    Varyings in [[stage_in]],\n"@)
        + "    constant float4 *ps_c [[buffer(15)]]"@
}

fn ps_head(v: &VariantKey, entry: &str) -> (r: String)
    ensures
        r@ == ps_head_text(*v, entry@),
{
    let mut out: String = String::new();
    push_if(&mut out, v.flags.sample_mask, "struct FfPsOut {\n    float4 oC0 [[color(0)]];\n");
    push_if(&mut out, v.flags.sample_mask, "    uint oMask [[sample_mask]];\n};\n\n");
    if v.flags.sample_mask {
        push(&mut out, "fragment FfPsOut ");
    } else {
        push(&mut out, "fragment float4 ");
    }
    push(&mut out, entry);
    push(&mut out, "(\n");
    push_if(&mut out, v.flags.point_sprite, "    Varyings in_stage [[stage_in]],\n");
    push_if(&mut out, v.flags.point_sprite, "    float2 point_coord [[point_coord]],\n");
    push_if(&mut out, !v.flags.point_sprite, "    Varyings in [[stage_in]],\n");
    push(&mut out, "    constant float4 *ps_c [[buffer(15)]]");
    out
}

/// The parameter for the level-of-detail biases.
pub open spec fn lod_bias_arg_text() -> Seq<char> {
    Seq::<char>::empty()
        + ",\n    constant float4 *lod_bias [[buffer("@
        + dec(PS_LOD_BIAS_SLOT as nat)
        + ")]]"@
}

fn lod_bias_arg() -> (r: String)
    ensures
        r@ == lod_bias_arg_text(),
{
    let mut out: String = String::new();
    push(&mut out, ",\n    constant float4 *lod_bias [[buffer(");
    push_num(&mut out, PS_LOD_BIAS_SLOT);
    push(&mut out, ")]]");
    out
}

/// The other parameters of the pixel function.
pub open spec fn ps_args_text(k: FfPsKey, v: VariantKey) -> Seq<char> {
    Seq::<char>::empty()
        + given(alpha_tested(v), ",\n    constant float &alpha_ref [[buffer(14)]]"@)
        + given(v.fog_blend_active_spec(), ",\n    constant float4 *fog_data [[buffer(13)]]"@)
        + given(v.flags.lod_bias, lod_bias_arg_text())
        + texture_args_text(k, v)
        + "\n) {\n"@
}

fn ps_args(k: &FfPsKey, v: &VariantKey) -> (r: String)
    ensures
        r@ == ps_args_text(*k, *v),
{
    let mut out: String = String::new();
    push_if(&mut out, tests_alpha(v), ",\n    constant float &alpha_ref [[buffer(14)]]");
    push_if(&mut out, v.fog_blend_active(), ",\n    constant float4 *fog_data [[buffer(13)]]");
    let piece1: String = if v.flags.lod_bias {
        lod_bias_arg()
    } else {
        String::new()
    };
    push(&mut out, piece1.as_str());
    let piece2: String = texture_args(k, v);
    push(&mut out, piece2.as_str());
    push(&mut out, "\n) {\n");
    out
}

/// The result that carries a coverage mask.
pub open spec fn masked_return_text(mask: u32) -> Seq<char> {
    Seq::<char>::empty()
        + "    return FfPsOut { oC0, "@
        + dec(mask as nat)
        + "u };\n"@
}

fn masked_return(mask: u32) -> (r: String)
    ensures
        r@ == masked_return_text(mask),
{
    let mut out: String = String::new();
    push(&mut out, "    return FfPsOut { oC0, ");
    push_num(&mut out, mask);
    push(&mut out, "u };\n");
    out
}

/// What follows the stages.
pub open spec fn ps_tail_text(k: FfPsKey, v: VariantKey, shared: SharedText) -> Seq<char> {
    Seq::<char>::empty()
        + given(k.specular_add, "    current = float4(saturate(current.rgb + in.color1.rgb), current.a);\n"@)
        + "    float4 oC0 = current;\n"@
        + shared.fog_blend@
        + given(alpha_tested(v), alpha_test_text(v.alpha_func as u32))
        + given(v.flags.srgb_write, "    oC0.rgb = mtld3d_linear_to_srgb(oC0.rgb);\n"@)
        + given(v.flags.sample_mask, masked_return_text(v.sample_mask))
        + given(!v.flags.sample_mask, "    return oC0;\n"@)
        + "}\n"@
}

fn ps_tail(k: &FfPsKey, v: &VariantKey, shared: &SharedText) -> (r: String)
    ensures
        r@ == ps_tail_text(*k, *v, *shared),
{
    let mut out: String = String::new();
    push_if(&mut out, k.specular_add, "    current = float4(saturate(current.rgb + in.color1.rgb), current.a);\n");
    push(&mut out, "    float4 oC0 = current;\n");
    push(&mut out, shared.fog_blend.as_str());
    let piece1: String = if tests_alpha(v) {
        alpha_test(alpha_code(v))
    } else {
        String::new()
    };
    push(&mut out, piece1.as_str());
    push_if(&mut out, v.flags.srgb_write, "    oC0.rgb = mtld3d_linear_to_srgb(oC0.rgb);\n");
    let piece2: String = if v.flags.sample_mask {
        masked_return(v.sample_mask)
    } else {
        String::new()
    };
    push(&mut out, piece2.as_str());
    push_if(&mut out, !v.flags.sample_mask, "    return oC0;\n");
    push(&mut out, "}\n");
    out
}

/// The pixel function named `entry`.
pub open spec fn emit_ps_text(k: FfPsKey, v: VariantKey, shared: SharedText, entry: Seq<char>) -> Seq<char> {
    Seq::<char>::empty()
        + ps_head_text(v, entry)
        + ps_args_text(k, v)
        + given(v.flags.point_sprite, shared.point_sprite_prologue@)
        + "    float4 current = in.color0;\n"@
        + stages_text(k, v)
        + ps_tail_text(k, v, shared)
}

fn emit_ps(k: &FfPsKey, v: &VariantKey, shared: &SharedText, entry: &str) -> (r: String)
    ensures
        r@ == emit_ps_text(*k, *v, *shared, entry@),
{
    let mut out: String = String::new();
    let piece1: String = ps_head(v, entry);
    push(&mut out, piece1.as_str());
    let piece2: String = ps_args(k, v);
    push(&mut out, piece2.as_str());
    let piece3: String = if v.flags.point_sprite {
        owned(shared.point_sprite_prologue.as_str())
    } else {
        String::new()
    };
    push(&mut out, piece3.as_str());
    push(&mut out, "    float4 current = in.color0;\n");
    let piece4: String = stages(k, v);
    push(&mut out, piece4.as_str());
    let piece5: String = ps_tail(k, v, shared);
    push(&mut out, piece5.as_str());
    out
}

/// A pixel shader whose function is named `entry`.
pub open spec fn emit_ps_ff_named_text(k: FfPsKey, v: VariantKey, shared: SharedText, entry: Seq<char>) -> Seq<char> {
    Seq::<char>::empty()
        + "#include <metal_stdlib>\n"@
        + "using namespace metal;\n\n"@
        + super::ff_vs::emit_varyings_text(v.flags.flat_shade, 0)
        + given(v.flags.srgb_write, shared.srgb_write_helper@)
        + emit_ps_text(k, v, shared, entry)
}

pub fn emit_ps_ff_named(k: &FfPsKey, v: &VariantKey, shared: &SharedText, entry: &str) -> (r: String)
    ensures
        r@ == emit_ps_ff_named_text(*k, *v, *shared, entry@),
{
    let mut out: String = String::new();
    push(&mut out, "#include <metal_stdlib>\n");
    push(&mut out, "using namespace metal;\n\n");
    let piece1: String = emit_varyings(v.flags.flat_shade, 0);
    push(&mut out, piece1.as_str());
    let piece2: String = if v.flags.srgb_write {
        owned(shared.srgb_write_helper.as_str())
    } else {
        String::new()
    };
    push(&mut out, piece2.as_str());
    let piece3: String = emit_ps(k, v, shared, entry);
    push(&mut out, piece3.as_str());
    out
}

/// A pixel shader whose function has the name that none other was asked for.
pub fn emit_ps_ff(k: &FfPsKey, v: &VariantKey, shared: &SharedText) -> (r: String)
    ensures
        r@ == emit_ps_ff_named_text(*k, *v, *shared, DEFAULT_PS_ENTRY@),
{
    emit_ps_ff_named(k, v, shared, DEFAULT_PS_ENTRY)
}

} // verus!
