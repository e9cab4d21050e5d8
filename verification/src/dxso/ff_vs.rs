//! The text of fixed-function vertex shaders.
//!
//! Each function here has a twin whose name ends in `_text`: the text that it
//! gives for the same arguments.

use super::ff::{tt_count, tt_projected, FfVsKey};
use super::variant::{SharedText, DEFAULT_VS_ENTRY};
use crate::bits::{bit8, has_bit8};
use crate::metal::{VS_DRAW_SLOT, VS_FLOAT_CONST_SLOT, VS_POS_FIXUP_SLOT};
use crate::text::{dec, each, given, owned, push, push_num, push_if};
use vstd::prelude::*;

verus! {

/// What a key must satisfy to have a shader: every stage it asks for exists, the
/// attribute numbers fit, and a projected coordinate that no matrix transforms
/// has a last component to divide by.
pub open spec fn emittable(k: FfVsKey) -> bool {
    &&& k.tex_coord_count <= 8
    &&& k.input_tex_coord_count <= 252
    &&& !k.flags.has_rhw ==> forall|i: int|
        0 <= i < k.tex_coord_count && tt_projected_spec(#[trigger] k.tt_flags@[i])
            && !transformed(k, i) ==> stage_dim(k, i) <= 4
}

/// Whether texture transform flags ask for projection.
pub open spec fn tt_projected_spec(flags: u8) -> bool {
    flags & 0x10 != 0
}

/// The component count in texture transform flags.
pub open spec fn tt_count_spec(flags: u8) -> u8 {
    flags & 0x07
}

/// Whether a matrix transforms the coordinate of stage `i`.
pub open spec fn transformed(k: FfVsKey, i: int) -> bool {
    2 <= tt_count_spec(k.tt_flags@[i]) <= 4
}

/// Which coordinate set stage `i` reads.
pub open spec fn stage_source(k: FfVsKey, i: int) -> int {
    if k.tci_coord_indices@[i] <= 7 {
        k.tci_coord_indices@[i] as int
    } else {
        7
    }
}

/// How many components the vertex has in coordinate set `src`; none when the set is absent.
pub open spec fn set_dim(k: FfVsKey, src: int) -> u8 {
    if src < k.input_tex_coord_count {
        k.tex_coord_dims@[src]
    } else {
        0
    }
}

/// Whether stage `i` takes a coordinate that is computed from the vertex in eye space.
pub open spec fn generated(k: FfVsKey, i: int) -> bool {
    let mode = k.tci_modes@[i];
    mode == 2 || ((mode == 1 || mode == 3) && k.flags.has_normal)
}

/// How many components the coordinate of stage `i` has before any matrix.
pub open spec fn stage_dim(k: FfVsKey, i: int) -> u8 {
    if generated(k, i) {
        3
    } else {
        set_dim(k, stage_source(k, i))
    }
}

fn source_of(k: &FfVsKey, i: u32) -> (r: u32)
    requires
        i < 8,
    ensures
        r == stage_source(*k, i as int),
        r < 8,
{
    let c: u8 = k.tci_coord_indices[i as usize];
    if c <= 7 {
        c as u32
    } else {
        7
    }
}

fn input_dim(k: &FfVsKey, src: u32) -> (r: u8)
    requires
        src < 8,
    ensures
        r == set_dim(*k, src as int),
{
    if src < k.input_tex_coord_count as u32 {
        k.tex_coord_dims[src as usize]
    } else {
        0
    }
}

fn is_generated(k: &FfVsKey, i: u32) -> (r: bool)
    requires
        i < 8,
    ensures
        r == generated(*k, i as int),
{
    let mode: u8 = k.tci_modes[i as usize];
    mode == 2 || ((mode == 1 || mode == 3) && k.flags.has_normal)
}

fn dim_of(k: &FfVsKey, i: u32) -> (r: u8)
    requires
        i < 8,
    ensures
        r == stage_dim(*k, i as int),
{
    if is_generated(k, i) {
        3
    } else {
        input_dim(k, source_of(k, i))
    }
}

/// Whether some stage computes its coordinate in mode `a` or mode `b`.
pub open spec fn uses_mode(k: FfVsKey, a: u8, b: u8) -> bool {
    exists|i: int|
        0 <= i < k.tex_coord_count && (#[trigger] k.tci_modes@[i] == a || k.tci_modes@[i] == b)
}

fn any_mode(k: &FfVsKey, a: u8, b: u8) -> (r: bool)
    requires
        k.tex_coord_count <= 8,
    ensures
        r == uses_mode(*k, a, b),
{
    let mut i: usize = 0;
    while i < k.tex_coord_count as usize
        invariant
            i <= k.tex_coord_count <= 8,
            forall|j: int| 0 <= j < i ==> #[trigger] k.tci_modes@[j] != a && k.tci_modes@[j] != b,
        decreases k.tex_coord_count - i,
    {
        if k.tci_modes[i] == a || k.tci_modes[i] == b {
            assert(k.tci_modes@[i as int] == a || k.tci_modes@[i as int] == b);
            return true;
        }
        i += 1;
    }
    false
}

/// The declaration of coordinate set `i` of the vertex.
pub open spec fn vertex_in_coord_text(i: int) -> Seq<char> {
    Seq::<char>::empty()
        + "    float4 v"@
        + dec((4 + i) as nat)
        + " [[attribute("@
        + dec((4 + i) as nat)
        + ")]];\n"@
}

fn vertex_in_coord(i: u32) -> (r: String)
    requires
        i <= 251,
    ensures
        r@ == vertex_in_coord_text(i as int),
{
    let mut out: String = String::new();
    push(&mut out, "    float4 v");
    push_num(&mut out, 4 + i);
    push(&mut out, " [[attribute(");
    push_num(&mut out, 4 + i);
    push(&mut out, ")]];\n");
    out
}

/// The declarations of the coordinate sets of the vertex.
pub open spec fn vertex_in_coords_text(n: int) -> Seq<char> {
    each(n as nat, |i: int| vertex_in_coord_text(i))
}

fn vertex_in_coords(n: u32) -> (r: String)
    requires
        n <= 252,
    ensures
        r@ == vertex_in_coords_text(n as int),
{
    let mut out: String = String::new();
    let ghost f = |i: int| vertex_in_coord_text(i);
    let mut i: u32 = 0;
    while i < n
        invariant
            i <= n,
            f == (|i: int| vertex_in_coord_text(i)),
            n <= 252,
            out@ == each(i as nat, f),
        decreases n - i,
    {
        let piece: String = vertex_in_coord(i);
        push(&mut out, piece.as_str());
        assert(piece@ == f(i as int));
        i += 1;
    }
    out
}

/// The declaration of what a vertex holds.
pub open spec fn emit_vertex_in_text(k: FfVsKey) -> Seq<char> {
    Seq::<char>::empty()
        + "struct VertexIn {\n"@
        + "    float4 v0 [[attribute(0)]];\n"@
        + given(k.flags.has_normal, "    float4 v1 [[attribute(1)]];\n"@)
        + given(k.flags.has_color0, "    float4 v2 [[attribute(2)]];\n"@)
        + given(k.flags.has_color1, "    float4 v3 [[attribute(3)]];\n"@)
        + vertex_in_coords_text(k.input_tex_coord_count as int)
        + given(k.vertex_blend_count > 0 && k.declared_weights_count > 0, "    float4 blend_weight [[attribute(12)]];\n"@)
        + given(k.vertex_blend_count > 0 && k.flags.declared_indices, "    uint4 blend_indices [[attribute(13)]];\n"@)
        + given(k.flags.has_psize, "    float4 psize [[attribute(14)]];\n"@)
        + "};\n\n"@
}

fn emit_vertex_in(k: &FfVsKey) -> (r: String)
    requires
        k.input_tex_coord_count <= 252,
    ensures
        r@ == emit_vertex_in_text(*k),
{
    let mut out: String = String::new();
    push(&mut out, "struct VertexIn {\n");
    push(&mut out, "    float4 v0 [[attribute(0)]];\n");
    push_if(&mut out, k.flags.has_normal, "    float4 v1 [[attribute(1)]];\n");
    push_if(&mut out, k.flags.has_color0, "    float4 v2 [[attribute(2)]];\n");
    push_if(&mut out, k.flags.has_color1, "    float4 v3 [[attribute(3)]];\n");
    let piece1: String = vertex_in_coords(k.input_tex_coord_count as u32);
    push(&mut out, piece1.as_str());
    push_if(&mut out, k.vertex_blend_count > 0 && k.declared_weights_count > 0, "    float4 blend_weight [[attribute(12)]];\n");
    push_if(&mut out, k.vertex_blend_count > 0 && k.flags.declared_indices, "    uint4 blend_indices [[attribute(13)]];\n");
    push_if(&mut out, k.flags.has_psize, "    float4 psize [[attribute(14)]];\n");
    push(&mut out, "};\n\n");
    out
}

/// The declaration of interpolated coordinate `i`.
pub open spec fn varying_coord_text(i: int) -> Seq<char> {
    Seq::<char>::empty()
        + "    float4 texcoord"@
        + dec(i as nat)
        + ";\n"@
}

fn varying_coord(i: u32) -> (r: String)
    ensures
        r@ == varying_coord_text(i as int),
{
    let mut out: String = String::new();
    push(&mut out, "    float4 texcoord");
    push_num(&mut out, i);
    push(&mut out, ";\n");
    out
}

/// The declarations of the interpolated coordinates.
pub open spec fn varying_coords_text(n: int) -> Seq<char> {
    each(n as nat, |i: int| varying_coord_text(i))
}

fn varying_coords(n: u32) -> (r: String)
    ensures
        r@ == varying_coords_text(n as int),
{
    let mut out: String = String::new();
    let ghost f = |i: int| varying_coord_text(i);
    let mut i: u32 = 0;
    while i < n
        invariant
            i <= n,
            f == (|i: int| varying_coord_text(i)),
            out@ == each(i as nat, f),
        decreases n - i,
    {
        let piece: String = varying_coord(i);
        push(&mut out, piece.as_str());
        assert(piece@ == f(i as int));
        i += 1;
    }
    out
}

/// The declaration of interpolated colour `i`.
pub open spec fn varying_color_text(i: int, flat: bool) -> Seq<char> {
    Seq::<char>::empty()
        + "    float4 color"@
        + dec(i as nat)
        + given(flat, " [[flat]]"@)
        + ";\n"@
}

fn varying_color(i: u32, flat: bool) -> (r: String)
    ensures
        r@ == varying_color_text(i as int, flat),
{
    let mut out: String = String::new();
    push(&mut out, "    float4 color");
    push_num(&mut out, i);
    push_if(&mut out, flat, " [[flat]]");
    push(&mut out, ";\n");
    out
}

/// The declaration of the distances to the clip planes.
pub open spec fn varying_clip_text(n: int) -> Seq<char> {
    Seq::<char>::empty()
        + "    float clip_distance [[clip_distance]] ["@
        + dec(n as nat)
        + "];\n"@
}

fn varying_clip(n: u32) -> (r: String)
    ensures
        r@ == varying_clip_text(n as int),
{
    let mut out: String = String::new();
    push(&mut out, "    float clip_distance [[clip_distance]] [");
    push_num(&mut out, n);
    push(&mut out, "];\n");
    out
}

/// The declaration of what is interpolated between the two shaders.
pub open spec fn emit_varyings_text(flat: bool, clip_planes: u8) -> Seq<char> {
    Seq::<char>::empty()
        + "struct Varyings {\n"@
        + "    float4 position [[position, invariant]];\n"@
        + "    float4 position1;\n"@
        + varying_coords_text(16)
        + varying_color_text(0, flat)
        + varying_color_text(1, flat)
        + "    float4 fog;\n"@
        + "    float fog_z [[center_no_perspective]];\n"@
        + "    float point_size [[point_size]];\n"@
        + given(clip_planes > 0, varying_clip_text(clip_planes as int))
        + "};\n\n"@
}

pub(crate) fn emit_varyings(flat: bool, clip_planes: u8) -> (r: String)
    ensures
        r@ == emit_varyings_text(flat, clip_planes),
{
    let mut out: String = String::new();
    push(&mut out, "struct Varyings {\n");
    push(&mut out, "    float4 position [[position, invariant]];\n");
    push(&mut out, "    float4 position1;\n");
    let piece1: String = varying_coords(16);
    push(&mut out, piece1.as_str());
    let piece2: String = varying_color(0, flat);
    push(&mut out, piece2.as_str());
    let piece3: String = varying_color(1, flat);
    push(&mut out, piece3.as_str());
    push(&mut out, "    float4 fog;\n");
    push(&mut out, "    float fog_z [[center_no_perspective]];\n");
    push(&mut out, "    float point_size [[point_size]];\n");
    let piece4: String = if clip_planes > 0 {
        varying_clip(clip_planes as u32)
    } else {
        String::new()
    };
    push(&mut out, piece4.as_str());
    push(&mut out, "};\n\n");
    out
}

/// Functions that invert a matrix for normals.
pub open spec fn emit_normal_matrix_helpers_text() -> Seq<char> {
    Seq::<char>::empty()
        + "static inline float mtld3d_det3(float3 a, float3 b, float3 c) {\n"@
        + "    return dot(a, cross(b, c));\n"@
        + "}\n\n"@
        + "static inline float4 mtld3d_cross4(float4 u, float4 v, float4 w) {\n"@
        + "    return float4(-mtld3d_det3(u.yzw, v.yzw, w.yzw),\n"@
        + "                   mtld3d_det3(u.xzw, v.xzw, w.xzw),\n"@
        + "                  -mtld3d_det3(u.xyw, v.xyw, w.xyw),\n"@
        + "                   mtld3d_det3(u.xyz, v.xyz, w.xyz));\n"@
        + "}\n\n"@
}

fn emit_normal_matrix_helpers() -> (r: String)
    ensures
        r@ == emit_normal_matrix_helpers_text(),
{
    let mut out: String = String::new();
    push(&mut out, "static inline float mtld3d_det3(float3 a, float3 b, float3 c) {\n");
    push(&mut out, "    return dot(a, cross(b, c));\n");
    push(&mut out, "}\n\n");
    push(&mut out, "static inline float4 mtld3d_cross4(float4 u, float4 v, float4 w) {\n");
    push(&mut out, "    return float4(-mtld3d_det3(u.yzw, v.yzw, w.yzw),\n");
    push(&mut out, "                   mtld3d_det3(u.xzw, v.xzw, w.xzw),\n");
    push(&mut out, "                  -mtld3d_det3(u.xyw, v.xyw, w.xyw),\n");
    push(&mut out, "                   mtld3d_det3(u.xyz, v.xyz, w.xyz));\n");
    push(&mut out, "}\n\n");
    out
}

/// Coordinate set `src` of the vertex, with zero for each component that it lacks.
pub open spec fn masked_input_rhs_text(k: FfVsKey, src: int) -> Seq<char> {
    let n = set_dim(k, src);
    let v = "in.v"@ + dec((4 + src) as nat);
    if n == 1 {
        "float4("@ + v + ".x, 0.0, 0.0, 0.0)"@
    } else if n == 2 {
        "float4("@ + v + ".xy, 0.0, 0.0)"@
    } else if n == 3 {
        "float4("@ + v + ".xyz, 0.0)"@
    } else if n == 4 {
        v
    } else {
        "float4(0.0)"@
    }
}

fn masked_input_rhs(k: &FfVsKey, src: u32) -> (r: String)
    requires
        src < 8,
    ensures
        r@ == masked_input_rhs_text(*k, src as int),
{
    let n: u8 = input_dim(k, src);
    let mut v: String = owned("in.v");
    push_num(&mut v, 4 + src);
    if n == 4 {
        return v;
    }
    if n == 0 || n > 4 {
        return owned("float4(0.0)");
    }
    let mut out: String = owned("float4(");
    push(&mut out, v.as_str());
    if n == 1 {
        push(&mut out, ".x, 0.0, 0.0, 0.0)");
    } else if n == 2 {
        push(&mut out, ".xy, 0.0, 0.0)");
    } else {
        push(&mut out, ".xyz, 0.0)");
    }
    out
}

/// What sets the size of a point.
pub open spec fn emit_point_size_text(k: FfVsKey, scale: bool) -> Seq<char> {
    Seq::<char>::empty()
        + (if k.flags.has_psize { "    float psize = in.psize.x;\n"@ } else { "    float psize = vs_draw.point.x;\n"@ })
        + given(scale, "    float de = length(pos_view.xyz);\n"@)
        + given(scale, "    psize *= ((-1.0 / pos_fixup.y) / pos_fixup.w) / sqrt(max(vs_draw.point_scale.x + vs_draw.point_scale.y * de + vs_draw.point_scale.z * de * de, 0.0));\n"@)
        + "    out.point_size = clamp(psize, vs_draw.point.y, vs_draw.point.z) * pos_fixup.w;\n"@
}

fn emit_point_size(k: &FfVsKey, scale: bool) -> (r: String)
    ensures
        r@ == emit_point_size_text(*k, scale),
{
    let mut out: String = String::new();
    if k.flags.has_psize {
        push(&mut out, "    float psize = in.psize.x;\n");
    } else {
        push(&mut out, "    float psize = vs_draw.point.x;\n");
    }
    push_if(&mut out, scale, "    float de = length(pos_view.xyz);\n");
    push_if(&mut out, scale, "    psize *= ((-1.0 / pos_fixup.y) / pos_fixup.w) / sqrt(max(vs_draw.point_scale.x + vs_draw.point_scale.y * de + vs_draw.point_scale.z * de * de, 0.0));\n");
    push(&mut out, "    out.point_size = clamp(psize, vs_draw.point.y, vs_draw.point.z) * pos_fixup.w;\n");
    out
}

/// Which matrix blend `i` takes.
pub open spec fn blend_index_text(k: FfVsKey, i: int) -> Seq<char> {
    Seq::<char>::empty()
        + (if k.flags.vertex_blend_indexed { "        uint idx = in.blend_indices["@ } else { "        uint idx = "@ })
        + dec(i as nat)
        + (if k.flags.vertex_blend_indexed { "];\n"@ } else { "u;\n"@ })
}

fn blend_index(k: &FfVsKey, i: u32) -> (r: String)
    ensures
        r@ == blend_index_text(*k, i as int),
{
    let mut out: String = String::new();
    if k.flags.vertex_blend_indexed {
        push(&mut out, "        uint idx = in.blend_indices[");
    } else {
        push(&mut out, "        uint idx = ");
    }
    push_num(&mut out, i);
    if k.flags.vertex_blend_indexed {
        push(&mut out, "];\n");
    } else {
        push(&mut out, "u;\n");
    }
    out
}

/// What one matrix adds to a blended vertex, `w` being its weight.
pub open spec fn blend_term_text(k: FfVsKey) -> Seq<char> {
    Seq::<char>::empty()
        + "        constant float4 *m = vs_c + 95 + idx * 4u;\n"@
        + "        pos_view += w * float4(dot(pos, m[0]), dot(pos, m[1]), dot(pos, m[2]), dot(pos, m[3]));\n"@
        + given(k.flags.has_normal, "        n_blend += w * float3(dot(in.v1.xyz, m[0].xyz), dot(in.v1.xyz, m[1].xyz), dot(in.v1.xyz, m[2].xyz));\n"@)
}

fn blend_term(k: &FfVsKey) -> (r: String)
    ensures
        r@ == blend_term_text(*k),
{
    let mut out: String = String::new();
    push(&mut out, "        constant float4 *m = vs_c + 95 + idx * 4u;\n");
    push(&mut out, "        pos_view += w * float4(dot(pos, m[0]), dot(pos, m[1]), dot(pos, m[2]), dot(pos, m[3]));\n");
    push_if(&mut out, k.flags.has_normal, "        n_blend += w * float3(dot(in.v1.xyz, m[0].xyz), dot(in.v1.xyz, m[1].xyz), dot(in.v1.xyz, m[2].xyz));\n");
    out
}

/// Blend `i`, whose weight the vertex gives.
pub open spec fn blend_weighted_text(k: FfVsKey, i: int) -> Seq<char> {
    Seq::<char>::empty()
        + "    {\n"@
        + "        float w = in.blend_weight["@
        + dec(i as nat)
        + "];\n"@
        + blend_index_text(k, i)
        + blend_term_text(k)
        + "        weight_sum += w;\n"@
        + "    }\n"@
}

fn blend_weighted(k: &FfVsKey, i: u32) -> (r: String)
    ensures
        r@ == blend_weighted_text(*k, i as int),
{
    let mut out: String = String::new();
    push(&mut out, "    {\n");
    push(&mut out, "        float w = in.blend_weight[");
    push_num(&mut out, i);
    push(&mut out, "];\n");
    let piece1: String = blend_index(k, i);
    push(&mut out, piece1.as_str());
    let piece2: String = blend_term(k);
    push(&mut out, piece2.as_str());
    push(&mut out, "        weight_sum += w;\n");
    push(&mut out, "    }\n");
    out
}

/// The blends whose weights the vertex gives.
pub open spec fn blends_weighted_text(k: FfVsKey, n: int) -> Seq<char> {
    each(n as nat, |i: int| blend_weighted_text(k, i))
}

fn blends_weighted(k: &FfVsKey, n: u32) -> (r: String)
    ensures
        r@ == blends_weighted_text(*k, n as int),
{
    let mut out: String = String::new();
    let ghost f = |i: int| blend_weighted_text(*k, i);
    let mut i: u32 = 0;
    while i < n
        invariant
            i <= n,
            f == (|i: int| blend_weighted_text(*k, i)),
            out@ == each(i as nat, f),
        decreases n - i,
    {
        let piece: String = blend_weighted(k, i);
        push(&mut out, piece.as_str());
        assert(piece@ == f(i as int));
        i += 1;
    }
    out
}

/// A vertex that follows one matrix of its choice.
pub open spec fn blend_single_text(k: FfVsKey) -> Seq<char> {
    Seq::<char>::empty()
        + "    {\n"@
        + "        uint idx = in.blend_indices[0];\n"@
        + "        constant float4 *m = vs_c + 95 + idx * 4u;\n"@
        + "        pos_view = float4(dot(pos, m[0]), dot(pos, m[1]), dot(pos, m[2]), dot(pos, m[3]));\n"@
        + given(k.flags.has_normal, "        n_blend = float3(dot(in.v1.xyz, m[0].xyz), dot(in.v1.xyz, m[1].xyz), dot(in.v1.xyz, m[2].xyz));\n"@)
        + "    }\n"@
}

fn blend_single(k: &FfVsKey) -> (r: String)
    ensures
        r@ == blend_single_text(*k),
{
    let mut out: String = String::new();
    push(&mut out, "    {\n");
    push(&mut out, "        uint idx = in.blend_indices[0];\n");
    push(&mut out, "        constant float4 *m = vs_c + 95 + idx * 4u;\n");
    push(&mut out, "        pos_view = float4(dot(pos, m[0]), dot(pos, m[1]), dot(pos, m[2]), dot(pos, m[3]));\n");
    push_if(&mut out, k.flags.has_normal, "        n_blend = float3(dot(in.v1.xyz, m[0].xyz), dot(in.v1.xyz, m[1].xyz), dot(in.v1.xyz, m[2].xyz));\n");
    push(&mut out, "    }\n");
    out
}

/// A vertex between `k.vertex_blend_count` matrices, the last one with what weight is left.
pub open spec fn blend_many_text(k: FfVsKey) -> Seq<char> {
    Seq::<char>::empty()
        + "    float weight_sum = 0.0;\n"@
        + blends_weighted_text(k, k.vertex_blend_count - 1)
        + "    {\n"@
        + "        float w = 1.0 - weight_sum;\n"@
        + blend_index_text(k, k.vertex_blend_count - 1)
        + blend_term_text(k)
        + "    }\n"@
}

fn blend_many(k: &FfVsKey) -> (r: String)
    requires
        k.vertex_blend_count > 0,
    ensures
        r@ == blend_many_text(*k),
{
    let mut out: String = String::new();
    push(&mut out, "    float weight_sum = 0.0;\n");
    let piece1: String = blends_weighted(k, k.vertex_blend_count as u32 - 1);
    push(&mut out, piece1.as_str());
    push(&mut out, "    {\n");
    push(&mut out, "        float w = 1.0 - weight_sum;\n");
    let piece2: String = blend_index(k, k.vertex_blend_count as u32 - 1);
    push(&mut out, piece2.as_str());
    let piece3: String = blend_term(k);
    push(&mut out, piece3.as_str());
    push(&mut out, "    }\n");
    out
}

/// What blends the position and the normal of a vertex between matrices.
pub open spec fn emit_vertex_blend_text(k: FfVsKey) -> Seq<char> {
    Seq::<char>::empty()
        + "    float4 pos_view = float4(0.0);\n"@
        + given(k.flags.has_normal, "    float3 n_blend = float3(0.0);\n"@)
        + given(k.vertex_blend_count == 1 && k.flags.vertex_blend_indexed, blend_single_text(k))
        + given(!(k.vertex_blend_count == 1 && k.flags.vertex_blend_indexed), blend_many_text(k))
}

fn emit_vertex_blend(k: &FfVsKey) -> (r: String)
    requires
        k.vertex_blend_count > 0,
    ensures
        r@ == emit_vertex_blend_text(*k),
{
    let mut out: String = String::new();
    push(&mut out, "    float4 pos_view = float4(0.0);\n");
    push_if(&mut out, k.flags.has_normal, "    float3 n_blend = float3(0.0);\n");
    let piece1: String = if k.vertex_blend_count == 1 && k.flags.vertex_blend_indexed {
        blend_single(k)
    } else {
        String::new()
    };
    push(&mut out, piece1.as_str());
    let piece2: String = if !(k.vertex_blend_count == 1 && k.flags.vertex_blend_indexed) {
        blend_many(k)
    } else {
        String::new()
    };
    push(&mut out, piece2.as_str());
    out
}

/// The head of the vertex function.
pub open spec fn vs_head_text(entry: Seq<char>) -> Seq<char> {
    Seq::<char>::empty()
        + "vertex Varyings "@
        + entry
        + "(\n"@
        + "    VertexIn in [[stage_in]],\n"@
        + "    constant float4 *vs_c [[buffer("@
        + dec(VS_FLOAT_CONST_SLOT as nat)
        + ")]],\n"@
        + "    constant float4 &pos_fixup [[buffer("@
        + dec(VS_POS_FIXUP_SLOT as nat)
        + ")]],\n"@
        + "    constant VsDraw &vs_draw [[buffer("@
        + dec(VS_DRAW_SLOT as nat)
        + ")]]\n"@
        + ") {\n"@
        + "    Varyings out;\n"@
}

fn vs_head(entry: &str) -> (r: String)
    ensures
        r@ == vs_head_text(entry@),
{
    let mut out: String = String::new();
    push(&mut out, "vertex Varyings ");
    push(&mut out, entry);
    push(&mut out, "(\n");
    push(&mut out, "    VertexIn in [[stage_in]],\n");
    push(&mut out, "    constant float4 *vs_c [[buffer(");
    push_num(&mut out, VS_FLOAT_CONST_SLOT);
    push(&mut out, ")]],\n");
    push(&mut out, "    constant float4 &pos_fixup [[buffer(");
    push_num(&mut out, VS_POS_FIXUP_SLOT);
    push(&mut out, ")]],\n");
    push(&mut out, "    constant VsDraw &vs_draw [[buffer(");
    push_num(&mut out, VS_DRAW_SLOT);
    push(&mut out, ")]]\n");
    push(&mut out, ") {\n");
    push(&mut out, "    Varyings out;\n");
    out
}

/// Vertex colours handed on as they are, white and black where there are none.
pub open spec fn vs_colors_text(k: FfVsKey) -> Seq<char> {
    Seq::<char>::empty()
        + (if k.flags.has_color0 { "    out.color0 = in.v2;\n"@ } else { "    out.color0 = float4(1.0);\n"@ })
        + (if k.flags.has_color1 { "    out.color1 = in.v3;\n"@ } else { "    out.color1 = float4(0.0);\n"@ })
}

fn vs_colors(k: &FfVsKey) -> (r: String)
    ensures
        r@ == vs_colors_text(*k),
{
    let mut out: String = String::new();
    if k.flags.has_color0 {
        push(&mut out, "    out.color0 = in.v2;\n");
    } else {
        push(&mut out, "    out.color0 = float4(1.0);\n");
    }
    if k.flags.has_color1 {
        push(&mut out, "    out.color1 = in.v3;\n");
    } else {
        push(&mut out, "    out.color1 = float4(0.0);\n");
    }
    out
}

/// The coordinate of stage `i` for vertices that are already transformed.
pub open spec fn rhw_coord_text(k: FfVsKey, i: int) -> Seq<char> {
    Seq::<char>::empty()
        + "    out.texcoord"@
        + dec(i as nat)
        + " = "@
        + given(1 <= set_dim(k, stage_source(k, i)) < 4, "float4(("@)
        + masked_input_rhs_text(k, stage_source(k, i))
        + given(1 <= set_dim(k, stage_source(k, i)) < 4, ").xyz, 1.0)"@)
        + ";\n"@
}

fn rhw_coord(k: &FfVsKey, i: u32) -> (r: String)
    requires
        i < 8,
    ensures
        r@ == rhw_coord_text(*k, i as int),
{
    let n: u8 = input_dim(k, source_of(k, i));
    let mut out: String = String::new();
    push(&mut out, "    out.texcoord");
    push_num(&mut out, i);
    push(&mut out, " = ");
    push_if(&mut out, 1 <= n && n < 4, "float4((");
    let piece1: String = masked_input_rhs(k, source_of(k, i));
    push(&mut out, piece1.as_str());
    push_if(&mut out, 1 <= n && n < 4, ").xyz, 1.0)");
    push(&mut out, ";\n");
    out
}

/// The coordinates of the stages for vertices that are already transformed.
pub open spec fn rhw_coords_text(k: FfVsKey) -> Seq<char> {
    each(k.tex_coord_count as nat, |i: int| rhw_coord_text(k, i))
}

fn rhw_coords(k: &FfVsKey) -> (r: String)
    requires
        k.tex_coord_count <= 8,
    ensures
        r@ == rhw_coords_text(*k),
{
    let mut out: String = String::new();
    let ghost f = |i: int| rhw_coord_text(*k, i);
    let n: u32 = k.tex_coord_count as u32;
    let mut i: u32 = 0;
    while i < n
        invariant
            i <= n,
            f == (|i: int| rhw_coord_text(*k, i)),
            n <= 8,
            out@ == each(i as nat, f),
        decreases n - i,
    {
        let piece: String = rhw_coord(k, i);
        push(&mut out, piece.as_str());
        assert(piece@ == f(i as int));
        i += 1;
    }
    out
}

/// The coordinate of a stage that nothing feeds.
pub open spec fn zero_coord_text(i: int) -> Seq<char> {
    Seq::<char>::empty()
        + "    out.texcoord"@
        + dec(i as nat)
        + " = float4(0.0);\n"@
}

fn zero_coord(i: u32) -> (r: String)
    ensures
        r@ == zero_coord_text(i as int),
{
    let mut out: String = String::new();
    push(&mut out, "    out.texcoord");
    push_num(&mut out, i);
    push(&mut out, " = float4(0.0);\n");
    out
}

/// The coordinates from stage `from` on, which nothing feeds.
pub open spec fn zero_coords_text(from: int) -> Seq<char> {
    each((8 - from) as nat, |i: int| zero_coord_text(from + i))
}

fn zero_coords(from: u32) -> (r: String)
    requires
        from <= 8,
    ensures
        r@ == zero_coords_text(from as int),
{
    let mut out: String = String::new();
    let ghost f = |i: int| zero_coord_text(from + i);
    let n: u32 = 8 - from;
    let mut i: u32 = 0;
    while i < n
        invariant
            i <= n,
            f == (|i: int| zero_coord_text(from + i)),
            n == 8 - from,
            from <= 8,
            out@ == each(i as nat, f),
        decreases n - i,
    {
        let piece: String = zero_coord(from + i);
        push(&mut out, piece.as_str());
        assert(piece@ == f(i as int));
        i += 1;
    }
    out
}

/// The function for vertices that are already transformed to the screen.
pub open spec fn vs_rhw_text(k: FfVsKey) -> Seq<char> {
    Seq::<char>::empty()
        + "    float2 vp = vs_c[0].xy;\n"@
        + "    float2 vp_origin = vs_c[0].zw;\n"@
        + "    float rhw = in.v0.w;\n"@
        + "    float w = 1.0 / max(rhw, 1e-30);\n"@
        + "    float ndc_x = ((in.v0.x - vp_origin.x) / vp.x) * 2.0 - 1.0 + 1.0 / vp.x;\n"@
        + "    float ndc_y = 1.0 - ((in.v0.y - vp_origin.y) / vp.y) * 2.0 - 1.0 / vp.y;\n"@
        + "    out.position = float4(ndc_x * w, ndc_y * w, in.v0.z * w, w);\n"@
        + emit_point_size_text(k, false)
        + vs_colors_text(k)
        + rhw_coords_text(k)
        + zero_coords_text(k.tex_coord_count as int)
        + (if k.fog_mode == 4 && k.flags.has_color1 { "    out.fog = float4(in.v3.w, 0.0, 0.0, 0.0);\n"@ } else { "    out.fog = float4(1.0);\n"@ })
        + "    out.fog_z = out.position.z / out.position.w;\n"@
        + "    if (pos_fixup.z != 0.0) { out.position.z = clamp(out.position.z, 0.0, out.position.w); }\n"@
        + "    return out;\n"@
        + "}\n"@
}

fn vs_rhw(k: &FfVsKey) -> (r: String)
    requires
        k.tex_coord_count <= 8,
    ensures
        r@ == vs_rhw_text(*k),
{
    let mut out: String = String::new();
    push(&mut out, "    float2 vp = vs_c[0].xy;\n");
    push(&mut out, "    float2 vp_origin = vs_c[0].zw;\n");
    push(&mut out, "    float rhw = in.v0.w;\n");
    push(&mut out, "    float w = 1.0 / max(rhw, 1e-30);\n");
    push(&mut out, "    float ndc_x = ((in.v0.x - vp_origin.x) / vp.x) * 2.0 - 1.0 + 1.0 / vp.x;\n");
    push(&mut out, "    float ndc_y = 1.0 - ((in.v0.y - vp_origin.y) / vp.y) * 2.0 - 1.0 / vp.y;\n");
    push(&mut out, "    out.position = float4(ndc_x * w, ndc_y * w, in.v0.z * w, w);\n");
    let piece1: String = emit_point_size(k, false);
    push(&mut out, piece1.as_str());
    let piece2: String = vs_colors(k);
    push(&mut out, piece2.as_str());
    let piece3: String = rhw_coords(k);
    push(&mut out, piece3.as_str());
    let piece4: String = zero_coords(k.tex_coord_count as u32);
    push(&mut out, piece4.as_str());
    if k.fog_mode == 4 && k.flags.has_color1 {
        push(&mut out, "    out.fog = float4(in.v3.w, 0.0, 0.0, 0.0);\n");
    } else {
        push(&mut out, "    out.fog = float4(1.0);\n");
    }
    push(&mut out, "    out.fog_z = out.position.z / out.position.w;\n");
    push(&mut out, "    if (pos_fixup.z != 0.0) { out.position.z = clamp(out.position.z, 0.0, out.position.w); }\n");
    push(&mut out, "    return out;\n");
    push(&mut out, "}\n");
    out
}

/// What transforms the position to the screen.
pub open spec fn vs_position_text(k: FfVsKey) -> Seq<char> {
    Seq::<char>::empty()
        + "    float4 pos = float4(in.v0.xyz, 1.0);\n"@
        + given(k.vertex_blend_count > 0, emit_vertex_blend_text(k))
        + given(k.vertex_blend_count == 0, "    float4 pos_view = float4(dot(pos, vs_c[0]), dot(pos, vs_c[1]), dot(pos, vs_c[2]), dot(pos, vs_c[3]));\n"@)
        + "    out.position = float4(dot(pos_view, vs_c[4]), dot(pos_view, vs_c[5]), dot(pos_view, vs_c[6]), dot(pos_view, vs_c[7]));\n"@
        + "    out.position.x += pos_fixup.x * out.position.w;\n"@
        + "    out.position.y += pos_fixup.y * out.position.w;\n"@
        + emit_point_size_text(k, k.flags.point_scale)
}

fn vs_position(k: &FfVsKey) -> (r: String)
    ensures
        r@ == vs_position_text(*k),
{
    let mut out: String = String::new();
    push(&mut out, "    float4 pos = float4(in.v0.xyz, 1.0);\n");
    let piece1: String = if k.vertex_blend_count > 0 {
        emit_vertex_blend(k)
    } else {
        String::new()
    };
    push(&mut out, piece1.as_str());
    push_if(&mut out, k.vertex_blend_count == 0, "    float4 pos_view = float4(dot(pos, vs_c[0]), dot(pos, vs_c[1]), dot(pos, vs_c[2]), dot(pos, vs_c[3]));\n");
    push(&mut out, "    out.position = float4(dot(pos_view, vs_c[4]), dot(pos_view, vs_c[5]), dot(pos_view, vs_c[6]), dot(pos_view, vs_c[7]));\n");
    push(&mut out, "    out.position.x += pos_fixup.x * out.position.w;\n");
    push(&mut out, "    out.position.y += pos_fixup.y * out.position.w;\n");
    let piece2: String = emit_point_size(k, k.flags.point_scale);
    push(&mut out, piece2.as_str());
    out
}

/// The distance to clip plane `i`.
pub open spec fn clip_plane_text(i: int) -> Seq<char> {
    Seq::<char>::empty()
        + "    out.clip_distance["@
        + dec(i as nat)
        + "] = dot(world_pos, vs_draw.clip["@
        + dec(i as nat)
        + "]);\n"@
}

fn clip_plane(i: u32) -> (r: String)
    ensures
        r@ == clip_plane_text(i as int),
{
    let mut out: String = String::new();
    push(&mut out, "    out.clip_distance[");
    push_num(&mut out, i);
    push(&mut out, "] = dot(world_pos, vs_draw.clip[");
    push_num(&mut out, i);
    push(&mut out, "]);\n");
    out
}

/// The distances to the first `n` clip planes.
pub open spec fn clip_planes_text(n: int) -> Seq<char> {
    each(n as nat, |i: int| clip_plane_text(i))
}

fn clip_planes(n: u32) -> (r: String)
    ensures
        r@ == clip_planes_text(n as int),
{
    let mut out: String = String::new();
    let ghost f = |i: int| clip_plane_text(i);
    let mut i: u32 = 0;
    while i < n
        invariant
            i <= n,
            f == (|i: int| clip_plane_text(i)),
            out@ == each(i as nat, f),
        decreases n - i,
    {
        let piece: String = clip_plane(i);
        push(&mut out, piece.as_str());
        assert(piece@ == f(i as int));
        i += 1;
    }
    out
}

/// The distances to the clip planes, measured in the world.
pub open spec fn vs_clip_text(n: int) -> Seq<char> {
    Seq::<char>::empty()
        + "    float4 world_pos = float4(dot(pos_view, vs_draw.inv_view[0]), dot(pos_view, vs_draw.inv_view[1]), dot(pos_view, vs_draw.inv_view[2]), dot(pos_view, vs_draw.inv_view[3]));\n"@
        + clip_planes_text(n)
}

fn vs_clip(n: u32) -> (r: String)
    ensures
        r@ == vs_clip_text(n as int),
{
    let mut out: String = String::new();
    push(&mut out, "    float4 world_pos = float4(dot(pos_view, vs_draw.inv_view[0]), dot(pos_view, vs_draw.inv_view[1]), dot(pos_view, vs_draw.inv_view[2]), dot(pos_view, vs_draw.inv_view[3]));\n");
    let piece1: String = clip_planes(n);
    push(&mut out, piece1.as_str());
    out
}

/// The normal and the position in eye space, as far as the stages need them.
pub open spec fn vs_eye_text(k: FfVsKey, normal: bool, position: bool) -> Seq<char> {
    Seq::<char>::empty()
        + given(normal && k.vertex_blend_count > 0, "    float3 n = normalize(n_blend);\n"@)
        + given(normal && k.vertex_blend_count == 0, "    float3 n = normalize(float3(dot(in.v1.xyz, vs_c[0].xyz), dot(in.v1.xyz, vs_c[1].xyz), dot(in.v1.xyz, vs_c[2].xyz)));\n"@)
        + given(position && k.vertex_blend_count > 0, "    float3 posEye = pos_view.xyz;\n"@)
        + given(position && k.vertex_blend_count == 0, "    float3 posEye = float3(dot(pos, vs_c[0]), dot(pos, vs_c[1]), dot(pos, vs_c[2]));\n"@)
}

fn vs_eye(k: &FfVsKey, normal: bool, position: bool) -> (r: String)
    ensures
        r@ == vs_eye_text(*k, normal, position),
{
    let mut out: String = String::new();
    push_if(&mut out, normal && k.vertex_blend_count > 0, "    float3 n = normalize(n_blend);\n");
    push_if(&mut out, normal && k.vertex_blend_count == 0, "    float3 n = normalize(float3(dot(in.v1.xyz, vs_c[0].xyz), dot(in.v1.xyz, vs_c[1].xyz), dot(in.v1.xyz, vs_c[2].xyz)));\n");
    push_if(&mut out, position && k.vertex_blend_count > 0, "    float3 posEye = pos_view.xyz;\n");
    push_if(&mut out, position && k.vertex_blend_count == 0, "    float3 posEye = float3(dot(pos, vs_c[0]), dot(pos, vs_c[1]), dot(pos, vs_c[2]));\n");
    out
}

/// Where a material colour comes from: the vertex if it may and the vertex has
/// it, else slot `slot` of the constants.
pub open spec fn resolve_mat_text(source: u8, slot: int, flags: MatColorFlags) -> Seq<char> {
    if flags.color_vertex && source == 1 && flags.has_color0 {
        "in.v2"@
    } else if flags.color_vertex && source == 2 && flags.has_color1 {
        "in.v3"@
    } else {
        "vs_c["@ + dec(slot as nat) + "]"@
    }
}

/// Which vertex colours may stand in for material colours.
#[derive(Clone, Copy, Debug, PartialEq, Eq, Structural)]
pub struct MatColorFlags {
    pub color_vertex: bool,
    pub has_color0: bool,
    pub has_color1: bool,
}

fn resolve_mat(source: u8, slot: u32, flags: MatColorFlags) -> (r: String)
    ensures
        r@ == resolve_mat_text(source, slot as int, flags),
{
    if flags.color_vertex && source == 1 && flags.has_color0 {
        return owned("in.v2");
    }
    if flags.color_vertex && source == 2 && flags.has_color1 {
        return owned("in.v3");
    }
    let mut out: String = owned("vs_c[");
    push_num(&mut out, slot);
    push(&mut out, "]");
    out
}

/// The vertex colours that a key lets stand in for material colours.
pub open spec fn mat_flags(k: FfVsKey) -> MatColorFlags {
    MatColorFlags {
        color_vertex: k.flags.color_vertex,
        has_color0: k.flags.has_color0,
        has_color1: k.flags.has_color1,
    }
}

/// The diffuse colour of the material.
pub open spec fn diffuse_text(k: FfVsKey) -> Seq<char> {
    resolve_mat_text(k.diffuse_source, 10, mat_flags(k))
}

/// The ambient colour of the material.
pub open spec fn ambient_text(k: FfVsKey) -> Seq<char> {
    resolve_mat_text(k.ambient_source, 11, mat_flags(k))
}

/// The specular colour of the material.
pub open spec fn specular_text(k: FfVsKey) -> Seq<char> {
    resolve_mat_text(k.specular_source, 12, mat_flags(k))
}

/// The emissive colour of the material.
pub open spec fn emissive_text(k: FfVsKey) -> Seq<char> {
    resolve_mat_text(k.emissive_source, 13, mat_flags(k))
}

fn mat_flags_of(k: &FfVsKey) -> (r: MatColorFlags)
    ensures
        r == mat_flags(*k),
{
    MatColorFlags {
        color_vertex: k.flags.color_vertex,
        has_color0: k.flags.has_color0,
        has_color1: k.flags.has_color1,
    }
}

fn diffuse(k: &FfVsKey) -> (r: String)
    ensures
        r@ == diffuse_text(*k),
{
    resolve_mat(k.diffuse_source, 10, mat_flags_of(k))
}

fn ambient(k: &FfVsKey) -> (r: String)
    ensures
        r@ == ambient_text(*k),
{
    resolve_mat(k.ambient_source, 11, mat_flags_of(k))
}

fn specular(k: &FfVsKey) -> (r: String)
    ensures
        r@ == specular_text(*k),
{
    resolve_mat(k.specular_source, 12, mat_flags_of(k))
}

fn emissive(k: &FfVsKey) -> (r: String)
    ensures
        r@ == emissive_text(*k),
{
    resolve_mat(k.emissive_source, 13, mat_flags_of(k))
}

/// The normal in eye space: the vertex normal by the inverse transpose of the matrix.
pub open spec fn lit_normal_text(k: FfVsKey) -> Seq<char> {
    Seq::<char>::empty()
        + "    float4 nadj0 = -mtld3d_cross4(vs_c[1], vs_c[2], vs_c[3]);\n"@
        + "    float4 nadj1 = mtld3d_cross4(vs_c[2], vs_c[3], vs_c[0]);\n"@
        + "    float4 nadj2 = -mtld3d_cross4(vs_c[3], vs_c[0], vs_c[1]);\n"@
        + "    float nwvdet = dot(nadj0, vs_c[0]);\n"@
        + "    float3 n = (abs(nwvdet) > 1e-12)\n"@
        + "        ? float3(dot(nadj0.xyz, in.v1.xyz), dot(nadj1.xyz, in.v1.xyz), dot(nadj2.xyz, in.v1.xyz)) / nwvdet\n"@
        + "        : float3(dot(float3(vs_c[0].x, vs_c[1].x, vs_c[2].x), in.v1.xyz), dot(float3(vs_c[0].y, vs_c[1].y, vs_c[2].y), in.v1.xyz), dot(float3(vs_c[0].z, vs_c[1].z, vs_c[2].z), in.v1.xyz));\n"@
        + given(k.flags.normalize_normals, "    n = normalize(n);\n"@)
}

fn lit_normal(k: &FfVsKey) -> (r: String)
    ensures
        r@ == lit_normal_text(*k),
{
    let mut out: String = String::new();
    push(&mut out, "    float4 nadj0 = -mtld3d_cross4(vs_c[1], vs_c[2], vs_c[3]);\n");
    push(&mut out, "    float4 nadj1 = mtld3d_cross4(vs_c[2], vs_c[3], vs_c[0]);\n");
    push(&mut out, "    float4 nadj2 = -mtld3d_cross4(vs_c[3], vs_c[0], vs_c[1]);\n");
    push(&mut out, "    float nwvdet = dot(nadj0, vs_c[0]);\n");
    push(&mut out, "    float3 n = (abs(nwvdet) > 1e-12)\n");
    push(&mut out, "        ? float3(dot(nadj0.xyz, in.v1.xyz), dot(nadj1.xyz, in.v1.xyz), dot(nadj2.xyz, in.v1.xyz)) / nwvdet\n");
    push(&mut out, "        : float3(dot(float3(vs_c[0].x, vs_c[1].x, vs_c[2].x), in.v1.xyz), dot(float3(vs_c[0].y, vs_c[1].y, vs_c[2].y), in.v1.xyz), dot(float3(vs_c[0].z, vs_c[1].z, vs_c[2].z), in.v1.xyz));\n");
    push_if(&mut out, k.flags.normalize_normals, "    n = normalize(n);\n");
    out
}

/// The vectors that lighting starts from.
pub open spec fn lit_setup_text(k: FfVsKey) -> Seq<char> {
    Seq::<char>::empty()
        + (if k.vertex_blend_count > 0 { "    float3 posEye = pos_view.xyz;\n"@ } else { "    float3 posEye = float3(dot(pos, vs_c[0]), dot(pos, vs_c[1]), dot(pos, vs_c[2]));\n"@ })
        + given(k.vertex_blend_count > 0 && k.flags.has_normal, "    float3 n = normalize(n_blend);\n"@)
        + given(k.vertex_blend_count == 0 && k.flags.has_normal, lit_normal_text(k))
        + given(k.flags.has_normal && k.flags.specular_enable, "    float mat_power = vs_c[14].x;\n"@)
        + given(k.flags.has_normal && k.flags.specular_enable && k.flags.local_viewer, "    float3 V = normalize(-posEye);\n"@)
        + given(k.flags.has_normal && k.flags.specular_enable && !k.flags.local_viewer, "    float3 V = float3(0.0, 0.0, -1.0);\n"@)
}

fn lit_setup(k: &FfVsKey) -> (r: String)
    ensures
        r@ == lit_setup_text(*k),
{
    let mut out: String = String::new();
    if k.vertex_blend_count > 0 {
        push(&mut out, "    float3 posEye = pos_view.xyz;\n");
    } else {
        push(&mut out, "    float3 posEye = float3(dot(pos, vs_c[0]), dot(pos, vs_c[1]), dot(pos, vs_c[2]));\n");
    }
    push_if(&mut out, k.vertex_blend_count > 0 && k.flags.has_normal, "    float3 n = normalize(n_blend);\n");
    let piece1: String = if k.vertex_blend_count == 0 && k.flags.has_normal {
        lit_normal(k)
    } else {
        String::new()
    };
    push(&mut out, piece1.as_str());
    push_if(&mut out, k.flags.has_normal && k.flags.specular_enable, "    float mat_power = vs_c[14].x;\n");
    push_if(&mut out, k.flags.has_normal && k.flags.specular_enable && k.flags.local_viewer, "    float3 V = normalize(-posEye);\n");
    push_if(&mut out, k.flags.has_normal && k.flags.specular_enable && !k.flags.local_viewer, "    float3 V = float3(0.0, 0.0, -1.0);\n");
    out
}

/// The direction of a directional light whose rows start at `base`.
pub open spec fn light_directional_text(base: int) -> Seq<char> {
    Seq::<char>::empty()
        + "        float3 L = -vs_c["@
        + dec((base + 1) as nat)
        + "].xyz;\n"@
        + "        float atten = 1.0;\n"@
}

fn light_directional(base: u32) -> (r: String)
    requires
        base <= 57,
    ensures
        r@ == light_directional_text(base as int),
{
    let mut out: String = String::new();
    push(&mut out, "        float3 L = -vs_c[");
    push_num(&mut out, base + 1);
    push(&mut out, "].xyz;\n");
    push(&mut out, "        float atten = 1.0;\n");
    out
}

/// How the cone of a spot light weakens it.
pub open spec fn light_cone_text(base: int) -> Seq<char> {
    Seq::<char>::empty()
        + "        float rho = dot(-L, vs_c["@
        + dec((base + 1) as nat)
        + "].xyz);\n"@
        + "        atten *= pow(saturate(rho * vs_c["@
        + dec((base + 5) as nat)
        + "].w + vs_c["@
        + dec((base + 3) as nat)
        + "].w), vs_c["@
        + dec((base + 1) as nat)
        + "].w);\n"@
}

fn light_cone(base: u32) -> (r: String)
    requires
        base <= 57,
    ensures
        r@ == light_cone_text(base as int),
{
    let mut out: String = String::new();
    push(&mut out, "        float rho = dot(-L, vs_c[");
    push_num(&mut out, base + 1);
    push(&mut out, "].xyz);\n");
    push(&mut out, "        atten *= pow(saturate(rho * vs_c[");
    push_num(&mut out, base + 5);
    push(&mut out, "].w + vs_c[");
    push_num(&mut out, base + 3);
    push(&mut out, "].w), vs_c[");
    push_num(&mut out, base + 1);
    push(&mut out, "].w);\n");
    out
}

/// The direction of a light that stands somewhere, and how distance weakens it.
pub open spec fn light_positional_text(base: int, spot: bool) -> Seq<char> {
    Seq::<char>::empty()
        + "        float3 toL = vs_c["@
        + dec(base as nat)
        + "].xyz - posEye;\n"@
        + "        float dist = length(toL);\n"@
        + "        float3 L = toL / max(dist, 1e-30);\n"@
        + "        float4 atten_k = vs_c["@
        + dec((base + 4) as nat)
        + "];\n"@
        + "        float atten = 1.0 / max(atten_k.x + atten_k.y * dist + atten_k.z * dist * dist, 1e-30);\n"@
        + "        atten *= step(dist, atten_k.w);\n"@
        + given(spot, light_cone_text(base))
}

fn light_positional(base: u32, spot: bool) -> (r: String)
    requires
        base <= 57,
    ensures
        r@ == light_positional_text(base as int, spot),
{
    let mut out: String = String::new();
    push(&mut out, "        float3 toL = vs_c[");
    push_num(&mut out, base);
    push(&mut out, "].xyz - posEye;\n");
    push(&mut out, "        float dist = length(toL);\n");
    push(&mut out, "        float3 L = toL / max(dist, 1e-30);\n");
    push(&mut out, "        float4 atten_k = vs_c[");
    push_num(&mut out, base + 4);
    push(&mut out, "];\n");
    push(&mut out, "        float atten = 1.0 / max(atten_k.x + atten_k.y * dist + atten_k.z * dist * dist, 1e-30);\n");
    push(&mut out, "        atten *= step(dist, atten_k.w);\n");
    let piece1: String = if spot {
        light_cone(base)
    } else {
        String::new()
    };
    push(&mut out, piece1.as_str());
    out
}

/// What a light adds to the diffuse colour of a surface that faces it.
pub open spec fn light_diffuse_text(k: FfVsKey, base: int) -> Seq<char> {
    Seq::<char>::empty()
        + "        float ndotl = clamp(dot(n, L), 0.0, 1.0);\n"@
        + "        diffuseAccum += atten * ndotl * (vs_c["@
        + dec((base + 2) as nat)
        + "] * "@
        + diffuse_text(k)
        + ");\n"@
}

fn light_diffuse(k: &FfVsKey, base: u32) -> (r: String)
    requires
        base <= 57,
    ensures
        r@ == light_diffuse_text(*k, base as int),
{
    let mut out: String = String::new();
    push(&mut out, "        float ndotl = clamp(dot(n, L), 0.0, 1.0);\n");
    push(&mut out, "        diffuseAccum += atten * ndotl * (vs_c[");
    push_num(&mut out, base + 2);
    push(&mut out, "] * ");
    let piece1: String = diffuse(k);
    push(&mut out, piece1.as_str());
    push(&mut out, ");\n");
    out
}

/// The highlight of a light.
pub open spec fn light_specular_text(k: FfVsKey, base: int) -> Seq<char> {
    Seq::<char>::empty()
        + "        float3 H = normalize(L + V);\n"@
        + "        float ndoth = max(0.0, dot(n, H));\n"@
        + "        float specFactor = (ndotl > 0.0) ? pow(ndoth, mat_power) : 0.0;\n"@
        + "        specAccum += atten * specFactor * (vs_c["@
        + dec((base + 5) as nat)
        + "].rgb * "@
        + specular_text(k)
        + ".rgb);\n"@
}

fn light_specular(k: &FfVsKey, base: u32) -> (r: String)
    requires
        base <= 57,
    ensures
        r@ == light_specular_text(*k, base as int),
{
    let mut out: String = String::new();
    push(&mut out, "        float3 H = normalize(L + V);\n");
    push(&mut out, "        float ndoth = max(0.0, dot(n, H));\n");
    push(&mut out, "        float specFactor = (ndotl > 0.0) ? pow(ndoth, mat_power) : 0.0;\n");
    push(&mut out, "        specAccum += atten * specFactor * (vs_c[");
    push_num(&mut out, base + 5);
    push(&mut out, "].rgb * ");
    let piece1: String = specular(k);
    push(&mut out, piece1.as_str());
    push(&mut out, ".rgb);\n");
    out
}

/// What the light in slot `i` adds.
pub open spec fn light_text(k: FfVsKey, i: int) -> Seq<char> {
    Seq::<char>::empty()
        + "    {\n"@
        + given(bit8(k.light_directional_mask, i), light_directional_text(15 + i * 6))
        + given(!bit8(k.light_directional_mask, i), light_positional_text(15 + i * 6, bit8(k.light_spot_mask, i)))
        + given(k.flags.has_normal, light_diffuse_text(k, 15 + i * 6))
        + "        diffuseAccum += atten * (vs_c["@
        + dec((15 + i * 6 + 3) as nat)
        + "] * "@
        + ambient_text(k)
        + ");\n"@
        + given(k.flags.has_normal && k.flags.specular_enable, light_specular_text(k, 15 + i * 6))
        + "    }\n"@
}

fn light(k: &FfVsKey, i: u32) -> (r: String)
    requires
        i < 8,
    ensures
        r@ == light_text(*k, i as int),
{
    let mut out: String = String::new();
    push(&mut out, "    {\n");
    let piece1: String = if has_bit8(k.light_directional_mask, i) {
        light_directional(15 + i * 6)
    } else {
        String::new()
    };
    push(&mut out, piece1.as_str());
    let piece2: String = if !has_bit8(k.light_directional_mask, i) {
        light_positional(15 + i * 6, has_bit8(k.light_spot_mask, i))
    } else {
        String::new()
    };
    push(&mut out, piece2.as_str());
    let piece3: String = if k.flags.has_normal {
        light_diffuse(k, 15 + i * 6)
    } else {
        String::new()
    };
    push(&mut out, piece3.as_str());
    push(&mut out, "        diffuseAccum += atten * (vs_c[");
    push_num(&mut out, 15 + i * 6 + 3);
    push(&mut out, "] * ");
    let piece4: String = ambient(k);
    push(&mut out, piece4.as_str());
    push(&mut out, ");\n");
    let piece5: String = if k.flags.has_normal && k.flags.specular_enable {
        light_specular(k, 15 + i * 6)
    } else {
        String::new()
    };
    push(&mut out, piece5.as_str());
    push(&mut out, "    }\n");
    out
}

/// What the lights add, each active slot in turn.
pub open spec fn lights_text(k: FfVsKey) -> Seq<char> {
    each((8) as nat, |i: int| given(bit8(k.light_active_mask, i), light_text(k, i)))
}

fn lights(k: &FfVsKey) -> (r: String)
    ensures
        r@ == lights_text(*k),
{
    let mut out: String = String::new();
    let ghost f = |i: int| given(bit8(k.light_active_mask, i), light_text(*k, i));
    let n: u32 = 8;
    let mut i: u32 = 0;
    while i < n
        invariant
            i <= n,
            f == (|i: int| given(bit8(k.light_active_mask, i), light_text(*k, i))),
            n == 8,
            out@ == each(i as nat, f),
        decreases n - i,
    {
        let piece: String = if has_bit8(k.light_active_mask, i) { light(k, i) } else { String::new() };
        push(&mut out, piece.as_str());
        assert(piece@ == f(i as int));
        i += 1;
    }
    out
}

/// What computes the colours from the lights.
pub open spec fn vs_lighting_text(k: FfVsKey) -> Seq<char> {
    Seq::<char>::empty()
        + lit_setup_text(k)
        + "    float4 diffuseAccum = "@
        + emissive_text(k)
        + " + vs_c[9] * "@
        + ambient_text(k)
        + ";\n"@
        + "    float3 specAccum = float3(0.0);\n"@
        + lights_text(k)
        + "    float4 lit = saturate(diffuseAccum);\n"@
        + "    lit.a = "@
        + diffuse_text(k)
        + ".a;\n"@
        + "    out.color0 = lit;\n"@
        + "    out.color1 = float4(saturate(specAccum), 0.0);\n"@
}

fn vs_lighting(k: &FfVsKey) -> (r: String)
    ensures
        r@ == vs_lighting_text(*k),
{
    let mut out: String = String::new();
    let piece1: String = lit_setup(k);
    push(&mut out, piece1.as_str());
    push(&mut out, "    float4 diffuseAccum = ");
    let piece2: String = emissive(k);
    push(&mut out, piece2.as_str());
    push(&mut out, " + vs_c[9] * ");
    let piece3: String = ambient(k);
    push(&mut out, piece3.as_str());
    push(&mut out, ";\n");
    push(&mut out, "    float3 specAccum = float3(0.0);\n");
    let piece4: String = lights(k);
    push(&mut out, piece4.as_str());
    push(&mut out, "    float4 lit = saturate(diffuseAccum);\n");
    push(&mut out, "    lit.a = ");
    let piece5: String = diffuse(k);
    push(&mut out, piece5.as_str());
    push(&mut out, ".a;\n");
    push(&mut out, "    out.color0 = lit;\n");
    push(&mut out, "    out.color1 = float4(saturate(specAccum), 0.0);\n");
    out
}

/// The normal that stages use as a coordinate.
pub open spec fn vs_texgen_normal_text(k: FfVsKey) -> Seq<char> {
    Seq::<char>::empty()
        + given(k.vertex_blend_count > 0, "    float3 n_texgen = n_blend;\n"@)
        + given(k.vertex_blend_count == 0, "    float3 n_texgen = float3(dot(in.v1.xyz, vs_c[0].xyz), dot(in.v1.xyz, vs_c[1].xyz), dot(in.v1.xyz, vs_c[2].xyz));\n"@)
}

fn vs_texgen_normal(k: &FfVsKey) -> (r: String)
    ensures
        r@ == vs_texgen_normal_text(*k),
{
    let mut out: String = String::new();
    push_if(&mut out, k.vertex_blend_count > 0, "    float3 n_texgen = n_blend;\n");
    push_if(&mut out, k.vertex_blend_count == 0, "    float3 n_texgen = float3(dot(in.v1.xyz, vs_c[0].xyz), dot(in.v1.xyz, vs_c[1].xyz), dot(in.v1.xyz, vs_c[2].xyz));\n");
    out
}

/// The reflection vector as the coordinate of stage `i`.
pub open spec fn stage_reflection_text(i: int) -> Seq<char> {
    Seq::<char>::empty()
        + "    float4 raw"@
        + dec(i as nat)
        + ";\n"@
        + "    {\n"@
        + "        float3 E_tci = normalize(posEye);\n"@
        + "        float3 R_tci = 2.0 * n * dot(n, E_tci) - E_tci;\n"@
        + "        raw"@
        + dec(i as nat)
        + " = float4(R_tci, 0.0);\n"@
        + "    }\n"@
}

fn stage_reflection(i: u32) -> (r: String)
    ensures
        r@ == stage_reflection_text(i as int),
{
    let mut out: String = String::new();
    push(&mut out, "    float4 raw");
    push_num(&mut out, i);
    push(&mut out, ";\n");
    push(&mut out, "    {\n");
    push(&mut out, "        float3 E_tci = normalize(posEye);\n");
    push(&mut out, "        float3 R_tci = 2.0 * n * dot(n, E_tci) - E_tci;\n");
    push(&mut out, "        raw");
    push_num(&mut out, i);
    push(&mut out, " = float4(R_tci, 0.0);\n");
    push(&mut out, "    }\n");
    out
}

/// The coordinate of stage `i` before any matrix, given as `rhs`.
pub open spec fn stage_assign_text(i: int, rhs: Seq<char>) -> Seq<char> {
    Seq::<char>::empty()
        + "    float4 raw"@
        + dec(i as nat)
        + " = "@
        + rhs
        + ";\n"@
}

fn stage_assign(i: u32, rhs: &str) -> (r: String)
    ensures
        r@ == stage_assign_text(i as int, rhs@),
{
    let mut out: String = String::new();
    push(&mut out, "    float4 raw");
    push_num(&mut out, i);
    push(&mut out, " = ");
    push(&mut out, rhs);
    push(&mut out, ";\n");
    out
}

/// The coordinate of stage `i` before any matrix.
pub open spec fn stage_raw_text(k: FfVsKey, i: int) -> Seq<char> {
    let mode = k.tci_modes@[i];
    if mode == 1 && k.flags.has_normal {
        stage_assign_text(i, "float4(n_texgen, 0.0)"@)
    } else if mode == 2 {
        stage_assign_text(i, "float4(posEye, 0.0)"@)
    } else if mode == 3 && k.flags.has_normal {
        stage_reflection_text(i)
    } else {
        stage_assign_text(i, masked_input_rhs_text(k, stage_source(k, i)))
    }
}

fn stage_raw(k: &FfVsKey, i: u32) -> (r: String)
    requires
        i < 8,
    ensures
        r@ == stage_raw_text(*k, i as int),
{
    let mode: u8 = k.tci_modes[i as usize];
    if mode == 1 && k.flags.has_normal {
        stage_assign(i, "float4(n_texgen, 0.0)")
    } else if mode == 2 {
        stage_assign(i, "float4(posEye, 0.0)")
    } else if mode == 3 && k.flags.has_normal {
        stage_reflection(i)
    } else {
        let rhs: String = masked_input_rhs(k, source_of(k, i));
        stage_assign(i, rhs.as_str())
    }
}

/// The product of the coordinate of stage `i` with row `row` of its matrix.
pub open spec fn stage_row_text(i: int, row: int) -> Seq<char> {
    Seq::<char>::empty()
        + "dot(raw"@
        + dec(i as nat)
        + ", vs_c["@
        + dec((63 + i * 4 + row) as nat)
        + "])"@
}

fn stage_row(i: u32, row: u32) -> (r: String)
    requires
        i < 8,
        row < 4,
    ensures
        r@ == stage_row_text(i as int, row as int),
{
    let mut out: String = String::new();
    push(&mut out, "dot(raw");
    push_num(&mut out, i);
    push(&mut out, ", vs_c[");
    push_num(&mut out, 63 + i * 4 + row);
    push(&mut out, "])");
    out
}

/// Component `c` of the transformed coordinate of stage `i`.
pub open spec fn row_text(i: int, c: Seq<char>) -> Seq<char> {
    "r"@ + dec(i as nat) + c
}

fn row(i: u32, c: &str) -> (r: String)
    ensures
        r@ == row_text(i as int, c@),
{
    let mut out: String = owned("r");
    push_num(&mut out, i);
    push(&mut out, c);
    out
}

/// What stage `i` keeps of its transformed coordinate: the first `count` components, and the last of them to divide by when projected.
pub open spec fn stage_kept_text(i: int, count: u8, projected: bool) -> Seq<char> {
    Seq::<char>::empty()
        + "float4("@
        + row_text(i, ".x, "@)
        + row_text(i, ".y, "@)
        + given(count == 3, row_text(i, ".z, "@))
        + given(count == 2, "0.0, "@)
        + given(projected && count == 2, row_text(i, ".y"@))
        + given(projected && count == 3, row_text(i, ".z"@))
        + given(!projected, "0.0"@)
        + ")"@
}

fn stage_kept(i: u32, count: u8, projected: bool) -> (r: String)
    requires
        count == 2 || count == 3,
    ensures
        r@ == stage_kept_text(i as int, count, projected),
{
    let mut out: String = String::new();
    push(&mut out, "float4(");
    let piece1: String = row(i, ".x, ");
    push(&mut out, piece1.as_str());
    let piece2: String = row(i, ".y, ");
    push(&mut out, piece2.as_str());
    let piece3: String = if count == 3 {
        row(i, ".z, ")
    } else {
        String::new()
    };
    push(&mut out, piece3.as_str());
    push_if(&mut out, count == 2, "0.0, ");
    let piece4: String = if projected && count == 2 {
        row(i, ".y")
    } else {
        String::new()
    };
    push(&mut out, piece4.as_str());
    let piece5: String = if projected && count == 3 {
        row(i, ".z")
    } else {
        String::new()
    };
    push(&mut out, piece5.as_str());
    push_if(&mut out, !projected, "0.0");
    push(&mut out, ")");
    out
}

/// The coordinate of stage `i` by its matrix.
pub open spec fn stage_transformed_text(i: int, n: u8, count: u8, projected: bool) -> Seq<char> {
    Seq::<char>::empty()
        + given(1 <= n && n < 4, stage_homogeneous_text(i, n))
        + "    float4 r"@
        + dec(i as nat)
        + " = float4("@
        + stage_row_text(i, 0)
        + ", "@
        + stage_row_text(i, 1)
        + ", "@
        + stage_row_text(i, 2)
        + ", "@
        + stage_row_text(i, 3)
        + ");\n"@
        + "    out.texcoord"@
        + dec(i as nat)
        + " = "@
        + given(count < 4, stage_kept_text(i, count, projected))
        + given(count == 4, row_text(i, ""@))
        + ";\n"@
}

fn stage_transformed(i: u32, n: u8, count: u8, projected: bool) -> (r: String)
    requires
        i < 8,
        2 <= count <= 4,
    ensures
        r@ == stage_transformed_text(i as int, n, count, projected),
{
    let mut out: String = String::new();
    let piece1: String = if 1 <= n && n < 4 {
        stage_homogeneous(i, n)
    } else {
        String::new()
    };
    push(&mut out, piece1.as_str());
    push(&mut out, "    float4 r");
    push_num(&mut out, i);
    push(&mut out, " = float4(");
    let piece2: String = stage_row(i, 0);
    push(&mut out, piece2.as_str());
    push(&mut out, ", ");
    let piece3: String = stage_row(i, 1);
    push(&mut out, piece3.as_str());
    push(&mut out, ", ");
    let piece4: String = stage_row(i, 2);
    push(&mut out, piece4.as_str());
    push(&mut out, ", ");
    let piece5: String = stage_row(i, 3);
    push(&mut out, piece5.as_str());
    push(&mut out, ");\n");
    push(&mut out, "    out.texcoord");
    push_num(&mut out, i);
    push(&mut out, " = ");
    let piece6: String = if count < 4 {
        stage_kept(i, count, projected)
    } else {
        String::new()
    };
    push(&mut out, piece6.as_str());
    let piece7: String = if count == 4 {
        row(i, "")
    } else {
        String::new()
    };
    push(&mut out, piece7.as_str());
    push(&mut out, ";\n");
    out
}

/// The component behind the last one, set to one.
pub open spec fn stage_homogeneous_text(i: int, n: u8) -> Seq<char> {
    Seq::<char>::empty()
        + "    raw"@
        + dec(i as nat)
        + "["@
        + dec(n as nat)
        + "] = 1.0;\n"@
}

fn stage_homogeneous(i: u32, n: u8) -> (r: String)
    ensures
        r@ == stage_homogeneous_text(i as int, n),
{
    let mut out: String = String::new();
    push(&mut out, "    raw");
    push_num(&mut out, i);
    push(&mut out, "[");
    push_num(&mut out, n as u32);
    push(&mut out, "] = 1.0;\n");
    out
}

/// The name of component `n` of a vector, counted from one.
pub open spec fn component(n: u8) -> Seq<char> {
    if n == 1 {
        "x"@
    } else if n == 2 {
        "y"@
    } else if n == 3 {
        "z"@
    } else {
        "w"@
    }
}

fn component_name(n: u8) -> (r: &'static str)
    ensures
        r@ == component(n),
{
    if n == 1 {
        "x"
    } else if n == 2 {
        "y"
    } else if n == 3 {
        "z"
    } else {
        "w"
    }
}

/// The coordinate of stage `i` without a matrix; when projected, its last component is what it is divided by.
pub open spec fn stage_plain_text(i: int, n: u8, projected: bool) -> Seq<char> {
    Seq::<char>::empty()
        + "    out.texcoord"@
        + dec(i as nat)
        + " = "@
        + given(projected && n >= 1, "float4("@)
        + "raw"@
        + dec(i as nat)
        + given(projected && n >= 1, stage_divisor_text(i, n))
        + ";\n"@
}

fn stage_plain(i: u32, n: u8, projected: bool) -> (r: String)
    ensures
        r@ == stage_plain_text(i as int, n, projected),
{
    let mut out: String = String::new();
    push(&mut out, "    out.texcoord");
    push_num(&mut out, i);
    push(&mut out, " = ");
    push_if(&mut out, projected && n >= 1, "float4(");
    push(&mut out, "raw");
    push_num(&mut out, i);
    let piece1: String = if projected && n >= 1 {
        stage_divisor(i, n)
    } else {
        String::new()
    };
    push(&mut out, piece1.as_str());
    push(&mut out, ";\n");
    out
}

/// The end of a projected coordinate.
pub open spec fn stage_divisor_text(i: int, n: u8) -> Seq<char> {
    Seq::<char>::empty()
        + ".xyz, raw"@
        + dec(i as nat)
        + "."@
        + component(n)
        + ")"@
}

fn stage_divisor(i: u32, n: u8) -> (r: String)
    ensures
        r@ == stage_divisor_text(i as int, n),
{
    let mut out: String = String::new();
    push(&mut out, ".xyz, raw");
    push_num(&mut out, i);
    push(&mut out, ".");
    push(&mut out, component_name(n));
    push(&mut out, ")");
    out
}

/// The coordinate of stage `i`.
pub open spec fn stage_coord_text(k: FfVsKey, i: int) -> Seq<char> {
    Seq::<char>::empty()
        + stage_raw_text(k, i)
        + given(transformed(k, i), stage_transformed_text(i, stage_dim(k, i), tt_count_spec(k.tt_flags@[i]), tt_projected_spec(k.tt_flags@[i])))
        + given(!transformed(k, i), stage_plain_text(i, stage_dim(k, i), tt_projected_spec(k.tt_flags@[i])))
}

fn stage_coord(k: &FfVsKey, i: u32) -> (r: String)
    requires
        i < 8,
    ensures
        r@ == stage_coord_text(*k, i as int),
{
    let tt: u8 = k.tt_flags[i as usize];
    let moved: bool = 2 <= tt_count(tt) && tt_count(tt) <= 4;
    let mut out: String = String::new();
    let piece1: String = stage_raw(k, i);
    push(&mut out, piece1.as_str());
    let piece2: String = if moved {
        stage_transformed(i, dim_of(k, i), tt_count(tt), tt_projected(tt))
    } else {
        String::new()
    };
    push(&mut out, piece2.as_str());
    let piece3: String = if !moved {
        stage_plain(i, dim_of(k, i), tt_projected(tt))
    } else {
        String::new()
    };
    push(&mut out, piece3.as_str());
    out
}

/// The coordinates of the stages.
pub open spec fn stage_coords_text(k: FfVsKey) -> Seq<char> {
    each(k.tex_coord_count as nat, |i: int| stage_coord_text(k, i))
}

fn stage_coords(k: &FfVsKey) -> (r: String)
    requires
        k.tex_coord_count <= 8,
    ensures
        r@ == stage_coords_text(*k),
{
    let mut out: String = String::new();
    let ghost f = |i: int| stage_coord_text(*k, i);
    let n: u32 = k.tex_coord_count as u32;
    let mut i: u32 = 0;
    while i < n
        invariant
            i <= n,
            f == (|i: int| stage_coord_text(*k, i)),
            n <= 8,
            out@ == each(i as nat, f),
        decreases n - i,
    {
        let piece: String = stage_coord(k, i);
        push(&mut out, piece.as_str());
        assert(piece@ == f(i as int));
        i += 1;
    }
    out
}

/// Fog that thickens exponentially with depth.
pub open spec fn fog_exp_text() -> Seq<char> {
    Seq::<char>::empty()
        + "    {\n"@
        + "        float eyeZ = abs(dot(pos, vs_c[2]));\n"@
        + "        float fogDensity = vs_c[8].z;\n"@
        + "        float f = saturate(exp2(-1.442695 * fogDensity * eyeZ));\n"@
        + "        out.fog = float4(f, 0.0, 0.0, 0.0);\n"@
        + "    }\n"@
}

fn fog_exp() -> (r: String)
    ensures
        r@ == fog_exp_text(),
{
    let mut out: String = String::new();
    push(&mut out, "    {\n");
    push(&mut out, "        float eyeZ = abs(dot(pos, vs_c[2]));\n");
    push(&mut out, "        float fogDensity = vs_c[8].z;\n");
    push(&mut out, "        float f = saturate(exp2(-1.442695 * fogDensity * eyeZ));\n");
    push(&mut out, "        out.fog = float4(f, 0.0, 0.0, 0.0);\n");
    push(&mut out, "    }\n");
    out
}

/// Fog that thickens exponentially with the square of depth.
pub open spec fn fog_exp2_text() -> Seq<char> {
    Seq::<char>::empty()
        + "    {\n"@
        + "        float eyeZ = abs(dot(pos, vs_c[2]));\n"@
        + "        float fogDensity = vs_c[8].z;\n"@
        + "        float dz = fogDensity * eyeZ;\n"@
        + "        float f = saturate(exp2(-1.442695 * dz * dz));\n"@
        + "        out.fog = float4(f, 0.0, 0.0, 0.0);\n"@
        + "    }\n"@
}

fn fog_exp2() -> (r: String)
    ensures
        r@ == fog_exp2_text(),
{
    let mut out: String = String::new();
    push(&mut out, "    {\n");
    push(&mut out, "        float eyeZ = abs(dot(pos, vs_c[2]));\n");
    push(&mut out, "        float fogDensity = vs_c[8].z;\n");
    push(&mut out, "        float dz = fogDensity * eyeZ;\n");
    push(&mut out, "        float f = saturate(exp2(-1.442695 * dz * dz));\n");
    push(&mut out, "        out.fog = float4(f, 0.0, 0.0, 0.0);\n");
    push(&mut out, "    }\n");
    out
}

/// Fog that thickens evenly between two depths.
pub open spec fn fog_linear_text() -> Seq<char> {
    Seq::<char>::empty()
        + "    {\n"@
        + "        float eyeZ = abs(dot(pos, vs_c[2]));\n"@
        + "        float fogStart = vs_c[8].x;\n"@
        + "        float fogEnd = vs_c[8].y;\n"@
        + "        float fogRange = fogEnd - fogStart;\n"@
        + "        float f = fogRange == 0.0 ? 0.0 : saturate((fogEnd - eyeZ) / fogRange);\n"@
        + "        out.fog = float4(f, 0.0, 0.0, 0.0);\n"@
        + "    }\n"@
}

fn fog_linear() -> (r: String)
    ensures
        r@ == fog_linear_text(),
{
    let mut out: String = String::new();
    push(&mut out, "    {\n");
    push(&mut out, "        float eyeZ = abs(dot(pos, vs_c[2]));\n");
    push(&mut out, "        float fogStart = vs_c[8].x;\n");
    push(&mut out, "        float fogEnd = vs_c[8].y;\n");
    push(&mut out, "        float fogRange = fogEnd - fogStart;\n");
    push(&mut out, "        float f = fogRange == 0.0 ? 0.0 : saturate((fogEnd - eyeZ) / fogRange);\n");
    push(&mut out, "        out.fog = float4(f, 0.0, 0.0, 0.0);\n");
    push(&mut out, "    }\n");
    out
}

/// How much fog the vertex is in.
pub open spec fn vs_fog_text(k: FfVsKey) -> Seq<char> {
    if k.fog_mode == 1 {
        fog_exp_text()
    } else if k.fog_mode == 2 {
        fog_exp2_text()
    } else if k.fog_mode == 3 {
        fog_linear_text()
    } else if k.fog_mode == 4 && k.flags.has_color1 {
        "    out.fog = float4(in.v3.w, 0.0, 0.0, 0.0);\n"@
    } else {
        "    out.fog = float4(1.0);\n"@
    }
}

fn vs_fog(k: &FfVsKey) -> (r: String)
    ensures
        r@ == vs_fog_text(*k),
{
    if k.fog_mode == 1 {
        fog_exp()
    } else if k.fog_mode == 2 {
        fog_exp2()
    } else if k.fog_mode == 3 {
        fog_linear()
    } else if k.fog_mode == 4 && k.flags.has_color1 {
        owned("    out.fog = float4(in.v3.w, 0.0, 0.0, 0.0);\n")
    } else {
        owned("    out.fog = float4(1.0);\n")
    }
}

/// The function for vertices that are transformed here.
pub open spec fn vs_transformed_text(k: FfVsKey) -> Seq<char> {
    Seq::<char>::empty()
        + vs_position_text(k)
        + given(k.clip_plane_count > 0, vs_clip_text(k.clip_plane_count as int))
        + given(!(k.flags.lighting_enabled && k.flags.has_normal), vs_eye_text(k, uses_mode(k, 1, 3) && k.flags.has_normal, uses_mode(k, 2, 3)))
        + given(k.flags.lighting_enabled, vs_lighting_text(k))
        + given(!k.flags.lighting_enabled, vs_colors_text(k))
        + given(k.flags.has_normal && uses_mode(k, 1, 1), vs_texgen_normal_text(k))
        + stage_coords_text(k)
        + zero_coords_text(k.tex_coord_count as int)
        + vs_fog_text(k)
        + "    out.fog_z = out.position.z / out.position.w;\n"@
        + "    return out;\n"@
        + "}\n"@
}

fn vs_transformed(k: &FfVsKey) -> (r: String)
    requires
        k.tex_coord_count <= 8,
    ensures
        r@ == vs_transformed_text(*k),
{
    let mut out: String = String::new();
    let piece1: String = vs_position(k);
    push(&mut out, piece1.as_str());
    let piece2: String = if k.clip_plane_count > 0 {
        vs_clip(k.clip_plane_count as u32)
    } else {
        String::new()
    };
    push(&mut out, piece2.as_str());
    let piece3: String = if !(k.flags.lighting_enabled && k.flags.has_normal) {
        vs_eye(k, any_mode(k, 1, 3) && k.flags.has_normal, any_mode(k, 2, 3))
    } else {
        String::new()
    };
    push(&mut out, piece3.as_str());
    let piece4: String = if k.flags.lighting_enabled {
        vs_lighting(k)
    } else {
        String::new()
    };
    push(&mut out, piece4.as_str());
    let piece5: String = if !k.flags.lighting_enabled {
        vs_colors(k)
    } else {
        String::new()
    };
    push(&mut out, piece5.as_str());
    let piece6: String = if k.flags.has_normal && any_mode(k, 1, 1) {
        vs_texgen_normal(k)
    } else {
        String::new()
    };
    push(&mut out, piece6.as_str());
    let piece7: String = stage_coords(k);
    push(&mut out, piece7.as_str());
    let piece8: String = zero_coords(k.tex_coord_count as u32);
    push(&mut out, piece8.as_str());
    let piece9: String = vs_fog(k);
    push(&mut out, piece9.as_str());
    push(&mut out, "    out.fog_z = out.position.z / out.position.w;\n");
    push(&mut out, "    return out;\n");
    push(&mut out, "}\n");
    out
}

/// The vertex function named `entry`.
pub open spec fn emit_vs_text(k: FfVsKey, entry: Seq<char>) -> Seq<char> {
    Seq::<char>::empty()
        + vs_head_text(entry)
        + given(k.flags.has_rhw, vs_rhw_text(k))
        + given(!k.flags.has_rhw, vs_transformed_text(k))
}

/// The vertex function named `entry`.
pub fn emit_vs(k: &FfVsKey, entry: &str) -> (r: String)
    requires
        k.tex_coord_count <= 8,
    ensures
        r@ == emit_vs_text(*k, entry@),
{
    let mut out: String = String::new();
    let piece1: String = vs_head(entry);
    push(&mut out, piece1.as_str());
    let piece2: String = if k.flags.has_rhw {
        vs_rhw(k)
    } else {
        String::new()
    };
    push(&mut out, piece2.as_str());
    let piece3: String = if !k.flags.has_rhw {
        vs_transformed(k)
    } else {
        String::new()
    };
    push(&mut out, piece3.as_str());
    out
}

/// A vertex shader whose function is named `entry`.
pub open spec fn emit_vs_ff_named_text(k: FfVsKey, shared: SharedText, entry: Seq<char>) -> Seq<char> {
    Seq::<char>::empty()
        + "#include <metal_stdlib>\n"@
        + "using namespace metal;\n\n"@
        + emit_vertex_in_text(k)
        + emit_varyings_text(false, k.clip_plane_count)
        + shared.vs_draw@
        + given(k.flags.lighting_enabled && k.flags.has_normal, emit_normal_matrix_helpers_text())
        + emit_vs_text(k, entry)
}

pub fn emit_vs_ff_named(k: &FfVsKey, shared: &SharedText, entry: &str) -> (r: String)
    requires
        emittable(*k),
    ensures
        r@ == emit_vs_ff_named_text(*k, *shared, entry@),
{
    let mut out: String = String::new();
    push(&mut out, "#include <metal_stdlib>\n");
    push(&mut out, "using namespace metal;\n\n");
    let piece1: String = emit_vertex_in(k);
    push(&mut out, piece1.as_str());
    let piece2: String = emit_varyings(false, k.clip_plane_count);
    push(&mut out, piece2.as_str());
    push(&mut out, shared.vs_draw.as_str());
    let piece3: String = if k.flags.lighting_enabled && k.flags.has_normal {
        emit_normal_matrix_helpers()
    } else {
        String::new()
    };
    push(&mut out, piece3.as_str());
    let piece4: String = emit_vs(k, entry);
    push(&mut out, piece4.as_str());
    out
}

/// A vertex shader whose function has the name that none other was asked for.
pub fn emit_vs_ff(k: &FfVsKey, shared: &SharedText) -> (r: String)
    requires
        emittable(*k),
    ensures
        r@ == emit_vs_ff_named_text(*k, *shared, DEFAULT_VS_ENTRY@),
{
    emit_vs_ff_named(k, shared, DEFAULT_VS_ENTRY)
}

} // verus!
