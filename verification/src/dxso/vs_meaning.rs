//! What a vertex shader hands on, as a whole.

use super::ff::FfVsKey;
use super::ff_vs::{
    clip_plane_text, clip_planes_text, emit_point_size_text, emit_vs_text, emittable, fog_exp2_text,
    fog_exp_text, fog_linear_text, rhw_coords_text, stage_coords_text, uses_mode, vs_clip_text,
    vs_colors_text, vs_eye_text, vs_fog_text, vs_head_text, vs_lighting_text, vs_position_text,
    vs_rhw_text, vs_texgen_normal_text, vs_transformed_text, zero_coords_text,
};
use super::shading::{
    absolute, all, all_spelled, block, both, both_spelled, clamped, divided, eval, listing, most,
    multiplied, nothing_spelled, number, only_if, only_if_spelled, product, run, saturated, scalar,
    spells, unit, vec4, well_read, with_part, Component, Functions, Name, Number, State, Stmt,
    Value, World,
};
use super::vs_coords::{
    coords_program, coords_ready, coords_run, coords_spelled, generation, handed_on,
    handed_on_as_point, of_coords, own_coord, points_program, points_run, points_spelled,
    source_set, zeros_program, zeros_run, zeros_spelled,
};
use super::vs_lighting::{
    diffuse_sum, eye_position, highlight_sum, lighting_program, lighting_runs, lighting_spelled,
    material, of_lighting, prepared, row, row_normal, tiny,
};
use super::vs_position::{
    blended_normal, block_spelled, direction, given_point, moved, names_matrices, normal_sum,
    point_size, point_size_program, point_size_runs, point_size_spelled, position_program,
    position_runs, position_spelled, same_given, screen_position, turned, typed, view_position,
};
use super::vs_text::{
    clamp_depth, clamp_depth_spelled, clip_distance, clip_distance_spelled, color0_of_vertex,
    color0_of_vertex_spelled, color0_white, color0_white_spelled, color1_black,
    color1_black_spelled, color1_of_vertex, color1_of_vertex_spelled, eye_of_rows,
    eye_of_rows_spelled, eye_of_view, eye_of_view_spelled, fog_clear, fog_clear_spelled, fog_depth,
    fog_depth_spelled, fog_of_vertex, fog_of_vertex_spelled, let_density, let_density_spelled,
    let_dz, let_dz_spelled, let_exp, let_exp_spelled, let_exp_squared, let_exp_squared_spelled,
    let_eye_z, let_eye_z_spelled, let_fog_end, let_fog_end_spelled, let_fog_range,
    let_fog_range_spelled, let_fog_start, let_fog_start_spelled, let_linear, let_linear_spelled,
    let_ndc_x, let_ndc_x_spelled, let_ndc_y, let_ndc_y_spelled, let_origin, let_origin_spelled,
    let_rhw, let_rhw_spelled, let_viewport, let_viewport_spelled, let_w, let_w_spelled, let_world,
    let_world_spelled, normal_of_blend, normal_of_blend_spelled, normal_of_rows,
    normal_of_rows_spelled, place_on_screen, place_on_screen_spelled, set_fog, set_fog_spelled,
    texgen_of_blend, texgen_of_blend_spelled, texgen_of_rows, texgen_of_rows_spelled,
};
use crate::text::given;
use vstd::prelude::*;

verus! {

/// The position in the world, from its view-space position.
pub open spec fn world_position(vars: Map<Name, Value>, view: Value) -> Value {
    vec4(
        product(view, vars[Name::InvView(0)]),
        product(view, vars[Name::InvView(1)]),
        product(view, vars[Name::InvView(2)]),
        product(view, vars[Name::InvView(3)]),
    )
}

/// The colour of the vertex as it is, white where it has none.
pub open spec fn plain_diffuse(k: FfVsKey, vars: Map<Name, Value>) -> Value {
    if k.flags.has_color0 {
        vars[Name::Attribute(2)]
    } else {
        vec4(1 as real, 1 as real, 1 as real, 1 as real)
    }
}

/// The second colour of the vertex as it is, black where it has none.
pub open spec fn plain_specular(k: FfVsKey, vars: Map<Name, Value>) -> Value {
    if k.flags.has_color1 {
        vars[Name::Attribute(3)]
    } else {
        vec4(0 as real, 0 as real, 0 as real, 0 as real)
    }
}

/// How clear it is at a depth: falling off exponentially with it (1) or with its square (2),
/// or evenly between the start and the end of the fog (3).
pub open spec fn clearness(mode: u8, f: Functions, vars: Map<Name, Value>) -> real {
    let z = absolute(product(given_point(vars), row(vars, 2)));
    let start = row(vars, 8).x;
    let end = row(vars, 8).y;
    let density = row(vars, 8).z;
    let c = -number(Number::LogE);
    let r = if mode == 1 {
        (f.exp2)(multiplied(multiplied(c, density), z))
    } else if mode == 2 {
        let d = multiplied(density, z);
        (f.exp2)(multiplied(multiplied(c, d), d))
    } else if end - start == 0 as real {
        0 as real
    } else {
        divided(end - z, end - start)
    };
    clamped(r, 0 as real, 1 as real)
}

/// The fog that a vertex hands on: how clear it is at its depth, what its second colour says
/// (4), or no fog.
pub open spec fn fog(k: FfVsKey, f: Functions, vars: Map<Name, Value>) -> Value {
    let none = 0 as real;
    if 1 <= k.fog_mode <= 3 {
        vec4(clearness(k.fog_mode, f, vars), none, none, none)
    } else if k.fog_mode == 4 && k.flags.has_color1 {
        vec4(vars[Name::Attribute(3)].w, none, none, none)
    } else {
        vec4(1 as real, 1 as real, 1 as real, 1 as real)
    }
}

/// The normal seen from the eye, not of length one.
pub open spec fn seen_normal(k: FfVsKey, w: World, vars: Map<Name, Value>) -> Value {
    if k.vertex_blend_count > 0 {
        blended_normal(k, w, vars)
    } else {
        turned(vars, 0, vars[Name::Attribute(1)])
    }
}

/// What the coordinates of the stages are computed from.
pub open spec fn coord_sources(k: FfVsKey, w: World, vars: Map<Name, Value>) -> Map<Name, Value> {
    vars.insert(Name::PosEye, direction(view_position(k, w, vars))).insert(
        Name::NTexgen,
        seen_normal(k, w, vars),
    ).insert(
        Name::Normal,
        if k.flags.lighting_enabled && k.vertex_blend_count == 0 {
            row_normal(k, w.functions, vars)
        } else {
            unit(seen_normal(k, w, vars), w.functions)
        },
    )
}

/// The colours that lighting starts from: what the position statements computed and what the
/// shader is given.
pub open spec fn light_sources(k: FfVsKey, w: World, vars: Map<Name, Value>) -> Map<Name, Value> {
    prepared(
        k,
        w.functions,
        vars.insert(Name::Pos, given_point(vars)).insert(
            Name::PosView,
            view_position(k, w, vars),
        ).insert(Name::NBlend, blended_normal(k, w, vars)),
    )
}

// Sections.

spec fn clip_program(n: nat) -> Stmt {
    both(both(Stmt::Nothing, let_world()), all(n, |i: int| clip_distance(i as nat)))
}

proof fn clip_spelled(n: nat)
    ensures
        spells(vs_clip_text(n as int), clip_program(n), 1),
{
    let_world_spelled();
    let f = |i: int| clip_plane_text(i);
    let p = |i: int| clip_distance(i as nat);
    assert forall|i: int| 0 <= i < n implies spells(#[trigger] f(i), p(i), 1) by {
        clip_distance_spelled(i as nat);
    }
    all_spelled(n, f, p, 1);
    let a = "    float4 world_pos = float4(dot(pos_view, vs_draw.inv_view[0]), dot(pos_view, vs_draw.inv_view[1]), dot(pos_view, vs_draw.inv_view[2]), dot(pos_view, vs_draw.inv_view[3]));\n"@;
    let b = clip_planes_text(n as int);
    nothing_spelled(1);
    let t0 = Seq::<char>::empty();
    let p0 = Stmt::Nothing;
    both_spelled(t0, p0, a, let_world(), 1);
    let t1 = t0 + a;
    let p1 = both(p0, let_world());
    both_spelled(t1, p1, b, all(n, p), 1);
}

proof fn clip_all_run(n: nat, w: World, s: State)
    ensures
        ({
            let t = run(all(n, |i: int| clip_distance(i as nat)), w, s);
            &&& forall|i: nat|
                i < n ==> #[trigger] t.vars[Name::OutClip(i)] == scalar(
                    product(s.vars[Name::WorldPos], s.vars[Name::ClipPlane(i)]),
                )
            &&& forall|m: Name| !(m is OutClip) ==> #[trigger] t.vars[m] == s.vars[m]
        }),
    decreases n,
{
    let p = |i: int| clip_distance(i as nat);
    if n > 0 {
        let l = (n - 1) as nat;
        clip_all_run(l, w, s);
        let a = run(all(l, p), w, s);
        reveal_with_fuel(eval, 3);
        assert(p(n - 1) == clip_distance(l));
        assert(run(all(n, p), w, s) == run(clip_distance(l), w, a));
    }
}

proof fn clip_runs(n: nat, w: World, s: State)
    ensures
        ({
            let t = run(clip_program(n), w, s);
            &&& forall|i: nat|
                i < n ==> #[trigger] t.vars[Name::OutClip(i)] == scalar(
                    product(
                        world_position(s.vars, s.vars[Name::PosView]),
                        s.vars[Name::ClipPlane(i)],
                    ),
                )
            &&& forall|m: Name|
                !(m is OutClip || m is WorldPos) ==> #[trigger] t.vars[m] == s.vars[m]
        }),
{
    let a = run(let_world(), w, s);
    assert(a.vars[Name::WorldPos] == world_position(s.vars, s.vars[Name::PosView])) by {
        reveal_with_fuel(eval, 7);
    }
    clip_all_run(n, w, a);
    reveal_with_fuel(run, 3);
    assert(run(clip_program(n), w, s) == run(all(n, |i: int| clip_distance(i as nat)), w, a));
}

spec fn eye_program(k: FfVsKey, normal: bool, position: bool) -> Stmt {
    both(
        both(
            both(
                both(
                    Stmt::Nothing,
                    only_if(normal && k.vertex_blend_count > 0, normal_of_blend()),
                ),
                only_if(normal && k.vertex_blend_count == 0, normal_of_rows()),
            ),
            only_if(position && k.vertex_blend_count > 0, eye_of_view()),
        ),
        only_if(position && k.vertex_blend_count == 0, eye_of_rows()),
    )
}

proof fn eye_spelled(k: FfVsKey, normal: bool, position: bool)
    ensures
        spells(vs_eye_text(k, normal, position), eye_program(k, normal, position), 1),
{
    normal_of_blend_spelled();
    normal_of_rows_spelled();
    eye_of_view_spelled();
    eye_of_rows_spelled();
    let blend = k.vertex_blend_count > 0;
    let a = given(normal && blend, "    float3 n = normalize(n_blend);\n"@);
    let b = given(
        normal && k.vertex_blend_count == 0,
        "    float3 n = normalize(float3(dot(in.v1.xyz, vs_c[0].xyz), dot(in.v1.xyz, vs_c[1].xyz), dot(in.v1.xyz, vs_c[2].xyz)));\n"@,
    );
    let c = given(position && blend, "    float3 posEye = pos_view.xyz;\n"@);
    let d = given(
        position && k.vertex_blend_count == 0,
        "    float3 posEye = float3(dot(pos, vs_c[0]), dot(pos, vs_c[1]), dot(pos, vs_c[2]));\n"@,
    );
    nothing_spelled(1);
    let t0 = Seq::<char>::empty();
    let p0 = Stmt::Nothing;
    both_spelled(t0, p0, a, only_if(normal && blend, normal_of_blend()), 1);
    let t1 = t0 + a;
    let p1 = both(p0, only_if(normal && blend, normal_of_blend()));
    both_spelled(t1, p1, b, only_if(normal && k.vertex_blend_count == 0, normal_of_rows()), 1);
    let t2 = t1 + b;
    let p2 = both(p1, only_if(normal && k.vertex_blend_count == 0, normal_of_rows()));
    both_spelled(t2, p2, c, only_if(position && blend, eye_of_view()), 1);
    let t3 = t2 + c;
    let p3 = both(p2, only_if(position && blend, eye_of_view()));
    both_spelled(t3, p3, d, only_if(position && k.vertex_blend_count == 0, eye_of_rows()), 1);
}

proof fn eye_runs(k: FfVsKey, normal: bool, position: bool, w: World, s: State)
    requires
        typed(s.vars),
        s.vars[Name::Pos].n == 4,
    ensures
        ({
            let t = run(eye_program(k, normal, position), w, s);
            &&& normal ==> t.vars[Name::Normal] == unit(
                if k.vertex_blend_count > 0 {
                    s.vars[Name::NBlend]
                } else {
                    turned(s.vars, 0, s.vars[Name::Attribute(1)])
                },
                w.functions,
            )
            &&& position ==> t.vars[Name::PosEye] == eye_position(k, s.vars)
            &&& forall|n: Name| !(n is Normal || n is PosEye) ==> #[trigger] t.vars[n] == s.vars[n]
        }),
{
    reveal_with_fuel(eval, 7);
    let a = run(only_if(normal && k.vertex_blend_count > 0, normal_of_blend()), w, s);
    let b = run(only_if(normal && k.vertex_blend_count == 0, normal_of_rows()), w, a);
    let c = run(only_if(position && k.vertex_blend_count > 0, eye_of_view()), w, b);
    let d = run(only_if(position && k.vertex_blend_count == 0, eye_of_rows()), w, c);
    reveal_with_fuel(run, 6);
    assert(run(eye_program(k, normal, position), w, s) == d);
}

spec fn colors_program(k: FfVsKey) -> Stmt {
    both(
        both(
            Stmt::Nothing,
            if k.flags.has_color0 {
                color0_of_vertex()
            } else {
                color0_white()
            },
        ),
        if k.flags.has_color1 {
            color1_of_vertex()
        } else {
            color1_black()
        },
    )
}

proof fn colors_spelled(k: FfVsKey)
    ensures
        spells(vs_colors_text(k), colors_program(k), 1),
{
    color0_of_vertex_spelled();
    color0_white_spelled();
    color1_of_vertex_spelled();
    color1_black_spelled();
    let a = if k.flags.has_color0 {
        "    out.color0 = in.v2;\n"@
    } else {
        "    out.color0 = float4(1.0);\n"@
    };
    let b = if k.flags.has_color1 {
        "    out.color1 = in.v3;\n"@
    } else {
        "    out.color1 = float4(0.0);\n"@
    };
    let p = if k.flags.has_color0 {
        color0_of_vertex()
    } else {
        color0_white()
    };
    let q = if k.flags.has_color1 {
        color1_of_vertex()
    } else {
        color1_black()
    };
    nothing_spelled(1);
    let t0 = Seq::<char>::empty();
    let p0 = Stmt::Nothing;
    both_spelled(t0, p0, a, p, 1);
    let t1 = t0 + a;
    let p1 = both(p0, p);
    both_spelled(t1, p1, b, q, 1);
}

proof fn colors_run(k: FfVsKey, w: World, s: State)
    requires
        typed(s.vars),
    ensures
        ({
            let t = run(colors_program(k), w, s);
            &&& t.vars[Name::OutColor(0)] == plain_diffuse(k, s.vars)
            &&& t.vars[Name::OutColor(1)] == plain_specular(k, s.vars)
            &&& forall|n: Name| !(n is OutColor) ==> #[trigger] t.vars[n] == s.vars[n]
        }),
{
    reveal_with_fuel(eval, 3);
    reveal_with_fuel(run, 4);
}

spec fn texgen_program(k: FfVsKey) -> Stmt {
    both(
        both(Stmt::Nothing, only_if(k.vertex_blend_count > 0, texgen_of_blend())),
        only_if(k.vertex_blend_count == 0, texgen_of_rows()),
    )
}

proof fn texgen_spelled(k: FfVsKey)
    ensures
        spells(vs_texgen_normal_text(k), texgen_program(k), 1),
{
    texgen_of_blend_spelled();
    texgen_of_rows_spelled();
    let a = given(k.vertex_blend_count > 0, "    float3 n_texgen = n_blend;\n"@);
    let b = given(
        k.vertex_blend_count == 0,
        "    float3 n_texgen = float3(dot(in.v1.xyz, vs_c[0].xyz), dot(in.v1.xyz, vs_c[1].xyz), dot(in.v1.xyz, vs_c[2].xyz));\n"@,
    );
    nothing_spelled(1);
    let t0 = Seq::<char>::empty();
    let p0 = Stmt::Nothing;
    both_spelled(t0, p0, a, only_if(k.vertex_blend_count > 0, texgen_of_blend()), 1);
    let t1 = t0 + a;
    let p1 = both(p0, only_if(k.vertex_blend_count > 0, texgen_of_blend()));
    both_spelled(t1, p1, b, only_if(k.vertex_blend_count == 0, texgen_of_rows()), 1);
}

proof fn texgen_runs(k: FfVsKey, w: World, s: State)
    requires
        typed(s.vars),
    ensures
        ({
            let t = run(texgen_program(k), w, s);
            &&& t.vars[Name::NTexgen] == (if k.vertex_blend_count > 0 {
                s.vars[Name::NBlend]
            } else {
                turned(s.vars, 0, s.vars[Name::Attribute(1)])
            })
            &&& forall|n: Name| !(n is NTexgen) ==> #[trigger] t.vars[n] == s.vars[n]
        }),
{
    reveal_with_fuel(eval, 7);
    reveal_with_fuel(run, 4);
}

spec fn exp_program() -> Stmt {
    block(both(both(both(let_eye_z(), let_density()), let_exp()), set_fog()))
}

spec fn exp2_program() -> Stmt {
    block(
        both(
            both(both(both(let_eye_z(), let_density()), let_dz()), let_exp_squared()),
            set_fog(),
        ),
    )
}

spec fn linear_program() -> Stmt {
    block(
        both(
            both(
                both(both(both(let_eye_z(), let_fog_start()), let_fog_end()), let_fog_range()),
                let_linear(),
            ),
            set_fog(),
        ),
    )
}

spec fn fog_program(k: FfVsKey) -> Stmt {
    if k.fog_mode == 1 {
        exp_program()
    } else if k.fog_mode == 2 {
        exp2_program()
    } else if k.fog_mode == 3 {
        linear_program()
    } else if k.fog_mode == 4 && k.flags.has_color1 {
        fog_of_vertex()
    } else {
        fog_clear()
    }
}

proof fn exp_spelled()
    ensures
        spells(fog_exp_text(), exp_program(), 1),
{
    let a = "        float eyeZ = abs(dot(pos, vs_c[2]));\n"@;
    let b = "        float fogDensity = vs_c[8].z;\n"@;
    let c = "        float f = saturate(exp2(-1.442695 * fogDensity * eyeZ));\n"@;
    let d = "        out.fog = float4(f, 0.0, 0.0, 0.0);\n"@;
    let_eye_z_spelled();
    let_density_spelled();
    let_exp_spelled();
    set_fog_spelled();
    let p = both(let_eye_z(), let_density());
    both_spelled(a, let_eye_z(), b, let_density(), 2);
    both_spelled(a + b, p, c, let_exp(), 2);
    both_spelled(a + b + c, both(p, let_exp()), d, set_fog(), 2);
    let inner = a + b + c + d;
    block_spelled(Seq::empty(), inner, both(both(p, let_exp()), set_fog()));
    assert(fog_exp_text() =~= "    {\n"@ + inner + "    }\n"@);
}

proof fn exp2_spelled()
    ensures
        spells(fog_exp2_text(), exp2_program(), 1),
{
    let a = "        float eyeZ = abs(dot(pos, vs_c[2]));\n"@;
    let b = "        float fogDensity = vs_c[8].z;\n"@;
    let c = "        float dz = fogDensity * eyeZ;\n"@;
    let d = "        float f = saturate(exp2(-1.442695 * dz * dz));\n"@;
    let e = "        out.fog = float4(f, 0.0, 0.0, 0.0);\n"@;
    let_eye_z_spelled();
    let_density_spelled();
    let_dz_spelled();
    let_exp_squared_spelled();
    set_fog_spelled();
    let p = both(let_eye_z(), let_density());
    both_spelled(a, let_eye_z(), b, let_density(), 2);
    both_spelled(a + b, p, c, let_dz(), 2);
    both_spelled(a + b + c, both(p, let_dz()), d, let_exp_squared(), 2);
    both_spelled(a + b + c + d, both(both(p, let_dz()), let_exp_squared()), e, set_fog(), 2);
    let inner = a + b + c + d + e;
    block_spelled(
        Seq::empty(),
        inner,
        both(both(both(p, let_dz()), let_exp_squared()), set_fog()),
    );
    assert(fog_exp2_text() =~= "    {\n"@ + inner + "    }\n"@);
}

proof fn linear_spelled()
    ensures
        spells(fog_linear_text(), linear_program(), 1),
{
    let a = "        float eyeZ = abs(dot(pos, vs_c[2]));\n"@;
    let b = "        float fogStart = vs_c[8].x;\n"@;
    let c = "        float fogEnd = vs_c[8].y;\n"@;
    let d = "        float fogRange = fogEnd - fogStart;\n"@;
    let e = "        float f = fogRange == 0.0 ? 0.0 : saturate((fogEnd - eyeZ) / fogRange);\n"@;
    let f = "        out.fog = float4(f, 0.0, 0.0, 0.0);\n"@;
    let_eye_z_spelled();
    let_fog_start_spelled();
    let_fog_end_spelled();
    let_fog_range_spelled();
    let_linear_spelled();
    set_fog_spelled();
    let p = both(let_eye_z(), let_fog_start());
    let q = both(p, let_fog_end());
    let r = both(q, let_fog_range());
    both_spelled(a, let_eye_z(), b, let_fog_start(), 2);
    both_spelled(a + b, p, c, let_fog_end(), 2);
    both_spelled(a + b + c, q, d, let_fog_range(), 2);
    both_spelled(a + b + c + d, r, e, let_linear(), 2);
    both_spelled(a + b + c + d + e, both(r, let_linear()), f, set_fog(), 2);
    let inner = a + b + c + d + e + f;
    block_spelled(Seq::empty(), inner, both(both(r, let_linear()), set_fog()));
    assert(fog_linear_text() =~= "    {\n"@ + inner + "    }\n"@);
}

proof fn fog_spelled(k: FfVsKey)
    ensures
        spells(vs_fog_text(k), fog_program(k), 1),
{
    exp_spelled();
    exp2_spelled();
    linear_spelled();
    fog_of_vertex_spelled();
    fog_clear_spelled();
}

/// Whether a name belongs to the fog.
spec fn of_fog(n: Name) -> bool {
    n is EyeZ || n is FogDensity || n is FogFactor || n is Dz || n is FogStart || n is FogEnd
        || n is FogRange || n is OutFog
}

#[verifier::rlimit(40)]
proof fn fog_runs(k: FfVsKey, w: World, s: State)
    requires
        typed(s.vars),
        1 <= k.fog_mode <= 3 ==> s.vars[Name::Pos] == given_point(s.vars),
    ensures
        ({
            let t = run(fog_program(k), w, s);
            &&& t.vars[Name::OutFog] == fog(k, w.functions, s.vars)
            &&& forall|n: Name| !of_fog(n) ==> #[trigger] t.vars[n] == s.vars[n]
        }),
{
    reveal_with_fuel(eval, 7);
    reveal_with_fuel(run, 8);
    let a = run(let_eye_z(), w, s);
    if k.fog_mode == 1 {
        let b = run(let_density(), w, a);
        let c = run(let_exp(), w, b);
        assert(c.vars[Name::FogFactor] == scalar(clearness(1, w.functions, s.vars)));
        assert(run(fog_program(k), w, s) == run(set_fog(), w, c));
    } else if k.fog_mode == 2 {
        let b = run(let_density(), w, a);
        let c = run(let_dz(), w, b);
        let d = run(let_exp_squared(), w, c);
        assert(d.vars[Name::FogFactor] == scalar(clearness(2, w.functions, s.vars)));
        assert(run(fog_program(k), w, s) == run(set_fog(), w, d));
    } else if k.fog_mode == 3 {
        let b = run(let_fog_start(), w, a);
        let c = run(let_fog_end(), w, b);
        let d = run(let_fog_range(), w, c);
        let e = run(let_linear(), w, d);
        assert(e.vars[Name::FogFactor] == scalar(clearness(3, w.functions, s.vars)));
        assert(run(fog_program(k), w, s) == run(set_fog(), w, e));
    }
}

// The function for vertices that are transformed here.

spec fn sees(k: FfVsKey) -> bool {
    !(k.flags.lighting_enabled && k.flags.has_normal)
}

spec fn sees_normal(k: FfVsKey) -> bool {
    uses_mode(k, 1, 3) && k.flags.has_normal
}

spec fn p1(k: FfVsKey) -> Stmt {
    both(Stmt::Nothing, position_program(k))
}

spec fn p2(k: FfVsKey) -> Stmt {
    both(p1(k), only_if(k.clip_plane_count > 0, clip_program(k.clip_plane_count as nat)))
}

spec fn p3(k: FfVsKey) -> Stmt {
    both(p2(k), only_if(sees(k), eye_program(k, sees_normal(k), uses_mode(k, 2, 3))))
}

spec fn p4(k: FfVsKey) -> Stmt {
    both(p3(k), only_if(k.flags.lighting_enabled, lighting_program(k)))
}

spec fn p5(k: FfVsKey) -> Stmt {
    both(p4(k), only_if(!k.flags.lighting_enabled, colors_program(k)))
}

spec fn p6(k: FfVsKey) -> Stmt {
    both(p5(k), only_if(k.flags.has_normal && uses_mode(k, 1, 1), texgen_program(k)))
}

spec fn p7(k: FfVsKey) -> Stmt {
    both(p6(k), coords_program(k))
}

spec fn p8(k: FfVsKey) -> Stmt {
    both(p7(k), zeros_program(k.tex_coord_count as nat))
}

spec fn p9(k: FfVsKey) -> Stmt {
    both(p8(k), fog_program(k))
}

spec fn vertex_program(k: FfVsKey) -> Stmt {
    both(p9(k), fog_depth())
}

/// Whether a text is the body of a function that runs `p` and returns what it hands on.
pub open spec fn is_body(text: Seq<char>, p: Stmt) -> bool {
    well_read(p) && text == listing(p, 1) + "    return out;\n"@ + "}\n"@
}

#[verifier::rlimit(40)]
proof fn vertex_spelled(k: FfVsKey)
    requires
        k.tex_coord_count <= 8,
    ensures
        is_body(vs_transformed_text(k), vertex_program(k)),
{
    position_spelled(k);
    clip_spelled(k.clip_plane_count as nat);
    eye_spelled(k, sees_normal(k), uses_mode(k, 2, 3));
    lighting_spelled(k);
    colors_spelled(k);
    texgen_spelled(k);
    coords_spelled(k);
    zeros_spelled(k.tex_coord_count as nat);
    fog_spelled(k);
    fog_depth_spelled();
    let a = vs_position_text(k);
    let b = given(k.clip_plane_count > 0, vs_clip_text(k.clip_plane_count as int));
    let c = given(sees(k), vs_eye_text(k, sees_normal(k), uses_mode(k, 2, 3)));
    let d = given(k.flags.lighting_enabled, vs_lighting_text(k));
    let e = given(!k.flags.lighting_enabled, vs_colors_text(k));
    let f = given(k.flags.has_normal && uses_mode(k, 1, 1), vs_texgen_normal_text(k));
    let g = stage_coords_text(k);
    let h = zero_coords_text(k.tex_coord_count as int);
    let i = vs_fog_text(k);
    let j = "    out.fog_z = out.position.z / out.position.w;\n"@;
    only_if_spelled(
        k.clip_plane_count > 0,
        vs_clip_text(k.clip_plane_count as int),
        clip_program(k.clip_plane_count as nat),
        1,
    );
    only_if_spelled(
        sees(k),
        vs_eye_text(k, sees_normal(k), uses_mode(k, 2, 3)),
        eye_program(k, sees_normal(k), uses_mode(k, 2, 3)),
        1,
    );
    only_if_spelled(k.flags.lighting_enabled, vs_lighting_text(k), lighting_program(k), 1);
    only_if_spelled(!k.flags.lighting_enabled, vs_colors_text(k), colors_program(k), 1);
    only_if_spelled(
        k.flags.has_normal && uses_mode(k, 1, 1),
        vs_texgen_normal_text(k),
        texgen_program(k),
        1,
    );
    nothing_spelled(1);
    let t0 = Seq::<char>::empty();
    both_spelled(t0, Stmt::Nothing, a, position_program(k), 1);
    both_spelled(
        t0 + a,
        p1(k),
        b,
        only_if(k.clip_plane_count > 0, clip_program(k.clip_plane_count as nat)),
        1,
    );
    both_spelled(
        t0 + a + b,
        p2(k),
        c,
        only_if(sees(k), eye_program(k, sees_normal(k), uses_mode(k, 2, 3))),
        1,
    );
    both_spelled(
        t0 + a + b + c,
        p3(k),
        d,
        only_if(k.flags.lighting_enabled, lighting_program(k)),
        1,
    );
    let t4 = t0 + a + b + c + d;
    both_spelled(t4, p4(k), e, only_if(!k.flags.lighting_enabled, colors_program(k)), 1);
    both_spelled(
        t4 + e,
        p5(k),
        f,
        only_if(k.flags.has_normal && uses_mode(k, 1, 1), texgen_program(k)),
        1,
    );
    both_spelled(t4 + e + f, p6(k), g, coords_program(k), 1);
    let t7 = t4 + e + f + g;
    both_spelled(t7, p7(k), h, zeros_program(k.tex_coord_count as nat), 1);
    both_spelled(t7 + h, p8(k), i, fog_program(k), 1);
    both_spelled(t7 + h + i, p9(k), j, fog_depth(), 1);
}

proof fn normals_are_directions(k: FfVsKey, w: World, vars: Map<Name, Value>, m: nat)
    requires
        typed(vars),
    ensures
        normal_sum(k, w, vars, m).n == 3,
    decreases m,
{
    if m > 0 {
        normals_are_directions(k, w, vars, (m - 1) as nat);
        assert(vars[Name::BlendWeight((m - 1) as nat)].n == 1);
    }
}

/// What a vertex shader computes before the coordinates, from what it is given.
spec fn seen(k: FfVsKey, w: World, s: State, t: State) -> bool {
    let u = s.vars;
    &&& same_given(s, t)
    &&& t.vars[Name::Pos] == given_point(u)
    &&& t.vars[Name::PosView] == view_position(k, w, u)
    &&& t.vars[Name::OutPosition] == screen_position(k, w, u)
    &&& t.vars[Name::OutPointSize].x == point_size(
        k,
        k.flags.point_scale,
        w.functions,
        u,
        view_position(k, w, u),
    )
    &&& k.vertex_blend_count > 0 && k.flags.has_normal ==> t.vars[Name::NBlend]
        == blended_normal(k, w, u)
}

proof fn seen_stays(k: FfVsKey, w: World, s: State, t: State, r: State)
    requires
        seen(k, w, s, t),
        forall|n: Name|
            !(of_lighting(n) || n is OutClip || n is WorldPos || n is NTexgen)
                ==> #[trigger] r.vars[n] == t.vars[n],
    ensures
        seen(k, w, s, r),
{
}

spec fn clips(k: FfVsKey, w: World, s: State, t: State) -> bool {
    forall|i: nat|
        i < k.clip_plane_count ==> #[trigger] t.vars[Name::OutClip(i)] == scalar(
            product(
                world_position(s.vars, view_position(k, w, s.vars)),
                s.vars[Name::ClipPlane(i)],
            ),
        )
}

proof fn first_half(k: FfVsKey, w: World, s: State)
    requires
        typed(s.vars),
        names_matrices(w),
    ensures
        ({
            let t = run(p3(k), w, s);
            &&& seen(k, w, s, t)
            &&& clips(k, w, s, t)
            &&& sees(k) && sees_normal(k) ==> t.vars[Name::Normal] == unit(
                seen_normal(k, w, s.vars),
                w.functions,
            )
            &&& sees(k) && uses_mode(k, 2, 3) ==> t.vars[Name::PosEye] == direction(
                view_position(k, w, s.vars),
            )
        }),
{
    position_runs(k, w, s);
    let a = run(position_program(k), w, s);
    assert(run(p1(k), w, s) == a) by {
        reveal_with_fuel(run, 3);
    }
    assert(typed(a.vars));
    let cp = only_if(k.clip_plane_count > 0, clip_program(k.clip_plane_count as nat));
    let b = run(cp, w, a);
    assert(run(p2(k), w, s) == b);
    clip_runs(k.clip_plane_count as nat, w, a);
    seen_stays(k, w, s, a, b);
    assert(typed(b.vars));
    assert(clips(k, w, s, b));
    let ep = only_if(sees(k), eye_program(k, sees_normal(k), uses_mode(k, 2, 3)));
    let c = run(ep, w, b);
    assert(run(p3(k), w, s) == c);
    eye_runs(k, sees_normal(k), uses_mode(k, 2, 3), w, b);
    seen_stays(k, w, s, b, c);
    assert(turned(b.vars, 0, b.vars[Name::Attribute(1)]) == turned(
        s.vars,
        0,
        s.vars[Name::Attribute(1)],
    ));
    assert(moved(b.vars, 0, given_point(s.vars)) == moved(s.vars, 0, given_point(s.vars)));
}

/// The colours that a vertex shader hands on.
pub open spec fn colours(k: FfVsKey, w: World, vars: Map<Name, Value>, t: State) -> bool {
    let u = light_sources(k, w, vars);
    let lit = saturated(diffuse_sum(k, 8, w.functions, u));
    let highlights = saturated(highlight_sum(k, 8, w.functions, u));
    if k.flags.lighting_enabled {
        &&& t.vars[Name::OutColor(0)] == with_part(
            lit,
            Component::W,
            material(k, k.diffuse_source, 10, vars).w,
        )
        &&& t.vars[Name::OutColor(1)] == vec4(
            highlights.x,
            highlights.y,
            highlights.z,
            0 as real,
        )
    } else {
        &&& t.vars[Name::OutColor(0)] == plain_diffuse(k, vars)
        &&& t.vars[Name::OutColor(1)] == plain_specular(k, vars)
    }
}

#[verifier::rlimit(40)]
proof fn light_sources_agree(k: FfVsKey, w: World, s: State, t: State)
    requires
        seen(k, w, s, t),
    ensures
        ({
            let u = light_sources(k, w, s.vars);
            let v = prepared(k, w.functions, t.vars);
            &&& diffuse_sum(k, 8, w.functions, v) == diffuse_sum(k, 8, w.functions, u)
            &&& highlight_sum(k, 8, w.functions, v) == highlight_sum(k, 8, w.functions, u)
            &&& material(k, k.diffuse_source, 10, v) == material(k, k.diffuse_source, 10, s.vars)
            &&& v[Name::PosEye] == direction(view_position(k, w, s.vars))
            &&& k.flags.has_normal && k.vertex_blend_count > 0 ==> v[Name::Normal] == unit(
                blended_normal(k, w, s.vars),
                w.functions,
            )
            &&& k.flags.has_normal && k.vertex_blend_count == 0 ==> v[Name::Normal] == row_normal(
                k,
                w.functions,
                s.vars,
            )
        }),
{
    let u = light_sources(k, w, s.vars);
    let v = prepared(k, w.functions, t.vars);
    let x = s.vars.insert(Name::Pos, given_point(s.vars)).insert(
        Name::PosView,
        view_position(k, w, s.vars),
    ).insert(Name::NBlend, blended_normal(k, w, s.vars));
    assert forall|j: int| #[trigger] row(t.vars, j) == row(s.vars, j) && row(x, j) == row(s.vars, j)
        && row(u, j) == row(s.vars, j) && row(v, j) == row(s.vars, j) by {}
    assert(t.vars[Name::Attribute(1)] == s.vars[Name::Attribute(1)]);
    assert(row_normal(k, w.functions, t.vars) == row_normal(k, w.functions, s.vars));
    assert(row_normal(k, w.functions, x) == row_normal(k, w.functions, s.vars));
    assert(moved(t.vars, 0, given_point(s.vars)) == moved(s.vars, 0, given_point(s.vars)));
    assert(moved(x, 0, given_point(s.vars)) == moved(s.vars, 0, given_point(s.vars)));
    assert(eye_position(k, t.vars) == eye_position(k, x));
    assert(v[Name::Attribute(2)] == u[Name::Attribute(2)]);
    assert(v[Name::Attribute(3)] == u[Name::Attribute(3)]);
    super::vs_lighting::sums_depend_on_sources(k, 8, w.functions, u, v);
}

#[verifier::rlimit(40)]
proof fn second_half(k: FfVsKey, w: World, s: State, c: State)
    requires
        typed(s.vars),
        seen(k, w, s, c),
        clips(k, w, s, c),
        sees(k) && sees_normal(k) ==> c.vars[Name::Normal] == unit(
            seen_normal(k, w, s.vars),
            w.functions,
        ),
        sees(k) && uses_mode(k, 2, 3) ==> c.vars[Name::PosEye] == direction(
            view_position(k, w, s.vars),
        ),
    ensures
        ({
            let d = run(only_if(k.flags.lighting_enabled, lighting_program(k)), w, c);
            let e = run(only_if(!k.flags.lighting_enabled, colors_program(k)), w, d);
            let t = run(
                only_if(k.flags.has_normal && uses_mode(k, 1, 1), texgen_program(k)),
                w,
                e,
            );
            let u = coord_sources(k, w, s.vars);
            &&& seen(k, w, s, t)
            &&& clips(k, w, s, t)
            &&& colours(k, w, s.vars, t)
            &&& uses_mode(k, 2, 3) ==> t.vars[Name::PosEye] == u[Name::PosEye]
            &&& sees_normal(k) ==> t.vars[Name::Normal] == u[Name::Normal]
            &&& k.flags.has_normal && uses_mode(k, 1, 1) ==> t.vars[Name::NTexgen]
                == u[Name::NTexgen]
        }),
{
    let d = run(only_if(k.flags.lighting_enabled, lighting_program(k)), w, c);
    let e = run(only_if(!k.flags.lighting_enabled, colors_program(k)), w, d);
    let t = run(only_if(k.flags.has_normal && uses_mode(k, 1, 1), texgen_program(k)), w, e);
    assert(typed(c.vars));
    lighting_runs(k, w, c);
    light_sources_agree(k, w, s, c);
    seen_stays(k, w, s, c, d);
    assert(typed(d.vars));
    colors_run(k, w, d);
    seen_stays(k, w, s, d, e);
    assert(typed(e.vars));
    texgen_runs(k, w, e);
    seen_stays(k, w, s, e, t);
    assert(turned(e.vars, 0, e.vars[Name::Attribute(1)]) == turned(
        s.vars,
        0,
        s.vars[Name::Attribute(1)],
    ));
    assert forall|i: nat| i < k.clip_plane_count implies #[trigger] t.vars[Name::OutClip(i)]
        == c.vars[Name::OutClip(i)] by {
        assert(d.vars[Name::OutClip(i)] == c.vars[Name::OutClip(i)]);
        assert(e.vars[Name::OutClip(i)] == d.vars[Name::OutClip(i)]);
    }
    assert(t.vars[Name::OutColor(0)] == e.vars[Name::OutColor(0)]);
    assert(t.vars[Name::OutColor(1)] == e.vars[Name::OutColor(1)]);
    assert(d.vars[Name::Attribute(2)] == s.vars[Name::Attribute(2)]);
    assert(d.vars[Name::Attribute(3)] == s.vars[Name::Attribute(3)]);
    assert(t.vars[Name::PosEye] == e.vars[Name::PosEye]);
    assert(e.vars[Name::PosEye] == d.vars[Name::PosEye]);
    assert(t.vars[Name::Normal] == e.vars[Name::Normal]);
    assert(e.vars[Name::Normal] == d.vars[Name::Normal]);
}

/// All that a vertex shader hands on, from what it is given.
pub open spec fn hands_on(k: FfVsKey, w: World, vars: Map<Name, Value>, t: State) -> bool {
    let view = view_position(k, w, vars);
    let place = screen_position(k, w, vars);
    &&& t.vars[Name::OutPosition] == place
    &&& t.vars[Name::OutPointSize].x == point_size(
        k,
        k.flags.point_scale,
        w.functions,
        vars,
        view,
    )
    &&& forall|i: nat|
        i < k.clip_plane_count ==> #[trigger] t.vars[Name::OutClip(i)] == scalar(
            product(world_position(vars, view), vars[Name::ClipPlane(i)]),
        )
    &&& colours(k, w, vars, t)
    &&& forall|i: nat|
        i < k.tex_coord_count ==> #[trigger] t.vars[Name::OutTexcoord(i)] == handed_on(
            k,
            i as int,
            w.functions,
            coord_sources(k, w, vars),
        )
    &&& forall|i: nat|
        k.tex_coord_count <= i < 8 ==> #[trigger] t.vars[Name::OutTexcoord(i)] == vec4(
            0 as real,
            0 as real,
            0 as real,
            0 as real,
        )
    &&& t.vars[Name::OutFog] == fog(k, w.functions, vars)
    &&& t.vars[Name::OutFogZ].x == divided(place.z, place.w)
}

#[verifier::rlimit(40)]
proof fn coords_agree(k: FfVsKey, w: World, s: State, f: State)
    requires
        typed(s.vars),
        seen(k, w, s, f),
        k.tex_coord_count <= 8,
        uses_mode(k, 2, 3) ==> f.vars[Name::PosEye] == coord_sources(k, w, s.vars)[Name::PosEye],
        sees_normal(k) ==> f.vars[Name::Normal] == coord_sources(k, w, s.vars)[Name::Normal],
        k.flags.has_normal && uses_mode(k, 1, 1) ==> f.vars[Name::NTexgen] == coord_sources(
            k,
            w,
            s.vars,
        )[Name::NTexgen],
    ensures
        coords_ready(k, f.vars),
        forall|i: int|
            0 <= i < k.tex_coord_count ==> #[trigger] handed_on(k, i, w.functions, f.vars)
                == handed_on(k, i, w.functions, coord_sources(k, w, s.vars)),
{
    let u = coord_sources(k, w, s.vars);
    if k.vertex_blend_count > 0 {
        normals_are_directions(k, w, s.vars, (k.vertex_blend_count - 1) as nat);
    }
    assert(seen_normal(k, w, s.vars).n == 3);
    assert(u[Name::Normal].n == 3);
    assert forall|i: int| 0 <= i < k.tex_coord_count implies {
        let g = #[trigger] generation(k, i);
        &&& g == 1 ==> f.vars[Name::NTexgen].n == 3 && f.vars[Name::NTexgen] == u[Name::NTexgen]
        &&& g == 2 || g == 3 ==> f.vars[Name::PosEye].n == 3 && f.vars[Name::PosEye]
            == u[Name::PosEye]
        &&& g == 3 ==> f.vars[Name::Normal].n == 3 && f.vars[Name::Normal] == u[Name::Normal]
    } by {
        let mode = k.tci_modes@[i];
        if generation(k, i) == 1 {
            assert(uses_mode(k, 1, 1));
        }
        if generation(k, i) == 2 {
            assert(uses_mode(k, 2, 3));
        }
        if generation(k, i) == 3 {
            assert(uses_mode(k, 2, 3));
            assert(uses_mode(k, 1, 3));
        }
    }
    assert forall|i: int| 0 <= i < k.tex_coord_count implies #[trigger] handed_on(
        k,
        i,
        w.functions,
        f.vars,
    ) == handed_on(k, i, w.functions, u) by {
        let g = generation(k, i);
        let a = Name::Attribute((4 + source_set(k, i)) as nat);
        assert(f.vars[a] == s.vars[a]);
        assert(u[a] == s.vars[a]);
        assert(own_coord(k, i, f.vars) == own_coord(k, i, u));
        let base = 63 + 4 * i;
        assert forall|x: Value| #[trigger] moved(f.vars, base, x) == moved(u, base, x) by {}
    }
}

#[verifier::rlimit(40)]
proof fn vertex_runs(k: FfVsKey, w: World, s: State)
    requires
        emittable(k),
        !k.flags.has_rhw,
        typed(s.vars),
        names_matrices(w),
    ensures
        hands_on(k, w, s.vars, run(vertex_program(k), w, s)),
{
    first_half(k, w, s);
    let c = run(p3(k), w, s);
    second_half(k, w, s, c);
    let d = run(only_if(k.flags.lighting_enabled, lighting_program(k)), w, c);
    let e = run(only_if(!k.flags.lighting_enabled, colors_program(k)), w, d);
    let f = run(only_if(k.flags.has_normal && uses_mode(k, 1, 1), texgen_program(k)), w, e);
    assert(run(p4(k), w, s) == d);
    assert(run(p5(k), w, s) == e);
    assert(run(p6(k), w, s) == f);
    assert(typed(f.vars));
    coords_agree(k, w, s, f);
    coords_run(k, w, f);
    let g = run(coords_program(k), w, f);
    assert(run(p7(k), w, s) == g);
    zeros_run(k.tex_coord_count as nat, w, g);
    let h = run(zeros_program(k.tex_coord_count as nat), w, g);
    assert(run(p8(k), w, s) == h);
    assert(typed(h.vars));
    assert(h.vars[Name::Pos] == given_point(s.vars));
    assert(given_point(h.vars) == given_point(s.vars));
    fog_runs(k, w, h);
    let i = run(fog_program(k), w, h);
    assert(run(p9(k), w, s) == i);
    let t = run(fog_depth(), w, i);
    assert(run(vertex_program(k), w, s) == t);
    assert(fog(k, w.functions, h.vars) == fog(k, w.functions, s.vars)) by {
        assert(row(h.vars, 8) == row(s.vars, 8));
        assert(row(h.vars, 2) == row(s.vars, 2));
        assert(h.vars[Name::Attribute(3)] == s.vars[Name::Attribute(3)]);
    }
    assert(t.vars[Name::OutFogZ].x == divided(
        i.vars[Name::OutPosition].z,
        i.vars[Name::OutPosition].w,
    )) by {
        reveal_with_fuel(eval, 4);
    }
    assert forall|n: Name|
        !(of_coords(n) || of_fog(n) || n is OutFogZ) implies #[trigger] t.vars[n] == f.vars[n] by {
        assert(i.vars[n] == h.vars[n]);
        assert(h.vars[n] == g.vars[n]);
        assert(g.vars[n] == f.vars[n]);
    }
    assert(i.vars[Name::OutPosition] == h.vars[Name::OutPosition]);
    assert(h.vars[Name::OutPosition] == g.vars[Name::OutPosition]);
    assert forall|j: nat| #[trigger] t.vars[Name::OutTexcoord(j)]
        == h.vars[Name::OutTexcoord(j)] by {
        assert(i.vars[Name::OutTexcoord(j)] == h.vars[Name::OutTexcoord(j)]);
    }
    assert forall|j: nat| j < k.tex_coord_count implies #[trigger] t.vars[Name::OutTexcoord(j)]
        == handed_on(k, j as int, w.functions, coord_sources(k, w, s.vars)) by {
        assert(h.vars[Name::OutTexcoord(j)] == g.vars[Name::OutTexcoord(j)]);
        assert(handed_on(k, j as int, w.functions, f.vars) == handed_on(
            k,
            j as int,
            w.functions,
            coord_sources(k, w, s.vars),
        ));
    }
    assert(t.vars[Name::OutFog] == i.vars[Name::OutFog]);
}

/// The shader of vertices that are not yet transformed hands on, of what it is given: its
/// view-space position by rows 4 to 7, a point size, the distances to the clip planes, the
/// colours of the vertex or of its lighting, the coordinates of the stages, fog and depth.
pub proof fn vertices_are_handed_on(k: FfVsKey, entry: Seq<char>)
    requires
        emittable(k),
        !k.flags.has_rhw,
    ensures
        exists|p: Stmt, body: Seq<char>| #[trigger]
            is_body(body, p) && emit_vs_text(k, entry) == vs_head_text(entry) + body && (forall|
                w: World,
                s: State,
            |
                typed(s.vars) && names_matrices(w) ==> hands_on(
                    k,
                    w,
                    s.vars,
                    #[trigger] run(p, w, s),
                )),
{
    vertex_spelled(k);
    let p = vertex_program(k);
    let body = vs_transformed_text(k);
    let none = Seq::<char>::empty();
    assert(emit_vs_text(k, entry) =~= vs_head_text(entry) + body);
    assert(is_body(body, p));
    assert forall|w: World, s: State| typed(s.vars) && names_matrices(w) implies hands_on(
        k,
        w,
        s.vars,
        #[trigger] run(p, w, s),
    ) by {
        vertex_runs(k, w, s);
    }
}

// The function for vertices that are already transformed.

/// Where a vertex ends up that is given in pixels: from the pixel and the origin and size of
/// the viewport to the range of minus one to one, upside down, by its own w.
pub open spec fn pixel_position(vars: Map<Name, Value>) -> Value {
    let v = vars[Name::Attribute(0)];
    let size = row(vars, 0);
    let w = divided(1 as real, most(v.w, tiny()));
    let x = multiplied(divided(v.x - size.z, size.x), 2 as real) - 1 as real + divided(
        1 as real,
        size.x,
    );
    let y = 1 as real - multiplied(divided(v.y - size.w, size.y), 2 as real) - divided(
        1 as real,
        size.y,
    );
    vec4(multiplied(x, w), multiplied(y, w), multiplied(v.z, w), w)
}

spec fn q1() -> Stmt {
    both(
        both(
            both(
                both(
                    both(
                        both(both(Stmt::Nothing, let_viewport()), let_origin()),
                        let_rhw(),
                    ),
                    let_w(),
                ),
                let_ndc_x(),
            ),
            let_ndc_y(),
        ),
        place_on_screen(),
    )
}

spec fn q2(k: FfVsKey) -> Stmt {
    both(q1(), point_size_program(k, false))
}

spec fn q3(k: FfVsKey) -> Stmt {
    both(q2(k), colors_program(k))
}

spec fn q4(k: FfVsKey) -> Stmt {
    both(q3(k), points_program(k))
}

spec fn q5(k: FfVsKey) -> Stmt {
    both(q4(k), zeros_program(k.tex_coord_count as nat))
}

spec fn pixel_fog(k: FfVsKey) -> Stmt {
    if k.fog_mode == 4 && k.flags.has_color1 {
        fog_of_vertex()
    } else {
        fog_clear()
    }
}

spec fn q6(k: FfVsKey) -> Stmt {
    both(q5(k), pixel_fog(k))
}

spec fn q7(k: FfVsKey) -> Stmt {
    both(q6(k), fog_depth())
}

spec fn pixel_program(k: FfVsKey) -> Stmt {
    both(q7(k), clamp_depth())
}

#[verifier::rlimit(40)]
proof fn pixel_spelled(k: FfVsKey)
    requires
        k.tex_coord_count <= 8,
    ensures
        is_body(vs_rhw_text(k), pixel_program(k)),
{
    let_viewport_spelled();
    let_origin_spelled();
    let_rhw_spelled();
    let_w_spelled();
    let_ndc_x_spelled();
    let_ndc_y_spelled();
    place_on_screen_spelled();
    point_size_spelled(k, false);
    colors_spelled(k);
    points_spelled(k);
    zeros_spelled(k.tex_coord_count as nat);
    fog_of_vertex_spelled();
    fog_clear_spelled();
    fog_depth_spelled();
    clamp_depth_spelled();
    let a = "    float2 vp = vs_c[0].xy;\n"@;
    let b = "    float2 vp_origin = vs_c[0].zw;\n"@;
    let c = "    float rhw = in.v0.w;\n"@;
    let d = "    float w = 1.0 / max(rhw, 1e-30);\n"@;
    let e = "    float ndc_x = ((in.v0.x - vp_origin.x) / vp.x) * 2.0 - 1.0 + 1.0 / vp.x;\n"@;
    let f = "    float ndc_y = 1.0 - ((in.v0.y - vp_origin.y) / vp.y) * 2.0 - 1.0 / vp.y;\n"@;
    let g = "    out.position = float4(ndc_x * w, ndc_y * w, in.v0.z * w, w);\n"@;
    nothing_spelled(1);
    let t0 = Seq::<char>::empty();
    let p0 = Stmt::Nothing;
    both_spelled(t0, p0, a, let_viewport(), 1);
    let t1 = t0 + a;
    let p1 = both(p0, let_viewport());
    both_spelled(t1, p1, b, let_origin(), 1);
    let t2 = t1 + b;
    let p2 = both(p1, let_origin());
    both_spelled(t2, p2, c, let_rhw(), 1);
    let t3 = t2 + c;
    let p3 = both(p2, let_rhw());
    both_spelled(t3, p3, d, let_w(), 1);
    let t4 = t3 + d;
    let p4 = both(p3, let_w());
    both_spelled(t4, p4, e, let_ndc_x(), 1);
    let t5 = t4 + e;
    let p5 = both(p4, let_ndc_x());
    both_spelled(t5, p5, f, let_ndc_y(), 1);
    let t6 = t5 + f;
    let p6 = both(p5, let_ndc_y());
    both_spelled(t6, p6, g, place_on_screen(), 1);
    let u = Seq::<char>::empty() + a + b + c + d + e + f + g;
    let h = emit_point_size_text(k, false);
    let i = vs_colors_text(k);
    let j = rhw_coords_text(k);
    let l = zero_coords_text(k.tex_coord_count as int);
    let m = if k.fog_mode == 4 && k.flags.has_color1 {
        "    out.fog = float4(in.v3.w, 0.0, 0.0, 0.0);\n"@
    } else {
        "    out.fog = float4(1.0);\n"@
    };
    let n = "    out.fog_z = out.position.z / out.position.w;\n"@;
    let o = "    if (pos_fixup.z != 0.0) { out.position.z = clamp(out.position.z, 0.0, out.position.w); }\n"@;
    both_spelled(u, q1(), h, point_size_program(k, false), 1);
    both_spelled(u + h, q2(k), i, colors_program(k), 1);
    both_spelled(u + h + i, q3(k), j, points_program(k), 1);
    both_spelled(u + h + i + j, q4(k), l, zeros_program(k.tex_coord_count as nat), 1);
    both_spelled(u + h + i + j + l, q5(k), m, pixel_fog(k), 1);
    both_spelled(u + h + i + j + l + m, q6(k), n, fog_depth(), 1);
    both_spelled(u + h + i + j + l + m + n, q7(k), o, clamp_depth(), 1);
}

/// All that the shader of transformed vertices hands on, from what it is given. The depth is
/// brought into its range where the correction asks for that; the depth for fog is not.
pub open spec fn hands_on_pixel(k: FfVsKey, w: World, vars: Map<Name, Value>, t: State) -> bool {
    let place = pixel_position(vars);
    let none = 0 as real;
    &&& t.vars[Name::OutPosition] == (if vars[Name::PosFixup].z != none {
        vec4(place.x, place.y, clamped(place.z, none, place.w), place.w)
    } else {
        place
    })
    &&& t.vars[Name::OutPointSize].x == point_size(k, false, w.functions, vars, place)
    &&& t.vars[Name::OutColor(0)] == plain_diffuse(k, vars)
    &&& t.vars[Name::OutColor(1)] == plain_specular(k, vars)
    &&& forall|i: nat|
        i < k.tex_coord_count ==> #[trigger] t.vars[Name::OutTexcoord(i)] == handed_on_as_point(
            k,
            i as int,
            vars,
        )
    &&& forall|i: nat|
        k.tex_coord_count <= i < 8 ==> #[trigger] t.vars[Name::OutTexcoord(i)] == vec4(
            none,
            none,
            none,
            none,
        )
    &&& t.vars[Name::OutFog] == (if k.fog_mode == 4 && k.flags.has_color1 {
        vec4(vars[Name::Attribute(3)].w, none, none, none)
    } else {
        vec4(1 as real, 1 as real, 1 as real, 1 as real)
    })
    &&& t.vars[Name::OutFogZ].x == divided(place.z, place.w)
}

#[verifier::rlimit(40)]
proof fn pixel_placed(w: World, s: State)
    requires
        typed(s.vars),
    ensures
        ({
            let t = run(q1(), w, s);
            &&& t.vars[Name::OutPosition] == pixel_position(s.vars)
            &&& forall|n: Name|
                !(n is Viewport || n is ViewportOrigin || n is Rhw || n is Weight || n is NdcX
                    || n is NdcY || n is OutPosition) ==> #[trigger] t.vars[n] == s.vars[n]
        }),
{
    reveal_with_fuel(eval, 9);
    let a = run(let_origin(), w, run(let_viewport(), w, s));
    let b = run(let_w(), w, run(let_rhw(), w, a));
    assert(b.vars[Name::Weight] == scalar(
        divided(1 as real, most(s.vars[Name::Attribute(0)].w, tiny())),
    ));
    let c = run(let_ndc_x(), w, b);
    let d = run(let_ndc_y(), w, c);
    let e = run(place_on_screen(), w, d);
    reveal_with_fuel(run, 9);
    assert(run(q1(), w, s) == e);
}

proof fn pixel_ends(k: FfVsKey, w: World, e: State, place: Value)
    requires
        typed(e.vars),
        e.vars[Name::OutPosition] == place,
        place.n == 4,
    ensures
        ({
            let f = run(pixel_fog(k), w, e);
            let g = run(fog_depth(), w, f);
            let t = run(clamp_depth(), w, g);
            let none = 0 as real;
            &&& t.vars[Name::OutPosition] == (if e.vars[Name::PosFixup].z != none {
                vec4(place.x, place.y, clamped(place.z, none, place.w), place.w)
            } else {
                place
            })
            &&& t.vars[Name::OutFog] == (if k.fog_mode == 4 && k.flags.has_color1 {
                vec4(e.vars[Name::Attribute(3)].w, none, none, none)
            } else {
                vec4(1 as real, 1 as real, 1 as real, 1 as real)
            })
            &&& t.vars[Name::OutFogZ].x == divided(place.z, place.w)
            &&& forall|n: Name|
                !(n is OutPosition || n is OutFog || n is OutFogZ) ==> #[trigger] t.vars[n]
                    == e.vars[n]
        }),
{
    let f = run(pixel_fog(k), w, e);
    reveal_with_fuel(eval, 7);
    assert(f.vars[Name::OutPosition] == place);
    let g = run(fog_depth(), w, f);
    assert(g.vars[Name::OutPosition] == place);
    assert(g.vars[Name::PosFixup] == e.vars[Name::PosFixup]);
}

#[verifier::rlimit(40)]
proof fn pixel_runs(k: FfVsKey, w: World, s: State)
    requires
        k.tex_coord_count <= 8,
        typed(s.vars),
    ensures
        hands_on_pixel(k, w, s.vars, run(pixel_program(k), w, s)),
{
    pixel_placed(w, s);
    let a = run(q1(), w, s);
    assert(typed(a.vars));
    point_size_runs(k, false, w, a);
    let b = run(point_size_program(k, false), w, a);
    assert(run(q2(k), w, s) == b);
    assert(typed(b.vars));
    colors_run(k, w, b);
    let c = run(colors_program(k), w, b);
    assert(run(q3(k), w, s) == c);
    assert(typed(c.vars));
    points_run(k, w, c);
    let d = run(points_program(k), w, c);
    assert(run(q4(k), w, s) == d);
    zeros_run(k.tex_coord_count as nat, w, d);
    let e = run(zeros_program(k.tex_coord_count as nat), w, d);
    assert(run(q5(k), w, s) == e);
    let f = run(pixel_fog(k), w, e);
    assert(run(q6(k), w, s) == f);
    let g = run(fog_depth(), w, f);
    assert(run(q7(k), w, s) == g);
    let t = run(clamp_depth(), w, g);
    assert(run(pixel_program(k), w, s) == t);
    assert(e.vars[Name::OutPosition] == pixel_position(s.vars)) by {
        assert(e.vars[Name::OutPosition] == d.vars[Name::OutPosition]);
        assert(d.vars[Name::OutPosition] == c.vars[Name::OutPosition]);
        assert(c.vars[Name::OutPosition] == b.vars[Name::OutPosition]);
        assert(b.vars[Name::OutPosition] == a.vars[Name::OutPosition]);
    }
    assert(e.vars[Name::PosFixup] == s.vars[Name::PosFixup]) by {
        assert(e.vars[Name::PosFixup] == d.vars[Name::PosFixup]);
        assert(d.vars[Name::PosFixup] == c.vars[Name::PosFixup]);
        assert(c.vars[Name::PosFixup] == b.vars[Name::PosFixup]);
        assert(b.vars[Name::PosFixup] == a.vars[Name::PosFixup]);
    }
    assert(e.vars[Name::Attribute(3)] == s.vars[Name::Attribute(3)]) by {
        assert(e.vars[Name::Attribute(3)] == d.vars[Name::Attribute(3)]);
        assert(d.vars[Name::Attribute(3)] == c.vars[Name::Attribute(3)]);
        assert(c.vars[Name::Attribute(3)] == b.vars[Name::Attribute(3)]);
        assert(b.vars[Name::Attribute(3)] == a.vars[Name::Attribute(3)]);
    }
    assert(typed(d.vars));
    assert(typed(e.vars));
    pixel_ends(k, w, e, pixel_position(s.vars));
    assert(b.vars[Name::Attribute(2)] == s.vars[Name::Attribute(2)]) by {
        assert(b.vars[Name::Attribute(2)] == a.vars[Name::Attribute(2)]);
    }
    assert(b.vars[Name::Attribute(3)] == s.vars[Name::Attribute(3)]) by {
        assert(b.vars[Name::Attribute(3)] == a.vars[Name::Attribute(3)]);
    }
    assert forall|i: int| #[trigger] own_coord(k, i, c.vars) == own_coord(k, i, s.vars) by {
        let n = Name::Attribute((4 + source_set(k, i)) as nat);
        assert(c.vars[n] == b.vars[n]);
        assert(b.vars[n] == a.vars[n]);
    }
    assert(point_size(k, false, w.functions, a.vars, a.vars[Name::PosView]) == point_size(
        k,
        false,
        w.functions,
        s.vars,
        pixel_position(s.vars),
    )) by {
        assert(a.vars[Name::VertexSize] == s.vars[Name::VertexSize]);
        assert(a.vars[Name::DrawPoint] == s.vars[Name::DrawPoint]);
        assert(a.vars[Name::PosFixup] == s.vars[Name::PosFixup]);
    }
    assert(t.vars[Name::OutPointSize] == b.vars[Name::OutPointSize]) by {
        assert(e.vars[Name::OutPointSize] == d.vars[Name::OutPointSize]);
        assert(d.vars[Name::OutPointSize] == c.vars[Name::OutPointSize]);
        assert(c.vars[Name::OutPointSize] == b.vars[Name::OutPointSize]);
    }
    assert(t.vars[Name::OutColor(0)] == c.vars[Name::OutColor(0)]) by {
        assert(e.vars[Name::OutColor(0)] == d.vars[Name::OutColor(0)]);
        assert(d.vars[Name::OutColor(0)] == c.vars[Name::OutColor(0)]);
    }
    assert(t.vars[Name::OutColor(1)] == c.vars[Name::OutColor(1)]) by {
        assert(e.vars[Name::OutColor(1)] == d.vars[Name::OutColor(1)]);
        assert(d.vars[Name::OutColor(1)] == c.vars[Name::OutColor(1)]);
    }
    assert forall|j: nat| #[trigger] t.vars[Name::OutTexcoord(j)]
        == e.vars[Name::OutTexcoord(j)] by {}
    assert forall|j: nat| j < k.tex_coord_count implies #[trigger] t.vars[Name::OutTexcoord(j)]
        == handed_on_as_point(k, j as int, s.vars) by {
        assert(e.vars[Name::OutTexcoord(j)] == d.vars[Name::OutTexcoord(j)]);
        assert(own_coord(k, j as int, c.vars) == own_coord(k, j as int, s.vars));
    }
}

/// The shader of vertices that are already transformed hands on, of what it is given: the
/// place of its pixel, a point size, its colours, its coordinates as points, fog and depth.
pub proof fn transformed_vertices_are_handed_on(k: FfVsKey, entry: Seq<char>)
    requires
        emittable(k),
        k.flags.has_rhw,
    ensures
        exists|p: Stmt, body: Seq<char>| #[trigger]
            is_body(body, p) && emit_vs_text(k, entry) == vs_head_text(entry) + body && (forall|
                w: World,
                s: State,
            |
                typed(s.vars) ==> hands_on_pixel(k, w, s.vars, #[trigger] run(p, w, s))),
{
    pixel_spelled(k);
    let p = pixel_program(k);
    let body = vs_rhw_text(k);
    assert(emit_vs_text(k, entry) =~= vs_head_text(entry) + body);
    assert(is_body(body, p));
    assert forall|w: World, s: State| typed(s.vars) implies hands_on_pixel(
        k,
        w,
        s.vars,
        #[trigger] run(p, w, s),
    ) by {
        pixel_runs(k, w, s);
    }
}

} // verus!
