//! What a pixel shader reads from textures, and what it makes of a pixel.

use super::ff::{active_stages, FfPsKey, FfStage};
use super::ff_ps::{
    alpha_condition, alpha_test_text, alpha_tested, emit_ps_text, masked_return_text, ps_args_text,
    ps_head_text, stage_combine_text, stage_sample_text, stage_text, stage_uv_text, stages_text,
};
use super::ps_meaning::{combine_program, combine_runs, combine_spelled, half_stage};
use super::ps_sample_text::{
    add_specular, add_specular_spelled, always, always_spelled, differs, differs_spelled,
    divided_three, divided_three_spelled, divided_two, divided_two_spelled, flat_three,
    flat_three_spelled, flat_two, flat_two_spelled, is_at_least, is_at_least_spelled, is_at_most,
    is_at_most_spelled, is_equal, is_equal_spelled, is_greater, is_greater_spelled, is_less,
    is_less_spelled, keep_if, keep_if_spelled, let_biased_texel, let_biased_texel_spelled,
    let_comparison, let_comparison_spelled, let_depth, let_depth_spelled, let_texel,
    let_texel_spelled, never, never_spelled, set_target, set_target_spelled, start_colour,
    start_colour_spelled,
};
use super::shading::{
    all, all_spelled, assigned, both, both_spelled, clamped, eval, level, listed, only_if,
    only_if_spelled, over, regrouped, run, scalar, spells, spells_value, vec3, vec4, Expr, Name,
    State, Stmt, Value, World,
};
use super::variant::{SharedText, VariantKey};
use crate::bits::{bit16, bit8};
use crate::text::{dec, given};
use vstd::prelude::*;

verus! {

/// Whether what a pixel shader is given has the size that it is declared with.
pub open spec fn typed_pixel(vars: Map<Name, Value>) -> bool {
    forall|i: nat| (#[trigger] vars[Name::InTexcoord(i)]).n == 4
}

/// The components of a coordinate that a texture is read at: three for a solid one.
pub open spec fn taken(v: Value, solid: bool) -> Value {
    if solid {
        vec3(v.x, v.y, v.z)
    } else {
        Value { n: 2, x: v.x, y: v.y, z: 0 as real, w: 0 as real }
    }
}

/// The coordinate of stage `i`, divided by its last component where it is projected; zero
/// where that cannot be.
pub open spec fn read_at(projected: bool, solid: bool, i: nat, vars: Map<Name, Value>) -> Value {
    let v = vars[Name::InTexcoord(i)];
    if !projected {
        taken(v, solid)
    } else if v.w != 0 as real {
        over(taken(v, solid), scalar(v.w))
    } else {
        let none = 0 as real;
        taken(vec4(none, none, none, none), solid)
    }
}

/// What stage `i` reads from its own texture through its own sampler: depth as a value,
/// depth compared with the third component of the coordinate, or a colour.
pub open spec fn read_texel(
    k: FfPsKey,
    v: VariantKey,
    i: nat,
    w: World,
    vars: Map<Name, Value>,
) -> Value {
    let projected = bit8(k.tt_projected_mask, i as int);
    let solid = bit16(v.volume_sampler_mask, i as int) || bit16(v.cube_sampler_mask, i as int);
    let c = vars[Name::InTexcoord(i)];
    if bit16(v.depth_fetch_mask, i as int) {
        let d = (w.depths)(i, i, read_at(projected, false, i, vars));
        vec4(d, d, d, d)
    } else if bit16(v.depth_sampler_mask, i as int) {
        let d = (w.comparisons)(
            i,
            i,
            listed(taken(c, false), scalar(clamped(c.z, 0 as real, 1 as real))),
        );
        vec4(d, d, d, d)
    } else {
        (w.colours)(
            i,
            i,
            read_at(projected, solid, i, vars),
            if v.flags.lod_bias {
                vars[Name::LodBias(i)].x
            } else {
                0 as real
            },
        )
    }
}

spec fn at_expr(projected: bool, solid: bool, i: nat) -> Expr {
    if projected {
        if solid {
            divided_three(i)
        } else {
            divided_two(i)
        }
    } else if solid {
        flat_three(i)
    } else {
        flat_two(i)
    }
}

spec fn components(solid: bool) -> Seq<char> {
    if solid {
        "xyz"@
    } else {
        "xy"@
    }
}

spec fn zeros(solid: bool) -> Seq<char> {
    if solid {
        "float3(0.0)"@
    } else {
        "float2(0.0)"@
    }
}

#[verifier::rlimit(40)]
proof fn at_spelled(projected: bool, solid: bool, i: nat)
    ensures
        spells_value(
            stage_uv_text(projected, i as int, components(solid), zeros(solid)),
            at_expr(projected, solid, i),
        ),
        level(at_expr(projected, solid, i)) == 7,
{
    flat_two_spelled(i);
    flat_three_spelled(i);
    divided_two_spelled(i);
    divided_three_spelled(i);
    let sw = components(solid);
    let z = zeros(solid);
    let none = Seq::<char>::empty();
    if projected {
        let a = none + "(in.texcoord"@ + dec(i) + ".w != 0.0 ? "@;
        let b = none + " / in.texcoord"@ + dec(i) + ".w : "@ + z + ")"@;
        assert(none + a + "in.texcoord"@ + dec(i) + "."@ + sw + b =~= "(in.texcoord"@ + dec(i)
            + ".w != 0.0 ? "@ + "in.texcoord"@ + dec(i) + "."@ + sw + " / in.texcoord"@ + dec(i)
            + ".w : "@ + z + ")"@);
    } else {
        assert(none + none + "in.texcoord"@ + dec(i) + "."@ + sw + none =~= "in.texcoord"@ + dec(i)
            + "."@ + sw);
    }
}

proof fn at_means(projected: bool, solid: bool, i: nat, w: World, s: State)
    requires
        typed_pixel(s.vars),
    ensures
        eval(at_expr(projected, solid, i), w, s) == read_at(projected, solid, i, s.vars),
{
    reveal_with_fuel(eval, 7);
}

spec fn read_program(k: FfPsKey, v: VariantKey, i: nat) -> Stmt {
    let projected = bit8(k.tt_projected_mask, i as int);
    let solid = bit16(v.volume_sampler_mask, i as int) || bit16(v.cube_sampler_mask, i as int);
    if bit16(v.depth_fetch_mask, i as int) {
        let_depth(i, at_expr(projected, false, i))
    } else if bit16(v.depth_sampler_mask, i as int) {
        let_comparison(i)
    } else if v.flags.lod_bias {
        let_biased_texel(i, at_expr(projected, solid, i))
    } else {
        let_texel(i, at_expr(projected, solid, i))
    }
}

#[verifier::rlimit(40)]
proof fn read_spelled(k: FfPsKey, v: VariantKey, i: nat)
    ensures
        spells(stage_sample_text(k, v, i as int), read_program(k, v, i), 1),
{
    let projected = bit8(k.tt_projected_mask, i as int);
    let solid = bit16(v.volume_sampler_mask, i as int) || bit16(v.cube_sampler_mask, i as int);
    let e = at_expr(projected, solid, i);
    let c = stage_uv_text(projected, i as int, components(solid), zeros(solid));
    at_spelled(projected, false, i);
    at_spelled(projected, solid, i);
    let_depth_spelled(i, at_expr(projected, false, i));
    let_comparison_spelled(i);
    let_biased_texel_spelled(i, e);
    let_texel_spelled(i, e);
    let none = Seq::<char>::empty();
    let head = none + "    float4 t"@ + dec(i) + " = s"@ + dec(i) + ".sample(samp"@ + dec(i)
        + ", "@;
    let bias = none + ", bias(lod_bias["@ + dec(i) + "].x)"@;
    let end = ");\n"@;
    assert(head + c + none + none + end =~= head + c + end);
    assert(head + none + c + none + end =~= head + c + end);
    assert(head + c + none + bias + end =~= head + c + ", bias(lod_bias["@ + dec(i) + "].x)"@ + end);
    assert(head + none + c + bias + end =~= head + c + ", bias(lod_bias["@ + dec(i) + "].x)"@ + end);
}

proof fn read_runs(k: FfPsKey, v: VariantKey, i: nat, w: World, s: State)
    requires
        typed_pixel(s.vars),
    ensures
        run(read_program(k, v, i), w, s) == assigned(
            s,
            Name::Texel(i),
            read_texel(k, v, i, w, s.vars),
        ),
{
    let projected = bit8(k.tt_projected_mask, i as int);
    let solid = bit16(v.volume_sampler_mask, i as int) || bit16(v.cube_sampler_mask, i as int);
    at_means(projected, false, i, w, s);
    at_means(projected, solid, i, w, s);
    reveal_with_fuel(eval, 6);
}

/// A stage reads its own texture, through its own sampler, at its own coordinate, as a
/// colour, as depth or as a comparison, and changes nothing else.
pub proof fn stages_read_their_texture(k: FfPsKey, v: VariantKey, i: nat)
    ensures
        exists|p: Stmt| #[trigger]
            spells(stage_sample_text(k, v, i as int), p, 1) && (forall|w: World, s: State|
                typed_pixel(s.vars) ==> #[trigger] run(p, w, s) == assigned(
                    s,
                    Name::Texel(i),
                    read_texel(k, v, i, w, s.vars),
                )),
{
    read_spelled(k, v, i);
    let p = read_program(k, v, i);
    assert(spells(stage_sample_text(k, v, i as int), p, 1));
    assert forall|w: World, s: State| typed_pixel(s.vars) implies #[trigger] run(p, w, s)
        == assigned(s, Name::Texel(i), read_texel(k, v, i, w, s.vars)) by {
        read_runs(k, v, i, w, s);
    }
}

/// The colour that a stage makes of the colour before it.
pub open spec fn stage_colour(f: FfStage, i: nat, s: State) -> Value {
    vec4(
        half_stage(f.color_op, f.color_arg1, f.color_arg2, i, f.has_texture, s, 0),
        half_stage(f.color_op, f.color_arg1, f.color_arg2, i, f.has_texture, s, 1),
        half_stage(f.color_op, f.color_arg1, f.color_arg2, i, f.has_texture, s, 2),
        half_stage(f.alpha_op, f.alpha_arg1, f.alpha_arg2, i, f.has_texture, s, 3),
    )
}

/// The state behind the first `m` stages: each reads its texture where it has one, and then
/// combines.
pub open spec fn behind_stages(k: FfPsKey, v: VariantKey, m: nat, w: World, s: State) -> State
    decreases m,
{
    if m == 0 {
        s
    } else {
        let i = (m - 1) as nat;
        let a = behind_stages(k, v, i, w, s);
        let f = k.stages@[i as int];
        let b = if f.has_texture {
            assigned(a, Name::Texel(i), read_texel(k, v, i, w, a.vars))
        } else {
            a
        };
        assigned(b, Name::Current, stage_colour(f, i, b))
    }
}

spec fn stage_program(k: FfPsKey, v: VariantKey, i: nat) -> Stmt {
    both(
        only_if(k.stages@[i as int].has_texture, read_program(k, v, i)),
        combine_program(k.stages@[i as int], i),
    )
}

proof fn stage_spelled(k: FfPsKey, v: VariantKey, i: nat)
    ensures
        spells(stage_text(k, v, i as int), stage_program(k, v, i), 1),
{
    let f = k.stages@[i as int];
    read_spelled(k, v, i);
    combine_spelled(f, i);
    only_if_spelled(f.has_texture, stage_sample_text(k, v, i as int), read_program(k, v, i), 1);
    both_spelled(
        given(f.has_texture, stage_sample_text(k, v, i as int)),
        only_if(f.has_texture, read_program(k, v, i)),
        stage_combine_text(f, i as int),
        combine_program(f, i),
        1,
    );
}

spec fn stages_program(k: FfPsKey, v: VariantKey) -> Stmt {
    all(active_stages(k.stages@) as nat, |i: int| stage_program(k, v, i as nat))
}

proof fn stages_spelled(k: FfPsKey, v: VariantKey)
    ensures
        spells(stages_text(k, v), stages_program(k, v), 1),
{
    let f = |i: int| stage_text(k, v, i);
    let p = |i: int| stage_program(k, v, i as nat);
    let n = active_stages(k.stages@) as nat;
    assert forall|i: int| 0 <= i < n implies spells(#[trigger] f(i), p(i), 1) by {
        stage_spelled(k, v, i as nat);
    }
    all_spelled(n, f, p, 1);
}

proof fn coordinates_stay(k: FfPsKey, v: VariantKey, m: nat, w: World, s: State)
    requires
        typed_pixel(s.vars),
    ensures
        typed_pixel(behind_stages(k, v, m, w, s).vars),
    decreases m,
{
    if m > 0 {
        coordinates_stay(k, v, (m - 1) as nat, w, s);
    }
}

proof fn stages_run(k: FfPsKey, v: VariantKey, m: nat, w: World, s: State)
    requires
        typed_pixel(s.vars),
    ensures
        run(all(m, |i: int| stage_program(k, v, i as nat)), w, s) == behind_stages(k, v, m, w, s),
    decreases m,
{
    let p = |i: int| stage_program(k, v, i as nat);
    if m > 0 {
        let i = (m - 1) as nat;
        let f = k.stages@[i as int];
        stages_run(k, v, i, w, s);
        coordinates_stay(k, v, i, w, s);
        let a = behind_stages(k, v, i, w, s);
        read_runs(k, v, i, w, a);
        let b = run(only_if(f.has_texture, read_program(k, v, i)), w, a);
        combine_runs(f, i, w, b);
        assert(p(m - 1) == stage_program(k, v, i));
        assert(run(stage_program(k, v, i), w, a) == run(combine_program(f, i), w, b));
        assert(run(all(m, p), w, s) == run(stage_program(k, v, i), w, a));
    }
}

/// The colour of a pixel before fog: that of the stages, starting from the diffuse colour,
/// with the specular colour on top where that is asked for.
pub open spec fn pixel_colour(k: FfPsKey, v: VariantKey, w: World, s: State) -> Value {
    let t = behind_stages(
        k,
        v,
        active_stages(k.stages@) as nat,
        w,
        assigned(s, Name::Current, s.vars[Name::InColor(0)]),
    );
    let c = t.vars[Name::Current];
    let add = t.vars[Name::InColor(1)];
    if k.specular_add {
        vec4(
            clamped(c.x + add.x, 0 as real, 1 as real),
            clamped(c.y + add.y, 0 as real, 1 as real),
            clamped(c.z + add.z, 0 as real, 1 as real),
            c.w,
        )
    } else {
        c
    }
}

spec fn colour_program(k: FfPsKey, v: VariantKey) -> Stmt {
    both(
        both(
            both(start_colour(), stages_program(k, v)),
            only_if(k.specular_add, add_specular()),
        ),
        set_target(),
    )
}

/// Between its prologue and its fog a pixel shader computes the colour of the pixel from its
/// stages and hands it on.
pub proof fn pixels_get_their_colour(
    k: FfPsKey,
    v: VariantKey,
    shared: SharedText,
    entry: Seq<char>,
)
    ensures
        exists|p: Stmt, text: Seq<char>, rest: Seq<char>| #[trigger]
            spells(text, p, 1) && emit_ps_text(k, v, shared, entry) == #[trigger] (ps_head_text(
                v,
                entry,
            ) + ps_args_text(k, v) + given(v.flags.point_sprite, shared.point_sprite_prologue@)
                + text + shared.fog_blend@ + rest) && (forall|w: World, s: State|
                typed_pixel(s.vars) ==> #[trigger] run(p, w, s).vars[Name::Target] == pixel_colour(
                    k,
                    v,
                    w,
                    s,
                )),
{
    let a = "    float4 current = in.color0;\n"@;
    let b = stages_text(k, v);
    let c = given(
        k.specular_add,
        "    current = float4(saturate(current.rgb + in.color1.rgb), current.a);\n"@,
    );
    let d = "    float4 oC0 = current;\n"@;
    start_colour_spelled();
    stages_spelled(k, v);
    add_specular_spelled();
    set_target_spelled();
    let p1 = both(start_colour(), stages_program(k, v));
    let p2 = both(p1, only_if(k.specular_add, add_specular()));
    let p = colour_program(k, v);
    both_spelled(a, start_colour(), b, stages_program(k, v), 1);
    both_spelled(a + b, p1, c, only_if(k.specular_add, add_specular()), 1);
    both_spelled(a + b + c, p2, d, set_target(), 1);
    let text = a + b + c + d;
    let none = Seq::<char>::empty();
    let e = given(alpha_tested(v), alpha_test_text(v.alpha_func as u32));
    let f = given(v.flags.srgb_write, "    oC0.rgb = mtld3d_linear_to_srgb(oC0.rgb);\n"@);
    let g = given(v.flags.sample_mask, masked_return_text(v.sample_mask));
    let h = given(!v.flags.sample_mask, "    return oC0;\n"@);
    let z = "}\n"@;
    let rest = e + f + g + h + z;
    let x = ps_head_text(v, entry);
    let y = ps_args_text(k, v);
    let q = given(v.flags.point_sprite, shared.point_sprite_prologue@);
    let fog = shared.fog_blend@;
    pieces_line_up(x, y, q, a, b, c, d, fog, e, f, g, h, z);
    assert(emit_ps_text(k, v, shared, entry) == x + y + q + text + fog + rest);
    assert(spells(text, p, 1));
    assert forall|w: World, s: State| typed_pixel(s.vars) implies #[trigger] run(p, w, s).vars[
        Name::Target
    ] == pixel_colour(k, v, w, s) by {
        colour_runs(k, v, w, s);
    }
}

proof fn pieces_line_up(
    x: Seq<char>,
    y: Seq<char>,
    q: Seq<char>,
    a: Seq<char>,
    b: Seq<char>,
    c: Seq<char>,
    d: Seq<char>,
    m: Seq<char>,
    e: Seq<char>,
    f: Seq<char>,
    g: Seq<char>,
    h: Seq<char>,
    z: Seq<char>,
)
    ensures
        ({
            let none = Seq::<char>::empty();
            none + x + y + q + a + b + (none + c + d + m + e + f + g + h + z) == x + y + q + (a + b
                + c + d) + m + (e + f + g + h + z)
        }),
{
    let none = Seq::<char>::empty();
    assert(none + x =~= x);
    assert(none + c =~= c);
    let t = x + y + q;
    regrouped(t, a + b + c, d);
    regrouped(t, a + b, c);
    regrouped(t, a, b);
    let u = t + a + b;
    regrouped(u, c + d + m + e + f + g + h, z);
    regrouped(u, c + d + m + e + f + g, h);
    regrouped(u, c + d + m + e + f, g);
    regrouped(u, c + d + m + e, f);
    regrouped(u, c + d + m, e);
    regrouped(u, c + d, m);
    regrouped(u, c, d);
    let o = u + c + d + m;
    regrouped(o, e + f + g + h, z);
    regrouped(o, e + f + g, h);
    regrouped(o, e + f, g);
    regrouped(o, e, f);
}

proof fn colour_runs(k: FfPsKey, v: VariantKey, w: World, s: State)
    requires
        typed_pixel(s.vars),
    ensures
        run(colour_program(k, v), w, s).vars[Name::Target] == pixel_colour(k, v, w, s),
{
    let a = run(start_colour(), w, s);
    assert(a == assigned(s, Name::Current, s.vars[Name::InColor(0)]));
    assert(typed_pixel(a.vars));
    stages_run(k, v, active_stages(k.stages@) as nat, w, a);
    let b = run(stages_program(k, v), w, a);
    let c = run(only_if(k.specular_add, add_specular()), w, b);
    let d = run(set_target(), w, c);
    assert(run(colour_program(k, v), w, s) == d) by {
        reveal_with_fuel(run, 5);
    }
    reveal_with_fuel(eval, 7);
}

/// Whether an alpha passes the test with a code: never, below, at, up to, above, apart from,
/// from the reference on; any other code passes all.
pub open spec fn passes(code: u32, alpha: real, reference: real) -> bool {
    if code == 1 {
        false
    } else if code == 2 {
        alpha < reference
    } else if code == 3 {
        alpha == reference
    } else if code == 4 {
        alpha <= reference
    } else if code == 5 {
        alpha > reference
    } else if code == 6 {
        alpha != reference
    } else if code == 7 {
        alpha >= reference
    } else {
        true
    }
}

spec fn passes_expr(code: u32) -> Expr {
    if code == 1 {
        never()
    } else if code == 2 {
        is_less()
    } else if code == 3 {
        is_equal()
    } else if code == 4 {
        is_at_most()
    } else if code == 5 {
        is_greater()
    } else if code == 6 {
        differs()
    } else if code == 7 {
        is_at_least()
    } else {
        always()
    }
}

/// The alpha test keeps exactly the pixels whose alpha passes, and changes nothing else.
pub proof fn alpha_tests_keep_what_passes(code: u32)
    ensures
        exists|p: Stmt| #[trigger]
            spells(alpha_test_text(code), p, 1) && (forall|w: World, s: State|
                {
                    let t = #[trigger] run(p, w, s);
                    &&& t.kept == (s.kept && passes(
                        code,
                        s.vars[Name::Target].w,
                        s.vars[Name::AlphaRef].x,
                    ))
                    &&& t.vars == s.vars
                }),
{
    never_spelled();
    always_spelled();
    is_less_spelled();
    is_equal_spelled();
    is_at_most_spelled();
    is_greater_spelled();
    differs_spelled();
    is_at_least_spelled();
    let e = passes_expr(code);
    assert(spells_value(alpha_condition(code), e) && level(e) >= 1);
    keep_if_spelled(e);
    let p = keep_if(e);
    assert(spells(alpha_test_text(code), p, 1));
    assert forall|w: World, s: State|
        {
            let t = #[trigger] run(p, w, s);
            &&& t.kept == (s.kept && passes(
                code,
                s.vars[Name::Target].w,
                s.vars[Name::AlphaRef].x,
            ))
            &&& t.vars == s.vars
        } by {
        reveal_with_fuel(eval, 4);
    }
}

} // verus!
