//! How the vertex shader lights a vertex.

use super::ff::FfVsKey;
use super::ff_vs::{
    light_cone_text, light_diffuse_text, light_directional_text, light_positional_text,
    light_specular_text, light_text, lights_text, lit_normal_text, lit_setup_text, mat_flags,
    resolve_mat_text, vs_lighting_text,
};
use super::shading::{
    absolute, all, all_spelled, block, both, both_spelled, clamped, cross4, divided, eval, level,
    magnitude, minus, most, multiplied, negated, nothing_spelled, number, only_if, only_if_spelled,
    over, plus, product, regrouped, run, saturated, scalar, show, spells, spells_value, times, unit,
    vec3, vec4, with_part, Component, Expr, Functions, Name, Number, State, Stmt, Value, World,
};
use super::vs_light_text::{
    by_inverse, by_inverse_spelled, by_transpose, by_transpose_spelled, cone, cone_spelled, cut_off,
    cut_off_spelled, diffuse_of_vertex, diffuse_of_vertex_spelled, grow_ambient,
    grow_ambient_spelled, grow_diffuse, grow_diffuse_spelled, grow_highlights,
    grow_highlights_spelled, inverse_line, let_attenuation, let_attenuation_spelled, let_diffuse,
    let_diffuse_spelled, let_dist, let_dist_spelled, let_factors, let_factors_spelled, let_halfway,
    let_halfway_spelled, let_highlight, let_highlight_spelled, let_light, let_light_spelled,
    let_lit, let_lit_spelled, let_nadj0, let_nadj0_spelled, let_nadj1, let_nadj1_spelled, let_nadj2,
    let_nadj2_spelled, let_ndoth, let_ndoth_spelled, let_ndotl, let_ndotl_spelled, let_normal,
    let_normal_spelled, let_nwvdet, let_nwvdet_spelled, let_power, let_power_spelled, let_rho,
    let_rho_spelled, let_to_light, let_to_light_spelled, light_ahead, light_ahead_spelled,
    no_attenuation, no_attenuation_spelled, no_highlights, no_highlights_spelled, set_alpha,
    set_alpha_spelled, set_highlights, set_highlights_spelled, set_lit, set_lit_spelled,
    specular_of_vertex, specular_of_vertex_spelled, transpose_line, unit_normal,
    unit_normal_spelled, viewer_far, viewer_far_spelled, viewer_near, viewer_near_spelled,
};
use super::vs_position::{block_spelled, direction, moved, typed};
use super::vs_text::{
    eye_of_rows, eye_of_rows_spelled, eye_of_view, eye_of_view_spelled, normal_of_blend,
    normal_of_blend_spelled,
};
use crate::bits::bit8;
use crate::text::{dec, given};
use vstd::prelude::*;

verus! {

/// A colour of the material: the first or second colour of the vertex where its source says
/// so and the vertex has it, else the constant in row `slot`.
pub open spec fn material(k: FfVsKey, source: u8, slot: nat, vars: Map<Name, Value>) -> Value {
    if k.flags.color_vertex && source == 1 && k.flags.has_color0 {
        vars[Name::Attribute(2)]
    } else if k.flags.color_vertex && source == 2 && k.flags.has_color1 {
        vars[Name::Attribute(3)]
    } else {
        vars[Name::Row(slot)]
    }
}

pub open spec fn row(vars: Map<Name, Value>, i: int) -> Value {
    vars[Name::Row(i as nat)]
}

/// Where the rows of the light in slot `i` start.
pub open spec fn light_base(i: int) -> int {
    15 + 6 * i
}

pub open spec fn tiny() -> real {
    number(Number::Tiny)
}

/// From the vertex to the light in slot `i`.
pub open spec fn towards(i: int, vars: Map<Name, Value>) -> Value {
    minus(direction(row(vars, light_base(i))), vars[Name::PosEye])
}

pub open spec fn distance(i: int, f: Functions, vars: Map<Name, Value>) -> real {
    magnitude(towards(i, vars), f)
}

/// The direction to the light in slot `i`: against the direction of a directional light,
/// towards the place of another.
pub open spec fn light_direction(
    k: FfVsKey,
    i: int,
    f: Functions,
    vars: Map<Name, Value>,
) -> Value {
    if bit8(k.light_directional_mask, i) {
        negated(direction(row(vars, light_base(i) + 1)))
    } else {
        over(towards(i, vars), scalar(most(distance(i, f, vars), tiny())))
    }
}

/// How much of the light in slot `i` arrives: all of a directional light; of another what
/// its attenuation leaves within its range; of a spot light what is left in its cone.
pub open spec fn strength(k: FfVsKey, i: int, f: Functions, vars: Map<Name, Value>) -> real {
    if bit8(k.light_directional_mask, i) {
        1 as real
    } else {
        let d = distance(i, f, vars);
        let by = row(vars, light_base(i) + 4);
        let near = multiplied(
            divided(
                1 as real,
                most(
                    by.x + multiplied(by.y, d) + multiplied(multiplied(by.z, d), d),
                    tiny(),
                ),
            ),
            if by.w >= d {
                1 as real
            } else {
                0 as real
            },
        );
        if bit8(k.light_spot_mask, i) {
            let to = row(vars, light_base(i) + 1);
            let rho = product(negated(light_direction(k, i, f, vars)), direction(to));
            let inside = clamped(
                multiplied(rho, row(vars, light_base(i) + 5).w) + row(vars, light_base(i) + 3).w,
                0 as real,
                1 as real,
            );
            multiplied(near, (f.pow)(inside, to.w))
        } else {
            near
        }
    }
}

/// How directly the light in slot `i` meets the surface.
pub open spec fn incidence(k: FfVsKey, i: int, f: Functions, vars: Map<Name, Value>) -> real {
    clamped(
        product(vars[Name::Normal], light_direction(k, i, f, vars)),
        0 as real,
        1 as real,
    )
}

/// The diffuse and ambient colour with what the light in slot `i` adds: its diffuse colour by
/// that of the material, by incidence, and its ambient colour by that of the material.
pub open spec fn lit_by(
    k: FfVsKey,
    i: int,
    f: Functions,
    vars: Map<Name, Value>,
    before: Value,
) -> Value {
    let arrives = scalar(strength(k, i, f, vars));
    let diffuse = material(k, k.diffuse_source, 10, vars);
    let ambient = material(k, k.ambient_source, 11, vars);
    let faced = if k.flags.has_normal {
        plus(
            before,
            times(
                times(arrives, scalar(incidence(k, i, f, vars))),
                times(row(vars, light_base(i) + 2), diffuse),
            ),
        )
    } else {
        before
    };
    plus(faced, times(arrives, times(row(vars, light_base(i) + 3), ambient)))
}

/// Whether highlights are computed.
pub open spec fn has_highlights(k: FfVsKey) -> bool {
    k.flags.has_normal && k.flags.specular_enable
}

/// The highlights with that of the light in slot `i`: its specular colour by that of the
/// material, as far as the surface faces the light and mirrors it to the viewer.
pub open spec fn highlit_by(
    k: FfVsKey,
    i: int,
    f: Functions,
    vars: Map<Name, Value>,
    before: Value,
) -> Value {
    let h = unit(plus(light_direction(k, i, f, vars), vars[Name::ToViewer]), f);
    let mirrored = if incidence(k, i, f, vars) > 0 as real {
        (f.pow)(most(0 as real, product(vars[Name::Normal], h)), vars[Name::MatPower].x)
    } else {
        0 as real
    };
    if has_highlights(k) {
        plus(
            before,
            times(
                times(scalar(strength(k, i, f, vars)), scalar(mirrored)),
                times(
                    direction(row(vars, light_base(i) + 5)),
                    direction(material(k, k.specular_source, 12, vars)),
                ),
            ),
        )
    } else {
        before
    }
}

/// The diffuse and ambient colour by the first `m` light slots, starting from what the
/// material emits and what it reflects of the ambient light everywhere.
pub open spec fn diffuse_sum(k: FfVsKey, m: nat, f: Functions, vars: Map<Name, Value>) -> Value
    decreases m,
{
    if m == 0 {
        plus(
            material(k, k.emissive_source, 13, vars),
            times(row(vars, 9), material(k, k.ambient_source, 11, vars)),
        )
    } else {
        let before = diffuse_sum(k, (m - 1) as nat, f, vars);
        if bit8(k.light_active_mask, m - 1) {
            lit_by(k, m - 1, f, vars, before)
        } else {
            before
        }
    }
}

/// The highlights by the first `m` light slots.
pub open spec fn highlight_sum(k: FfVsKey, m: nat, f: Functions, vars: Map<Name, Value>) -> Value
    decreases m,
{
    if m == 0 {
        vec3(0 as real, 0 as real, 0 as real)
    } else {
        let before = highlight_sum(k, (m - 1) as nat, f, vars);
        if bit8(k.light_active_mask, m - 1) {
            highlit_by(k, m - 1, f, vars, before)
        } else {
            before
        }
    }
}

/// The normal seen from the eye: by the inverse transpose of rows 0 to 2 where they have an
/// inverse, else by their transpose; of length one where that is asked for.
pub open spec fn row_normal(k: FfVsKey, f: Functions, vars: Map<Name, Value>) -> Value {
    let a = negated(cross4(row(vars, 1), row(vars, 2), row(vars, 3)));
    let b = cross4(row(vars, 2), row(vars, 3), row(vars, 0));
    let c = negated(cross4(row(vars, 3), row(vars, 0), row(vars, 1)));
    let det = product(a, row(vars, 0));
    let v = direction(vars[Name::Attribute(1)]);
    let x = row(vars, 0);
    let y = row(vars, 1);
    let z = row(vars, 2);
    let n = if absolute(det) > number(Number::Small) {
        over(
            vec3(product(direction(a), v), product(direction(b), v), product(direction(c), v)),
            scalar(det),
        )
    } else {
        vec3(
            product(vec3(x.x, y.x, z.x), v),
            product(vec3(x.y, y.y, z.y), v),
            product(vec3(x.z, y.z, z.z), v),
        )
    };
    if k.flags.normalize_normals {
        unit(n, f)
    } else {
        n
    }
}

/// The direction to the viewer: to the eye, or along the view where that is enough.
pub open spec fn viewer(k: FfVsKey, f: Functions, eye: Value) -> Value {
    if k.flags.local_viewer {
        unit(negated(eye), f)
    } else {
        vec3(0 as real, 0 as real, -(1 as real))
    }
}

spec fn material_expr(k: FfVsKey, source: u8, slot: nat) -> Expr {
    if k.flags.color_vertex && source == 1 && k.flags.has_color0 {
        diffuse_of_vertex()
    } else if k.flags.color_vertex && source == 2 && k.flags.has_color1 {
        specular_of_vertex()
    } else {
        Expr::Var(Name::Row(slot))
    }
}

proof fn material_spelled(k: FfVsKey, source: u8, slot: nat)
    ensures
        spells_value(
            resolve_mat_text(source, slot as int, mat_flags(k)),
            material_expr(k, source, slot),
        ),
        level(material_expr(k, source, slot)) == 7,
{
    diffuse_of_vertex_spelled();
    specular_of_vertex_spelled();
}

proof fn material_means(k: FfVsKey, source: u8, slot: nat, w: World, s: State)
    ensures
        eval(material_expr(k, source, slot), w, s) == material(k, source, slot, s.vars),
{
}

// A light that comes from a direction or from a place.

spec fn ahead_program(base: nat) -> Stmt {
    both(light_ahead((base + 1) as nat), no_attenuation())
}

proof fn ahead_spelled(base: nat)
    ensures
        spells(light_directional_text(base as int), ahead_program(base), 2),
{
    light_ahead_spelled((base + 1) as nat);
    no_attenuation_spelled();
    both_spelled(
        Seq::<char>::empty() + "        float3 L = -vs_c["@ + dec((base + 1) as nat) + "].xyz;\n"@,
        light_ahead((base + 1) as nat),
        "        float atten = 1.0;\n"@,
        no_attenuation(),
        2,
    );
}

spec fn cone_program(base: nat) -> Stmt {
    both(
        let_rho((base + 1) as nat),
        cone((base + 5) as nat, (base + 3) as nat, (base + 1) as nat),
    )
}

proof fn cone_program_spelled(base: nat)
    ensures
        spells(light_cone_text(base as int), cone_program(base), 2),
{
    let r1 = (base + 1) as nat;
    let r3 = (base + 3) as nat;
    let r5 = (base + 5) as nat;
    let_rho_spelled(r1);
    cone_spelled(r5, r3, r1);
    let none = Seq::<char>::empty();
    let a = none + "        float rho = dot(-L, vs_c["@ + dec(r1) + "].xyz);\n"@;
    let p = "        atten *= pow(saturate(rho * vs_c["@;
    let b = none + p + dec(r5) + "].w + vs_c["@ + dec(r3) + "].w), vs_c["@ + dec(r1) + "].w);\n"@;
    both_spelled(a, let_rho(r1), b, cone(r5, r3, r1), 2);
    seven_behind(a, p, dec(r5), "].w + vs_c["@, dec(r3), "].w), vs_c["@, dec(r1), "].w);\n"@);
}

proof fn seven_behind(
    t: Seq<char>,
    a: Seq<char>,
    b: Seq<char>,
    c: Seq<char>,
    d: Seq<char>,
    e: Seq<char>,
    f: Seq<char>,
    g: Seq<char>,
)
    ensures
        t + a + b + c + d + e + f + g == t + (Seq::<char>::empty() + a + b + c + d + e + f + g),
{
    assert(Seq::<char>::empty() + a =~= a);
    regrouped(t, a + b + c + d + e + f, g);
    regrouped(t, a + b + c + d + e, f);
    regrouped(t, a + b + c + d, e);
    regrouped(t, a + b + c, d);
    regrouped(t, a + b, c);
    regrouped(t, a, b);
}

proof fn three_behind(t: Seq<char>, a: Seq<char>, b: Seq<char>, c: Seq<char>)
    ensures
        t + a + b + c == t + (Seq::<char>::empty() + a + b + c),
{
    assert(Seq::<char>::empty() + a =~= a);
    regrouped(t, a + b, c);
    regrouped(t, a, b);
}

proof fn five_pieces_behind(
    t: Seq<char>,
    a: Seq<char>,
    b: Seq<char>,
    c: Seq<char>,
    d: Seq<char>,
    e: Seq<char>,
)
    ensures
        t + a + b + c + d + e == t + (Seq::<char>::empty() + a + b + c + d + e),
{
    assert(Seq::<char>::empty() + a =~= a);
    regrouped(t, a + b + c + d, e);
    regrouped(t, a + b + c, d);
    regrouped(t, a + b, c);
    regrouped(t, a, b);
}

spec fn place_program(base: nat, spot: bool) -> Stmt {
    both(
        both(
            both(
                both(
                    both(both(let_to_light(base), let_dist()), let_light()),
                    let_factors((base + 4) as nat),
                ),
                let_attenuation(),
            ),
            cut_off(),
        ),
        only_if(spot, cone_program(base)),
    )
}

proof fn place_spelled(base: nat, spot: bool)
    ensures
        spells(light_positional_text(base as int, spot), place_program(base, spot), 2),
{
    let r4 = (base + 4) as nat;
    let none = Seq::<char>::empty();
    let a = none + "        float3 toL = vs_c["@ + dec(base) + "].xyz - posEye;\n"@;
    let b = "        float dist = length(toL);\n"@;
    let c = "        float3 L = toL / max(dist, 1e-30);\n"@;
    let d = none + "        float4 atten_k = vs_c["@ + dec(r4) + "];\n"@;
    let e = "        float atten = 1.0 / max(atten_k.x + atten_k.y * dist + atten_k.z * dist * dist, 1e-30);\n"@;
    let f = "        atten *= step(dist, atten_k.w);\n"@;
    let g = given(spot, light_cone_text(base as int));
    let_to_light_spelled(base);
    let_dist_spelled();
    let_light_spelled();
    let_factors_spelled(r4);
    let_attenuation_spelled();
    cut_off_spelled();
    cone_program_spelled(base);
    only_if_spelled(spot, light_cone_text(base as int), cone_program(base), 2);
    let p1 = both(let_to_light(base), let_dist());
    let p2 = both(p1, let_light());
    let p3 = both(p2, let_factors(r4));
    let p4 = both(p3, let_attenuation());
    let p5 = both(p4, cut_off());
    both_spelled(a, let_to_light(base), b, let_dist(), 2);
    both_spelled(a + b, p1, c, let_light(), 2);
    both_spelled(a + b + c, p2, d, let_factors(r4), 2);
    both_spelled(a + b + c + d, p3, e, let_attenuation(), 2);
    both_spelled(a + b + c + d + e, p4, f, cut_off(), 2);
    both_spelled(a + b + c + d + e + f, p5, g, only_if(spot, cone_program(base)), 2);
    three_behind(a + b + c, "        float4 atten_k = vs_c["@, dec(r4), "];\n"@);
}

spec fn facing_program(k: FfVsKey, base: nat) -> Stmt {
    both(
        let_ndotl(),
        grow_diffuse((base + 2) as nat, material_expr(k, k.diffuse_source, 10)),
    )
}

proof fn facing_spelled(k: FfVsKey, base: nat)
    ensures
        spells(light_diffuse_text(k, base as int), facing_program(k, base), 2),
{
    let r2 = (base + 2) as nat;
    let m = material_expr(k, k.diffuse_source, 10);
    material_spelled(k, k.diffuse_source, 10);
    let_ndotl_spelled();
    grow_diffuse_spelled(r2, m);
    let none = Seq::<char>::empty();
    let a = "        float ndotl = clamp(dot(n, L), 0.0, 1.0);\n"@;
    let p = "        diffuseAccum += atten * ndotl * (vs_c["@;
    both_spelled(
        a,
        let_ndotl(),
        none + p + dec(r2) + "] * "@ + show(m) + ");\n"@,
        grow_diffuse(r2, m),
        2,
    );
    five_pieces_behind(a, p, dec(r2), "] * "@, show(m), ");\n"@);
    assert(none + a =~= a);
}

spec fn highlight_program(k: FfVsKey, base: nat) -> Stmt {
    both(
        both(both(let_halfway(), let_ndoth()), let_highlight()),
        grow_highlights((base + 5) as nat, material_expr(k, k.specular_source, 12)),
    )
}

proof fn highlight_spelled(k: FfVsKey, base: nat)
    ensures
        spells(light_specular_text(k, base as int), highlight_program(k, base), 2),
{
    let r5 = (base + 5) as nat;
    let m = material_expr(k, k.specular_source, 12);
    material_spelled(k, k.specular_source, 12);
    let_halfway_spelled();
    let_ndoth_spelled();
    let_highlight_spelled();
    grow_highlights_spelled(r5, m);
    let none = Seq::<char>::empty();
    let a = "        float3 H = normalize(L + V);\n"@;
    let b = "        float ndoth = max(0.0, dot(n, H));\n"@;
    let c = "        float specFactor = (ndotl > 0.0) ? pow(ndoth, mat_power) : 0.0;\n"@;
    let p = "        specAccum += atten * specFactor * (vs_c["@;
    let p1 = both(let_halfway(), let_ndoth());
    both_spelled(a, let_halfway(), b, let_ndoth(), 2);
    both_spelled(a + b, p1, c, let_highlight(), 2);
    both_spelled(
        a + b + c,
        both(p1, let_highlight()),
        none + p + dec(r5) + "].rgb * "@ + show(m) + ".rgb);\n"@,
        grow_highlights(r5, m),
        2,
    );
    five_pieces_behind(a + b + c, p, dec(r5), "].rgb * "@, show(m), ".rgb);\n"@);
    assert(none + a =~= a);
}

spec fn source_program(k: FfVsKey, i: int) -> Stmt {
    let base = light_base(i) as nat;
    both(
        only_if(bit8(k.light_directional_mask, i), ahead_program(base)),
        only_if(
            !bit8(k.light_directional_mask, i),
            place_program(base, bit8(k.light_spot_mask, i)),
        ),
    )
}

spec fn effect_program(k: FfVsKey, i: int) -> Stmt {
    let base = light_base(i) as nat;
    both(
        both(
            only_if(k.flags.has_normal, facing_program(k, base)),
            grow_ambient((base + 3) as nat, material_expr(k, k.ambient_source, 11)),
        ),
        only_if(has_highlights(k), highlight_program(k, base)),
    )
}

spec fn light_program(k: FfVsKey, i: int) -> Stmt {
    block(both(source_program(k, i), effect_program(k, i)))
}

#[verifier::rlimit(40)]
proof fn light_spelled(k: FfVsKey, i: int)
    requires
        0 <= i,
    ensures
        spells(light_text(k, i), light_program(k, i), 1),
{
    let base = light_base(i) as nat;
    let r3 = (base + 3) as nat;
    let none = Seq::<char>::empty();
    let ahead = bit8(k.light_directional_mask, i);
    let spot = bit8(k.light_spot_mask, i);
    let m = material_expr(k, k.ambient_source, 11);
    assert(15 + i * 6 == base as int);
    ahead_spelled(base);
    place_spelled(base, spot);
    facing_spelled(k, base);
    highlight_spelled(k, base);
    material_spelled(k, k.ambient_source, 11);
    grow_ambient_spelled(r3, m);
    let a = given(ahead, light_directional_text(base as int));
    let b = given(!ahead, light_positional_text(base as int, spot));
    let c = given(k.flags.has_normal, light_diffuse_text(k, base as int));
    let p = "        diffuseAccum += atten * (vs_c["@;
    let d = none + p + dec(r3) + "] * "@ + show(m) + ");\n"@;
    let e = given(has_highlights(k), light_specular_text(k, base as int));
    only_if_spelled(ahead, light_directional_text(base as int), ahead_program(base), 2);
    only_if_spelled(
        !ahead,
        light_positional_text(base as int, spot),
        place_program(base, spot),
        2,
    );
    only_if_spelled(
        k.flags.has_normal,
        light_diffuse_text(k, base as int),
        facing_program(k, base),
        2,
    );
    only_if_spelled(
        has_highlights(k),
        light_specular_text(k, base as int),
        highlight_program(k, base),
        2,
    );
    both_spelled(
        a,
        only_if(ahead, ahead_program(base)),
        b,
        only_if(!ahead, place_program(base, spot)),
        2,
    );
    let q = only_if(k.flags.has_normal, facing_program(k, base));
    both_spelled(c, q, d, grow_ambient(r3, m), 2);
    both_spelled(
        c + d,
        both(q, grow_ambient(r3, m)),
        e,
        only_if(has_highlights(k), highlight_program(k, base)),
        2,
    );
    both_spelled(a + b, source_program(k, i), c + d + e, effect_program(k, i), 2);
    let inner = a + b + (c + d + e);
    block_spelled(none, inner, both(source_program(k, i), effect_program(k, i)));
    let open = "    {\n"@;
    let close = "    }\n"@;
    five_pieces_behind(none + open + a + b + c, p, dec(r3), "] * "@, show(m), ");\n"@);
    lined_up(open, a, b, c, d, e, close);
}

proof fn lined_up(
    o: Seq<char>,
    a: Seq<char>,
    b: Seq<char>,
    c: Seq<char>,
    d: Seq<char>,
    e: Seq<char>,
    z: Seq<char>,
)
    ensures
        Seq::<char>::empty() + o + a + b + c + d + e + z == o + (a + b + (c + d + e)) + z,
{
    assert(Seq::<char>::empty() + o =~= o);
    regrouped(o, a + b, c + d + e);
    regrouped(o, a, b);
    regrouped(o + a + b, c + d, e);
    regrouped(o + a + b, c, d);
}

/// The statements that add up the lights.
spec fn lights_program(k: FfVsKey) -> Stmt {
    all(8, |i: int| only_if(bit8(k.light_active_mask, i), light_program(k, i)))
}

proof fn lights_spelled(k: FfVsKey)
    ensures
        spells(lights_text(k), lights_program(k), 1),
{
    let f = |i: int| given(bit8(k.light_active_mask, i), light_text(k, i));
    let p = |i: int| only_if(bit8(k.light_active_mask, i), light_program(k, i));
    assert forall|i: int| 0 <= i < 8 implies spells(#[trigger] f(i), p(i), 1) by {
        light_spelled(k, i);
        only_if_spelled(bit8(k.light_active_mask, i), light_text(k, i), light_program(k, i), 1);
    }
    all_spelled(8, f, p, 1);
}

spec fn normal_program(k: FfVsKey) -> Stmt {
    both(
        both(
            both(
                both(both(both(Stmt::Nothing, let_nadj0()), let_nadj1()), let_nadj2()),
                let_nwvdet(),
            ),
            let_normal(by_inverse(), by_transpose()),
        ),
        only_if(k.flags.normalize_normals, unit_normal()),
    )
}

#[verifier::rlimit(40)]
proof fn normal_spelled(k: FfVsKey)
    ensures
        spells(lit_normal_text(k), normal_program(k), 1),
{
    let a = "    float4 nadj0 = -mtld3d_cross4(vs_c[1], vs_c[2], vs_c[3]);\n"@;
    let b = "    float4 nadj1 = mtld3d_cross4(vs_c[2], vs_c[3], vs_c[0]);\n"@;
    let c = "    float4 nadj2 = -mtld3d_cross4(vs_c[3], vs_c[0], vs_c[1]);\n"@;
    let d = "    float nwvdet = dot(nadj0, vs_c[0]);\n"@;
    let x = "    float3 n = (abs(nwvdet) > 1e-12)\n"@;
    let y = "        ? float3(dot(nadj0.xyz, in.v1.xyz), dot(nadj1.xyz, in.v1.xyz), dot(nadj2.xyz, in.v1.xyz)) / nwvdet\n"@;
    let z = "        : float3(dot(float3(vs_c[0].x, vs_c[1].x, vs_c[2].x), in.v1.xyz), dot(float3(vs_c[0].y, vs_c[1].y, vs_c[2].y), in.v1.xyz), dot(float3(vs_c[0].z, vs_c[1].z, vs_c[2].z), in.v1.xyz));\n"@;
    let g = given(k.flags.normalize_normals, "    n = normalize(n);\n"@);
    let none = Seq::<char>::empty();
    let_nadj0_spelled();
    let_nadj1_spelled();
    let_nadj2_spelled();
    let_nwvdet_spelled();
    by_inverse_spelled();
    by_transpose_spelled();
    let_normal_spelled(by_inverse(), by_transpose());
    unit_normal_spelled();
    inverse_line();
    transpose_line();
    let e = none + x + "        ? "@ + show(by_inverse()) + " / nwvdet\n"@ + "        : "@ + show(
        by_transpose(),
    ) + ";\n"@;
    assert(e == x + y + z) by {
        assert(none + x =~= x);
        regrouped(x, "        ? "@ + show(by_inverse()), " / nwvdet\n"@);
        regrouped(x, "        ? "@, show(by_inverse()));
        regrouped(x + y, "        : "@ + show(by_transpose()), ";\n"@);
        regrouped(x + y, "        : "@, show(by_transpose()));
    }
    nothing_spelled(1);
    let p0 = Stmt::Nothing;
    let p1 = both(p0, let_nadj0());
    let p2 = both(p1, let_nadj1());
    let p3 = both(p2, let_nadj2());
    let p4 = both(p3, let_nwvdet());
    let p5 = both(p4, let_normal(by_inverse(), by_transpose()));
    both_spelled(none, p0, a, let_nadj0(), 1);
    both_spelled(none + a, p1, b, let_nadj1(), 1);
    both_spelled(none + a + b, p2, c, let_nadj2(), 1);
    both_spelled(none + a + b + c, p3, d, let_nwvdet(), 1);
    let t = none + a + b + c + d;
    both_spelled(t, p4, e, let_normal(by_inverse(), by_transpose()), 1);
    both_spelled(t + e, p5, g, only_if(k.flags.normalize_normals, unit_normal()), 1);
    regrouped(t, x + y, z);
    regrouped(t, x, y);
}

spec fn eye_program(k: FfVsKey) -> Stmt {
    if k.vertex_blend_count > 0 {
        eye_of_view()
    } else {
        eye_of_rows()
    }
}

spec fn setup_program(k: FfVsKey) -> Stmt {
    both(
        both(
            both(
                both(
                    both(
                        both(Stmt::Nothing, eye_program(k)),
                        only_if(k.vertex_blend_count > 0 && k.flags.has_normal, normal_of_blend()),
                    ),
                    only_if(k.vertex_blend_count == 0 && k.flags.has_normal, normal_program(k)),
                ),
                only_if(has_highlights(k), let_power()),
            ),
            only_if(has_highlights(k) && k.flags.local_viewer, viewer_near()),
        ),
        only_if(has_highlights(k) && !k.flags.local_viewer, viewer_far()),
    )
}

proof fn setup_spelled(k: FfVsKey)
    ensures
        spells(lit_setup_text(k), setup_program(k), 1),
{
    eye_of_view_spelled();
    eye_of_rows_spelled();
    normal_of_blend_spelled();
    normal_spelled(k);
    let_power_spelled();
    viewer_near_spelled();
    viewer_far_spelled();
    let a = if k.vertex_blend_count > 0 {
        "    float3 posEye = pos_view.xyz;\n"@
    } else {
        "    float3 posEye = float3(dot(pos, vs_c[0]), dot(pos, vs_c[1]), dot(pos, vs_c[2]));\n"@
    };
    let blended = k.vertex_blend_count > 0 && k.flags.has_normal;
    let by_rows = k.vertex_blend_count == 0 && k.flags.has_normal;
    let near = has_highlights(k) && k.flags.local_viewer;
    let far = has_highlights(k) && !k.flags.local_viewer;
    let b = given(blended, "    float3 n = normalize(n_blend);\n"@);
    let c = given(by_rows, lit_normal_text(k));
    let d = given(has_highlights(k), "    float mat_power = vs_c[14].x;\n"@);
    let e = given(near, "    float3 V = normalize(-posEye);\n"@);
    let f = given(far, "    float3 V = float3(0.0, 0.0, -1.0);\n"@);
    only_if_spelled(by_rows, lit_normal_text(k), normal_program(k), 1);
    nothing_spelled(1);
    let t0 = Seq::<char>::empty();
    let p0 = Stmt::Nothing;
    both_spelled(t0, p0, a, eye_program(k), 1);
    let t1 = t0 + a;
    let p1 = both(p0, eye_program(k));
    both_spelled(t1, p1, b, only_if(blended, normal_of_blend()), 1);
    let t2 = t1 + b;
    let p2 = both(p1, only_if(blended, normal_of_blend()));
    both_spelled(t2, p2, c, only_if(by_rows, normal_program(k)), 1);
    let t3 = t2 + c;
    let p3 = both(p2, only_if(by_rows, normal_program(k)));
    both_spelled(t3, p3, d, only_if(has_highlights(k), let_power()), 1);
    let t4 = t3 + d;
    let p4 = both(p3, only_if(has_highlights(k), let_power()));
    both_spelled(t4, p4, e, only_if(near, viewer_near()), 1);
    let t5 = t4 + e;
    let p5 = both(p4, only_if(near, viewer_near()));
    both_spelled(t5, p5, f, only_if(far, viewer_far()), 1);
}

/// The statements that light a vertex.
pub closed spec fn lighting_program(k: FfVsKey) -> Stmt {
    both(
        both(
            both(
                both(
                    both(
                        both(
                            both(
                                both(Stmt::Nothing, setup_program(k)),
                                let_diffuse(
                                    material_expr(k, k.emissive_source, 13),
                                    material_expr(k, k.ambient_source, 11),
                                ),
                            ),
                            no_highlights(),
                        ),
                        lights_program(k),
                    ),
                    let_lit(),
                ),
                set_alpha(material_expr(k, k.diffuse_source, 10)),
            ),
            set_lit(),
        ),
        set_highlights(),
    )
}

pub proof fn lighting_spelled(k: FfVsKey)
    ensures
        spells(vs_lighting_text(k), lighting_program(k), 1),
{
    let m = material_expr(k, k.emissive_source, 13);
    let n = material_expr(k, k.ambient_source, 11);
    let o = material_expr(k, k.diffuse_source, 10);
    material_spelled(k, k.emissive_source, 13);
    material_spelled(k, k.ambient_source, 11);
    material_spelled(k, k.diffuse_source, 10);
    setup_spelled(k);
    let_diffuse_spelled(m, n);
    no_highlights_spelled();
    lights_spelled(k);
    let_lit_spelled();
    set_alpha_spelled(o);
    set_lit_spelled();
    set_highlights_spelled();
    let none = Seq::<char>::empty();
    let a = lit_setup_text(k);
    let b = none + "    float4 diffuseAccum = "@ + show(m) + " + vs_c[9] * "@ + show(n) + ";\n"@;
    let c = "    float3 specAccum = float3(0.0);\n"@;
    let d = lights_text(k);
    let e = "    float4 lit = saturate(diffuseAccum);\n"@;
    let f = none + "    lit.a = "@ + show(o) + ".a;\n"@;
    let g = "    out.color0 = lit;\n"@;
    let h = "    out.color1 = float4(saturate(specAccum), 0.0);\n"@;
    nothing_spelled(1);
    let t0 = Seq::<char>::empty();
    let p0 = Stmt::Nothing;
    both_spelled(t0, p0, a, setup_program(k), 1);
    let t1 = t0 + a;
    let p1 = both(p0, setup_program(k));
    both_spelled(t1, p1, b, let_diffuse(m, n), 1);
    let t2 = t1 + b;
    let p2 = both(p1, let_diffuse(m, n));
    both_spelled(t2, p2, c, no_highlights(), 1);
    let t3 = t2 + c;
    let p3 = both(p2, no_highlights());
    both_spelled(t3, p3, d, lights_program(k), 1);
    let t4 = t3 + d;
    let p4 = both(p3, lights_program(k));
    both_spelled(t4, p4, e, let_lit(), 1);
    let t5 = t4 + e;
    let p5 = both(p4, let_lit());
    both_spelled(t5, p5, f, set_alpha(o), 1);
    let t6 = t5 + f;
    let p6 = both(p5, set_alpha(o));
    both_spelled(t6, p6, g, set_lit(), 1);
    let t7 = t6 + g;
    let p7 = both(p6, set_lit());
    both_spelled(t7, p7, h, set_highlights(), 1);
    five_pieces_behind(
        none + a,
        "    float4 diffuseAccum = "@,
        show(m),
        " + vs_c[9] * "@,
        show(n),
        ";\n"@,
    );
    three_behind(none + a + b + c + d + e, "    lit.a = "@, show(o), ".a;\n"@);
}

/// Whether a name belongs to one light.
spec fn of_light(n: Name) -> bool {
    n is ToLight || n is Atten || n is Rho || n is ToLightFull || n is Dist || n is AttenK
        || n is Ndotl || n is Halfway || n is Ndoth || n is SpecFactor || n is DiffuseAccum
        || n is SpecAccum
}

/// Whether a name belongs to the lighting.
pub open spec fn of_lighting(n: Name) -> bool {
    n is ToLight || n is Atten || n is Rho || n is ToLightFull || n is Dist || n is AttenK
        || n is Ndotl || n is Halfway || n is Ndoth || n is SpecFactor || n is DiffuseAccum
        || n is SpecAccum || n is PosEye || n is Normal || n is MatPower || n is ToViewer
        || n is Nadj || n is Nwvdet || n is Lit || n is OutColor
}

#[verifier::rlimit(40)]
proof fn place_runs(k: FfVsKey, i: int, w: World, s: State)
    requires
        0 <= i,
        typed(s.vars),
        !bit8(k.light_directional_mask, i),
    ensures
        ({
            let base = light_base(i) as nat;
            let t = run(place_program(base, bit8(k.light_spot_mask, i)), w, s);
            &&& t.vars[Name::ToLight] == light_direction(k, i, w.functions, s.vars)
            &&& t.vars[Name::Atten] == scalar(strength(k, i, w.functions, s.vars))
            &&& forall|n: Name|
                !(of_light(n) && !(n is DiffuseAccum) && !(n is SpecAccum))
                    ==> #[trigger] t.vars[n] == s.vars[n]
        }),
{
    let base = light_base(i) as nat;
    let spot = bit8(k.light_spot_mask, i);
    reveal_with_fuel(eval, 9);
    let a = run(let_to_light(base), w, s);
    assert(a.vars[Name::ToLightFull] == towards(i, s.vars));
    let b = run(let_dist(), w, a);
    assert(b.vars[Name::Dist] == scalar(distance(i, w.functions, s.vars)));
    let c = run(let_light(), w, b);
    assert(c.vars[Name::ToLight] == light_direction(k, i, w.functions, s.vars));
    let d = run(let_factors((base + 4) as nat), w, c);
    let e = run(let_attenuation(), w, d);
    let f = run(cut_off(), w, e);
    let d2 = distance(i, w.functions, s.vars);
    let by = row(s.vars, light_base(i) + 4);
    assert(e.vars[Name::Atten] == scalar(
        divided(
            1 as real,
            most(by.x + multiplied(by.y, d2) + multiplied(multiplied(by.z, d2), d2), tiny()),
        ),
    ));
    let g = run(let_rho((base + 1) as nat), w, f);
    let h = run(cone((base + 5) as nat, (base + 3) as nat, (base + 1) as nat), w, g);
    reveal_with_fuel(run, 9);
    if spot {
        assert(run(place_program(base, spot), w, s) == h);
    } else {
        assert(run(place_program(base, spot), w, s) == f);
    }
}

proof fn source_runs(k: FfVsKey, i: int, w: World, s: State)
    requires
        0 <= i,
        typed(s.vars),
    ensures
        ({
            let t = run(source_program(k, i), w, s);
            &&& t.vars[Name::ToLight] == light_direction(k, i, w.functions, s.vars)
            &&& t.vars[Name::Atten] == scalar(strength(k, i, w.functions, s.vars))
            &&& forall|n: Name|
                !(of_light(n) && !(n is DiffuseAccum) && !(n is SpecAccum))
                    ==> #[trigger] t.vars[n] == s.vars[n]
        }),
{
    let base = light_base(i) as nat;
    reveal_with_fuel(run, 5);
    if bit8(k.light_directional_mask, i) {
        reveal_with_fuel(eval, 5);
    } else {
        place_runs(k, i, w, s);
    }
}

#[verifier::rlimit(40)]
proof fn effect_runs(k: FfVsKey, i: int, w: World, s: State, u: Map<Name, Value>)
    requires
        0 <= i,
        typed(s.vars),
        s.vars[Name::ToLight] == light_direction(k, i, w.functions, u),
        s.vars[Name::Atten] == scalar(strength(k, i, w.functions, u)),
        forall|n: Name|
            !(of_light(n) && !(n is DiffuseAccum) && !(n is SpecAccum)) ==> #[trigger] s.vars[n]
                == u[n],
    ensures
        ({
            let t = run(effect_program(k, i), w, s);
            &&& t.vars[Name::DiffuseAccum] == lit_by(
                k,
                i,
                w.functions,
                u,
                u[Name::DiffuseAccum],
            )
            &&& t.vars[Name::SpecAccum] == highlit_by(k, i, w.functions, u, u[Name::SpecAccum])
            &&& forall|n: Name| !of_light(n) ==> #[trigger] t.vars[n] == u[n]
        }),
{
    let base = light_base(i) as nat;
    let f = w.functions;
    reveal_with_fuel(run, 5);
    reveal_with_fuel(eval, 8);
    let pa = only_if(k.flags.has_normal, facing_program(k, base));
    let a = run(pa, w, s);
    material_means(k, k.diffuse_source, 10, w, run(let_ndotl(), w, s));
    if k.flags.has_normal {
        let x = run(let_ndotl(), w, s);
        assert(x.vars[Name::Ndotl] == scalar(incidence(k, i, f, u)));
    }
    let b = run(grow_ambient((base + 3) as nat, material_expr(k, k.ambient_source, 11)), w, a);
    material_means(k, k.ambient_source, 11, w, a);
    assert(b.vars[Name::DiffuseAccum] == lit_by(k, i, f, u, u[Name::DiffuseAccum]));
    let c = run(only_if(has_highlights(k), highlight_program(k, base)), w, b);
    if has_highlights(k) {
        let x = run(let_halfway(), w, b);
        let y = run(let_ndoth(), w, x);
        let z = run(let_highlight(), w, y);
        material_means(k, k.specular_source, 12, w, z);
        assert(x.vars[Name::Halfway] == unit(
            plus(light_direction(k, i, f, u), u[Name::ToViewer]),
            f,
        ));
        assert(c == run(
            grow_highlights((base + 5) as nat, material_expr(k, k.specular_source, 12)),
            w,
            z,
        ));
    }
    assert(run(effect_program(k, i), w, s) == c);
}

proof fn light_runs(k: FfVsKey, i: int, w: World, s: State)
    requires
        0 <= i,
        typed(s.vars),
    ensures
        ({
            let t = run(light_program(k, i), w, s);
            &&& t.vars[Name::DiffuseAccum] == lit_by(
                k,
                i,
                w.functions,
                s.vars,
                s.vars[Name::DiffuseAccum],
            )
            &&& t.vars[Name::SpecAccum] == highlit_by(
                k,
                i,
                w.functions,
                s.vars,
                s.vars[Name::SpecAccum],
            )
            &&& forall|n: Name| !of_light(n) ==> #[trigger] t.vars[n] == s.vars[n]
        }),
{
    source_runs(k, i, w, s);
    let a = run(source_program(k, i), w, s);
    assert(typed(a.vars));
    effect_runs(k, i, w, a, s.vars);
    reveal_with_fuel(run, 3);
    assert(run(light_program(k, i), w, s) == run(effect_program(k, i), w, a));
}

proof fn same_light(k: FfVsKey, i: int, f: Functions, u: Map<Name, Value>, v: Map<Name, Value>, a: Value)
    requires
        0 <= i,
        forall|n: Name| !of_light(n) ==> #[trigger] v[n] == u[n],
    ensures
        lit_by(k, i, f, v, a) == lit_by(k, i, f, u, a),
        highlit_by(k, i, f, v, a) == highlit_by(k, i, f, u, a),
{
    assert(v[Name::PosEye] == u[Name::PosEye]);
    assert(v[Name::Normal] == u[Name::Normal]);
    assert(v[Name::ToViewer] == u[Name::ToViewer]);
    assert(v[Name::MatPower] == u[Name::MatPower]);
    assert(v[Name::Attribute(2)] == u[Name::Attribute(2)]);
    assert(v[Name::Attribute(3)] == u[Name::Attribute(3)]);
    assert forall|j: int| #[trigger] row(v, j) == row(u, j) by {}
    assert(towards(i, v) == towards(i, u));
    assert(light_direction(k, i, f, v) == light_direction(k, i, f, u));
    assert(strength(k, i, f, v) == strength(k, i, f, u));
}

proof fn lights_run(k: FfVsKey, m: nat, w: World, s: State)
    requires
        typed(s.vars),
        s.vars[Name::DiffuseAccum] == diffuse_sum(k, 0, w.functions, s.vars),
        s.vars[Name::SpecAccum] == highlight_sum(k, 0, w.functions, s.vars),
    ensures
        ({
            let t = run(
                all(m, |i: int| only_if(bit8(k.light_active_mask, i), light_program(k, i))),
                w,
                s,
            );
            &&& t.vars[Name::DiffuseAccum] == diffuse_sum(k, m, w.functions, s.vars)
            &&& t.vars[Name::SpecAccum] == highlight_sum(k, m, w.functions, s.vars)
            &&& forall|n: Name| !of_light(n) ==> #[trigger] t.vars[n] == s.vars[n]
        }),
    decreases m,
{
    let p = |i: int| only_if(bit8(k.light_active_mask, i), light_program(k, i));
    if m > 0 {
        let l = (m - 1) as nat;
        lights_run(k, l, w, s);
        let a = run(all(l, p), w, s);
        assert(typed(a.vars));
        light_runs(k, l as int, w, a);
        same_light(k, l as int, w.functions, s.vars, a.vars, a.vars[Name::DiffuseAccum]);
        same_light(k, l as int, w.functions, s.vars, a.vars, a.vars[Name::SpecAccum]);
        assert(p(m - 1) == only_if(bit8(k.light_active_mask, m - 1), light_program(k, m - 1)));
        assert(run(all(m, p), w, s) == run(p(m - 1), w, a));
    }
}

#[verifier::rlimit(40)]
proof fn normal_runs(k: FfVsKey, w: World, s: State)
    requires
        typed(s.vars),
    ensures
        ({
            let t = run(normal_program(k), w, s);
            &&& t.vars[Name::Normal] == row_normal(k, w.functions, s.vars)
            &&& forall|n: Name|
                !(n is Nadj || n is Nwvdet || n is Normal) ==> #[trigger] t.vars[n] == s.vars[n]
        }),
{
    reveal_with_fuel(eval, 9);
    let a = run(let_nadj0(), w, s);
    let b = run(let_nadj1(), w, a);
    let c = run(let_nadj2(), w, b);
    let d = run(let_nwvdet(), w, c);
    let x = negated(cross4(row(s.vars, 1), row(s.vars, 2), row(s.vars, 3)));
    let y = cross4(row(s.vars, 2), row(s.vars, 3), row(s.vars, 0));
    let z = negated(cross4(row(s.vars, 3), row(s.vars, 0), row(s.vars, 1)));
    assert(d.vars[Name::Nadj(0)] == x);
    assert(d.vars[Name::Nadj(1)] == y);
    assert(d.vars[Name::Nadj(2)] == z);
    assert(d.vars[Name::Nwvdet] == scalar(product(x, row(s.vars, 0))));
    let v = direction(s.vars[Name::Attribute(1)]);
    assert(eval(by_inverse(), w, d) == vec3(
        product(direction(x), v),
        product(direction(y), v),
        product(direction(z), v),
    ));
    let e = run(let_normal(by_inverse(), by_transpose()), w, d);
    let f = run(only_if(k.flags.normalize_normals, unit_normal()), w, e);
    reveal_with_fuel(run, 8);
    assert(run(normal_program(k), w, s) == f);
}

/// The position seen from the eye.
pub open spec fn eye_position(k: FfVsKey, vars: Map<Name, Value>) -> Value {
    direction(
        if k.vertex_blend_count > 0 {
            vars[Name::PosView]
        } else {
            moved(vars, 0, vars[Name::Pos])
        },
    )
}

/// What lighting works with: the position and the normal seen from the eye, the sharpness of
/// highlights and the direction to the viewer.
pub open spec fn prepared(k: FfVsKey, f: Functions, vars: Map<Name, Value>) -> Map<Name, Value> {
    let eye = eye_position(k, vars);
    let a = vars.insert(Name::PosEye, eye);
    let b = if k.flags.has_normal {
        a.insert(
            Name::Normal,
            if k.vertex_blend_count > 0 {
                unit(vars[Name::NBlend], f)
            } else {
                row_normal(k, f, vars)
            },
        )
    } else {
        a
    };
    if has_highlights(k) {
        b.insert(Name::MatPower, scalar(row(vars, 14).x)).insert(
            Name::ToViewer,
            viewer(k, f, eye),
        )
    } else {
        b
    }
}

#[verifier::rlimit(40)]
proof fn setup_runs(k: FfVsKey, w: World, s: State)
    requires
        typed(s.vars),
        s.vars[Name::Pos].n == 4,
    ensures
        forall|n: Name|
            !(n is Nadj || n is Nwvdet) ==> #[trigger] run(setup_program(k), w, s).vars[n]
                == prepared(k, w.functions, s.vars)[n],
{
    reveal_with_fuel(eval, 8);
    let a = run(eye_program(k), w, s);
    assert(a.vars[Name::PosEye] == eye_position(k, s.vars));
    assert(typed(a.vars));
    let b = run(
        only_if(k.vertex_blend_count > 0 && k.flags.has_normal, normal_of_blend()),
        w,
        a,
    );
    assert(typed(b.vars));
    let c = run(
        only_if(k.vertex_blend_count == 0 && k.flags.has_normal, normal_program(k)),
        w,
        b,
    );
    normal_runs(k, w, b);
    assert forall|j: int| #[trigger] row(b.vars, j) == row(s.vars, j) by {}
    assert(row_normal(k, w.functions, b.vars) == row_normal(k, w.functions, s.vars));
    let d = run(only_if(has_highlights(k), let_power()), w, c);
    let e = run(only_if(has_highlights(k) && k.flags.local_viewer, viewer_near()), w, d);
    let g = run(only_if(has_highlights(k) && !k.flags.local_viewer, viewer_far()), w, e);
    reveal_with_fuel(run, 8);
    assert(run(setup_program(k), w, s) == g);
}

proof fn highlights_are_colours(k: FfVsKey, m: nat, f: Functions, vars: Map<Name, Value>)
    ensures
        highlight_sum(k, m, f, vars).n == 3,
    decreases m,
{
    if m > 0 {
        highlights_are_colours(k, (m - 1) as nat, f, vars);
    }
}

proof fn lighting_in_steps(k: FfVsKey, w: World, s: State)
    ensures
        run(lighting_program(k), w, s) == run(
            set_highlights(),
            w,
            run(
                set_lit(),
                w,
                run(
                    set_alpha(material_expr(k, k.diffuse_source, 10)),
                    w,
                    run(let_lit(), w, added_up(k, w, s)),
                ),
            ),
        ),
{
    reveal_with_fuel(run, 10);
}

spec fn started(k: FfVsKey, w: World, s: State) -> State {
    run(
        no_highlights(),
        w,
        run(
            let_diffuse(
                material_expr(k, k.emissive_source, 13),
                material_expr(k, k.ambient_source, 11),
            ),
            w,
            run(setup_program(k), w, s),
        ),
    )
}

spec fn added_up(k: FfVsKey, w: World, s: State) -> State {
    run(lights_program(k), w, started(k, w, s))
}

proof fn started_with(k: FfVsKey, w: World, s: State)
    requires
        typed(s.vars),
        s.vars[Name::Pos].n == 4,
    ensures
        ({
            let t = started(k, w, s);
            let u = prepared(k, w.functions, s.vars);
            &&& t.vars[Name::DiffuseAccum] == plus(
                material(k, k.emissive_source, 13, u),
                times(row(u, 9), material(k, k.ambient_source, 11, u)),
            )
            &&& t.vars[Name::SpecAccum] == vec3(0 as real, 0 as real, 0 as real)
            &&& forall|n: Name|
                !(n is Nadj || n is Nwvdet || n is DiffuseAccum || n is SpecAccum)
                    ==> #[trigger] t.vars[n] == u[n]
        }),
{
    setup_runs(k, w, s);
    let a = run(setup_program(k), w, s);
    material_means(k, k.emissive_source, 13, w, a);
    material_means(k, k.ambient_source, 11, w, a);
    reveal_with_fuel(eval, 5);
}

proof fn added_up_to(k: FfVsKey, w: World, s: State)
    requires
        typed(s.vars),
        s.vars[Name::Pos].n == 4,
    ensures
        ({
            let t = added_up(k, w, s);
            let u = prepared(k, w.functions, s.vars);
            &&& t.vars[Name::DiffuseAccum] == diffuse_sum(k, 8, w.functions, u)
            &&& t.vars[Name::SpecAccum] == highlight_sum(k, 8, w.functions, u)
            &&& forall|n: Name|
                !(n is Nadj || n is Nwvdet || of_light(n)) ==> #[trigger] t.vars[n] == u[n]
        }),
{
    started_with(k, w, s);
    let c = started(k, w, s);
    let f = w.functions;
    let u = prepared(k, f, s.vars);
    assert(typed(u));
    assert(typed(c.vars));
    sums_depend_on_sources(k, 0, f, u, c.vars);
    sums_depend_on_sources(k, 8, f, u, c.vars);
    assert(diffuse_sum(k, 0, f, u) == plus(
        material(k, k.emissive_source, 13, u),
        times(row(u, 9), material(k, k.ambient_source, 11, u)),
    ));
    lights_run(k, 8, w, c);
}

/// Lighting sets the first colour to the sum of what the material emits and reflects of every
/// active light, brought between zero and one, with the alpha of the material's diffuse
/// colour, and the second to the highlights.
pub proof fn lighting_runs(k: FfVsKey, w: World, s: State)
    requires
        typed(s.vars),
        s.vars[Name::Pos].n == 4,
    ensures
        ({
            let t = run(lighting_program(k), w, s);
            let u = prepared(k, w.functions, s.vars);
            let lit = saturated(diffuse_sum(k, 8, w.functions, u));
            let highlights = saturated(highlight_sum(k, 8, w.functions, u));
            &&& t.vars[Name::OutColor(0)] == with_part(
                lit,
                Component::W,
                material(k, k.diffuse_source, 10, u).w,
            )
            &&& t.vars[Name::OutColor(1)] == vec4(
                highlights.x,
                highlights.y,
                highlights.z,
                0 as real,
            )
            &&& t.vars[Name::PosEye] == u[Name::PosEye]
            &&& k.flags.has_normal ==> t.vars[Name::Normal] == u[Name::Normal]
            &&& forall|n: Name| !of_lighting(n) ==> #[trigger] t.vars[n] == s.vars[n]
        }),
{
    added_up_to(k, w, s);
    lighting_in_steps(k, w, s);
    let d = added_up(k, w, s);
    let u = prepared(k, w.functions, s.vars);
    highlights_are_colours(k, 8, w.functions, u);
    colours_from_sums(k, w, d);
    assert(material(k, k.diffuse_source, 10, d.vars) == material(k, k.diffuse_source, 10, u));
    assert forall|n: Name| !of_lighting(n) implies #[trigger] run(
        lighting_program(k),
        w,
        s,
    ).vars[n] == s.vars[n] by {
        assert(d.vars[n] == u[n]);
    }
    assert(d.vars[Name::PosEye] == u[Name::PosEye]);
    assert(d.vars[Name::Normal] == u[Name::Normal]);
}

proof fn colours_from_sums(k: FfVsKey, w: World, d: State)
    requires
        d.vars[Name::SpecAccum].n == 3,
    ensures
        ({
            let e = run(let_lit(), w, d);
            let g = run(set_alpha(material_expr(k, k.diffuse_source, 10)), w, e);
            let h = run(set_lit(), w, g);
            let t = run(set_highlights(), w, h);
            let highlights = saturated(d.vars[Name::SpecAccum]);
            &&& t.vars[Name::OutColor(0)] == with_part(
                saturated(d.vars[Name::DiffuseAccum]),
                Component::W,
                material(k, k.diffuse_source, 10, d.vars).w,
            )
            &&& t.vars[Name::OutColor(1)] == vec4(
                highlights.x,
                highlights.y,
                highlights.z,
                0 as real,
            )
            &&& forall|n: Name| !(n is Lit || n is OutColor) ==> #[trigger] t.vars[n] == d.vars[n]
        }),
{
    reveal_with_fuel(eval, 5);
    let e = run(let_lit(), w, d);
    material_means(k, k.diffuse_source, 10, w, e);
}

/// The sums depend on the rows, the vertex colours and what lighting works with alone.
pub proof fn sums_depend_on_sources(k: FfVsKey, m: nat, f: Functions, u: Map<Name, Value>, v: Map<Name, Value>)
    requires
        forall|i: nat| #[trigger] v[Name::Row(i)] == u[Name::Row(i)],
        v[Name::Attribute(2)] == u[Name::Attribute(2)],
        v[Name::Attribute(3)] == u[Name::Attribute(3)],
        v[Name::PosEye] == u[Name::PosEye],
        k.flags.has_normal ==> v[Name::Normal] == u[Name::Normal],
        has_highlights(k) ==> v[Name::ToViewer] == u[Name::ToViewer] && v[Name::MatPower]
            == u[Name::MatPower],
    ensures
        diffuse_sum(k, m, f, v) == diffuse_sum(k, m, f, u),
        highlight_sum(k, m, f, v) == highlight_sum(k, m, f, u),
    decreases m,
{
    assert forall|j: int| #[trigger] row(v, j) == row(u, j) by {}
    if m > 0 {
        let l = (m - 1) as nat;
        sums_depend_on_sources(k, l, f, u, v);
        let i = l as int;
        assert(towards(i, v) == towards(i, u));
        assert(light_direction(k, i, f, v) == light_direction(k, i, f, u));
        assert(strength(k, i, f, v) == strength(k, i, f, u));
    } else {
        assert(v[Name::Row(13)] == u[Name::Row(13)]);
        assert(v[Name::Row(11)] == u[Name::Row(11)]);
    }
}

} // verus!
