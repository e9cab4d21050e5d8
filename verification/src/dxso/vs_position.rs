//! Where the vertex shader puts a vertex.

use super::ff::FfVsKey;
use super::ff_vs::{
    blend_index_text, blend_many_text, blend_single_text, blend_term_text, blend_weighted_text,
    blends_weighted_text, emit_point_size_text, emit_vertex_blend_text, vs_position_text,
};
use super::shading::{
    all, all_spelled, block, both, both_spelled, clamped, divided, eval, listing, magnitude, most,
    multiplied, nothing_spelled, only_if, only_if_spelled, plus, product, run, scalar, spells,
    times, vec3, vec4, Functions, Name, State, Stmt, Value, World,
};
use super::vs_position_text::{
    find_rows, find_rows_spelled, first_index, first_index_spelled, fix_x, fix_x_spelled, fix_y,
    fix_y_spelled, given_index, given_index_spelled, grow_normal, grow_normal_spelled, grow_view,
    grow_view_spelled, grow_weights, grow_weights_spelled, last_weight, last_weight_spelled,
    let_distance, let_distance_spelled, let_pos, let_pos_spelled, let_view, let_view_spelled,
    let_weight, let_weight_spelled, named_index, named_index_spelled, block_opens, block_closes,
    project, project_spelled, scale_size, scale_size_spelled, set_normal, set_normal_spelled,
    set_size, set_size_spelled, set_view, set_view_spelled, size_of_draw, size_of_draw_spelled,
    size_of_vertex, size_of_vertex_spelled, zero_normal, zero_normal_spelled, zero_view,
    zero_view_spelled, zero_weights, zero_weights_spelled,
};
use crate::text::{dec, given};
use vstd::prelude::*;

verus! {

/// Whether what a shader is given has the size that it is declared with.
pub open spec fn typed(vars: Map<Name, Value>) -> bool {
    &&& forall|i: nat| (#[trigger] vars[Name::Row(i)]).n == 4
    &&& forall|i: nat| (#[trigger] vars[Name::Attribute(i)]).n == 4
    &&& forall|i: nat| #[trigger]
        vars[Name::BlendWeight(i)] == scalar(vars[Name::BlendWeight(i)].x)
    &&& forall|i: nat| (#[trigger] vars[Name::InvView(i)]).n == 4
    &&& forall|i: nat| (#[trigger] vars[Name::ClipPlane(i)]).n == 4
    &&& vars[Name::PosFixup].n == 4
    &&& vars[Name::DrawPoint].n == 4
    &&& vars[Name::DrawPointScale].n == 4
    &&& vars[Name::VertexSize].n == 4
}

/// Whether the matrices that a vertex names exist.
pub open spec fn names_matrices(w: World) -> bool {
    forall|i: int| 0 <= #[trigger] (w.indices)(i)
}

/// A point by the matrix whose rows start at `base`.
pub open spec fn moved(vars: Map<Name, Value>, base: int, v: Value) -> Value {
    vec4(
        product(v, vars[Name::Row(base as nat)]),
        product(v, vars[Name::Row((base + 1) as nat)]),
        product(v, vars[Name::Row((base + 2) as nat)]),
        product(v, vars[Name::Row((base + 3) as nat)]),
    )
}

/// The first three components of a vector.
pub open spec fn direction(v: Value) -> Value {
    vec3(v.x, v.y, v.z)
}

/// A direction by the matrix whose rows start at `base`, without its translation.
pub open spec fn turned(vars: Map<Name, Value>, base: int, v: Value) -> Value {
    vec3(
        product(direction(v), direction(vars[Name::Row(base as nat)])),
        product(direction(v), direction(vars[Name::Row((base + 1) as nat)])),
        product(direction(v), direction(vars[Name::Row((base + 2) as nat)])),
    )
}

/// The position that the vertex gives, as a point.
pub open spec fn given_point(vars: Map<Name, Value>) -> Value {
    let v = vars[Name::Attribute(0)];
    vec4(v.x, v.y, v.z, 1 as real)
}

/// Where the rows of the matrix of blend `i` start.
pub open spec fn blend_rows(k: FfVsKey, w: World, i: int) -> int {
    95 + 4 * (if k.flags.vertex_blend_indexed {
        (w.indices)(i)
    } else {
        i
    })
}

/// The sum of the first `m` weights.
pub open spec fn weights(vars: Map<Name, Value>, m: nat) -> real
    decreases m,
{
    if m == 0 {
        0 as real
    } else {
        weights(vars, (m - 1) as nat) + vars[Name::BlendWeight((m - 1) as nat)].x
    }
}

/// The weighted sum of what the first `m` matrices make of the position.
pub open spec fn view_sum(k: FfVsKey, w: World, vars: Map<Name, Value>, m: nat) -> Value
    decreases m,
{
    if m == 0 {
        vec4(0 as real, 0 as real, 0 as real, 0 as real)
    } else {
        plus(
            view_sum(k, w, vars, (m - 1) as nat),
            times(
                vars[Name::BlendWeight((m - 1) as nat)],
                moved(vars, blend_rows(k, w, m - 1), given_point(vars)),
            ),
        )
    }
}

/// The weighted sum of what the first `m` matrices make of the normal.
pub open spec fn normal_sum(k: FfVsKey, w: World, vars: Map<Name, Value>, m: nat) -> Value
    decreases m,
{
    if m == 0 {
        vec3(0 as real, 0 as real, 0 as real)
    } else {
        plus(
            normal_sum(k, w, vars, (m - 1) as nat),
            times(
                vars[Name::BlendWeight((m - 1) as nat)],
                turned(vars, blend_rows(k, w, m - 1), vars[Name::Attribute(1)]),
            ),
        )
    }
}

/// The position of the vertex seen from the eye: by rows 0 to 3, or between matrices, of
/// which the last has the weight that the others leave.
pub open spec fn view_position(k: FfVsKey, w: World, vars: Map<Name, Value>) -> Value {
    let p = given_point(vars);
    if k.vertex_blend_count == 0 {
        moved(vars, 0, p)
    } else if k.vertex_blend_count == 1 && k.flags.vertex_blend_indexed {
        moved(vars, blend_rows(k, w, 0), p)
    } else {
        let m = (k.vertex_blend_count - 1) as nat;
        plus(
            view_sum(k, w, vars, m),
            times(
                scalar(1 as real - weights(vars, m)),
                moved(vars, blend_rows(k, w, m as int), p),
            ),
        )
    }
}

/// The normal of a vertex between matrices, seen from the eye.
pub open spec fn blended_normal(k: FfVsKey, w: World, vars: Map<Name, Value>) -> Value {
    let n = vars[Name::Attribute(1)];
    if k.vertex_blend_count == 1 && k.flags.vertex_blend_indexed {
        turned(vars, blend_rows(k, w, 0), n)
    } else {
        let m = (k.vertex_blend_count - 1) as nat;
        plus(
            normal_sum(k, w, vars, m),
            times(
                scalar(1 as real - weights(vars, m)),
                turned(vars, blend_rows(k, w, m as int), n),
            ),
        )
    }
}

/// Where the vertex ends up: its view-space position by rows 4 to 7, shifted by the
/// correction of the pixel centres.
pub open spec fn screen_position(k: FfVsKey, w: World, vars: Map<Name, Value>) -> Value {
    let q = moved(vars, 4, view_position(k, w, vars));
    let f = vars[Name::PosFixup];
    vec4(q.x + multiplied(f.x, q.w), q.y + multiplied(f.y, q.w), q.z, q.w)
}

/// How large a point is: its own size or the size of the draw, weakened by its distance
/// where that is asked for, within the limits of the draw, in pixels of the target.
pub open spec fn point_size(
    k: FfVsKey,
    scale: bool,
    f: Functions,
    vars: Map<Name, Value>,
    view: Value,
) -> real {
    let own = if k.flags.has_psize {
        vars[Name::VertexSize].x
    } else {
        vars[Name::DrawPoint].x
    };
    let fix = vars[Name::PosFixup];
    let by = vars[Name::DrawPointScale];
    let de = magnitude(direction(view), f);
    let size = if scale {
        multiplied(
            own,
            divided(
                divided(divided(-(1 as real), fix.y), fix.w),
                (f.sqrt)(
                    most(
                        by.x + multiplied(by.y, de) + multiplied(multiplied(by.z, de), de),
                        0 as real,
                    ),
                ),
            ),
        )
    } else {
        own
    };
    multiplied(clamped(size, vars[Name::DrawPoint].y, vars[Name::DrawPoint].z), fix.w)
}

pub open spec fn point_size_program(k: FfVsKey, scale: bool) -> Stmt {
    both(
        both(
            both(
                both(
                    Stmt::Nothing,
                    if k.flags.has_psize {
                        size_of_vertex()
                    } else {
                        size_of_draw()
                    },
                ),
                only_if(scale, let_distance()),
            ),
            only_if(scale, scale_size()),
        ),
        set_size(),
    )
}

pub proof fn point_size_spelled(k: FfVsKey, scale: bool)
    ensures
        spells(emit_point_size_text(k, scale), point_size_program(k, scale), 1),
{
    size_of_vertex_spelled();
    size_of_draw_spelled();
    let_distance_spelled();
    scale_size_spelled();
    set_size_spelled();
    let own = if k.flags.has_psize {
        "    float psize = in.psize.x;\n"@
    } else {
        "    float psize = vs_draw.point.x;\n"@
    };
    let own_program = if k.flags.has_psize {
        size_of_vertex()
    } else {
        size_of_draw()
    };
    let distance = given(scale, "    float de = length(pos_view.xyz);\n"@);
    let factor = given(
        scale,
        "    psize *= ((-1.0 / pos_fixup.y) / pos_fixup.w) / sqrt(max(vs_draw.point_scale.x + vs_draw.point_scale.y * de + vs_draw.point_scale.z * de * de, 0.0));\n"@,
    );
    let last = "    out.point_size = clamp(psize, vs_draw.point.y, vs_draw.point.z) * pos_fixup.w;\n"@;
    nothing_spelled(1);
    let t0 = Seq::<char>::empty();
    let p0 = Stmt::Nothing;
    both_spelled(t0, p0, own, own_program, 1);
    let t1 = t0 + own;
    let p1 = both(p0, own_program);
    both_spelled(t1, p1, distance, only_if(scale, let_distance()), 1);
    let t2 = t1 + distance;
    let p2 = both(p1, only_if(scale, let_distance()));
    both_spelled(t2, p2, factor, only_if(scale, scale_size()), 1);
    let t3 = t2 + factor;
    let p3 = both(p2, only_if(scale, scale_size()));
    both_spelled(t3, p3, last, set_size(), 1);
}

pub open spec fn index_program(k: FfVsKey, i: nat) -> Stmt {
    if k.flags.vertex_blend_indexed {
        named_index(i)
    } else {
        given_index(i)
    }
}

pub open spec fn term_program(k: FfVsKey) -> Stmt {
    both(
        both(both(Stmt::Nothing, find_rows()), grow_view()),
        only_if(k.flags.has_normal, grow_normal()),
    )
}

pub open spec fn weighted_program(k: FfVsKey, i: nat) -> Stmt {
    block(
        both(
            both(both(let_weight(i), index_program(k, i)), term_program(k)),
            grow_weights(),
        ),
    )
}

pub open spec fn last_program(k: FfVsKey) -> Stmt {
    block(
        both(
            both(last_weight(), index_program(k, (k.vertex_blend_count - 1) as nat)),
            term_program(k),
        ),
    )
}

pub open spec fn single_program(k: FfVsKey) -> Stmt {
    block(
        both(
            both(both(first_index(), find_rows()), set_view()),
            only_if(k.flags.has_normal, set_normal()),
        ),
    )
}

pub open spec fn many_program(k: FfVsKey) -> Stmt {
    both(
        both(
            both(Stmt::Nothing, zero_weights()),
            all((k.vertex_blend_count - 1) as nat, |i: int| weighted_program(k, i as nat)),
        ),
        last_program(k),
    )
}

pub open spec fn blend_program(k: FfVsKey) -> Stmt {
    both(
        both(
            both(both(Stmt::Nothing, zero_view()), only_if(k.flags.has_normal, zero_normal())),
            only_if(
                k.vertex_blend_count == 1 && k.flags.vertex_blend_indexed,
                single_program(k),
            ),
        ),
        only_if(
            !(k.vertex_blend_count == 1 && k.flags.vertex_blend_indexed),
            many_program(k),
        ),
    )
}

pub open spec fn position_program(k: FfVsKey) -> Stmt {
    both(
        both(
            both(
                both(
                    both(
                        both(
                            both(Stmt::Nothing, let_pos()),
                            only_if(k.vertex_blend_count > 0, blend_program(k)),
                        ),
                        only_if(k.vertex_blend_count == 0, let_view()),
                    ),
                    project(),
                ),
                fix_x(),
            ),
            fix_y(),
        ),
        point_size_program(k, k.flags.point_scale),
    )
}

proof fn index_spelled(k: FfVsKey, i: nat)
    ensures
        spells(blend_index_text(k, i as int), index_program(k, i), 2),
{
    named_index_spelled(i);
    given_index_spelled(i);
}

proof fn term_spelled(k: FfVsKey)
    ensures
        spells(blend_term_text(k), term_program(k), 2),
{
    find_rows_spelled();
    grow_view_spelled();
    grow_normal_spelled();
    let normal = given(
        k.flags.has_normal,
        "        n_blend += w * float3(dot(in.v1.xyz, m[0].xyz), dot(in.v1.xyz, m[1].xyz), dot(in.v1.xyz, m[2].xyz));\n"@,
    );
    nothing_spelled(2);
    let t0 = Seq::<char>::empty();
    let p0 = Stmt::Nothing;
    both_spelled(t0, p0, "        constant float4 *m = vs_c + 95 + idx * 4u;\n"@, find_rows(), 2);
    let t1 = t0 + "        constant float4 *m = vs_c + 95 + idx * 4u;\n"@;
    let p1 = both(p0, find_rows());
    both_spelled(
        t1,
        p1,
        "        pos_view += w * float4(dot(pos, m[0]), dot(pos, m[1]), dot(pos, m[2]), dot(pos, m[3]));\n"@,
        grow_view(),
        2,
    );
    let t2 = t1
        + "        pos_view += w * float4(dot(pos, m[0]), dot(pos, m[1]), dot(pos, m[2]), dot(pos, m[3]));\n"@;
    let p2 = both(p1, grow_view());
    both_spelled(t2, p2, normal, only_if(k.flags.has_normal, grow_normal()), 2);
}

/// Statements between braces, behind other text.
pub proof fn block_spelled(before: Seq<char>, inner: Seq<char>, p: Stmt)
    requires
        spells(inner, p, 2),
    ensures
        spells("    {\n"@ + inner + "    }\n"@, block(p), 1),
        before + "    {\n"@ + inner + "    }\n"@ == before + ("    {\n"@ + inner + "    }\n"@),
{
    block_opens();
    block_closes();
    assert("    "@ + "{\n"@ + inner + "    "@ + "}\n"@ =~= "    "@ + "{\n"@ + inner + ("    "@
        + "}\n"@));
    assert(before + "    {\n"@ + inner + "    }\n"@ =~= before + ("    {\n"@ + inner
        + "    }\n"@));
}

#[verifier::rlimit(40)]
proof fn weighted_spelled(k: FfVsKey, i: nat)
    ensures
        spells(blend_weighted_text(k, i as int), weighted_program(k, i), 1),
{
    let a = "        float w = in.blend_weight["@;
    let b = "];\n"@;
    let weight = Seq::<char>::empty() + a + dec(i) + b;
    let index = blend_index_text(k, i as int);
    let term = blend_term_text(k);
    let grow = "        weight_sum += w;\n"@;
    let_weight_spelled(i);
    index_spelled(k, i);
    term_spelled(k);
    grow_weights_spelled();
    both_spelled(weight, let_weight(i), index, index_program(k, i), 2);
    both_spelled(
        weight + index,
        both(let_weight(i), index_program(k, i)),
        term,
        term_program(k),
        2,
    );
    both_spelled(
        weight + index + term,
        both(both(let_weight(i), index_program(k, i)), term_program(k)),
        grow,
        grow_weights(),
        2,
    );
    let inner = weight + index + term + grow;
    let p = both(
        both(both(let_weight(i), index_program(k, i)), term_program(k)),
        grow_weights(),
    );
    block_spelled(Seq::empty(), inner, p);
    assert(blend_weighted_text(k, i as int) =~= "    {\n"@ + inner + "    }\n"@);
}

#[verifier::rlimit(40)]
proof fn last_spelled(k: FfVsKey, before: Seq<char>)
    requires
        k.vertex_blend_count > 0,
    ensures
        before + "    {\n"@ + "        float w = 1.0 - weight_sum;\n"@ + blend_index_text(
            k,
            k.vertex_blend_count - 1,
        ) + blend_term_text(k) + "    }\n"@ == before + listing(last_program(k), 1),
        spells(listing(last_program(k), 1), last_program(k), 1),
{
    let i = (k.vertex_blend_count - 1) as nat;
    let a = "        float w = 1.0 - weight_sum;\n"@;
    let index = blend_index_text(k, i as int);
    let term = blend_term_text(k);
    last_weight_spelled();
    index_spelled(k, i);
    term_spelled(k);
    both_spelled(a, last_weight(), index, index_program(k, i), 2);
    both_spelled(a + index, both(last_weight(), index_program(k, i)), term, term_program(k), 2);
    let inner = a + index + term;
    let p = both(both(last_weight(), index_program(k, i)), term_program(k));
    block_spelled(before, inner, p);
    assert(before + "    {\n"@ + a + index + term + "    }\n"@ =~= before + "    {\n"@ + inner
        + "    }\n"@);
}

#[verifier::rlimit(40)]
proof fn single_spelled(k: FfVsKey)
    ensures
        spells(blend_single_text(k), single_program(k), 1),
{
    let a = "        uint idx = in.blend_indices[0];\n"@;
    let b = "        constant float4 *m = vs_c + 95 + idx * 4u;\n"@;
    let c = "        pos_view = float4(dot(pos, m[0]), dot(pos, m[1]), dot(pos, m[2]), dot(pos, m[3]));\n"@;
    let d = given(
        k.flags.has_normal,
        "        n_blend = float3(dot(in.v1.xyz, m[0].xyz), dot(in.v1.xyz, m[1].xyz), dot(in.v1.xyz, m[2].xyz));\n"@,
    );
    first_index_spelled();
    find_rows_spelled();
    set_view_spelled();
    set_normal_spelled();
    let q = only_if(k.flags.has_normal, set_normal());
    both_spelled(a, first_index(), b, find_rows(), 2);
    both_spelled(a + b, both(first_index(), find_rows()), c, set_view(), 2);
    both_spelled(a + b + c, both(both(first_index(), find_rows()), set_view()), d, q, 2);
    let inner = a + b + c + d;
    block_spelled(
        Seq::empty(),
        inner,
        both(both(both(first_index(), find_rows()), set_view()), q),
    );
    assert(blend_single_text(k) =~= "    {\n"@ + inner + "    }\n"@);
}

proof fn many_spelled(k: FfVsKey)
    requires
        k.vertex_blend_count > 0,
    ensures
        spells(blend_many_text(k), many_program(k), 1),
{
    zero_weights_spelled();
    let n = (k.vertex_blend_count - 1) as nat;
    let f = |i: int| blend_weighted_text(k, i);
    let p = |i: int| weighted_program(k, i as nat);
    assert forall|i: int| 0 <= i < n implies spells(#[trigger] f(i), p(i), 1) by {
        weighted_spelled(k, i as nat);
    }
    all_spelled(n, f, p, 1);
    let before = Seq::<char>::empty() + "    float weight_sum = 0.0;\n"@ + blends_weighted_text(
        k,
        n as int,
    );
    last_spelled(k, before);
    let zero = "    float weight_sum = 0.0;\n"@;
    nothing_spelled(1);
    let t0 = Seq::<char>::empty();
    let p0 = Stmt::Nothing;
    both_spelled(t0, p0, zero, zero_weights(), 1);
    let t1 = t0 + zero;
    let p1 = both(p0, zero_weights());
    both_spelled(t1, p1, blends_weighted_text(k, n as int), all(n, p), 1);
    let t2 = t1 + blends_weighted_text(k, n as int);
    let p2 = both(p1, all(n, p));
    both_spelled(t2, p2, listing(last_program(k), 1), last_program(k), 1);
}

proof fn blend_spelled(k: FfVsKey)
    requires
        k.vertex_blend_count > 0,
    ensures
        spells(emit_vertex_blend_text(k), blend_program(k), 1),
{
    zero_view_spelled();
    zero_normal_spelled();
    single_spelled(k);
    many_spelled(k);
    let single = k.vertex_blend_count == 1 && k.flags.vertex_blend_indexed;
    only_if_spelled(single, blend_single_text(k), single_program(k), 1);
    only_if_spelled(!single, blend_many_text(k), many_program(k), 1);
    let zero = "    float4 pos_view = float4(0.0);\n"@;
    let normal = given(k.flags.has_normal, "    float3 n_blend = float3(0.0);\n"@);
    nothing_spelled(1);
    let t0 = Seq::<char>::empty();
    let p0 = Stmt::Nothing;
    both_spelled(t0, p0, zero, zero_view(), 1);
    let t1 = t0 + zero;
    let p1 = both(p0, zero_view());
    both_spelled(t1, p1, normal, only_if(k.flags.has_normal, zero_normal()), 1);
    let t2 = t1 + normal;
    let p2 = both(p1, only_if(k.flags.has_normal, zero_normal()));
    both_spelled(
        t2,
        p2,
        given(single, blend_single_text(k)),
        only_if(single, single_program(k)),
        1,
    );
    let t3 = t2 + given(single, blend_single_text(k));
    let p3 = both(p2, only_if(single, single_program(k)));
    both_spelled(t3, p3, given(!single, blend_many_text(k)), only_if(!single, many_program(k)), 1);
}

pub proof fn position_spelled(k: FfVsKey)
    ensures
        spells(vs_position_text(k), position_program(k), 1),
{
    let_pos_spelled();
    let_view_spelled();
    project_spelled();
    fix_x_spelled();
    fix_y_spelled();
    if k.vertex_blend_count > 0 {
        blend_spelled(k);
    }
    point_size_spelled(k, k.flags.point_scale);
    let start = "    float4 pos = float4(in.v0.xyz, 1.0);\n"@;
    let blend = given(k.vertex_blend_count > 0, emit_vertex_blend_text(k));
    let view = given(
        k.vertex_blend_count == 0,
        "    float4 pos_view = float4(dot(pos, vs_c[0]), dot(pos, vs_c[1]), dot(pos, vs_c[2]), dot(pos, vs_c[3]));\n"@,
    );
    let place = "    out.position = float4(dot(pos_view, vs_c[4]), dot(pos_view, vs_c[5]), dot(pos_view, vs_c[6]), dot(pos_view, vs_c[7]));\n"@;
    let x = "    out.position.x += pos_fixup.x * out.position.w;\n"@;
    let y = "    out.position.y += pos_fixup.y * out.position.w;\n"@;
    let size = emit_point_size_text(k, k.flags.point_scale);
    nothing_spelled(1);
    let t0 = Seq::<char>::empty();
    let p0 = Stmt::Nothing;
    both_spelled(t0, p0, start, let_pos(), 1);
    let t1 = t0 + start;
    let p1 = both(p0, let_pos());
    both_spelled(t1, p1, blend, only_if(k.vertex_blend_count > 0, blend_program(k)), 1);
    let t2 = t1 + blend;
    let p2 = both(p1, only_if(k.vertex_blend_count > 0, blend_program(k)));
    both_spelled(t2, p2, view, only_if(k.vertex_blend_count == 0, let_view()), 1);
    let t3 = t2 + view;
    let p3 = both(p2, only_if(k.vertex_blend_count == 0, let_view()));
    both_spelled(t3, p3, place, project(), 1);
    let t4 = t3 + place;
    let p4 = both(p3, project());
    both_spelled(t4, p4, x, fix_x(), 1);
    let t5 = t4 + x;
    let p5 = both(p4, fix_x());
    both_spelled(t5, p5, y, fix_y(), 1);
    let t6 = t5 + y;
    let p6 = both(p5, fix_y());
    both_spelled(t6, p6, size, point_size_program(k, k.flags.point_scale), 1);
}

/// Whether two states agree on all that blending does not compute.
spec fn same_input(s: State, t: State) -> bool {
    forall|n: Name| !(n is Weight || n is PosView || n is NBlend || n is WeightSum)
        ==> #[trigger] t.vars[n] == s.vars[n]
}

proof fn term_runs(k: FfVsKey, w: World, s: State, rows: int)
    requires
        typed(s.vars),
        s.vars[Name::Pos] == given_point(s.vars),
        s.index * 4 + 95 == rows,
        rows >= 0,
    ensures
        ({
            let t = run(term_program(k), w, s);
            &&& same_input(s, t)
            &&& t.vars[Name::PosView] == plus(
                s.vars[Name::PosView],
                times(s.vars[Name::Weight], moved(s.vars, rows, given_point(s.vars))),
            )
            &&& k.flags.has_normal ==> t.vars[Name::NBlend] == plus(
                s.vars[Name::NBlend],
                times(s.vars[Name::Weight], turned(s.vars, rows, s.vars[Name::Attribute(1)])),
            )
            &&& t.vars[Name::Weight] == s.vars[Name::Weight]
            &&& t.vars[Name::WeightSum] == s.vars[Name::WeightSum]
        }),
{
    reveal_with_fuel(run, 6);
    reveal_with_fuel(eval, 9);
    let a = run(find_rows(), w, s);
    assert(a.base == rows);
    let b = run(grow_view(), w, a);
    assert(b.vars[Name::PosView] == plus(
        s.vars[Name::PosView],
        times(s.vars[Name::Weight], moved(s.vars, rows, given_point(s.vars))),
    ));
}

proof fn weighted_runs(k: FfVsKey, w: World, s: State, i: nat)
    requires
        typed(s.vars),
        names_matrices(w),
        s.vars[Name::Pos] == given_point(s.vars),
    ensures
        ({
            let t = run(weighted_program(k, i), w, s);
            let by = s.vars[Name::BlendWeight(i)];
            &&& same_input(s, t)
            &&& t.vars[Name::PosView] == plus(
                s.vars[Name::PosView],
                times(by, moved(s.vars, blend_rows(k, w, i as int), given_point(s.vars))),
            )
            &&& k.flags.has_normal ==> t.vars[Name::NBlend] == plus(
                s.vars[Name::NBlend],
                times(by, turned(s.vars, blend_rows(k, w, i as int), s.vars[Name::Attribute(1)])),
            )
            &&& t.vars[Name::WeightSum] == plus(s.vars[Name::WeightSum], by)
        }),
{
    let a = run(let_weight(i), w, s);
    let b = run(index_program(k, i), w, a);
    let c = run(term_program(k), w, b);
    assert(a.vars[Name::Weight] == s.vars[Name::BlendWeight(i)]);
    assert(typed(b.vars));
    term_runs(k, w, b, blend_rows(k, w, i as int));
    reveal_with_fuel(run, 6);
    assert(run(weighted_program(k, i), w, s) == run(grow_weights(), w, c));
}

proof fn weighted_all_run(k: FfVsKey, w: World, s: State, m: nat)
    requires
        typed(s.vars),
        names_matrices(w),
        s.vars[Name::Pos] == given_point(s.vars),
        s.vars[Name::PosView] == vec4(0 as real, 0 as real, 0 as real, 0 as real),
        k.flags.has_normal ==> s.vars[Name::NBlend] == vec3(0 as real, 0 as real, 0 as real),
        s.vars[Name::WeightSum] == scalar(0 as real),
    ensures
        ({
            let t = run(all(m, |i: int| weighted_program(k, i as nat)), w, s);
            &&& same_input(s, t)
            &&& t.vars[Name::PosView] == view_sum(k, w, s.vars, m)
            &&& k.flags.has_normal ==> t.vars[Name::NBlend] == normal_sum(k, w, s.vars, m)
            &&& t.vars[Name::WeightSum] == scalar(weights(s.vars, m))
        }),
    decreases m,
{
    let f = |i: int| weighted_program(k, i as nat);
    if m > 0 {
        let l = (m - 1) as nat;
        weighted_all_run(k, w, s, l);
        let a = run(all(l, f), w, s);
        assert(typed(a.vars));
        assert(given_point(a.vars) == given_point(s.vars));
        weighted_runs(k, w, a, l);
        let rows = blend_rows(k, w, l as int);
        assert(moved(a.vars, rows, given_point(s.vars)) == moved(
            s.vars,
            rows,
            given_point(s.vars),
        ));
        assert(turned(a.vars, rows, s.vars[Name::Attribute(1)]) == turned(
            s.vars,
            rows,
            s.vars[Name::Attribute(1)],
        ));
        assert(f(m - 1) == weighted_program(k, l));
        assert(run(all(m, f), w, s) == run(weighted_program(k, l), w, a));
    }
}

#[verifier::rlimit(40)]
proof fn many_runs(k: FfVsKey, w: World, s: State)
    requires
        k.vertex_blend_count > 0,
        !(k.vertex_blend_count == 1 && k.flags.vertex_blend_indexed),
        typed(s.vars),
        names_matrices(w),
        s.vars[Name::Pos] == given_point(s.vars),
        s.vars[Name::PosView] == vec4(0 as real, 0 as real, 0 as real, 0 as real),
        k.flags.has_normal ==> s.vars[Name::NBlend] == vec3(0 as real, 0 as real, 0 as real),
    ensures
        ({
            let t = run(many_program(k), w, s);
            &&& same_input(s, t)
            &&& t.vars[Name::PosView] == view_position(k, w, s.vars)
            &&& k.flags.has_normal ==> t.vars[Name::NBlend] == blended_normal(k, w, s.vars)
        }),
{
    let m = (k.vertex_blend_count - 1) as nat;
    let f = |i: int| weighted_program(k, i as nat);
    let a = run(zero_weights(), w, s);
    reveal_with_fuel(run, 6);
    reveal_with_fuel(eval, 6);
    assert(a.vars[Name::WeightSum] == scalar(0 as real));
    weighted_all_run(k, w, a, m);
    let b = run(all(m, f), w, a);
    let c = run(last_weight(), w, b);
    let d = run(index_program(k, m), w, c);
    assert(typed(d.vars));
    let rows = blend_rows(k, w, m as int);
    term_runs(k, w, d, rows);
    assert(run(many_program(k), w, s) == run(term_program(k), w, d));
    sums_of_same_input(k, w, s.vars, a.vars, m);
    assert(d.vars[Name::Weight] == scalar(1 as real - weights(s.vars, m)));
    assert(moved(d.vars, rows, given_point(s.vars)) == moved(s.vars, rows, given_point(s.vars)));
    assert(turned(d.vars, rows, s.vars[Name::Attribute(1)]) == turned(
        s.vars,
        rows,
        s.vars[Name::Attribute(1)],
    ));
}

proof fn sums_of_same_input(k: FfVsKey, w: World, u: Map<Name, Value>, v: Map<Name, Value>, m: nat)
    requires
        forall|n: Name| n is Row || n is Attribute || n is BlendWeight ==> #[trigger] u[n] == v[n],
    ensures
        view_sum(k, w, u, m) == view_sum(k, w, v, m),
        normal_sum(k, w, u, m) == normal_sum(k, w, v, m),
        weights(u, m) == weights(v, m),
    decreases m,
{
    if m > 0 {
        sums_of_same_input(k, w, u, v, (m - 1) as nat);
        let rows = blend_rows(k, w, m - 1);
        let n = Name::BlendWeight((m - 1) as nat);
        assert(u[n] == v[n]);
        assert(u[Name::Attribute(0)] == v[Name::Attribute(0)]);
        assert(u[Name::Attribute(1)] == v[Name::Attribute(1)]);
        assert(moved(u, rows, given_point(u)) == moved(v, rows, given_point(v)));
        assert(turned(u, rows, u[Name::Attribute(1)]) == turned(v, rows, v[Name::Attribute(1)]));
    }
}

#[verifier::rlimit(40)]
proof fn blend_runs(k: FfVsKey, w: World, s: State)
    requires
        k.vertex_blend_count > 0,
        typed(s.vars),
        names_matrices(w),
        s.vars[Name::Pos] == given_point(s.vars),
    ensures
        ({
            let t = run(blend_program(k), w, s);
            &&& same_input(s, t)
            &&& t.vars[Name::PosView] == view_position(k, w, s.vars)
            &&& k.flags.has_normal ==> t.vars[Name::NBlend] == blended_normal(k, w, s.vars)
        }),
{
    reveal_with_fuel(run, 8);
    reveal_with_fuel(eval, 9);
    let a = run(zero_view(), w, s);
    let b = run(only_if(k.flags.has_normal, zero_normal()), w, a);
    assert(b.vars[Name::PosView] == vec4(0 as real, 0 as real, 0 as real, 0 as real));
    assert(same_input(s, b));
    let m = (k.vertex_blend_count - 1) as nat;
    sums_of_same_input(k, w, s.vars, b.vars, m);
    if k.vertex_blend_count == 1 && k.flags.vertex_blend_indexed {
        let rows = blend_rows(k, w, 0);
        let c = run(find_rows(), w, run(first_index(), w, b));
        assert(c.base == rows);
        let d = run(set_view(), w, c);
        assert(d.vars[Name::PosView] == moved(s.vars, rows, given_point(s.vars)));
    } else {
        many_runs(k, w, b);
        let rows = blend_rows(k, w, m as int);
        assert(moved(b.vars, rows, given_point(b.vars)) == moved(
            s.vars,
            rows,
            given_point(s.vars),
        ));
        assert(turned(b.vars, rows, b.vars[Name::Attribute(1)]) == turned(
            s.vars,
            rows,
            s.vars[Name::Attribute(1)],
        ));
    }
}

pub proof fn point_size_runs(k: FfVsKey, scale: bool, w: World, s: State)
    requires
        typed(s.vars),
    ensures
        ({
            let t = run(point_size_program(k, scale), w, s);
            &&& t.vars[Name::OutPointSize].x == point_size(
                k,
                scale,
                w.functions,
                s.vars,
                s.vars[Name::PosView],
            )
            &&& forall|n: Name| !(n is Psize || n is De || n is OutPointSize)
                ==> #[trigger] t.vars[n] == s.vars[n]
        }),
{
    reveal_with_fuel(run, 6);
    reveal_with_fuel(eval, 12);
    let a = run(
        if k.flags.has_psize {
            size_of_vertex()
        } else {
            size_of_draw()
        },
        w,
        s,
    );
    let b = run(only_if(scale, let_distance()), w, a);
    if scale {
        assert(b.vars[Name::De].x == magnitude(direction(s.vars[Name::PosView]), w.functions));
    }
    let c = run(only_if(scale, scale_size()), w, b);
    let d = run(set_size(), w, c);
    assert(run(point_size_program(k, scale), w, s) == d);
}

/// The statements that place a vertex give it the position of its view-space position by
/// rows 4 to 7, and that one by rows 0 to 3 or between the matrices that the vertex
/// follows; and they give a point its size.
pub proof fn vertices_are_placed(k: FfVsKey)
    ensures
        exists|p: Stmt| #[trigger]
            spells(vs_position_text(k), p, 1) && (forall|w: World, s: State|
                typed(s.vars) && names_matrices(w) ==> {
                    let t = #[trigger] run(p, w, s);
                    &&& t.vars[Name::PosView] == view_position(k, w, s.vars)
                    &&& t.vars[Name::OutPosition] == screen_position(k, w, s.vars)
                    &&& t.vars[Name::OutPointSize].x == point_size(
                        k,
                        k.flags.point_scale,
                        w.functions,
                        s.vars,
                        view_position(k, w, s.vars),
                    )
                    &&& k.vertex_blend_count > 0 && k.flags.has_normal ==> t.vars[Name::NBlend]
                        == blended_normal(k, w, s.vars)
                }),
{
    position_spelled(k);
    let p = position_program(k);
    assert(spells(vs_position_text(k), p, 1));
    assert forall|w: World, s: State| typed(s.vars) && names_matrices(w) implies ({
        let t = #[trigger] run(p, w, s);
        &&& t.vars[Name::PosView] == view_position(k, w, s.vars)
        &&& t.vars[Name::OutPosition] == screen_position(k, w, s.vars)
        &&& t.vars[Name::OutPointSize].x == point_size(
            k,
            k.flags.point_scale,
            w.functions,
            s.vars,
            view_position(k, w, s.vars),
        )
        &&& k.vertex_blend_count > 0 && k.flags.has_normal ==> t.vars[Name::NBlend]
            == blended_normal(k, w, s.vars)
    }) by {
        position_runs(k, w, s);
    }
}

/// Whether two states agree on what a shader is given.
pub open spec fn same_given(s: State, t: State) -> bool {
    forall|n: Name|
        n is Row || n is Attribute || n is BlendWeight || n is InvView || n is ClipPlane
            || n is PosFixup || n is DrawPoint || n is DrawPointScale || n is VertexSize
            ==> #[trigger] t.vars[n] == s.vars[n]
}

#[verifier::rlimit(40)]
pub proof fn position_runs(k: FfVsKey, w: World, s: State)
    requires
        typed(s.vars),
        names_matrices(w),
    ensures
        ({
            let t = run(position_program(k), w, s);
            &&& t.vars[Name::Pos] == given_point(s.vars)
            &&& t.vars[Name::PosView] == view_position(k, w, s.vars)
            &&& t.vars[Name::OutPosition] == screen_position(k, w, s.vars)
            &&& t.vars[Name::OutPointSize].x == point_size(
                k,
                k.flags.point_scale,
                w.functions,
                s.vars,
                view_position(k, w, s.vars),
            )
            &&& k.vertex_blend_count > 0 && k.flags.has_normal ==> t.vars[Name::NBlend]
                == blended_normal(k, w, s.vars)
            &&& same_given(s, t)
        }),
{
    reveal_with_fuel(run, 9);
    reveal_with_fuel(eval, 9);
    let a = run(let_pos(), w, s);
    assert(a.vars[Name::Pos] == given_point(s.vars));
    assert(given_point(a.vars) == given_point(s.vars));
    assert(typed(a.vars));
    let b = run(only_if(k.vertex_blend_count > 0, blend_program(k)), w, a);
    let c = run(only_if(k.vertex_blend_count == 0, let_view()), w, b);
    if k.vertex_blend_count > 0 {
        blend_runs(k, w, a);
        let m = (k.vertex_blend_count - 1) as nat;
        sums_of_same_input(k, w, s.vars, a.vars, m);
        let rows = blend_rows(k, w, m as int);
        assert(moved(a.vars, rows, given_point(a.vars)) == moved(
            s.vars,
            rows,
            given_point(s.vars),
        ));
        assert(turned(a.vars, rows, a.vars[Name::Attribute(1)]) == turned(
            s.vars,
            rows,
            s.vars[Name::Attribute(1)],
        ));
        assert(view_position(k, w, a.vars) == view_position(k, w, s.vars));
        assert(blended_normal(k, w, a.vars) == blended_normal(k, w, s.vars));
    } else {
        assert(c.vars[Name::PosView] == moved(s.vars, 0, given_point(s.vars)));
    }
    let v = view_position(k, w, s.vars);
    assert(c.vars[Name::PosView] == v);
    let d = run(project(), w, c);
    assert(d.vars[Name::OutPosition] == moved(s.vars, 4, v));
    let e = run(fix_y(), w, run(fix_x(), w, d));
    assert(e.vars[Name::OutPosition] == screen_position(k, w, s.vars));
    assert(typed(e.vars));
    point_size_runs(k, k.flags.point_scale, w, e);
    assert(run(position_program(k), w, s) == run(
        point_size_program(k, k.flags.point_scale),
        w,
        e,
    ));
}

} // verus!
