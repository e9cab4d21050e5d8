//! Which texture coordinates the vertex shader hands on.

use super::ff::FfVsKey;
use super::ff_vs::{
    masked_input_rhs_text, rhw_coord_text, rhw_coords_text, row_text, set_dim, stage_coord_text,
    stage_coords_text, stage_homogeneous_text, stage_kept_text, stage_plain_text, stage_raw_text,
    stage_reflection_text, stage_row_text, stage_source, stage_transformed_text, zero_coord_text,
    zero_coords_text,
};
use super::shading::{
    all, all_spelled, block, both, both_spelled, eval, level, minus, nth, only_if, only_if_spelled,
    product, proper, regrouped, run, scalar, show, spells, spells_value, times, unit, vec4, Expr,
    Functions, Name, State, Stmt, Value, World,
};
use super::vs_position::{block_spelled, moved, typed};
use super::vs_text::{
    coord_row, coord_row_spelled, declare_raw, declare_raw_spelled, eye_vector, eye_vector_spelled,
    kept2, kept2_projected, kept2_projected_spelled, kept2_spelled, kept3, kept3_projected,
    kept3_projected_spelled, kept3_spelled, let_eye, let_eye_spelled, let_raw, let_raw_spelled,
    let_reflected, let_reflected_spelled, let_transformed, let_transformed_spelled, none_of,
    none_of_spelled, one_behind, one_behind_spelled, one_of, one_of_spelled, projected_w,
    projected_w_spelled, projected_x, projected_x_spelled, projected_y, projected_y_spelled,
    projected_z, projected_z_spelled, set_coord, set_coord_point, set_coord_point_spelled,
    set_coord_spelled, set_raw, set_raw_spelled, texgen_vector, texgen_vector_spelled, three_of,
    three_of_spelled, two_of, two_of_spelled, zero_coord, zero_coord_spelled,
};
use crate::text::{dec, given};
use vstd::prelude::*;

verus! {

/// How many components the vertex has in the coordinate set that stage `i` reads.
pub open spec fn own_dim(k: FfVsKey, i: int) -> int {
    let src = source_set(k, i);
    if src < k.input_tex_coord_count {
        k.tex_coord_dims@[src] as int
    } else {
        0
    }
}

/// The coordinate set that stage `i` reads.
pub open spec fn source_set(k: FfVsKey, i: int) -> int {
    if k.tci_coord_indices@[i] <= 7 {
        k.tci_coord_indices@[i] as int
    } else {
        7
    }
}

/// Coordinate set `src` of the vertex, zero where the vertex gives nothing.
pub open spec fn own_coord(k: FfVsKey, i: int, vars: Map<Name, Value>) -> Value {
    let v = vars[Name::Attribute((4 + source_set(k, i)) as nat)];
    let n = own_dim(k, i);
    let none = 0 as real;
    if n == 1 {
        vec4(v.x, none, none, none)
    } else if n == 2 {
        vec4(v.x, v.y, none, none)
    } else if n == 3 {
        vec4(v.x, v.y, v.z, none)
    } else if n == 4 {
        v
    } else {
        vec4(none, none, none, none)
    }
}

/// The direction to the vertex, mirrored at the normal.
pub open spec fn reflection(normal: Value, eye: Value, f: Functions) -> Value {
    let e = unit(eye, f);
    minus(
        times(times(scalar(2 as real), normal), scalar(product(normal, e))),
        e,
    )
}

/// How stage `i` gets its coordinate: 1 from the normal, 2 from the position, 3 from the
/// reflection, 0 from the vertex. What needs a normal needs one that is there.
pub open spec fn generation(k: FfVsKey, i: int) -> int {
    let mode = k.tci_modes@[i];
    if mode == 1 && k.flags.has_normal {
        1
    } else if mode == 2 {
        2
    } else if mode == 3 && k.flags.has_normal {
        3
    } else {
        0
    }
}

/// The coordinate of stage `i` before any matrix.
pub open spec fn raw_coord(k: FfVsKey, i: int, f: Functions, vars: Map<Name, Value>) -> Value {
    let none = 0 as real;
    if generation(k, i) == 1 {
        let n = vars[Name::NTexgen];
        vec4(n.x, n.y, n.z, none)
    } else if generation(k, i) == 2 {
        let p = vars[Name::PosEye];
        vec4(p.x, p.y, p.z, none)
    } else if generation(k, i) == 3 {
        let r = reflection(vars[Name::Normal], vars[Name::PosEye], f);
        vec4(r.x, r.y, r.z, none)
    } else {
        own_coord(k, i, vars)
    }
}

/// How many components that coordinate has.
pub open spec fn raw_dim(k: FfVsKey, i: int) -> int {
    if generation(k, i) == 0 {
        own_dim(k, i)
    } else {
        3
    }
}

/// The coordinate that stage `i` hands on. With a matrix, which starts at row 63 + 4i, it is
/// the product with the coordinate, whose component behind the last is one, cut to the
/// component count; where it is to be projected its last component is repeated as the last
/// of four, to divide by.
pub open spec fn handed_on(k: FfVsKey, i: int, f: Functions, vars: Map<Name, Value>) -> Value {
    let none = 0 as real;
    let raw = raw_coord(k, i, f, vars);
    let n = raw_dim(k, i);
    let count = (k.tt_flags@[i] & 0x07) as int;
    let projected = k.tt_flags@[i] & 0x10 != 0;
    if 2 <= count <= 4 {
        let point = if n == 1 {
            vec4(raw.x, 1 as real, raw.z, raw.w)
        } else if n == 2 {
            vec4(raw.x, raw.y, 1 as real, raw.w)
        } else if n == 3 {
            vec4(raw.x, raw.y, raw.z, 1 as real)
        } else {
            raw
        };
        let r = moved(vars, 63 + 4 * i, point);
        if count == 2 {
            vec4(
                r.x,
                r.y,
                none,
                if projected {
                    r.y
                } else {
                    none
                },
            )
        } else if count == 3 {
            vec4(
                r.x,
                r.y,
                r.z,
                if projected {
                    r.z
                } else {
                    none
                },
            )
        } else {
            r
        }
    } else if projected && n >= 1 {
        vec4(raw.x, raw.y, raw.z, nth(raw, n - 1))
    } else {
        raw
    }
}

/// The coordinate that stage `i` hands on for vertices that are already transformed: the
/// vertex's own, as a point.
pub open spec fn handed_on_as_point(k: FfVsKey, i: int, vars: Map<Name, Value>) -> Value {
    let v = own_coord(k, i, vars);
    if 1 <= own_dim(k, i) < 4 {
        vec4(v.x, v.y, v.z, 1 as real)
    } else {
        v
    }
}

spec fn own_expr(k: FfVsKey, i: int) -> Expr {
    let n = own_dim(k, i);
    let v = Expr::Var(Name::Attribute((4 + source_set(k, i)) as nat));
    if n == 1 {
        one_of(v)
    } else if n == 2 {
        two_of(v)
    } else if n == 3 {
        three_of(v)
    } else if n == 4 {
        v
    } else {
        none_of()
    }
}

proof fn own_spelled(k: FfVsKey, i: int)
    ensures
        spells_value(masked_input_rhs_text(k, stage_source(k, i)), own_expr(k, i)),
        level(own_expr(k, i)) == 7,
{
    let v = Expr::Var(Name::Attribute((4 + source_set(k, i)) as nat));
    assert(set_dim(k, stage_source(k, i)) == own_dim(k, i));
    one_of_spelled(v);
    two_of_spelled(v);
    three_of_spelled(v);
    none_of_spelled();
}

proof fn own_means(k: FfVsKey, i: int, w: World, s: State)
    requires
        typed(s.vars),
    ensures
        eval(own_expr(k, i), w, s) == own_coord(k, i, s.vars),
{
    reveal_with_fuel(eval, 8);
}

spec fn raw_program(k: FfVsKey, i: nat) -> Stmt {
    if generation(k, i as int) == 1 {
        let_raw(i, texgen_vector())
    } else if generation(k, i as int) == 2 {
        let_raw(i, eye_vector())
    } else if generation(k, i as int) == 3 {
        both(declare_raw(i), block(both(both(let_eye(), let_reflected()), set_raw(i))))
    } else {
        let_raw(i, own_expr(k, i as int))
    }
}

#[verifier::rlimit(40)]
proof fn reflection_spelled(k: FfVsKey, i: nat)
    ensures
        spells(
            stage_reflection_text(i as int),
            both(declare_raw(i), block(both(both(let_eye(), let_reflected()), set_raw(i)))),
            1,
        ),
{
    let a = "        float3 E_tci = normalize(posEye);\n"@;
    let b = "        float3 R_tci = 2.0 * n * dot(n, E_tci) - E_tci;\n"@;
    let c = Seq::<char>::empty() + "        raw"@ + dec(i) + " = float4(R_tci, 0.0);\n"@;
    let d = Seq::<char>::empty() + "    float4 raw"@ + dec(i) + ";\n"@;
    declare_raw_spelled(i);
    let_eye_spelled();
    let_reflected_spelled();
    set_raw_spelled(i);
    both_spelled(a, let_eye(), b, let_reflected(), 2);
    both_spelled(a + b, both(let_eye(), let_reflected()), c, set_raw(i), 2);
    let inner = a + b + c;
    let p = both(both(let_eye(), let_reflected()), set_raw(i));
    block_spelled(d, inner, p);
    both_spelled(d, declare_raw(i), "    {\n"@ + inner + "    }\n"@, block(p), 1);
    assert(stage_reflection_text(i as int) =~= d + "    {\n"@ + inner + "    }\n"@);
}

proof fn raw_spelled(k: FfVsKey, i: nat)
    ensures
        spells(stage_raw_text(k, i as int), raw_program(k, i), 1),
{
    texgen_vector_spelled();
    eye_vector_spelled();
    own_spelled(k, i as int);
    reflection_spelled(k, i);
    let_raw_spelled(i, texgen_vector());
    let_raw_spelled(i, eye_vector());
    let_raw_spelled(i, own_expr(k, i as int));
}

spec fn transformed_program(i: nat, n: u8, count: u8, projected: bool) -> Stmt {
    both(
        both(
            only_if(1 <= n && n < 4, one_behind(i, n as nat)),
            let_transformed(
                i,
                coord_row(i, (63 + i * 4) as nat),
                coord_row(i, (63 + i * 4 + 1) as nat),
                coord_row(i, (63 + i * 4 + 2) as nat),
                coord_row(i, (63 + i * 4 + 3) as nat),
            ),
        ),
        set_coord(i, kept_expr(i, count, projected)),
    )
}

spec fn kept_expr(i: nat, count: u8, projected: bool) -> Expr {
    if count == 2 {
        if projected {
            kept2_projected(i)
        } else {
            kept2(i)
        }
    } else if count == 3 {
        if projected {
            kept3_projected(i)
        } else {
            kept3(i)
        }
    } else {
        Expr::Var(Name::Transformed(i))
    }
}

#[verifier::rlimit(40)]
proof fn kept_spelled(i: nat, count: u8, projected: bool)
    requires
        2 <= count <= 4,
    ensures
        spells_value(
            given(count < 4, stage_kept_text(i as int, count, projected)) + given(
                count == 4,
                row_text(i as int, ""@),
            ),
            kept_expr(i, count, projected),
        ),
        level(kept_expr(i, count, projected)) == 7,
{
    kept2_spelled(i);
    kept2_projected_spelled(i);
    kept3_spelled(i);
    kept3_projected_spelled(i);
    reveal_strlit("");
    let none = Seq::<char>::empty();
    assert(""@ =~= none);
    let r = "r"@ + dec(i);
    if count == 4 {
        assert(none + (r + ""@) =~= r);
    } else {
        let t = stage_kept_text(i as int, count, projected);
        let x = "r"@ + dec(i) + ".x, "@;
        let y = "r"@ + dec(i) + ".y, "@;
        assert(t + none =~= t);
        if count == 2 {
            if projected {
                assert(none + "float4("@ + x + y + none + "0.0, "@ + (r + ".y"@) + none + none + ")"@
                    =~= "float4("@ + "r"@ + dec(i) + ".x, "@ + "r"@ + dec(i) + ".y, "@ + "0.0, "@
                    + "r"@ + dec(i) + ".y"@ + ")"@);
            } else {
                assert(none + "float4("@ + x + y + none + "0.0, "@ + none + none + "0.0"@ + ")"@
                    =~= "float4("@ + "r"@ + dec(i) + ".x, "@ + "r"@ + dec(i) + ".y, "@ + "0.0, "@
                    + "0.0"@ + ")"@);
            }
        } else {
            let z = "r"@ + dec(i) + ".z, "@;
            if projected {
                assert(none + "float4("@ + x + y + z + none + none + (r + ".z"@) + none + ")"@
                    =~= "float4("@ + "r"@ + dec(i) + ".x, "@ + "r"@ + dec(i) + ".y, "@ + "r"@
                    + dec(i) + ".z, "@ + "r"@ + dec(i) + ".z"@ + ")"@);
            } else {
                assert(none + "float4("@ + x + y + z + none + none + none + "0.0"@ + ")"@
                    =~= "float4("@ + "r"@ + dec(i) + ".x, "@ + "r"@ + dec(i) + ".y, "@ + "r"@
                    + dec(i) + ".z, "@ + "0.0"@ + ")"@);
            }
        }
    }
}

proof fn row_spelled(i: nat, row: nat)
    ensures
        stage_row_text(i as int, row as int) == show(coord_row(i, (63 + i * 4 + row) as nat)),
        proper(coord_row(i, (63 + i * 4 + row) as nat)),
        level(coord_row(i, (63 + i * 4 + row) as nat)) == 7,
{
    let r = (63 + i * 4 + row) as nat;
    coord_row_spelled(i, r);
    assert(Seq::<char>::empty() + "dot(raw"@ + dec(i) + ", vs_c["@ + dec(r) + "])"@ =~= "dot(raw"@
        + dec(i) + ", vs_c["@ + dec(r) + "])"@);
}

#[verifier::rlimit(40)]
proof fn transformed_spelled(i: nat, n: u8, count: u8, projected: bool)
    requires
        2 <= count <= 4,
    ensures
        spells(
            stage_transformed_text(i as int, n, count, projected),
            transformed_program(i, n, count, projected),
            1,
        ),
{
    let a = coord_row(i, (63 + i * 4) as nat);
    let b = coord_row(i, (63 + i * 4 + 1) as nat);
    let c = coord_row(i, (63 + i * 4 + 2) as nat);
    let d = coord_row(i, (63 + i * 4 + 3) as nat);
    row_spelled(i, 0);
    row_spelled(i, 1);
    row_spelled(i, 2);
    row_spelled(i, 3);
    one_behind_spelled(i, n as nat);
    let_transformed_spelled(i, a, b, c, d);
    kept_spelled(i, count, projected);
    let e = kept_expr(i, count, projected);
    set_coord_spelled(i, e);
    let none = Seq::<char>::empty();
    let first = given(1 <= n && n < 4, stage_homogeneous_text(i as int, n));
    let second = none + "    float4 r"@ + dec(i) + " = float4("@ + show(a) + ", "@ + show(b) + ", "@
        + show(c) + ", "@ + show(d) + ");\n"@;
    let u = given(count < 4, stage_kept_text(i as int, count, projected));
    let v = given(count == 4, row_text(i as int, ""@));
    let third = none + "    out.texcoord"@ + dec(i) + " = "@ + (u + v) + ";\n"@;
    only_if_spelled(
        1 <= n && n < 4,
        stage_homogeneous_text(i as int, n),
        one_behind(i, n as nat),
        1,
    );
    both_spelled(
        first,
        only_if(1 <= n && n < 4, one_behind(i, n as nat)),
        second,
        let_transformed(i, a, b, c, d),
        1,
    );
    both_spelled(
        first + second,
        both(
            only_if(1 <= n && n < 4, one_behind(i, n as nat)),
            let_transformed(i, a, b, c, d),
        ),
        third,
        set_coord(i, e),
        1,
    );
    let x = none + first + "    float4 r"@ + dec(i) + " = float4("@ + show(a) + ", "@ + show(b)
        + ", "@ + show(c) + ", "@ + show(d) + ");\n"@;
    nine_behind(
        first,
        "    float4 r"@,
        dec(i),
        " = float4("@,
        show(a),
        show(b),
        show(c),
        show(d),
        ");\n"@,
        ", "@,
    );
    five_behind(x, "    out.texcoord"@, dec(i), " = "@, u, v, ";\n"@);
}

proof fn nine_behind(
    t: Seq<char>,
    a: Seq<char>,
    b: Seq<char>,
    c: Seq<char>,
    d: Seq<char>,
    e: Seq<char>,
    f: Seq<char>,
    g: Seq<char>,
    h: Seq<char>,
    z: Seq<char>,
)
    ensures
        Seq::<char>::empty() + t + a + b + c + d + z + e + z + f + z + g + h == t + (
        Seq::<char>::empty() + a + b + c + d + z + e + z + f + z + g + h),
{
    let none = Seq::<char>::empty();
    assert(none + t =~= t);
    assert(none + a =~= a);
    regrouped(t, a + b + c + d + z + e + z + f + z + g, h);
    regrouped(t, a + b + c + d + z + e + z + f + z, g);
    regrouped(t, a + b + c + d + z + e + z + f, z);
    regrouped(t, a + b + c + d + z + e + z, f);
    regrouped(t, a + b + c + d + z + e, z);
    regrouped(t, a + b + c + d + z, e);
    regrouped(t, a + b + c + d, z);
    regrouped(t, a + b + c, d);
    regrouped(t, a + b, c);
    regrouped(t, a, b);
}

proof fn five_behind(
    t: Seq<char>,
    a: Seq<char>,
    b: Seq<char>,
    c: Seq<char>,
    d: Seq<char>,
    e: Seq<char>,
    f: Seq<char>,
)
    ensures
        t + a + b + c + d + e + f == t + (Seq::<char>::empty() + a + b + c + (d + e) + f),
{
    let none = Seq::<char>::empty();
    assert(none + a =~= a);
    regrouped(t, a + b + c + (d + e), f);
    regrouped(t, a + b + c, d + e);
    regrouped(t + (a + b + c), d, e);
    regrouped(t, a + b, c);
    regrouped(t, a, b);
}

spec fn plain_expr(i: nat, n: u8, projected: bool) -> Expr {
    if projected && n >= 1 {
        if n == 1 {
            projected_x(i)
        } else if n == 2 {
            projected_y(i)
        } else if n == 3 {
            projected_z(i)
        } else {
            projected_w(i)
        }
    } else {
        Expr::Var(Name::Raw(i))
    }
}

proof fn plain_spelled(i: nat, n: u8, projected: bool)
    ensures
        spells(
            stage_plain_text(i as int, n, projected),
            set_coord(i, plain_expr(i, n, projected)),
            1,
        ),
{
    projected_x_spelled(i);
    projected_y_spelled(i);
    projected_z_spelled(i);
    projected_w_spelled(i);
    let e = plain_expr(i, n, projected);
    set_coord_spelled(i, e);
    let none = Seq::<char>::empty();
    let head = none + "    out.texcoord"@ + dec(i) + " = "@;
    if projected && n >= 1 {
        let c = super::ff_vs::component(n);
        divided_line(head, "float4("@, "raw"@, dec(i), ".xyz, raw"@, "."@, c, ")"@);
    } else {
        assert(head + none =~= head);
        regrouped(head, "raw"@, dec(i));
        assert(head + "raw"@ + dec(i) + none =~= head + "raw"@ + dec(i));
    }
}

proof fn divided_line(
    t: Seq<char>,
    a: Seq<char>,
    b: Seq<char>,
    d: Seq<char>,
    x: Seq<char>,
    p: Seq<char>,
    c: Seq<char>,
    z: Seq<char>,
)
    ensures
        t + a + b + d + (Seq::<char>::empty() + x + d + p + c + z) == t + (a + b + d + x + d + p + c
            + z),
{
    assert(Seq::<char>::empty() + x =~= x);
    let u = t + a + b + d;
    regrouped(u, x + d + p + c, z);
    regrouped(u, x + d + p, c);
    regrouped(u, x + d, p);
    regrouped(u, x, d);
    regrouped(t, a + b + d + x + d + p + c, z);
    regrouped(t, a + b + d + x + d + p, c);
    regrouped(t, a + b + d + x + d, p);
    regrouped(t, a + b + d + x, d);
    regrouped(t, a + b + d, x);
    regrouped(t, a + b, d);
    regrouped(t, a, b);
}

spec fn coord_program(k: FfVsKey, i: nat) -> Stmt {
    let count = k.tt_flags@[i as int] & 0x07;
    let projected = k.tt_flags@[i as int] & 0x10 != 0;
    let n = super::ff_vs::stage_dim(k, i as int);
    both(
        raw_program(k, i),
        if 2 <= count <= 4 {
            transformed_program(i, n, count, projected)
        } else {
            set_coord(i, plain_expr(i, n, projected))
        },
    )
}

#[verifier::rlimit(40)]
proof fn coord_spelled(k: FfVsKey, i: nat)
    ensures
        spells(stage_coord_text(k, i as int), coord_program(k, i), 1),
{
    let count = k.tt_flags@[i as int] & 0x07;
    let projected = k.tt_flags@[i as int] & 0x10 != 0;
    let n = super::ff_vs::stage_dim(k, i as int);
    let none = Seq::<char>::empty();
    let raw = stage_raw_text(k, i as int);
    raw_spelled(k, i);
    if 2 <= count <= 4 {
        transformed_spelled(i, n, count, projected);
        let t = stage_transformed_text(i as int, n, count, projected);
        both_spelled(raw, raw_program(k, i), t, transformed_program(i, n, count, projected), 1);
        assert(none + raw + t + none =~= raw + t);
    } else {
        plain_spelled(i, n, projected);
        let t = stage_plain_text(i as int, n, projected);
        both_spelled(raw, raw_program(k, i), t, set_coord(i, plain_expr(i, n, projected)), 1);
        assert(none + raw + none + t =~= raw + t);
    }
}

/// The statements that compute the coordinates.
pub closed spec fn coords_program(k: FfVsKey) -> Stmt {
    all(k.tex_coord_count as nat, |i: int| coord_program(k, i as nat))
}

pub proof fn coords_spelled(k: FfVsKey)
    ensures
        spells(stage_coords_text(k), coords_program(k), 1),
{
    let f = |i: int| stage_coord_text(k, i);
    let p = |i: int| coord_program(k, i as nat);
    let n = k.tex_coord_count as nat;
    assert forall|i: int| 0 <= i < n implies spells(#[trigger] f(i), p(i), 1) by {
        coord_spelled(k, i as nat);
    }
    all_spelled(n, f, p, 1);
}

/// Whether a name belongs to the coordinates.
pub open spec fn of_coords(n: Name) -> bool {
    n is Raw || n is Transformed || n is OutTexcoord || n is Eye || n is Reflected
}

proof fn raw_runs(k: FfVsKey, i: nat, w: World, s: State)
    requires
        typed(s.vars),
        s.vars[Name::NTexgen].n == 3 || generation(k, i as int) != 1,
        s.vars[Name::PosEye].n == 3 || generation(k, i as int) == 0 || generation(k, i as int) == 1,
        s.vars[Name::Normal].n == 3 || generation(k, i as int) != 3,
    ensures
        ({
            let t = run(raw_program(k, i), w, s);
            &&& t.vars[Name::Raw(i)] == raw_coord(k, i as int, w.functions, s.vars)
            &&& forall|n: Name|
                !(n == Name::Raw(i) || n is Eye || n is Reflected) ==> #[trigger] t.vars[n]
                    == s.vars[n]
        }),
{
    reveal_with_fuel(run, 6);
    reveal_with_fuel(eval, 8);
    own_means(k, i as int, w, s);
}

proof fn transformed_runs(i: nat, n: u8, count: u8, projected: bool, w: World, s: State)
    requires
        typed(s.vars),
        2 <= count <= 4,
        s.vars[Name::Raw(i)].n == 4,
    ensures
        ({
            let t = run(transformed_program(i, n, count, projected), w, s);
            let raw = s.vars[Name::Raw(i)];
            let none = 0 as real;
            let point = if n == 1 {
                vec4(raw.x, 1 as real, raw.z, raw.w)
            } else if n == 2 {
                vec4(raw.x, raw.y, 1 as real, raw.w)
            } else if n == 3 {
                vec4(raw.x, raw.y, raw.z, 1 as real)
            } else {
                raw
            };
            let r = moved(s.vars, 63 + 4 * (i as int), point);
            &&& t.vars[Name::OutTexcoord(i)] == (if count == 2 {
                vec4(
                    r.x,
                    r.y,
                    none,
                    if projected {
                        r.y
                    } else {
                        none
                    },
                )
            } else if count == 3 {
                vec4(
                    r.x,
                    r.y,
                    r.z,
                    if projected {
                        r.z
                    } else {
                        none
                    },
                )
            } else {
                r
            })
            &&& forall|m: Name|
                !(m == Name::Raw(i) || m == Name::Transformed(i) || m == Name::OutTexcoord(i))
                    ==> #[trigger] t.vars[m] == s.vars[m]
        }),
{
    reveal_with_fuel(run, 4);
    reveal_with_fuel(eval, 8);
    let p = only_if(1 <= n && n < 4, one_behind(i, n as nat));
    let a = run(p, w, s);
    let q = let_transformed(
        i,
        coord_row(i, (63 + i * 4) as nat),
        coord_row(i, (63 + i * 4 + 1) as nat),
        coord_row(i, (63 + i * 4 + 2) as nat),
        coord_row(i, (63 + i * 4 + 3) as nat),
    );
    let b = run(q, w, a);
    assert(b.vars[Name::Transformed(i)] == moved(s.vars, 63 + 4 * (i as int), a.vars[Name::Raw(i)]));
    let c = run(set_coord(i, kept_expr(i, count, projected)), w, b);
    assert(run(transformed_program(i, n, count, projected), w, s) == c);
}

proof fn plain_runs(i: nat, n: u8, projected: bool, w: World, s: State)
    requires
        s.vars[Name::Raw(i)].n == 4,
        projected ==> n <= 4,
    ensures
        ({
            let t = run(set_coord(i, plain_expr(i, n, projected)), w, s);
            let raw = s.vars[Name::Raw(i)];
            &&& t.vars[Name::OutTexcoord(i)] == (if projected && n >= 1 {
                vec4(raw.x, raw.y, raw.z, nth(raw, n - 1))
            } else {
                raw
            })
            &&& forall|m: Name|
                !(m == Name::OutTexcoord(i)) ==> #[trigger] t.vars[m] == s.vars[m]
        }),
{
    reveal_with_fuel(eval, 8);
}

/// What the coordinates are computed from has the size that it is declared with.
pub open spec fn coords_ready(k: FfVsKey, vars: Map<Name, Value>) -> bool {
    forall|i: int|
        0 <= i < k.tex_coord_count ==> {
            let g = #[trigger] generation(k, i);
            &&& g == 1 ==> vars[Name::NTexgen].n == 3
            &&& g == 2 || g == 3 ==> vars[Name::PosEye].n == 3
            &&& g == 3 ==> vars[Name::Normal].n == 3
        }
}

proof fn coord_runs(k: FfVsKey, i: nat, w: World, s: State)
    requires
        typed(s.vars),
        super::ff_vs::emittable(k),
        !k.flags.has_rhw,
        i < k.tex_coord_count,
        coords_ready(k, s.vars),
    ensures
        ({
            let t = run(coord_program(k, i), w, s);
            &&& t.vars[Name::OutTexcoord(i)] == handed_on(k, i as int, w.functions, s.vars)
            &&& forall|n: Name|
                !(n == Name::Raw(i) || n == Name::Transformed(i) || n == Name::OutTexcoord(i)
                    || n is Eye || n is Reflected) ==> #[trigger] t.vars[n] == s.vars[n]
        }),
{
    let count = k.tt_flags@[i as int] & 0x07;
    let projected = k.tt_flags@[i as int] & 0x10 != 0;
    let n = super::ff_vs::stage_dim(k, i as int);
    assert(generation(k, i as int) >= 0);
    raw_runs(k, i, w, s);
    let a = run(raw_program(k, i), w, s);
    assert(typed(a.vars));
    assert(a.vars[Name::Raw(i)].n == 4);
    assert(n == raw_dim(k, i as int));
    if 2 <= count <= 4 {
        transformed_runs(i, n, count, projected, w, a);
        let base = 63 + 4 * (i as int);
        assert forall|v: Value| #[trigger] moved(a.vars, base, v) == moved(s.vars, base, v) by {}
    } else {
        assert(super::ff_vs::tt_projected_spec(k.tt_flags@[i as int]) == projected);
        plain_runs(i, n, projected, w, a);
    }
}

proof fn coords_run_up_to(k: FfVsKey, m: nat, w: World, s: State)
    requires
        typed(s.vars),
        super::ff_vs::emittable(k),
        !k.flags.has_rhw,
        m <= k.tex_coord_count,
        coords_ready(k, s.vars),
    ensures
        ({
            let t = run(all(m, |i: int| coord_program(k, i as nat)), w, s);
            &&& forall|i: nat|
                i < m ==> #[trigger] t.vars[Name::OutTexcoord(i)] == handed_on(
                    k,
                    i as int,
                    w.functions,
                    s.vars,
                )
            &&& forall|n: Name| !of_coords(n) ==> #[trigger] t.vars[n] == s.vars[n]
        }),
    decreases m,
{
    let f = |i: int| coord_program(k, i as nat);
    if m > 0 {
        let l = (m - 1) as nat;
        coords_run_up_to(k, l, w, s);
        let a = run(all(l, f), w, s);
        assert(typed(a.vars));
        coord_runs(k, l, w, a);
        assert(f(m - 1) == coord_program(k, l));
        let t = run(coord_program(k, l), w, a);
        assert(run(all(m, f), w, s) == t);
        same_coord(k, l as int, w.functions, s.vars, a.vars);
        assert forall|i: nat| i < m implies #[trigger] t.vars[Name::OutTexcoord(i)] == handed_on(
            k,
            i as int,
            w.functions,
            s.vars,
        ) by {
            if i < l {
                assert(t.vars[Name::OutTexcoord(i)] == a.vars[Name::OutTexcoord(i)]);
            }
        }
    }
}

proof fn same_coord(k: FfVsKey, i: int, f: Functions, u: Map<Name, Value>, v: Map<Name, Value>)
    requires
        0 <= i,
        forall|n: Name| !of_coords(n) ==> #[trigger] v[n] == u[n],
    ensures
        handed_on(k, i, f, v) == handed_on(k, i, f, u),
{
    assert(v[Name::NTexgen] == u[Name::NTexgen]);
    assert(v[Name::PosEye] == u[Name::PosEye]);
    assert(v[Name::Normal] == u[Name::Normal]);
    assert(v[Name::Attribute((4 + source_set(k, i)) as nat)] == u[Name::Attribute(
        (4 + source_set(k, i)) as nat,
    )]);
    let base = 63 + 4 * i;
    assert forall|x: Value| #[trigger] moved(v, base, x) == moved(u, base, x) by {}
}

/// Every stage gets the coordinate that its generation mode, its matrix and its component
/// count ask for.
pub proof fn coords_run(k: FfVsKey, w: World, s: State)
    requires
        typed(s.vars),
        super::ff_vs::emittable(k),
        !k.flags.has_rhw,
        coords_ready(k, s.vars),
    ensures
        ({
            let t = run(coords_program(k), w, s);
            &&& forall|i: nat|
                i < k.tex_coord_count ==> #[trigger] t.vars[Name::OutTexcoord(i)] == handed_on(
                    k,
                    i as int,
                    w.functions,
                    s.vars,
                )
            &&& forall|n: Name| !of_coords(n) ==> #[trigger] t.vars[n] == s.vars[n]
        }),
{
    coords_run_up_to(k, k.tex_coord_count as nat, w, s);
}

/// The statements that clear the coordinates from `from` on.
pub closed spec fn zeros_program(from: nat) -> Stmt {
    all((8 - from) as nat, |i: int| zero_coord((from + i) as nat))
}

pub proof fn zeros_spelled(from: nat)
    ensures
        spells(zero_coords_text(from as int), zeros_program(from), 1),
{
    let f = |i: int| zero_coord_text(from + i);
    let p = |i: int| zero_coord((from + i) as nat);
    let n = (8 - from) as nat;
    assert forall|i: int| 0 <= i < n implies spells(#[trigger] f(i), p(i), 1) by {
        zero_coord_spelled((from + i) as nat);
    }
    all_spelled(n, f, p, 1);
}

proof fn zeros_run_up_to(from: nat, m: nat, w: World, s: State)
    ensures
        ({
            let t = run(all(m, |i: int| zero_coord((from + i) as nat)), w, s);
            &&& forall|i: nat|
                from <= i < from + m ==> #[trigger] t.vars[Name::OutTexcoord(i)] == vec4(
                    0 as real,
                    0 as real,
                    0 as real,
                    0 as real,
                )
            &&& forall|i: nat|
                i < from ==> #[trigger] t.vars[Name::OutTexcoord(i)] == s.vars[Name::OutTexcoord(i)]
            &&& forall|n: Name| !(n is OutTexcoord) ==> #[trigger] t.vars[n] == s.vars[n]
        }),
    decreases m,
{
    let f = |i: int| zero_coord((from + i) as nat);
    if m > 0 {
        let l = (m - 1) as nat;
        zeros_run_up_to(from, l, w, s);
        let a = run(all(l, f), w, s);
        reveal_with_fuel(eval, 4);
        assert(f(m - 1) == zero_coord((from + l) as nat));
        assert(run(all(m, f), w, s) == run(zero_coord((from + l) as nat), w, a));
    }
}

/// The coordinates that nothing feeds are zero.
pub proof fn zeros_run(from: nat, w: World, s: State)
    ensures
        ({
            let t = run(zeros_program(from), w, s);
            &&& forall|i: nat|
                from <= i < 8 ==> #[trigger] t.vars[Name::OutTexcoord(i)] == vec4(
                    0 as real,
                    0 as real,
                    0 as real,
                    0 as real,
                )
            &&& forall|i: nat|
                i < from ==> #[trigger] t.vars[Name::OutTexcoord(i)] == s.vars[Name::OutTexcoord(i)]
            &&& forall|n: Name| !(n is OutTexcoord) ==> #[trigger] t.vars[n] == s.vars[n]
        }),
{
    zeros_run_up_to(from, (8 - from) as nat, w, s);
}

spec fn point_program(k: FfVsKey, i: nat) -> Stmt {
    if 1 <= own_dim(k, i as int) < 4 {
        set_coord_point(i, own_expr(k, i as int))
    } else {
        set_coord(i, own_expr(k, i as int))
    }
}

#[verifier::rlimit(40)]
proof fn point_spelled(k: FfVsKey, i: nat)
    ensures
        spells(rhw_coord_text(k, i as int), point_program(k, i), 1),
{
    let e = own_expr(k, i as int);
    own_spelled(k, i as int);
    set_coord_spelled(i, e);
    set_coord_point_spelled(i, e);
    assert(set_dim(k, stage_source(k, i as int)) == own_dim(k, i as int));
    let none = Seq::<char>::empty();
    let head = none + "    out.texcoord"@ + dec(i) + " = "@;
    assert(head + none + show(e) + none + ";\n"@ =~= head + show(e) + ";\n"@);
}

/// The statements that hand on the coordinates of vertices that are already transformed.
pub closed spec fn points_program(k: FfVsKey) -> Stmt {
    all(k.tex_coord_count as nat, |i: int| point_program(k, i as nat))
}

pub proof fn points_spelled(k: FfVsKey)
    ensures
        spells(rhw_coords_text(k), points_program(k), 1),
{
    let f = |i: int| rhw_coord_text(k, i);
    let p = |i: int| point_program(k, i as nat);
    let n = k.tex_coord_count as nat;
    assert forall|i: int| 0 <= i < n implies spells(#[trigger] f(i), p(i), 1) by {
        point_spelled(k, i as nat);
    }
    all_spelled(n, f, p, 1);
}

proof fn points_run_up_to(k: FfVsKey, m: nat, w: World, s: State)
    requires
        typed(s.vars),
    ensures
        ({
            let t = run(all(m, |i: int| point_program(k, i as nat)), w, s);
            &&& forall|i: nat|
                i < m ==> #[trigger] t.vars[Name::OutTexcoord(i)] == handed_on_as_point(
                    k,
                    i as int,
                    s.vars,
                )
            &&& forall|n: Name| !(n is OutTexcoord) ==> #[trigger] t.vars[n] == s.vars[n]
        }),
    decreases m,
{
    let f = |i: int| point_program(k, i as nat);
    if m > 0 {
        let l = (m - 1) as nat;
        points_run_up_to(k, l, w, s);
        let a = run(all(l, f), w, s);
        assert(typed(a.vars));
        own_means(k, l as int, w, a);
        reveal_with_fuel(eval, 5);
        assert(f(m - 1) == point_program(k, l));
        assert(run(all(m, f), w, s) == run(point_program(k, l), w, a));
        assert(own_coord(k, l as int, a.vars) == own_coord(k, l as int, s.vars));
    }
}

/// Vertices that are already transformed hand on their own coordinates as points.
pub proof fn points_run(k: FfVsKey, w: World, s: State)
    requires
        typed(s.vars),
    ensures
        ({
            let t = run(points_program(k), w, s);
            &&& forall|i: nat|
                i < k.tex_coord_count ==> #[trigger] t.vars[Name::OutTexcoord(i)]
                    == handed_on_as_point(k, i as int, s.vars)
            &&& forall|n: Name| !(n is OutTexcoord) ==> #[trigger] t.vars[n] == s.vars[n]
        }),
{
    points_run_up_to(k, k.tex_coord_count as nat, w, s);
}

} // verus!
