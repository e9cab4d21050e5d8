//! How the statements that compute coordinates, colours and fog are spelled.

use super::shading::{
    bin, call1, call2, call3, cond, diff, level, list, listing, make, neg, num, paren, part, prod,
    proper, quot, regrouped, same_chars, same_each, short_numbers, show, spells, spells_value, sum,
    var, Component, Expr, Fun1, Fun2, Fun3, Name, Number, Op, Pick, Stmt,
};
use crate::text::dec;
use vstd::prelude::*;

verus! {

proof fn piece_1()
    ensures
        "float4("@ == "float4"@ + "("@,
{
    reveal_strlit("float4(");
    reveal_strlit("float4");
    reveal_strlit("(");
    reveal_with_fuel(same_chars, 9);
    let a = "float4("@;
    let b = "float4"@ + "("@;
    assert(a.len() == b.len());
    same_each(a, b, 0, 7);
    assert(a =~= b);
}

proof fn piece_2()
    ensures
        ".x, 0.0, 0.0, 0.0)"@ == "."@ + "x"@ + ", "@ + "0.0"@ + ", "@ + "0.0"@ + ", "@ + "0.0"@ + ")"@,
{
    reveal_strlit(".x, 0.0, 0.0, 0.0)");
    reveal_strlit(".");
    reveal_strlit("x");
    reveal_strlit(", ");
    reveal_strlit("0.0");
    reveal_strlit(")");
    reveal_with_fuel(same_chars, 20);
    let a = ".x, 0.0, 0.0, 0.0)"@;
    let b = "."@ + "x"@ + ", "@ + "0.0"@ + ", "@ + "0.0"@ + ", "@ + "0.0"@ + ")"@;
    assert(a.len() == b.len());
    same_each(a, b, 0, 18);
    assert(a =~= b);
}

proof fn piece_3()
    ensures
        ".xy, 0.0, 0.0)"@ == "."@ + "x"@ + "y"@ + ", "@ + "0.0"@ + ", "@ + "0.0"@ + ")"@,
{
    reveal_strlit(".xy, 0.0, 0.0)");
    reveal_strlit(".");
    reveal_strlit("x");
    reveal_strlit("y");
    reveal_strlit(", ");
    reveal_strlit("0.0");
    reveal_strlit(")");
    reveal_with_fuel(same_chars, 16);
    let a = ".xy, 0.0, 0.0)"@;
    let b = "."@ + "x"@ + "y"@ + ", "@ + "0.0"@ + ", "@ + "0.0"@ + ")"@;
    assert(a.len() == b.len());
    same_each(a, b, 0, 14);
    assert(a =~= b);
}

proof fn piece_4()
    ensures
        ".xyz, 0.0)"@ == "."@ + "x"@ + "y"@ + "z"@ + ", "@ + "0.0"@ + ")"@,
{
    reveal_strlit(".xyz, 0.0)");
    reveal_strlit(".");
    reveal_strlit("x");
    reveal_strlit("y");
    reveal_strlit("z");
    reveal_strlit(", ");
    reveal_strlit("0.0");
    reveal_strlit(")");
    reveal_with_fuel(same_chars, 12);
    let a = ".xyz, 0.0)"@;
    let b = "."@ + "x"@ + "y"@ + "z"@ + ", "@ + "0.0"@ + ")"@;
    assert(a.len() == b.len());
    same_each(a, b, 0, 10);
    assert(a =~= b);
}

proof fn piece_5()
    ensures
        "    out.texcoord"@ == "    "@ + "out.texcoord"@,
{
    reveal_strlit("    out.texcoord");
    reveal_strlit("    ");
    reveal_strlit("out.texcoord");
    reveal_with_fuel(same_chars, 18);
    let a = "    out.texcoord"@;
    let b = "    "@ + "out.texcoord"@;
    assert(a.len() == b.len());
    same_each(a, b, 0, 16);
    assert(a =~= b);
}

proof fn piece_6()
    ensures
        ";\n"@ == ";"@ + "\n"@,
{
    reveal_strlit(";\n");
    reveal_strlit(";");
    reveal_strlit("\n");
    reveal_with_fuel(same_chars, 4);
    let a = ";\n"@;
    let b = ";"@ + "\n"@;
    assert(a.len() == b.len());
    same_each(a, b, 0, 2);
    assert(a =~= b);
}

proof fn piece_7()
    ensures
        "float4(("@ == "float4"@ + "("@ + "("@,
{
    reveal_strlit("float4((");
    reveal_strlit("float4");
    reveal_strlit("(");
    reveal_with_fuel(same_chars, 10);
    let a = "float4(("@;
    let b = "float4"@ + "("@ + "("@;
    assert(a.len() == b.len());
    same_each(a, b, 0, 8);
    assert(a =~= b);
}

proof fn piece_8()
    ensures
        ").xyz, 1.0)"@ == ")"@ + "."@ + "x"@ + "y"@ + "z"@ + ", "@ + "1.0"@ + ")"@,
{
    reveal_strlit(").xyz, 1.0)");
    reveal_strlit(")");
    reveal_strlit(".");
    reveal_strlit("x");
    reveal_strlit("y");
    reveal_strlit("z");
    reveal_strlit(", ");
    reveal_strlit("1.0");
    reveal_with_fuel(same_chars, 13);
    let a = ").xyz, 1.0)"@;
    let b = ")"@ + "."@ + "x"@ + "y"@ + "z"@ + ", "@ + "1.0"@ + ")"@;
    assert(a.len() == b.len());
    same_each(a, b, 0, 11);
    assert(a =~= b);
}

proof fn piece_9()
    ensures
        " = float4(0.0);\n"@ == " = "@ + "float4"@ + "("@ + "0.0"@ + ")"@ + ";"@ + "\n"@,
{
    reveal_strlit(" = float4(0.0);\n");
    reveal_strlit(" = ");
    reveal_strlit("float4");
    reveal_strlit("(");
    reveal_strlit("0.0");
    reveal_strlit(")");
    reveal_strlit(";");
    reveal_strlit("\n");
    reveal_with_fuel(same_chars, 18);
    let a = " = float4(0.0);\n"@;
    let b = " = "@ + "float4"@ + "("@ + "0.0"@ + ")"@ + ";"@ + "\n"@;
    assert(a.len() == b.len());
    same_each(a, b, 0, 16);
    assert(a =~= b);
}

proof fn piece_10()
    ensures
        "    out.clip_distance["@ == "    "@ + "out.clip_distance["@,
{
    reveal_strlit("    out.clip_distance[");
    reveal_strlit("    ");
    reveal_strlit("out.clip_distance[");
    reveal_with_fuel(same_chars, 24);
    let a = "    out.clip_distance["@;
    let b = "    "@ + "out.clip_distance["@;
    assert(a.len() == b.len());
    same_each(a, b, 0, 22);
    assert(a =~= b);
}

proof fn piece_11()
    ensures
        "] = dot(world_pos, vs_draw.clip["@ == "]"@ + " = "@ + "dot("@ + "world_pos"@ + ", "@ + "vs_draw.clip["@,
{
    reveal_strlit("] = dot(world_pos, vs_draw.clip[");
    reveal_strlit("]");
    reveal_strlit(" = ");
    reveal_strlit("dot(");
    reveal_strlit("world_pos");
    reveal_strlit(", ");
    reveal_strlit("vs_draw.clip[");
    reveal_with_fuel(same_chars, 34);
    let a = "] = dot(world_pos, vs_draw.clip["@;
    let b = "]"@ + " = "@ + "dot("@ + "world_pos"@ + ", "@ + "vs_draw.clip["@;
    assert(a.len() == b.len());
    same_each(a, b, 0, 32);
    assert(a =~= b);
}

proof fn piece_12()
    ensures
        "]);\n"@ == "]"@ + ")"@ + ";"@ + "\n"@,
{
    reveal_strlit("]);\n");
    reveal_strlit("]");
    reveal_strlit(")");
    reveal_strlit(";");
    reveal_strlit("\n");
    reveal_with_fuel(same_chars, 6);
    let a = "]);\n"@;
    let b = "]"@ + ")"@ + ";"@ + "\n"@;
    assert(a.len() == b.len());
    same_each(a, b, 0, 4);
    assert(a =~= b);
}

proof fn piece_13()
    ensures
        "    float4 raw"@ == "    "@ + "float4"@ + " "@ + "raw"@,
{
    reveal_strlit("    float4 raw");
    reveal_strlit("    ");
    reveal_strlit("float4");
    reveal_strlit(" ");
    reveal_strlit("raw");
    reveal_with_fuel(same_chars, 16);
    let a = "    float4 raw"@;
    let b = "    "@ + "float4"@ + " "@ + "raw"@;
    assert(a.len() == b.len());
    same_each(a, b, 0, 14);
    assert(a =~= b);
}

proof fn piece_14()
    ensures
        "        raw"@ == "        "@ + "raw"@,
{
    reveal_strlit("        raw");
    reveal_strlit("        ");
    reveal_strlit("raw");
    reveal_with_fuel(same_chars, 13);
    let a = "        raw"@;
    let b = "        "@ + "raw"@;
    assert(a.len() == b.len());
    same_each(a, b, 0, 11);
    assert(a =~= b);
}

proof fn piece_15()
    ensures
        " = float4(R_tci, 0.0);\n"@ == " = "@ + "float4"@ + "("@ + "R_tci"@ + ", "@ + "0.0"@ + ")"@ + ";"@ + "\n"@,
{
    reveal_strlit(" = float4(R_tci, 0.0);\n");
    reveal_strlit(" = ");
    reveal_strlit("float4");
    reveal_strlit("(");
    reveal_strlit("R_tci");
    reveal_strlit(", ");
    reveal_strlit("0.0");
    reveal_strlit(")");
    reveal_strlit(";");
    reveal_strlit("\n");
    reveal_with_fuel(same_chars, 25);
    let a = " = float4(R_tci, 0.0);\n"@;
    let b = " = "@ + "float4"@ + "("@ + "R_tci"@ + ", "@ + "0.0"@ + ")"@ + ";"@ + "\n"@;
    assert(a.len() == b.len());
    same_each(a, b, 0, 23);
    assert(a =~= b);
}

proof fn piece_16()
    ensures
        "dot(raw"@ == "dot("@ + "raw"@,
{
    reveal_strlit("dot(raw");
    reveal_strlit("dot(");
    reveal_strlit("raw");
    reveal_with_fuel(same_chars, 9);
    let a = "dot(raw"@;
    let b = "dot("@ + "raw"@;
    assert(a.len() == b.len());
    same_each(a, b, 0, 7);
    assert(a =~= b);
}

proof fn piece_17()
    ensures
        ", vs_c["@ == ", "@ + "vs_c["@,
{
    reveal_strlit(", vs_c[");
    reveal_strlit(", ");
    reveal_strlit("vs_c[");
    reveal_with_fuel(same_chars, 9);
    let a = ", vs_c["@;
    let b = ", "@ + "vs_c["@;
    assert(a.len() == b.len());
    same_each(a, b, 0, 7);
    assert(a =~= b);
}

proof fn piece_18()
    ensures
        "])"@ == "]"@ + ")"@,
{
    reveal_strlit("])");
    reveal_strlit("]");
    reveal_strlit(")");
    reveal_with_fuel(same_chars, 4);
    let a = "])"@;
    let b = "]"@ + ")"@;
    assert(a.len() == b.len());
    same_each(a, b, 0, 2);
    assert(a =~= b);
}

proof fn piece_19()
    ensures
        "    raw"@ == "    "@ + "raw"@,
{
    reveal_strlit("    raw");
    reveal_strlit("    ");
    reveal_strlit("raw");
    reveal_with_fuel(same_chars, 9);
    let a = "    raw"@;
    let b = "    "@ + "raw"@;
    assert(a.len() == b.len());
    same_each(a, b, 0, 7);
    assert(a =~= b);
}

proof fn piece_20()
    ensures
        "] = 1.0;\n"@ == "] = "@ + "1.0"@ + ";"@ + "\n"@,
{
    reveal_strlit("] = 1.0;\n");
    reveal_strlit("] = ");
    reveal_strlit("1.0");
    reveal_strlit(";");
    reveal_strlit("\n");
    reveal_with_fuel(same_chars, 11);
    let a = "] = 1.0;\n"@;
    let b = "] = "@ + "1.0"@ + ";"@ + "\n"@;
    assert(a.len() == b.len());
    same_each(a, b, 0, 9);
    assert(a =~= b);
}

proof fn piece_21()
    ensures
        "    float4 r"@ == "    "@ + "float4"@ + " "@ + "r"@,
{
    reveal_strlit("    float4 r");
    reveal_strlit("    ");
    reveal_strlit("float4");
    reveal_strlit(" ");
    reveal_strlit("r");
    reveal_with_fuel(same_chars, 14);
    let a = "    float4 r"@;
    let b = "    "@ + "float4"@ + " "@ + "r"@;
    assert(a.len() == b.len());
    same_each(a, b, 0, 12);
    assert(a =~= b);
}

proof fn piece_22()
    ensures
        " = float4("@ == " = "@ + "float4"@ + "("@,
{
    reveal_strlit(" = float4(");
    reveal_strlit(" = ");
    reveal_strlit("float4");
    reveal_strlit("(");
    reveal_with_fuel(same_chars, 12);
    let a = " = float4("@;
    let b = " = "@ + "float4"@ + "("@;
    assert(a.len() == b.len());
    same_each(a, b, 0, 10);
    assert(a =~= b);
}

proof fn piece_23()
    ensures
        ");\n"@ == ")"@ + ";"@ + "\n"@,
{
    reveal_strlit(");\n");
    reveal_strlit(")");
    reveal_strlit(";");
    reveal_strlit("\n");
    reveal_with_fuel(same_chars, 5);
    let a = ");\n"@;
    let b = ")"@ + ";"@ + "\n"@;
    assert(a.len() == b.len());
    same_each(a, b, 0, 3);
    assert(a =~= b);
}

proof fn piece_24()
    ensures
        ".x, "@ == "."@ + "x"@ + ", "@,
{
    reveal_strlit(".x, ");
    reveal_strlit(".");
    reveal_strlit("x");
    reveal_strlit(", ");
    reveal_with_fuel(same_chars, 6);
    let a = ".x, "@;
    let b = "."@ + "x"@ + ", "@;
    assert(a.len() == b.len());
    same_each(a, b, 0, 4);
    assert(a =~= b);
}

proof fn piece_25()
    ensures
        ".y, "@ == "."@ + "y"@ + ", "@,
{
    reveal_strlit(".y, ");
    reveal_strlit(".");
    reveal_strlit("y");
    reveal_strlit(", ");
    reveal_with_fuel(same_chars, 6);
    let a = ".y, "@;
    let b = "."@ + "y"@ + ", "@;
    assert(a.len() == b.len());
    same_each(a, b, 0, 4);
    assert(a =~= b);
}

proof fn piece_26()
    ensures
        "0.0, "@ == "0.0"@ + ", "@,
{
    reveal_strlit("0.0, ");
    reveal_strlit("0.0");
    reveal_strlit(", ");
    reveal_with_fuel(same_chars, 7);
    let a = "0.0, "@;
    let b = "0.0"@ + ", "@;
    assert(a.len() == b.len());
    same_each(a, b, 0, 5);
    assert(a =~= b);
}

proof fn piece_27()
    ensures
        ".y"@ == "."@ + "y"@,
{
    reveal_strlit(".y");
    reveal_strlit(".");
    reveal_strlit("y");
    reveal_with_fuel(same_chars, 4);
    let a = ".y"@;
    let b = "."@ + "y"@;
    assert(a.len() == b.len());
    same_each(a, b, 0, 2);
    assert(a =~= b);
}

proof fn piece_28()
    ensures
        ".z, "@ == "."@ + "z"@ + ", "@,
{
    reveal_strlit(".z, ");
    reveal_strlit(".");
    reveal_strlit("z");
    reveal_strlit(", ");
    reveal_with_fuel(same_chars, 6);
    let a = ".z, "@;
    let b = "."@ + "z"@ + ", "@;
    assert(a.len() == b.len());
    same_each(a, b, 0, 4);
    assert(a =~= b);
}

proof fn piece_29()
    ensures
        ".z"@ == "."@ + "z"@,
{
    reveal_strlit(".z");
    reveal_strlit(".");
    reveal_strlit("z");
    reveal_with_fuel(same_chars, 4);
    let a = ".z"@;
    let b = "."@ + "z"@;
    assert(a.len() == b.len());
    same_each(a, b, 0, 2);
    assert(a =~= b);
}

proof fn piece_30()
    ensures
        ".xyz, raw"@ == "."@ + "x"@ + "y"@ + "z"@ + ", "@ + "raw"@,
{
    reveal_strlit(".xyz, raw");
    reveal_strlit(".");
    reveal_strlit("x");
    reveal_strlit("y");
    reveal_strlit("z");
    reveal_strlit(", ");
    reveal_strlit("raw");
    reveal_with_fuel(same_chars, 11);
    let a = ".xyz, raw"@;
    let b = "."@ + "x"@ + "y"@ + "z"@ + ", "@ + "raw"@;
    assert(a.len() == b.len());
    same_each(a, b, 0, 9);
    assert(a =~= b);
}

pub open spec fn color0_of_vertex() -> Stmt {
    Stmt::Assign(Name::OutColor(0), var(Name::Attribute(2)))
}

pub proof fn color0_of_vertex_spelled()
    ensures
        spells("    out.color0 = in.v2;\n"@, color0_of_vertex(), 1),
{
    reveal_strlit("    out.color0 = in.v2;\n");
    reveal_strlit("    ");
    reveal_strlit("out.color");
    reveal_strlit(" = ");
    reveal_strlit("in.v");
    reveal_strlit(";");
    reveal_strlit("\n");
    short_numbers(0);
    short_numbers(2);
    reveal_with_fuel(show, 12);
    reveal_with_fuel(proper, 12);
    reveal_with_fuel(same_chars, 26);
    let a = "    out.color0 = in.v2;\n"@;
    let b = listing(color0_of_vertex(), 1);
    assert(a.len() == b.len());
    same_each(a, b, 0, 24);
    assert(a =~= b);
}

pub open spec fn color0_white() -> Stmt {
    Stmt::Assign(Name::OutColor(0), make(4, num(Number::One)))
}

pub proof fn color0_white_spelled()
    ensures
        spells("    out.color0 = float4(1.0);\n"@, color0_white(), 1),
{
    reveal_strlit("    out.color0 = float4(1.0);\n");
    reveal_strlit("    ");
    reveal_strlit("out.color");
    reveal_strlit(" = ");
    reveal_strlit("float4");
    reveal_strlit("(");
    reveal_strlit("1.0");
    reveal_strlit(")");
    reveal_strlit(";");
    reveal_strlit("\n");
    short_numbers(0);
    reveal_with_fuel(show, 12);
    reveal_with_fuel(proper, 12);
    reveal_with_fuel(same_chars, 32);
    let a = "    out.color0 = float4(1.0);\n"@;
    let b = listing(color0_white(), 1);
    assert(a.len() == b.len());
    same_each(a, b, 0, 30);
    assert(a =~= b);
}

pub open spec fn color1_of_vertex() -> Stmt {
    Stmt::Assign(Name::OutColor(1), var(Name::Attribute(3)))
}

pub proof fn color1_of_vertex_spelled()
    ensures
        spells("    out.color1 = in.v3;\n"@, color1_of_vertex(), 1),
{
    reveal_strlit("    out.color1 = in.v3;\n");
    reveal_strlit("    ");
    reveal_strlit("out.color");
    reveal_strlit(" = ");
    reveal_strlit("in.v");
    reveal_strlit(";");
    reveal_strlit("\n");
    short_numbers(1);
    short_numbers(3);
    reveal_with_fuel(show, 12);
    reveal_with_fuel(proper, 12);
    reveal_with_fuel(same_chars, 26);
    let a = "    out.color1 = in.v3;\n"@;
    let b = listing(color1_of_vertex(), 1);
    assert(a.len() == b.len());
    same_each(a, b, 0, 24);
    assert(a =~= b);
}

pub open spec fn color1_black() -> Stmt {
    Stmt::Assign(Name::OutColor(1), make(4, num(Number::Zero)))
}

pub proof fn color1_black_spelled()
    ensures
        spells("    out.color1 = float4(0.0);\n"@, color1_black(), 1),
{
    reveal_strlit("    out.color1 = float4(0.0);\n");
    reveal_strlit("    ");
    reveal_strlit("out.color");
    reveal_strlit(" = ");
    reveal_strlit("float4");
    reveal_strlit("(");
    reveal_strlit("0.0");
    reveal_strlit(")");
    reveal_strlit(";");
    reveal_strlit("\n");
    short_numbers(1);
    reveal_with_fuel(show, 12);
    reveal_with_fuel(proper, 12);
    reveal_with_fuel(same_chars, 32);
    let a = "    out.color1 = float4(0.0);\n"@;
    let b = listing(color1_black(), 1);
    assert(a.len() == b.len());
    same_each(a, b, 0, 30);
    assert(a =~= b);
}

pub open spec fn let_viewport() -> Stmt {
    Stmt::Let(2, Name::Viewport, part(var(Name::Row(0)), Pick::Two(Component::X, Component::Y)))
}

pub proof fn let_viewport_spelled()
    ensures
        spells("    float2 vp = vs_c[0].xy;\n"@, let_viewport(), 1),
{
    reveal_strlit("    float2 vp = vs_c[0].xy;\n");
    reveal_strlit("    ");
    reveal_strlit("float2");
    reveal_strlit(" ");
    reveal_strlit("vp");
    reveal_strlit(" = ");
    reveal_strlit("vs_c[");
    reveal_strlit("]");
    reveal_strlit(".");
    reveal_strlit("x");
    reveal_strlit("y");
    reveal_strlit(";");
    reveal_strlit("\n");
    short_numbers(0);
    reveal_with_fuel(show, 12);
    reveal_with_fuel(proper, 12);
    reveal_with_fuel(same_chars, 30);
    let a = "    float2 vp = vs_c[0].xy;\n"@;
    let b = listing(let_viewport(), 1);
    assert(a.len() == b.len());
    same_each(a, b, 0, 28);
    assert(a =~= b);
}

pub open spec fn let_origin() -> Stmt {
    Stmt::Let(
        2,
        Name::ViewportOrigin,
        part(var(Name::Row(0)), Pick::Two(Component::Z, Component::W)),
    )
}

pub proof fn let_origin_spelled()
    ensures
        spells("    float2 vp_origin = vs_c[0].zw;\n"@, let_origin(), 1),
{
    reveal_strlit("    float2 vp_origin = vs_c[0].zw;\n");
    reveal_strlit("    ");
    reveal_strlit("float2");
    reveal_strlit(" ");
    reveal_strlit("vp_origin");
    reveal_strlit(" = ");
    reveal_strlit("vs_c[");
    reveal_strlit("]");
    reveal_strlit(".");
    reveal_strlit("z");
    reveal_strlit("w");
    reveal_strlit(";");
    reveal_strlit("\n");
    short_numbers(0);
    reveal_with_fuel(show, 12);
    reveal_with_fuel(proper, 12);
    reveal_with_fuel(same_chars, 17);
    let a = "    float2 vp_origin = vs_c[0].zw;\n"@;
    let b = listing(let_origin(), 1);
    assert(a.len() == b.len());
    same_each(a, b, 0, 15);
    same_each(a, b, 15, 30);
    same_each(a, b, 30, 35);
    assert(a =~= b);
}

pub open spec fn let_rhw() -> Stmt {
    Stmt::Let(1, Name::Rhw, part(var(Name::Attribute(0)), Pick::One(Component::W)))
}

pub proof fn let_rhw_spelled()
    ensures
        spells("    float rhw = in.v0.w;\n"@, let_rhw(), 1),
{
    reveal_strlit("    float rhw = in.v0.w;\n");
    reveal_strlit("    ");
    reveal_strlit("float");
    reveal_strlit(" ");
    reveal_strlit("rhw");
    reveal_strlit(" = ");
    reveal_strlit("in.v");
    reveal_strlit(".");
    reveal_strlit("w");
    reveal_strlit(";");
    reveal_strlit("\n");
    short_numbers(0);
    reveal_with_fuel(show, 12);
    reveal_with_fuel(proper, 12);
    reveal_with_fuel(same_chars, 27);
    let a = "    float rhw = in.v0.w;\n"@;
    let b = listing(let_rhw(), 1);
    assert(a.len() == b.len());
    same_each(a, b, 0, 25);
    assert(a =~= b);
}

pub open spec fn let_w() -> Stmt {
    Stmt::Let(
        1,
        Name::Weight,
        quot(num(Number::One), call2(Fun2::Max, var(Name::Rhw), num(Number::Tiny))),
    )
}

pub proof fn let_w_spelled()
    ensures
        spells("    float w = 1.0 / max(rhw, 1e-30);\n"@, let_w(), 1),
{
    reveal_strlit("    float w = 1.0 / max(rhw, 1e-30);\n");
    reveal_strlit("    ");
    reveal_strlit("float");
    reveal_strlit(" ");
    reveal_strlit("w");
    reveal_strlit(" = ");
    reveal_strlit("1.0");
    reveal_strlit(" / ");
    reveal_strlit("max(");
    reveal_strlit("rhw");
    reveal_strlit(", ");
    reveal_strlit("1e-30");
    reveal_strlit(")");
    reveal_strlit(";");
    reveal_strlit("\n");
    reveal_with_fuel(show, 12);
    reveal_with_fuel(proper, 12);
    reveal_with_fuel(same_chars, 17);
    let a = "    float w = 1.0 / max(rhw, 1e-30);\n"@;
    let b = listing(let_w(), 1);
    assert(a.len() == b.len());
    same_each(a, b, 0, 15);
    same_each(a, b, 15, 30);
    same_each(a, b, 30, 37);
    assert(a =~= b);
}

pub open spec fn let_ndc_x() -> Stmt {
    Stmt::Let(
        1,
        Name::NdcX,
        sum(
            diff(
                prod(
                    paren(
                        quot(
                            paren(
                                diff(
                                    part(var(Name::Attribute(0)), Pick::One(Component::X)),
                                    part(var(Name::ViewportOrigin), Pick::One(Component::X)),
                                ),
                            ),
                            part(var(Name::Viewport), Pick::One(Component::X)),
                        ),
                    ),
                    num(Number::Two),
                ),
                num(Number::One),
            ),
            quot(num(Number::One), part(var(Name::Viewport), Pick::One(Component::X))),
        ),
    )
}

#[verifier::rlimit(50)]
pub proof fn let_ndc_x_spelled()
    ensures
        spells(
            "    float ndc_x = ((in.v0.x - vp_origin.x) / vp.x) * 2.0 - 1.0 + 1.0 / vp.x;\n"@,
            let_ndc_x(),
            1,
        ),
{
    reveal_strlit("    float ndc_x = ((in.v0.x - vp_origin.x) / vp.x) * 2.0 - 1.0 + 1.0 / vp.x;\n");
    reveal_strlit("    ");
    reveal_strlit("float");
    reveal_strlit(" ");
    reveal_strlit("ndc_x");
    reveal_strlit(" = ");
    reveal_strlit("(");
    reveal_strlit("in.v");
    reveal_strlit(".");
    reveal_strlit("x");
    reveal_strlit(" - ");
    reveal_strlit("vp_origin");
    reveal_strlit(")");
    reveal_strlit(" / ");
    reveal_strlit("vp");
    reveal_strlit(" * ");
    reveal_strlit("2.0");
    reveal_strlit("1.0");
    reveal_strlit(" + ");
    reveal_strlit(";");
    reveal_strlit("\n");
    short_numbers(0);
    reveal_with_fuel(show, 12);
    reveal_with_fuel(proper, 12);
    reveal_with_fuel(same_chars, 17);
    let a = "    float ndc_x = ((in.v0.x - vp_origin.x) / vp.x) * 2.0 - 1.0 + 1.0 / vp.x;\n"@;
    let b = listing(let_ndc_x(), 1);
    assert(a.len() == b.len());
    same_each(a, b, 0, 15);
    same_each(a, b, 15, 30);
    same_each(a, b, 30, 45);
    same_each(a, b, 45, 60);
    same_each(a, b, 60, 75);
    same_each(a, b, 75, 77);
    assert(a =~= b);
}

pub open spec fn let_ndc_y() -> Stmt {
    Stmt::Let(
        1,
        Name::NdcY,
        diff(
            diff(
                num(Number::One),
                prod(
                    paren(
                        quot(
                            paren(
                                diff(
                                    part(var(Name::Attribute(0)), Pick::One(Component::Y)),
                                    part(var(Name::ViewportOrigin), Pick::One(Component::Y)),
                                ),
                            ),
                            part(var(Name::Viewport), Pick::One(Component::Y)),
                        ),
                    ),
                    num(Number::Two),
                ),
            ),
            quot(num(Number::One), part(var(Name::Viewport), Pick::One(Component::Y))),
        ),
    )
}

#[verifier::rlimit(50)]
pub proof fn let_ndc_y_spelled()
    ensures
        spells(
            "    float ndc_y = 1.0 - ((in.v0.y - vp_origin.y) / vp.y) * 2.0 - 1.0 / vp.y;\n"@,
            let_ndc_y(),
            1,
        ),
{
    reveal_strlit("    float ndc_y = 1.0 - ((in.v0.y - vp_origin.y) / vp.y) * 2.0 - 1.0 / vp.y;\n");
    reveal_strlit("    ");
    reveal_strlit("float");
    reveal_strlit(" ");
    reveal_strlit("ndc_y");
    reveal_strlit(" = ");
    reveal_strlit("1.0");
    reveal_strlit(" - ");
    reveal_strlit("(");
    reveal_strlit("in.v");
    reveal_strlit(".");
    reveal_strlit("y");
    reveal_strlit("vp_origin");
    reveal_strlit(")");
    reveal_strlit(" / ");
    reveal_strlit("vp");
    reveal_strlit(" * ");
    reveal_strlit("2.0");
    reveal_strlit(";");
    reveal_strlit("\n");
    short_numbers(0);
    reveal_with_fuel(show, 12);
    reveal_with_fuel(proper, 12);
    reveal_with_fuel(same_chars, 17);
    let a = "    float ndc_y = 1.0 - ((in.v0.y - vp_origin.y) / vp.y) * 2.0 - 1.0 / vp.y;\n"@;
    let b = listing(let_ndc_y(), 1);
    assert(a.len() == b.len());
    same_each(a, b, 0, 15);
    same_each(a, b, 15, 30);
    same_each(a, b, 30, 45);
    same_each(a, b, 45, 60);
    same_each(a, b, 60, 75);
    same_each(a, b, 75, 77);
    assert(a =~= b);
}

pub open spec fn place_on_screen() -> Stmt {
    Stmt::Assign(
        Name::OutPosition,
        make(
            4,
            list(
                list(
                    list(
                        prod(var(Name::NdcX), var(Name::Weight)),
                        prod(var(Name::NdcY), var(Name::Weight)),
                    ),
                    prod(part(var(Name::Attribute(0)), Pick::One(Component::Z)), var(Name::Weight)),
                ),
                var(Name::Weight),
            ),
        ),
    )
}

#[verifier::rlimit(50)]
pub proof fn place_on_screen_spelled()
    ensures
        spells(
            "    out.position = float4(ndc_x * w, ndc_y * w, in.v0.z * w, w);\n"@,
            place_on_screen(),
            1,
        ),
{
    reveal_strlit("    out.position = float4(ndc_x * w, ndc_y * w, in.v0.z * w, w);\n");
    reveal_strlit("    ");
    reveal_strlit("out.position");
    reveal_strlit(" = ");
    reveal_strlit("float4");
    reveal_strlit("(");
    reveal_strlit("ndc_x");
    reveal_strlit(" * ");
    reveal_strlit("w");
    reveal_strlit(", ");
    reveal_strlit("ndc_y");
    reveal_strlit("in.v");
    reveal_strlit(".");
    reveal_strlit("z");
    reveal_strlit(")");
    reveal_strlit(";");
    reveal_strlit("\n");
    short_numbers(0);
    reveal_with_fuel(show, 12);
    reveal_with_fuel(proper, 12);
    reveal_with_fuel(same_chars, 17);
    let a = "    out.position = float4(ndc_x * w, ndc_y * w, in.v0.z * w, w);\n"@;
    let b = listing(place_on_screen(), 1);
    assert(a.len() == b.len());
    same_each(a, b, 0, 15);
    same_each(a, b, 15, 30);
    same_each(a, b, 30, 45);
    same_each(a, b, 45, 60);
    same_each(a, b, 60, 65);
    assert(a =~= b);
}

pub open spec fn fog_of_vertex() -> Stmt {
    Stmt::Assign(
        Name::OutFog,
        make(
            4,
            list(
                list(
                    list(part(var(Name::Attribute(3)), Pick::One(Component::W)), num(Number::Zero)),
                    num(Number::Zero),
                ),
                num(Number::Zero),
            ),
        ),
    )
}

pub proof fn fog_of_vertex_spelled()
    ensures
        spells("    out.fog = float4(in.v3.w, 0.0, 0.0, 0.0);\n"@, fog_of_vertex(), 1),
{
    reveal_strlit("    out.fog = float4(in.v3.w, 0.0, 0.0, 0.0);\n");
    reveal_strlit("    ");
    reveal_strlit("out.fog");
    reveal_strlit(" = ");
    reveal_strlit("float4");
    reveal_strlit("(");
    reveal_strlit("in.v");
    reveal_strlit(".");
    reveal_strlit("w");
    reveal_strlit(", ");
    reveal_strlit("0.0");
    reveal_strlit(")");
    reveal_strlit(";");
    reveal_strlit("\n");
    short_numbers(3);
    reveal_with_fuel(show, 12);
    reveal_with_fuel(proper, 12);
    reveal_with_fuel(same_chars, 17);
    let a = "    out.fog = float4(in.v3.w, 0.0, 0.0, 0.0);\n"@;
    let b = listing(fog_of_vertex(), 1);
    assert(a.len() == b.len());
    same_each(a, b, 0, 15);
    same_each(a, b, 15, 30);
    same_each(a, b, 30, 45);
    same_each(a, b, 45, 46);
    assert(a =~= b);
}

pub open spec fn fog_clear() -> Stmt {
    Stmt::Assign(Name::OutFog, make(4, num(Number::One)))
}

pub proof fn fog_clear_spelled()
    ensures
        spells("    out.fog = float4(1.0);\n"@, fog_clear(), 1),
{
    reveal_strlit("    out.fog = float4(1.0);\n");
    reveal_strlit("    ");
    reveal_strlit("out.fog");
    reveal_strlit(" = ");
    reveal_strlit("float4");
    reveal_strlit("(");
    reveal_strlit("1.0");
    reveal_strlit(")");
    reveal_strlit(";");
    reveal_strlit("\n");
    reveal_with_fuel(show, 12);
    reveal_with_fuel(proper, 12);
    reveal_with_fuel(same_chars, 29);
    let a = "    out.fog = float4(1.0);\n"@;
    let b = listing(fog_clear(), 1);
    assert(a.len() == b.len());
    same_each(a, b, 0, 27);
    assert(a =~= b);
}

pub open spec fn fog_depth() -> Stmt {
    Stmt::Assign(
        Name::OutFogZ,
        quot(
            part(var(Name::OutPosition), Pick::One(Component::Z)),
            part(var(Name::OutPosition), Pick::One(Component::W)),
        ),
    )
}

pub proof fn fog_depth_spelled()
    ensures
        spells("    out.fog_z = out.position.z / out.position.w;\n"@, fog_depth(), 1),
{
    reveal_strlit("    out.fog_z = out.position.z / out.position.w;\n");
    reveal_strlit("    ");
    reveal_strlit("out.fog_z");
    reveal_strlit(" = ");
    reveal_strlit("out.position");
    reveal_strlit(".");
    reveal_strlit("z");
    reveal_strlit(" / ");
    reveal_strlit("w");
    reveal_strlit(";");
    reveal_strlit("\n");
    reveal_with_fuel(show, 12);
    reveal_with_fuel(proper, 12);
    reveal_with_fuel(same_chars, 17);
    let a = "    out.fog_z = out.position.z / out.position.w;\n"@;
    let b = listing(fog_depth(), 1);
    assert(a.len() == b.len());
    same_each(a, b, 0, 15);
    same_each(a, b, 15, 30);
    same_each(a, b, 30, 45);
    same_each(a, b, 45, 49);
    assert(a =~= b);
}

pub open spec fn clamp_depth() -> Stmt {
    Stmt::AssignPartIf(
        bin(Op::NotEqual, part(var(Name::PosFixup), Pick::One(Component::Z)), num(Number::Zero)),
        Name::OutPosition,
        Component::Z,
        call3(
            Fun3::Clamp,
            part(var(Name::OutPosition), Pick::One(Component::Z)),
            num(Number::Zero),
            part(var(Name::OutPosition), Pick::One(Component::W)),
        ),
    )
}

#[verifier::rlimit(50)]
pub proof fn clamp_depth_spelled()
    ensures
        spells(
            "    if (pos_fixup.z != 0.0) { out.position.z = clamp(out.position.z, 0.0, out.position.w); }\n"@,
            clamp_depth(),
            1,
        ),
{
    reveal_strlit("    if (pos_fixup.z != 0.0) { out.position.z = clamp(out.position.z, 0.0, out.position.w); }\n");
    reveal_strlit("    ");
    reveal_strlit("if (");
    reveal_strlit("pos_fixup");
    reveal_strlit(".");
    reveal_strlit("z");
    reveal_strlit(" != ");
    reveal_strlit("0.0");
    reveal_strlit(") { ");
    reveal_strlit("out.position");
    reveal_strlit(" = ");
    reveal_strlit("clamp(");
    reveal_strlit(", ");
    reveal_strlit("w");
    reveal_strlit(")");
    reveal_strlit("; }");
    reveal_strlit("\n");
    reveal_with_fuel(show, 12);
    reveal_with_fuel(proper, 12);
    reveal_with_fuel(same_chars, 17);
    let a = "    if (pos_fixup.z != 0.0) { out.position.z = clamp(out.position.z, 0.0, out.position.w); }\n"@;
    let b = listing(clamp_depth(), 1);
    assert(a.len() == b.len());
    same_each(a, b, 0, 15);
    same_each(a, b, 15, 30);
    same_each(a, b, 30, 45);
    same_each(a, b, 45, 60);
    same_each(a, b, 60, 75);
    same_each(a, b, 75, 90);
    same_each(a, b, 90, 93);
    assert(a =~= b);
}

pub open spec fn let_world() -> Stmt {
    Stmt::Let(
        4,
        Name::WorldPos,
        make(
            4,
            list(
                list(
                    list(
                        call2(Fun2::Dot, var(Name::PosView), var(Name::InvView(0))),
                        call2(Fun2::Dot, var(Name::PosView), var(Name::InvView(1))),
                    ),
                    call2(Fun2::Dot, var(Name::PosView), var(Name::InvView(2))),
                ),
                call2(Fun2::Dot, var(Name::PosView), var(Name::InvView(3))),
            ),
        ),
    )
}

#[verifier::rlimit(50)]
pub proof fn let_world_spelled()
    ensures
        spells(
            "    float4 world_pos = float4(dot(pos_view, vs_draw.inv_view[0]), dot(pos_view, vs_draw.inv_view[1]), dot(pos_view, vs_draw.inv_view[2]), dot(pos_view, vs_draw.inv_view[3]));\n"@,
            let_world(),
            1,
        ),
{
    reveal_strlit("    float4 world_pos = float4(dot(pos_view, vs_draw.inv_view[0]), dot(pos_view, vs_draw.inv_view[1]), dot(pos_view, vs_draw.inv_view[2]), dot(pos_view, vs_draw.inv_view[3]));\n");
    reveal_strlit("    ");
    reveal_strlit("float4");
    reveal_strlit(" ");
    reveal_strlit("world_pos");
    reveal_strlit(" = ");
    reveal_strlit("(");
    reveal_strlit("dot(");
    reveal_strlit("pos_view");
    reveal_strlit(", ");
    reveal_strlit("vs_draw.inv_view[");
    reveal_strlit("]");
    reveal_strlit(")");
    reveal_strlit(";");
    reveal_strlit("\n");
    short_numbers(0);
    short_numbers(1);
    short_numbers(2);
    short_numbers(3);
    reveal_with_fuel(show, 12);
    reveal_with_fuel(proper, 12);
    reveal_with_fuel(same_chars, 17);
    let a = "    float4 world_pos = float4(dot(pos_view, vs_draw.inv_view[0]), dot(pos_view, vs_draw.inv_view[1]), dot(pos_view, vs_draw.inv_view[2]), dot(pos_view, vs_draw.inv_view[3]));\n"@;
    let b = listing(let_world(), 1);
    assert(a.len() == b.len());
    same_each(a, b, 0, 15);
    same_each(a, b, 15, 30);
    same_each(a, b, 30, 45);
    same_each(a, b, 45, 60);
    same_each(a, b, 60, 75);
    same_each(a, b, 75, 90);
    same_each(a, b, 90, 105);
    same_each(a, b, 105, 120);
    same_each(a, b, 120, 135);
    same_each(a, b, 135, 150);
    same_each(a, b, 150, 165);
    same_each(a, b, 165, 175);
    assert(a =~= b);
}

pub open spec fn normal_of_blend() -> Stmt {
    Stmt::Let(3, Name::Normal, call1(Fun1::Normalize, var(Name::NBlend)))
}

pub proof fn normal_of_blend_spelled()
    ensures
        spells("    float3 n = normalize(n_blend);\n"@, normal_of_blend(), 1),
{
    reveal_strlit("    float3 n = normalize(n_blend);\n");
    reveal_strlit("    ");
    reveal_strlit("float3");
    reveal_strlit(" ");
    reveal_strlit("n");
    reveal_strlit(" = ");
    reveal_strlit("normalize(");
    reveal_strlit("n_blend");
    reveal_strlit(")");
    reveal_strlit(";");
    reveal_strlit("\n");
    reveal_with_fuel(show, 12);
    reveal_with_fuel(proper, 12);
    reveal_with_fuel(same_chars, 17);
    let a = "    float3 n = normalize(n_blend);\n"@;
    let b = listing(normal_of_blend(), 1);
    assert(a.len() == b.len());
    same_each(a, b, 0, 15);
    same_each(a, b, 15, 30);
    same_each(a, b, 30, 35);
    assert(a =~= b);
}

pub open spec fn normal_of_rows() -> Stmt {
    Stmt::Let(
        3,
        Name::Normal,
        call1(
            Fun1::Normalize,
            make(
                3,
                list(
                    list(
                        call2(
                            Fun2::Dot,
                            part(
                                var(Name::Attribute(1)),
                                Pick::Three(Component::X, Component::Y, Component::Z),
                            ),
                            part(
                                var(Name::Row(0)),
                                Pick::Three(Component::X, Component::Y, Component::Z),
                            ),
                        ),
                        call2(
                            Fun2::Dot,
                            part(
                                var(Name::Attribute(1)),
                                Pick::Three(Component::X, Component::Y, Component::Z),
                            ),
                            part(
                                var(Name::Row(1)),
                                Pick::Three(Component::X, Component::Y, Component::Z),
                            ),
                        ),
                    ),
                    call2(
                        Fun2::Dot,
                        part(
                            var(Name::Attribute(1)),
                            Pick::Three(Component::X, Component::Y, Component::Z),
                        ),
                        part(
                            var(Name::Row(2)),
                            Pick::Three(Component::X, Component::Y, Component::Z),
                        ),
                    ),
                ),
            ),
        ),
    )
}

#[verifier::rlimit(50)]
pub proof fn normal_of_rows_spelled()
    ensures
        spells(
            "    float3 n = normalize(float3(dot(in.v1.xyz, vs_c[0].xyz), dot(in.v1.xyz, vs_c[1].xyz), dot(in.v1.xyz, vs_c[2].xyz)));\n"@,
            normal_of_rows(),
            1,
        ),
{
    reveal_strlit("    float3 n = normalize(float3(dot(in.v1.xyz, vs_c[0].xyz), dot(in.v1.xyz, vs_c[1].xyz), dot(in.v1.xyz, vs_c[2].xyz)));\n");
    reveal_strlit("    ");
    reveal_strlit("float3");
    reveal_strlit(" ");
    reveal_strlit("n");
    reveal_strlit(" = ");
    reveal_strlit("normalize(");
    reveal_strlit("(");
    reveal_strlit("dot(");
    reveal_strlit("in.v");
    reveal_strlit(".");
    reveal_strlit("x");
    reveal_strlit("y");
    reveal_strlit("z");
    reveal_strlit(", ");
    reveal_strlit("vs_c[");
    reveal_strlit("]");
    reveal_strlit(")");
    reveal_strlit(";");
    reveal_strlit("\n");
    short_numbers(0);
    short_numbers(1);
    short_numbers(2);
    reveal_with_fuel(show, 12);
    reveal_with_fuel(proper, 12);
    reveal_with_fuel(same_chars, 17);
    let a = "    float3 n = normalize(float3(dot(in.v1.xyz, vs_c[0].xyz), dot(in.v1.xyz, vs_c[1].xyz), dot(in.v1.xyz, vs_c[2].xyz)));\n"@;
    let b = listing(normal_of_rows(), 1);
    assert(a.len() == b.len());
    same_each(a, b, 0, 15);
    same_each(a, b, 15, 30);
    same_each(a, b, 30, 45);
    same_each(a, b, 45, 60);
    same_each(a, b, 60, 75);
    same_each(a, b, 75, 90);
    same_each(a, b, 90, 105);
    same_each(a, b, 105, 120);
    same_each(a, b, 120, 121);
    assert(a =~= b);
}

pub open spec fn eye_of_view() -> Stmt {
    Stmt::Let(
        3,
        Name::PosEye,
        part(var(Name::PosView), Pick::Three(Component::X, Component::Y, Component::Z)),
    )
}

pub proof fn eye_of_view_spelled()
    ensures
        spells("    float3 posEye = pos_view.xyz;\n"@, eye_of_view(), 1),
{
    reveal_strlit("    float3 posEye = pos_view.xyz;\n");
    reveal_strlit("    ");
    reveal_strlit("float3");
    reveal_strlit(" ");
    reveal_strlit("posEye");
    reveal_strlit(" = ");
    reveal_strlit("pos_view");
    reveal_strlit(".");
    reveal_strlit("x");
    reveal_strlit("y");
    reveal_strlit("z");
    reveal_strlit(";");
    reveal_strlit("\n");
    reveal_with_fuel(show, 12);
    reveal_with_fuel(proper, 12);
    reveal_with_fuel(same_chars, 17);
    let a = "    float3 posEye = pos_view.xyz;\n"@;
    let b = listing(eye_of_view(), 1);
    assert(a.len() == b.len());
    same_each(a, b, 0, 15);
    same_each(a, b, 15, 30);
    same_each(a, b, 30, 34);
    assert(a =~= b);
}

pub open spec fn eye_of_rows() -> Stmt {
    Stmt::Let(
        3,
        Name::PosEye,
        make(
            3,
            list(
                list(
                    call2(Fun2::Dot, var(Name::Pos), var(Name::Row(0))),
                    call2(Fun2::Dot, var(Name::Pos), var(Name::Row(1))),
                ),
                call2(Fun2::Dot, var(Name::Pos), var(Name::Row(2))),
            ),
        ),
    )
}

#[verifier::rlimit(50)]
pub proof fn eye_of_rows_spelled()
    ensures
        spells(
            "    float3 posEye = float3(dot(pos, vs_c[0]), dot(pos, vs_c[1]), dot(pos, vs_c[2]));\n"@,
            eye_of_rows(),
            1,
        ),
{
    reveal_strlit("    float3 posEye = float3(dot(pos, vs_c[0]), dot(pos, vs_c[1]), dot(pos, vs_c[2]));\n");
    reveal_strlit("    ");
    reveal_strlit("float3");
    reveal_strlit(" ");
    reveal_strlit("posEye");
    reveal_strlit(" = ");
    reveal_strlit("(");
    reveal_strlit("dot(");
    reveal_strlit("pos");
    reveal_strlit(", ");
    reveal_strlit("vs_c[");
    reveal_strlit("]");
    reveal_strlit(")");
    reveal_strlit(";");
    reveal_strlit("\n");
    short_numbers(0);
    short_numbers(1);
    short_numbers(2);
    reveal_with_fuel(show, 12);
    reveal_with_fuel(proper, 12);
    reveal_with_fuel(same_chars, 17);
    let a = "    float3 posEye = float3(dot(pos, vs_c[0]), dot(pos, vs_c[1]), dot(pos, vs_c[2]));\n"@;
    let b = listing(eye_of_rows(), 1);
    assert(a.len() == b.len());
    same_each(a, b, 0, 15);
    same_each(a, b, 15, 30);
    same_each(a, b, 30, 45);
    same_each(a, b, 45, 60);
    same_each(a, b, 60, 75);
    same_each(a, b, 75, 85);
    assert(a =~= b);
}

pub open spec fn texgen_of_blend() -> Stmt {
    Stmt::Let(3, Name::NTexgen, var(Name::NBlend))
}

pub proof fn texgen_of_blend_spelled()
    ensures
        spells("    float3 n_texgen = n_blend;\n"@, texgen_of_blend(), 1),
{
    reveal_strlit("    float3 n_texgen = n_blend;\n");
    reveal_strlit("    ");
    reveal_strlit("float3");
    reveal_strlit(" ");
    reveal_strlit("n_texgen");
    reveal_strlit(" = ");
    reveal_strlit("n_blend");
    reveal_strlit(";");
    reveal_strlit("\n");
    reveal_with_fuel(show, 12);
    reveal_with_fuel(proper, 12);
    reveal_with_fuel(same_chars, 33);
    let a = "    float3 n_texgen = n_blend;\n"@;
    let b = listing(texgen_of_blend(), 1);
    assert(a.len() == b.len());
    same_each(a, b, 0, 31);
    assert(a =~= b);
}

pub open spec fn texgen_of_rows() -> Stmt {
    Stmt::Let(
        3,
        Name::NTexgen,
        make(
            3,
            list(
                list(
                    call2(
                        Fun2::Dot,
                        part(
                            var(Name::Attribute(1)),
                            Pick::Three(Component::X, Component::Y, Component::Z),
                        ),
                        part(
                            var(Name::Row(0)),
                            Pick::Three(Component::X, Component::Y, Component::Z),
                        ),
                    ),
                    call2(
                        Fun2::Dot,
                        part(
                            var(Name::Attribute(1)),
                            Pick::Three(Component::X, Component::Y, Component::Z),
                        ),
                        part(
                            var(Name::Row(1)),
                            Pick::Three(Component::X, Component::Y, Component::Z),
                        ),
                    ),
                ),
                call2(
                    Fun2::Dot,
                    part(
                        var(Name::Attribute(1)),
                        Pick::Three(Component::X, Component::Y, Component::Z),
                    ),
                    part(var(Name::Row(2)), Pick::Three(Component::X, Component::Y, Component::Z)),
                ),
            ),
        ),
    )
}

#[verifier::rlimit(50)]
pub proof fn texgen_of_rows_spelled()
    ensures
        spells(
            "    float3 n_texgen = float3(dot(in.v1.xyz, vs_c[0].xyz), dot(in.v1.xyz, vs_c[1].xyz), dot(in.v1.xyz, vs_c[2].xyz));\n"@,
            texgen_of_rows(),
            1,
        ),
{
    reveal_strlit("    float3 n_texgen = float3(dot(in.v1.xyz, vs_c[0].xyz), dot(in.v1.xyz, vs_c[1].xyz), dot(in.v1.xyz, vs_c[2].xyz));\n");
    reveal_strlit("    ");
    reveal_strlit("float3");
    reveal_strlit(" ");
    reveal_strlit("n_texgen");
    reveal_strlit(" = ");
    reveal_strlit("(");
    reveal_strlit("dot(");
    reveal_strlit("in.v");
    reveal_strlit(".");
    reveal_strlit("x");
    reveal_strlit("y");
    reveal_strlit("z");
    reveal_strlit(", ");
    reveal_strlit("vs_c[");
    reveal_strlit("]");
    reveal_strlit(")");
    reveal_strlit(";");
    reveal_strlit("\n");
    short_numbers(0);
    short_numbers(1);
    short_numbers(2);
    reveal_with_fuel(show, 12);
    reveal_with_fuel(proper, 12);
    reveal_with_fuel(same_chars, 17);
    let a = "    float3 n_texgen = float3(dot(in.v1.xyz, vs_c[0].xyz), dot(in.v1.xyz, vs_c[1].xyz), dot(in.v1.xyz, vs_c[2].xyz));\n"@;
    let b = listing(texgen_of_rows(), 1);
    assert(a.len() == b.len());
    same_each(a, b, 0, 15);
    same_each(a, b, 15, 30);
    same_each(a, b, 30, 45);
    same_each(a, b, 45, 60);
    same_each(a, b, 60, 75);
    same_each(a, b, 75, 90);
    same_each(a, b, 90, 105);
    same_each(a, b, 105, 117);
    assert(a =~= b);
}

pub open spec fn let_eye() -> Stmt {
    Stmt::Let(3, Name::Eye, call1(Fun1::Normalize, var(Name::PosEye)))
}

pub proof fn let_eye_spelled()
    ensures
        spells("        float3 E_tci = normalize(posEye);\n"@, let_eye(), 2),
{
    reveal_strlit("        float3 E_tci = normalize(posEye);\n");
    reveal_strlit("        ");
    reveal_strlit("float3");
    reveal_strlit(" ");
    reveal_strlit("E_tci");
    reveal_strlit(" = ");
    reveal_strlit("normalize(");
    reveal_strlit("posEye");
    reveal_strlit(")");
    reveal_strlit(";");
    reveal_strlit("\n");
    reveal_with_fuel(show, 12);
    reveal_with_fuel(proper, 12);
    reveal_with_fuel(same_chars, 17);
    let a = "        float3 E_tci = normalize(posEye);\n"@;
    let b = listing(let_eye(), 2);
    assert(a.len() == b.len());
    same_each(a, b, 0, 15);
    same_each(a, b, 15, 30);
    same_each(a, b, 30, 42);
    assert(a =~= b);
}

pub open spec fn let_reflected() -> Stmt {
    Stmt::Let(
        3,
        Name::Reflected,
        diff(
            prod(
                prod(num(Number::Two), var(Name::Normal)),
                call2(Fun2::Dot, var(Name::Normal), var(Name::Eye)),
            ),
            var(Name::Eye),
        ),
    )
}

pub proof fn let_reflected_spelled()
    ensures
        spells("        float3 R_tci = 2.0 * n * dot(n, E_tci) - E_tci;\n"@, let_reflected(), 2),
{
    reveal_strlit("        float3 R_tci = 2.0 * n * dot(n, E_tci) - E_tci;\n");
    reveal_strlit("        ");
    reveal_strlit("float3");
    reveal_strlit(" ");
    reveal_strlit("R_tci");
    reveal_strlit(" = ");
    reveal_strlit("2.0");
    reveal_strlit(" * ");
    reveal_strlit("n");
    reveal_strlit("dot(");
    reveal_strlit(", ");
    reveal_strlit("E_tci");
    reveal_strlit(")");
    reveal_strlit(" - ");
    reveal_strlit(";");
    reveal_strlit("\n");
    reveal_with_fuel(show, 12);
    reveal_with_fuel(proper, 12);
    reveal_with_fuel(same_chars, 17);
    let a = "        float3 R_tci = 2.0 * n * dot(n, E_tci) - E_tci;\n"@;
    let b = listing(let_reflected(), 2);
    assert(a.len() == b.len());
    same_each(a, b, 0, 15);
    same_each(a, b, 15, 30);
    same_each(a, b, 30, 45);
    same_each(a, b, 45, 56);
    assert(a =~= b);
}

pub open spec fn let_eye_z() -> Stmt {
    Stmt::Let(1, Name::EyeZ, call1(Fun1::Abs, call2(Fun2::Dot, var(Name::Pos), var(Name::Row(2)))))
}

pub proof fn let_eye_z_spelled()
    ensures
        spells("        float eyeZ = abs(dot(pos, vs_c[2]));\n"@, let_eye_z(), 2),
{
    reveal_strlit("        float eyeZ = abs(dot(pos, vs_c[2]));\n");
    reveal_strlit("        ");
    reveal_strlit("float");
    reveal_strlit(" ");
    reveal_strlit("eyeZ");
    reveal_strlit(" = ");
    reveal_strlit("abs(");
    reveal_strlit("dot(");
    reveal_strlit("pos");
    reveal_strlit(", ");
    reveal_strlit("vs_c[");
    reveal_strlit("]");
    reveal_strlit(")");
    reveal_strlit(";");
    reveal_strlit("\n");
    short_numbers(2);
    reveal_with_fuel(show, 12);
    reveal_with_fuel(proper, 12);
    reveal_with_fuel(same_chars, 17);
    let a = "        float eyeZ = abs(dot(pos, vs_c[2]));\n"@;
    let b = listing(let_eye_z(), 2);
    assert(a.len() == b.len());
    same_each(a, b, 0, 15);
    same_each(a, b, 15, 30);
    same_each(a, b, 30, 45);
    assert(a =~= b);
}

pub open spec fn let_density() -> Stmt {
    Stmt::Let(1, Name::FogDensity, part(var(Name::Row(8)), Pick::One(Component::Z)))
}

pub proof fn let_density_spelled()
    ensures
        spells("        float fogDensity = vs_c[8].z;\n"@, let_density(), 2),
{
    reveal_strlit("        float fogDensity = vs_c[8].z;\n");
    reveal_strlit("        ");
    reveal_strlit("float");
    reveal_strlit(" ");
    reveal_strlit("fogDensity");
    reveal_strlit(" = ");
    reveal_strlit("vs_c[");
    reveal_strlit("]");
    reveal_strlit(".");
    reveal_strlit("z");
    reveal_strlit(";");
    reveal_strlit("\n");
    short_numbers(8);
    reveal_with_fuel(show, 12);
    reveal_with_fuel(proper, 12);
    reveal_with_fuel(same_chars, 17);
    let a = "        float fogDensity = vs_c[8].z;\n"@;
    let b = listing(let_density(), 2);
    assert(a.len() == b.len());
    same_each(a, b, 0, 15);
    same_each(a, b, 15, 30);
    same_each(a, b, 30, 38);
    assert(a =~= b);
}

pub open spec fn let_exp() -> Stmt {
    Stmt::Let(
        1,
        Name::FogFactor,
        call1(
            Fun1::Saturate,
            call1(
                Fun1::Exp2,
                prod(prod(neg(num(Number::LogE)), var(Name::FogDensity)), var(Name::EyeZ)),
            ),
        ),
    )
}

#[verifier::rlimit(50)]
pub proof fn let_exp_spelled()
    ensures
        spells("        float f = saturate(exp2(-1.442695 * fogDensity * eyeZ));\n"@, let_exp(), 2),
{
    reveal_strlit("        float f = saturate(exp2(-1.442695 * fogDensity * eyeZ));\n");
    reveal_strlit("        ");
    reveal_strlit("float");
    reveal_strlit(" ");
    reveal_strlit("f");
    reveal_strlit(" = ");
    reveal_strlit("saturate(");
    reveal_strlit("exp2(");
    reveal_strlit("-");
    reveal_strlit("1.442695");
    reveal_strlit(" * ");
    reveal_strlit("fogDensity");
    reveal_strlit("eyeZ");
    reveal_strlit(")");
    reveal_strlit(";");
    reveal_strlit("\n");
    reveal_with_fuel(show, 12);
    reveal_with_fuel(proper, 12);
    reveal_with_fuel(same_chars, 17);
    let a = "        float f = saturate(exp2(-1.442695 * fogDensity * eyeZ));\n"@;
    let b = listing(let_exp(), 2);
    assert(a.len() == b.len());
    same_each(a, b, 0, 15);
    same_each(a, b, 15, 30);
    same_each(a, b, 30, 45);
    same_each(a, b, 45, 60);
    same_each(a, b, 60, 65);
    assert(a =~= b);
}

pub open spec fn set_fog() -> Stmt {
    Stmt::Assign(
        Name::OutFog,
        make(
            4,
            list(
                list(list(var(Name::FogFactor), num(Number::Zero)), num(Number::Zero)),
                num(Number::Zero),
            ),
        ),
    )
}

pub proof fn set_fog_spelled()
    ensures
        spells("        out.fog = float4(f, 0.0, 0.0, 0.0);\n"@, set_fog(), 2),
{
    reveal_strlit("        out.fog = float4(f, 0.0, 0.0, 0.0);\n");
    reveal_strlit("        ");
    reveal_strlit("out.fog");
    reveal_strlit(" = ");
    reveal_strlit("float4");
    reveal_strlit("(");
    reveal_strlit("f");
    reveal_strlit(", ");
    reveal_strlit("0.0");
    reveal_strlit(")");
    reveal_strlit(";");
    reveal_strlit("\n");
    reveal_with_fuel(show, 12);
    reveal_with_fuel(proper, 12);
    reveal_with_fuel(same_chars, 17);
    let a = "        out.fog = float4(f, 0.0, 0.0, 0.0);\n"@;
    let b = listing(set_fog(), 2);
    assert(a.len() == b.len());
    same_each(a, b, 0, 15);
    same_each(a, b, 15, 30);
    same_each(a, b, 30, 44);
    assert(a =~= b);
}

pub open spec fn let_dz() -> Stmt {
    Stmt::Let(1, Name::Dz, prod(var(Name::FogDensity), var(Name::EyeZ)))
}

pub proof fn let_dz_spelled()
    ensures
        spells("        float dz = fogDensity * eyeZ;\n"@, let_dz(), 2),
{
    reveal_strlit("        float dz = fogDensity * eyeZ;\n");
    reveal_strlit("        ");
    reveal_strlit("float");
    reveal_strlit(" ");
    reveal_strlit("dz");
    reveal_strlit(" = ");
    reveal_strlit("fogDensity");
    reveal_strlit(" * ");
    reveal_strlit("eyeZ");
    reveal_strlit(";");
    reveal_strlit("\n");
    reveal_with_fuel(show, 12);
    reveal_with_fuel(proper, 12);
    reveal_with_fuel(same_chars, 17);
    let a = "        float dz = fogDensity * eyeZ;\n"@;
    let b = listing(let_dz(), 2);
    assert(a.len() == b.len());
    same_each(a, b, 0, 15);
    same_each(a, b, 15, 30);
    same_each(a, b, 30, 38);
    assert(a =~= b);
}

pub open spec fn let_exp_squared() -> Stmt {
    Stmt::Let(
        1,
        Name::FogFactor,
        call1(
            Fun1::Saturate,
            call1(Fun1::Exp2, prod(prod(neg(num(Number::LogE)), var(Name::Dz)), var(Name::Dz))),
        ),
    )
}

pub proof fn let_exp_squared_spelled()
    ensures
        spells("        float f = saturate(exp2(-1.442695 * dz * dz));\n"@, let_exp_squared(), 2),
{
    reveal_strlit("        float f = saturate(exp2(-1.442695 * dz * dz));\n");
    reveal_strlit("        ");
    reveal_strlit("float");
    reveal_strlit(" ");
    reveal_strlit("f");
    reveal_strlit(" = ");
    reveal_strlit("saturate(");
    reveal_strlit("exp2(");
    reveal_strlit("-");
    reveal_strlit("1.442695");
    reveal_strlit(" * ");
    reveal_strlit("dz");
    reveal_strlit(")");
    reveal_strlit(";");
    reveal_strlit("\n");
    reveal_with_fuel(show, 12);
    reveal_with_fuel(proper, 12);
    reveal_with_fuel(same_chars, 17);
    let a = "        float f = saturate(exp2(-1.442695 * dz * dz));\n"@;
    let b = listing(let_exp_squared(), 2);
    assert(a.len() == b.len());
    same_each(a, b, 0, 15);
    same_each(a, b, 15, 30);
    same_each(a, b, 30, 45);
    same_each(a, b, 45, 55);
    assert(a =~= b);
}

pub open spec fn let_fog_start() -> Stmt {
    Stmt::Let(1, Name::FogStart, part(var(Name::Row(8)), Pick::One(Component::X)))
}

pub proof fn let_fog_start_spelled()
    ensures
        spells("        float fogStart = vs_c[8].x;\n"@, let_fog_start(), 2),
{
    reveal_strlit("        float fogStart = vs_c[8].x;\n");
    reveal_strlit("        ");
    reveal_strlit("float");
    reveal_strlit(" ");
    reveal_strlit("fogStart");
    reveal_strlit(" = ");
    reveal_strlit("vs_c[");
    reveal_strlit("]");
    reveal_strlit(".");
    reveal_strlit("x");
    reveal_strlit(";");
    reveal_strlit("\n");
    short_numbers(8);
    reveal_with_fuel(show, 12);
    reveal_with_fuel(proper, 12);
    reveal_with_fuel(same_chars, 17);
    let a = "        float fogStart = vs_c[8].x;\n"@;
    let b = listing(let_fog_start(), 2);
    assert(a.len() == b.len());
    same_each(a, b, 0, 15);
    same_each(a, b, 15, 30);
    same_each(a, b, 30, 36);
    assert(a =~= b);
}

pub open spec fn let_fog_end() -> Stmt {
    Stmt::Let(1, Name::FogEnd, part(var(Name::Row(8)), Pick::One(Component::Y)))
}

pub proof fn let_fog_end_spelled()
    ensures
        spells("        float fogEnd = vs_c[8].y;\n"@, let_fog_end(), 2),
{
    reveal_strlit("        float fogEnd = vs_c[8].y;\n");
    reveal_strlit("        ");
    reveal_strlit("float");
    reveal_strlit(" ");
    reveal_strlit("fogEnd");
    reveal_strlit(" = ");
    reveal_strlit("vs_c[");
    reveal_strlit("]");
    reveal_strlit(".");
    reveal_strlit("y");
    reveal_strlit(";");
    reveal_strlit("\n");
    short_numbers(8);
    reveal_with_fuel(show, 12);
    reveal_with_fuel(proper, 12);
    reveal_with_fuel(same_chars, 17);
    let a = "        float fogEnd = vs_c[8].y;\n"@;
    let b = listing(let_fog_end(), 2);
    assert(a.len() == b.len());
    same_each(a, b, 0, 15);
    same_each(a, b, 15, 30);
    same_each(a, b, 30, 34);
    assert(a =~= b);
}

pub open spec fn let_fog_range() -> Stmt {
    Stmt::Let(1, Name::FogRange, diff(var(Name::FogEnd), var(Name::FogStart)))
}

pub proof fn let_fog_range_spelled()
    ensures
        spells("        float fogRange = fogEnd - fogStart;\n"@, let_fog_range(), 2),
{
    reveal_strlit("        float fogRange = fogEnd - fogStart;\n");
    reveal_strlit("        ");
    reveal_strlit("float");
    reveal_strlit(" ");
    reveal_strlit("fogRange");
    reveal_strlit(" = ");
    reveal_strlit("fogEnd");
    reveal_strlit(" - ");
    reveal_strlit("fogStart");
    reveal_strlit(";");
    reveal_strlit("\n");
    reveal_with_fuel(show, 12);
    reveal_with_fuel(proper, 12);
    reveal_with_fuel(same_chars, 17);
    let a = "        float fogRange = fogEnd - fogStart;\n"@;
    let b = listing(let_fog_range(), 2);
    assert(a.len() == b.len());
    same_each(a, b, 0, 15);
    same_each(a, b, 15, 30);
    same_each(a, b, 30, 44);
    assert(a =~= b);
}

pub open spec fn let_linear() -> Stmt {
    Stmt::Let(
        1,
        Name::FogFactor,
        cond(
            bin(Op::Equal, var(Name::FogRange), num(Number::Zero)),
            num(Number::Zero),
            call1(
                Fun1::Saturate,
                quot(paren(diff(var(Name::FogEnd), var(Name::EyeZ))), var(Name::FogRange)),
            ),
            false,
        ),
    )
}

#[verifier::rlimit(50)]
pub proof fn let_linear_spelled()
    ensures
        spells(
            "        float f = fogRange == 0.0 ? 0.0 : saturate((fogEnd - eyeZ) / fogRange);\n"@,
            let_linear(),
            2,
        ),
{
    reveal_strlit("        float f = fogRange == 0.0 ? 0.0 : saturate((fogEnd - eyeZ) / fogRange);\n");
    reveal_strlit("        ");
    reveal_strlit("float");
    reveal_strlit(" ");
    reveal_strlit("f");
    reveal_strlit(" = ");
    reveal_strlit("fogRange");
    reveal_strlit(" == ");
    reveal_strlit("0.0");
    reveal_strlit(" ? ");
    reveal_strlit(" : ");
    reveal_strlit("saturate(");
    reveal_strlit("(");
    reveal_strlit("fogEnd");
    reveal_strlit(" - ");
    reveal_strlit("eyeZ");
    reveal_strlit(")");
    reveal_strlit(" / ");
    reveal_strlit(";");
    reveal_strlit("\n");
    reveal_with_fuel(show, 12);
    reveal_with_fuel(proper, 12);
    reveal_with_fuel(same_chars, 17);
    let a = "        float f = fogRange == 0.0 ? 0.0 : saturate((fogEnd - eyeZ) / fogRange);\n"@;
    let b = listing(let_linear(), 2);
    assert(a.len() == b.len());
    same_each(a, b, 0, 15);
    same_each(a, b, 15, 30);
    same_each(a, b, 30, 45);
    same_each(a, b, 45, 60);
    same_each(a, b, 60, 75);
    same_each(a, b, 75, 80);
    assert(a =~= b);
}

pub open spec fn one_of(a: Expr) -> Expr {
    make(
        4,
        list(
            list(list(part(a, Pick::One(Component::X)), num(Number::Zero)), num(Number::Zero)),
            num(Number::Zero),
        ),
    )
}

pub proof fn one_of_spelled(a: Expr)
    requires
        proper(a),
        level(a) >= 7,
    ensures
        spells_value("float4("@ + show(a) + ".x, 0.0, 0.0, 0.0)"@, one_of(a)),
        level(one_of(a)) == level(
                make(
                    4,
                    list(
                        list(
                            list(part(a, Pick::One(Component::X)), num(Number::Zero)),
                            num(Number::Zero),
                        ),
                        num(Number::Zero),
                    ),
                ),
            ),
{
    piece_1();
    piece_2();
    reveal_with_fuel(show, 12);
    reveal_with_fuel(proper, 12);
    assert("float4("@ + show(a) + ".x, 0.0, 0.0, 0.0)"@ =~= show(one_of(a)));
}

pub open spec fn two_of(a: Expr) -> Expr {
    make(
        4,
        list(
            list(part(a, Pick::Two(Component::X, Component::Y)), num(Number::Zero)),
            num(Number::Zero),
        ),
    )
}

pub proof fn two_of_spelled(a: Expr)
    requires
        proper(a),
        level(a) >= 7,
    ensures
        spells_value("float4("@ + show(a) + ".xy, 0.0, 0.0)"@, two_of(a)),
        level(two_of(a)) == level(
                make(
                    4,
                    list(
                        list(part(a, Pick::Two(Component::X, Component::Y)), num(Number::Zero)),
                        num(Number::Zero),
                    ),
                ),
            ),
{
    piece_1();
    piece_3();
    reveal_with_fuel(show, 12);
    reveal_with_fuel(proper, 12);
    assert("float4("@ + show(a) + ".xy, 0.0, 0.0)"@ =~= show(two_of(a)));
}

pub open spec fn three_of(a: Expr) -> Expr {
    make(4, list(part(a, Pick::Three(Component::X, Component::Y, Component::Z)), num(Number::Zero)))
}

pub proof fn three_of_spelled(a: Expr)
    requires
        proper(a),
        level(a) >= 7,
    ensures
        spells_value("float4("@ + show(a) + ".xyz, 0.0)"@, three_of(a)),
        level(three_of(a)) == level(
                make(
                    4,
                    list(
                        part(a, Pick::Three(Component::X, Component::Y, Component::Z)),
                        num(Number::Zero),
                    ),
                ),
            ),
{
    piece_1();
    piece_4();
    reveal_with_fuel(show, 12);
    reveal_with_fuel(proper, 12);
    assert("float4("@ + show(a) + ".xyz, 0.0)"@ =~= show(three_of(a)));
}

pub open spec fn none_of() -> Expr {
    make(4, num(Number::Zero))
}

pub proof fn none_of_spelled()
    ensures
        spells_value("float4(0.0)"@, none_of()),
{
    reveal_strlit("float4(0.0)");
    reveal_strlit("float4");
    reveal_strlit("(");
    reveal_strlit("0.0");
    reveal_strlit(")");
    reveal_with_fuel(show, 12);
    reveal_with_fuel(proper, 12);
    reveal_with_fuel(same_chars, 13);
    let a = "float4(0.0)"@;
    let b = show(none_of());
    assert(a.len() == b.len());
    same_each(a, b, 0, 11);
    assert(a =~= b);
}

pub open spec fn set_coord(i: nat, a: Expr) -> Stmt {
    Stmt::Assign(Name::OutTexcoord(i), a)
}

pub proof fn set_coord_spelled(i: nat, a: Expr)
    requires
        proper(a),
        level(a) >= 1,
    ensures
        spells(
            Seq::<char>::empty() + "    out.texcoord"@ + dec(i) + " = "@ + show(a) + ";\n"@,
            set_coord(i, a),
            1,
        ),
{
    piece_5();
    piece_6();
    reveal_with_fuel(show, 12);
    reveal_with_fuel(proper, 12);
    assert(Seq::<char>::empty() + "    out.texcoord"@ + dec(i) + " = "@ + show(a) + ";\n"@
        =~= listing(set_coord(i, a), 1));
}

pub open spec fn set_coord_point(i: nat, a: Expr) -> Stmt {
    Stmt::Assign(
        Name::OutTexcoord(i),
        make(
            4,
            list(
                part(paren(a), Pick::Three(Component::X, Component::Y, Component::Z)),
                num(Number::One),
            ),
        ),
    )
}

pub proof fn set_coord_point_spelled(i: nat, a: Expr)
    requires
        proper(a),
        level(a) >= 1,
    ensures
        spells(
            Seq::<char>::empty() + "    out.texcoord"@ + dec(i) + " = "@ + "float4(("@ + show(a)
                + ").xyz, 1.0)"@ + ";\n"@,
            set_coord_point(i, a),
            1,
        ),
{
    piece_5();
    piece_7();
    piece_8();
    piece_6();
    reveal_with_fuel(show, 12);
    reveal_with_fuel(proper, 12);
    let x1 = "out.texcoord"@ + dec(i);
    let x2 = x1 + " = "@;
    let x3 = "float4"@ + "("@;
    let x4 = "("@ + show(a);
    let x5 = x4 + ")"@;
    let x6 = "."@ + "x"@;
    let x7 = x6 + "y"@;
    let x8 = x7 + "z"@;
    let x9 = x5 + x8;
    let x10 = x9 + ", "@;
    let x11 = x10 + "1.0"@;
    let x12 = x3 + x11;
    let x13 = x12 + ")"@;
    let x14 = x2 + x13;
    let x15 = x14 + ";"@;
    let x16 = "    "@ + x15;
    let x17 = x16 + "\n"@;
    let x18 = "    "@ + x14;
    let x19 = x18 + ";"@;
    regrouped("    "@, x14, ";"@);
    let x20 = "    "@ + x2;
    let x21 = x20 + x13;
    regrouped("    "@, x2, x13);
    let x22 = "    "@ + x1;
    let x23 = x22 + " = "@;
    regrouped("    "@, x1, " = "@);
    let x24 = "    "@ + "out.texcoord"@;
    let x25 = x24 + dec(i);
    regrouped("    "@, "out.texcoord"@, dec(i));
    let x26 = x25 + " = "@;
    let x27 = x26 + x13;
    let x28 = x26 + x12;
    let x29 = x28 + ")"@;
    regrouped(x26, x12, ")"@);
    let x30 = x26 + x3;
    let x31 = x30 + x11;
    regrouped(x26, x3, x11);
    let x32 = x26 + "float4"@;
    let x33 = x32 + "("@;
    regrouped(x26, "float4"@, "("@);
    let x34 = x33 + x11;
    let x35 = x33 + x10;
    let x36 = x35 + "1.0"@;
    regrouped(x33, x10, "1.0"@);
    let x37 = x33 + x9;
    let x38 = x37 + ", "@;
    regrouped(x33, x9, ", "@);
    let x39 = x33 + x5;
    let x40 = x39 + x8;
    regrouped(x33, x5, x8);
    let x41 = x33 + x4;
    let x42 = x41 + ")"@;
    regrouped(x33, x4, ")"@);
    let x43 = x33 + "("@;
    let x44 = x43 + show(a);
    regrouped(x33, "("@, show(a));
    let x45 = x44 + ")"@;
    let x46 = x45 + x8;
    let x47 = x45 + x7;
    let x48 = x47 + "z"@;
    regrouped(x45, x7, "z"@);
    let x49 = x45 + x6;
    let x50 = x49 + "y"@;
    regrouped(x45, x6, "y"@);
    let x51 = x45 + "."@;
    let x52 = x51 + "x"@;
    regrouped(x45, "."@, "x"@);
    let x53 = x52 + "y"@;
    let x54 = x53 + "z"@;
    let x55 = x54 + ", "@;
    let x56 = x55 + "1.0"@;
    let x57 = x56 + ")"@;
    let x58 = x57 + ";"@;
    let x59 = x58 + "\n"@;
    let x60 = x3 + "("@;
    let x61 = x26 + x60;
    let x62 = x61 + show(a);
    let x63 = ")"@ + "."@;
    let x64 = x63 + "x"@;
    let x65 = x64 + "y"@;
    let x66 = x65 + "z"@;
    let x67 = x66 + ", "@;
    let x68 = x67 + "1.0"@;
    let x69 = x68 + ")"@;
    let x70 = x62 + x69;
    let x71 = ";"@ + "\n"@;
    let x72 = x70 + x71;
    let x73 = x30 + "("@;
    regrouped(x26, x3, "("@);
    let x74 = x44 + x69;
    let x75 = x44 + x68;
    let x76 = x75 + ")"@;
    regrouped(x44, x68, ")"@);
    let x77 = x44 + x67;
    let x78 = x77 + "1.0"@;
    regrouped(x44, x67, "1.0"@);
    let x79 = x44 + x66;
    let x80 = x79 + ", "@;
    regrouped(x44, x66, ", "@);
    let x81 = x44 + x65;
    let x82 = x81 + "z"@;
    regrouped(x44, x65, "z"@);
    let x83 = x44 + x64;
    let x84 = x83 + "y"@;
    regrouped(x44, x64, "y"@);
    let x85 = x44 + x63;
    let x86 = x85 + "x"@;
    regrouped(x44, x63, "x"@);
    regrouped(x44, ")"@, "."@);
    let x87 = x57 + x71;
    regrouped(x57, ";"@, "\n"@);
    assert(Seq::<char>::empty() + x24 =~= x24);
}

pub open spec fn zero_coord(i: nat) -> Stmt {
    Stmt::Assign(Name::OutTexcoord(i), make(4, num(Number::Zero)))
}

pub proof fn zero_coord_spelled(i: nat)
    ensures
        spells(
            Seq::<char>::empty() + "    out.texcoord"@ + dec(i) + " = float4(0.0);\n"@,
            zero_coord(i),
            1,
        ),
{
    piece_5();
    piece_9();
    reveal_with_fuel(show, 12);
    reveal_with_fuel(proper, 12);
    assert(Seq::<char>::empty() + "    out.texcoord"@ + dec(i) + " = float4(0.0);\n"@
        =~= listing(zero_coord(i), 1));
}

pub open spec fn clip_distance(i: nat) -> Stmt {
    Stmt::Assign(Name::OutClip(i), call2(Fun2::Dot, var(Name::WorldPos), var(Name::ClipPlane(i))))
}

pub proof fn clip_distance_spelled(i: nat)
    ensures
        spells(
            Seq::<char>::empty() + "    out.clip_distance["@ + dec(i)
                + "] = dot(world_pos, vs_draw.clip["@ + dec(i) + "]);\n"@,
            clip_distance(i),
            1,
        ),
{
    piece_10();
    piece_11();
    piece_12();
    reveal_with_fuel(show, 12);
    reveal_with_fuel(proper, 12);
    assert(Seq::<char>::empty() + "    out.clip_distance["@ + dec(i) + "] = dot(world_pos, vs_draw.clip["@
        + dec(i) + "]);\n"@
        =~= listing(clip_distance(i), 1));
}

pub open spec fn texgen_vector() -> Expr {
    make(4, list(var(Name::NTexgen), num(Number::Zero)))
}

pub proof fn texgen_vector_spelled()
    ensures
        spells_value("float4(n_texgen, 0.0)"@, texgen_vector()),
{
    reveal_strlit("float4(n_texgen, 0.0)");
    reveal_strlit("float4");
    reveal_strlit("(");
    reveal_strlit("n_texgen");
    reveal_strlit(", ");
    reveal_strlit("0.0");
    reveal_strlit(")");
    reveal_with_fuel(show, 12);
    reveal_with_fuel(proper, 12);
    reveal_with_fuel(same_chars, 23);
    let a = "float4(n_texgen, 0.0)"@;
    let b = show(texgen_vector());
    assert(a.len() == b.len());
    same_each(a, b, 0, 21);
    assert(a =~= b);
}

pub open spec fn eye_vector() -> Expr {
    make(4, list(var(Name::PosEye), num(Number::Zero)))
}

pub proof fn eye_vector_spelled()
    ensures
        spells_value("float4(posEye, 0.0)"@, eye_vector()),
{
    reveal_strlit("float4(posEye, 0.0)");
    reveal_strlit("float4");
    reveal_strlit("(");
    reveal_strlit("posEye");
    reveal_strlit(", ");
    reveal_strlit("0.0");
    reveal_strlit(")");
    reveal_with_fuel(show, 12);
    reveal_with_fuel(proper, 12);
    reveal_with_fuel(same_chars, 21);
    let a = "float4(posEye, 0.0)"@;
    let b = show(eye_vector());
    assert(a.len() == b.len());
    same_each(a, b, 0, 19);
    assert(a =~= b);
}

pub open spec fn declare_raw(i: nat) -> Stmt {
    Stmt::Declare(4, Name::Raw(i))
}

pub proof fn declare_raw_spelled(i: nat)
    ensures
        spells(Seq::<char>::empty() + "    float4 raw"@ + dec(i) + ";\n"@, declare_raw(i), 1),
{
    piece_13();
    piece_6();
    reveal_with_fuel(show, 12);
    reveal_with_fuel(proper, 12);
    assert(Seq::<char>::empty() + "    float4 raw"@ + dec(i) + ";\n"@ =~= listing(declare_raw(i), 1));
}

pub open spec fn set_raw(i: nat) -> Stmt {
    Stmt::Assign(Name::Raw(i), make(4, list(var(Name::Reflected), num(Number::Zero))))
}

pub proof fn set_raw_spelled(i: nat)
    ensures
        spells(
            Seq::<char>::empty() + "        raw"@ + dec(i) + " = float4(R_tci, 0.0);\n"@,
            set_raw(i),
            2,
        ),
{
    piece_14();
    piece_15();
    reveal_with_fuel(show, 12);
    reveal_with_fuel(proper, 12);
    assert(Seq::<char>::empty() + "        raw"@ + dec(i) + " = float4(R_tci, 0.0);\n"@
        =~= listing(set_raw(i), 2));
}

pub open spec fn let_raw(i: nat, a: Expr) -> Stmt {
    Stmt::Let(4, Name::Raw(i), a)
}

pub proof fn let_raw_spelled(i: nat, a: Expr)
    requires
        proper(a),
        level(a) >= 1,
    ensures
        spells(
            Seq::<char>::empty() + "    float4 raw"@ + dec(i) + " = "@ + show(a) + ";\n"@,
            let_raw(i, a),
            1,
        ),
{
    piece_13();
    piece_6();
    reveal_with_fuel(show, 12);
    reveal_with_fuel(proper, 12);
    assert(Seq::<char>::empty() + "    float4 raw"@ + dec(i) + " = "@ + show(a) + ";\n"@
        =~= listing(let_raw(i, a), 1));
}

pub open spec fn coord_row(i: nat, row: nat) -> Expr {
    call2(Fun2::Dot, var(Name::Raw(i)), var(Name::Row(row)))
}

pub proof fn coord_row_spelled(i: nat, row: nat)
    ensures
        spells_value("dot(raw"@ + dec(i) + ", vs_c["@ + dec(row) + "])"@, coord_row(i, row)),
        level(coord_row(i, row)) == level(call2(Fun2::Dot, var(Name::Raw(i)), var(Name::Row(row)))),
{
    piece_16();
    piece_17();
    piece_18();
    reveal_with_fuel(show, 12);
    reveal_with_fuel(proper, 12);
    assert("dot(raw"@ + dec(i) + ", vs_c["@ + dec(row) + "])"@ =~= show(coord_row(i, row)));
}

pub open spec fn one_behind(i: nat, n: nat) -> Stmt {
    Stmt::AssignAt(Name::Raw(i), n, num(Number::One))
}

pub proof fn one_behind_spelled(i: nat, n: nat)
    ensures
        spells(
            Seq::<char>::empty() + "    raw"@ + dec(i) + "["@ + dec(n) + "] = 1.0;\n"@,
            one_behind(i, n),
            1,
        ),
{
    piece_19();
    piece_20();
    reveal_with_fuel(show, 12);
    reveal_with_fuel(proper, 12);
    assert(Seq::<char>::empty() + "    raw"@ + dec(i) + "["@ + dec(n) + "] = 1.0;\n"@
        =~= listing(one_behind(i, n), 1));
}

pub open spec fn let_transformed(i: nat, a: Expr, b: Expr, c: Expr, d: Expr) -> Stmt {
    Stmt::Let(4, Name::Transformed(i), make(4, list(list(list(a, b), c), d)))
}

pub proof fn let_transformed_spelled(i: nat, a: Expr, b: Expr, c: Expr, d: Expr)
    requires
        proper(a),
        level(a) >= 1,
        proper(b),
        level(b) >= 1,
        proper(c),
        level(c) >= 1,
        proper(d),
        level(d) >= 1,
    ensures
        spells(
            Seq::<char>::empty() + "    float4 r"@ + dec(i) + " = float4("@ + show(a) + ", "@
                + show(b) + ", "@ + show(c) + ", "@ + show(d) + ");\n"@,
            let_transformed(i, a, b, c, d),
            1,
        ),
{
    piece_21();
    piece_22();
    piece_23();
    reveal_with_fuel(show, 12);
    reveal_with_fuel(proper, 12);
    let x1 = "float4"@ + " "@;
    let x2 = "r"@ + dec(i);
    let x3 = x1 + x2;
    let x4 = x3 + " = "@;
    let x5 = "float4"@ + "("@;
    let x6 = show(a) + ", "@;
    let x7 = x6 + show(b);
    let x8 = x7 + ", "@;
    let x9 = x8 + show(c);
    let x10 = x9 + ", "@;
    let x11 = x10 + show(d);
    let x12 = x5 + x11;
    let x13 = x12 + ")"@;
    let x14 = x4 + x13;
    let x15 = x14 + ";"@;
    let x16 = "    "@ + x15;
    let x17 = x16 + "\n"@;
    let x18 = "    "@ + x14;
    let x19 = x18 + ";"@;
    regrouped("    "@, x14, ";"@);
    let x20 = "    "@ + x4;
    let x21 = x20 + x13;
    regrouped("    "@, x4, x13);
    let x22 = "    "@ + x3;
    let x23 = x22 + " = "@;
    regrouped("    "@, x3, " = "@);
    let x24 = "    "@ + x1;
    let x25 = x24 + x2;
    regrouped("    "@, x1, x2);
    let x26 = "    "@ + "float4"@;
    let x27 = x26 + " "@;
    regrouped("    "@, "float4"@, " "@);
    let x28 = x27 + x2;
    let x29 = x27 + "r"@;
    let x30 = x29 + dec(i);
    regrouped(x27, "r"@, dec(i));
    let x31 = x30 + " = "@;
    let x32 = x31 + x13;
    let x33 = x31 + x12;
    let x34 = x33 + ")"@;
    regrouped(x31, x12, ")"@);
    let x35 = x31 + x5;
    let x36 = x35 + x11;
    regrouped(x31, x5, x11);
    let x37 = x31 + "float4"@;
    let x38 = x37 + "("@;
    regrouped(x31, "float4"@, "("@);
    let x39 = x38 + x11;
    let x40 = x38 + x10;
    let x41 = x40 + show(d);
    regrouped(x38, x10, show(d));
    let x42 = x38 + x9;
    let x43 = x42 + ", "@;
    regrouped(x38, x9, ", "@);
    let x44 = x38 + x8;
    let x45 = x44 + show(c);
    regrouped(x38, x8, show(c));
    let x46 = x38 + x7;
    let x47 = x46 + ", "@;
    regrouped(x38, x7, ", "@);
    let x48 = x38 + x6;
    let x49 = x48 + show(b);
    regrouped(x38, x6, show(b));
    let x50 = x38 + show(a);
    let x51 = x50 + ", "@;
    regrouped(x38, show(a), ", "@);
    let x52 = x51 + show(b);
    let x53 = x52 + ", "@;
    let x54 = x53 + show(c);
    let x55 = x54 + ", "@;
    let x56 = x55 + show(d);
    let x57 = x56 + ")"@;
    let x58 = x57 + ";"@;
    let x59 = x58 + "\n"@;
    let x60 = " = "@ + "float4"@;
    let x61 = x60 + "("@;
    let x62 = x30 + x61;
    let x63 = x62 + show(a);
    let x64 = x63 + ", "@;
    let x65 = x64 + show(b);
    let x66 = x65 + ", "@;
    let x67 = x66 + show(c);
    let x68 = x67 + ", "@;
    let x69 = x68 + show(d);
    let x70 = ")"@ + ";"@;
    let x71 = x70 + "\n"@;
    let x72 = x69 + x71;
    let x73 = x30 + x60;
    let x74 = x73 + "("@;
    regrouped(x30, x60, "("@);
    regrouped(x30, " = "@, "float4"@);
    let x75 = x56 + x71;
    let x76 = x56 + x70;
    let x77 = x76 + "\n"@;
    regrouped(x56, x70, "\n"@);
    regrouped(x56, ")"@, ";"@);
    assert(Seq::<char>::empty() + x29 =~= x29);
}

pub open spec fn kept2(i: nat) -> Expr {
    make(
        4,
        list(
            list(
                list(
                    part(var(Name::Transformed(i)), Pick::One(Component::X)),
                    part(var(Name::Transformed(i)), Pick::One(Component::Y)),
                ),
                num(Number::Zero),
            ),
            num(Number::Zero),
        ),
    )
}

pub proof fn kept2_spelled(i: nat)
    ensures
        spells_value(
            "float4("@ + "r"@ + dec(i) + ".x, "@ + "r"@ + dec(i) + ".y, "@ + "0.0, "@ + "0.0"@
                + ")"@,
            kept2(i),
        ),
        level(kept2(i)) == level(
                make(
                    4,
                    list(
                        list(
                            list(
                                part(var(Name::Transformed(i)), Pick::One(Component::X)),
                                part(var(Name::Transformed(i)), Pick::One(Component::Y)),
                            ),
                            num(Number::Zero),
                        ),
                        num(Number::Zero),
                    ),
                ),
            ),
{
    piece_1();
    piece_24();
    piece_25();
    piece_26();
    reveal_with_fuel(show, 12);
    reveal_with_fuel(proper, 12);
    let x1 = "float4"@ + "("@;
    let x2 = "r"@ + dec(i);
    let x3 = "."@ + "x"@;
    let x4 = x2 + x3;
    let x5 = x4 + ", "@;
    let x6 = "."@ + "y"@;
    let x7 = x2 + x6;
    let x8 = x5 + x7;
    let x9 = x8 + ", "@;
    let x10 = x9 + "0.0"@;
    let x11 = x10 + ", "@;
    let x12 = x11 + "0.0"@;
    let x13 = x1 + x12;
    let x14 = x13 + ")"@;
    let x15 = x1 + x11;
    let x16 = x15 + "0.0"@;
    regrouped(x1, x11, "0.0"@);
    let x17 = x1 + x10;
    let x18 = x17 + ", "@;
    regrouped(x1, x10, ", "@);
    let x19 = x1 + x9;
    let x20 = x19 + "0.0"@;
    regrouped(x1, x9, "0.0"@);
    let x21 = x1 + x8;
    let x22 = x21 + ", "@;
    regrouped(x1, x8, ", "@);
    let x23 = x1 + x5;
    let x24 = x23 + x7;
    regrouped(x1, x5, x7);
    let x25 = x1 + x4;
    let x26 = x25 + ", "@;
    regrouped(x1, x4, ", "@);
    let x27 = x1 + x2;
    let x28 = x27 + x3;
    regrouped(x1, x2, x3);
    let x29 = x1 + "r"@;
    let x30 = x29 + dec(i);
    regrouped(x1, "r"@, dec(i));
    let x31 = x30 + x3;
    let x32 = x30 + "."@;
    let x33 = x32 + "x"@;
    regrouped(x30, "."@, "x"@);
    let x34 = x33 + ", "@;
    let x35 = x34 + x7;
    let x36 = x34 + x2;
    let x37 = x36 + x6;
    regrouped(x34, x2, x6);
    let x38 = x34 + "r"@;
    let x39 = x38 + dec(i);
    regrouped(x34, "r"@, dec(i));
    let x40 = x39 + x6;
    let x41 = x39 + "."@;
    let x42 = x41 + "y"@;
    regrouped(x39, "."@, "y"@);
    let x43 = x42 + ", "@;
    let x44 = x43 + "0.0"@;
    let x45 = x44 + ", "@;
    let x46 = x45 + "0.0"@;
    let x47 = x46 + ")"@;
    let x48 = x3 + ", "@;
    let x49 = x30 + x48;
    let x50 = x49 + "r"@;
    let x51 = x50 + dec(i);
    let x52 = x6 + ", "@;
    let x53 = x51 + x52;
    let x54 = "0.0"@ + ", "@;
    let x55 = x53 + x54;
    let x56 = x55 + "0.0"@;
    let x57 = x56 + ")"@;
    let x58 = x31 + ", "@;
    regrouped(x30, x3, ", "@);
    let x59 = x39 + x52;
    let x60 = x40 + ", "@;
    regrouped(x39, x6, ", "@);
    let x61 = x43 + x54;
    regrouped(x43, "0.0"@, ", "@);
}

pub open spec fn kept2_projected(i: nat) -> Expr {
    make(
        4,
        list(
            list(
                list(
                    part(var(Name::Transformed(i)), Pick::One(Component::X)),
                    part(var(Name::Transformed(i)), Pick::One(Component::Y)),
                ),
                num(Number::Zero),
            ),
            part(var(Name::Transformed(i)), Pick::One(Component::Y)),
        ),
    )
}

pub proof fn kept2_projected_spelled(i: nat)
    ensures
        spells_value(
            "float4("@ + "r"@ + dec(i) + ".x, "@ + "r"@ + dec(i) + ".y, "@ + "0.0, "@ + "r"@
                + dec(i) + ".y"@ + ")"@,
            kept2_projected(i),
        ),
        level(kept2_projected(i)) == level(
                make(
                    4,
                    list(
                        list(
                            list(
                                part(var(Name::Transformed(i)), Pick::One(Component::X)),
                                part(var(Name::Transformed(i)), Pick::One(Component::Y)),
                            ),
                            num(Number::Zero),
                        ),
                        part(var(Name::Transformed(i)), Pick::One(Component::Y)),
                    ),
                ),
            ),
{
    piece_1();
    piece_24();
    piece_25();
    piece_26();
    piece_27();
    reveal_with_fuel(show, 12);
    reveal_with_fuel(proper, 12);
    let x1 = "float4"@ + "("@;
    let x2 = "r"@ + dec(i);
    let x3 = "."@ + "x"@;
    let x4 = x2 + x3;
    let x5 = x4 + ", "@;
    let x6 = "."@ + "y"@;
    let x7 = x2 + x6;
    let x8 = x5 + x7;
    let x9 = x8 + ", "@;
    let x10 = x9 + "0.0"@;
    let x11 = x10 + ", "@;
    let x12 = x11 + x7;
    let x13 = x1 + x12;
    let x14 = x13 + ")"@;
    let x15 = x1 + x11;
    let x16 = x15 + x7;
    regrouped(x1, x11, x7);
    let x17 = x1 + x10;
    let x18 = x17 + ", "@;
    regrouped(x1, x10, ", "@);
    let x19 = x1 + x9;
    let x20 = x19 + "0.0"@;
    regrouped(x1, x9, "0.0"@);
    let x21 = x1 + x8;
    let x22 = x21 + ", "@;
    regrouped(x1, x8, ", "@);
    let x23 = x1 + x5;
    let x24 = x23 + x7;
    regrouped(x1, x5, x7);
    let x25 = x1 + x4;
    let x26 = x25 + ", "@;
    regrouped(x1, x4, ", "@);
    let x27 = x1 + x2;
    let x28 = x27 + x3;
    regrouped(x1, x2, x3);
    let x29 = x1 + "r"@;
    let x30 = x29 + dec(i);
    regrouped(x1, "r"@, dec(i));
    let x31 = x30 + x3;
    let x32 = x30 + "."@;
    let x33 = x32 + "x"@;
    regrouped(x30, "."@, "x"@);
    let x34 = x33 + ", "@;
    let x35 = x34 + x7;
    let x36 = x34 + x2;
    let x37 = x36 + x6;
    regrouped(x34, x2, x6);
    let x38 = x34 + "r"@;
    let x39 = x38 + dec(i);
    regrouped(x34, "r"@, dec(i));
    let x40 = x39 + x6;
    let x41 = x39 + "."@;
    let x42 = x41 + "y"@;
    regrouped(x39, "."@, "y"@);
    let x43 = x42 + ", "@;
    let x44 = x43 + "0.0"@;
    let x45 = x44 + ", "@;
    let x46 = x45 + x7;
    let x47 = x45 + x2;
    let x48 = x47 + x6;
    regrouped(x45, x2, x6);
    let x49 = x45 + "r"@;
    let x50 = x49 + dec(i);
    regrouped(x45, "r"@, dec(i));
    let x51 = x50 + x6;
    let x52 = x50 + "."@;
    let x53 = x52 + "y"@;
    regrouped(x50, "."@, "y"@);
    let x54 = x53 + ")"@;
    let x55 = x3 + ", "@;
    let x56 = x30 + x55;
    let x57 = x56 + "r"@;
    let x58 = x57 + dec(i);
    let x59 = x6 + ", "@;
    let x60 = x58 + x59;
    let x61 = "0.0"@ + ", "@;
    let x62 = x60 + x61;
    let x63 = x62 + "r"@;
    let x64 = x63 + dec(i);
    let x65 = x64 + x6;
    let x66 = x65 + ")"@;
    let x67 = x31 + ", "@;
    regrouped(x30, x3, ", "@);
    let x68 = x39 + x59;
    let x69 = x40 + ", "@;
    regrouped(x39, x6, ", "@);
    let x70 = x43 + x61;
    regrouped(x43, "0.0"@, ", "@);
}

pub open spec fn kept3(i: nat) -> Expr {
    make(
        4,
        list(
            list(
                list(
                    part(var(Name::Transformed(i)), Pick::One(Component::X)),
                    part(var(Name::Transformed(i)), Pick::One(Component::Y)),
                ),
                part(var(Name::Transformed(i)), Pick::One(Component::Z)),
            ),
            num(Number::Zero),
        ),
    )
}

pub proof fn kept3_spelled(i: nat)
    ensures
        spells_value(
            "float4("@ + "r"@ + dec(i) + ".x, "@ + "r"@ + dec(i) + ".y, "@ + "r"@ + dec(i)
                + ".z, "@ + "0.0"@ + ")"@,
            kept3(i),
        ),
        level(kept3(i)) == level(
                make(
                    4,
                    list(
                        list(
                            list(
                                part(var(Name::Transformed(i)), Pick::One(Component::X)),
                                part(var(Name::Transformed(i)), Pick::One(Component::Y)),
                            ),
                            part(var(Name::Transformed(i)), Pick::One(Component::Z)),
                        ),
                        num(Number::Zero),
                    ),
                ),
            ),
{
    piece_1();
    piece_24();
    piece_25();
    piece_28();
    reveal_with_fuel(show, 12);
    reveal_with_fuel(proper, 12);
    let x1 = "float4"@ + "("@;
    let x2 = "r"@ + dec(i);
    let x3 = "."@ + "x"@;
    let x4 = x2 + x3;
    let x5 = x4 + ", "@;
    let x6 = "."@ + "y"@;
    let x7 = x2 + x6;
    let x8 = x5 + x7;
    let x9 = x8 + ", "@;
    let x10 = "."@ + "z"@;
    let x11 = x2 + x10;
    let x12 = x9 + x11;
    let x13 = x12 + ", "@;
    let x14 = x13 + "0.0"@;
    let x15 = x1 + x14;
    let x16 = x15 + ")"@;
    let x17 = x1 + x13;
    let x18 = x17 + "0.0"@;
    regrouped(x1, x13, "0.0"@);
    let x19 = x1 + x12;
    let x20 = x19 + ", "@;
    regrouped(x1, x12, ", "@);
    let x21 = x1 + x9;
    let x22 = x21 + x11;
    regrouped(x1, x9, x11);
    let x23 = x1 + x8;
    let x24 = x23 + ", "@;
    regrouped(x1, x8, ", "@);
    let x25 = x1 + x5;
    let x26 = x25 + x7;
    regrouped(x1, x5, x7);
    let x27 = x1 + x4;
    let x28 = x27 + ", "@;
    regrouped(x1, x4, ", "@);
    let x29 = x1 + x2;
    let x30 = x29 + x3;
    regrouped(x1, x2, x3);
    let x31 = x1 + "r"@;
    let x32 = x31 + dec(i);
    regrouped(x1, "r"@, dec(i));
    let x33 = x32 + x3;
    let x34 = x32 + "."@;
    let x35 = x34 + "x"@;
    regrouped(x32, "."@, "x"@);
    let x36 = x35 + ", "@;
    let x37 = x36 + x7;
    let x38 = x36 + x2;
    let x39 = x38 + x6;
    regrouped(x36, x2, x6);
    let x40 = x36 + "r"@;
    let x41 = x40 + dec(i);
    regrouped(x36, "r"@, dec(i));
    let x42 = x41 + x6;
    let x43 = x41 + "."@;
    let x44 = x43 + "y"@;
    regrouped(x41, "."@, "y"@);
    let x45 = x44 + ", "@;
    let x46 = x45 + x11;
    let x47 = x45 + x2;
    let x48 = x47 + x10;
    regrouped(x45, x2, x10);
    let x49 = x45 + "r"@;
    let x50 = x49 + dec(i);
    regrouped(x45, "r"@, dec(i));
    let x51 = x50 + x10;
    let x52 = x50 + "."@;
    let x53 = x52 + "z"@;
    regrouped(x50, "."@, "z"@);
    let x54 = x53 + ", "@;
    let x55 = x54 + "0.0"@;
    let x56 = x55 + ")"@;
    let x57 = x3 + ", "@;
    let x58 = x32 + x57;
    let x59 = x58 + "r"@;
    let x60 = x59 + dec(i);
    let x61 = x6 + ", "@;
    let x62 = x60 + x61;
    let x63 = x62 + "r"@;
    let x64 = x63 + dec(i);
    let x65 = x10 + ", "@;
    let x66 = x64 + x65;
    let x67 = x66 + "0.0"@;
    let x68 = x67 + ")"@;
    let x69 = x33 + ", "@;
    regrouped(x32, x3, ", "@);
    let x70 = x41 + x61;
    let x71 = x42 + ", "@;
    regrouped(x41, x6, ", "@);
    let x72 = x50 + x65;
    let x73 = x51 + ", "@;
    regrouped(x50, x10, ", "@);
}

pub open spec fn kept3_projected(i: nat) -> Expr {
    make(
        4,
        list(
            list(
                list(
                    part(var(Name::Transformed(i)), Pick::One(Component::X)),
                    part(var(Name::Transformed(i)), Pick::One(Component::Y)),
                ),
                part(var(Name::Transformed(i)), Pick::One(Component::Z)),
            ),
            part(var(Name::Transformed(i)), Pick::One(Component::Z)),
        ),
    )
}

pub proof fn kept3_projected_spelled(i: nat)
    ensures
        spells_value(
            "float4("@ + "r"@ + dec(i) + ".x, "@ + "r"@ + dec(i) + ".y, "@ + "r"@ + dec(i)
                + ".z, "@ + "r"@ + dec(i) + ".z"@ + ")"@,
            kept3_projected(i),
        ),
        level(kept3_projected(i)) == level(
                make(
                    4,
                    list(
                        list(
                            list(
                                part(var(Name::Transformed(i)), Pick::One(Component::X)),
                                part(var(Name::Transformed(i)), Pick::One(Component::Y)),
                            ),
                            part(var(Name::Transformed(i)), Pick::One(Component::Z)),
                        ),
                        part(var(Name::Transformed(i)), Pick::One(Component::Z)),
                    ),
                ),
            ),
{
    piece_1();
    piece_24();
    piece_25();
    piece_28();
    piece_29();
    reveal_with_fuel(show, 12);
    reveal_with_fuel(proper, 12);
    let x1 = "float4"@ + "("@;
    let x2 = "r"@ + dec(i);
    let x3 = "."@ + "x"@;
    let x4 = x2 + x3;
    let x5 = x4 + ", "@;
    let x6 = "."@ + "y"@;
    let x7 = x2 + x6;
    let x8 = x5 + x7;
    let x9 = x8 + ", "@;
    let x10 = "."@ + "z"@;
    let x11 = x2 + x10;
    let x12 = x9 + x11;
    let x13 = x12 + ", "@;
    let x14 = x13 + x11;
    let x15 = x1 + x14;
    let x16 = x15 + ")"@;
    let x17 = x1 + x13;
    let x18 = x17 + x11;
    regrouped(x1, x13, x11);
    let x19 = x1 + x12;
    let x20 = x19 + ", "@;
    regrouped(x1, x12, ", "@);
    let x21 = x1 + x9;
    let x22 = x21 + x11;
    regrouped(x1, x9, x11);
    let x23 = x1 + x8;
    let x24 = x23 + ", "@;
    regrouped(x1, x8, ", "@);
    let x25 = x1 + x5;
    let x26 = x25 + x7;
    regrouped(x1, x5, x7);
    let x27 = x1 + x4;
    let x28 = x27 + ", "@;
    regrouped(x1, x4, ", "@);
    let x29 = x1 + x2;
    let x30 = x29 + x3;
    regrouped(x1, x2, x3);
    let x31 = x1 + "r"@;
    let x32 = x31 + dec(i);
    regrouped(x1, "r"@, dec(i));
    let x33 = x32 + x3;
    let x34 = x32 + "."@;
    let x35 = x34 + "x"@;
    regrouped(x32, "."@, "x"@);
    let x36 = x35 + ", "@;
    let x37 = x36 + x7;
    let x38 = x36 + x2;
    let x39 = x38 + x6;
    regrouped(x36, x2, x6);
    let x40 = x36 + "r"@;
    let x41 = x40 + dec(i);
    regrouped(x36, "r"@, dec(i));
    let x42 = x41 + x6;
    let x43 = x41 + "."@;
    let x44 = x43 + "y"@;
    regrouped(x41, "."@, "y"@);
    let x45 = x44 + ", "@;
    let x46 = x45 + x11;
    let x47 = x45 + x2;
    let x48 = x47 + x10;
    regrouped(x45, x2, x10);
    let x49 = x45 + "r"@;
    let x50 = x49 + dec(i);
    regrouped(x45, "r"@, dec(i));
    let x51 = x50 + x10;
    let x52 = x50 + "."@;
    let x53 = x52 + "z"@;
    regrouped(x50, "."@, "z"@);
    let x54 = x53 + ", "@;
    let x55 = x54 + x11;
    let x56 = x54 + x2;
    let x57 = x56 + x10;
    regrouped(x54, x2, x10);
    let x58 = x54 + "r"@;
    let x59 = x58 + dec(i);
    regrouped(x54, "r"@, dec(i));
    let x60 = x59 + x10;
    let x61 = x59 + "."@;
    let x62 = x61 + "z"@;
    regrouped(x59, "."@, "z"@);
    let x63 = x62 + ")"@;
    let x64 = x3 + ", "@;
    let x65 = x32 + x64;
    let x66 = x65 + "r"@;
    let x67 = x66 + dec(i);
    let x68 = x6 + ", "@;
    let x69 = x67 + x68;
    let x70 = x69 + "r"@;
    let x71 = x70 + dec(i);
    let x72 = x10 + ", "@;
    let x73 = x71 + x72;
    let x74 = x73 + "r"@;
    let x75 = x74 + dec(i);
    let x76 = x75 + x10;
    let x77 = x76 + ")"@;
    let x78 = x33 + ", "@;
    regrouped(x32, x3, ", "@);
    let x79 = x41 + x68;
    let x80 = x42 + ", "@;
    regrouped(x41, x6, ", "@);
    let x81 = x50 + x72;
    let x82 = x51 + ", "@;
    regrouped(x50, x10, ", "@);
}

pub open spec fn projected_x(i: nat) -> Expr {
    make(
        4,
        list(
            part(var(Name::Raw(i)), Pick::Three(Component::X, Component::Y, Component::Z)),
            part(var(Name::Raw(i)), Pick::One(Component::X)),
        ),
    )
}

pub proof fn projected_x_spelled(i: nat)
    ensures
        spells_value(
            "float4("@ + "raw"@ + dec(i) + ".xyz, raw"@ + dec(i) + "."@ + "x"@ + ")"@,
            projected_x(i),
        ),
        level(projected_x(i)) == level(
                make(
                    4,
                    list(
                        part(
                            var(Name::Raw(i)),
                            Pick::Three(Component::X, Component::Y, Component::Z),
                        ),
                        part(var(Name::Raw(i)), Pick::One(Component::X)),
                    ),
                ),
            ),
{
    piece_1();
    piece_30();
    reveal_with_fuel(show, 12);
    reveal_with_fuel(proper, 12);
    assert("float4("@ + "raw"@ + dec(i) + ".xyz, raw"@ + dec(i) + "."@ + "x"@ + ")"@
        =~= show(projected_x(i)));
}

pub open spec fn projected_y(i: nat) -> Expr {
    make(
        4,
        list(
            part(var(Name::Raw(i)), Pick::Three(Component::X, Component::Y, Component::Z)),
            part(var(Name::Raw(i)), Pick::One(Component::Y)),
        ),
    )
}

pub proof fn projected_y_spelled(i: nat)
    ensures
        spells_value(
            "float4("@ + "raw"@ + dec(i) + ".xyz, raw"@ + dec(i) + "."@ + "y"@ + ")"@,
            projected_y(i),
        ),
        level(projected_y(i)) == level(
                make(
                    4,
                    list(
                        part(
                            var(Name::Raw(i)),
                            Pick::Three(Component::X, Component::Y, Component::Z),
                        ),
                        part(var(Name::Raw(i)), Pick::One(Component::Y)),
                    ),
                ),
            ),
{
    piece_1();
    piece_30();
    reveal_with_fuel(show, 12);
    reveal_with_fuel(proper, 12);
    assert("float4("@ + "raw"@ + dec(i) + ".xyz, raw"@ + dec(i) + "."@ + "y"@ + ")"@
        =~= show(projected_y(i)));
}

pub open spec fn projected_z(i: nat) -> Expr {
    make(
        4,
        list(
            part(var(Name::Raw(i)), Pick::Three(Component::X, Component::Y, Component::Z)),
            part(var(Name::Raw(i)), Pick::One(Component::Z)),
        ),
    )
}

pub proof fn projected_z_spelled(i: nat)
    ensures
        spells_value(
            "float4("@ + "raw"@ + dec(i) + ".xyz, raw"@ + dec(i) + "."@ + "z"@ + ")"@,
            projected_z(i),
        ),
        level(projected_z(i)) == level(
                make(
                    4,
                    list(
                        part(
                            var(Name::Raw(i)),
                            Pick::Three(Component::X, Component::Y, Component::Z),
                        ),
                        part(var(Name::Raw(i)), Pick::One(Component::Z)),
                    ),
                ),
            ),
{
    piece_1();
    piece_30();
    reveal_with_fuel(show, 12);
    reveal_with_fuel(proper, 12);
    assert("float4("@ + "raw"@ + dec(i) + ".xyz, raw"@ + dec(i) + "."@ + "z"@ + ")"@
        =~= show(projected_z(i)));
}

pub open spec fn projected_w(i: nat) -> Expr {
    make(
        4,
        list(
            part(var(Name::Raw(i)), Pick::Three(Component::X, Component::Y, Component::Z)),
            part(var(Name::Raw(i)), Pick::One(Component::W)),
        ),
    )
}

pub proof fn projected_w_spelled(i: nat)
    ensures
        spells_value(
            "float4("@ + "raw"@ + dec(i) + ".xyz, raw"@ + dec(i) + "."@ + "w"@ + ")"@,
            projected_w(i),
        ),
        level(projected_w(i)) == level(
                make(
                    4,
                    list(
                        part(
                            var(Name::Raw(i)),
                            Pick::Three(Component::X, Component::Y, Component::Z),
                        ),
                        part(var(Name::Raw(i)), Pick::One(Component::W)),
                    ),
                ),
            ),
{
    piece_1();
    piece_30();
    reveal_with_fuel(show, 12);
    reveal_with_fuel(proper, 12);
    assert("float4("@ + "raw"@ + dec(i) + ".xyz, raw"@ + dec(i) + "."@ + "w"@ + ")"@
        =~= show(projected_w(i)));
}

} // verus!
