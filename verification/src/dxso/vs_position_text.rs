//! How the statements that transform the position are spelled.

use super::shading::{
    call1, call2, call3, diff, list, listing, make, neg, num, paren, part, prod, proper, quot,
    same_chars, same_each, short_numbers, show, spells, sum, var, Component, Fun1, Fun2, Fun3, Name,
    Number, Pick, Stmt, Which,
};
use crate::text::dec;
use vstd::prelude::*;

verus! {

proof fn piece_1()
    ensures
        "        float w = in.blend_weight["@ == "        "@ + "float"@ + " "@ + "w"@ + " = "@ + "in.blend_weight["@,
{
    reveal_strlit("        float w = in.blend_weight[");
    reveal_strlit("        ");
    reveal_strlit("float");
    reveal_strlit(" ");
    reveal_strlit("w");
    reveal_strlit(" = ");
    reveal_strlit("in.blend_weight[");
    reveal_with_fuel(same_chars, 17);
    let a = "        float w = in.blend_weight["@;
    let b = "        "@ + "float"@ + " "@ + "w"@ + " = "@ + "in.blend_weight["@;
    assert(a.len() == b.len());
    same_each(a, b, 0, 15);
    same_each(a, b, 15, 30);
    same_each(a, b, 30, 34);
    assert(a =~= b);
}

proof fn piece_2()
    ensures
        "];\n"@ == "]"@ + ";"@ + "\n"@,
{
    reveal_strlit("];\n");
    reveal_strlit("]");
    reveal_strlit(";");
    reveal_strlit("\n");
    reveal_with_fuel(same_chars, 5);
    let a = "];\n"@;
    let b = "]"@ + ";"@ + "\n"@;
    assert(a.len() == b.len());
    same_each(a, b, 0, 3);
    assert(a =~= b);
}

proof fn piece_3()
    ensures
        "        uint idx = in.blend_indices["@ == "        "@ + "uint idx = in.blend_indices["@,
{
    reveal_strlit("        uint idx = in.blend_indices[");
    reveal_strlit("        ");
    reveal_strlit("uint idx = in.blend_indices[");
    reveal_with_fuel(same_chars, 17);
    let a = "        uint idx = in.blend_indices["@;
    let b = "        "@ + "uint idx = in.blend_indices["@;
    assert(a.len() == b.len());
    same_each(a, b, 0, 15);
    same_each(a, b, 15, 30);
    same_each(a, b, 30, 36);
    assert(a =~= b);
}

proof fn piece_4()
    ensures
        "];\n"@ == "];"@ + "\n"@,
{
    reveal_strlit("];\n");
    reveal_strlit("];");
    reveal_strlit("\n");
    reveal_with_fuel(same_chars, 5);
    let a = "];\n"@;
    let b = "];"@ + "\n"@;
    assert(a.len() == b.len());
    same_each(a, b, 0, 3);
    assert(a =~= b);
}

proof fn piece_5()
    ensures
        "        uint idx = "@ == "        "@ + "uint idx = "@,
{
    reveal_strlit("        uint idx = ");
    reveal_strlit("        ");
    reveal_strlit("uint idx = ");
    reveal_with_fuel(same_chars, 21);
    let a = "        uint idx = "@;
    let b = "        "@ + "uint idx = "@;
    assert(a.len() == b.len());
    same_each(a, b, 0, 19);
    assert(a =~= b);
}

proof fn piece_6()
    ensures
        "u;\n"@ == "u;"@ + "\n"@,
{
    reveal_strlit("u;\n");
    reveal_strlit("u;");
    reveal_strlit("\n");
    reveal_with_fuel(same_chars, 5);
    let a = "u;\n"@;
    let b = "u;"@ + "\n"@;
    assert(a.len() == b.len());
    same_each(a, b, 0, 3);
    assert(a =~= b);
}

pub proof fn block_opens()
    ensures
        "    {\n"@ == "    "@ + "{\n"@,
{
    reveal_strlit("    {\n");
    reveal_strlit("    ");
    reveal_strlit("{\n");
    reveal_with_fuel(same_chars, 8);
    let a = "    {\n"@;
    let b = "    "@ + "{\n"@;
    assert(a.len() == b.len());
    same_each(a, b, 0, 6);
    assert(a =~= b);
}

pub proof fn block_closes()
    ensures
        "    }\n"@ == "    "@ + "}\n"@,
{
    reveal_strlit("    }\n");
    reveal_strlit("    ");
    reveal_strlit("}\n");
    reveal_with_fuel(same_chars, 8);
    let a = "    }\n"@;
    let b = "    "@ + "}\n"@;
    assert(a.len() == b.len());
    same_each(a, b, 0, 6);
    assert(a =~= b);
}

pub open spec fn let_pos() -> Stmt {
    Stmt::Let(
        4,
        Name::Pos,
        make(
            4,
            list(
                part(
                    var(Name::Attribute(0)),
                    Pick::Three(Component::X, Component::Y, Component::Z),
                ),
                num(Number::One),
            ),
        ),
    )
}

pub proof fn let_pos_spelled()
    ensures
        spells("    float4 pos = float4(in.v0.xyz, 1.0);\n"@, let_pos(), 1),
{
    reveal_strlit("    float4 pos = float4(in.v0.xyz, 1.0);\n");
    reveal_strlit("    ");
    reveal_strlit("float4");
    reveal_strlit(" ");
    reveal_strlit("pos");
    reveal_strlit(" = ");
    reveal_strlit("(");
    reveal_strlit("in.v");
    reveal_strlit(".");
    reveal_strlit("x");
    reveal_strlit("y");
    reveal_strlit("z");
    reveal_strlit(", ");
    reveal_strlit("1.0");
    reveal_strlit(")");
    reveal_strlit(";");
    reveal_strlit("\n");
    short_numbers(0);
    reveal_with_fuel(show, 12);
    reveal_with_fuel(proper, 12);
    reveal_with_fuel(same_chars, 17);
    let a = "    float4 pos = float4(in.v0.xyz, 1.0);\n"@;
    let b = listing(let_pos(), 1);
    assert(a.len() == b.len());
    same_each(a, b, 0, 15);
    same_each(a, b, 15, 30);
    same_each(a, b, 30, 41);
    assert(a =~= b);
}

pub open spec fn let_view() -> Stmt {
    Stmt::Let(
        4,
        Name::PosView,
        make(
            4,
            list(
                list(
                    list(
                        call2(Fun2::Dot, var(Name::Pos), var(Name::Row(0))),
                        call2(Fun2::Dot, var(Name::Pos), var(Name::Row(1))),
                    ),
                    call2(Fun2::Dot, var(Name::Pos), var(Name::Row(2))),
                ),
                call2(Fun2::Dot, var(Name::Pos), var(Name::Row(3))),
            ),
        ),
    )
}

#[verifier::rlimit(50)]
pub proof fn let_view_spelled()
    ensures
        spells(
            "    float4 pos_view = float4(dot(pos, vs_c[0]), dot(pos, vs_c[1]), dot(pos, vs_c[2]), dot(pos, vs_c[3]));\n"@,
            let_view(),
            1,
        ),
{
    reveal_strlit("    float4 pos_view = float4(dot(pos, vs_c[0]), dot(pos, vs_c[1]), dot(pos, vs_c[2]), dot(pos, vs_c[3]));\n");
    reveal_strlit("    ");
    reveal_strlit("float4");
    reveal_strlit(" ");
    reveal_strlit("pos_view");
    reveal_strlit(" = ");
    reveal_strlit("(");
    reveal_strlit("dot(");
    reveal_strlit("pos");
    reveal_strlit(", ");
    reveal_strlit("vs_c[");
    reveal_strlit("]");
    reveal_strlit(")");
    reveal_strlit(";");
    reveal_strlit("\n");
    short_numbers(0);
    short_numbers(1);
    short_numbers(2);
    short_numbers(3);
    reveal_with_fuel(show, 12);
    reveal_with_fuel(proper, 12);
    reveal_with_fuel(same_chars, 17);
    let a = "    float4 pos_view = float4(dot(pos, vs_c[0]), dot(pos, vs_c[1]), dot(pos, vs_c[2]), dot(pos, vs_c[3]));\n"@;
    let b = listing(let_view(), 1);
    assert(a.len() == b.len());
    same_each(a, b, 0, 15);
    same_each(a, b, 15, 30);
    same_each(a, b, 30, 45);
    same_each(a, b, 45, 60);
    same_each(a, b, 60, 75);
    same_each(a, b, 75, 90);
    same_each(a, b, 90, 105);
    same_each(a, b, 105, 106);
    assert(a =~= b);
}

pub open spec fn project() -> Stmt {
    Stmt::Assign(
        Name::OutPosition,
        make(
            4,
            list(
                list(
                    list(
                        call2(Fun2::Dot, var(Name::PosView), var(Name::Row(4))),
                        call2(Fun2::Dot, var(Name::PosView), var(Name::Row(5))),
                    ),
                    call2(Fun2::Dot, var(Name::PosView), var(Name::Row(6))),
                ),
                call2(Fun2::Dot, var(Name::PosView), var(Name::Row(7))),
            ),
        ),
    )
}

#[verifier::rlimit(50)]
pub proof fn project_spelled()
    ensures
        spells(
            "    out.position = float4(dot(pos_view, vs_c[4]), dot(pos_view, vs_c[5]), dot(pos_view, vs_c[6]), dot(pos_view, vs_c[7]));\n"@,
            project(),
            1,
        ),
{
    reveal_strlit("    out.position = float4(dot(pos_view, vs_c[4]), dot(pos_view, vs_c[5]), dot(pos_view, vs_c[6]), dot(pos_view, vs_c[7]));\n");
    reveal_strlit("    ");
    reveal_strlit("out.position");
    reveal_strlit(" = ");
    reveal_strlit("float4");
    reveal_strlit("(");
    reveal_strlit("dot(");
    reveal_strlit("pos_view");
    reveal_strlit(", ");
    reveal_strlit("vs_c[");
    reveal_strlit("]");
    reveal_strlit(")");
    reveal_strlit(";");
    reveal_strlit("\n");
    short_numbers(4);
    short_numbers(5);
    short_numbers(6);
    short_numbers(7);
    reveal_with_fuel(show, 12);
    reveal_with_fuel(proper, 12);
    reveal_with_fuel(same_chars, 17);
    let a = "    out.position = float4(dot(pos_view, vs_c[4]), dot(pos_view, vs_c[5]), dot(pos_view, vs_c[6]), dot(pos_view, vs_c[7]));\n"@;
    let b = listing(project(), 1);
    assert(a.len() == b.len());
    same_each(a, b, 0, 15);
    same_each(a, b, 15, 30);
    same_each(a, b, 30, 45);
    same_each(a, b, 45, 60);
    same_each(a, b, 60, 75);
    same_each(a, b, 75, 90);
    same_each(a, b, 90, 105);
    same_each(a, b, 105, 120);
    same_each(a, b, 120, 123);
    assert(a =~= b);
}

pub open spec fn fix_x() -> Stmt {
    Stmt::GrowPart(
        Name::OutPosition,
        Component::X,
        prod(
            part(var(Name::PosFixup), Pick::One(Component::X)),
            part(var(Name::OutPosition), Pick::One(Component::W)),
        ),
    )
}

pub proof fn fix_x_spelled()
    ensures
        spells("    out.position.x += pos_fixup.x * out.position.w;\n"@, fix_x(), 1),
{
    reveal_strlit("    out.position.x += pos_fixup.x * out.position.w;\n");
    reveal_strlit("    ");
    reveal_strlit("out.position");
    reveal_strlit(".");
    reveal_strlit("x");
    reveal_strlit(" += ");
    reveal_strlit("pos_fixup");
    reveal_strlit(" * ");
    reveal_strlit("w");
    reveal_strlit(";");
    reveal_strlit("\n");
    reveal_with_fuel(show, 12);
    reveal_with_fuel(proper, 12);
    reveal_with_fuel(same_chars, 17);
    let a = "    out.position.x += pos_fixup.x * out.position.w;\n"@;
    let b = listing(fix_x(), 1);
    assert(a.len() == b.len());
    same_each(a, b, 0, 15);
    same_each(a, b, 15, 30);
    same_each(a, b, 30, 45);
    same_each(a, b, 45, 52);
    assert(a =~= b);
}

pub open spec fn fix_y() -> Stmt {
    Stmt::GrowPart(
        Name::OutPosition,
        Component::Y,
        prod(
            part(var(Name::PosFixup), Pick::One(Component::Y)),
            part(var(Name::OutPosition), Pick::One(Component::W)),
        ),
    )
}

pub proof fn fix_y_spelled()
    ensures
        spells("    out.position.y += pos_fixup.y * out.position.w;\n"@, fix_y(), 1),
{
    reveal_strlit("    out.position.y += pos_fixup.y * out.position.w;\n");
    reveal_strlit("    ");
    reveal_strlit("out.position");
    reveal_strlit(".");
    reveal_strlit("y");
    reveal_strlit(" += ");
    reveal_strlit("pos_fixup");
    reveal_strlit(" * ");
    reveal_strlit("w");
    reveal_strlit(";");
    reveal_strlit("\n");
    reveal_with_fuel(show, 12);
    reveal_with_fuel(proper, 12);
    reveal_with_fuel(same_chars, 17);
    let a = "    out.position.y += pos_fixup.y * out.position.w;\n"@;
    let b = listing(fix_y(), 1);
    assert(a.len() == b.len());
    same_each(a, b, 0, 15);
    same_each(a, b, 15, 30);
    same_each(a, b, 30, 45);
    same_each(a, b, 45, 52);
    assert(a =~= b);
}

pub open spec fn size_of_vertex() -> Stmt {
    Stmt::Let(1, Name::Psize, part(var(Name::VertexSize), Pick::One(Component::X)))
}

pub proof fn size_of_vertex_spelled()
    ensures
        spells("    float psize = in.psize.x;\n"@, size_of_vertex(), 1),
{
    reveal_strlit("    float psize = in.psize.x;\n");
    reveal_strlit("    ");
    reveal_strlit("float");
    reveal_strlit(" ");
    reveal_strlit("psize");
    reveal_strlit(" = ");
    reveal_strlit("in.psize");
    reveal_strlit(".");
    reveal_strlit("x");
    reveal_strlit(";");
    reveal_strlit("\n");
    reveal_with_fuel(show, 12);
    reveal_with_fuel(proper, 12);
    reveal_with_fuel(same_chars, 32);
    let a = "    float psize = in.psize.x;\n"@;
    let b = listing(size_of_vertex(), 1);
    assert(a.len() == b.len());
    same_each(a, b, 0, 30);
    assert(a =~= b);
}

pub open spec fn size_of_draw() -> Stmt {
    Stmt::Let(1, Name::Psize, part(var(Name::DrawPoint), Pick::One(Component::X)))
}

pub proof fn size_of_draw_spelled()
    ensures
        spells("    float psize = vs_draw.point.x;\n"@, size_of_draw(), 1),
{
    reveal_strlit("    float psize = vs_draw.point.x;\n");
    reveal_strlit("    ");
    reveal_strlit("float");
    reveal_strlit(" ");
    reveal_strlit("psize");
    reveal_strlit(" = ");
    reveal_strlit("vs_draw.point");
    reveal_strlit(".");
    reveal_strlit("x");
    reveal_strlit(";");
    reveal_strlit("\n");
    reveal_with_fuel(show, 12);
    reveal_with_fuel(proper, 12);
    reveal_with_fuel(same_chars, 17);
    let a = "    float psize = vs_draw.point.x;\n"@;
    let b = listing(size_of_draw(), 1);
    assert(a.len() == b.len());
    same_each(a, b, 0, 15);
    same_each(a, b, 15, 30);
    same_each(a, b, 30, 35);
    assert(a =~= b);
}

pub open spec fn let_distance() -> Stmt {
    Stmt::Let(
        1,
        Name::De,
        call1(
            Fun1::Length,
            part(var(Name::PosView), Pick::Three(Component::X, Component::Y, Component::Z)),
        ),
    )
}

pub proof fn let_distance_spelled()
    ensures
        spells("    float de = length(pos_view.xyz);\n"@, let_distance(), 1),
{
    reveal_strlit("    float de = length(pos_view.xyz);\n");
    reveal_strlit("    ");
    reveal_strlit("float");
    reveal_strlit(" ");
    reveal_strlit("de");
    reveal_strlit(" = ");
    reveal_strlit("length(");
    reveal_strlit("pos_view");
    reveal_strlit(".");
    reveal_strlit("x");
    reveal_strlit("y");
    reveal_strlit("z");
    reveal_strlit(")");
    reveal_strlit(";");
    reveal_strlit("\n");
    reveal_with_fuel(show, 12);
    reveal_with_fuel(proper, 12);
    reveal_with_fuel(same_chars, 17);
    let a = "    float de = length(pos_view.xyz);\n"@;
    let b = listing(let_distance(), 1);
    assert(a.len() == b.len());
    same_each(a, b, 0, 15);
    same_each(a, b, 15, 30);
    same_each(a, b, 30, 37);
    assert(a =~= b);
}

pub open spec fn scale_size() -> Stmt {
    Stmt::Scale(
        Name::Psize,
        quot(
            paren(
                quot(
                    paren(
                        quot(
                            neg(num(Number::One)),
                            part(var(Name::PosFixup), Pick::One(Component::Y)),
                        ),
                    ),
                    part(var(Name::PosFixup), Pick::One(Component::W)),
                ),
            ),
            call1(
                Fun1::Sqrt,
                call2(
                    Fun2::Max,
                    sum(
                        sum(
                            part(var(Name::DrawPointScale), Pick::One(Component::X)),
                            prod(
                                part(var(Name::DrawPointScale), Pick::One(Component::Y)),
                                var(Name::De),
                            ),
                        ),
                        prod(
                            prod(
                                part(var(Name::DrawPointScale), Pick::One(Component::Z)),
                                var(Name::De),
                            ),
                            var(Name::De),
                        ),
                    ),
                    num(Number::Zero),
                ),
            ),
        ),
    )
}

#[verifier::rlimit(50)]
pub proof fn scale_size_spelled()
    ensures
        spells(
            "    psize *= ((-1.0 / pos_fixup.y) / pos_fixup.w) / sqrt(max(vs_draw.point_scale.x + vs_draw.point_scale.y * de + vs_draw.point_scale.z * de * de, 0.0));\n"@,
            scale_size(),
            1,
        ),
{
    reveal_strlit("    psize *= ((-1.0 / pos_fixup.y) / pos_fixup.w) / sqrt(max(vs_draw.point_scale.x + vs_draw.point_scale.y * de + vs_draw.point_scale.z * de * de, 0.0));\n");
    reveal_strlit("    ");
    reveal_strlit("psize");
    reveal_strlit(" *= ");
    reveal_strlit("(");
    reveal_strlit("-");
    reveal_strlit("1.0");
    reveal_strlit(" / ");
    reveal_strlit("pos_fixup");
    reveal_strlit(".");
    reveal_strlit("y");
    reveal_strlit(")");
    reveal_strlit("w");
    reveal_strlit("sqrt(");
    reveal_strlit("max(");
    reveal_strlit("vs_draw.point_scale");
    reveal_strlit("x");
    reveal_strlit(" + ");
    reveal_strlit(" * ");
    reveal_strlit("de");
    reveal_strlit("z");
    reveal_strlit(", ");
    reveal_strlit("0.0");
    reveal_strlit(";");
    reveal_strlit("\n");
    reveal_with_fuel(show, 12);
    reveal_with_fuel(proper, 12);
    reveal_with_fuel(same_chars, 17);
    let a = "    psize *= ((-1.0 / pos_fixup.y) / pos_fixup.w) / sqrt(max(vs_draw.point_scale.x + vs_draw.point_scale.y * de + vs_draw.point_scale.z * de * de, 0.0));\n"@;
    let b = listing(scale_size(), 1);
    assert(a.len() == b.len());
    same_each(a, b, 0, 15);
    same_each(a, b, 15, 30);
    same_each(a, b, 30, 45);
    same_each(a, b, 45, 60);
    same_each(a, b, 60, 75);
    same_each(a, b, 75, 90);
    same_each(a, b, 90, 105);
    same_each(a, b, 105, 120);
    same_each(a, b, 120, 135);
    same_each(a, b, 135, 150);
    same_each(a, b, 150, 154);
    assert(a =~= b);
}

pub open spec fn set_size() -> Stmt {
    Stmt::Assign(
        Name::OutPointSize,
        prod(
            call3(
                Fun3::Clamp,
                var(Name::Psize),
                part(var(Name::DrawPoint), Pick::One(Component::Y)),
                part(var(Name::DrawPoint), Pick::One(Component::Z)),
            ),
            part(var(Name::PosFixup), Pick::One(Component::W)),
        ),
    )
}

#[verifier::rlimit(50)]
pub proof fn set_size_spelled()
    ensures
        spells(
            "    out.point_size = clamp(psize, vs_draw.point.y, vs_draw.point.z) * pos_fixup.w;\n"@,
            set_size(),
            1,
        ),
{
    reveal_strlit("    out.point_size = clamp(psize, vs_draw.point.y, vs_draw.point.z) * pos_fixup.w;\n");
    reveal_strlit("    ");
    reveal_strlit("out.point_size");
    reveal_strlit(" = ");
    reveal_strlit("clamp(");
    reveal_strlit("psize");
    reveal_strlit(", ");
    reveal_strlit("vs_draw.point");
    reveal_strlit(".");
    reveal_strlit("y");
    reveal_strlit("z");
    reveal_strlit(")");
    reveal_strlit(" * ");
    reveal_strlit("pos_fixup");
    reveal_strlit("w");
    reveal_strlit(";");
    reveal_strlit("\n");
    reveal_with_fuel(show, 12);
    reveal_with_fuel(proper, 12);
    reveal_with_fuel(same_chars, 17);
    let a = "    out.point_size = clamp(psize, vs_draw.point.y, vs_draw.point.z) * pos_fixup.w;\n"@;
    let b = listing(set_size(), 1);
    assert(a.len() == b.len());
    same_each(a, b, 0, 15);
    same_each(a, b, 15, 30);
    same_each(a, b, 30, 45);
    same_each(a, b, 45, 60);
    same_each(a, b, 60, 75);
    same_each(a, b, 75, 83);
    assert(a =~= b);
}

pub open spec fn zero_view() -> Stmt {
    Stmt::Let(4, Name::PosView, make(4, num(Number::Zero)))
}

pub proof fn zero_view_spelled()
    ensures
        spells("    float4 pos_view = float4(0.0);\n"@, zero_view(), 1),
{
    reveal_strlit("    float4 pos_view = float4(0.0);\n");
    reveal_strlit("    ");
    reveal_strlit("float4");
    reveal_strlit(" ");
    reveal_strlit("pos_view");
    reveal_strlit(" = ");
    reveal_strlit("(");
    reveal_strlit("0.0");
    reveal_strlit(")");
    reveal_strlit(";");
    reveal_strlit("\n");
    reveal_with_fuel(show, 12);
    reveal_with_fuel(proper, 12);
    reveal_with_fuel(same_chars, 17);
    let a = "    float4 pos_view = float4(0.0);\n"@;
    let b = listing(zero_view(), 1);
    assert(a.len() == b.len());
    same_each(a, b, 0, 15);
    same_each(a, b, 15, 30);
    same_each(a, b, 30, 35);
    assert(a =~= b);
}

pub open spec fn zero_normal() -> Stmt {
    Stmt::Let(3, Name::NBlend, make(3, num(Number::Zero)))
}

pub proof fn zero_normal_spelled()
    ensures
        spells("    float3 n_blend = float3(0.0);\n"@, zero_normal(), 1),
{
    reveal_strlit("    float3 n_blend = float3(0.0);\n");
    reveal_strlit("    ");
    reveal_strlit("float3");
    reveal_strlit(" ");
    reveal_strlit("n_blend");
    reveal_strlit(" = ");
    reveal_strlit("(");
    reveal_strlit("0.0");
    reveal_strlit(")");
    reveal_strlit(";");
    reveal_strlit("\n");
    reveal_with_fuel(show, 12);
    reveal_with_fuel(proper, 12);
    reveal_with_fuel(same_chars, 17);
    let a = "    float3 n_blend = float3(0.0);\n"@;
    let b = listing(zero_normal(), 1);
    assert(a.len() == b.len());
    same_each(a, b, 0, 15);
    same_each(a, b, 15, 30);
    same_each(a, b, 30, 34);
    assert(a =~= b);
}

pub open spec fn zero_weights() -> Stmt {
    Stmt::Let(1, Name::WeightSum, num(Number::Zero))
}

pub proof fn zero_weights_spelled()
    ensures
        spells("    float weight_sum = 0.0;\n"@, zero_weights(), 1),
{
    reveal_strlit("    float weight_sum = 0.0;\n");
    reveal_strlit("    ");
    reveal_strlit("float");
    reveal_strlit(" ");
    reveal_strlit("weight_sum");
    reveal_strlit(" = ");
    reveal_strlit("0.0");
    reveal_strlit(";");
    reveal_strlit("\n");
    reveal_with_fuel(show, 12);
    reveal_with_fuel(proper, 12);
    reveal_with_fuel(same_chars, 30);
    let a = "    float weight_sum = 0.0;\n"@;
    let b = listing(zero_weights(), 1);
    assert(a.len() == b.len());
    same_each(a, b, 0, 28);
    assert(a =~= b);
}

pub open spec fn first_index() -> Stmt {
    Stmt::Index(Which::Named(0))
}

pub proof fn first_index_spelled()
    ensures
        spells("        uint idx = in.blend_indices[0];\n"@, first_index(), 2),
{
    reveal_strlit("        uint idx = in.blend_indices[0];\n");
    reveal_strlit("        ");
    reveal_strlit("uint idx = in.blend_indices[");
    reveal_strlit("];");
    reveal_strlit("\n");
    short_numbers(0);
    reveal_with_fuel(show, 12);
    reveal_with_fuel(proper, 12);
    reveal_with_fuel(same_chars, 17);
    let a = "        uint idx = in.blend_indices[0];\n"@;
    let b = listing(first_index(), 2);
    assert(a.len() == b.len());
    same_each(a, b, 0, 15);
    same_each(a, b, 15, 30);
    same_each(a, b, 30, 40);
    assert(a =~= b);
}

pub open spec fn find_rows() -> Stmt {
    Stmt::Rows(95)
}

pub proof fn find_rows_spelled()
    ensures
        spells("        constant float4 *m = vs_c + 95 + idx * 4u;\n"@, find_rows(), 2),
{
    reveal_strlit("        constant float4 *m = vs_c + 95 + idx * 4u;\n");
    reveal_strlit("        ");
    reveal_strlit("constant float4 *m = vs_c + ");
    reveal_strlit(" + idx * 4u;");
    reveal_strlit("\n");
    short_numbers(95);
    reveal_with_fuel(show, 12);
    reveal_with_fuel(proper, 12);
    reveal_with_fuel(same_chars, 17);
    let a = "        constant float4 *m = vs_c + 95 + idx * 4u;\n"@;
    let b = listing(find_rows(), 2);
    assert(a.len() == b.len());
    same_each(a, b, 0, 15);
    same_each(a, b, 15, 30);
    same_each(a, b, 30, 45);
    same_each(a, b, 45, 51);
    assert(a =~= b);
}

pub open spec fn set_view() -> Stmt {
    Stmt::Assign(
        Name::PosView,
        make(
            4,
            list(
                list(
                    list(
                        call2(Fun2::Dot, var(Name::Pos), var(Name::MatrixRow(0))),
                        call2(Fun2::Dot, var(Name::Pos), var(Name::MatrixRow(1))),
                    ),
                    call2(Fun2::Dot, var(Name::Pos), var(Name::MatrixRow(2))),
                ),
                call2(Fun2::Dot, var(Name::Pos), var(Name::MatrixRow(3))),
            ),
        ),
    )
}

#[verifier::rlimit(50)]
pub proof fn set_view_spelled()
    ensures
        spells(
            "        pos_view = float4(dot(pos, m[0]), dot(pos, m[1]), dot(pos, m[2]), dot(pos, m[3]));\n"@,
            set_view(),
            2,
        ),
{
    reveal_strlit("        pos_view = float4(dot(pos, m[0]), dot(pos, m[1]), dot(pos, m[2]), dot(pos, m[3]));\n");
    reveal_strlit("        ");
    reveal_strlit("pos_view");
    reveal_strlit(" = ");
    reveal_strlit("float4");
    reveal_strlit("(");
    reveal_strlit("dot(");
    reveal_strlit("pos");
    reveal_strlit(", ");
    reveal_strlit("m[");
    reveal_strlit("]");
    reveal_strlit(")");
    reveal_strlit(";");
    reveal_strlit("\n");
    short_numbers(0);
    short_numbers(1);
    short_numbers(2);
    short_numbers(3);
    reveal_with_fuel(show, 12);
    reveal_with_fuel(proper, 12);
    reveal_with_fuel(same_chars, 17);
    let a = "        pos_view = float4(dot(pos, m[0]), dot(pos, m[1]), dot(pos, m[2]), dot(pos, m[3]));\n"@;
    let b = listing(set_view(), 2);
    assert(a.len() == b.len());
    same_each(a, b, 0, 15);
    same_each(a, b, 15, 30);
    same_each(a, b, 30, 45);
    same_each(a, b, 45, 60);
    same_each(a, b, 60, 75);
    same_each(a, b, 75, 90);
    same_each(a, b, 90, 91);
    assert(a =~= b);
}

pub open spec fn set_normal() -> Stmt {
    Stmt::Assign(
        Name::NBlend,
        make(
            3,
            list(
                list(
                    call2(
                        Fun2::Dot,
                        part(
                            var(Name::Attribute(1)),
                            Pick::Three(Component::X, Component::Y, Component::Z),
                        ),
                        part(
                            var(Name::MatrixRow(0)),
                            Pick::Three(Component::X, Component::Y, Component::Z),
                        ),
                    ),
                    call2(
                        Fun2::Dot,
                        part(
                            var(Name::Attribute(1)),
                            Pick::Three(Component::X, Component::Y, Component::Z),
                        ),
                        part(
                            var(Name::MatrixRow(1)),
                            Pick::Three(Component::X, Component::Y, Component::Z),
                        ),
                    ),
                ),
                call2(
                    Fun2::Dot,
                    part(
                        var(Name::Attribute(1)),
                        Pick::Three(Component::X, Component::Y, Component::Z),
                    ),
                    part(
                        var(Name::MatrixRow(2)),
                        Pick::Three(Component::X, Component::Y, Component::Z),
                    ),
                ),
            ),
        ),
    )
}

#[verifier::rlimit(50)]
pub proof fn set_normal_spelled()
    ensures
        spells(
            "        n_blend = float3(dot(in.v1.xyz, m[0].xyz), dot(in.v1.xyz, m[1].xyz), dot(in.v1.xyz, m[2].xyz));\n"@,
            set_normal(),
            2,
        ),
{
    reveal_strlit("        n_blend = float3(dot(in.v1.xyz, m[0].xyz), dot(in.v1.xyz, m[1].xyz), dot(in.v1.xyz, m[2].xyz));\n");
    reveal_strlit("        ");
    reveal_strlit("n_blend");
    reveal_strlit(" = ");
    reveal_strlit("float3");
    reveal_strlit("(");
    reveal_strlit("dot(");
    reveal_strlit("in.v");
    reveal_strlit(".");
    reveal_strlit("x");
    reveal_strlit("y");
    reveal_strlit("z");
    reveal_strlit(", ");
    reveal_strlit("m[");
    reveal_strlit("]");
    reveal_strlit(")");
    reveal_strlit(";");
    reveal_strlit("\n");
    short_numbers(0);
    short_numbers(1);
    short_numbers(2);
    reveal_with_fuel(show, 12);
    reveal_with_fuel(proper, 12);
    reveal_with_fuel(same_chars, 17);
    let a = "        n_blend = float3(dot(in.v1.xyz, m[0].xyz), dot(in.v1.xyz, m[1].xyz), dot(in.v1.xyz, m[2].xyz));\n"@;
    let b = listing(set_normal(), 2);
    assert(a.len() == b.len());
    same_each(a, b, 0, 15);
    same_each(a, b, 15, 30);
    same_each(a, b, 30, 45);
    same_each(a, b, 45, 60);
    same_each(a, b, 60, 75);
    same_each(a, b, 75, 90);
    same_each(a, b, 90, 104);
    assert(a =~= b);
}

pub open spec fn grow_view() -> Stmt {
    Stmt::Grow(
        Name::PosView,
        prod(
            var(Name::Weight),
            make(
                4,
                list(
                    list(
                        list(
                            call2(Fun2::Dot, var(Name::Pos), var(Name::MatrixRow(0))),
                            call2(Fun2::Dot, var(Name::Pos), var(Name::MatrixRow(1))),
                        ),
                        call2(Fun2::Dot, var(Name::Pos), var(Name::MatrixRow(2))),
                    ),
                    call2(Fun2::Dot, var(Name::Pos), var(Name::MatrixRow(3))),
                ),
            ),
        ),
    )
}

#[verifier::rlimit(50)]
pub proof fn grow_view_spelled()
    ensures
        spells(
            "        pos_view += w * float4(dot(pos, m[0]), dot(pos, m[1]), dot(pos, m[2]), dot(pos, m[3]));\n"@,
            grow_view(),
            2,
        ),
{
    reveal_strlit("        pos_view += w * float4(dot(pos, m[0]), dot(pos, m[1]), dot(pos, m[2]), dot(pos, m[3]));\n");
    reveal_strlit("        ");
    reveal_strlit("pos_view");
    reveal_strlit(" += ");
    reveal_strlit("w");
    reveal_strlit(" * ");
    reveal_strlit("float4");
    reveal_strlit("(");
    reveal_strlit("dot(");
    reveal_strlit("pos");
    reveal_strlit(", ");
    reveal_strlit("m[");
    reveal_strlit("]");
    reveal_strlit(")");
    reveal_strlit(";");
    reveal_strlit("\n");
    short_numbers(0);
    short_numbers(1);
    short_numbers(2);
    short_numbers(3);
    reveal_with_fuel(show, 12);
    reveal_with_fuel(proper, 12);
    reveal_with_fuel(same_chars, 17);
    let a = "        pos_view += w * float4(dot(pos, m[0]), dot(pos, m[1]), dot(pos, m[2]), dot(pos, m[3]));\n"@;
    let b = listing(grow_view(), 2);
    assert(a.len() == b.len());
    same_each(a, b, 0, 15);
    same_each(a, b, 15, 30);
    same_each(a, b, 30, 45);
    same_each(a, b, 45, 60);
    same_each(a, b, 60, 75);
    same_each(a, b, 75, 90);
    same_each(a, b, 90, 96);
    assert(a =~= b);
}

pub open spec fn grow_normal() -> Stmt {
    Stmt::Grow(
        Name::NBlend,
        prod(
            var(Name::Weight),
            make(
                3,
                list(
                    list(
                        call2(
                            Fun2::Dot,
                            part(
                                var(Name::Attribute(1)),
                                Pick::Three(Component::X, Component::Y, Component::Z),
                            ),
                            part(
                                var(Name::MatrixRow(0)),
                                Pick::Three(Component::X, Component::Y, Component::Z),
                            ),
                        ),
                        call2(
                            Fun2::Dot,
                            part(
                                var(Name::Attribute(1)),
                                Pick::Three(Component::X, Component::Y, Component::Z),
                            ),
                            part(
                                var(Name::MatrixRow(1)),
                                Pick::Three(Component::X, Component::Y, Component::Z),
                            ),
                        ),
                    ),
                    call2(
                        Fun2::Dot,
                        part(
                            var(Name::Attribute(1)),
                            Pick::Three(Component::X, Component::Y, Component::Z),
                        ),
                        part(
                            var(Name::MatrixRow(2)),
                            Pick::Three(Component::X, Component::Y, Component::Z),
                        ),
                    ),
                ),
            ),
        ),
    )
}

#[verifier::rlimit(50)]
pub proof fn grow_normal_spelled()
    ensures
        spells(
            "        n_blend += w * float3(dot(in.v1.xyz, m[0].xyz), dot(in.v1.xyz, m[1].xyz), dot(in.v1.xyz, m[2].xyz));\n"@,
            grow_normal(),
            2,
        ),
{
    reveal_strlit("        n_blend += w * float3(dot(in.v1.xyz, m[0].xyz), dot(in.v1.xyz, m[1].xyz), dot(in.v1.xyz, m[2].xyz));\n");
    reveal_strlit("        ");
    reveal_strlit("n_blend");
    reveal_strlit(" += ");
    reveal_strlit("w");
    reveal_strlit(" * ");
    reveal_strlit("float3");
    reveal_strlit("(");
    reveal_strlit("dot(");
    reveal_strlit("in.v");
    reveal_strlit(".");
    reveal_strlit("x");
    reveal_strlit("y");
    reveal_strlit("z");
    reveal_strlit(", ");
    reveal_strlit("m[");
    reveal_strlit("]");
    reveal_strlit(")");
    reveal_strlit(";");
    reveal_strlit("\n");
    short_numbers(0);
    short_numbers(1);
    short_numbers(2);
    reveal_with_fuel(show, 12);
    reveal_with_fuel(proper, 12);
    reveal_with_fuel(same_chars, 17);
    let a = "        n_blend += w * float3(dot(in.v1.xyz, m[0].xyz), dot(in.v1.xyz, m[1].xyz), dot(in.v1.xyz, m[2].xyz));\n"@;
    let b = listing(grow_normal(), 2);
    assert(a.len() == b.len());
    same_each(a, b, 0, 15);
    same_each(a, b, 15, 30);
    same_each(a, b, 30, 45);
    same_each(a, b, 45, 60);
    same_each(a, b, 60, 75);
    same_each(a, b, 75, 90);
    same_each(a, b, 90, 105);
    same_each(a, b, 105, 109);
    assert(a =~= b);
}

pub open spec fn grow_weights() -> Stmt {
    Stmt::Grow(Name::WeightSum, var(Name::Weight))
}

pub proof fn grow_weights_spelled()
    ensures
        spells("        weight_sum += w;\n"@, grow_weights(), 2),
{
    reveal_strlit("        weight_sum += w;\n");
    reveal_strlit("        ");
    reveal_strlit("weight_sum");
    reveal_strlit(" += ");
    reveal_strlit("w");
    reveal_strlit(";");
    reveal_strlit("\n");
    reveal_with_fuel(show, 12);
    reveal_with_fuel(proper, 12);
    reveal_with_fuel(same_chars, 27);
    let a = "        weight_sum += w;\n"@;
    let b = listing(grow_weights(), 2);
    assert(a.len() == b.len());
    same_each(a, b, 0, 25);
    assert(a =~= b);
}

pub open spec fn last_weight() -> Stmt {
    Stmt::Let(1, Name::Weight, diff(num(Number::One), var(Name::WeightSum)))
}

pub proof fn last_weight_spelled()
    ensures
        spells("        float w = 1.0 - weight_sum;\n"@, last_weight(), 2),
{
    reveal_strlit("        float w = 1.0 - weight_sum;\n");
    reveal_strlit("        ");
    reveal_strlit("float");
    reveal_strlit(" ");
    reveal_strlit("w");
    reveal_strlit(" = ");
    reveal_strlit("1.0");
    reveal_strlit(" - ");
    reveal_strlit("weight_sum");
    reveal_strlit(";");
    reveal_strlit("\n");
    reveal_with_fuel(show, 12);
    reveal_with_fuel(proper, 12);
    reveal_with_fuel(same_chars, 17);
    let a = "        float w = 1.0 - weight_sum;\n"@;
    let b = listing(last_weight(), 2);
    assert(a.len() == b.len());
    same_each(a, b, 0, 15);
    same_each(a, b, 15, 30);
    same_each(a, b, 30, 36);
    assert(a =~= b);
}

pub open spec fn let_weight(i: nat) -> Stmt {
    Stmt::Let(1, Name::Weight, var(Name::BlendWeight(i)))
}

pub proof fn let_weight_spelled(i: nat)
    ensures
        spells(
            Seq::<char>::empty() + "        float w = in.blend_weight["@ + dec(i) + "];\n"@,
            let_weight(i),
            2,
        ),
{
    piece_1();
    piece_2();
    reveal_with_fuel(show, 12);
    reveal_with_fuel(proper, 12);
    assert(Seq::<char>::empty() + "        float w = in.blend_weight["@ + dec(i) + "];\n"@
        =~= listing(let_weight(i), 2));
}

pub open spec fn named_index(i: nat) -> Stmt {
    Stmt::Index(Which::Named(i))
}

pub proof fn named_index_spelled(i: nat)
    ensures
        spells(
            Seq::<char>::empty() + "        uint idx = in.blend_indices["@ + dec(i) + "];\n"@,
            named_index(i),
            2,
        ),
{
    piece_3();
    piece_4();
    reveal_with_fuel(show, 12);
    reveal_with_fuel(proper, 12);
    assert(Seq::<char>::empty() + "        uint idx = in.blend_indices["@ + dec(i) + "];\n"@
        =~= listing(named_index(i), 2));
}

pub open spec fn given_index(i: nat) -> Stmt {
    Stmt::Index(Which::Given(i))
}

pub proof fn given_index_spelled(i: nat)
    ensures
        spells(Seq::<char>::empty() + "        uint idx = "@ + dec(i) + "u;\n"@, given_index(i), 2),
{
    piece_5();
    piece_6();
    reveal_with_fuel(show, 12);
    reveal_with_fuel(proper, 12);
    assert(Seq::<char>::empty() + "        uint idx = "@ + dec(i) + "u;\n"@
        =~= listing(given_index(i), 2));
}

} // verus!
