//! How the statements that read textures and test alpha are spelled.

use super::shading::{
    bin, call1, cond, level, list, listing, make, num, paren, part, proper, quot, regrouped,
    same_chars, same_each, short_numbers, show, spells, spells_value, sum, var, Component, Expr,
    Fun1, Lookup, Name, Number, Op, Pick, Stmt,
};
use crate::text::dec;
use vstd::prelude::*;

verus! {

proof fn piece_1()
    ensures
        "xy"@ == "x"@ + "y"@,
{
    reveal_strlit("xy");
    reveal_strlit("x");
    reveal_strlit("y");
    reveal_with_fuel(same_chars, 4);
    let a = "xy"@;
    let b = "x"@ + "y"@;
    assert(a.len() == b.len());
    same_each(a, b, 0, 2);
    assert(a =~= b);
}

proof fn piece_2()
    ensures
        "(in.texcoord"@ == "("@ + "in.texcoord"@,
{
    reveal_strlit("(in.texcoord");
    reveal_strlit("(");
    reveal_strlit("in.texcoord");
    reveal_with_fuel(same_chars, 14);
    let a = "(in.texcoord"@;
    let b = "("@ + "in.texcoord"@;
    assert(a.len() == b.len());
    same_each(a, b, 0, 12);
    assert(a =~= b);
}

proof fn piece_3()
    ensures
        ".w != 0.0 ? "@ == "."@ + "w"@ + " != "@ + "0.0"@ + " ? "@,
{
    reveal_strlit(".w != 0.0 ? ");
    reveal_strlit(".");
    reveal_strlit("w");
    reveal_strlit(" != ");
    reveal_strlit("0.0");
    reveal_strlit(" ? ");
    reveal_with_fuel(same_chars, 14);
    let a = ".w != 0.0 ? "@;
    let b = "."@ + "w"@ + " != "@ + "0.0"@ + " ? "@;
    assert(a.len() == b.len());
    same_each(a, b, 0, 12);
    assert(a =~= b);
}

proof fn piece_4()
    ensures
        " / in.texcoord"@ == " / "@ + "in.texcoord"@,
{
    reveal_strlit(" / in.texcoord");
    reveal_strlit(" / ");
    reveal_strlit("in.texcoord");
    reveal_with_fuel(same_chars, 16);
    let a = " / in.texcoord"@;
    let b = " / "@ + "in.texcoord"@;
    assert(a.len() == b.len());
    same_each(a, b, 0, 14);
    assert(a =~= b);
}

proof fn piece_5()
    ensures
        ".w : "@ == "."@ + "w"@ + " : "@,
{
    reveal_strlit(".w : ");
    reveal_strlit(".");
    reveal_strlit("w");
    reveal_strlit(" : ");
    reveal_with_fuel(same_chars, 7);
    let a = ".w : "@;
    let b = "."@ + "w"@ + " : "@;
    assert(a.len() == b.len());
    same_each(a, b, 0, 5);
    assert(a =~= b);
}

proof fn piece_6()
    ensures
        "float2(0.0)"@ == "float2"@ + "("@ + "0.0"@ + ")"@,
{
    reveal_strlit("float2(0.0)");
    reveal_strlit("float2");
    reveal_strlit("(");
    reveal_strlit("0.0");
    reveal_strlit(")");
    reveal_with_fuel(same_chars, 13);
    let a = "float2(0.0)"@;
    let b = "float2"@ + "("@ + "0.0"@ + ")"@;
    assert(a.len() == b.len());
    same_each(a, b, 0, 11);
    assert(a =~= b);
}

proof fn piece_7()
    ensures
        "xyz"@ == "x"@ + "y"@ + "z"@,
{
    reveal_strlit("xyz");
    reveal_strlit("x");
    reveal_strlit("y");
    reveal_strlit("z");
    reveal_with_fuel(same_chars, 5);
    let a = "xyz"@;
    let b = "x"@ + "y"@ + "z"@;
    assert(a.len() == b.len());
    same_each(a, b, 0, 3);
    assert(a =~= b);
}

proof fn piece_8()
    ensures
        "float3(0.0)"@ == "float3"@ + "("@ + "0.0"@ + ")"@,
{
    reveal_strlit("float3(0.0)");
    reveal_strlit("float3");
    reveal_strlit("(");
    reveal_strlit("0.0");
    reveal_strlit(")");
    reveal_with_fuel(same_chars, 13);
    let a = "float3(0.0)"@;
    let b = "float3"@ + "("@ + "0.0"@ + ")"@;
    assert(a.len() == b.len());
    same_each(a, b, 0, 11);
    assert(a =~= b);
}

proof fn piece_9()
    ensures
        "    float4 t"@ == "    "@ + "float4"@ + " "@ + "t"@,
{
    reveal_strlit("    float4 t");
    reveal_strlit("    ");
    reveal_strlit("float4");
    reveal_strlit(" ");
    reveal_strlit("t");
    reveal_with_fuel(same_chars, 14);
    let a = "    float4 t"@;
    let b = "    "@ + "float4"@ + " "@ + "t"@;
    assert(a.len() == b.len());
    same_each(a, b, 0, 12);
    assert(a =~= b);
}

proof fn piece_10()
    ensures
        " = s"@ == " = "@ + "s"@,
{
    reveal_strlit(" = s");
    reveal_strlit(" = ");
    reveal_strlit("s");
    reveal_with_fuel(same_chars, 6);
    let a = " = s"@;
    let b = " = "@ + "s"@;
    assert(a.len() == b.len());
    same_each(a, b, 0, 4);
    assert(a =~= b);
}

proof fn piece_11()
    ensures
        ");\n"@ == ")"@ + ";"@ + "\n"@,
{
    reveal_strlit(");\n");
    reveal_strlit(")");
    reveal_strlit(";");
    reveal_strlit("\n");
    reveal_with_fuel(same_chars, 5);
    let a = ");\n"@;
    let b = ")"@ + ";"@ + "\n"@;
    assert(a.len() == b.len());
    same_each(a, b, 0, 3);
    assert(a =~= b);
}

proof fn piece_12()
    ensures
        ", bias(lod_bias["@ == ", bias("@ + "lod_bias["@,
{
    reveal_strlit(", bias(lod_bias[");
    reveal_strlit(", bias(");
    reveal_strlit("lod_bias[");
    reveal_with_fuel(same_chars, 18);
    let a = ", bias(lod_bias["@;
    let b = ", bias("@ + "lod_bias["@;
    assert(a.len() == b.len());
    same_each(a, b, 0, 16);
    assert(a =~= b);
}

proof fn piece_13()
    ensures
        "].x)"@ == "]"@ + ".x)"@,
{
    reveal_strlit("].x)");
    reveal_strlit("]");
    reveal_strlit(".x)");
    reveal_with_fuel(same_chars, 6);
    let a = "].x)"@;
    let b = "]"@ + ".x)"@;
    assert(a.len() == b.len());
    same_each(a, b, 0, 4);
    assert(a =~= b);
}

proof fn piece_14()
    ensures
        " = float4(s"@ == " = "@ + "float4"@ + "("@ + "s"@,
{
    reveal_strlit(" = float4(s");
    reveal_strlit(" = ");
    reveal_strlit("float4");
    reveal_strlit("(");
    reveal_strlit("s");
    reveal_with_fuel(same_chars, 13);
    let a = " = float4(s"@;
    let b = " = "@ + "float4"@ + "("@ + "s"@;
    assert(a.len() == b.len());
    same_each(a, b, 0, 11);
    assert(a =~= b);
}

proof fn piece_15()
    ensures
        ", level(0)));\n"@ == ", level(0))"@ + ")"@ + ";"@ + "\n"@,
{
    reveal_strlit(", level(0)));\n");
    reveal_strlit(", level(0))");
    reveal_strlit(")");
    reveal_strlit(";");
    reveal_strlit("\n");
    reveal_with_fuel(same_chars, 16);
    let a = ", level(0)));\n"@;
    let b = ", level(0))"@ + ")"@ + ";"@ + "\n"@;
    assert(a.len() == b.len());
    same_each(a, b, 0, 14);
    assert(a =~= b);
}

proof fn piece_16()
    ensures
        ", in.texcoord"@ == ", "@ + "in.texcoord"@,
{
    reveal_strlit(", in.texcoord");
    reveal_strlit(", ");
    reveal_strlit("in.texcoord");
    reveal_with_fuel(same_chars, 15);
    let a = ", in.texcoord"@;
    let b = ", "@ + "in.texcoord"@;
    assert(a.len() == b.len());
    same_each(a, b, 0, 13);
    assert(a =~= b);
}

proof fn piece_17()
    ensures
        ".xy, saturate(in.texcoord"@ == "."@ + "x"@ + "y"@ + ", "@ + "saturate("@ + "in.texcoord"@,
{
    reveal_strlit(".xy, saturate(in.texcoord");
    reveal_strlit(".");
    reveal_strlit("x");
    reveal_strlit("y");
    reveal_strlit(", ");
    reveal_strlit("saturate(");
    reveal_strlit("in.texcoord");
    reveal_with_fuel(same_chars, 27);
    let a = ".xy, saturate(in.texcoord"@;
    let b = "."@ + "x"@ + "y"@ + ", "@ + "saturate("@ + "in.texcoord"@;
    assert(a.len() == b.len());
    same_each(a, b, 0, 25);
    assert(a =~= b);
}

proof fn piece_18()
    ensures
        ".z), level(0)));\n"@ == "."@ + "z"@ + ")"@ + ", level(0))"@ + ")"@ + ";"@ + "\n"@,
{
    reveal_strlit(".z), level(0)));\n");
    reveal_strlit(".");
    reveal_strlit("z");
    reveal_strlit(")");
    reveal_strlit(", level(0))");
    reveal_strlit(";");
    reveal_strlit("\n");
    reveal_with_fuel(same_chars, 19);
    let a = ".z), level(0)));\n"@;
    let b = "."@ + "z"@ + ")"@ + ", level(0))"@ + ")"@ + ";"@ + "\n"@;
    assert(a.len() == b.len());
    same_each(a, b, 0, 17);
    assert(a =~= b);
}

proof fn piece_19()
    ensures
        "    if (!("@ == "    "@ + "if (!("@,
{
    reveal_strlit("    if (!(");
    reveal_strlit("    ");
    reveal_strlit("if (!(");
    reveal_with_fuel(same_chars, 12);
    let a = "    if (!("@;
    let b = "    "@ + "if (!("@;
    assert(a.len() == b.len());
    same_each(a, b, 0, 10);
    assert(a =~= b);
}

proof fn piece_20()
    ensures
        ")) discard_fragment();\n"@ == ")) discard_fragment();"@ + "\n"@,
{
    reveal_strlit(")) discard_fragment();\n");
    reveal_strlit(")) discard_fragment();");
    reveal_strlit("\n");
    reveal_with_fuel(same_chars, 25);
    let a = ")) discard_fragment();\n"@;
    let b = ")) discard_fragment();"@ + "\n"@;
    assert(a.len() == b.len());
    same_each(a, b, 0, 23);
    assert(a =~= b);
}

pub open spec fn start_colour() -> Stmt {
    Stmt::Let(4, Name::Current, var(Name::InColor(0)))
}

pub proof fn start_colour_spelled()
    ensures
        spells("    float4 current = in.color0;\n"@, start_colour(), 1),
{
    reveal_strlit("    float4 current = in.color0;\n");
    reveal_strlit("    ");
    reveal_strlit("float4");
    reveal_strlit(" ");
    reveal_strlit("current");
    reveal_strlit(" = ");
    reveal_strlit("in.color");
    reveal_strlit(";");
    reveal_strlit("\n");
    short_numbers(0);
    reveal_with_fuel(show, 12);
    reveal_with_fuel(proper, 12);
    reveal_with_fuel(same_chars, 34);
    let a = "    float4 current = in.color0;\n"@;
    let b = listing(start_colour(), 1);
    assert(a.len() == b.len());
    same_each(a, b, 0, 32);
    assert(a =~= b);
}

pub open spec fn add_specular() -> Stmt {
    Stmt::Assign(
        Name::Current,
        make(
            4,
            list(
                call1(
                    Fun1::Saturate,
                    sum(
                        part(
                            var(Name::Current),
                            Pick::Three(Component::R, Component::G, Component::B),
                        ),
                        part(
                            var(Name::InColor(1)),
                            Pick::Three(Component::R, Component::G, Component::B),
                        ),
                    ),
                ),
                part(var(Name::Current), Pick::One(Component::A)),
            ),
        ),
    )
}

#[verifier::rlimit(50)]
pub proof fn add_specular_spelled()
    ensures
        spells(
            "    current = float4(saturate(current.rgb + in.color1.rgb), current.a);\n"@,
            add_specular(),
            1,
        ),
{
    reveal_strlit("    current = float4(saturate(current.rgb + in.color1.rgb), current.a);\n");
    reveal_strlit("    ");
    reveal_strlit("current");
    reveal_strlit(" = ");
    reveal_strlit("float4");
    reveal_strlit("(");
    reveal_strlit("saturate(");
    reveal_strlit(".");
    reveal_strlit("r");
    reveal_strlit("g");
    reveal_strlit("b");
    reveal_strlit(" + ");
    reveal_strlit("in.color");
    reveal_strlit(")");
    reveal_strlit(", ");
    reveal_strlit("a");
    reveal_strlit(";");
    reveal_strlit("\n");
    short_numbers(1);
    reveal_with_fuel(show, 12);
    reveal_with_fuel(proper, 12);
    reveal_with_fuel(same_chars, 17);
    let a = "    current = float4(saturate(current.rgb + in.color1.rgb), current.a);\n"@;
    let b = listing(add_specular(), 1);
    assert(a.len() == b.len());
    same_each(a, b, 0, 15);
    same_each(a, b, 15, 30);
    same_each(a, b, 30, 45);
    same_each(a, b, 45, 60);
    same_each(a, b, 60, 72);
    assert(a =~= b);
}

pub open spec fn set_target() -> Stmt {
    Stmt::Let(4, Name::Target, var(Name::Current))
}

pub proof fn set_target_spelled()
    ensures
        spells("    float4 oC0 = current;\n"@, set_target(), 1),
{
    reveal_strlit("    float4 oC0 = current;\n");
    reveal_strlit("    ");
    reveal_strlit("float4");
    reveal_strlit(" ");
    reveal_strlit("oC0");
    reveal_strlit(" = ");
    reveal_strlit("current");
    reveal_strlit(";");
    reveal_strlit("\n");
    reveal_with_fuel(show, 12);
    reveal_with_fuel(proper, 12);
    reveal_with_fuel(same_chars, 28);
    let a = "    float4 oC0 = current;\n"@;
    let b = listing(set_target(), 1);
    assert(a.len() == b.len());
    same_each(a, b, 0, 26);
    assert(a =~= b);
}

pub open spec fn flat_two(i: nat) -> Expr {
    part(var(Name::InTexcoord(i)), Pick::Two(Component::X, Component::Y))
}

pub proof fn flat_two_spelled(i: nat)
    ensures
        spells_value("in.texcoord"@ + dec(i) + "."@ + "xy"@, flat_two(i)),
        level(flat_two(i)) == level(part(var(Name::InTexcoord(i)), Pick::Two(Component::X, Component::Y))),
{
    piece_1();
    reveal_with_fuel(show, 12);
    reveal_with_fuel(proper, 12);
    assert("in.texcoord"@ + dec(i) + "."@ + "xy"@ =~= show(flat_two(i)));
}

pub open spec fn divided_two(i: nat) -> Expr {
    paren(
        cond(
            bin(
                Op::NotEqual,
                part(var(Name::InTexcoord(i)), Pick::One(Component::W)),
                num(Number::Zero),
            ),
            quot(
                part(var(Name::InTexcoord(i)), Pick::Two(Component::X, Component::Y)),
                part(var(Name::InTexcoord(i)), Pick::One(Component::W)),
            ),
            make(2, num(Number::Zero)),
            false,
        ),
    )
}

pub proof fn divided_two_spelled(i: nat)
    ensures
        spells_value(
            "(in.texcoord"@ + dec(i) + ".w != 0.0 ? "@ + "in.texcoord"@ + dec(i) + "."@ + "xy"@
                + " / in.texcoord"@ + dec(i) + ".w : "@ + "float2(0.0)"@ + ")"@,
            divided_two(i),
        ),
        level(divided_two(i)) == level(
                paren(
                    cond(
                        bin(
                            Op::NotEqual,
                            part(var(Name::InTexcoord(i)), Pick::One(Component::W)),
                            num(Number::Zero),
                        ),
                        quot(
                            part(var(Name::InTexcoord(i)), Pick::Two(Component::X, Component::Y)),
                            part(var(Name::InTexcoord(i)), Pick::One(Component::W)),
                        ),
                        make(2, num(Number::Zero)),
                        false,
                    ),
                ),
            ),
{
    piece_2();
    piece_3();
    piece_1();
    piece_4();
    piece_5();
    piece_6();
    reveal_with_fuel(show, 12);
    reveal_with_fuel(proper, 12);
    let x1 = "in.texcoord"@ + dec(i);
    let x2 = "."@ + "w"@;
    let x3 = x1 + x2;
    let x4 = x3 + " != "@;
    let x5 = x4 + "0.0"@;
    let x6 = x5 + " ? "@;
    let x7 = "."@ + "x"@;
    let x8 = x7 + "y"@;
    let x9 = x1 + x8;
    let x10 = x9 + " / "@;
    let x11 = x10 + x3;
    let x12 = x6 + x11;
    let x13 = x12 + " : "@;
    let x14 = "float2"@ + "("@;
    let x15 = x14 + "0.0"@;
    let x16 = x15 + ")"@;
    let x17 = x13 + x16;
    let x18 = "("@ + x17;
    let x19 = x18 + ")"@;
    let x20 = "("@ + x13;
    let x21 = x20 + x16;
    regrouped("("@, x13, x16);
    let x22 = "("@ + x12;
    let x23 = x22 + " : "@;
    regrouped("("@, x12, " : "@);
    let x24 = "("@ + x6;
    let x25 = x24 + x11;
    regrouped("("@, x6, x11);
    let x26 = "("@ + x5;
    let x27 = x26 + " ? "@;
    regrouped("("@, x5, " ? "@);
    let x28 = "("@ + x4;
    let x29 = x28 + "0.0"@;
    regrouped("("@, x4, "0.0"@);
    let x30 = "("@ + x3;
    let x31 = x30 + " != "@;
    regrouped("("@, x3, " != "@);
    let x32 = "("@ + x1;
    let x33 = x32 + x2;
    regrouped("("@, x1, x2);
    let x34 = "("@ + "in.texcoord"@;
    let x35 = x34 + dec(i);
    regrouped("("@, "in.texcoord"@, dec(i));
    let x36 = x35 + x2;
    let x37 = x35 + "."@;
    let x38 = x37 + "w"@;
    regrouped(x35, "."@, "w"@);
    let x39 = x38 + " != "@;
    let x40 = x39 + "0.0"@;
    let x41 = x40 + " ? "@;
    let x42 = x41 + x11;
    let x43 = x41 + x10;
    let x44 = x43 + x3;
    regrouped(x41, x10, x3);
    let x45 = x41 + x9;
    let x46 = x45 + " / "@;
    regrouped(x41, x9, " / "@);
    let x47 = x41 + x1;
    let x48 = x47 + x8;
    regrouped(x41, x1, x8);
    let x49 = x41 + "in.texcoord"@;
    let x50 = x49 + dec(i);
    regrouped(x41, "in.texcoord"@, dec(i));
    let x51 = x50 + x8;
    let x52 = x50 + x7;
    let x53 = x52 + "y"@;
    regrouped(x50, x7, "y"@);
    let x54 = x50 + "."@;
    let x55 = x54 + "x"@;
    regrouped(x50, "."@, "x"@);
    let x56 = x55 + "y"@;
    let x57 = x56 + " / "@;
    let x58 = x57 + x3;
    let x59 = x57 + x1;
    let x60 = x59 + x2;
    regrouped(x57, x1, x2);
    let x61 = x57 + "in.texcoord"@;
    let x62 = x61 + dec(i);
    regrouped(x57, "in.texcoord"@, dec(i));
    let x63 = x62 + x2;
    let x64 = x62 + "."@;
    let x65 = x64 + "w"@;
    regrouped(x62, "."@, "w"@);
    let x66 = x65 + " : "@;
    let x67 = x66 + x16;
    let x68 = x66 + x15;
    let x69 = x68 + ")"@;
    regrouped(x66, x15, ")"@);
    let x70 = x66 + x14;
    let x71 = x70 + "0.0"@;
    regrouped(x66, x14, "0.0"@);
    let x72 = x66 + "float2"@;
    let x73 = x72 + "("@;
    regrouped(x66, "float2"@, "("@);
    let x74 = x73 + "0.0"@;
    let x75 = x74 + ")"@;
    let x76 = x75 + ")"@;
    let x77 = x2 + " != "@;
    let x78 = x77 + "0.0"@;
    let x79 = x78 + " ? "@;
    let x80 = x35 + x79;
    let x81 = x80 + "in.texcoord"@;
    let x82 = x81 + dec(i);
    let x83 = x82 + "."@;
    let x84 = "x"@ + "y"@;
    let x85 = x83 + x84;
    let x86 = " / "@ + "in.texcoord"@;
    let x87 = x85 + x86;
    let x88 = x87 + dec(i);
    let x89 = x2 + " : "@;
    let x90 = x88 + x89;
    let x91 = x90 + x16;
    let x92 = x91 + ")"@;
    let x93 = x35 + x78;
    let x94 = x93 + " ? "@;
    regrouped(x35, x78, " ? "@);
    let x95 = x35 + x77;
    let x96 = x95 + "0.0"@;
    regrouped(x35, x77, "0.0"@);
    let x97 = x36 + " != "@;
    regrouped(x35, x2, " != "@);
    let x98 = x54 + x84;
    regrouped(x54, "x"@, "y"@);
    let x99 = x56 + x86;
    regrouped(x56, " / "@, "in.texcoord"@);
    let x100 = x62 + x89;
    let x101 = x63 + " : "@;
    regrouped(x62, x2, " : "@);
}

pub open spec fn flat_three(i: nat) -> Expr {
    part(var(Name::InTexcoord(i)), Pick::Three(Component::X, Component::Y, Component::Z))
}

pub proof fn flat_three_spelled(i: nat)
    ensures
        spells_value("in.texcoord"@ + dec(i) + "."@ + "xyz"@, flat_three(i)),
        level(flat_three(i)) == level(
                part(
                    var(Name::InTexcoord(i)),
                    Pick::Three(Component::X, Component::Y, Component::Z),
                ),
            ),
{
    piece_7();
    reveal_with_fuel(show, 12);
    reveal_with_fuel(proper, 12);
    assert("in.texcoord"@ + dec(i) + "."@ + "xyz"@ =~= show(flat_three(i)));
}

pub open spec fn divided_three(i: nat) -> Expr {
    paren(
        cond(
            bin(
                Op::NotEqual,
                part(var(Name::InTexcoord(i)), Pick::One(Component::W)),
                num(Number::Zero),
            ),
            quot(
                part(
                    var(Name::InTexcoord(i)),
                    Pick::Three(Component::X, Component::Y, Component::Z),
                ),
                part(var(Name::InTexcoord(i)), Pick::One(Component::W)),
            ),
            make(3, num(Number::Zero)),
            false,
        ),
    )
}

pub proof fn divided_three_spelled(i: nat)
    ensures
        spells_value(
            "(in.texcoord"@ + dec(i) + ".w != 0.0 ? "@ + "in.texcoord"@ + dec(i) + "."@ + "xyz"@
                + " / in.texcoord"@ + dec(i) + ".w : "@ + "float3(0.0)"@ + ")"@,
            divided_three(i),
        ),
        level(divided_three(i)) == level(
                paren(
                    cond(
                        bin(
                            Op::NotEqual,
                            part(var(Name::InTexcoord(i)), Pick::One(Component::W)),
                            num(Number::Zero),
                        ),
                        quot(
                            part(
                                var(Name::InTexcoord(i)),
                                Pick::Three(Component::X, Component::Y, Component::Z),
                            ),
                            part(var(Name::InTexcoord(i)), Pick::One(Component::W)),
                        ),
                        make(3, num(Number::Zero)),
                        false,
                    ),
                ),
            ),
{
    piece_2();
    piece_3();
    piece_7();
    piece_4();
    piece_5();
    piece_8();
    reveal_with_fuel(show, 12);
    reveal_with_fuel(proper, 12);
    let x1 = "in.texcoord"@ + dec(i);
    let x2 = "."@ + "w"@;
    let x3 = x1 + x2;
    let x4 = x3 + " != "@;
    let x5 = x4 + "0.0"@;
    let x6 = x5 + " ? "@;
    let x7 = "."@ + "x"@;
    let x8 = x7 + "y"@;
    let x9 = x8 + "z"@;
    let x10 = x1 + x9;
    let x11 = x10 + " / "@;
    let x12 = x11 + x3;
    let x13 = x6 + x12;
    let x14 = x13 + " : "@;
    let x15 = "float3"@ + "("@;
    let x16 = x15 + "0.0"@;
    let x17 = x16 + ")"@;
    let x18 = x14 + x17;
    let x19 = "("@ + x18;
    let x20 = x19 + ")"@;
    let x21 = "("@ + x14;
    let x22 = x21 + x17;
    regrouped("("@, x14, x17);
    let x23 = "("@ + x13;
    let x24 = x23 + " : "@;
    regrouped("("@, x13, " : "@);
    let x25 = "("@ + x6;
    let x26 = x25 + x12;
    regrouped("("@, x6, x12);
    let x27 = "("@ + x5;
    let x28 = x27 + " ? "@;
    regrouped("("@, x5, " ? "@);
    let x29 = "("@ + x4;
    let x30 = x29 + "0.0"@;
    regrouped("("@, x4, "0.0"@);
    let x31 = "("@ + x3;
    let x32 = x31 + " != "@;
    regrouped("("@, x3, " != "@);
    let x33 = "("@ + x1;
    let x34 = x33 + x2;
    regrouped("("@, x1, x2);
    let x35 = "("@ + "in.texcoord"@;
    let x36 = x35 + dec(i);
    regrouped("("@, "in.texcoord"@, dec(i));
    let x37 = x36 + x2;
    let x38 = x36 + "."@;
    let x39 = x38 + "w"@;
    regrouped(x36, "."@, "w"@);
    let x40 = x39 + " != "@;
    let x41 = x40 + "0.0"@;
    let x42 = x41 + " ? "@;
    let x43 = x42 + x12;
    let x44 = x42 + x11;
    let x45 = x44 + x3;
    regrouped(x42, x11, x3);
    let x46 = x42 + x10;
    let x47 = x46 + " / "@;
    regrouped(x42, x10, " / "@);
    let x48 = x42 + x1;
    let x49 = x48 + x9;
    regrouped(x42, x1, x9);
    let x50 = x42 + "in.texcoord"@;
    let x51 = x50 + dec(i);
    regrouped(x42, "in.texcoord"@, dec(i));
    let x52 = x51 + x9;
    let x53 = x51 + x8;
    let x54 = x53 + "z"@;
    regrouped(x51, x8, "z"@);
    let x55 = x51 + x7;
    let x56 = x55 + "y"@;
    regrouped(x51, x7, "y"@);
    let x57 = x51 + "."@;
    let x58 = x57 + "x"@;
    regrouped(x51, "."@, "x"@);
    let x59 = x58 + "y"@;
    let x60 = x59 + "z"@;
    let x61 = x60 + " / "@;
    let x62 = x61 + x3;
    let x63 = x61 + x1;
    let x64 = x63 + x2;
    regrouped(x61, x1, x2);
    let x65 = x61 + "in.texcoord"@;
    let x66 = x65 + dec(i);
    regrouped(x61, "in.texcoord"@, dec(i));
    let x67 = x66 + x2;
    let x68 = x66 + "."@;
    let x69 = x68 + "w"@;
    regrouped(x66, "."@, "w"@);
    let x70 = x69 + " : "@;
    let x71 = x70 + x17;
    let x72 = x70 + x16;
    let x73 = x72 + ")"@;
    regrouped(x70, x16, ")"@);
    let x74 = x70 + x15;
    let x75 = x74 + "0.0"@;
    regrouped(x70, x15, "0.0"@);
    let x76 = x70 + "float3"@;
    let x77 = x76 + "("@;
    regrouped(x70, "float3"@, "("@);
    let x78 = x77 + "0.0"@;
    let x79 = x78 + ")"@;
    let x80 = x79 + ")"@;
    let x81 = x2 + " != "@;
    let x82 = x81 + "0.0"@;
    let x83 = x82 + " ? "@;
    let x84 = x36 + x83;
    let x85 = x84 + "in.texcoord"@;
    let x86 = x85 + dec(i);
    let x87 = x86 + "."@;
    let x88 = "x"@ + "y"@;
    let x89 = x88 + "z"@;
    let x90 = x87 + x89;
    let x91 = " / "@ + "in.texcoord"@;
    let x92 = x90 + x91;
    let x93 = x92 + dec(i);
    let x94 = x2 + " : "@;
    let x95 = x93 + x94;
    let x96 = x95 + x17;
    let x97 = x96 + ")"@;
    let x98 = x36 + x82;
    let x99 = x98 + " ? "@;
    regrouped(x36, x82, " ? "@);
    let x100 = x36 + x81;
    let x101 = x100 + "0.0"@;
    regrouped(x36, x81, "0.0"@);
    let x102 = x37 + " != "@;
    regrouped(x36, x2, " != "@);
    let x103 = x57 + x89;
    let x104 = x57 + x88;
    let x105 = x104 + "z"@;
    regrouped(x57, x88, "z"@);
    regrouped(x57, "x"@, "y"@);
    let x106 = x60 + x91;
    regrouped(x60, " / "@, "in.texcoord"@);
    let x107 = x66 + x94;
    let x108 = x67 + " : "@;
    regrouped(x66, x2, " : "@);
}

pub open spec fn let_texel(i: nat, c: Expr) -> Stmt {
    Stmt::Let(4, Name::Texel(i), Expr::Read(Lookup::Plain, i, i, Box::new(c)))
}

pub proof fn let_texel_spelled(i: nat, c: Expr)
    requires
        proper(c),
        level(c) >= 1,
    ensures
        spells(
            Seq::<char>::empty() + "    float4 t"@ + dec(i) + " = s"@ + dec(i) + ".sample(samp"@
                + dec(i) + ", "@ + show(c) + ");\n"@,
            let_texel(i, c),
            1,
        ),
{
    piece_9();
    piece_10();
    piece_11();
    reveal_with_fuel(show, 12);
    reveal_with_fuel(proper, 12);
    let x1 = "float4"@ + " "@;
    let x2 = "t"@ + dec(i);
    let x3 = x1 + x2;
    let x4 = x3 + " = "@;
    let x5 = "s"@ + dec(i);
    let x6 = x5 + ".sample(samp"@;
    let x7 = x6 + dec(i);
    let x8 = x7 + ", "@;
    let x9 = x8 + show(c);
    let x10 = x9 + ")"@;
    let x11 = x4 + x10;
    let x12 = x11 + ";"@;
    let x13 = "    "@ + x12;
    let x14 = x13 + "\n"@;
    let x15 = "    "@ + x11;
    let x16 = x15 + ";"@;
    regrouped("    "@, x11, ";"@);
    let x17 = "    "@ + x4;
    let x18 = x17 + x10;
    regrouped("    "@, x4, x10);
    let x19 = "    "@ + x3;
    let x20 = x19 + " = "@;
    regrouped("    "@, x3, " = "@);
    let x21 = "    "@ + x1;
    let x22 = x21 + x2;
    regrouped("    "@, x1, x2);
    let x23 = "    "@ + "float4"@;
    let x24 = x23 + " "@;
    regrouped("    "@, "float4"@, " "@);
    let x25 = x24 + x2;
    let x26 = x24 + "t"@;
    let x27 = x26 + dec(i);
    regrouped(x24, "t"@, dec(i));
    let x28 = x27 + " = "@;
    let x29 = x28 + x10;
    let x30 = x28 + x9;
    let x31 = x30 + ")"@;
    regrouped(x28, x9, ")"@);
    let x32 = x28 + x8;
    let x33 = x32 + show(c);
    regrouped(x28, x8, show(c));
    let x34 = x28 + x7;
    let x35 = x34 + ", "@;
    regrouped(x28, x7, ", "@);
    let x36 = x28 + x6;
    let x37 = x36 + dec(i);
    regrouped(x28, x6, dec(i));
    let x38 = x28 + x5;
    let x39 = x38 + ".sample(samp"@;
    regrouped(x28, x5, ".sample(samp"@);
    let x40 = x28 + "s"@;
    let x41 = x40 + dec(i);
    regrouped(x28, "s"@, dec(i));
    let x42 = x41 + ".sample(samp"@;
    let x43 = x42 + dec(i);
    let x44 = x43 + ", "@;
    let x45 = x44 + show(c);
    let x46 = x45 + ")"@;
    let x47 = x46 + ";"@;
    let x48 = x47 + "\n"@;
    let x49 = " = "@ + "s"@;
    let x50 = x27 + x49;
    let x51 = x50 + dec(i);
    let x52 = x51 + ".sample(samp"@;
    let x53 = x52 + dec(i);
    let x54 = x53 + ", "@;
    let x55 = x54 + show(c);
    let x56 = ")"@ + ";"@;
    let x57 = x56 + "\n"@;
    let x58 = x55 + x57;
    regrouped(x27, " = "@, "s"@);
    let x59 = x45 + x57;
    let x60 = x45 + x56;
    let x61 = x60 + "\n"@;
    regrouped(x45, x56, "\n"@);
    regrouped(x45, ")"@, ";"@);
    assert(Seq::<char>::empty() + x26 =~= x26);
}

pub open spec fn let_biased_texel(i: nat, c: Expr) -> Stmt {
    Stmt::Let(4, Name::Texel(i), Expr::Read(Lookup::Biased(i), i, i, Box::new(c)))
}

pub proof fn let_biased_texel_spelled(i: nat, c: Expr)
    requires
        proper(c),
        level(c) >= 1,
    ensures
        spells(
            Seq::<char>::empty() + "    float4 t"@ + dec(i) + " = s"@ + dec(i) + ".sample(samp"@
                + dec(i) + ", "@ + show(c) + ", bias(lod_bias["@ + dec(i) + "].x)"@ + ");\n"@,
            let_biased_texel(i, c),
            1,
        ),
{
    piece_9();
    piece_10();
    piece_12();
    piece_13();
    piece_11();
    reveal_with_fuel(show, 12);
    reveal_with_fuel(proper, 12);
    let x1 = "float4"@ + " "@;
    let x2 = "t"@ + dec(i);
    let x3 = x1 + x2;
    let x4 = x3 + " = "@;
    let x5 = "s"@ + dec(i);
    let x6 = x5 + ".sample(samp"@;
    let x7 = x6 + dec(i);
    let x8 = x7 + ", "@;
    let x9 = x8 + show(c);
    let x10 = "lod_bias["@ + dec(i);
    let x11 = x10 + "]"@;
    let x12 = ", bias("@ + x11;
    let x13 = x12 + ".x)"@;
    let x14 = x13 + ")"@;
    let x15 = x9 + x14;
    let x16 = x4 + x15;
    let x17 = x16 + ";"@;
    let x18 = "    "@ + x17;
    let x19 = x18 + "\n"@;
    let x20 = "    "@ + x16;
    let x21 = x20 + ";"@;
    regrouped("    "@, x16, ";"@);
    let x22 = "    "@ + x4;
    let x23 = x22 + x15;
    regrouped("    "@, x4, x15);
    let x24 = "    "@ + x3;
    let x25 = x24 + " = "@;
    regrouped("    "@, x3, " = "@);
    let x26 = "    "@ + x1;
    let x27 = x26 + x2;
    regrouped("    "@, x1, x2);
    let x28 = "    "@ + "float4"@;
    let x29 = x28 + " "@;
    regrouped("    "@, "float4"@, " "@);
    let x30 = x29 + x2;
    let x31 = x29 + "t"@;
    let x32 = x31 + dec(i);
    regrouped(x29, "t"@, dec(i));
    let x33 = x32 + " = "@;
    let x34 = x33 + x15;
    let x35 = x33 + x9;
    let x36 = x35 + x14;
    regrouped(x33, x9, x14);
    let x37 = x33 + x8;
    let x38 = x37 + show(c);
    regrouped(x33, x8, show(c));
    let x39 = x33 + x7;
    let x40 = x39 + ", "@;
    regrouped(x33, x7, ", "@);
    let x41 = x33 + x6;
    let x42 = x41 + dec(i);
    regrouped(x33, x6, dec(i));
    let x43 = x33 + x5;
    let x44 = x43 + ".sample(samp"@;
    regrouped(x33, x5, ".sample(samp"@);
    let x45 = x33 + "s"@;
    let x46 = x45 + dec(i);
    regrouped(x33, "s"@, dec(i));
    let x47 = x46 + ".sample(samp"@;
    let x48 = x47 + dec(i);
    let x49 = x48 + ", "@;
    let x50 = x49 + show(c);
    let x51 = x50 + x14;
    let x52 = x50 + x13;
    let x53 = x52 + ")"@;
    regrouped(x50, x13, ")"@);
    let x54 = x50 + x12;
    let x55 = x54 + ".x)"@;
    regrouped(x50, x12, ".x)"@);
    let x56 = x50 + ", bias("@;
    let x57 = x56 + x11;
    regrouped(x50, ", bias("@, x11);
    let x58 = x56 + x10;
    let x59 = x58 + "]"@;
    regrouped(x56, x10, "]"@);
    let x60 = x56 + "lod_bias["@;
    let x61 = x60 + dec(i);
    regrouped(x56, "lod_bias["@, dec(i));
    let x62 = x61 + "]"@;
    let x63 = x62 + ".x)"@;
    let x64 = x63 + ")"@;
    let x65 = x64 + ";"@;
    let x66 = x65 + "\n"@;
    let x67 = " = "@ + "s"@;
    let x68 = x32 + x67;
    let x69 = x68 + dec(i);
    let x70 = x69 + ".sample(samp"@;
    let x71 = x70 + dec(i);
    let x72 = x71 + ", "@;
    let x73 = x72 + show(c);
    let x74 = ", bias("@ + "lod_bias["@;
    let x75 = x73 + x74;
    let x76 = x75 + dec(i);
    let x77 = "]"@ + ".x)"@;
    let x78 = x76 + x77;
    let x79 = ")"@ + ";"@;
    let x80 = x79 + "\n"@;
    let x81 = x78 + x80;
    regrouped(x32, " = "@, "s"@);
    let x82 = x50 + x74;
    regrouped(x50, ", bias("@, "lod_bias["@);
    let x83 = x61 + x77;
    regrouped(x61, "]"@, ".x)"@);
    let x84 = x63 + x80;
    let x85 = x63 + x79;
    let x86 = x85 + "\n"@;
    regrouped(x63, x79, "\n"@);
    regrouped(x63, ")"@, ";"@);
    assert(Seq::<char>::empty() + x31 =~= x31);
}

pub open spec fn let_depth(i: nat, c: Expr) -> Stmt {
    Stmt::Let(4, Name::Texel(i), make(4, Expr::Read(Lookup::Depth, i, i, Box::new(c))))
}

pub proof fn let_depth_spelled(i: nat, c: Expr)
    requires
        proper(c),
        level(c) >= 1,
    ensures
        spells(
            Seq::<char>::empty() + "    float4 t"@ + dec(i) + " = float4(s"@ + dec(i)
                + ".sample(samp"@ + dec(i) + ", "@ + show(c) + ", level(0)));\n"@,
            let_depth(i, c),
            1,
        ),
{
    piece_9();
    piece_14();
    piece_15();
    reveal_with_fuel(show, 12);
    reveal_with_fuel(proper, 12);
    let x1 = "float4"@ + " "@;
    let x2 = "t"@ + dec(i);
    let x3 = x1 + x2;
    let x4 = x3 + " = "@;
    let x5 = "float4"@ + "("@;
    let x6 = "s"@ + dec(i);
    let x7 = x6 + ".sample(samp"@;
    let x8 = x7 + dec(i);
    let x9 = x8 + ", "@;
    let x10 = x9 + show(c);
    let x11 = x10 + ", level(0))"@;
    let x12 = x5 + x11;
    let x13 = x12 + ")"@;
    let x14 = x4 + x13;
    let x15 = x14 + ";"@;
    let x16 = "    "@ + x15;
    let x17 = x16 + "\n"@;
    let x18 = "    "@ + x14;
    let x19 = x18 + ";"@;
    regrouped("    "@, x14, ";"@);
    let x20 = "    "@ + x4;
    let x21 = x20 + x13;
    regrouped("    "@, x4, x13);
    let x22 = "    "@ + x3;
    let x23 = x22 + " = "@;
    regrouped("    "@, x3, " = "@);
    let x24 = "    "@ + x1;
    let x25 = x24 + x2;
    regrouped("    "@, x1, x2);
    let x26 = "    "@ + "float4"@;
    let x27 = x26 + " "@;
    regrouped("    "@, "float4"@, " "@);
    let x28 = x27 + x2;
    let x29 = x27 + "t"@;
    let x30 = x29 + dec(i);
    regrouped(x27, "t"@, dec(i));
    let x31 = x30 + " = "@;
    let x32 = x31 + x13;
    let x33 = x31 + x12;
    let x34 = x33 + ")"@;
    regrouped(x31, x12, ")"@);
    let x35 = x31 + x5;
    let x36 = x35 + x11;
    regrouped(x31, x5, x11);
    let x37 = x31 + "float4"@;
    let x38 = x37 + "("@;
    regrouped(x31, "float4"@, "("@);
    let x39 = x38 + x11;
    let x40 = x38 + x10;
    let x41 = x40 + ", level(0))"@;
    regrouped(x38, x10, ", level(0))"@);
    let x42 = x38 + x9;
    let x43 = x42 + show(c);
    regrouped(x38, x9, show(c));
    let x44 = x38 + x8;
    let x45 = x44 + ", "@;
    regrouped(x38, x8, ", "@);
    let x46 = x38 + x7;
    let x47 = x46 + dec(i);
    regrouped(x38, x7, dec(i));
    let x48 = x38 + x6;
    let x49 = x48 + ".sample(samp"@;
    regrouped(x38, x6, ".sample(samp"@);
    let x50 = x38 + "s"@;
    let x51 = x50 + dec(i);
    regrouped(x38, "s"@, dec(i));
    let x52 = x51 + ".sample(samp"@;
    let x53 = x52 + dec(i);
    let x54 = x53 + ", "@;
    let x55 = x54 + show(c);
    let x56 = x55 + ", level(0))"@;
    let x57 = x56 + ")"@;
    let x58 = x57 + ";"@;
    let x59 = x58 + "\n"@;
    let x60 = " = "@ + "float4"@;
    let x61 = x60 + "("@;
    let x62 = x61 + "s"@;
    let x63 = x30 + x62;
    let x64 = x63 + dec(i);
    let x65 = x64 + ".sample(samp"@;
    let x66 = x65 + dec(i);
    let x67 = x66 + ", "@;
    let x68 = x67 + show(c);
    let x69 = ", level(0))"@ + ")"@;
    let x70 = x69 + ";"@;
    let x71 = x70 + "\n"@;
    let x72 = x68 + x71;
    let x73 = x30 + x61;
    let x74 = x73 + "s"@;
    regrouped(x30, x61, "s"@);
    let x75 = x30 + x60;
    let x76 = x75 + "("@;
    regrouped(x30, x60, "("@);
    regrouped(x30, " = "@, "float4"@);
    let x77 = x55 + x71;
    let x78 = x55 + x70;
    let x79 = x78 + "\n"@;
    regrouped(x55, x70, "\n"@);
    let x80 = x55 + x69;
    let x81 = x80 + ";"@;
    regrouped(x55, x69, ";"@);
    regrouped(x55, ", level(0))"@, ")"@);
    assert(Seq::<char>::empty() + x29 =~= x29);
}

pub open spec fn let_comparison(i: nat) -> Stmt {
    Stmt::Let(
        4,
        Name::Texel(i),
        make(
            4,
            Expr::Read(
                Lookup::Compared,
                i,
                i,
                Box::new(
                    list(
                        part(var(Name::InTexcoord(i)), Pick::Two(Component::X, Component::Y)),
                        call1(
                            Fun1::Saturate,
                            part(var(Name::InTexcoord(i)), Pick::One(Component::Z)),
                        ),
                    ),
                ),
            ),
        ),
    )
}

pub proof fn let_comparison_spelled(i: nat)
    ensures
        spells(
            Seq::<char>::empty() + "    float4 t"@ + dec(i) + " = float4(s"@ + dec(i)
                + ".sample_compare(samp"@ + dec(i) + ", in.texcoord"@ + dec(i)
                + ".xy, saturate(in.texcoord"@ + dec(i) + ".z), level(0)));\n"@,
            let_comparison(i),
            1,
        ),
{
    piece_9();
    piece_14();
    piece_16();
    piece_17();
    piece_18();
    reveal_with_fuel(show, 12);
    reveal_with_fuel(proper, 12);
    let x1 = "float4"@ + " "@;
    let x2 = "t"@ + dec(i);
    let x3 = x1 + x2;
    let x4 = x3 + " = "@;
    let x5 = "float4"@ + "("@;
    let x6 = "s"@ + dec(i);
    let x7 = x6 + ".sample_compare(samp"@;
    let x8 = x7 + dec(i);
    let x9 = x8 + ", "@;
    let x10 = "in.texcoord"@ + dec(i);
    let x11 = "."@ + "x"@;
    let x12 = x11 + "y"@;
    let x13 = x10 + x12;
    let x14 = x13 + ", "@;
    let x15 = "."@ + "z"@;
    let x16 = x10 + x15;
    let x17 = "saturate("@ + x16;
    let x18 = x17 + ")"@;
    let x19 = x14 + x18;
    let x20 = x9 + x19;
    let x21 = x20 + ", level(0))"@;
    let x22 = x5 + x21;
    let x23 = x22 + ")"@;
    let x24 = x4 + x23;
    let x25 = x24 + ";"@;
    let x26 = "    "@ + x25;
    let x27 = x26 + "\n"@;
    let x28 = "    "@ + x24;
    let x29 = x28 + ";"@;
    regrouped("    "@, x24, ";"@);
    let x30 = "    "@ + x4;
    let x31 = x30 + x23;
    regrouped("    "@, x4, x23);
    let x32 = "    "@ + x3;
    let x33 = x32 + " = "@;
    regrouped("    "@, x3, " = "@);
    let x34 = "    "@ + x1;
    let x35 = x34 + x2;
    regrouped("    "@, x1, x2);
    let x36 = "    "@ + "float4"@;
    let x37 = x36 + " "@;
    regrouped("    "@, "float4"@, " "@);
    let x38 = x37 + x2;
    let x39 = x37 + "t"@;
    let x40 = x39 + dec(i);
    regrouped(x37, "t"@, dec(i));
    let x41 = x40 + " = "@;
    let x42 = x41 + x23;
    let x43 = x41 + x22;
    let x44 = x43 + ")"@;
    regrouped(x41, x22, ")"@);
    let x45 = x41 + x5;
    let x46 = x45 + x21;
    regrouped(x41, x5, x21);
    let x47 = x41 + "float4"@;
    let x48 = x47 + "("@;
    regrouped(x41, "float4"@, "("@);
    let x49 = x48 + x21;
    let x50 = x48 + x20;
    let x51 = x50 + ", level(0))"@;
    regrouped(x48, x20, ", level(0))"@);
    let x52 = x48 + x9;
    let x53 = x52 + x19;
    regrouped(x48, x9, x19);
    let x54 = x48 + x8;
    let x55 = x54 + ", "@;
    regrouped(x48, x8, ", "@);
    let x56 = x48 + x7;
    let x57 = x56 + dec(i);
    regrouped(x48, x7, dec(i));
    let x58 = x48 + x6;
    let x59 = x58 + ".sample_compare(samp"@;
    regrouped(x48, x6, ".sample_compare(samp"@);
    let x60 = x48 + "s"@;
    let x61 = x60 + dec(i);
    regrouped(x48, "s"@, dec(i));
    let x62 = x61 + ".sample_compare(samp"@;
    let x63 = x62 + dec(i);
    let x64 = x63 + ", "@;
    let x65 = x64 + x19;
    let x66 = x64 + x14;
    let x67 = x66 + x18;
    regrouped(x64, x14, x18);
    let x68 = x64 + x13;
    let x69 = x68 + ", "@;
    regrouped(x64, x13, ", "@);
    let x70 = x64 + x10;
    let x71 = x70 + x12;
    regrouped(x64, x10, x12);
    let x72 = x64 + "in.texcoord"@;
    let x73 = x72 + dec(i);
    regrouped(x64, "in.texcoord"@, dec(i));
    let x74 = x73 + x12;
    let x75 = x73 + x11;
    let x76 = x75 + "y"@;
    regrouped(x73, x11, "y"@);
    let x77 = x73 + "."@;
    let x78 = x77 + "x"@;
    regrouped(x73, "."@, "x"@);
    let x79 = x78 + "y"@;
    let x80 = x79 + ", "@;
    let x81 = x80 + x18;
    let x82 = x80 + x17;
    let x83 = x82 + ")"@;
    regrouped(x80, x17, ")"@);
    let x84 = x80 + "saturate("@;
    let x85 = x84 + x16;
    regrouped(x80, "saturate("@, x16);
    let x86 = x84 + x10;
    let x87 = x86 + x15;
    regrouped(x84, x10, x15);
    let x88 = x84 + "in.texcoord"@;
    let x89 = x88 + dec(i);
    regrouped(x84, "in.texcoord"@, dec(i));
    let x90 = x89 + x15;
    let x91 = x89 + "."@;
    let x92 = x91 + "z"@;
    regrouped(x89, "."@, "z"@);
    let x93 = x92 + ")"@;
    let x94 = x93 + ", level(0))"@;
    let x95 = x94 + ")"@;
    let x96 = x95 + ";"@;
    let x97 = x96 + "\n"@;
    let x98 = " = "@ + "float4"@;
    let x99 = x98 + "("@;
    let x100 = x99 + "s"@;
    let x101 = x40 + x100;
    let x102 = x101 + dec(i);
    let x103 = x102 + ".sample_compare(samp"@;
    let x104 = x103 + dec(i);
    let x105 = ", "@ + "in.texcoord"@;
    let x106 = x104 + x105;
    let x107 = x106 + dec(i);
    let x108 = x12 + ", "@;
    let x109 = x108 + "saturate("@;
    let x110 = x109 + "in.texcoord"@;
    let x111 = x107 + x110;
    let x112 = x111 + dec(i);
    let x113 = x15 + ")"@;
    let x114 = x113 + ", level(0))"@;
    let x115 = x114 + ")"@;
    let x116 = x115 + ";"@;
    let x117 = x116 + "\n"@;
    let x118 = x112 + x117;
    let x119 = x40 + x99;
    let x120 = x119 + "s"@;
    regrouped(x40, x99, "s"@);
    let x121 = x40 + x98;
    let x122 = x121 + "("@;
    regrouped(x40, x98, "("@);
    regrouped(x40, " = "@, "float4"@);
    let x123 = x63 + x105;
    regrouped(x63, ", "@, "in.texcoord"@);
    let x124 = x73 + x110;
    let x125 = x73 + x109;
    let x126 = x125 + "in.texcoord"@;
    regrouped(x73, x109, "in.texcoord"@);
    let x127 = x73 + x108;
    let x128 = x127 + "saturate("@;
    regrouped(x73, x108, "saturate("@);
    let x129 = x74 + ", "@;
    regrouped(x73, x12, ", "@);
    let x130 = x89 + x117;
    let x131 = x89 + x116;
    let x132 = x131 + "\n"@;
    regrouped(x89, x116, "\n"@);
    let x133 = x89 + x115;
    let x134 = x133 + ";"@;
    regrouped(x89, x115, ";"@);
    let x135 = x89 + x114;
    let x136 = x135 + ")"@;
    regrouped(x89, x114, ")"@);
    let x137 = x89 + x113;
    let x138 = x137 + ", level(0))"@;
    regrouped(x89, x113, ", level(0))"@);
    let x139 = x90 + ")"@;
    regrouped(x89, x15, ")"@);
    assert(Seq::<char>::empty() + x39 =~= x39);
}

pub open spec fn never() -> Expr {
    Expr::Truth(false)
}

pub proof fn never_spelled()
    ensures
        spells_value("false"@, never()),
{
    reveal_strlit("false");
    reveal_with_fuel(show, 12);
    reveal_with_fuel(proper, 12);
    reveal_with_fuel(same_chars, 7);
    let a = "false"@;
    let b = show(never());
    assert(a.len() == b.len());
    same_each(a, b, 0, 5);
    assert(a =~= b);
}

pub open spec fn always() -> Expr {
    Expr::Truth(true)
}

pub proof fn always_spelled()
    ensures
        spells_value("true"@, always()),
{
    reveal_strlit("true");
    reveal_with_fuel(show, 12);
    reveal_with_fuel(proper, 12);
    reveal_with_fuel(same_chars, 6);
    let a = "true"@;
    let b = show(always());
    assert(a.len() == b.len());
    same_each(a, b, 0, 4);
    assert(a =~= b);
}

pub open spec fn is_less() -> Expr {
    bin(Op::Less, part(var(Name::Target), Pick::One(Component::A)), var(Name::AlphaRef))
}

pub proof fn is_less_spelled()
    ensures
        spells_value("oC0.a < alpha_ref"@, is_less()),
{
    reveal_strlit("oC0.a < alpha_ref");
    reveal_strlit("oC0");
    reveal_strlit(".");
    reveal_strlit("a");
    reveal_strlit(" < ");
    reveal_strlit("alpha_ref");
    reveal_with_fuel(show, 12);
    reveal_with_fuel(proper, 12);
    reveal_with_fuel(same_chars, 19);
    let a = "oC0.a < alpha_ref"@;
    let b = show(is_less());
    assert(a.len() == b.len());
    same_each(a, b, 0, 17);
    assert(a =~= b);
}

pub open spec fn is_equal() -> Expr {
    bin(Op::Equal, part(var(Name::Target), Pick::One(Component::A)), var(Name::AlphaRef))
}

pub proof fn is_equal_spelled()
    ensures
        spells_value("oC0.a == alpha_ref"@, is_equal()),
{
    reveal_strlit("oC0.a == alpha_ref");
    reveal_strlit("oC0");
    reveal_strlit(".");
    reveal_strlit("a");
    reveal_strlit(" == ");
    reveal_strlit("alpha_ref");
    reveal_with_fuel(show, 12);
    reveal_with_fuel(proper, 12);
    reveal_with_fuel(same_chars, 20);
    let a = "oC0.a == alpha_ref"@;
    let b = show(is_equal());
    assert(a.len() == b.len());
    same_each(a, b, 0, 18);
    assert(a =~= b);
}

pub open spec fn is_at_most() -> Expr {
    bin(Op::LessEqual, part(var(Name::Target), Pick::One(Component::A)), var(Name::AlphaRef))
}

pub proof fn is_at_most_spelled()
    ensures
        spells_value("oC0.a <= alpha_ref"@, is_at_most()),
{
    reveal_strlit("oC0.a <= alpha_ref");
    reveal_strlit("oC0");
    reveal_strlit(".");
    reveal_strlit("a");
    reveal_strlit(" <= ");
    reveal_strlit("alpha_ref");
    reveal_with_fuel(show, 12);
    reveal_with_fuel(proper, 12);
    reveal_with_fuel(same_chars, 20);
    let a = "oC0.a <= alpha_ref"@;
    let b = show(is_at_most());
    assert(a.len() == b.len());
    same_each(a, b, 0, 18);
    assert(a =~= b);
}

pub open spec fn is_greater() -> Expr {
    bin(Op::Greater, part(var(Name::Target), Pick::One(Component::A)), var(Name::AlphaRef))
}

pub proof fn is_greater_spelled()
    ensures
        spells_value("oC0.a > alpha_ref"@, is_greater()),
{
    reveal_strlit("oC0.a > alpha_ref");
    reveal_strlit("oC0");
    reveal_strlit(".");
    reveal_strlit("a");
    reveal_strlit(" > ");
    reveal_strlit("alpha_ref");
    reveal_with_fuel(show, 12);
    reveal_with_fuel(proper, 12);
    reveal_with_fuel(same_chars, 19);
    let a = "oC0.a > alpha_ref"@;
    let b = show(is_greater());
    assert(a.len() == b.len());
    same_each(a, b, 0, 17);
    assert(a =~= b);
}

pub open spec fn differs() -> Expr {
    bin(Op::NotEqual, part(var(Name::Target), Pick::One(Component::A)), var(Name::AlphaRef))
}

pub proof fn differs_spelled()
    ensures
        spells_value("oC0.a != alpha_ref"@, differs()),
{
    reveal_strlit("oC0.a != alpha_ref");
    reveal_strlit("oC0");
    reveal_strlit(".");
    reveal_strlit("a");
    reveal_strlit(" != ");
    reveal_strlit("alpha_ref");
    reveal_with_fuel(show, 12);
    reveal_with_fuel(proper, 12);
    reveal_with_fuel(same_chars, 20);
    let a = "oC0.a != alpha_ref"@;
    let b = show(differs());
    assert(a.len() == b.len());
    same_each(a, b, 0, 18);
    assert(a =~= b);
}

pub open spec fn is_at_least() -> Expr {
    bin(Op::GreaterEqual, part(var(Name::Target), Pick::One(Component::A)), var(Name::AlphaRef))
}

pub proof fn is_at_least_spelled()
    ensures
        spells_value("oC0.a >= alpha_ref"@, is_at_least()),
{
    reveal_strlit("oC0.a >= alpha_ref");
    reveal_strlit("oC0");
    reveal_strlit(".");
    reveal_strlit("a");
    reveal_strlit(" >= ");
    reveal_strlit("alpha_ref");
    reveal_with_fuel(show, 12);
    reveal_with_fuel(proper, 12);
    reveal_with_fuel(same_chars, 20);
    let a = "oC0.a >= alpha_ref"@;
    let b = show(is_at_least());
    assert(a.len() == b.len());
    same_each(a, b, 0, 18);
    assert(a =~= b);
}

pub open spec fn keep_if(c: Expr) -> Stmt {
    Stmt::KeepIf(c)
}

pub proof fn keep_if_spelled(c: Expr)
    requires
        proper(c),
        level(c) >= 1,
    ensures
        spells(
            Seq::<char>::empty() + "    if (!("@ + show(c) + ")) discard_fragment();\n"@,
            keep_if(c),
            1,
        ),
{
    piece_19();
    piece_20();
    reveal_with_fuel(show, 12);
    reveal_with_fuel(proper, 12);
    assert(Seq::<char>::empty() + "    if (!("@ + show(c) + ")) discard_fragment();\n"@
        =~= listing(keep_if(c), 1));
}

} // verus!
