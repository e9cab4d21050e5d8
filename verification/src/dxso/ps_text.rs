//! How the expressions that combine colours are spelled.

use super::shading::{
    call1, call2, diff, level, list, make, num, paren, part, prod, proper, regrouped, same_chars,
    same_each, short_numbers, show, spells, spells_value, sum, var, Component, Expr, Fun1, Fun2,
    Name, Number, Pick, Stmt,
};
use vstd::prelude::*;

verus! {

proof fn piece_1()
    ensures
        "(1.0 - "@ == "("@ + "1.0"@ + " - "@,
{
    reveal_strlit("(1.0 - ");
    reveal_strlit("(");
    reveal_strlit("1.0");
    reveal_strlit(" - ");
    reveal_with_fuel(same_chars, 9);
    let a = "(1.0 - "@;
    let b = "("@ + "1.0"@ + " - "@;
    assert(a.len() == b.len());
    same_each(a, b, 0, 7);
    assert(a =~= b);
}

proof fn piece_2()
    ensures
        ".aaaa"@ == "."@ + "a"@ + "a"@ + "a"@ + "a"@,
{
    reveal_strlit(".aaaa");
    reveal_strlit(".");
    reveal_strlit("a");
    reveal_with_fuel(same_chars, 7);
    let a = ".aaaa"@;
    let b = "."@ + "a"@ + "a"@ + "a"@ + "a"@;
    assert(a.len() == b.len());
    same_each(a, b, 0, 5);
    assert(a =~= b);
}

proof fn piece_3()
    ensures
        "saturate(2.0 * "@ == "saturate("@ + "2.0"@ + " * "@,
{
    reveal_strlit("saturate(2.0 * ");
    reveal_strlit("saturate(");
    reveal_strlit("2.0");
    reveal_strlit(" * ");
    reveal_with_fuel(same_chars, 17);
    let a = "saturate(2.0 * "@;
    let b = "saturate("@ + "2.0"@ + " * "@;
    assert(a.len() == b.len());
    same_each(a, b, 0, 15);
    assert(a =~= b);
}

proof fn piece_4()
    ensures
        "saturate(4.0 * "@ == "saturate("@ + "4.0"@ + " * "@,
{
    reveal_strlit("saturate(4.0 * ");
    reveal_strlit("saturate(");
    reveal_strlit("4.0");
    reveal_strlit(" * ");
    reveal_with_fuel(same_chars, 17);
    let a = "saturate(4.0 * "@;
    let b = "saturate("@ + "4.0"@ + " * "@;
    assert(a.len() == b.len());
    same_each(a, b, 0, 15);
    assert(a =~= b);
}

proof fn piece_5()
    ensures
        " - 0.5)"@ == " - "@ + "0.5"@ + ")"@,
{
    reveal_strlit(" - 0.5)");
    reveal_strlit(" - ");
    reveal_strlit("0.5");
    reveal_strlit(")");
    reveal_with_fuel(same_chars, 9);
    let a = " - 0.5)"@;
    let b = " - "@ + "0.5"@ + ")"@;
    assert(a.len() == b.len());
    same_each(a, b, 0, 7);
    assert(a =~= b);
}

proof fn piece_6()
    ensures
        "saturate(2.0 * ("@ == "saturate("@ + "2.0"@ + " * "@ + "("@,
{
    reveal_strlit("saturate(2.0 * (");
    reveal_strlit("saturate(");
    reveal_strlit("2.0");
    reveal_strlit(" * ");
    reveal_strlit("(");
    reveal_with_fuel(same_chars, 18);
    let a = "saturate(2.0 * ("@;
    let b = "saturate("@ + "2.0"@ + " * "@ + "("@;
    assert(a.len() == b.len());
    same_each(a, b, 0, 16);
    assert(a =~= b);
}

proof fn piece_7()
    ensures
        " - 0.5))"@ == " - "@ + "0.5"@ + ")"@ + ")"@,
{
    reveal_strlit(" - 0.5))");
    reveal_strlit(" - ");
    reveal_strlit("0.5");
    reveal_strlit(")");
    reveal_with_fuel(same_chars, 10);
    let a = " - 0.5))"@;
    let b = " - "@ + "0.5"@ + ")"@ + ")"@;
    assert(a.len() == b.len());
    same_each(a, b, 0, 8);
    assert(a =~= b);
}

proof fn piece_8()
    ensures
        " * (1.0 - "@ == " * "@ + "("@ + "1.0"@ + " - "@,
{
    reveal_strlit(" * (1.0 - ");
    reveal_strlit(" * ");
    reveal_strlit("(");
    reveal_strlit("1.0");
    reveal_strlit(" - ");
    reveal_with_fuel(same_chars, 12);
    let a = " * (1.0 - "@;
    let b = " * "@ + "("@ + "1.0"@ + " - "@;
    assert(a.len() == b.len());
    same_each(a, b, 0, 10);
    assert(a =~= b);
}

proof fn piece_9()
    ensures
        "))"@ == ")"@ + ")"@,
{
    reveal_strlit("))");
    reveal_strlit(")");
    reveal_with_fuel(same_chars, 4);
    let a = "))"@;
    let b = ")"@ + ")"@;
    assert(a.len() == b.len());
    same_each(a, b, 0, 2);
    assert(a =~= b);
}

proof fn piece_10()
    ensures
        ".a + "@ == "."@ + "a"@ + " + "@,
{
    reveal_strlit(".a + ");
    reveal_strlit(".");
    reveal_strlit("a");
    reveal_strlit(" + ");
    reveal_with_fuel(same_chars, 7);
    let a = ".a + "@;
    let b = "."@ + "a"@ + " + "@;
    assert(a.len() == b.len());
    same_each(a, b, 0, 5);
    assert(a =~= b);
}

proof fn piece_11()
    ensures
        ".a))"@ == "."@ + "a"@ + ")"@ + ")"@,
{
    reveal_strlit(".a))");
    reveal_strlit(".");
    reveal_strlit("a");
    reveal_strlit(")");
    reveal_with_fuel(same_chars, 6);
    let a = ".a))"@;
    let b = "."@ + "a"@ + ")"@ + ")"@;
    assert(a.len() == b.len());
    same_each(a, b, 0, 4);
    assert(a =~= b);
}

proof fn piece_12()
    ensures
        "float4(saturate(4.0 * dot(("@ == "float4"@ + "("@ + "saturate("@ + "4.0"@ + " * "@ + "dot("@ + "("@,
{
    reveal_strlit("float4(saturate(4.0 * dot((");
    reveal_strlit("float4");
    reveal_strlit("(");
    reveal_strlit("saturate(");
    reveal_strlit("4.0");
    reveal_strlit(" * ");
    reveal_strlit("dot(");
    reveal_with_fuel(same_chars, 29);
    let a = "float4(saturate(4.0 * dot(("@;
    let b = "float4"@ + "("@ + "saturate("@ + "4.0"@ + " * "@ + "dot("@ + "("@;
    assert(a.len() == b.len());
    same_each(a, b, 0, 27);
    assert(a =~= b);
}

proof fn piece_13()
    ensures
        ").rgb - 0.5, ("@ == ")"@ + "."@ + "r"@ + "g"@ + "b"@ + " - "@ + "0.5"@ + ", "@ + "("@,
{
    reveal_strlit(").rgb - 0.5, (");
    reveal_strlit(")");
    reveal_strlit(".");
    reveal_strlit("r");
    reveal_strlit("g");
    reveal_strlit("b");
    reveal_strlit(" - ");
    reveal_strlit("0.5");
    reveal_strlit(", ");
    reveal_strlit("(");
    reveal_with_fuel(same_chars, 16);
    let a = ").rgb - 0.5, ("@;
    let b = ")"@ + "."@ + "r"@ + "g"@ + "b"@ + " - "@ + "0.5"@ + ", "@ + "("@;
    assert(a.len() == b.len());
    same_each(a, b, 0, 14);
    assert(a =~= b);
}

proof fn piece_14()
    ensures
        ").rgb - 0.5)))"@ == ")"@ + "."@ + "r"@ + "g"@ + "b"@ + " - "@ + "0.5"@ + ")"@ + ")"@ + ")"@,
{
    reveal_strlit(").rgb - 0.5)))");
    reveal_strlit(")");
    reveal_strlit(".");
    reveal_strlit("r");
    reveal_strlit("g");
    reveal_strlit("b");
    reveal_strlit(" - ");
    reveal_strlit("0.5");
    reveal_with_fuel(same_chars, 16);
    let a = ").rgb - 0.5)))"@;
    let b = ")"@ + "."@ + "r"@ + "g"@ + "b"@ + " - "@ + "0.5"@ + ")"@ + ")"@ + ")"@;
    assert(a.len() == b.len());
    same_each(a, b, 0, 14);
    assert(a =~= b);
}

proof fn piece_15()
    ensures
        "    current = float4(("@ == "    "@ + "current"@ + " = "@ + "float4"@ + "("@ + "("@,
{
    reveal_strlit("    current = float4((");
    reveal_strlit("    ");
    reveal_strlit("current");
    reveal_strlit(" = ");
    reveal_strlit("float4");
    reveal_strlit("(");
    reveal_with_fuel(same_chars, 24);
    let a = "    current = float4(("@;
    let b = "    "@ + "current"@ + " = "@ + "float4"@ + "("@ + "("@;
    assert(a.len() == b.len());
    same_each(a, b, 0, 22);
    assert(a =~= b);
}

proof fn piece_16()
    ensures
        ").rgb, ("@ == ")"@ + "."@ + "r"@ + "g"@ + "b"@ + ", "@ + "("@,
{
    reveal_strlit(").rgb, (");
    reveal_strlit(")");
    reveal_strlit(".");
    reveal_strlit("r");
    reveal_strlit("g");
    reveal_strlit("b");
    reveal_strlit(", ");
    reveal_strlit("(");
    reveal_with_fuel(same_chars, 10);
    let a = ").rgb, ("@;
    let b = ")"@ + "."@ + "r"@ + "g"@ + "b"@ + ", "@ + "("@;
    assert(a.len() == b.len());
    same_each(a, b, 0, 8);
    assert(a =~= b);
}

proof fn piece_17()
    ensures
        ").a);\n"@ == ")"@ + "."@ + "a"@ + ")"@ + ";"@ + "\n"@,
{
    reveal_strlit(").a);\n");
    reveal_strlit(")");
    reveal_strlit(".");
    reveal_strlit("a");
    reveal_strlit(";");
    reveal_strlit("\n");
    reveal_with_fuel(same_chars, 8);
    let a = ").a);\n"@;
    let b = ")"@ + "."@ + "a"@ + ")"@ + ";"@ + "\n"@;
    assert(a.len() == b.len());
    same_each(a, b, 0, 6);
    assert(a =~= b);
}

pub open spec fn diffuse_in() -> Expr {
    var(Name::InColor(0))
}

pub proof fn diffuse_in_spelled()
    ensures
        spells_value("in.color0"@, diffuse_in()),
{
    reveal_strlit("in.color0");
    reveal_strlit("in.color");
    short_numbers(0);
    reveal_with_fuel(show, 12);
    reveal_with_fuel(proper, 12);
    reveal_with_fuel(same_chars, 11);
    let a = "in.color0"@;
    let b = show(diffuse_in());
    assert(a.len() == b.len());
    same_each(a, b, 0, 9);
    assert(a =~= b);
}

pub open spec fn specular_in() -> Expr {
    var(Name::InColor(1))
}

pub proof fn specular_in_spelled()
    ensures
        spells_value("in.color1"@, specular_in()),
{
    reveal_strlit("in.color1");
    reveal_strlit("in.color");
    short_numbers(1);
    reveal_with_fuel(show, 12);
    reveal_with_fuel(proper, 12);
    reveal_with_fuel(same_chars, 11);
    let a = "in.color1"@;
    let b = show(specular_in());
    assert(a.len() == b.len());
    same_each(a, b, 0, 9);
    assert(a =~= b);
}

pub open spec fn so_far() -> Expr {
    var(Name::Current)
}

pub proof fn so_far_spelled()
    ensures
        spells_value("current"@, so_far()),
{
    reveal_strlit("current");
    reveal_with_fuel(show, 12);
    reveal_with_fuel(proper, 12);
    reveal_with_fuel(same_chars, 9);
    let a = "current"@;
    let b = show(so_far());
    assert(a.len() == b.len());
    same_each(a, b, 0, 7);
    assert(a =~= b);
}

pub open spec fn factor() -> Expr {
    var(Name::PixelRow(0))
}

pub proof fn factor_spelled()
    ensures
        spells_value("ps_c[0]"@, factor()),
{
    reveal_strlit("ps_c[0]");
    reveal_strlit("ps_c[");
    reveal_strlit("]");
    short_numbers(0);
    reveal_with_fuel(show, 12);
    reveal_with_fuel(proper, 12);
    reveal_with_fuel(same_chars, 9);
    let a = "ps_c[0]"@;
    let b = show(factor());
    assert(a.len() == b.len());
    same_each(a, b, 0, 7);
    assert(a =~= b);
}

pub open spec fn white() -> Expr {
    make(4, num(Number::One))
}

pub proof fn white_spelled()
    ensures
        spells_value("float4(1.0)"@, white()),
{
    reveal_strlit("float4(1.0)");
    reveal_strlit("float4");
    reveal_strlit("(");
    reveal_strlit("1.0");
    reveal_strlit(")");
    reveal_with_fuel(show, 12);
    reveal_with_fuel(proper, 12);
    reveal_with_fuel(same_chars, 13);
    let a = "float4(1.0)"@;
    let b = show(white());
    assert(a.len() == b.len());
    same_each(a, b, 0, 11);
    assert(a =~= b);
}

pub open spec fn complement(a: Expr) -> Expr {
    paren(diff(num(Number::One), a))
}

pub proof fn complement_spelled(a: Expr)
    requires
        proper(a),
        level(a) >= 7,
    ensures
        spells_value("(1.0 - "@ + show(a) + ")"@, complement(a)),
        level(complement(a)) == level(paren(diff(num(Number::One), a))),
{
    piece_1();
    reveal_with_fuel(show, 12);
    reveal_with_fuel(proper, 12);
    assert("(1.0 - "@ + show(a) + ")"@ =~= show(complement(a)));
}

pub open spec fn complement_of_alpha(a: Expr) -> Expr {
    paren(
        diff(
            num(Number::One),
            part(a, Pick::Four(Component::A, Component::A, Component::A, Component::A)),
        ),
    )
}

pub proof fn complement_of_alpha_spelled(a: Expr)
    requires
        proper(a),
        level(a) >= 7,
    ensures
        spells_value("(1.0 - "@ + show(a) + ".aaaa"@ + ")"@, complement_of_alpha(a)),
        level(complement_of_alpha(a)) == level(
                paren(
                    diff(
                        num(Number::One),
                        part(a, Pick::Four(Component::A, Component::A, Component::A, Component::A)),
                    ),
                ),
            ),
{
    piece_1();
    piece_2();
    reveal_with_fuel(show, 12);
    reveal_with_fuel(proper, 12);
    assert("(1.0 - "@ + show(a) + ".aaaa"@ + ")"@ =~= show(complement_of_alpha(a)));
}

pub open spec fn alpha_of(a: Expr) -> Expr {
    part(a, Pick::Four(Component::A, Component::A, Component::A, Component::A))
}

pub proof fn alpha_of_spelled(a: Expr)
    requires
        proper(a),
        level(a) >= 7,
    ensures
        spells_value(show(a) + ".aaaa"@, alpha_of(a)),
        level(alpha_of(a)) == level(part(a, Pick::Four(Component::A, Component::A, Component::A, Component::A))),
{
    piece_2();
    reveal_with_fuel(show, 12);
    reveal_with_fuel(proper, 12);
    assert(show(a) + ".aaaa"@ =~= show(alpha_of(a)));
}

pub open spec fn modulate(a: Expr, b: Expr) -> Expr {
    paren(prod(a, b))
}

pub proof fn modulate_spelled(a: Expr, b: Expr)
    requires
        proper(a),
        level(a) >= 7,
        proper(b),
        level(b) >= 7,
    ensures
        spells_value("("@ + show(a) + " * "@ + show(b) + ")"@, modulate(a, b)),
        level(modulate(a, b)) == level(paren(prod(a, b))),
{
    reveal_with_fuel(show, 12);
    reveal_with_fuel(proper, 12);
    assert("("@ + show(a) + " * "@ + show(b) + ")"@ =~= show(modulate(a, b)));
}

pub open spec fn modulate2x(a: Expr, b: Expr) -> Expr {
    call1(Fun1::Saturate, prod(prod(num(Number::Two), a), b))
}

pub proof fn modulate2x_spelled(a: Expr, b: Expr)
    requires
        proper(a),
        level(a) >= 7,
        proper(b),
        level(b) >= 7,
    ensures
        spells_value("saturate(2.0 * "@ + show(a) + " * "@ + show(b) + ")"@, modulate2x(a, b)),
        level(modulate2x(a, b)) == level(call1(Fun1::Saturate, prod(prod(num(Number::Two), a), b))),
{
    piece_3();
    reveal_with_fuel(show, 12);
    reveal_with_fuel(proper, 12);
    assert("saturate(2.0 * "@ + show(a) + " * "@ + show(b) + ")"@ =~= show(modulate2x(a, b)));
}

pub open spec fn modulate4x(a: Expr, b: Expr) -> Expr {
    call1(Fun1::Saturate, prod(prod(num(Number::Four), a), b))
}

pub proof fn modulate4x_spelled(a: Expr, b: Expr)
    requires
        proper(a),
        level(a) >= 7,
        proper(b),
        level(b) >= 7,
    ensures
        spells_value("saturate(4.0 * "@ + show(a) + " * "@ + show(b) + ")"@, modulate4x(a, b)),
        level(modulate4x(a, b)) == level(call1(Fun1::Saturate, prod(prod(num(Number::Four), a), b))),
{
    piece_4();
    reveal_with_fuel(show, 12);
    reveal_with_fuel(proper, 12);
    assert("saturate(4.0 * "@ + show(a) + " * "@ + show(b) + ")"@ =~= show(modulate4x(a, b)));
}

pub open spec fn clamped_sum(a: Expr, b: Expr) -> Expr {
    call1(Fun1::Saturate, sum(a, b))
}

pub proof fn clamped_sum_spelled(a: Expr, b: Expr)
    requires
        proper(a),
        level(a) >= 7,
        proper(b),
        level(b) >= 7,
    ensures
        spells_value("saturate("@ + show(a) + " + "@ + show(b) + ")"@, clamped_sum(a, b)),
        level(clamped_sum(a, b)) == level(call1(Fun1::Saturate, sum(a, b))),
{
    reveal_with_fuel(show, 12);
    reveal_with_fuel(proper, 12);
    assert("saturate("@ + show(a) + " + "@ + show(b) + ")"@ =~= show(clamped_sum(a, b)));
}

pub open spec fn signed_sum(a: Expr, b: Expr) -> Expr {
    call1(Fun1::Saturate, diff(sum(a, b), num(Number::Half)))
}

pub proof fn signed_sum_spelled(a: Expr, b: Expr)
    requires
        proper(a),
        level(a) >= 7,
        proper(b),
        level(b) >= 7,
    ensures
        spells_value("saturate("@ + show(a) + " + "@ + show(b) + " - 0.5)"@, signed_sum(a, b)),
        level(signed_sum(a, b)) == level(call1(Fun1::Saturate, diff(sum(a, b), num(Number::Half)))),
{
    piece_5();
    reveal_with_fuel(show, 12);
    reveal_with_fuel(proper, 12);
    assert("saturate("@ + show(a) + " + "@ + show(b) + " - 0.5)"@ =~= show(signed_sum(a, b)));
}

pub open spec fn signed_sum2x(a: Expr, b: Expr) -> Expr {
    call1(Fun1::Saturate, prod(num(Number::Two), paren(diff(sum(a, b), num(Number::Half)))))
}

pub proof fn signed_sum2x_spelled(a: Expr, b: Expr)
    requires
        proper(a),
        level(a) >= 7,
        proper(b),
        level(b) >= 7,
    ensures
        spells_value(
            "saturate(2.0 * ("@ + show(a) + " + "@ + show(b) + " - 0.5))"@,
            signed_sum2x(a, b),
        ),
        level(signed_sum2x(a, b)) == level(
                call1(
                    Fun1::Saturate,
                    prod(num(Number::Two), paren(diff(sum(a, b), num(Number::Half)))),
                ),
            ),
{
    piece_6();
    piece_7();
    reveal_with_fuel(show, 12);
    reveal_with_fuel(proper, 12);
    assert("saturate(2.0 * ("@ + show(a) + " + "@ + show(b) + " - 0.5))"@ =~= show(signed_sum2x(a, b)));
}

pub open spec fn clamped_difference(a: Expr, b: Expr) -> Expr {
    call1(Fun1::Saturate, diff(a, b))
}

pub proof fn clamped_difference_spelled(a: Expr, b: Expr)
    requires
        proper(a),
        level(a) >= 7,
        proper(b),
        level(b) >= 7,
    ensures
        spells_value("saturate("@ + show(a) + " - "@ + show(b) + ")"@, clamped_difference(a, b)),
        level(clamped_difference(a, b)) == level(call1(Fun1::Saturate, diff(a, b))),
{
    reveal_with_fuel(show, 12);
    reveal_with_fuel(proper, 12);
    assert("saturate("@ + show(a) + " - "@ + show(b) + ")"@ =~= show(clamped_difference(a, b)));
}

pub open spec fn smooth_sum(a: Expr, b: Expr) -> Expr {
    call1(Fun1::Saturate, sum(a, prod(b, paren(diff(num(Number::One), a)))))
}

pub proof fn smooth_sum_spelled(a: Expr, b: Expr)
    requires
        proper(a),
        level(a) >= 7,
        proper(b),
        level(b) >= 7,
    ensures
        spells_value(
            "saturate("@ + show(a) + " + "@ + show(b) + " * (1.0 - "@ + show(a) + "))"@,
            smooth_sum(a, b),
        ),
        level(smooth_sum(a, b)) == level(call1(Fun1::Saturate, sum(a, prod(b, paren(diff(num(Number::One), a)))))),
{
    piece_8();
    piece_9();
    reveal_with_fuel(show, 12);
    reveal_with_fuel(proper, 12);
    assert("saturate("@ + show(a) + " + "@ + show(b) + " * (1.0 - "@ + show(a) + "))"@
        =~= show(smooth_sum(a, b)));
}

pub open spec fn mix(a: Expr, b: Expr, by: Expr) -> Expr {
    paren(
        sum(
            prod(a, part(by, Pick::One(Component::A))),
            prod(b, paren(diff(num(Number::One), part(by, Pick::One(Component::A))))),
        ),
    )
}

pub proof fn mix_spelled(a: Expr, b: Expr, by: Expr)
    requires
        proper(a),
        level(a) >= 7,
        proper(b),
        level(b) >= 7,
        proper(by),
        level(by) >= 7,
    ensures
        spells_value(
            "("@ + show(a) + " * "@ + show(by) + ".a + "@ + show(b) + " * (1.0 - "@ + show(by)
                + ".a))"@,
            mix(a, b, by),
        ),
        level(mix(a, b, by)) == level(
                paren(
                    sum(
                        prod(a, part(by, Pick::One(Component::A))),
                        prod(b, paren(diff(num(Number::One), part(by, Pick::One(Component::A))))),
                    ),
                ),
            ),
{
    piece_10();
    piece_8();
    piece_11();
    reveal_with_fuel(show, 12);
    reveal_with_fuel(proper, 12);
    let x1 = show(a) + " * "@;
    let x2 = "."@ + "a"@;
    let x3 = show(by) + x2;
    let x4 = x1 + x3;
    let x5 = x4 + " + "@;
    let x6 = show(b) + " * "@;
    let x7 = "1.0"@ + " - "@;
    let x8 = x7 + x3;
    let x9 = "("@ + x8;
    let x10 = x9 + ")"@;
    let x11 = x6 + x10;
    let x12 = x5 + x11;
    let x13 = "("@ + x12;
    let x14 = x13 + ")"@;
    let x15 = "("@ + x5;
    let x16 = x15 + x11;
    regrouped("("@, x5, x11);
    let x17 = "("@ + x4;
    let x18 = x17 + " + "@;
    regrouped("("@, x4, " + "@);
    let x19 = "("@ + x1;
    let x20 = x19 + x3;
    regrouped("("@, x1, x3);
    let x21 = "("@ + show(a);
    let x22 = x21 + " * "@;
    regrouped("("@, show(a), " * "@);
    let x23 = x22 + x3;
    let x24 = x22 + show(by);
    let x25 = x24 + x2;
    regrouped(x22, show(by), x2);
    let x26 = x24 + "."@;
    let x27 = x26 + "a"@;
    regrouped(x24, "."@, "a"@);
    let x28 = x27 + " + "@;
    let x29 = x28 + x11;
    let x30 = x28 + x6;
    let x31 = x30 + x10;
    regrouped(x28, x6, x10);
    let x32 = x28 + show(b);
    let x33 = x32 + " * "@;
    regrouped(x28, show(b), " * "@);
    let x34 = x33 + x10;
    let x35 = x33 + x9;
    let x36 = x35 + ")"@;
    regrouped(x33, x9, ")"@);
    let x37 = x33 + "("@;
    let x38 = x37 + x8;
    regrouped(x33, "("@, x8);
    let x39 = x37 + x7;
    let x40 = x39 + x3;
    regrouped(x37, x7, x3);
    let x41 = x37 + "1.0"@;
    let x42 = x41 + " - "@;
    regrouped(x37, "1.0"@, " - "@);
    let x43 = x42 + x3;
    let x44 = x42 + show(by);
    let x45 = x44 + x2;
    regrouped(x42, show(by), x2);
    let x46 = x44 + "."@;
    let x47 = x46 + "a"@;
    regrouped(x44, "."@, "a"@);
    let x48 = x47 + ")"@;
    let x49 = x48 + ")"@;
    let x50 = x2 + " + "@;
    let x51 = x24 + x50;
    let x52 = x51 + show(b);
    let x53 = " * "@ + "("@;
    let x54 = x53 + "1.0"@;
    let x55 = x54 + " - "@;
    let x56 = x52 + x55;
    let x57 = x56 + show(by);
    let x58 = x2 + ")"@;
    let x59 = x58 + ")"@;
    let x60 = x57 + x59;
    let x61 = x25 + " + "@;
    regrouped(x24, x2, " + "@);
    let x62 = x32 + x55;
    let x63 = x32 + x54;
    let x64 = x63 + " - "@;
    regrouped(x32, x54, " - "@);
    let x65 = x32 + x53;
    let x66 = x65 + "1.0"@;
    regrouped(x32, x53, "1.0"@);
    regrouped(x32, " * "@, "("@);
    let x67 = x44 + x59;
    let x68 = x44 + x58;
    let x69 = x68 + ")"@;
    regrouped(x44, x58, ")"@);
    let x70 = x45 + ")"@;
    regrouped(x44, x2, ")"@);
}

pub open spec fn dot3(a: Expr, b: Expr) -> Expr {
    make(
        4,
        call1(
            Fun1::Saturate,
            prod(
                num(Number::Four),
                call2(
                    Fun2::Dot,
                    diff(
                        part(paren(a), Pick::Three(Component::R, Component::G, Component::B)),
                        num(Number::Half),
                    ),
                    diff(
                        part(paren(b), Pick::Three(Component::R, Component::G, Component::B)),
                        num(Number::Half),
                    ),
                ),
            ),
        ),
    )
}

pub proof fn dot3_spelled(a: Expr, b: Expr)
    requires
        proper(a),
        level(a) >= 7,
        proper(b),
        level(b) >= 7,
    ensures
        spells_value(
            "float4(saturate(4.0 * dot(("@ + show(a) + ").rgb - 0.5, ("@ + show(b)
                + ").rgb - 0.5)))"@,
            dot3(a, b),
        ),
        level(dot3(a, b)) == level(
                make(
                    4,
                    call1(
                        Fun1::Saturate,
                        prod(
                            num(Number::Four),
                            call2(
                                Fun2::Dot,
                                diff(
                                    part(
                                        paren(a),
                                        Pick::Three(Component::R, Component::G, Component::B),
                                    ),
                                    num(Number::Half),
                                ),
                                diff(
                                    part(
                                        paren(b),
                                        Pick::Three(Component::R, Component::G, Component::B),
                                    ),
                                    num(Number::Half),
                                ),
                            ),
                        ),
                    ),
                ),
            ),
{
    piece_12();
    piece_13();
    piece_14();
    reveal_with_fuel(show, 12);
    reveal_with_fuel(proper, 12);
    let x1 = "float4"@ + "("@;
    let x2 = "4.0"@ + " * "@;
    let x3 = "("@ + show(a);
    let x4 = x3 + ")"@;
    let x5 = "."@ + "r"@;
    let x6 = x5 + "g"@;
    let x7 = x6 + "b"@;
    let x8 = x4 + x7;
    let x9 = x8 + " - "@;
    let x10 = x9 + "0.5"@;
    let x11 = "dot("@ + x10;
    let x12 = x11 + ", "@;
    let x13 = "("@ + show(b);
    let x14 = x13 + ")"@;
    let x15 = x14 + x7;
    let x16 = x15 + " - "@;
    let x17 = x16 + "0.5"@;
    let x18 = x12 + x17;
    let x19 = x18 + ")"@;
    let x20 = x2 + x19;
    let x21 = "saturate("@ + x20;
    let x22 = x21 + ")"@;
    let x23 = x1 + x22;
    let x24 = x23 + ")"@;
    let x25 = x1 + x21;
    let x26 = x25 + ")"@;
    regrouped(x1, x21, ")"@);
    let x27 = x1 + "saturate("@;
    let x28 = x27 + x20;
    regrouped(x1, "saturate("@, x20);
    let x29 = x27 + x2;
    let x30 = x29 + x19;
    regrouped(x27, x2, x19);
    let x31 = x27 + "4.0"@;
    let x32 = x31 + " * "@;
    regrouped(x27, "4.0"@, " * "@);
    let x33 = x32 + x19;
    let x34 = x32 + x18;
    let x35 = x34 + ")"@;
    regrouped(x32, x18, ")"@);
    let x36 = x32 + x12;
    let x37 = x36 + x17;
    regrouped(x32, x12, x17);
    let x38 = x32 + x11;
    let x39 = x38 + ", "@;
    regrouped(x32, x11, ", "@);
    let x40 = x32 + "dot("@;
    let x41 = x40 + x10;
    regrouped(x32, "dot("@, x10);
    let x42 = x40 + x9;
    let x43 = x42 + "0.5"@;
    regrouped(x40, x9, "0.5"@);
    let x44 = x40 + x8;
    let x45 = x44 + " - "@;
    regrouped(x40, x8, " - "@);
    let x46 = x40 + x4;
    let x47 = x46 + x7;
    regrouped(x40, x4, x7);
    let x48 = x40 + x3;
    let x49 = x48 + ")"@;
    regrouped(x40, x3, ")"@);
    let x50 = x40 + "("@;
    let x51 = x50 + show(a);
    regrouped(x40, "("@, show(a));
    let x52 = x51 + ")"@;
    let x53 = x52 + x7;
    let x54 = x52 + x6;
    let x55 = x54 + "b"@;
    regrouped(x52, x6, "b"@);
    let x56 = x52 + x5;
    let x57 = x56 + "g"@;
    regrouped(x52, x5, "g"@);
    let x58 = x52 + "."@;
    let x59 = x58 + "r"@;
    regrouped(x52, "."@, "r"@);
    let x60 = x59 + "g"@;
    let x61 = x60 + "b"@;
    let x62 = x61 + " - "@;
    let x63 = x62 + "0.5"@;
    let x64 = x63 + ", "@;
    let x65 = x64 + x17;
    let x66 = x64 + x16;
    let x67 = x66 + "0.5"@;
    regrouped(x64, x16, "0.5"@);
    let x68 = x64 + x15;
    let x69 = x68 + " - "@;
    regrouped(x64, x15, " - "@);
    let x70 = x64 + x14;
    let x71 = x70 + x7;
    regrouped(x64, x14, x7);
    let x72 = x64 + x13;
    let x73 = x72 + ")"@;
    regrouped(x64, x13, ")"@);
    let x74 = x64 + "("@;
    let x75 = x74 + show(b);
    regrouped(x64, "("@, show(b));
    let x76 = x75 + ")"@;
    let x77 = x76 + x7;
    let x78 = x76 + x6;
    let x79 = x78 + "b"@;
    regrouped(x76, x6, "b"@);
    let x80 = x76 + x5;
    let x81 = x80 + "g"@;
    regrouped(x76, x5, "g"@);
    let x82 = x76 + "."@;
    let x83 = x82 + "r"@;
    regrouped(x76, "."@, "r"@);
    let x84 = x83 + "g"@;
    let x85 = x84 + "b"@;
    let x86 = x85 + " - "@;
    let x87 = x86 + "0.5"@;
    let x88 = x87 + ")"@;
    let x89 = x88 + ")"@;
    let x90 = x89 + ")"@;
    let x91 = ")"@ + "."@;
    let x92 = x91 + "r"@;
    let x93 = x92 + "g"@;
    let x94 = x93 + "b"@;
    let x95 = x94 + " - "@;
    let x96 = x95 + "0.5"@;
    let x97 = x96 + ", "@;
    let x98 = x97 + "("@;
    let x99 = x51 + x98;
    let x100 = x99 + show(b);
    let x101 = x96 + ")"@;
    let x102 = x101 + ")"@;
    let x103 = x102 + ")"@;
    let x104 = x100 + x103;
    let x105 = x51 + x97;
    let x106 = x105 + "("@;
    regrouped(x51, x97, "("@);
    let x107 = x51 + x96;
    let x108 = x107 + ", "@;
    regrouped(x51, x96, ", "@);
    let x109 = x51 + x95;
    let x110 = x109 + "0.5"@;
    regrouped(x51, x95, "0.5"@);
    let x111 = x51 + x94;
    let x112 = x111 + " - "@;
    regrouped(x51, x94, " - "@);
    let x113 = x51 + x93;
    let x114 = x113 + "b"@;
    regrouped(x51, x93, "b"@);
    let x115 = x51 + x92;
    let x116 = x115 + "g"@;
    regrouped(x51, x92, "g"@);
    let x117 = x51 + x91;
    let x118 = x117 + "r"@;
    regrouped(x51, x91, "r"@);
    regrouped(x51, ")"@, "."@);
    let x119 = x75 + x103;
    let x120 = x75 + x102;
    let x121 = x120 + ")"@;
    regrouped(x75, x102, ")"@);
    let x122 = x75 + x101;
    let x123 = x122 + ")"@;
    regrouped(x75, x101, ")"@);
    let x124 = x75 + x96;
    let x125 = x124 + ")"@;
    regrouped(x75, x96, ")"@);
    let x126 = x75 + x95;
    let x127 = x126 + "0.5"@;
    regrouped(x75, x95, "0.5"@);
    let x128 = x75 + x94;
    let x129 = x128 + " - "@;
    regrouped(x75, x94, " - "@);
    let x130 = x75 + x93;
    let x131 = x130 + "b"@;
    regrouped(x75, x93, "b"@);
    let x132 = x75 + x92;
    let x133 = x132 + "g"@;
    regrouped(x75, x92, "g"@);
    let x134 = x75 + x91;
    let x135 = x134 + "r"@;
    regrouped(x75, x91, "r"@);
    regrouped(x75, ")"@, "."@);
}

pub open spec fn set_current(c: Expr, a: Expr) -> Stmt {
    Stmt::Assign(
        Name::Current,
        make(
            4,
            list(
                part(paren(c), Pick::Three(Component::R, Component::G, Component::B)),
                part(paren(a), Pick::One(Component::A)),
            ),
        ),
    )
}

pub proof fn set_current_spelled(c: Expr, a: Expr)
    requires
        proper(c),
        level(c) >= 1,
        proper(a),
        level(a) >= 1,
    ensures
        spells(
            Seq::<char>::empty() + "    current = float4(("@ + show(c) + ").rgb, ("@ + show(a)
                + ").a);\n"@,
            set_current(c, a),
            1,
        ),
{
    piece_15();
    piece_16();
    piece_17();
    reveal_with_fuel(show, 12);
    reveal_with_fuel(proper, 12);
    let x1 = "current"@ + " = "@;
    let x2 = "float4"@ + "("@;
    let x3 = "("@ + show(c);
    let x4 = x3 + ")"@;
    let x5 = "."@ + "r"@;
    let x6 = x5 + "g"@;
    let x7 = x6 + "b"@;
    let x8 = x4 + x7;
    let x9 = x8 + ", "@;
    let x10 = "("@ + show(a);
    let x11 = x10 + ")"@;
    let x12 = "."@ + "a"@;
    let x13 = x11 + x12;
    let x14 = x9 + x13;
    let x15 = x2 + x14;
    let x16 = x15 + ")"@;
    let x17 = x1 + x16;
    let x18 = x17 + ";"@;
    let x19 = "    "@ + x18;
    let x20 = x19 + "\n"@;
    let x21 = "    "@ + x17;
    let x22 = x21 + ";"@;
    regrouped("    "@, x17, ";"@);
    let x23 = "    "@ + x1;
    let x24 = x23 + x16;
    regrouped("    "@, x1, x16);
    let x25 = "    "@ + "current"@;
    let x26 = x25 + " = "@;
    regrouped("    "@, "current"@, " = "@);
    let x27 = x26 + x16;
    let x28 = x26 + x15;
    let x29 = x28 + ")"@;
    regrouped(x26, x15, ")"@);
    let x30 = x26 + x2;
    let x31 = x30 + x14;
    regrouped(x26, x2, x14);
    let x32 = x26 + "float4"@;
    let x33 = x32 + "("@;
    regrouped(x26, "float4"@, "("@);
    let x34 = x33 + x14;
    let x35 = x33 + x9;
    let x36 = x35 + x13;
    regrouped(x33, x9, x13);
    let x37 = x33 + x8;
    let x38 = x37 + ", "@;
    regrouped(x33, x8, ", "@);
    let x39 = x33 + x4;
    let x40 = x39 + x7;
    regrouped(x33, x4, x7);
    let x41 = x33 + x3;
    let x42 = x41 + ")"@;
    regrouped(x33, x3, ")"@);
    let x43 = x33 + "("@;
    let x44 = x43 + show(c);
    regrouped(x33, "("@, show(c));
    let x45 = x44 + ")"@;
    let x46 = x45 + x7;
    let x47 = x45 + x6;
    let x48 = x47 + "b"@;
    regrouped(x45, x6, "b"@);
    let x49 = x45 + x5;
    let x50 = x49 + "g"@;
    regrouped(x45, x5, "g"@);
    let x51 = x45 + "."@;
    let x52 = x51 + "r"@;
    regrouped(x45, "."@, "r"@);
    let x53 = x52 + "g"@;
    let x54 = x53 + "b"@;
    let x55 = x54 + ", "@;
    let x56 = x55 + x13;
    let x57 = x55 + x11;
    let x58 = x57 + x12;
    regrouped(x55, x11, x12);
    let x59 = x55 + x10;
    let x60 = x59 + ")"@;
    regrouped(x55, x10, ")"@);
    let x61 = x55 + "("@;
    let x62 = x61 + show(a);
    regrouped(x55, "("@, show(a));
    let x63 = x62 + ")"@;
    let x64 = x63 + x12;
    let x65 = x63 + "."@;
    let x66 = x65 + "a"@;
    regrouped(x63, "."@, "a"@);
    let x67 = x66 + ")"@;
    let x68 = x67 + ";"@;
    let x69 = x68 + "\n"@;
    let x70 = ")"@ + "."@;
    let x71 = x70 + "r"@;
    let x72 = x71 + "g"@;
    let x73 = x72 + "b"@;
    let x74 = x73 + ", "@;
    let x75 = x74 + "("@;
    let x76 = x44 + x75;
    let x77 = x76 + show(a);
    let x78 = x70 + "a"@;
    let x79 = x78 + ")"@;
    let x80 = x79 + ";"@;
    let x81 = x80 + "\n"@;
    let x82 = x77 + x81;
    let x83 = x44 + x74;
    let x84 = x83 + "("@;
    regrouped(x44, x74, "("@);
    let x85 = x44 + x73;
    let x86 = x85 + ", "@;
    regrouped(x44, x73, ", "@);
    let x87 = x44 + x72;
    let x88 = x87 + "b"@;
    regrouped(x44, x72, "b"@);
    let x89 = x44 + x71;
    let x90 = x89 + "g"@;
    regrouped(x44, x71, "g"@);
    let x91 = x44 + x70;
    let x92 = x91 + "r"@;
    regrouped(x44, x70, "r"@);
    regrouped(x44, ")"@, "."@);
    let x93 = x62 + x81;
    let x94 = x62 + x80;
    let x95 = x94 + "\n"@;
    regrouped(x62, x80, "\n"@);
    let x96 = x62 + x79;
    let x97 = x96 + ";"@;
    regrouped(x62, x79, ";"@);
    let x98 = x62 + x78;
    let x99 = x98 + ")"@;
    regrouped(x62, x78, ")"@);
    let x100 = x62 + x70;
    let x101 = x100 + "a"@;
    regrouped(x62, x70, "a"@);
    regrouped(x62, ")"@, "."@);
    assert(Seq::<char>::empty() + x43 =~= x43);
}

} // verus!
