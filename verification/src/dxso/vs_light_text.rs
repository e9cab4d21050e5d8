//! How the statements that light a vertex are spelled.

use super::shading::{
    bin, call1, call2, call3, cond, diff, level, list, listing, make, neg, num, paren, part, prod,
    proper, quot, regrouped, same_chars, same_each, short_numbers, show, spells, spells_value, sum,
    var, Component, Expr, Fun1, Fun2, Fun3, Name, Number, Op, Pick, Stmt,
};
use crate::text::dec;
use vstd::prelude::*;

verus! {

proof fn piece_1()
    ensures
        "    float3 n = (abs(nwvdet) > 1e-12)\n"@ == "    "@ + "float3"@ + " "@ + "n"@ + " = "@ + "("@ + "abs("@ + "nwvdet"@ + ")"@ + " > "@
                + "1e-12"@ + ")"@ + "\n"@,
{
    reveal_strlit("    float3 n = (abs(nwvdet) > 1e-12)\n");
    reveal_strlit("    ");
    reveal_strlit("float3");
    reveal_strlit(" ");
    reveal_strlit("n");
    reveal_strlit(" = ");
    reveal_strlit("(");
    reveal_strlit("abs(");
    reveal_strlit("nwvdet");
    reveal_strlit(")");
    reveal_strlit(" > ");
    reveal_strlit("1e-12");
    reveal_strlit("\n");
    reveal_with_fuel(same_chars, 17);
    let a = "    float3 n = (abs(nwvdet) > 1e-12)\n"@;
    let b = "    "@ + "float3"@ + " "@ + "n"@ + " = "@ + "("@ + "abs("@ + "nwvdet"@ + ")"@ + " > "@
        + "1e-12"@ + ")"@ + "\n"@;
    assert(a.len() == b.len());
    same_each(a, b, 0, 15);
    same_each(a, b, 15, 30);
    same_each(a, b, 30, 37);
    assert(a =~= b);
}

proof fn piece_2()
    ensures
        " / nwvdet\n"@ == " / "@ + "nwvdet"@ + "\n"@,
{
    reveal_strlit(" / nwvdet\n");
    reveal_strlit(" / ");
    reveal_strlit("nwvdet");
    reveal_strlit("\n");
    reveal_with_fuel(same_chars, 12);
    let a = " / nwvdet\n"@;
    let b = " / "@ + "nwvdet"@ + "\n"@;
    assert(a.len() == b.len());
    same_each(a, b, 0, 10);
    assert(a =~= b);
}

proof fn piece_3()
    ensures
        ";\n"@ == ";"@ + "\n"@,
{
    reveal_strlit(";\n");
    reveal_strlit(";");
    reveal_strlit("\n");
    reveal_with_fuel(same_chars, 4);
    let a = ";\n"@;
    let b = ";"@ + "\n"@;
    assert(a.len() == b.len());
    same_each(a, b, 0, 2);
    assert(a =~= b);
}

pub proof fn inverse_line()
    ensures
        "        ? float3(dot(nadj0.xyz, in.v1.xyz), dot(nadj1.xyz, in.v1.xyz), dot(nadj2.xyz, in.v1.xyz)) / nwvdet\n"@
            == "        ? "@
                   + "float3(dot(nadj0.xyz, in.v1.xyz), dot(nadj1.xyz, in.v1.xyz), dot(nadj2.xyz, in.v1.xyz))"@
                   + " / nwvdet\n"@,
{
    reveal_strlit("        ? float3(dot(nadj0.xyz, in.v1.xyz), dot(nadj1.xyz, in.v1.xyz), dot(nadj2.xyz, in.v1.xyz)) / nwvdet\n");
    reveal_strlit("        ? ");
    reveal_strlit("float3(dot(nadj0.xyz, in.v1.xyz), dot(nadj1.xyz, in.v1.xyz), dot(nadj2.xyz, in.v1.xyz))");
    reveal_strlit(" / nwvdet\n");
    reveal_with_fuel(same_chars, 17);
    let a = "        ? float3(dot(nadj0.xyz, in.v1.xyz), dot(nadj1.xyz, in.v1.xyz), dot(nadj2.xyz, in.v1.xyz)) / nwvdet\n"@;
    let b = "        ? "@
        + "float3(dot(nadj0.xyz, in.v1.xyz), dot(nadj1.xyz, in.v1.xyz), dot(nadj2.xyz, in.v1.xyz))"@
        + " / nwvdet\n"@;
    assert(a.len() == b.len());
    same_each(a, b, 0, 15);
    same_each(a, b, 15, 30);
    same_each(a, b, 30, 45);
    same_each(a, b, 45, 60);
    same_each(a, b, 60, 75);
    same_each(a, b, 75, 90);
    same_each(a, b, 90, 105);
    same_each(a, b, 105, 107);
    assert(a =~= b);
}

pub proof fn transpose_line()
    ensures
        "        : float3(dot(float3(vs_c[0].x, vs_c[1].x, vs_c[2].x), in.v1.xyz), dot(float3(vs_c[0].y, vs_c[1].y, vs_c[2].y), in.v1.xyz), dot(float3(vs_c[0].z, vs_c[1].z, vs_c[2].z), in.v1.xyz));\n"@
            == "        : "@
                   + "float3(dot(float3(vs_c[0].x, vs_c[1].x, vs_c[2].x), in.v1.xyz), dot(float3(vs_c[0].y, vs_c[1].y, vs_c[2].y), in.v1.xyz), dot(float3(vs_c[0].z, vs_c[1].z, vs_c[2].z), in.v1.xyz))"@
                   + ";\n"@,
{
    reveal_strlit("        : float3(dot(float3(vs_c[0].x, vs_c[1].x, vs_c[2].x), in.v1.xyz), dot(float3(vs_c[0].y, vs_c[1].y, vs_c[2].y), in.v1.xyz), dot(float3(vs_c[0].z, vs_c[1].z, vs_c[2].z), in.v1.xyz));\n");
    reveal_strlit("        : ");
    reveal_strlit("float3(dot(float3(vs_c[0].x, vs_c[1].x, vs_c[2].x), in.v1.xyz), dot(float3(vs_c[0].y, vs_c[1].y, vs_c[2].y), in.v1.xyz), dot(float3(vs_c[0].z, vs_c[1].z, vs_c[2].z), in.v1.xyz))");
    reveal_strlit(";\n");
    reveal_with_fuel(same_chars, 17);
    let a = "        : float3(dot(float3(vs_c[0].x, vs_c[1].x, vs_c[2].x), in.v1.xyz), dot(float3(vs_c[0].y, vs_c[1].y, vs_c[2].y), in.v1.xyz), dot(float3(vs_c[0].z, vs_c[1].z, vs_c[2].z), in.v1.xyz));\n"@;
    let b = "        : "@
        + "float3(dot(float3(vs_c[0].x, vs_c[1].x, vs_c[2].x), in.v1.xyz), dot(float3(vs_c[0].y, vs_c[1].y, vs_c[2].y), in.v1.xyz), dot(float3(vs_c[0].z, vs_c[1].z, vs_c[2].z), in.v1.xyz))"@
        + ";\n"@;
    assert(a.len() == b.len());
    same_each(a, b, 0, 15);
    same_each(a, b, 15, 30);
    same_each(a, b, 30, 45);
    same_each(a, b, 45, 60);
    same_each(a, b, 60, 75);
    same_each(a, b, 75, 90);
    same_each(a, b, 90, 105);
    same_each(a, b, 105, 120);
    same_each(a, b, 120, 135);
    same_each(a, b, 135, 150);
    same_each(a, b, 150, 165);
    same_each(a, b, 165, 180);
    same_each(a, b, 180, 189);
    assert(a =~= b);
}

proof fn piece_6()
    ensures
        "        float3 L = -vs_c["@ == "        "@ + "float3"@ + " "@ + "L"@ + " = "@ + "-"@ + "vs_c["@,
{
    reveal_strlit("        float3 L = -vs_c[");
    reveal_strlit("        ");
    reveal_strlit("float3");
    reveal_strlit(" ");
    reveal_strlit("L");
    reveal_strlit(" = ");
    reveal_strlit("-");
    reveal_strlit("vs_c[");
    reveal_with_fuel(same_chars, 27);
    let a = "        float3 L = -vs_c["@;
    let b = "        "@ + "float3"@ + " "@ + "L"@ + " = "@ + "-"@ + "vs_c["@;
    assert(a.len() == b.len());
    same_each(a, b, 0, 25);
    assert(a =~= b);
}

proof fn piece_7()
    ensures
        "].xyz;\n"@ == "]"@ + "."@ + "x"@ + "y"@ + "z"@ + ";"@ + "\n"@,
{
    reveal_strlit("].xyz;\n");
    reveal_strlit("]");
    reveal_strlit(".");
    reveal_strlit("x");
    reveal_strlit("y");
    reveal_strlit("z");
    reveal_strlit(";");
    reveal_strlit("\n");
    reveal_with_fuel(same_chars, 9);
    let a = "].xyz;\n"@;
    let b = "]"@ + "."@ + "x"@ + "y"@ + "z"@ + ";"@ + "\n"@;
    assert(a.len() == b.len());
    same_each(a, b, 0, 7);
    assert(a =~= b);
}

proof fn piece_8()
    ensures
        "        float rho = dot(-L, vs_c["@ == "        "@ + "float"@ + " "@ + "rho"@ + " = "@ + "dot("@ + "-"@ + "L"@ + ", "@
                + "vs_c["@,
{
    reveal_strlit("        float rho = dot(-L, vs_c[");
    reveal_strlit("        ");
    reveal_strlit("float");
    reveal_strlit(" ");
    reveal_strlit("rho");
    reveal_strlit(" = ");
    reveal_strlit("dot(");
    reveal_strlit("-");
    reveal_strlit("L");
    reveal_strlit(", ");
    reveal_strlit("vs_c[");
    reveal_with_fuel(same_chars, 17);
    let a = "        float rho = dot(-L, vs_c["@;
    let b = "        "@ + "float"@ + " "@ + "rho"@ + " = "@ + "dot("@ + "-"@ + "L"@ + ", "@
        + "vs_c["@;
    assert(a.len() == b.len());
    same_each(a, b, 0, 15);
    same_each(a, b, 15, 30);
    same_each(a, b, 30, 33);
    assert(a =~= b);
}

proof fn piece_9()
    ensures
        "].xyz);\n"@ == "]"@ + "."@ + "x"@ + "y"@ + "z"@ + ")"@ + ";"@ + "\n"@,
{
    reveal_strlit("].xyz);\n");
    reveal_strlit("]");
    reveal_strlit(".");
    reveal_strlit("x");
    reveal_strlit("y");
    reveal_strlit("z");
    reveal_strlit(")");
    reveal_strlit(";");
    reveal_strlit("\n");
    reveal_with_fuel(same_chars, 10);
    let a = "].xyz);\n"@;
    let b = "]"@ + "."@ + "x"@ + "y"@ + "z"@ + ")"@ + ";"@ + "\n"@;
    assert(a.len() == b.len());
    same_each(a, b, 0, 8);
    assert(a =~= b);
}

proof fn piece_10()
    ensures
        "        atten *= pow(saturate(rho * vs_c["@ == "        "@ + "atten"@ + " *= "@ + "pow("@ + "saturate("@ + "rho"@ + " * "@ + "vs_c["@,
{
    reveal_strlit("        atten *= pow(saturate(rho * vs_c[");
    reveal_strlit("        ");
    reveal_strlit("atten");
    reveal_strlit(" *= ");
    reveal_strlit("pow(");
    reveal_strlit("saturate(");
    reveal_strlit("rho");
    reveal_strlit(" * ");
    reveal_strlit("vs_c[");
    reveal_with_fuel(same_chars, 17);
    let a = "        atten *= pow(saturate(rho * vs_c["@;
    let b = "        "@ + "atten"@ + " *= "@ + "pow("@ + "saturate("@ + "rho"@ + " * "@ + "vs_c["@;
    assert(a.len() == b.len());
    same_each(a, b, 0, 15);
    same_each(a, b, 15, 30);
    same_each(a, b, 30, 41);
    assert(a =~= b);
}

proof fn piece_11()
    ensures
        "].w + vs_c["@ == "]"@ + "."@ + "w"@ + " + "@ + "vs_c["@,
{
    reveal_strlit("].w + vs_c[");
    reveal_strlit("]");
    reveal_strlit(".");
    reveal_strlit("w");
    reveal_strlit(" + ");
    reveal_strlit("vs_c[");
    reveal_with_fuel(same_chars, 13);
    let a = "].w + vs_c["@;
    let b = "]"@ + "."@ + "w"@ + " + "@ + "vs_c["@;
    assert(a.len() == b.len());
    same_each(a, b, 0, 11);
    assert(a =~= b);
}

proof fn piece_12()
    ensures
        "].w), vs_c["@ == "]"@ + "."@ + "w"@ + ")"@ + ", "@ + "vs_c["@,
{
    reveal_strlit("].w), vs_c[");
    reveal_strlit("]");
    reveal_strlit(".");
    reveal_strlit("w");
    reveal_strlit(")");
    reveal_strlit(", ");
    reveal_strlit("vs_c[");
    reveal_with_fuel(same_chars, 13);
    let a = "].w), vs_c["@;
    let b = "]"@ + "."@ + "w"@ + ")"@ + ", "@ + "vs_c["@;
    assert(a.len() == b.len());
    same_each(a, b, 0, 11);
    assert(a =~= b);
}

proof fn piece_13()
    ensures
        "].w);\n"@ == "]"@ + "."@ + "w"@ + ")"@ + ";"@ + "\n"@,
{
    reveal_strlit("].w);\n");
    reveal_strlit("]");
    reveal_strlit(".");
    reveal_strlit("w");
    reveal_strlit(")");
    reveal_strlit(";");
    reveal_strlit("\n");
    reveal_with_fuel(same_chars, 8);
    let a = "].w);\n"@;
    let b = "]"@ + "."@ + "w"@ + ")"@ + ";"@ + "\n"@;
    assert(a.len() == b.len());
    same_each(a, b, 0, 6);
    assert(a =~= b);
}

proof fn piece_14()
    ensures
        "        float3 toL = vs_c["@ == "        "@ + "float3"@ + " "@ + "toL"@ + " = "@ + "vs_c["@,
{
    reveal_strlit("        float3 toL = vs_c[");
    reveal_strlit("        ");
    reveal_strlit("float3");
    reveal_strlit(" ");
    reveal_strlit("toL");
    reveal_strlit(" = ");
    reveal_strlit("vs_c[");
    reveal_with_fuel(same_chars, 28);
    let a = "        float3 toL = vs_c["@;
    let b = "        "@ + "float3"@ + " "@ + "toL"@ + " = "@ + "vs_c["@;
    assert(a.len() == b.len());
    same_each(a, b, 0, 26);
    assert(a =~= b);
}

proof fn piece_15()
    ensures
        "].xyz - posEye;\n"@ == "]"@ + "."@ + "x"@ + "y"@ + "z"@ + " - "@ + "posEye"@ + ";"@ + "\n"@,
{
    reveal_strlit("].xyz - posEye;\n");
    reveal_strlit("]");
    reveal_strlit(".");
    reveal_strlit("x");
    reveal_strlit("y");
    reveal_strlit("z");
    reveal_strlit(" - ");
    reveal_strlit("posEye");
    reveal_strlit(";");
    reveal_strlit("\n");
    reveal_with_fuel(same_chars, 18);
    let a = "].xyz - posEye;\n"@;
    let b = "]"@ + "."@ + "x"@ + "y"@ + "z"@ + " - "@ + "posEye"@ + ";"@ + "\n"@;
    assert(a.len() == b.len());
    same_each(a, b, 0, 16);
    assert(a =~= b);
}

proof fn piece_16()
    ensures
        "        float4 atten_k = vs_c["@ == "        "@ + "float4"@ + " "@ + "atten_k"@ + " = "@ + "vs_c["@,
{
    reveal_strlit("        float4 atten_k = vs_c[");
    reveal_strlit("        ");
    reveal_strlit("float4");
    reveal_strlit(" ");
    reveal_strlit("atten_k");
    reveal_strlit(" = ");
    reveal_strlit("vs_c[");
    reveal_with_fuel(same_chars, 32);
    let a = "        float4 atten_k = vs_c["@;
    let b = "        "@ + "float4"@ + " "@ + "atten_k"@ + " = "@ + "vs_c["@;
    assert(a.len() == b.len());
    same_each(a, b, 0, 30);
    assert(a =~= b);
}

proof fn piece_17()
    ensures
        "];\n"@ == "]"@ + ";"@ + "\n"@,
{
    reveal_strlit("];\n");
    reveal_strlit("]");
    reveal_strlit(";");
    reveal_strlit("\n");
    reveal_with_fuel(same_chars, 5);
    let a = "];\n"@;
    let b = "]"@ + ";"@ + "\n"@;
    assert(a.len() == b.len());
    same_each(a, b, 0, 3);
    assert(a =~= b);
}

proof fn piece_18()
    ensures
        "        diffuseAccum += atten * ndotl * (vs_c["@ == "        "@ + "diffuseAccum"@ + " += "@ + "atten"@ + " * "@ + "ndotl"@ + " * "@ + "("@
                + "vs_c["@,
{
    reveal_strlit("        diffuseAccum += atten * ndotl * (vs_c[");
    reveal_strlit("        ");
    reveal_strlit("diffuseAccum");
    reveal_strlit(" += ");
    reveal_strlit("atten");
    reveal_strlit(" * ");
    reveal_strlit("ndotl");
    reveal_strlit("(");
    reveal_strlit("vs_c[");
    reveal_with_fuel(same_chars, 17);
    let a = "        diffuseAccum += atten * ndotl * (vs_c["@;
    let b = "        "@ + "diffuseAccum"@ + " += "@ + "atten"@ + " * "@ + "ndotl"@ + " * "@ + "("@
        + "vs_c["@;
    assert(a.len() == b.len());
    same_each(a, b, 0, 15);
    same_each(a, b, 15, 30);
    same_each(a, b, 30, 45);
    same_each(a, b, 45, 46);
    assert(a =~= b);
}

proof fn piece_19()
    ensures
        "] * "@ == "]"@ + " * "@,
{
    reveal_strlit("] * ");
    reveal_strlit("]");
    reveal_strlit(" * ");
    reveal_with_fuel(same_chars, 6);
    let a = "] * "@;
    let b = "]"@ + " * "@;
    assert(a.len() == b.len());
    same_each(a, b, 0, 4);
    assert(a =~= b);
}

proof fn piece_20()
    ensures
        ");\n"@ == ")"@ + ";"@ + "\n"@,
{
    reveal_strlit(");\n");
    reveal_strlit(")");
    reveal_strlit(";");
    reveal_strlit("\n");
    reveal_with_fuel(same_chars, 5);
    let a = ");\n"@;
    let b = ")"@ + ";"@ + "\n"@;
    assert(a.len() == b.len());
    same_each(a, b, 0, 3);
    assert(a =~= b);
}

proof fn piece_21()
    ensures
        "        diffuseAccum += atten * (vs_c["@ == "        "@ + "diffuseAccum"@ + " += "@ + "atten"@ + " * "@ + "("@ + "vs_c["@,
{
    reveal_strlit("        diffuseAccum += atten * (vs_c[");
    reveal_strlit("        ");
    reveal_strlit("diffuseAccum");
    reveal_strlit(" += ");
    reveal_strlit("atten");
    reveal_strlit(" * ");
    reveal_strlit("(");
    reveal_strlit("vs_c[");
    reveal_with_fuel(same_chars, 17);
    let a = "        diffuseAccum += atten * (vs_c["@;
    let b = "        "@ + "diffuseAccum"@ + " += "@ + "atten"@ + " * "@ + "("@ + "vs_c["@;
    assert(a.len() == b.len());
    same_each(a, b, 0, 15);
    same_each(a, b, 15, 30);
    same_each(a, b, 30, 38);
    assert(a =~= b);
}

proof fn piece_22()
    ensures
        "        specAccum += atten * specFactor * (vs_c["@ == "        "@ + "specAccum"@ + " += "@ + "atten"@ + " * "@ + "specFactor"@ + " * "@
                + "("@ + "vs_c["@,
{
    reveal_strlit("        specAccum += atten * specFactor * (vs_c[");
    reveal_strlit("        ");
    reveal_strlit("specAccum");
    reveal_strlit(" += ");
    reveal_strlit("atten");
    reveal_strlit(" * ");
    reveal_strlit("specFactor");
    reveal_strlit("(");
    reveal_strlit("vs_c[");
    reveal_with_fuel(same_chars, 17);
    let a = "        specAccum += atten * specFactor * (vs_c["@;
    let b = "        "@ + "specAccum"@ + " += "@ + "atten"@ + " * "@ + "specFactor"@ + " * "@
        + "("@ + "vs_c["@;
    assert(a.len() == b.len());
    same_each(a, b, 0, 15);
    same_each(a, b, 15, 30);
    same_each(a, b, 30, 45);
    same_each(a, b, 45, 48);
    assert(a =~= b);
}

proof fn piece_23()
    ensures
        "].rgb * "@ == "]"@ + "."@ + "r"@ + "g"@ + "b"@ + " * "@,
{
    reveal_strlit("].rgb * ");
    reveal_strlit("]");
    reveal_strlit(".");
    reveal_strlit("r");
    reveal_strlit("g");
    reveal_strlit("b");
    reveal_strlit(" * ");
    reveal_with_fuel(same_chars, 10);
    let a = "].rgb * "@;
    let b = "]"@ + "."@ + "r"@ + "g"@ + "b"@ + " * "@;
    assert(a.len() == b.len());
    same_each(a, b, 0, 8);
    assert(a =~= b);
}

proof fn piece_24()
    ensures
        ".rgb);\n"@ == "."@ + "r"@ + "g"@ + "b"@ + ")"@ + ";"@ + "\n"@,
{
    reveal_strlit(".rgb);\n");
    reveal_strlit(".");
    reveal_strlit("r");
    reveal_strlit("g");
    reveal_strlit("b");
    reveal_strlit(")");
    reveal_strlit(";");
    reveal_strlit("\n");
    reveal_with_fuel(same_chars, 9);
    let a = ".rgb);\n"@;
    let b = "."@ + "r"@ + "g"@ + "b"@ + ")"@ + ";"@ + "\n"@;
    assert(a.len() == b.len());
    same_each(a, b, 0, 7);
    assert(a =~= b);
}

proof fn piece_25()
    ensures
        "    float4 diffuseAccum = "@ == "    "@ + "float4"@ + " "@ + "diffuseAccum"@ + " = "@,
{
    reveal_strlit("    float4 diffuseAccum = ");
    reveal_strlit("    ");
    reveal_strlit("float4");
    reveal_strlit(" ");
    reveal_strlit("diffuseAccum");
    reveal_strlit(" = ");
    reveal_with_fuel(same_chars, 28);
    let a = "    float4 diffuseAccum = "@;
    let b = "    "@ + "float4"@ + " "@ + "diffuseAccum"@ + " = "@;
    assert(a.len() == b.len());
    same_each(a, b, 0, 26);
    assert(a =~= b);
}

proof fn piece_26()
    ensures
        " + vs_c[9] * "@ == " + "@ + "vs_c["@ + dec(9) + "]"@ + " * "@,
{
    reveal_strlit(" + vs_c[9] * ");
    reveal_strlit(" + ");
    reveal_strlit("vs_c[");
    reveal_strlit("]");
    reveal_strlit(" * ");
    short_numbers(9);
    reveal_with_fuel(same_chars, 15);
    let a = " + vs_c[9] * "@;
    let b = " + "@ + "vs_c["@ + dec(9) + "]"@ + " * "@;
    assert(a.len() == b.len());
    same_each(a, b, 0, 13);
    assert(a =~= b);
}

proof fn piece_27()
    ensures
        "    lit.a = "@ == "    "@ + "lit"@ + "."@ + "a"@ + " = "@,
{
    reveal_strlit("    lit.a = ");
    reveal_strlit("    ");
    reveal_strlit("lit");
    reveal_strlit(".");
    reveal_strlit("a");
    reveal_strlit(" = ");
    reveal_with_fuel(same_chars, 14);
    let a = "    lit.a = "@;
    let b = "    "@ + "lit"@ + "."@ + "a"@ + " = "@;
    assert(a.len() == b.len());
    same_each(a, b, 0, 12);
    assert(a =~= b);
}

proof fn piece_28()
    ensures
        ".a;\n"@ == "."@ + "a"@ + ";"@ + "\n"@,
{
    reveal_strlit(".a;\n");
    reveal_strlit(".");
    reveal_strlit("a");
    reveal_strlit(";");
    reveal_strlit("\n");
    reveal_with_fuel(same_chars, 6);
    let a = ".a;\n"@;
    let b = "."@ + "a"@ + ";"@ + "\n"@;
    assert(a.len() == b.len());
    same_each(a, b, 0, 4);
    assert(a =~= b);
}

pub open spec fn let_nadj0() -> Stmt {
    Stmt::Let(
        4,
        Name::Nadj(0),
        neg(call3(Fun3::Cross4, var(Name::Row(1)), var(Name::Row(2)), var(Name::Row(3)))),
    )
}

#[verifier::rlimit(50)]
pub proof fn let_nadj0_spelled()
    ensures
        spells("    float4 nadj0 = -mtld3d_cross4(vs_c[1], vs_c[2], vs_c[3]);\n"@, let_nadj0(), 1),
{
    reveal_strlit("    float4 nadj0 = -mtld3d_cross4(vs_c[1], vs_c[2], vs_c[3]);\n");
    reveal_strlit("    ");
    reveal_strlit("float4");
    reveal_strlit(" ");
    reveal_strlit("nadj");
    reveal_strlit(" = ");
    reveal_strlit("-");
    reveal_strlit("mtld3d_cross4(");
    reveal_strlit("vs_c[");
    reveal_strlit("]");
    reveal_strlit(", ");
    reveal_strlit(")");
    reveal_strlit(";");
    reveal_strlit("\n");
    short_numbers(0);
    short_numbers(1);
    short_numbers(2);
    short_numbers(3);
    reveal_with_fuel(show, 12);
    reveal_with_fuel(proper, 12);
    reveal_with_fuel(same_chars, 17);
    let a = "    float4 nadj0 = -mtld3d_cross4(vs_c[1], vs_c[2], vs_c[3]);\n"@;
    let b = listing(let_nadj0(), 1);
    assert(a.len() == b.len());
    same_each(a, b, 0, 15);
    same_each(a, b, 15, 30);
    same_each(a, b, 30, 45);
    same_each(a, b, 45, 60);
    same_each(a, b, 60, 62);
    assert(a =~= b);
}

pub open spec fn let_nadj1() -> Stmt {
    Stmt::Let(
        4,
        Name::Nadj(1),
        call3(Fun3::Cross4, var(Name::Row(2)), var(Name::Row(3)), var(Name::Row(0))),
    )
}

#[verifier::rlimit(50)]
pub proof fn let_nadj1_spelled()
    ensures
        spells("    float4 nadj1 = mtld3d_cross4(vs_c[2], vs_c[3], vs_c[0]);\n"@, let_nadj1(), 1),
{
    reveal_strlit("    float4 nadj1 = mtld3d_cross4(vs_c[2], vs_c[3], vs_c[0]);\n");
    reveal_strlit("    ");
    reveal_strlit("float4");
    reveal_strlit(" ");
    reveal_strlit("nadj");
    reveal_strlit(" = ");
    reveal_strlit("mtld3d_cross4(");
    reveal_strlit("vs_c[");
    reveal_strlit("]");
    reveal_strlit(", ");
    reveal_strlit(")");
    reveal_strlit(";");
    reveal_strlit("\n");
    short_numbers(0);
    short_numbers(1);
    short_numbers(2);
    short_numbers(3);
    reveal_with_fuel(show, 12);
    reveal_with_fuel(proper, 12);
    reveal_with_fuel(same_chars, 17);
    let a = "    float4 nadj1 = mtld3d_cross4(vs_c[2], vs_c[3], vs_c[0]);\n"@;
    let b = listing(let_nadj1(), 1);
    assert(a.len() == b.len());
    same_each(a, b, 0, 15);
    same_each(a, b, 15, 30);
    same_each(a, b, 30, 45);
    same_each(a, b, 45, 60);
    same_each(a, b, 60, 61);
    assert(a =~= b);
}

pub open spec fn let_nadj2() -> Stmt {
    Stmt::Let(
        4,
        Name::Nadj(2),
        neg(call3(Fun3::Cross4, var(Name::Row(3)), var(Name::Row(0)), var(Name::Row(1)))),
    )
}

#[verifier::rlimit(50)]
pub proof fn let_nadj2_spelled()
    ensures
        spells("    float4 nadj2 = -mtld3d_cross4(vs_c[3], vs_c[0], vs_c[1]);\n"@, let_nadj2(), 1),
{
    reveal_strlit("    float4 nadj2 = -mtld3d_cross4(vs_c[3], vs_c[0], vs_c[1]);\n");
    reveal_strlit("    ");
    reveal_strlit("float4");
    reveal_strlit(" ");
    reveal_strlit("nadj");
    reveal_strlit(" = ");
    reveal_strlit("-");
    reveal_strlit("mtld3d_cross4(");
    reveal_strlit("vs_c[");
    reveal_strlit("]");
    reveal_strlit(", ");
    reveal_strlit(")");
    reveal_strlit(";");
    reveal_strlit("\n");
    short_numbers(0);
    short_numbers(1);
    short_numbers(2);
    short_numbers(3);
    reveal_with_fuel(show, 12);
    reveal_with_fuel(proper, 12);
    reveal_with_fuel(same_chars, 17);
    let a = "    float4 nadj2 = -mtld3d_cross4(vs_c[3], vs_c[0], vs_c[1]);\n"@;
    let b = listing(let_nadj2(), 1);
    assert(a.len() == b.len());
    same_each(a, b, 0, 15);
    same_each(a, b, 15, 30);
    same_each(a, b, 30, 45);
    same_each(a, b, 45, 60);
    same_each(a, b, 60, 62);
    assert(a =~= b);
}

pub open spec fn let_nwvdet() -> Stmt {
    Stmt::Let(1, Name::Nwvdet, call2(Fun2::Dot, var(Name::Nadj(0)), var(Name::Row(0))))
}

pub proof fn let_nwvdet_spelled()
    ensures
        spells("    float nwvdet = dot(nadj0, vs_c[0]);\n"@, let_nwvdet(), 1),
{
    reveal_strlit("    float nwvdet = dot(nadj0, vs_c[0]);\n");
    reveal_strlit("    ");
    reveal_strlit("float");
    reveal_strlit(" ");
    reveal_strlit("nwvdet");
    reveal_strlit(" = ");
    reveal_strlit("dot(");
    reveal_strlit("nadj");
    reveal_strlit(", ");
    reveal_strlit("vs_c[");
    reveal_strlit("]");
    reveal_strlit(")");
    reveal_strlit(";");
    reveal_strlit("\n");
    short_numbers(0);
    reveal_with_fuel(show, 12);
    reveal_with_fuel(proper, 12);
    reveal_with_fuel(same_chars, 17);
    let a = "    float nwvdet = dot(nadj0, vs_c[0]);\n"@;
    let b = listing(let_nwvdet(), 1);
    assert(a.len() == b.len());
    same_each(a, b, 0, 15);
    same_each(a, b, 15, 30);
    same_each(a, b, 30, 40);
    assert(a =~= b);
}

pub open spec fn unit_normal() -> Stmt {
    Stmt::Assign(Name::Normal, call1(Fun1::Normalize, var(Name::Normal)))
}

pub proof fn unit_normal_spelled()
    ensures
        spells("    n = normalize(n);\n"@, unit_normal(), 1),
{
    reveal_strlit("    n = normalize(n);\n");
    reveal_strlit("    ");
    reveal_strlit("n");
    reveal_strlit(" = ");
    reveal_strlit("normalize(");
    reveal_strlit(")");
    reveal_strlit(";");
    reveal_strlit("\n");
    reveal_with_fuel(show, 12);
    reveal_with_fuel(proper, 12);
    reveal_with_fuel(same_chars, 24);
    let a = "    n = normalize(n);\n"@;
    let b = listing(unit_normal(), 1);
    assert(a.len() == b.len());
    same_each(a, b, 0, 22);
    assert(a =~= b);
}

pub open spec fn let_power() -> Stmt {
    Stmt::Let(1, Name::MatPower, part(var(Name::Row(14)), Pick::One(Component::X)))
}

pub proof fn let_power_spelled()
    ensures
        spells("    float mat_power = vs_c[14].x;\n"@, let_power(), 1),
{
    reveal_strlit("    float mat_power = vs_c[14].x;\n");
    reveal_strlit("    ");
    reveal_strlit("float");
    reveal_strlit(" ");
    reveal_strlit("mat_power");
    reveal_strlit(" = ");
    reveal_strlit("vs_c[");
    reveal_strlit("]");
    reveal_strlit(".");
    reveal_strlit("x");
    reveal_strlit(";");
    reveal_strlit("\n");
    short_numbers(14);
    reveal_with_fuel(show, 12);
    reveal_with_fuel(proper, 12);
    reveal_with_fuel(same_chars, 17);
    let a = "    float mat_power = vs_c[14].x;\n"@;
    let b = listing(let_power(), 1);
    assert(a.len() == b.len());
    same_each(a, b, 0, 15);
    same_each(a, b, 15, 30);
    same_each(a, b, 30, 34);
    assert(a =~= b);
}

pub open spec fn viewer_near() -> Stmt {
    Stmt::Let(3, Name::ToViewer, call1(Fun1::Normalize, neg(var(Name::PosEye))))
}

pub proof fn viewer_near_spelled()
    ensures
        spells("    float3 V = normalize(-posEye);\n"@, viewer_near(), 1),
{
    reveal_strlit("    float3 V = normalize(-posEye);\n");
    reveal_strlit("    ");
    reveal_strlit("float3");
    reveal_strlit(" ");
    reveal_strlit("V");
    reveal_strlit(" = ");
    reveal_strlit("normalize(");
    reveal_strlit("-");
    reveal_strlit("posEye");
    reveal_strlit(")");
    reveal_strlit(";");
    reveal_strlit("\n");
    reveal_with_fuel(show, 12);
    reveal_with_fuel(proper, 12);
    reveal_with_fuel(same_chars, 17);
    let a = "    float3 V = normalize(-posEye);\n"@;
    let b = listing(viewer_near(), 1);
    assert(a.len() == b.len());
    same_each(a, b, 0, 15);
    same_each(a, b, 15, 30);
    same_each(a, b, 30, 35);
    assert(a =~= b);
}

pub open spec fn viewer_far() -> Stmt {
    Stmt::Let(
        3,
        Name::ToViewer,
        make(3, list(list(num(Number::Zero), num(Number::Zero)), neg(num(Number::One)))),
    )
}

pub proof fn viewer_far_spelled()
    ensures
        spells("    float3 V = float3(0.0, 0.0, -1.0);\n"@, viewer_far(), 1),
{
    reveal_strlit("    float3 V = float3(0.0, 0.0, -1.0);\n");
    reveal_strlit("    ");
    reveal_strlit("float3");
    reveal_strlit(" ");
    reveal_strlit("V");
    reveal_strlit(" = ");
    reveal_strlit("(");
    reveal_strlit("0.0");
    reveal_strlit(", ");
    reveal_strlit("-");
    reveal_strlit("1.0");
    reveal_strlit(")");
    reveal_strlit(";");
    reveal_strlit("\n");
    reveal_with_fuel(show, 12);
    reveal_with_fuel(proper, 12);
    reveal_with_fuel(same_chars, 17);
    let a = "    float3 V = float3(0.0, 0.0, -1.0);\n"@;
    let b = listing(viewer_far(), 1);
    assert(a.len() == b.len());
    same_each(a, b, 0, 15);
    same_each(a, b, 15, 30);
    same_each(a, b, 30, 39);
    assert(a =~= b);
}

pub open spec fn no_attenuation() -> Stmt {
    Stmt::Let(1, Name::Atten, num(Number::One))
}

pub proof fn no_attenuation_spelled()
    ensures
        spells("        float atten = 1.0;\n"@, no_attenuation(), 2),
{
    reveal_strlit("        float atten = 1.0;\n");
    reveal_strlit("        ");
    reveal_strlit("float");
    reveal_strlit(" ");
    reveal_strlit("atten");
    reveal_strlit(" = ");
    reveal_strlit("1.0");
    reveal_strlit(";");
    reveal_strlit("\n");
    reveal_with_fuel(show, 12);
    reveal_with_fuel(proper, 12);
    reveal_with_fuel(same_chars, 29);
    let a = "        float atten = 1.0;\n"@;
    let b = listing(no_attenuation(), 2);
    assert(a.len() == b.len());
    same_each(a, b, 0, 27);
    assert(a =~= b);
}

pub open spec fn let_dist() -> Stmt {
    Stmt::Let(1, Name::Dist, call1(Fun1::Length, var(Name::ToLightFull)))
}

pub proof fn let_dist_spelled()
    ensures
        spells("        float dist = length(toL);\n"@, let_dist(), 2),
{
    reveal_strlit("        float dist = length(toL);\n");
    reveal_strlit("        ");
    reveal_strlit("float");
    reveal_strlit(" ");
    reveal_strlit("dist");
    reveal_strlit(" = ");
    reveal_strlit("length(");
    reveal_strlit("toL");
    reveal_strlit(")");
    reveal_strlit(";");
    reveal_strlit("\n");
    reveal_with_fuel(show, 12);
    reveal_with_fuel(proper, 12);
    reveal_with_fuel(same_chars, 17);
    let a = "        float dist = length(toL);\n"@;
    let b = listing(let_dist(), 2);
    assert(a.len() == b.len());
    same_each(a, b, 0, 15);
    same_each(a, b, 15, 30);
    same_each(a, b, 30, 34);
    assert(a =~= b);
}

pub open spec fn let_light() -> Stmt {
    Stmt::Let(
        3,
        Name::ToLight,
        quot(var(Name::ToLightFull), call2(Fun2::Max, var(Name::Dist), num(Number::Tiny))),
    )
}

pub proof fn let_light_spelled()
    ensures
        spells("        float3 L = toL / max(dist, 1e-30);\n"@, let_light(), 2),
{
    reveal_strlit("        float3 L = toL / max(dist, 1e-30);\n");
    reveal_strlit("        ");
    reveal_strlit("float3");
    reveal_strlit(" ");
    reveal_strlit("L");
    reveal_strlit(" = ");
    reveal_strlit("toL");
    reveal_strlit(" / ");
    reveal_strlit("max(");
    reveal_strlit("dist");
    reveal_strlit(", ");
    reveal_strlit("1e-30");
    reveal_strlit(")");
    reveal_strlit(";");
    reveal_strlit("\n");
    reveal_with_fuel(show, 12);
    reveal_with_fuel(proper, 12);
    reveal_with_fuel(same_chars, 17);
    let a = "        float3 L = toL / max(dist, 1e-30);\n"@;
    let b = listing(let_light(), 2);
    assert(a.len() == b.len());
    same_each(a, b, 0, 15);
    same_each(a, b, 15, 30);
    same_each(a, b, 30, 43);
    assert(a =~= b);
}

pub open spec fn let_attenuation() -> Stmt {
    Stmt::Let(
        1,
        Name::Atten,
        quot(
            num(Number::One),
            call2(
                Fun2::Max,
                sum(
                    sum(
                        part(var(Name::AttenK), Pick::One(Component::X)),
                        prod(part(var(Name::AttenK), Pick::One(Component::Y)), var(Name::Dist)),
                    ),
                    prod(
                        prod(part(var(Name::AttenK), Pick::One(Component::Z)), var(Name::Dist)),
                        var(Name::Dist),
                    ),
                ),
                num(Number::Tiny),
            ),
        ),
    )
}

#[verifier::rlimit(50)]
pub proof fn let_attenuation_spelled()
    ensures
        spells(
            "        float atten = 1.0 / max(atten_k.x + atten_k.y * dist + atten_k.z * dist * dist, 1e-30);\n"@,
            let_attenuation(),
            2,
        ),
{
    reveal_strlit("        float atten = 1.0 / max(atten_k.x + atten_k.y * dist + atten_k.z * dist * dist, 1e-30);\n");
    reveal_strlit("        ");
    reveal_strlit("float");
    reveal_strlit(" ");
    reveal_strlit("atten");
    reveal_strlit(" = ");
    reveal_strlit("1.0");
    reveal_strlit(" / ");
    reveal_strlit("max(");
    reveal_strlit("atten_k");
    reveal_strlit(".");
    reveal_strlit("x");
    reveal_strlit(" + ");
    reveal_strlit("y");
    reveal_strlit(" * ");
    reveal_strlit("dist");
    reveal_strlit("z");
    reveal_strlit(", ");
    reveal_strlit("1e-30");
    reveal_strlit(")");
    reveal_strlit(";");
    reveal_strlit("\n");
    reveal_with_fuel(show, 12);
    reveal_with_fuel(proper, 12);
    reveal_with_fuel(same_chars, 17);
    let a = "        float atten = 1.0 / max(atten_k.x + atten_k.y * dist + atten_k.z * dist * dist, 1e-30);\n"@;
    let b = listing(let_attenuation(), 2);
    assert(a.len() == b.len());
    same_each(a, b, 0, 15);
    same_each(a, b, 15, 30);
    same_each(a, b, 30, 45);
    same_each(a, b, 45, 60);
    same_each(a, b, 60, 75);
    same_each(a, b, 75, 90);
    same_each(a, b, 90, 96);
    assert(a =~= b);
}

pub open spec fn cut_off() -> Stmt {
    Stmt::Scale(
        Name::Atten,
        call2(Fun2::Step, var(Name::Dist), part(var(Name::AttenK), Pick::One(Component::W))),
    )
}

pub proof fn cut_off_spelled()
    ensures
        spells("        atten *= step(dist, atten_k.w);\n"@, cut_off(), 2),
{
    reveal_strlit("        atten *= step(dist, atten_k.w);\n");
    reveal_strlit("        ");
    reveal_strlit("atten");
    reveal_strlit(" *= ");
    reveal_strlit("step(");
    reveal_strlit("dist");
    reveal_strlit(", ");
    reveal_strlit("atten_k");
    reveal_strlit(".");
    reveal_strlit("w");
    reveal_strlit(")");
    reveal_strlit(";");
    reveal_strlit("\n");
    reveal_with_fuel(show, 12);
    reveal_with_fuel(proper, 12);
    reveal_with_fuel(same_chars, 17);
    let a = "        atten *= step(dist, atten_k.w);\n"@;
    let b = listing(cut_off(), 2);
    assert(a.len() == b.len());
    same_each(a, b, 0, 15);
    same_each(a, b, 15, 30);
    same_each(a, b, 30, 40);
    assert(a =~= b);
}

pub open spec fn let_ndotl() -> Stmt {
    Stmt::Let(
        1,
        Name::Ndotl,
        call3(
            Fun3::Clamp,
            call2(Fun2::Dot, var(Name::Normal), var(Name::ToLight)),
            num(Number::Zero),
            num(Number::One),
        ),
    )
}

pub proof fn let_ndotl_spelled()
    ensures
        spells("        float ndotl = clamp(dot(n, L), 0.0, 1.0);\n"@, let_ndotl(), 2),
{
    reveal_strlit("        float ndotl = clamp(dot(n, L), 0.0, 1.0);\n");
    reveal_strlit("        ");
    reveal_strlit("float");
    reveal_strlit(" ");
    reveal_strlit("ndotl");
    reveal_strlit(" = ");
    reveal_strlit("clamp(");
    reveal_strlit("dot(");
    reveal_strlit("n");
    reveal_strlit(", ");
    reveal_strlit("L");
    reveal_strlit(")");
    reveal_strlit("0.0");
    reveal_strlit("1.0");
    reveal_strlit(";");
    reveal_strlit("\n");
    reveal_with_fuel(show, 12);
    reveal_with_fuel(proper, 12);
    reveal_with_fuel(same_chars, 17);
    let a = "        float ndotl = clamp(dot(n, L), 0.0, 1.0);\n"@;
    let b = listing(let_ndotl(), 2);
    assert(a.len() == b.len());
    same_each(a, b, 0, 15);
    same_each(a, b, 15, 30);
    same_each(a, b, 30, 45);
    same_each(a, b, 45, 50);
    assert(a =~= b);
}

pub open spec fn let_halfway() -> Stmt {
    Stmt::Let(
        3,
        Name::Halfway,
        call1(Fun1::Normalize, sum(var(Name::ToLight), var(Name::ToViewer))),
    )
}

pub proof fn let_halfway_spelled()
    ensures
        spells("        float3 H = normalize(L + V);\n"@, let_halfway(), 2),
{
    reveal_strlit("        float3 H = normalize(L + V);\n");
    reveal_strlit("        ");
    reveal_strlit("float3");
    reveal_strlit(" ");
    reveal_strlit("H");
    reveal_strlit(" = ");
    reveal_strlit("normalize(");
    reveal_strlit("L");
    reveal_strlit(" + ");
    reveal_strlit("V");
    reveal_strlit(")");
    reveal_strlit(";");
    reveal_strlit("\n");
    reveal_with_fuel(show, 12);
    reveal_with_fuel(proper, 12);
    reveal_with_fuel(same_chars, 17);
    let a = "        float3 H = normalize(L + V);\n"@;
    let b = listing(let_halfway(), 2);
    assert(a.len() == b.len());
    same_each(a, b, 0, 15);
    same_each(a, b, 15, 30);
    same_each(a, b, 30, 37);
    assert(a =~= b);
}

pub open spec fn let_ndoth() -> Stmt {
    Stmt::Let(
        1,
        Name::Ndoth,
        call2(
            Fun2::Max,
            num(Number::Zero),
            call2(Fun2::Dot, var(Name::Normal), var(Name::Halfway)),
        ),
    )
}

pub proof fn let_ndoth_spelled()
    ensures
        spells("        float ndoth = max(0.0, dot(n, H));\n"@, let_ndoth(), 2),
{
    reveal_strlit("        float ndoth = max(0.0, dot(n, H));\n");
    reveal_strlit("        ");
    reveal_strlit("float");
    reveal_strlit(" ");
    reveal_strlit("ndoth");
    reveal_strlit(" = ");
    reveal_strlit("max(");
    reveal_strlit("0.0");
    reveal_strlit(", ");
    reveal_strlit("dot(");
    reveal_strlit("n");
    reveal_strlit("H");
    reveal_strlit(")");
    reveal_strlit(";");
    reveal_strlit("\n");
    reveal_with_fuel(show, 12);
    reveal_with_fuel(proper, 12);
    reveal_with_fuel(same_chars, 17);
    let a = "        float ndoth = max(0.0, dot(n, H));\n"@;
    let b = listing(let_ndoth(), 2);
    assert(a.len() == b.len());
    same_each(a, b, 0, 15);
    same_each(a, b, 15, 30);
    same_each(a, b, 30, 43);
    assert(a =~= b);
}

pub open spec fn let_highlight() -> Stmt {
    Stmt::Let(
        1,
        Name::SpecFactor,
        cond(
            paren(bin(Op::Greater, var(Name::Ndotl), num(Number::Zero))),
            call2(Fun2::Pow, var(Name::Ndoth), var(Name::MatPower)),
            num(Number::Zero),
            false,
        ),
    )
}

#[verifier::rlimit(50)]
pub proof fn let_highlight_spelled()
    ensures
        spells(
            "        float specFactor = (ndotl > 0.0) ? pow(ndoth, mat_power) : 0.0;\n"@,
            let_highlight(),
            2,
        ),
{
    reveal_strlit("        float specFactor = (ndotl > 0.0) ? pow(ndoth, mat_power) : 0.0;\n");
    reveal_strlit("        ");
    reveal_strlit("float");
    reveal_strlit(" ");
    reveal_strlit("specFactor");
    reveal_strlit(" = ");
    reveal_strlit("(");
    reveal_strlit("ndotl");
    reveal_strlit(" > ");
    reveal_strlit("0.0");
    reveal_strlit(")");
    reveal_strlit(" ? ");
    reveal_strlit("pow(");
    reveal_strlit("ndoth");
    reveal_strlit(", ");
    reveal_strlit("mat_power");
    reveal_strlit(" : ");
    reveal_strlit(";");
    reveal_strlit("\n");
    reveal_with_fuel(show, 12);
    reveal_with_fuel(proper, 12);
    reveal_with_fuel(same_chars, 17);
    let a = "        float specFactor = (ndotl > 0.0) ? pow(ndoth, mat_power) : 0.0;\n"@;
    let b = listing(let_highlight(), 2);
    assert(a.len() == b.len());
    same_each(a, b, 0, 15);
    same_each(a, b, 15, 30);
    same_each(a, b, 30, 45);
    same_each(a, b, 45, 60);
    same_each(a, b, 60, 72);
    assert(a =~= b);
}

pub open spec fn no_highlights() -> Stmt {
    Stmt::Let(3, Name::SpecAccum, make(3, num(Number::Zero)))
}

pub proof fn no_highlights_spelled()
    ensures
        spells("    float3 specAccum = float3(0.0);\n"@, no_highlights(), 1),
{
    reveal_strlit("    float3 specAccum = float3(0.0);\n");
    reveal_strlit("    ");
    reveal_strlit("float3");
    reveal_strlit(" ");
    reveal_strlit("specAccum");
    reveal_strlit(" = ");
    reveal_strlit("(");
    reveal_strlit("0.0");
    reveal_strlit(")");
    reveal_strlit(";");
    reveal_strlit("\n");
    reveal_with_fuel(show, 12);
    reveal_with_fuel(proper, 12);
    reveal_with_fuel(same_chars, 17);
    let a = "    float3 specAccum = float3(0.0);\n"@;
    let b = listing(no_highlights(), 1);
    assert(a.len() == b.len());
    same_each(a, b, 0, 15);
    same_each(a, b, 15, 30);
    same_each(a, b, 30, 36);
    assert(a =~= b);
}

pub open spec fn let_lit() -> Stmt {
    Stmt::Let(4, Name::Lit, call1(Fun1::Saturate, var(Name::DiffuseAccum)))
}

pub proof fn let_lit_spelled()
    ensures
        spells("    float4 lit = saturate(diffuseAccum);\n"@, let_lit(), 1),
{
    reveal_strlit("    float4 lit = saturate(diffuseAccum);\n");
    reveal_strlit("    ");
    reveal_strlit("float4");
    reveal_strlit(" ");
    reveal_strlit("lit");
    reveal_strlit(" = ");
    reveal_strlit("saturate(");
    reveal_strlit("diffuseAccum");
    reveal_strlit(")");
    reveal_strlit(";");
    reveal_strlit("\n");
    reveal_with_fuel(show, 12);
    reveal_with_fuel(proper, 12);
    reveal_with_fuel(same_chars, 17);
    let a = "    float4 lit = saturate(diffuseAccum);\n"@;
    let b = listing(let_lit(), 1);
    assert(a.len() == b.len());
    same_each(a, b, 0, 15);
    same_each(a, b, 15, 30);
    same_each(a, b, 30, 41);
    assert(a =~= b);
}

pub open spec fn set_lit() -> Stmt {
    Stmt::Assign(Name::OutColor(0), var(Name::Lit))
}

pub proof fn set_lit_spelled()
    ensures
        spells("    out.color0 = lit;\n"@, set_lit(), 1),
{
    reveal_strlit("    out.color0 = lit;\n");
    reveal_strlit("    ");
    reveal_strlit("out.color");
    reveal_strlit(" = ");
    reveal_strlit("lit");
    reveal_strlit(";");
    reveal_strlit("\n");
    short_numbers(0);
    reveal_with_fuel(show, 12);
    reveal_with_fuel(proper, 12);
    reveal_with_fuel(same_chars, 24);
    let a = "    out.color0 = lit;\n"@;
    let b = listing(set_lit(), 1);
    assert(a.len() == b.len());
    same_each(a, b, 0, 22);
    assert(a =~= b);
}

pub open spec fn set_highlights() -> Stmt {
    Stmt::Assign(
        Name::OutColor(1),
        make(4, list(call1(Fun1::Saturate, var(Name::SpecAccum)), num(Number::Zero))),
    )
}

pub proof fn set_highlights_spelled()
    ensures
        spells("    out.color1 = float4(saturate(specAccum), 0.0);\n"@, set_highlights(), 1),
{
    reveal_strlit("    out.color1 = float4(saturate(specAccum), 0.0);\n");
    reveal_strlit("    ");
    reveal_strlit("out.color");
    reveal_strlit(" = ");
    reveal_strlit("float4");
    reveal_strlit("(");
    reveal_strlit("saturate(");
    reveal_strlit("specAccum");
    reveal_strlit(")");
    reveal_strlit(", ");
    reveal_strlit("0.0");
    reveal_strlit(";");
    reveal_strlit("\n");
    short_numbers(1);
    reveal_with_fuel(show, 12);
    reveal_with_fuel(proper, 12);
    reveal_with_fuel(same_chars, 17);
    let a = "    out.color1 = float4(saturate(specAccum), 0.0);\n"@;
    let b = listing(set_highlights(), 1);
    assert(a.len() == b.len());
    same_each(a, b, 0, 15);
    same_each(a, b, 15, 30);
    same_each(a, b, 30, 45);
    same_each(a, b, 45, 51);
    assert(a =~= b);
}

pub open spec fn by_inverse() -> Expr {
    make(
        3,
        list(
            list(
                call2(
                    Fun2::Dot,
                    part(var(Name::Nadj(0)), Pick::Three(Component::X, Component::Y, Component::Z)),
                    part(
                        var(Name::Attribute(1)),
                        Pick::Three(Component::X, Component::Y, Component::Z),
                    ),
                ),
                call2(
                    Fun2::Dot,
                    part(var(Name::Nadj(1)), Pick::Three(Component::X, Component::Y, Component::Z)),
                    part(
                        var(Name::Attribute(1)),
                        Pick::Three(Component::X, Component::Y, Component::Z),
                    ),
                ),
            ),
            call2(
                Fun2::Dot,
                part(var(Name::Nadj(2)), Pick::Three(Component::X, Component::Y, Component::Z)),
                part(
                    var(Name::Attribute(1)),
                    Pick::Three(Component::X, Component::Y, Component::Z),
                ),
            ),
        ),
    )
}

#[verifier::rlimit(50)]
pub proof fn by_inverse_spelled()
    ensures
        spells_value(
            "float3(dot(nadj0.xyz, in.v1.xyz), dot(nadj1.xyz, in.v1.xyz), dot(nadj2.xyz, in.v1.xyz))"@,
            by_inverse(),
        ),
{
    reveal_strlit("float3(dot(nadj0.xyz, in.v1.xyz), dot(nadj1.xyz, in.v1.xyz), dot(nadj2.xyz, in.v1.xyz))");
    reveal_strlit("float3");
    reveal_strlit("(");
    reveal_strlit("dot(");
    reveal_strlit("nadj");
    reveal_strlit(".");
    reveal_strlit("x");
    reveal_strlit("y");
    reveal_strlit("z");
    reveal_strlit(", ");
    reveal_strlit("in.v");
    reveal_strlit(")");
    short_numbers(0);
    short_numbers(1);
    short_numbers(2);
    reveal_with_fuel(show, 12);
    reveal_with_fuel(proper, 12);
    reveal_with_fuel(same_chars, 17);
    let a = "float3(dot(nadj0.xyz, in.v1.xyz), dot(nadj1.xyz, in.v1.xyz), dot(nadj2.xyz, in.v1.xyz))"@;
    let b = show(by_inverse());
    assert(a.len() == b.len());
    same_each(a, b, 0, 15);
    same_each(a, b, 15, 30);
    same_each(a, b, 30, 45);
    same_each(a, b, 45, 60);
    same_each(a, b, 60, 75);
    same_each(a, b, 75, 87);
    assert(a =~= b);
}

pub open spec fn by_transpose() -> Expr {
    make(
        3,
        list(
            list(
                call2(
                    Fun2::Dot,
                    make(
                        3,
                        list(
                            list(
                                part(var(Name::Row(0)), Pick::One(Component::X)),
                                part(var(Name::Row(1)), Pick::One(Component::X)),
                            ),
                            part(var(Name::Row(2)), Pick::One(Component::X)),
                        ),
                    ),
                    part(
                        var(Name::Attribute(1)),
                        Pick::Three(Component::X, Component::Y, Component::Z),
                    ),
                ),
                call2(
                    Fun2::Dot,
                    make(
                        3,
                        list(
                            list(
                                part(var(Name::Row(0)), Pick::One(Component::Y)),
                                part(var(Name::Row(1)), Pick::One(Component::Y)),
                            ),
                            part(var(Name::Row(2)), Pick::One(Component::Y)),
                        ),
                    ),
                    part(
                        var(Name::Attribute(1)),
                        Pick::Three(Component::X, Component::Y, Component::Z),
                    ),
                ),
            ),
            call2(
                Fun2::Dot,
                make(
                    3,
                    list(
                        list(
                            part(var(Name::Row(0)), Pick::One(Component::Z)),
                            part(var(Name::Row(1)), Pick::One(Component::Z)),
                        ),
                        part(var(Name::Row(2)), Pick::One(Component::Z)),
                    ),
                ),
                part(
                    var(Name::Attribute(1)),
                    Pick::Three(Component::X, Component::Y, Component::Z),
                ),
            ),
        ),
    )
}

#[verifier::rlimit(50)]
pub proof fn by_transpose_spelled()
    ensures
        spells_value(
            "float3(dot(float3(vs_c[0].x, vs_c[1].x, vs_c[2].x), in.v1.xyz), dot(float3(vs_c[0].y, vs_c[1].y, vs_c[2].y), in.v1.xyz), dot(float3(vs_c[0].z, vs_c[1].z, vs_c[2].z), in.v1.xyz))"@,
            by_transpose(),
        ),
{
    reveal_strlit("float3(dot(float3(vs_c[0].x, vs_c[1].x, vs_c[2].x), in.v1.xyz), dot(float3(vs_c[0].y, vs_c[1].y, vs_c[2].y), in.v1.xyz), dot(float3(vs_c[0].z, vs_c[1].z, vs_c[2].z), in.v1.xyz))");
    reveal_strlit("float3");
    reveal_strlit("(");
    reveal_strlit("dot(");
    reveal_strlit("vs_c[");
    reveal_strlit("]");
    reveal_strlit(".");
    reveal_strlit("x");
    reveal_strlit(", ");
    reveal_strlit(")");
    reveal_strlit("in.v");
    reveal_strlit("y");
    reveal_strlit("z");
    short_numbers(0);
    short_numbers(1);
    short_numbers(2);
    reveal_with_fuel(show, 12);
    reveal_with_fuel(proper, 12);
    reveal_with_fuel(same_chars, 17);
    let a = "float3(dot(float3(vs_c[0].x, vs_c[1].x, vs_c[2].x), in.v1.xyz), dot(float3(vs_c[0].y, vs_c[1].y, vs_c[2].y), in.v1.xyz), dot(float3(vs_c[0].z, vs_c[1].z, vs_c[2].z), in.v1.xyz))"@;
    let b = show(by_transpose());
    assert(a.len() == b.len());
    same_each(a, b, 0, 15);
    same_each(a, b, 15, 30);
    same_each(a, b, 30, 45);
    same_each(a, b, 45, 60);
    same_each(a, b, 60, 75);
    same_each(a, b, 75, 90);
    same_each(a, b, 90, 105);
    same_each(a, b, 105, 120);
    same_each(a, b, 120, 135);
    same_each(a, b, 135, 150);
    same_each(a, b, 150, 165);
    same_each(a, b, 165, 177);
    assert(a =~= b);
}

pub open spec fn let_normal(f: Expr, g: Expr) -> Stmt {
    Stmt::Let(
        3,
        Name::Normal,
        cond(
            paren(bin(Op::Greater, call1(Fun1::Abs, var(Name::Nwvdet)), num(Number::Small))),
            quot(f, var(Name::Nwvdet)),
            g,
            true,
        ),
    )
}

pub proof fn let_normal_spelled(f: Expr, g: Expr)
    requires
        proper(f),
        level(f) >= 7,
        proper(g),
        level(g) >= 7,
    ensures
        spells(
            Seq::<char>::empty() + "    float3 n = (abs(nwvdet) > 1e-12)\n"@ + "        ? "@
                + show(f) + " / nwvdet\n"@ + "        : "@ + show(g) + ";\n"@,
            let_normal(f, g),
            1,
        ),
{
    piece_1();
    piece_2();
    piece_3();
    reveal_with_fuel(show, 12);
    reveal_with_fuel(proper, 12);
    let x1 = "float3"@ + " "@;
    let x2 = x1 + "n"@;
    let x3 = x2 + " = "@;
    let x4 = "abs("@ + "nwvdet"@;
    let x5 = x4 + ")"@;
    let x6 = x5 + " > "@;
    let x7 = x6 + "1e-12"@;
    let x8 = "("@ + x7;
    let x9 = x8 + ")"@;
    let x10 = "\n"@ + "        ? "@;
    let x11 = x9 + x10;
    let x12 = show(f) + " / "@;
    let x13 = x12 + "nwvdet"@;
    let x14 = x11 + x13;
    let x15 = "\n"@ + "        : "@;
    let x16 = x14 + x15;
    let x17 = x16 + show(g);
    let x18 = x3 + x17;
    let x19 = x18 + ";"@;
    let x20 = "    "@ + x19;
    let x21 = x20 + "\n"@;
    let x22 = "    "@ + x18;
    let x23 = x22 + ";"@;
    regrouped("    "@, x18, ";"@);
    let x24 = "    "@ + x3;
    let x25 = x24 + x17;
    regrouped("    "@, x3, x17);
    let x26 = "    "@ + x2;
    let x27 = x26 + " = "@;
    regrouped("    "@, x2, " = "@);
    let x28 = "    "@ + x1;
    let x29 = x28 + "n"@;
    regrouped("    "@, x1, "n"@);
    let x30 = "    "@ + "float3"@;
    let x31 = x30 + " "@;
    regrouped("    "@, "float3"@, " "@);
    let x32 = x31 + "n"@;
    let x33 = x32 + " = "@;
    let x34 = x33 + x17;
    let x35 = x33 + x16;
    let x36 = x35 + show(g);
    regrouped(x33, x16, show(g));
    let x37 = x33 + x14;
    let x38 = x37 + x15;
    regrouped(x33, x14, x15);
    let x39 = x33 + x11;
    let x40 = x39 + x13;
    regrouped(x33, x11, x13);
    let x41 = x33 + x9;
    let x42 = x41 + x10;
    regrouped(x33, x9, x10);
    let x43 = x33 + x8;
    let x44 = x43 + ")"@;
    regrouped(x33, x8, ")"@);
    let x45 = x33 + "("@;
    let x46 = x45 + x7;
    regrouped(x33, "("@, x7);
    let x47 = x45 + x6;
    let x48 = x47 + "1e-12"@;
    regrouped(x45, x6, "1e-12"@);
    let x49 = x45 + x5;
    let x50 = x49 + " > "@;
    regrouped(x45, x5, " > "@);
    let x51 = x45 + x4;
    let x52 = x51 + ")"@;
    regrouped(x45, x4, ")"@);
    let x53 = x45 + "abs("@;
    let x54 = x53 + "nwvdet"@;
    regrouped(x45, "abs("@, "nwvdet"@);
    let x55 = x54 + ")"@;
    let x56 = x55 + " > "@;
    let x57 = x56 + "1e-12"@;
    let x58 = x57 + ")"@;
    let x59 = x58 + x10;
    let x60 = x58 + "\n"@;
    let x61 = x60 + "        ? "@;
    regrouped(x58, "\n"@, "        ? "@);
    let x62 = x61 + x13;
    let x63 = x61 + x12;
    let x64 = x63 + "nwvdet"@;
    regrouped(x61, x12, "nwvdet"@);
    let x65 = x61 + show(f);
    let x66 = x65 + " / "@;
    regrouped(x61, show(f), " / "@);
    let x67 = x66 + "nwvdet"@;
    let x68 = x67 + x15;
    let x69 = x67 + "\n"@;
    let x70 = x69 + "        : "@;
    regrouped(x67, "\n"@, "        : "@);
    let x71 = x70 + show(g);
    let x72 = x71 + ";"@;
    let x73 = x72 + "\n"@;
    let x74 = " / "@ + "nwvdet"@;
    let x75 = x74 + "\n"@;
    let x76 = x65 + x75;
    let x77 = x76 + "        : "@;
    let x78 = x77 + show(g);
    let x79 = ";"@ + "\n"@;
    let x80 = x78 + x79;
    let x81 = x65 + x74;
    let x82 = x81 + "\n"@;
    regrouped(x65, x74, "\n"@);
    regrouped(x65, " / "@, "nwvdet"@);
    let x83 = x71 + x79;
    regrouped(x71, ";"@, "\n"@);
    assert(Seq::<char>::empty() + x60 =~= x60);
}

pub open spec fn light_ahead(row: nat) -> Stmt {
    Stmt::Let(
        3,
        Name::ToLight,
        neg(part(var(Name::Row(row)), Pick::Three(Component::X, Component::Y, Component::Z))),
    )
}

pub proof fn light_ahead_spelled(row: nat)
    ensures
        spells(
            Seq::<char>::empty() + "        float3 L = -vs_c["@ + dec(row) + "].xyz;\n"@,
            light_ahead(row),
            2,
        ),
{
    piece_6();
    piece_7();
    reveal_with_fuel(show, 12);
    reveal_with_fuel(proper, 12);
    let x1 = "float3"@ + " "@;
    let x2 = x1 + "L"@;
    let x3 = x2 + " = "@;
    let x4 = "vs_c["@ + dec(row);
    let x5 = x4 + "]"@;
    let x6 = "."@ + "x"@;
    let x7 = x6 + "y"@;
    let x8 = x7 + "z"@;
    let x9 = x5 + x8;
    let x10 = "-"@ + x9;
    let x11 = x3 + x10;
    let x12 = x11 + ";"@;
    let x13 = "        "@ + x12;
    let x14 = x13 + "\n"@;
    let x15 = "        "@ + x11;
    let x16 = x15 + ";"@;
    regrouped("        "@, x11, ";"@);
    let x17 = "        "@ + x3;
    let x18 = x17 + x10;
    regrouped("        "@, x3, x10);
    let x19 = "        "@ + x2;
    let x20 = x19 + " = "@;
    regrouped("        "@, x2, " = "@);
    let x21 = "        "@ + x1;
    let x22 = x21 + "L"@;
    regrouped("        "@, x1, "L"@);
    let x23 = "        "@ + "float3"@;
    let x24 = x23 + " "@;
    regrouped("        "@, "float3"@, " "@);
    let x25 = x24 + "L"@;
    let x26 = x25 + " = "@;
    let x27 = x26 + x10;
    let x28 = x26 + "-"@;
    let x29 = x28 + x9;
    regrouped(x26, "-"@, x9);
    let x30 = x28 + x5;
    let x31 = x30 + x8;
    regrouped(x28, x5, x8);
    let x32 = x28 + x4;
    let x33 = x32 + "]"@;
    regrouped(x28, x4, "]"@);
    let x34 = x28 + "vs_c["@;
    let x35 = x34 + dec(row);
    regrouped(x28, "vs_c["@, dec(row));
    let x36 = x35 + "]"@;
    let x37 = x36 + x8;
    let x38 = x36 + x7;
    let x39 = x38 + "z"@;
    regrouped(x36, x7, "z"@);
    let x40 = x36 + x6;
    let x41 = x40 + "y"@;
    regrouped(x36, x6, "y"@);
    let x42 = x36 + "."@;
    let x43 = x42 + "x"@;
    regrouped(x36, "."@, "x"@);
    let x44 = x43 + "y"@;
    let x45 = x44 + "z"@;
    let x46 = x45 + ";"@;
    let x47 = x46 + "\n"@;
    let x48 = "]"@ + "."@;
    let x49 = x48 + "x"@;
    let x50 = x49 + "y"@;
    let x51 = x50 + "z"@;
    let x52 = x51 + ";"@;
    let x53 = x52 + "\n"@;
    let x54 = x35 + x53;
    let x55 = x35 + x52;
    let x56 = x55 + "\n"@;
    regrouped(x35, x52, "\n"@);
    let x57 = x35 + x51;
    let x58 = x57 + ";"@;
    regrouped(x35, x51, ";"@);
    let x59 = x35 + x50;
    let x60 = x59 + "z"@;
    regrouped(x35, x50, "z"@);
    let x61 = x35 + x49;
    let x62 = x61 + "y"@;
    regrouped(x35, x49, "y"@);
    let x63 = x35 + x48;
    let x64 = x63 + "x"@;
    regrouped(x35, x48, "x"@);
    regrouped(x35, "]"@, "."@);
    assert(Seq::<char>::empty() + x34 =~= x34);
}

pub open spec fn let_rho(row: nat) -> Stmt {
    Stmt::Let(
        1,
        Name::Rho,
        call2(
            Fun2::Dot,
            neg(var(Name::ToLight)),
            part(var(Name::Row(row)), Pick::Three(Component::X, Component::Y, Component::Z)),
        ),
    )
}

pub proof fn let_rho_spelled(row: nat)
    ensures
        spells(
            Seq::<char>::empty() + "        float rho = dot(-L, vs_c["@ + dec(row) + "].xyz);\n"@,
            let_rho(row),
            2,
        ),
{
    piece_8();
    piece_9();
    reveal_with_fuel(show, 12);
    reveal_with_fuel(proper, 12);
    let x1 = "float"@ + " "@;
    let x2 = x1 + "rho"@;
    let x3 = x2 + " = "@;
    let x4 = "-"@ + "L"@;
    let x5 = "dot("@ + x4;
    let x6 = x5 + ", "@;
    let x7 = "vs_c["@ + dec(row);
    let x8 = x7 + "]"@;
    let x9 = "."@ + "x"@;
    let x10 = x9 + "y"@;
    let x11 = x10 + "z"@;
    let x12 = x8 + x11;
    let x13 = x6 + x12;
    let x14 = x13 + ")"@;
    let x15 = x3 + x14;
    let x16 = x15 + ";"@;
    let x17 = "        "@ + x16;
    let x18 = x17 + "\n"@;
    let x19 = "        "@ + x15;
    let x20 = x19 + ";"@;
    regrouped("        "@, x15, ";"@);
    let x21 = "        "@ + x3;
    let x22 = x21 + x14;
    regrouped("        "@, x3, x14);
    let x23 = "        "@ + x2;
    let x24 = x23 + " = "@;
    regrouped("        "@, x2, " = "@);
    let x25 = "        "@ + x1;
    let x26 = x25 + "rho"@;
    regrouped("        "@, x1, "rho"@);
    let x27 = "        "@ + "float"@;
    let x28 = x27 + " "@;
    regrouped("        "@, "float"@, " "@);
    let x29 = x28 + "rho"@;
    let x30 = x29 + " = "@;
    let x31 = x30 + x14;
    let x32 = x30 + x13;
    let x33 = x32 + ")"@;
    regrouped(x30, x13, ")"@);
    let x34 = x30 + x6;
    let x35 = x34 + x12;
    regrouped(x30, x6, x12);
    let x36 = x30 + x5;
    let x37 = x36 + ", "@;
    regrouped(x30, x5, ", "@);
    let x38 = x30 + "dot("@;
    let x39 = x38 + x4;
    regrouped(x30, "dot("@, x4);
    let x40 = x38 + "-"@;
    let x41 = x40 + "L"@;
    regrouped(x38, "-"@, "L"@);
    let x42 = x41 + ", "@;
    let x43 = x42 + x12;
    let x44 = x42 + x8;
    let x45 = x44 + x11;
    regrouped(x42, x8, x11);
    let x46 = x42 + x7;
    let x47 = x46 + "]"@;
    regrouped(x42, x7, "]"@);
    let x48 = x42 + "vs_c["@;
    let x49 = x48 + dec(row);
    regrouped(x42, "vs_c["@, dec(row));
    let x50 = x49 + "]"@;
    let x51 = x50 + x11;
    let x52 = x50 + x10;
    let x53 = x52 + "z"@;
    regrouped(x50, x10, "z"@);
    let x54 = x50 + x9;
    let x55 = x54 + "y"@;
    regrouped(x50, x9, "y"@);
    let x56 = x50 + "."@;
    let x57 = x56 + "x"@;
    regrouped(x50, "."@, "x"@);
    let x58 = x57 + "y"@;
    let x59 = x58 + "z"@;
    let x60 = x59 + ")"@;
    let x61 = x60 + ";"@;
    let x62 = x61 + "\n"@;
    let x63 = "]"@ + "."@;
    let x64 = x63 + "x"@;
    let x65 = x64 + "y"@;
    let x66 = x65 + "z"@;
    let x67 = x66 + ")"@;
    let x68 = x67 + ";"@;
    let x69 = x68 + "\n"@;
    let x70 = x49 + x69;
    let x71 = x49 + x68;
    let x72 = x71 + "\n"@;
    regrouped(x49, x68, "\n"@);
    let x73 = x49 + x67;
    let x74 = x73 + ";"@;
    regrouped(x49, x67, ";"@);
    let x75 = x49 + x66;
    let x76 = x75 + ")"@;
    regrouped(x49, x66, ")"@);
    let x77 = x49 + x65;
    let x78 = x77 + "z"@;
    regrouped(x49, x65, "z"@);
    let x79 = x49 + x64;
    let x80 = x79 + "y"@;
    regrouped(x49, x64, "y"@);
    let x81 = x49 + x63;
    let x82 = x81 + "x"@;
    regrouped(x49, x63, "x"@);
    regrouped(x49, "]"@, "."@);
    assert(Seq::<char>::empty() + x48 =~= x48);
}

pub open spec fn cone(a: nat, b: nat, c: nat) -> Stmt {
    Stmt::Scale(
        Name::Atten,
        call2(
            Fun2::Pow,
            call1(
                Fun1::Saturate,
                sum(
                    prod(var(Name::Rho), part(var(Name::Row(a)), Pick::One(Component::W))),
                    part(var(Name::Row(b)), Pick::One(Component::W)),
                ),
            ),
            part(var(Name::Row(c)), Pick::One(Component::W)),
        ),
    )
}

pub proof fn cone_spelled(a: nat, b: nat, c: nat)
    ensures
        spells(
            Seq::<char>::empty() + "        atten *= pow(saturate(rho * vs_c["@ + dec(a)
                + "].w + vs_c["@ + dec(b) + "].w), vs_c["@ + dec(c) + "].w);\n"@,
            cone(a, b, c),
            2,
        ),
{
    piece_10();
    piece_11();
    piece_12();
    piece_13();
    reveal_with_fuel(show, 12);
    reveal_with_fuel(proper, 12);
    let x1 = "atten"@ + " *= "@;
    let x2 = "rho"@ + " * "@;
    let x3 = "vs_c["@ + dec(a);
    let x4 = x3 + "]"@;
    let x5 = "."@ + "w"@;
    let x6 = x4 + x5;
    let x7 = x2 + x6;
    let x8 = x7 + " + "@;
    let x9 = "vs_c["@ + dec(b);
    let x10 = x9 + "]"@;
    let x11 = x10 + x5;
    let x12 = x8 + x11;
    let x13 = "saturate("@ + x12;
    let x14 = x13 + ")"@;
    let x15 = "pow("@ + x14;
    let x16 = x15 + ", "@;
    let x17 = "vs_c["@ + dec(c);
    let x18 = x17 + "]"@;
    let x19 = x18 + x5;
    let x20 = x16 + x19;
    let x21 = x20 + ")"@;
    let x22 = x1 + x21;
    let x23 = x22 + ";"@;
    let x24 = "        "@ + x23;
    let x25 = x24 + "\n"@;
    let x26 = "        "@ + x22;
    let x27 = x26 + ";"@;
    regrouped("        "@, x22, ";"@);
    let x28 = "        "@ + x1;
    let x29 = x28 + x21;
    regrouped("        "@, x1, x21);
    let x30 = "        "@ + "atten"@;
    let x31 = x30 + " *= "@;
    regrouped("        "@, "atten"@, " *= "@);
    let x32 = x31 + x21;
    let x33 = x31 + x20;
    let x34 = x33 + ")"@;
    regrouped(x31, x20, ")"@);
    let x35 = x31 + x16;
    let x36 = x35 + x19;
    regrouped(x31, x16, x19);
    let x37 = x31 + x15;
    let x38 = x37 + ", "@;
    regrouped(x31, x15, ", "@);
    let x39 = x31 + "pow("@;
    let x40 = x39 + x14;
    regrouped(x31, "pow("@, x14);
    let x41 = x39 + x13;
    let x42 = x41 + ")"@;
    regrouped(x39, x13, ")"@);
    let x43 = x39 + "saturate("@;
    let x44 = x43 + x12;
    regrouped(x39, "saturate("@, x12);
    let x45 = x43 + x8;
    let x46 = x45 + x11;
    regrouped(x43, x8, x11);
    let x47 = x43 + x7;
    let x48 = x47 + " + "@;
    regrouped(x43, x7, " + "@);
    let x49 = x43 + x2;
    let x50 = x49 + x6;
    regrouped(x43, x2, x6);
    let x51 = x43 + "rho"@;
    let x52 = x51 + " * "@;
    regrouped(x43, "rho"@, " * "@);
    let x53 = x52 + x6;
    let x54 = x52 + x4;
    let x55 = x54 + x5;
    regrouped(x52, x4, x5);
    let x56 = x52 + x3;
    let x57 = x56 + "]"@;
    regrouped(x52, x3, "]"@);
    let x58 = x52 + "vs_c["@;
    let x59 = x58 + dec(a);
    regrouped(x52, "vs_c["@, dec(a));
    let x60 = x59 + "]"@;
    let x61 = x60 + x5;
    let x62 = x60 + "."@;
    let x63 = x62 + "w"@;
    regrouped(x60, "."@, "w"@);
    let x64 = x63 + " + "@;
    let x65 = x64 + x11;
    let x66 = x64 + x10;
    let x67 = x66 + x5;
    regrouped(x64, x10, x5);
    let x68 = x64 + x9;
    let x69 = x68 + "]"@;
    regrouped(x64, x9, "]"@);
    let x70 = x64 + "vs_c["@;
    let x71 = x70 + dec(b);
    regrouped(x64, "vs_c["@, dec(b));
    let x72 = x71 + "]"@;
    let x73 = x72 + x5;
    let x74 = x72 + "."@;
    let x75 = x74 + "w"@;
    regrouped(x72, "."@, "w"@);
    let x76 = x75 + ")"@;
    let x77 = x76 + ", "@;
    let x78 = x77 + x19;
    let x79 = x77 + x18;
    let x80 = x79 + x5;
    regrouped(x77, x18, x5);
    let x81 = x77 + x17;
    let x82 = x81 + "]"@;
    regrouped(x77, x17, "]"@);
    let x83 = x77 + "vs_c["@;
    let x84 = x83 + dec(c);
    regrouped(x77, "vs_c["@, dec(c));
    let x85 = x84 + "]"@;
    let x86 = x85 + x5;
    let x87 = x85 + "."@;
    let x88 = x87 + "w"@;
    regrouped(x85, "."@, "w"@);
    let x89 = x88 + ")"@;
    let x90 = x89 + ";"@;
    let x91 = x90 + "\n"@;
    let x92 = "]"@ + "."@;
    let x93 = x92 + "w"@;
    let x94 = x93 + " + "@;
    let x95 = x94 + "vs_c["@;
    let x96 = x59 + x95;
    let x97 = x96 + dec(b);
    let x98 = x93 + ")"@;
    let x99 = x98 + ", "@;
    let x100 = x99 + "vs_c["@;
    let x101 = x97 + x100;
    let x102 = x101 + dec(c);
    let x103 = x98 + ";"@;
    let x104 = x103 + "\n"@;
    let x105 = x102 + x104;
    let x106 = x59 + x94;
    let x107 = x106 + "vs_c["@;
    regrouped(x59, x94, "vs_c["@);
    let x108 = x59 + x93;
    let x109 = x108 + " + "@;
    regrouped(x59, x93, " + "@);
    let x110 = x59 + x92;
    let x111 = x110 + "w"@;
    regrouped(x59, x92, "w"@);
    regrouped(x59, "]"@, "."@);
    let x112 = x71 + x100;
    let x113 = x71 + x99;
    let x114 = x113 + "vs_c["@;
    regrouped(x71, x99, "vs_c["@);
    let x115 = x71 + x98;
    let x116 = x115 + ", "@;
    regrouped(x71, x98, ", "@);
    let x117 = x71 + x93;
    let x118 = x117 + ")"@;
    regrouped(x71, x93, ")"@);
    let x119 = x71 + x92;
    let x120 = x119 + "w"@;
    regrouped(x71, x92, "w"@);
    regrouped(x71, "]"@, "."@);
    let x121 = x84 + x104;
    let x122 = x84 + x103;
    let x123 = x122 + "\n"@;
    regrouped(x84, x103, "\n"@);
    let x124 = x84 + x98;
    let x125 = x124 + ";"@;
    regrouped(x84, x98, ";"@);
    let x126 = x84 + x93;
    let x127 = x126 + ")"@;
    regrouped(x84, x93, ")"@);
    let x128 = x84 + x92;
    let x129 = x128 + "w"@;
    regrouped(x84, x92, "w"@);
    regrouped(x84, "]"@, "."@);
    assert(Seq::<char>::empty() + x58 =~= x58);
}

pub open spec fn let_to_light(row: nat) -> Stmt {
    Stmt::Let(
        3,
        Name::ToLightFull,
        diff(
            part(var(Name::Row(row)), Pick::Three(Component::X, Component::Y, Component::Z)),
            var(Name::PosEye),
        ),
    )
}

pub proof fn let_to_light_spelled(row: nat)
    ensures
        spells(
            Seq::<char>::empty() + "        float3 toL = vs_c["@ + dec(row) + "].xyz - posEye;\n"@,
            let_to_light(row),
            2,
        ),
{
    piece_14();
    piece_15();
    reveal_with_fuel(show, 12);
    reveal_with_fuel(proper, 12);
    let x1 = "float3"@ + " "@;
    let x2 = x1 + "toL"@;
    let x3 = x2 + " = "@;
    let x4 = "vs_c["@ + dec(row);
    let x5 = x4 + "]"@;
    let x6 = "."@ + "x"@;
    let x7 = x6 + "y"@;
    let x8 = x7 + "z"@;
    let x9 = x5 + x8;
    let x10 = x9 + " - "@;
    let x11 = x10 + "posEye"@;
    let x12 = x3 + x11;
    let x13 = x12 + ";"@;
    let x14 = "        "@ + x13;
    let x15 = x14 + "\n"@;
    let x16 = "        "@ + x12;
    let x17 = x16 + ";"@;
    regrouped("        "@, x12, ";"@);
    let x18 = "        "@ + x3;
    let x19 = x18 + x11;
    regrouped("        "@, x3, x11);
    let x20 = "        "@ + x2;
    let x21 = x20 + " = "@;
    regrouped("        "@, x2, " = "@);
    let x22 = "        "@ + x1;
    let x23 = x22 + "toL"@;
    regrouped("        "@, x1, "toL"@);
    let x24 = "        "@ + "float3"@;
    let x25 = x24 + " "@;
    regrouped("        "@, "float3"@, " "@);
    let x26 = x25 + "toL"@;
    let x27 = x26 + " = "@;
    let x28 = x27 + x11;
    let x29 = x27 + x10;
    let x30 = x29 + "posEye"@;
    regrouped(x27, x10, "posEye"@);
    let x31 = x27 + x9;
    let x32 = x31 + " - "@;
    regrouped(x27, x9, " - "@);
    let x33 = x27 + x5;
    let x34 = x33 + x8;
    regrouped(x27, x5, x8);
    let x35 = x27 + x4;
    let x36 = x35 + "]"@;
    regrouped(x27, x4, "]"@);
    let x37 = x27 + "vs_c["@;
    let x38 = x37 + dec(row);
    regrouped(x27, "vs_c["@, dec(row));
    let x39 = x38 + "]"@;
    let x40 = x39 + x8;
    let x41 = x39 + x7;
    let x42 = x41 + "z"@;
    regrouped(x39, x7, "z"@);
    let x43 = x39 + x6;
    let x44 = x43 + "y"@;
    regrouped(x39, x6, "y"@);
    let x45 = x39 + "."@;
    let x46 = x45 + "x"@;
    regrouped(x39, "."@, "x"@);
    let x47 = x46 + "y"@;
    let x48 = x47 + "z"@;
    let x49 = x48 + " - "@;
    let x50 = x49 + "posEye"@;
    let x51 = x50 + ";"@;
    let x52 = x51 + "\n"@;
    let x53 = "]"@ + "."@;
    let x54 = x53 + "x"@;
    let x55 = x54 + "y"@;
    let x56 = x55 + "z"@;
    let x57 = x56 + " - "@;
    let x58 = x57 + "posEye"@;
    let x59 = x58 + ";"@;
    let x60 = x59 + "\n"@;
    let x61 = x38 + x60;
    let x62 = x38 + x59;
    let x63 = x62 + "\n"@;
    regrouped(x38, x59, "\n"@);
    let x64 = x38 + x58;
    let x65 = x64 + ";"@;
    regrouped(x38, x58, ";"@);
    let x66 = x38 + x57;
    let x67 = x66 + "posEye"@;
    regrouped(x38, x57, "posEye"@);
    let x68 = x38 + x56;
    let x69 = x68 + " - "@;
    regrouped(x38, x56, " - "@);
    let x70 = x38 + x55;
    let x71 = x70 + "z"@;
    regrouped(x38, x55, "z"@);
    let x72 = x38 + x54;
    let x73 = x72 + "y"@;
    regrouped(x38, x54, "y"@);
    let x74 = x38 + x53;
    let x75 = x74 + "x"@;
    regrouped(x38, x53, "x"@);
    regrouped(x38, "]"@, "."@);
    assert(Seq::<char>::empty() + x37 =~= x37);
}

pub open spec fn let_factors(row: nat) -> Stmt {
    Stmt::Let(4, Name::AttenK, var(Name::Row(row)))
}

pub proof fn let_factors_spelled(row: nat)
    ensures
        spells(
            Seq::<char>::empty() + "        float4 atten_k = vs_c["@ + dec(row) + "];\n"@,
            let_factors(row),
            2,
        ),
{
    piece_16();
    piece_17();
    reveal_with_fuel(show, 12);
    reveal_with_fuel(proper, 12);
    assert(Seq::<char>::empty() + "        float4 atten_k = vs_c["@ + dec(row) + "];\n"@
        =~= listing(let_factors(row), 2));
}

pub open spec fn grow_diffuse(row: nat, d: Expr) -> Stmt {
    Stmt::Grow(
        Name::DiffuseAccum,
        prod(prod(var(Name::Atten), var(Name::Ndotl)), paren(prod(var(Name::Row(row)), d))),
    )
}

pub proof fn grow_diffuse_spelled(row: nat, d: Expr)
    requires
        proper(d),
        level(d) >= 7,
    ensures
        spells(
            Seq::<char>::empty() + "        diffuseAccum += atten * ndotl * (vs_c["@ + dec(row)
                + "] * "@ + show(d) + ");\n"@,
            grow_diffuse(row, d),
            2,
        ),
{
    piece_18();
    piece_19();
    piece_20();
    reveal_with_fuel(show, 12);
    reveal_with_fuel(proper, 12);
    let x1 = "diffuseAccum"@ + " += "@;
    let x2 = "atten"@ + " * "@;
    let x3 = x2 + "ndotl"@;
    let x4 = x3 + " * "@;
    let x5 = "vs_c["@ + dec(row);
    let x6 = x5 + "]"@;
    let x7 = x6 + " * "@;
    let x8 = x7 + show(d);
    let x9 = "("@ + x8;
    let x10 = x9 + ")"@;
    let x11 = x4 + x10;
    let x12 = x1 + x11;
    let x13 = x12 + ";"@;
    let x14 = "        "@ + x13;
    let x15 = x14 + "\n"@;
    let x16 = "        "@ + x12;
    let x17 = x16 + ";"@;
    regrouped("        "@, x12, ";"@);
    let x18 = "        "@ + x1;
    let x19 = x18 + x11;
    regrouped("        "@, x1, x11);
    let x20 = "        "@ + "diffuseAccum"@;
    let x21 = x20 + " += "@;
    regrouped("        "@, "diffuseAccum"@, " += "@);
    let x22 = x21 + x11;
    let x23 = x21 + x4;
    let x24 = x23 + x10;
    regrouped(x21, x4, x10);
    let x25 = x21 + x3;
    let x26 = x25 + " * "@;
    regrouped(x21, x3, " * "@);
    let x27 = x21 + x2;
    let x28 = x27 + "ndotl"@;
    regrouped(x21, x2, "ndotl"@);
    let x29 = x21 + "atten"@;
    let x30 = x29 + " * "@;
    regrouped(x21, "atten"@, " * "@);
    let x31 = x30 + "ndotl"@;
    let x32 = x31 + " * "@;
    let x33 = x32 + x10;
    let x34 = x32 + x9;
    let x35 = x34 + ")"@;
    regrouped(x32, x9, ")"@);
    let x36 = x32 + "("@;
    let x37 = x36 + x8;
    regrouped(x32, "("@, x8);
    let x38 = x36 + x7;
    let x39 = x38 + show(d);
    regrouped(x36, x7, show(d));
    let x40 = x36 + x6;
    let x41 = x40 + " * "@;
    regrouped(x36, x6, " * "@);
    let x42 = x36 + x5;
    let x43 = x42 + "]"@;
    regrouped(x36, x5, "]"@);
    let x44 = x36 + "vs_c["@;
    let x45 = x44 + dec(row);
    regrouped(x36, "vs_c["@, dec(row));
    let x46 = x45 + "]"@;
    let x47 = x46 + " * "@;
    let x48 = x47 + show(d);
    let x49 = x48 + ")"@;
    let x50 = x49 + ";"@;
    let x51 = x50 + "\n"@;
    let x52 = "]"@ + " * "@;
    let x53 = x45 + x52;
    let x54 = x53 + show(d);
    let x55 = ")"@ + ";"@;
    let x56 = x55 + "\n"@;
    let x57 = x54 + x56;
    regrouped(x45, "]"@, " * "@);
    let x58 = x48 + x56;
    let x59 = x48 + x55;
    let x60 = x59 + "\n"@;
    regrouped(x48, x55, "\n"@);
    regrouped(x48, ")"@, ";"@);
    assert(Seq::<char>::empty() + x44 =~= x44);
}

pub open spec fn grow_ambient(row: nat, d: Expr) -> Stmt {
    Stmt::Grow(Name::DiffuseAccum, prod(var(Name::Atten), paren(prod(var(Name::Row(row)), d))))
}

pub proof fn grow_ambient_spelled(row: nat, d: Expr)
    requires
        proper(d),
        level(d) >= 7,
    ensures
        spells(
            Seq::<char>::empty() + "        diffuseAccum += atten * (vs_c["@ + dec(row) + "] * "@
                + show(d) + ");\n"@,
            grow_ambient(row, d),
            2,
        ),
{
    piece_21();
    piece_19();
    piece_20();
    reveal_with_fuel(show, 12);
    reveal_with_fuel(proper, 12);
    assert(Seq::<char>::empty() + "        diffuseAccum += atten * (vs_c["@ + dec(row) + "] * "@ + show(d)
        + ");\n"@
        =~= listing(grow_ambient(row, d), 2));
}

pub open spec fn grow_highlights(row: nat, d: Expr) -> Stmt {
    Stmt::Grow(
        Name::SpecAccum,
        prod(
            prod(var(Name::Atten), var(Name::SpecFactor)),
            paren(
                prod(
                    part(
                        var(Name::Row(row)),
                        Pick::Three(Component::R, Component::G, Component::B),
                    ),
                    part(d, Pick::Three(Component::R, Component::G, Component::B)),
                ),
            ),
        ),
    )
}

pub proof fn grow_highlights_spelled(row: nat, d: Expr)
    requires
        proper(d),
        level(d) >= 7,
    ensures
        spells(
            Seq::<char>::empty() + "        specAccum += atten * specFactor * (vs_c["@ + dec(row)
                + "].rgb * "@ + show(d) + ".rgb);\n"@,
            grow_highlights(row, d),
            2,
        ),
{
    piece_22();
    piece_23();
    piece_24();
    reveal_with_fuel(show, 12);
    reveal_with_fuel(proper, 12);
    let x1 = "specAccum"@ + " += "@;
    let x2 = "atten"@ + " * "@;
    let x3 = x2 + "specFactor"@;
    let x4 = x3 + " * "@;
    let x5 = "vs_c["@ + dec(row);
    let x6 = x5 + "]"@;
    let x7 = "."@ + "r"@;
    let x8 = x7 + "g"@;
    let x9 = x8 + "b"@;
    let x10 = x6 + x9;
    let x11 = x10 + " * "@;
    let x12 = show(d) + x9;
    let x13 = x11 + x12;
    let x14 = "("@ + x13;
    let x15 = x14 + ")"@;
    let x16 = x4 + x15;
    let x17 = x1 + x16;
    let x18 = x17 + ";"@;
    let x19 = "        "@ + x18;
    let x20 = x19 + "\n"@;
    let x21 = "        "@ + x17;
    let x22 = x21 + ";"@;
    regrouped("        "@, x17, ";"@);
    let x23 = "        "@ + x1;
    let x24 = x23 + x16;
    regrouped("        "@, x1, x16);
    let x25 = "        "@ + "specAccum"@;
    let x26 = x25 + " += "@;
    regrouped("        "@, "specAccum"@, " += "@);
    let x27 = x26 + x16;
    let x28 = x26 + x4;
    let x29 = x28 + x15;
    regrouped(x26, x4, x15);
    let x30 = x26 + x3;
    let x31 = x30 + " * "@;
    regrouped(x26, x3, " * "@);
    let x32 = x26 + x2;
    let x33 = x32 + "specFactor"@;
    regrouped(x26, x2, "specFactor"@);
    let x34 = x26 + "atten"@;
    let x35 = x34 + " * "@;
    regrouped(x26, "atten"@, " * "@);
    let x36 = x35 + "specFactor"@;
    let x37 = x36 + " * "@;
    let x38 = x37 + x15;
    let x39 = x37 + x14;
    let x40 = x39 + ")"@;
    regrouped(x37, x14, ")"@);
    let x41 = x37 + "("@;
    let x42 = x41 + x13;
    regrouped(x37, "("@, x13);
    let x43 = x41 + x11;
    let x44 = x43 + x12;
    regrouped(x41, x11, x12);
    let x45 = x41 + x10;
    let x46 = x45 + " * "@;
    regrouped(x41, x10, " * "@);
    let x47 = x41 + x6;
    let x48 = x47 + x9;
    regrouped(x41, x6, x9);
    let x49 = x41 + x5;
    let x50 = x49 + "]"@;
    regrouped(x41, x5, "]"@);
    let x51 = x41 + "vs_c["@;
    let x52 = x51 + dec(row);
    regrouped(x41, "vs_c["@, dec(row));
    let x53 = x52 + "]"@;
    let x54 = x53 + x9;
    let x55 = x53 + x8;
    let x56 = x55 + "b"@;
    regrouped(x53, x8, "b"@);
    let x57 = x53 + x7;
    let x58 = x57 + "g"@;
    regrouped(x53, x7, "g"@);
    let x59 = x53 + "."@;
    let x60 = x59 + "r"@;
    regrouped(x53, "."@, "r"@);
    let x61 = x60 + "g"@;
    let x62 = x61 + "b"@;
    let x63 = x62 + " * "@;
    let x64 = x63 + x12;
    let x65 = x63 + show(d);
    let x66 = x65 + x9;
    regrouped(x63, show(d), x9);
    let x67 = x65 + x8;
    let x68 = x67 + "b"@;
    regrouped(x65, x8, "b"@);
    let x69 = x65 + x7;
    let x70 = x69 + "g"@;
    regrouped(x65, x7, "g"@);
    let x71 = x65 + "."@;
    let x72 = x71 + "r"@;
    regrouped(x65, "."@, "r"@);
    let x73 = x72 + "g"@;
    let x74 = x73 + "b"@;
    let x75 = x74 + ")"@;
    let x76 = x75 + ";"@;
    let x77 = x76 + "\n"@;
    let x78 = "]"@ + "."@;
    let x79 = x78 + "r"@;
    let x80 = x79 + "g"@;
    let x81 = x80 + "b"@;
    let x82 = x81 + " * "@;
    let x83 = x52 + x82;
    let x84 = x83 + show(d);
    let x85 = x9 + ")"@;
    let x86 = x85 + ";"@;
    let x87 = x86 + "\n"@;
    let x88 = x84 + x87;
    let x89 = x52 + x81;
    let x90 = x89 + " * "@;
    regrouped(x52, x81, " * "@);
    let x91 = x52 + x80;
    let x92 = x91 + "b"@;
    regrouped(x52, x80, "b"@);
    let x93 = x52 + x79;
    let x94 = x93 + "g"@;
    regrouped(x52, x79, "g"@);
    let x95 = x52 + x78;
    let x96 = x95 + "r"@;
    regrouped(x52, x78, "r"@);
    regrouped(x52, "]"@, "."@);
    let x97 = x65 + x87;
    let x98 = x65 + x86;
    let x99 = x98 + "\n"@;
    regrouped(x65, x86, "\n"@);
    let x100 = x65 + x85;
    let x101 = x100 + ";"@;
    regrouped(x65, x85, ";"@);
    let x102 = x66 + ")"@;
    regrouped(x65, x9, ")"@);
    assert(Seq::<char>::empty() + x51 =~= x51);
}

pub open spec fn let_diffuse(e: Expr, a: Expr) -> Stmt {
    Stmt::Let(4, Name::DiffuseAccum, sum(e, prod(var(Name::Row(9)), a)))
}

pub proof fn let_diffuse_spelled(e: Expr, a: Expr)
    requires
        proper(e),
        level(e) >= 7,
        proper(a),
        level(a) >= 7,
    ensures
        spells(
            Seq::<char>::empty() + "    float4 diffuseAccum = "@ + show(e) + " + vs_c[9] * "@
                + show(a) + ";\n"@,
            let_diffuse(e, a),
            1,
        ),
{
    piece_25();
    piece_26();
    piece_3();
    reveal_with_fuel(show, 12);
    reveal_with_fuel(proper, 12);
    assert(Seq::<char>::empty() + "    float4 diffuseAccum = "@ + show(e) + " + vs_c[9] * "@ + show(a)
        + ";\n"@
        =~= listing(let_diffuse(e, a), 1));
}

pub open spec fn set_alpha(d: Expr) -> Stmt {
    Stmt::AssignPart(Name::Lit, Component::A, part(d, Pick::One(Component::A)))
}

pub proof fn set_alpha_spelled(d: Expr)
    requires
        proper(d),
        level(d) >= 7,
    ensures
        spells(Seq::<char>::empty() + "    lit.a = "@ + show(d) + ".a;\n"@, set_alpha(d), 1),
{
    piece_27();
    piece_28();
    reveal_with_fuel(show, 12);
    reveal_with_fuel(proper, 12);
    assert(Seq::<char>::empty() + "    lit.a = "@ + show(d) + ".a;\n"@ =~= listing(set_alpha(d), 1));
}

pub open spec fn diffuse_of_vertex() -> Expr {
    var(Name::Attribute(2))
}

pub proof fn diffuse_of_vertex_spelled()
    ensures
        spells_value("in.v2"@, diffuse_of_vertex()),
{
    reveal_strlit("in.v2");
    reveal_strlit("in.v");
    short_numbers(2);
    reveal_with_fuel(show, 12);
    reveal_with_fuel(proper, 12);
    reveal_with_fuel(same_chars, 7);
    let a = "in.v2"@;
    let b = show(diffuse_of_vertex());
    assert(a.len() == b.len());
    same_each(a, b, 0, 5);
    assert(a =~= b);
}

pub open spec fn specular_of_vertex() -> Expr {
    var(Name::Attribute(3))
}

pub proof fn specular_of_vertex_spelled()
    ensures
        spells_value("in.v3"@, specular_of_vertex()),
{
    reveal_strlit("in.v3");
    reveal_strlit("in.v");
    short_numbers(3);
    reveal_with_fuel(show, 12);
    reveal_with_fuel(proper, 12);
    reveal_with_fuel(same_chars, 7);
    let a = "in.v3"@;
    let b = show(specular_of_vertex());
    assert(a.len() == b.len());
    same_each(a, b, 0, 5);
    assert(a =~= b);
}

} // verus!
