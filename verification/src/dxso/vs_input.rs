//! Which element of a vertex feeds which input of the vertex shader.

use super::ff::{attr_index, FfVsKey};
use super::ff_vs::{emit_vertex_in_text, vertex_in_coord_text};
use super::shading::{same_chars, same_each, short_numbers};
use crate::text::{dec, each, equal_pieces, given};
use vstd::prelude::*;

verus! {

/// The declaration of an input at an attribute.
pub open spec fn declaration(kind: Seq<char>, input: Seq<char>, at: nat) -> Seq<char> {
    "    "@ + kind + " "@ + input + " [[attribute("@ + dec(at) + ")]];\n"@
}

/// The declaration of the input that elements with a usage and an index feed.
pub open spec fn fed_by(
    usage: u8,
    usage_index: u8,
    kind: Seq<char>,
    input: Seq<char>,
) -> Seq<char> {
    match attr_index(usage, usage_index) {
        Some(at) => declaration(kind, input, at as nat),
        None => Seq::empty(),
    }
}

proof fn position_declared()
    ensures
        "    float4 v0 [[attribute(0)]];\n"@ == "    "@ + "float4"@ + " "@ + "v0"@ + " [[attribute("@ + dec(0) + ")]];\n"@,
{
    reveal_strlit("    float4 v0 [[attribute(0)]];\n");
    reveal_strlit("    ");
    reveal_strlit("float4");
    reveal_strlit(" ");
    reveal_strlit("v0");
    reveal_strlit(" [[attribute(");
    reveal_strlit(")]];\n");
    short_numbers(0);
    reveal_with_fuel(same_chars, 34);
    let a = "    float4 v0 [[attribute(0)]];\n"@;
    let b = "    "@ + "float4"@ + " "@ + "v0"@ + " [[attribute("@ + dec(0) + ")]];\n"@;
    assert(a.len() == b.len());
    same_each(a, b, 0, 32);
    assert(a =~= b);
}

proof fn normal_declared()
    ensures
        "    float4 v1 [[attribute(1)]];\n"@ == "    "@ + "float4"@ + " "@ + "v1"@ + " [[attribute("@ + dec(1) + ")]];\n"@,
{
    reveal_strlit("    float4 v1 [[attribute(1)]];\n");
    reveal_strlit("    ");
    reveal_strlit("float4");
    reveal_strlit(" ");
    reveal_strlit("v1");
    reveal_strlit(" [[attribute(");
    reveal_strlit(")]];\n");
    short_numbers(1);
    reveal_with_fuel(same_chars, 34);
    let a = "    float4 v1 [[attribute(1)]];\n"@;
    let b = "    "@ + "float4"@ + " "@ + "v1"@ + " [[attribute("@ + dec(1) + ")]];\n"@;
    assert(a.len() == b.len());
    same_each(a, b, 0, 32);
    assert(a =~= b);
}

proof fn diffuse_declared()
    ensures
        "    float4 v2 [[attribute(2)]];\n"@ == "    "@ + "float4"@ + " "@ + "v2"@ + " [[attribute("@ + dec(2) + ")]];\n"@,
{
    reveal_strlit("    float4 v2 [[attribute(2)]];\n");
    reveal_strlit("    ");
    reveal_strlit("float4");
    reveal_strlit(" ");
    reveal_strlit("v2");
    reveal_strlit(" [[attribute(");
    reveal_strlit(")]];\n");
    short_numbers(2);
    reveal_with_fuel(same_chars, 34);
    let a = "    float4 v2 [[attribute(2)]];\n"@;
    let b = "    "@ + "float4"@ + " "@ + "v2"@ + " [[attribute("@ + dec(2) + ")]];\n"@;
    assert(a.len() == b.len());
    same_each(a, b, 0, 32);
    assert(a =~= b);
}

proof fn specular_declared()
    ensures
        "    float4 v3 [[attribute(3)]];\n"@ == "    "@ + "float4"@ + " "@ + "v3"@ + " [[attribute("@ + dec(3) + ")]];\n"@,
{
    reveal_strlit("    float4 v3 [[attribute(3)]];\n");
    reveal_strlit("    ");
    reveal_strlit("float4");
    reveal_strlit(" ");
    reveal_strlit("v3");
    reveal_strlit(" [[attribute(");
    reveal_strlit(")]];\n");
    short_numbers(3);
    reveal_with_fuel(same_chars, 34);
    let a = "    float4 v3 [[attribute(3)]];\n"@;
    let b = "    "@ + "float4"@ + " "@ + "v3"@ + " [[attribute("@ + dec(3) + ")]];\n"@;
    assert(a.len() == b.len());
    same_each(a, b, 0, 32);
    assert(a =~= b);
}

proof fn weights_declared()
    ensures
        "    float4 blend_weight [[attribute(12)]];\n"@ == "    "@ + "float4"@ + " "@ + "blend_weight"@ + " [[attribute("@ + dec(12) + ")]];\n"@,
{
    reveal_strlit("    float4 blend_weight [[attribute(12)]];\n");
    reveal_strlit("    ");
    reveal_strlit("float4");
    reveal_strlit(" ");
    reveal_strlit("blend_weight");
    reveal_strlit(" [[attribute(");
    reveal_strlit(")]];\n");
    short_numbers(12);
    reveal_with_fuel(same_chars, 17);
    let a = "    float4 blend_weight [[attribute(12)]];\n"@;
    let b = "    "@ + "float4"@ + " "@ + "blend_weight"@ + " [[attribute("@ + dec(12) + ")]];\n"@;
    assert(a.len() == b.len());
    same_each(a, b, 0, 15);
    same_each(a, b, 15, 30);
    same_each(a, b, 30, 43);
    assert(a =~= b);
}

proof fn indices_declared()
    ensures
        "    uint4 blend_indices [[attribute(13)]];\n"@ == "    "@ + "uint4"@ + " "@ + "blend_indices"@ + " [[attribute("@ + dec(13) + ")]];\n"@,
{
    reveal_strlit("    uint4 blend_indices [[attribute(13)]];\n");
    reveal_strlit("    ");
    reveal_strlit("uint4");
    reveal_strlit(" ");
    reveal_strlit("blend_indices");
    reveal_strlit(" [[attribute(");
    reveal_strlit(")]];\n");
    short_numbers(13);
    reveal_with_fuel(same_chars, 17);
    let a = "    uint4 blend_indices [[attribute(13)]];\n"@;
    let b = "    "@ + "uint4"@ + " "@ + "blend_indices"@ + " [[attribute("@ + dec(13) + ")]];\n"@;
    assert(a.len() == b.len());
    same_each(a, b, 0, 15);
    same_each(a, b, 15, 30);
    same_each(a, b, 30, 43);
    assert(a =~= b);
}

proof fn size_declared()
    ensures
        "    float4 psize [[attribute(14)]];\n"@ == "    "@ + "float4"@ + " "@ + "psize"@ + " [[attribute("@ + dec(14) + ")]];\n"@,
{
    reveal_strlit("    float4 psize [[attribute(14)]];\n");
    reveal_strlit("    ");
    reveal_strlit("float4");
    reveal_strlit(" ");
    reveal_strlit("psize");
    reveal_strlit(" [[attribute(");
    reveal_strlit(")]];\n");
    short_numbers(14);
    reveal_with_fuel(same_chars, 17);
    let a = "    float4 psize [[attribute(14)]];\n"@;
    let b = "    "@ + "float4"@ + " "@ + "psize"@ + " [[attribute("@ + dec(14) + ")]];\n"@;
    assert(a.len() == b.len());
    same_each(a, b, 0, 15);
    same_each(a, b, 15, 30);
    same_each(a, b, 30, 36);
    assert(a =~= b);
}

proof fn v0_named()
    ensures
        "v0"@ == "v"@ + dec(0),
{
    reveal_strlit("v0");
    reveal_strlit("v");
    short_numbers(0);
    reveal_with_fuel(same_chars, 4);
    let a = "v0"@;
    let b = "v"@ + dec(0);
    assert(a.len() == b.len());
    same_each(a, b, 0, 2);
    assert(a =~= b);
}

proof fn v1_named()
    ensures
        "v1"@ == "v"@ + dec(1),
{
    reveal_strlit("v1");
    reveal_strlit("v");
    short_numbers(1);
    reveal_with_fuel(same_chars, 4);
    let a = "v1"@;
    let b = "v"@ + dec(1);
    assert(a.len() == b.len());
    same_each(a, b, 0, 2);
    assert(a =~= b);
}

proof fn v2_named()
    ensures
        "v2"@ == "v"@ + dec(2),
{
    reveal_strlit("v2");
    reveal_strlit("v");
    short_numbers(2);
    reveal_with_fuel(same_chars, 4);
    let a = "v2"@;
    let b = "v"@ + dec(2);
    assert(a.len() == b.len());
    same_each(a, b, 0, 2);
    assert(a =~= b);
}

proof fn v3_named()
    ensures
        "v3"@ == "v"@ + dec(3),
{
    reveal_strlit("v3");
    reveal_strlit("v");
    short_numbers(3);
    reveal_with_fuel(same_chars, 4);
    let a = "v3"@;
    let b = "v"@ + dec(3);
    assert(a.len() == b.len());
    same_each(a, b, 0, 2);
    assert(a =~= b);
}

proof fn coord_head()
    ensures
        "    float4 v"@ == "    "@ + "float4"@ + " "@ + "v"@,
{
    reveal_strlit("    float4 v");
    reveal_strlit("    ");
    reveal_strlit("float4");
    reveal_strlit(" ");
    reveal_strlit("v");
    reveal_with_fuel(same_chars, 14);
    let a = "    float4 v"@;
    let b = "    "@ + "float4"@ + " "@ + "v"@;
    assert(a.len() == b.len());
    same_each(a, b, 0, 12);
    assert(a =~= b);
}

proof fn coord_declared(i: int)
    requires
        0 <= i,
    ensures
        vertex_in_coord_text(i) == declaration("float4"@, "v"@ + dec((4 + i) as nat), (4 + i) as nat),
{
    coord_head();
    let d = dec((4 + i) as nat);
    assert(Seq::<char>::empty() + ("    "@ + "float4"@ + " "@ + "v"@) + d + " [[attribute("@ + d
        + ")]];\n"@ =~= "    "@ + "float4"@ + " "@ + ("v"@ + d) + " [[attribute("@ + d + ")]];\n"@);
}

/// Every input is declared at the attribute that its element feeds: the position (0), the
/// normal (3), the two colours (10), the coordinate sets (5), the weights (1) and indices (2)
/// of blending, and the size (4). The inputs `v0` to `v3` and those of the coordinate sets are
/// those that the statements of the shader name by the number of the attribute.
pub proof fn inputs_are_fed_by_their_elements(k: FfVsKey)
    requires
        k.input_tex_coord_count <= 8,
    ensures
        emit_vertex_in_text(k) == Seq::<char>::empty() + "struct VertexIn {\n"@ + fed_by(
            0,
            0,
            "float4"@,
            "v"@ + dec(0),
        ) + given(k.flags.has_normal, fed_by(3, 0, "float4"@, "v"@ + dec(1))) + given(
            k.flags.has_color0,
            fed_by(10, 0, "float4"@, "v"@ + dec(2)),
        ) + given(k.flags.has_color1, fed_by(10, 1, "float4"@, "v"@ + dec(3))) + each(
            k.input_tex_coord_count as nat,
            |i: int| fed_by(5, i as u8, "float4"@, "v"@ + dec((4 + i) as nat)),
        ) + given(
            k.vertex_blend_count > 0 && k.declared_weights_count > 0,
            fed_by(1, 0, "float4"@, "blend_weight"@),
        ) + given(
            k.vertex_blend_count > 0 && k.flags.declared_indices,
            fed_by(2, 0, "uint4"@, "blend_indices"@),
        ) + given(k.flags.has_psize, fed_by(4, 0, "float4"@, "psize"@)) + "};\n\n"@,
{
    position_declared();
    normal_declared();
    diffuse_declared();
    specular_declared();
    weights_declared();
    indices_declared();
    size_declared();
    v0_named();
    v1_named();
    v2_named();
    v3_named();
    let n = k.input_tex_coord_count as nat;
    let f = |i: int| vertex_in_coord_text(i);
    let g = |i: int| fed_by(5, i as u8, "float4"@, "v"@ + dec((4 + i) as nat));
    assert forall|i: int| 0 <= i < n implies #[trigger] f(i) == g(i) by {
        coord_declared(i);
    }
    equal_pieces(n, f, g);
}

/// Vertices that are already transformed feed the same input as others.
pub proof fn positions_feed_one_input(usage_index: u8)
    ensures
        attr_index(9, usage_index) == attr_index(0, usage_index),
{
}

} // verus!
