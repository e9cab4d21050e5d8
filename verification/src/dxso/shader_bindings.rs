//! That a pixel shader declares textures and samplers in its parameter list and nowhere
//! else.

use super::binding_laws::{
    bindings_are_short, declared_bindings_are_the_sampled_stages, occurs, occurs_at,
    sampler_binding, texture_binding,
};
use super::ff::{active_stages, active_stages_are_the_leading_ones, FfPsKey, FfStage};
use super::ff_ps::{
    alpha_condition, alpha_test_text, apply_op_text, blend_text, color_sample_text, combined_text,
    depth_compare_text, depth_fetch_text, emit_ps_ff_named_text, emit_ps_text, joined,
    lod_bias_arg_text, masked_return_text, ps_args_text, ps_head_text, ps_tail_text,
    resolve_arg_text, sample_bias_text, selected_text, stage_combine_text, stage_sample_text,
    stage_text, stage_uv_text, stages_text, texture_arg_text, texture_args_text,
    texture_or_current, uv_divide_text, uv_test_text,
};
use super::ff_vs::{
    emit_varyings_text, varying_color_text, varying_coord_text, varying_coords_text,
};
use super::variant::{SharedText, VariantKey};
use crate::text::{dec, digit, each, given};
use vstd::prelude::*;

verus! {

/// Whether a text binds nothing to texture `i` and nothing to sampler `i`.
pub open spec fn holds_no_binding(text: Seq<char>, i: int) -> bool {
    !occurs(texture_binding(i), text) && !occurs(sampler_binding(i), text)
}

#[verifier::opaque]
spec fn quiet(text: Seq<char>, i: int) -> bool {
    holds_no_binding(text, i)
}

spec fn double_at(s: Seq<char>, p: int) -> bool {
    s[p] == '[' && s[p + 1] == '['
}

/// Whether the two brackets at `p` are followed by what is no binding of a texture or of
/// a sampler, whatever stands behind `s`.
spec fn harmless_at(s: Seq<char>, p: int) -> bool {
    &&& p + 2 < s.len()
    &&& s[p + 2] != 't'
    &&& s[p + 2] == 's' ==> p + 8 < s.len() && s[p + 8] != 'r'
}

/// Whether a text starts with no bracket and has only harmless double ones.
#[verifier::opaque]
spec fn tame(s: Seq<char>) -> bool {
    &&& s.len() > 0 ==> s[0] != '['
    &&& forall|p: int| 0 <= p < s.len() - 1 && #[trigger] double_at(s, p) ==> harmless_at(s, p)
}

spec fn tame_from(s: Seq<char>, m: int) -> bool
    decreases s.len() - m,
{
    m + 1 >= s.len() || ((double_at(s, m) ==> harmless_at(s, m)) && tame_from(s, m + 1))
}

proof fn tame_from_each(s: Seq<char>, m: int)
    requires
        tame_from(s, m),
    ensures
        forall|p: int| m <= p < s.len() - 1 && #[trigger] double_at(s, p) ==> harmless_at(s, p),
    decreases s.len() - m,
{
    if m + 1 < s.len() {
        tame_from_each(s, m + 1);
    }
}

proof fn tame_by_steps(s: Seq<char>)
    requires
        s.len() > 0 ==> s[0] != '[',
        tame_from(s, 0),
    ensures
        tame(s),
{
    reveal(tame);
    tame_from_each(s, 0);
}

broadcast proof fn tame_join(a: Seq<char>, b: Seq<char>)
    requires
        tame(a),
        tame(b),
    ensures
        #[trigger] tame(a + b),
{
    reveal(tame);
    let s = a + b;
    assert forall|p: int| 0 <= p < s.len() - 1 && #[trigger] double_at(s, p) implies harmless_at(
        s,
        p,
    ) by {
        if p + 1 < a.len() {
            assert(double_at(a, p));
        } else if p >= a.len() {
            assert(double_at(b, p - a.len()));
        } else {
            assert(s[p + 1] == b[0]);
        }
    }
}

/// Whether a text can be told from the inside of a binding by its first two characters.
spec fn safe_pair(a: char, b: char) -> bool {
    ||| a == ' ' || a == '\n' || a == ',' || a == 'f' || a == '#' || a == '}'
    ||| a == 's' && b == 't'
    ||| a == '(' && b == '\n'
    ||| a == 'u' && b == 's'
}

#[verifier::opaque]
spec fn leads(s: Seq<char>) -> bool {
    s.len() >= 2 && safe_pair(s[0], s[1])
}

#[verifier::opaque]
spec fn starts_apart(s: Seq<char>) -> bool {
    s.len() == 0 || leads(s)
}

#[verifier::opaque]
spec fn ends_apart(s: Seq<char>) -> bool {
    s.len() > 0 && (s.last() == ' ' || s.last() == '\n')
}

broadcast proof fn leading_starts(s: Seq<char>)
    requires
        #[trigger] leads(s),
    ensures
        starts_apart(s),
{
    reveal(starts_apart);
}

broadcast proof fn leads_join(a: Seq<char>, b: Seq<char>)
    requires
        leads(a) || (starts_apart(a) && leads(b)),
    ensures
        #[trigger] leads(a + b),
{
    reveal(leads);
    reveal(starts_apart);
    if a.len() == 0 {
        assert(a + b =~= b);
    }
}

broadcast proof fn starts_join(a: Seq<char>, b: Seq<char>)
    requires
        starts_apart(a),
        starts_apart(b),
    ensures
        #[trigger] starts_apart(a + b),
{
    reveal(leads);
    reveal(starts_apart);
    if a.len() == 0 {
        assert(a + b =~= b);
    }
}

broadcast proof fn ends_join(a: Seq<char>, b: Seq<char>)
    requires
        ends_apart(b),
    ensures
        #[trigger] ends_apart(a + b),
{
    reveal(ends_apart);
}

proof fn empty_is_tame()
    ensures
        tame(Seq::<char>::empty()),
        starts_apart(Seq::<char>::empty()),
{
    reveal(tame);
    reveal(starts_apart);
}

proof fn numbers_have_no_bracket(n: nat)
    ensures
        dec(n).len() > 0,
        forall|j: int| 0 <= j < dec(n).len() ==> #[trigger] dec(n)[j] != '[',
    decreases n,
{
    if n >= 10 {
        numbers_have_no_bracket(n / 10);
    }
}

broadcast proof fn numbers_are_tame(n: nat)
    ensures
        tame(#[trigger] dec(n)),
{
    reveal(tame);
    numbers_have_no_bracket(n);
}

/// What stands inside a binding: after an `s` an `a`, after a parenthesis no line's end.
proof fn inside_of_bindings(i: int, part: Seq<char>)
    requires
        0 <= i < 8,
        part == texture_binding(i) || part == sampler_binding(i),
    ensures
        part.len() == 14,
        part[13] == ']',
        forall|j: int| 0 <= j < 14 ==> part[j] != ' ' && part[j] != '\n',
        forall|j: int| 0 <= j < 13 ==> !safe_pair(#[trigger] part[j], part[j + 1]),
{
    bindings_are_short(i);
    reveal_strlit("[[texture(");
    reveal_strlit("[[sampler(");
    reveal_strlit(")]]");
    assert(dec(i as nat) =~= seq![digit(i as nat)]);
    reveal_with_fuel(unsafe_from, 16);
    assert(unsafe_from(part, 0));
    unsafe_from_each(part, 0);
}

spec fn unsafe_from(s: Seq<char>, m: int) -> bool
    decreases s.len() - m,
{
    m >= s.len() || (s[m] != ' ' && s[m] != '\n' && (m + 1 < s.len() ==> !safe_pair(
        s[m],
        s[m + 1],
    )) && unsafe_from(s, m + 1))
}

proof fn unsafe_from_each(s: Seq<char>, m: int)
    requires
        0 <= m,
        unsafe_from(s, m),
    ensures
        forall|j: int| m <= j < s.len() ==> s[j] != ' ' && s[j] != '\n',
        forall|j: int| m <= j < s.len() - 1 ==> !safe_pair(#[trigger] s[j], s[j + 1]),
    decreases s.len() - m,
{
    if m < s.len() {
        unsafe_from_each(s, m + 1);
    }
}

proof fn parts_do_not_straddle(i: int, part: Seq<char>, a: Seq<char>, b: Seq<char>)
    requires
        0 <= i < 8,
        part == texture_binding(i) || part == sampler_binding(i),
        !occurs(part, a),
        !occurs(part, b),
        starts_apart(b) || ends_apart(a),
    ensures
        !occurs(part, a + b),
{
    reveal(leads);
    reveal(starts_apart);
    reveal(ends_apart);
    inside_of_bindings(i, part);
    let s = a + b;
    assert forall|p: int| !occurs_at(part, s, p) by {
        if occurs_at(part, s, p) {
            if p + 14 <= a.len() {
                assert forall|j: int| 0 <= j < part.len() implies #[trigger] a[p + j] == part[j] by {
                    assert(s[p + j] == part[j]);
                }
                assert(occurs_at(part, a, p));
            } else if p >= a.len() {
                let q = p - a.len();
                assert forall|j: int| 0 <= j < part.len() implies #[trigger] b[q + j] == part[j] by {
                    assert(s[p + j] == part[j]);
                }
                assert(occurs_at(part, b, q));
            } else {
                let k = a.len() - p;
                assert(s[p + (k - 1)] == part[k - 1]);
                assert(s[p + k] == part[k]);
                assert(a.last() == part[k - 1]);
                assert(b[0] == part[k]);
                if k < 13 {
                    assert(s[p + (k + 1)] == part[k + 1]);
                    assert(b.len() >= 2 ==> b[1] == part[k + 1]);
                    assert(!safe_pair(part[k], part[k + 1]));
                }
            }
        }
    }
}

broadcast proof fn quiet_join(a: Seq<char>, b: Seq<char>, i: int)
    requires
        0 <= i < 8,
        quiet(a, i),
        quiet(b, i),
        starts_apart(b) || ends_apart(a),
    ensures
        #[trigger] quiet(a + b, i),
{
    reveal(quiet);
    parts_do_not_straddle(i, texture_binding(i), a, b);
    parts_do_not_straddle(i, sampler_binding(i), a, b);
}

broadcast proof fn tame_is_quiet(s: Seq<char>, i: int)
    requires
        0 <= i < 8,
        tame(s),
    ensures
        #[trigger] quiet(s, i),
{
    reveal(tame);
    reveal(quiet);
    bindings_are_short(i);
    reveal_strlit("[[sampler(");
    let x = texture_binding(i);
    let y = sampler_binding(i);
    assert(y[8] == 'r');
    assert forall|p: int| !occurs_at(x, s, p) by {
        if occurs_at(x, s, p) {
            assert(s[p + 0] == x[0]);
            assert(s[p + 1] == x[1]);
            assert(s[p + 2] == x[2]);
            assert(double_at(s, p));
        }
    }
    assert forall|p: int| !occurs_at(y, s, p) by {
        if occurs_at(y, s, p) {
            assert(s[p + 0] == y[0]);
            assert(s[p + 1] == y[1]);
            assert(s[p + 2] == y[2]);
            assert(s[p + 8] == y[8]);
            assert(double_at(s, p));
        }
    }
}

proof fn each_is_tame(n: nat, f: spec_fn(int) -> Seq<char>)
    requires
        forall|i: int| 0 <= i < n ==> tame(#[trigger] f(i)),
    ensures
        tame(each(n, f)),
    decreases n,
{
    broadcast use tame_join;

    empty_is_tame();
    if n > 0 {
        each_is_tame((n - 1) as nat, f);
        assert(tame(f(n - 1)));
    }
}

proof fn each_starts_apart(n: nat, f: spec_fn(int) -> Seq<char>)
    requires
        forall|i: int| 0 <= i < n ==> starts_apart(#[trigger] f(i)),
    ensures
        starts_apart(each(n, f)),
    decreases n,
{
    broadcast use starts_join;

    empty_is_tame();
    if n > 0 {
        each_starts_apart((n - 1) as nat, f);
        assert(starts_apart(f(n - 1)));
    }
}

proof fn arguments_are_tame()
    ensures
        tame("in.color0"@),
        tame("current"@),
        tame("in.color1"@),
        tame("t"@),
        tame("ps_c[0]"@),
        tame("float4(1.0)"@),
        leads("float4(1.0)"@),
        tame("(1.0 - "@),
        ends_apart("(1.0 - "@),
        tame(".aaaa"@),
        tame(")"@),
{
    reveal(leads);
    reveal(ends_apart);
    reveal_strlit("in.color0");
    reveal_strlit("current");
    reveal_strlit("in.color1");
    reveal_strlit("t");
    reveal_strlit("ps_c[0]");
    reveal_strlit("float4(1.0)");
    reveal_strlit("(1.0 - ");
    reveal_strlit(".aaaa");
    reveal_strlit(")");
    reveal_with_fuel(tame_from, 13);
    tame_by_steps("in.color0"@);
    tame_by_steps("current"@);
    tame_by_steps("in.color1"@);
    tame_by_steps("t"@);
    tame_by_steps("ps_c[0]"@);
    tame_by_steps("float4(1.0)"@);
    tame_by_steps("(1.0 - "@);
    tame_by_steps(".aaaa"@);
    tame_by_steps(")"@);
}

proof fn operations_are_tame()
    ensures
        tame("("@),
        tame(" * "@),
        leads(" * "@),
        ends_apart(" * "@),
        tame("saturate(2.0 * "@),
        ends_apart("saturate(2.0 * "@),
        tame("saturate(4.0 * "@),
        ends_apart("saturate(4.0 * "@),
        tame("saturate("@),
        tame(" + "@),
        leads(" + "@),
        ends_apart(" + "@),
        tame(" - 0.5)"@),
        leads(" - 0.5)"@),
        tame("saturate(2.0 * ("@),
        tame(" - 0.5))"@),
        leads(" - 0.5))"@),
        tame(" - "@),
        leads(" - "@),
        ends_apart(" - "@),
        tame(" * (1.0 - "@),
        leads(" * (1.0 - "@),
        ends_apart(" * (1.0 - "@),
        tame("))"@),
{
    reveal(leads);
    reveal(ends_apart);
    reveal_strlit("(");
    reveal_strlit(" * ");
    reveal_strlit("saturate(2.0 * ");
    reveal_strlit("saturate(4.0 * ");
    reveal_strlit("saturate(");
    reveal_strlit(" + ");
    reveal_strlit(" - 0.5)");
    reveal_strlit("saturate(2.0 * (");
    reveal_strlit(" - 0.5))");
    reveal_strlit(" - ");
    reveal_strlit(" * (1.0 - ");
    reveal_strlit("))");
    reveal_with_fuel(tame_from, 18);
    tame_by_steps("("@);
    tame_by_steps(" * "@);
    tame_by_steps("saturate(2.0 * "@);
    tame_by_steps("saturate(4.0 * "@);
    tame_by_steps("saturate("@);
    tame_by_steps(" + "@);
    tame_by_steps(" - 0.5)"@);
    tame_by_steps("saturate(2.0 * ("@);
    tame_by_steps(" - 0.5))"@);
    tame_by_steps(" - "@);
    tame_by_steps(" * (1.0 - "@);
    tame_by_steps("))"@);
}

proof fn blends_are_tame()
    ensures
        tame(".a + "@),
        ends_apart(".a + "@),
        tame(".a))"@),
        tame("float4(saturate(4.0 * dot(("@),
        leads("float4(saturate(4.0 * dot(("@),
        tame(").rgb - 0.5, ("@),
        tame(").rgb - 0.5)))"@),
{
    reveal(leads);
    reveal(ends_apart);
    reveal_strlit(".a + ");
    reveal_strlit(".a))");
    reveal_strlit("float4(saturate(4.0 * dot((");
    reveal_strlit(").rgb - 0.5, (");
    reveal_strlit(").rgb - 0.5)))");
    reveal_with_fuel(tame_from, 29);
    tame_by_steps(".a + "@);
    tame_by_steps(".a))"@);
    tame_by_steps("float4(saturate(4.0 * dot(("@);
    tame_by_steps(").rgb - 0.5, ("@);
    tame_by_steps(").rgb - 0.5)))"@);
}

proof fn combinations_are_tame()
    ensures
        tame("    current = float4(("@),
        leads("    current = float4(("@),
        tame(").rgb, ("@),
        tame(").a);\n"@),
        ends_apart(").a);\n"@),
{
    reveal(leads);
    reveal(ends_apart);
    reveal_strlit("    current = float4((");
    reveal_strlit(").rgb, (");
    reveal_strlit(").a);\n");
    reveal_with_fuel(tame_from, 24);
    tame_by_steps("    current = float4(("@);
    tame_by_steps(").rgb, ("@);
    tame_by_steps(").a);\n"@);
}

proof fn coordinates_are_tame()
    ensures
        tame("in.texcoord"@),
        tame("."@),
        tame("xy"@),
        tame("xyz"@),
        tame("float2(0.0)"@),
        leads("float2(0.0)"@),
        tame("float3(0.0)"@),
        leads("float3(0.0)"@),
        tame("(in.texcoord"@),
        tame(".w != 0.0 ? "@),
        ends_apart(".w != 0.0 ? "@),
        tame(" / in.texcoord"@),
        leads(" / in.texcoord"@),
        tame(".w : "@),
        ends_apart(".w : "@),
{
    reveal(leads);
    reveal(ends_apart);
    reveal_strlit("in.texcoord");
    reveal_strlit(".");
    reveal_strlit("xy");
    reveal_strlit("xyz");
    reveal_strlit("float2(0.0)");
    reveal_strlit("float3(0.0)");
    reveal_strlit("(in.texcoord");
    reveal_strlit(".w != 0.0 ? ");
    reveal_strlit(" / in.texcoord");
    reveal_strlit(".w : ");
    reveal_with_fuel(tame_from, 16);
    tame_by_steps("in.texcoord"@);
    tame_by_steps("."@);
    tame_by_steps("xy"@);
    tame_by_steps("xyz"@);
    tame_by_steps("float2(0.0)"@);
    tame_by_steps("float3(0.0)"@);
    tame_by_steps("(in.texcoord"@);
    tame_by_steps(".w != 0.0 ? "@);
    tame_by_steps(" / in.texcoord"@);
    tame_by_steps(".w : "@);
}

proof fn samples_are_tame()
    ensures
        tame("    float4 t"@),
        leads("    float4 t"@),
        tame(" = float4(s"@),
        leads(" = float4(s"@),
        tame(".sample(samp"@),
        tame(", "@),
        leads(", "@),
        ends_apart(", "@),
        tame(", level(0)));\n"@),
        leads(", level(0)));\n"@),
        ends_apart(", level(0)));\n"@),
        tame(" = s"@),
        leads(" = s"@),
        tame(");\n"@),
        ends_apart(");\n"@),
{
    reveal(leads);
    reveal(ends_apart);
    reveal_strlit("    float4 t");
    reveal_strlit(" = float4(s");
    reveal_strlit(".sample(samp");
    reveal_strlit(", ");
    reveal_strlit(", level(0)));\n");
    reveal_strlit(" = s");
    reveal_strlit(");\n");
    reveal_with_fuel(tame_from, 16);
    tame_by_steps("    float4 t"@);
    tame_by_steps(" = float4(s"@);
    tame_by_steps(".sample(samp"@);
    tame_by_steps(", "@);
    tame_by_steps(", level(0)));\n"@);
    tame_by_steps(" = s"@);
    tame_by_steps(");\n"@);
}

proof fn depth_samples_are_tame()
    ensures
        tame(".sample_compare(samp"@),
        tame(", in.texcoord"@),
        leads(", in.texcoord"@),
        tame(".xy, saturate(in.texcoord"@),
        tame(".z), level(0)));\n"@),
        ends_apart(".z), level(0)));\n"@),
        tame(", bias(lod_bias["@),
        leads(", bias(lod_bias["@),
        tame("].x)"@),
{
    reveal(leads);
    reveal(ends_apart);
    reveal_strlit(".sample_compare(samp");
    reveal_strlit(", in.texcoord");
    reveal_strlit(".xy, saturate(in.texcoord");
    reveal_strlit(".z), level(0)));\n");
    reveal_strlit(", bias(lod_bias[");
    reveal_strlit("].x)");
    reveal_with_fuel(tame_from, 27);
    tame_by_steps(".sample_compare(samp"@);
    tame_by_steps(", in.texcoord"@);
    tame_by_steps(".xy, saturate(in.texcoord"@);
    tame_by_steps(".z), level(0)));\n"@);
    tame_by_steps(", bias(lod_bias["@);
    tame_by_steps("].x)"@);
}

proof fn alpha_tests_are_tame()
    ensures
        tame("    if (!("@),
        leads("    if (!("@),
        tame(")) discard_fragment();\n"@),
        ends_apart(")) discard_fragment();\n"@),
        tame("false"@),
        leads("false"@),
        tame("oC0.a < alpha_ref"@),
        tame("oC0.a == alpha_ref"@),
        tame("oC0.a <= alpha_ref"@),
        tame("oC0.a > alpha_ref"@),
        tame("oC0.a != alpha_ref"@),
        tame("oC0.a >= alpha_ref"@),
        tame("true"@),
{
    reveal(leads);
    reveal(ends_apart);
    reveal_strlit("    if (!(");
    reveal_strlit(")) discard_fragment();\n");
    reveal_strlit("false");
    reveal_strlit("oC0.a < alpha_ref");
    reveal_strlit("oC0.a == alpha_ref");
    reveal_strlit("oC0.a <= alpha_ref");
    reveal_strlit("oC0.a > alpha_ref");
    reveal_strlit("oC0.a != alpha_ref");
    reveal_strlit("oC0.a >= alpha_ref");
    reveal_strlit("true");
    reveal_with_fuel(tame_from, 25);
    tame_by_steps("    if (!("@);
    tame_by_steps(")) discard_fragment();\n"@);
    tame_by_steps("false"@);
    tame_by_steps("oC0.a < alpha_ref"@);
    tame_by_steps("oC0.a == alpha_ref"@);
    tame_by_steps("oC0.a <= alpha_ref"@);
    tame_by_steps("oC0.a > alpha_ref"@);
    tame_by_steps("oC0.a != alpha_ref"@);
    tame_by_steps("oC0.a >= alpha_ref"@);
    tame_by_steps("true"@);
}

proof fn returns_are_tame()
    ensures
        tame("    return FfPsOut { oC0, "@),
        leads("    return FfPsOut { oC0, "@),
        ends_apart("    return FfPsOut { oC0, "@),
        tame("u };\n"@),
        ends_apart("u };\n"@),
        tame("    return oC0;\n"@),
        leads("    return oC0;\n"@),
        ends_apart("    return oC0;\n"@),
        tame("}\n"@),
        leads("}\n"@),
        ends_apart("}\n"@),
{
    reveal(leads);
    reveal(ends_apart);
    reveal_strlit("    return FfPsOut { oC0, ");
    reveal_strlit("u };\n");
    reveal_strlit("    return oC0;\n");
    reveal_strlit("}\n");
    reveal_with_fuel(tame_from, 28);
    tame_by_steps("    return FfPsOut { oC0, "@);
    tame_by_steps("u };\n"@);
    tame_by_steps("    return oC0;\n"@);
    tame_by_steps("}\n"@);
}

proof fn tails_are_tame()
    ensures
        tame("    current = float4(saturate(current.rgb + in.color1.rgb), current.a);\n"@),
        leads("    current = float4(saturate(current.rgb + in.color1.rgb), current.a);\n"@),
        ends_apart("    current = float4(saturate(current.rgb + in.color1.rgb), current.a);\n"@),
        tame("    float4 oC0 = current;\n"@),
        leads("    float4 oC0 = current;\n"@),
        ends_apart("    float4 oC0 = current;\n"@),
        tame("    oC0.rgb = mtld3d_linear_to_srgb(oC0.rgb);\n"@),
        leads("    oC0.rgb = mtld3d_linear_to_srgb(oC0.rgb);\n"@),
        ends_apart("    oC0.rgb = mtld3d_linear_to_srgb(oC0.rgb);\n"@),
{
    reveal(leads);
    reveal(ends_apart);
    reveal_strlit("    current = float4(saturate(current.rgb + in.color1.rgb), current.a);\n");
    reveal_strlit("    float4 oC0 = current;\n");
    reveal_strlit("    oC0.rgb = mtld3d_linear_to_srgb(oC0.rgb);\n");
    reveal_with_fuel(tame_from, 74);
    tame_by_steps("    current = float4(saturate(current.rgb + in.color1.rgb), current.a);\n"@);
    tame_by_steps("    float4 oC0 = current;\n"@);
    tame_by_steps("    oC0.rgb = mtld3d_linear_to_srgb(oC0.rgb);\n"@);
}

proof fn varyings_are_tame()
    ensures
        tame("struct Varyings {\n"@),
        leads("struct Varyings {\n"@),
        ends_apart("struct Varyings {\n"@),
        tame("    float4 position [[position, invariant]];\n"@),
        leads("    float4 position [[position, invariant]];\n"@),
        ends_apart("    float4 position [[position, invariant]];\n"@),
        tame("    float4 position1;\n"@),
        leads("    float4 position1;\n"@),
        ends_apart("    float4 position1;\n"@),
        tame("    float4 texcoord"@),
        leads("    float4 texcoord"@),
        tame(";\n"@),
        ends_apart(";\n"@),
{
    reveal(leads);
    reveal(ends_apart);
    reveal_strlit("struct Varyings {\n");
    reveal_strlit("    float4 position [[position, invariant]];\n");
    reveal_strlit("    float4 position1;\n");
    reveal_strlit("    float4 texcoord");
    reveal_strlit(";\n");
    reveal_with_fuel(tame_from, 47);
    tame_by_steps("struct Varyings {\n"@);
    tame_by_steps("    float4 position [[position, invariant]];\n"@);
    tame_by_steps("    float4 position1;\n"@);
    tame_by_steps("    float4 texcoord"@);
    tame_by_steps(";\n"@);
}

proof fn colors_are_tame()
    ensures
        tame("    float4 color"@),
        leads("    float4 color"@),
        tame(" [[flat]]"@),
        leads(" [[flat]]"@),
        tame("    float4 fog;\n"@),
        leads("    float4 fog;\n"@),
        ends_apart("    float4 fog;\n"@),
        tame("};\n\n"@),
        leads("};\n\n"@),
        ends_apart("};\n\n"@),
{
    reveal(leads);
    reveal(ends_apart);
    reveal_strlit("    float4 color");
    reveal_strlit(" [[flat]]");
    reveal_strlit("    float4 fog;\n");
    reveal_strlit("};\n\n");
    reveal_with_fuel(tame_from, 18);
    tame_by_steps("    float4 color"@);
    tame_by_steps(" [[flat]]"@);
    tame_by_steps("    float4 fog;\n"@);
    tame_by_steps("};\n\n"@);
}

proof fn rates_are_tame()
    ensures
        tame("    float fog_z [[center_no_perspective]];\n"@),
        leads("    float fog_z [[center_no_perspective]];\n"@),
        ends_apart("    float fog_z [[center_no_perspective]];\n"@),
        tame("    float point_size [[point_size]];\n"@),
        leads("    float point_size [[point_size]];\n"@),
        ends_apart("    float point_size [[point_size]];\n"@),
{
    reveal(leads);
    reveal(ends_apart);
    reveal_strlit("    float fog_z [[center_no_perspective]];\n");
    reveal_strlit("    float point_size [[point_size]];\n");
    reveal_with_fuel(tame_from, 45);
    tame_by_steps("    float fog_z [[center_no_perspective]];\n"@);
    tame_by_steps("    float point_size [[point_size]];\n"@);
}

proof fn outputs_are_tame()
    ensures
        tame("struct FfPsOut {\n    float4 oC0 [[color(0)]];\n"@),
        leads("struct FfPsOut {\n    float4 oC0 [[color(0)]];\n"@),
        ends_apart("struct FfPsOut {\n    float4 oC0 [[color(0)]];\n"@),
        tame("    uint oMask [[sample_mask]];\n};\n\n"@),
        leads("    uint oMask [[sample_mask]];\n};\n\n"@),
        ends_apart("    uint oMask [[sample_mask]];\n};\n\n"@),
        tame("fragment FfPsOut "@),
        leads("fragment FfPsOut "@),
        ends_apart("fragment FfPsOut "@),
        tame("fragment float4 "@),
        leads("fragment float4 "@),
        ends_apart("fragment float4 "@),
        tame("(\n"@),
        leads("(\n"@),
        ends_apart("(\n"@),
{
    reveal(leads);
    reveal(ends_apart);
    reveal_strlit("struct FfPsOut {\n    float4 oC0 [[color(0)]];\n");
    reveal_strlit("    uint oMask [[sample_mask]];\n};\n\n");
    reveal_strlit("fragment FfPsOut ");
    reveal_strlit("fragment float4 ");
    reveal_strlit("(\n");
    reveal_with_fuel(tame_from, 48);
    tame_by_steps("struct FfPsOut {\n    float4 oC0 [[color(0)]];\n"@);
    tame_by_steps("    uint oMask [[sample_mask]];\n};\n\n"@);
    tame_by_steps("fragment FfPsOut "@);
    tame_by_steps("fragment float4 "@);
    tame_by_steps("(\n"@);
}

proof fn inputs_are_tame()
    ensures
        tame("    Varyings in_stage [[stage_in]],\n"@),
        leads("    Varyings in_stage [[stage_in]],\n"@),
        ends_apart("    Varyings in_stage [[stage_in]],\n"@),
        tame("    float2 point_coord [[point_coord]],\n"@),
        leads("    float2 point_coord [[point_coord]],\n"@),
        ends_apart("    float2 point_coord [[point_coord]],\n"@),
        tame("    Varyings in [[stage_in]],\n"@),
        leads("    Varyings in [[stage_in]],\n"@),
        ends_apart("    Varyings in [[stage_in]],\n"@),
        tame("    constant float4 *ps_c [[buffer(15)]]"@),
        leads("    constant float4 *ps_c [[buffer(15)]]"@),
{
    reveal(leads);
    reveal(ends_apart);
    reveal_strlit("    Varyings in_stage [[stage_in]],\n");
    reveal_strlit("    float2 point_coord [[point_coord]],\n");
    reveal_strlit("    Varyings in [[stage_in]],\n");
    reveal_strlit("    constant float4 *ps_c [[buffer(15)]]");
    reveal_with_fuel(tame_from, 42);
    tame_by_steps("    Varyings in_stage [[stage_in]],\n"@);
    tame_by_steps("    float2 point_coord [[point_coord]],\n"@);
    tame_by_steps("    Varyings in [[stage_in]],\n"@);
    tame_by_steps("    constant float4 *ps_c [[buffer(15)]]"@);
}

proof fn buffers_are_tame()
    ensures
        tame(",\n    constant float4 *lod_bias [[buffer("@),
        leads(",\n    constant float4 *lod_bias [[buffer("@),
        tame(")]]"@),
        tame(",\n    constant float &alpha_ref [[buffer(14)]]"@),
        leads(",\n    constant float &alpha_ref [[buffer(14)]]"@),
        tame(",\n    constant float4 *fog_data [[buffer(13)]]"@),
        leads(",\n    constant float4 *fog_data [[buffer(13)]]"@),
{
    reveal(leads);
    reveal(ends_apart);
    reveal_strlit(",\n    constant float4 *lod_bias [[buffer(");
    reveal_strlit(")]]");
    reveal_strlit(",\n    constant float &alpha_ref [[buffer(14)]]");
    reveal_strlit(",\n    constant float4 *fog_data [[buffer(13)]]");
    reveal_with_fuel(tame_from, 48);
    tame_by_steps(",\n    constant float4 *lod_bias [[buffer("@);
    tame_by_steps(")]]"@);
    tame_by_steps(",\n    constant float &alpha_ref [[buffer(14)]]"@);
    tame_by_steps(",\n    constant float4 *fog_data [[buffer(13)]]"@);
}

proof fn prologues_are_tame()
    ensures
        tame("#include <metal_stdlib>\n"@),
        leads("#include <metal_stdlib>\n"@),
        ends_apart("#include <metal_stdlib>\n"@),
        tame("using namespace metal;\n\n"@),
        leads("using namespace metal;\n\n"@),
        ends_apart("using namespace metal;\n\n"@),
        tame("\n) {\n"@),
        leads("\n) {\n"@),
        ends_apart("\n) {\n"@),
        tame("    float4 current = in.color0;\n"@),
        leads("    float4 current = in.color0;\n"@),
        ends_apart("    float4 current = in.color0;\n"@),
        tame(",\n    "@),
        leads(",\n    "@),
        ends_apart(",\n    "@),
{
    reveal(leads);
    reveal(ends_apart);
    reveal_strlit("#include <metal_stdlib>\n");
    reveal_strlit("using namespace metal;\n\n");
    reveal_strlit("\n) {\n");
    reveal_strlit("    float4 current = in.color0;\n");
    reveal_strlit(",\n    ");
    reveal_with_fuel(tame_from, 34);
    tame_by_steps("#include <metal_stdlib>\n"@);
    tame_by_steps("using namespace metal;\n\n"@);
    tame_by_steps("\n) {\n"@);
    tame_by_steps("    float4 current = in.color0;\n"@);
    tame_by_steps(",\n    "@);
}

proof fn arguments_and_operations(op: u8, arg1: u8, arg2: u8, i: int, textured: bool)
    ensures
        tame(combined_text(op, arg1, arg2, i, textured)),
{
    broadcast use {tame_join, numbers_are_tame};

    empty_is_tame();
    arguments_are_tame();
    let a = resolve_arg_text(arg1, i, textured);
    let b = resolve_arg_text(arg2, i, textured);
    assert(tame(selected_text(arg1, i, textured)));
    assert(tame(selected_text(arg2, i, textured)));
    assert(tame(a));
    assert(tame(b));
    operation_is_tame(op, a, b, i, textured);
}

proof fn blend_is_tame(a: Seq<char>, b: Seq<char>, by: Seq<char>)
    requires
        tame(a),
        tame(b),
        tame(by),
    ensures
        tame(blend_text(a, b, by)),
{
    broadcast use tame_join;

    operations_are_tame();
    blends_are_tame();
}

proof fn joined_is_tame(
    before: Seq<char>,
    a: Seq<char>,
    between: Seq<char>,
    b: Seq<char>,
    behind: Seq<char>,
)
    requires
        tame(before),
        tame(a),
        tame(between),
        tame(b),
        tame(behind),
    ensures
        tame(joined(before, a, between, b, behind)),
{
    broadcast use tame_join;

}

proof fn operation_is_tame(op: u8, a: Seq<char>, b: Seq<char>, i: int, textured: bool)
    requires
        tame(a),
        tame(b),
    ensures
        tame(apply_op_text(op, a, b, i, textured)),
{
    broadcast use {tame_join, numbers_are_tame};

    arguments_are_tame();
    operations_are_tame();
    blends_are_tame();
    assert(tame(texture_or_current(i, textured)));
    blend_is_tame(a, b, "in.color0"@);
    blend_is_tame(a, b, texture_or_current(i, textured));
    blend_is_tame(a, b, "ps_c[0]"@);
    blend_is_tame(a, b, "current"@);
    joined_is_tame("("@, a, " * "@, b, ")"@);
    joined_is_tame("saturate(2.0 * "@, a, " * "@, b, ")"@);
    joined_is_tame("saturate(4.0 * "@, a, " * "@, b, ")"@);
    joined_is_tame("saturate("@, a, " + "@, b, ")"@);
    joined_is_tame("saturate("@, a, " + "@, b, " - 0.5)"@);
    joined_is_tame("saturate(2.0 * ("@, a, " + "@, b, " - 0.5))"@);
    joined_is_tame("saturate("@, a, " - "@, b, ")"@);
    joined_is_tame("saturate("@, a, " + "@, b, " * (1.0 - "@);
    joined_is_tame(
        "float4(saturate(4.0 * dot(("@,
        a,
        ").rgb - 0.5, ("@,
        b,
        ").rgb - 0.5)))"@,
    );
}

proof fn combine_is_tame(s: FfStage, i: int)
    ensures
        tame(stage_combine_text(s, i)),
{
    broadcast use tame_join;

    empty_is_tame();
    combinations_are_tame();
    arguments_and_operations(s.color_op, s.color_arg1, s.color_arg2, i, s.has_texture);
    arguments_and_operations(s.alpha_op, s.alpha_arg1, s.alpha_arg2, i, s.has_texture);
}

proof fn coordinate_is_tame(projected: bool, i: int, sw: Seq<char>, zero: Seq<char>)
    requires
        tame(sw),
        tame(zero),
    ensures
        tame(stage_uv_text(projected, i, sw, zero)),
{
    broadcast use {tame_join, numbers_are_tame};

    empty_is_tame();
    coordinates_are_tame();
    arguments_are_tame();
    assert(tame(uv_test_text(i)));
    assert(tame(uv_divide_text(i, zero)));
}

proof fn sample_is_tame(k: FfPsKey, v: VariantKey, i: int)
    ensures
        tame(stage_sample_text(k, v, i)),
{
    color_sample_is_tame(true, true, v.flags.lod_bias, i);
    color_sample_is_tame(true, false, v.flags.lod_bias, i);
    color_sample_is_tame(false, true, v.flags.lod_bias, i);
    color_sample_is_tame(false, false, v.flags.lod_bias, i);
    depth_sample_is_tame(true, i);
    depth_sample_is_tame(false, i);
}

proof fn color_sample_is_tame(projected: bool, solid: bool, bias: bool, i: int)
    ensures
        tame(color_sample_text(projected, solid, bias, i)),
{
    broadcast use {tame_join, numbers_are_tame};

    empty_is_tame();
    samples_are_tame();
    depth_samples_are_tame();
    coordinates_are_tame();
    coordinate_is_tame(projected, i, "xyz"@, "float3(0.0)"@);
    coordinate_is_tame(projected, i, "xy"@, "float2(0.0)"@);
    assert(tame(sample_bias_text(i)));
}

proof fn depth_sample_is_tame(projected: bool, i: int)
    ensures
        tame(depth_fetch_text(projected, i)),
        tame(depth_compare_text(i)),
{
    broadcast use {tame_join, numbers_are_tame};

    empty_is_tame();
    samples_are_tame();
    depth_samples_are_tame();
    coordinates_are_tame();
    coordinate_is_tame(projected, i, "xy"@, "float2(0.0)"@);
}

proof fn stages_are_tame(k: FfPsKey, v: VariantKey)
    ensures
        tame(stages_text(k, v)),
{
    let f = |i: int| stage_text(k, v, i);
    assert forall|i: int| tame(#[trigger] f(i)) by {
        broadcast use tame_join;

        empty_is_tame();
        sample_is_tame(k, v, i);
        combine_is_tame(k.stages@[i], i);
    }
    each_is_tame(active_stages(k.stages@) as nat, f);
}

proof fn varyings_text_is_tame(flat: bool)
    ensures
        tame(emit_varyings_text(flat, 0)),
        leads(emit_varyings_text(flat, 0)),
        ends_apart(emit_varyings_text(flat, 0)),
{
    broadcast use {tame_join, numbers_are_tame, leads_join, starts_join, ends_join, leading_starts};

    empty_is_tame();
    varyings_are_tame();
    colors_are_tame();
    rates_are_tame();
    let f = |i: int| varying_coord_text(i);
    assert forall|i: int| tame(#[trigger] f(i)) by {}
    each_is_tame(16, f);
    assert(tame(varying_coords_text(16)));
    assert(tame(varying_color_text(0, flat)));
    assert(tame(varying_color_text(1, flat)));
}

proof fn head_is_quiet(v: VariantKey, entry: Seq<char>, i: int)
    requires
        0 <= i < 8,
        quiet(entry, i),
    ensures
        quiet(ps_head_text(v, entry), i),
        leads(ps_head_text(v, entry)),
{
    broadcast use {
        tame_join,
        tame_is_quiet,
        quiet_join,
        leads_join,
        starts_join,
        ends_join,
        leading_starts,
    };

    empty_is_tame();
    outputs_are_tame();
    inputs_are_tame();
}

proof fn args_are_quiet(k: FfPsKey, v: VariantKey, i: int)
    requires
        0 <= i < 8,
        !k.samples(i),
    ensures
        quiet(ps_args_text(k, v), i),
        leads(ps_args_text(k, v)),
        ends_apart(ps_args_text(k, v)),
{
    broadcast use {
        tame_join,
        tame_is_quiet,
        quiet_join,
        leads_join,
        starts_join,
        ends_join,
        leading_starts,
        numbers_are_tame,
    };

    empty_is_tame();
    buffers_are_tame();
    prologues_are_tame();
    assert(quiet(texture_args_text(k, v), i)) by {
        reveal(quiet);
        declared_bindings_are_the_sampled_stages(k, v, i);
    }
    let f = |j: int| given(k.samples(j), texture_arg_text(v, j));
    assert forall|j: int| starts_apart(#[trigger] f(j)) by {
        assert(leads(texture_arg_text(v, j)));
    }
    each_starts_apart(8, f);
    assert(starts_apart(texture_args_text(k, v)));
    assert(tame(lod_bias_arg_text()));
    assert(leads(lod_bias_arg_text()));
}

proof fn test_is_tame(code: u32)
    ensures
        tame(alpha_test_text(code)),
        leads(alpha_test_text(code)),
{
    broadcast use {tame_join, leads_join, leading_starts};

    empty_is_tame();
    alpha_tests_are_tame();
    assert(tame(alpha_condition(code)));
}

proof fn tail_is_quiet(k: FfPsKey, v: VariantKey, shared: SharedText, i: int)
    requires
        0 <= i < 8,
        quiet(shared.fog_blend@, i),
    ensures
        quiet(ps_tail_text(k, v, shared), i),
        leads(ps_tail_text(k, v, shared)),
{
    broadcast use {
        tame_join,
        tame_is_quiet,
        quiet_join,
        leads_join,
        starts_join,
        ends_join,
        leading_starts,
        numbers_are_tame,
    };

    empty_is_tame();
    tails_are_tame();
    returns_are_tame();
    test_is_tame(v.alpha_func as u32);
    assert(tame(masked_return_text(v.sample_mask)));
    assert(leads(masked_return_text(v.sample_mask)));
}

proof fn function_is_quiet(
    k: FfPsKey,
    v: VariantKey,
    shared: SharedText,
    entry: Seq<char>,
    i: int,
)
    requires
        0 <= i < 8,
        !k.samples(i),
        quiet(entry, i),
        quiet(shared.point_sprite_prologue@, i),
        quiet(shared.fog_blend@, i),
    ensures
        quiet(emit_ps_text(k, v, shared, entry), i),
        leads(emit_ps_text(k, v, shared, entry)),
{
    broadcast use {
        tame_join,
        tame_is_quiet,
        quiet_join,
        leads_join,
        starts_join,
        ends_join,
        leading_starts,
    };

    empty_is_tame();
    prologues_are_tame();
    head_is_quiet(v, entry, i);
    args_are_quiet(k, v, i);
    stages_are_tame(k, v);
    tail_is_quiet(k, v, shared, i);
}

proof fn shader_is_quiet(
    k: FfPsKey,
    v: VariantKey,
    shared: SharedText,
    entry: Seq<char>,
    i: int,
)
    requires
        0 <= i < 8,
        !k.samples(i),
        quiet(entry, i),
        quiet(shared.srgb_write_helper@, i),
        quiet(shared.point_sprite_prologue@, i),
        quiet(shared.fog_blend@, i),
    ensures
        quiet(emit_ps_ff_named_text(k, v, shared, entry), i),
{
    broadcast use {
        tame_join,
        tame_is_quiet,
        quiet_join,
        leads_join,
        starts_join,
        ends_join,
        leading_starts,
    };

    empty_is_tame();
    prologues_are_tame();
    varyings_text_is_tame(v.flags.flat_shade);
    function_is_quiet(k, v, shared, entry, i);
}

proof fn parts_of_parts(part: Seq<char>, a: Seq<char>, b: Seq<char>)
    ensures
        occurs(part, a) ==> occurs(part, a + b),
        occurs(part, b) ==> occurs(part, a + b),
{
    if occurs(part, a) {
        let p = choose|p: int| occurs_at(part, a, p);
        assert forall|j: int| 0 <= j < part.len() implies #[trigger] (a + b)[p + j] == part[j] by {
            assert(a[p + j] == part[j]);
        }
        assert(occurs_at(part, a + b, p));
    }
    if occurs(part, b) {
        let p = choose|p: int| occurs_at(part, b, p);
        let q = a.len() + p;
        assert forall|j: int| 0 <= j < part.len() implies #[trigger] (a + b)[q + j] == part[j] by {
            assert(b[p + j] == part[j]);
        }
        assert(occurs_at(part, a + b, q));
    }
}

proof fn parameters_are_in_the_shader(
    part: Seq<char>,
    k: FfPsKey,
    v: VariantKey,
    shared: SharedText,
    entry: Seq<char>,
)
    requires
        occurs(part, texture_args_text(k, v)),
    ensures
        occurs(part, emit_ps_ff_named_text(k, v, shared, entry)),
{
    let e = Seq::<char>::empty();
    let before = e + given(
        super::ff_ps::alpha_tested(v),
        ",\n    constant float &alpha_ref [[buffer(14)]]"@,
    ) + given(v.fog_blend_active_spec(), ",\n    constant float4 *fog_data [[buffer(13)]]"@)
        + given(v.flags.lod_bias, lod_bias_arg_text());
    let list = before + texture_args_text(k, v);
    parts_of_parts(part, before, texture_args_text(k, v));
    parts_of_parts(part, list, "\n) {\n"@);
    let args = ps_args_text(k, v);
    assert(args == list + "\n) {\n"@);
    let head = e + ps_head_text(v, entry);
    let sprite = given(v.flags.point_sprite, shared.point_sprite_prologue@);
    parts_of_parts(part, head, args);
    parts_of_parts(part, head + args, sprite);
    parts_of_parts(part, head + args + sprite, "    float4 current = in.color0;\n"@);
    let up_to = head + args + sprite + "    float4 current = in.color0;\n"@;
    parts_of_parts(part, up_to, stages_text(k, v));
    parts_of_parts(part, up_to + stages_text(k, v), ps_tail_text(k, v, shared));
    let function = emit_ps_text(k, v, shared, entry);
    assert(function == up_to + stages_text(k, v) + ps_tail_text(k, v, shared));
    let lead = e + "#include <metal_stdlib>\n"@ + "using namespace metal;\n\n"@
        + emit_varyings_text(v.flags.flat_shade, 0) + given(
        v.flags.srgb_write,
        shared.srgb_write_helper@,
    );
    parts_of_parts(part, lead, function);
}

/// The textures and the samplers that a pixel shader declares are those of the stages that
/// it samples: the text of the shader binds texture `i` and sampler `i` if and only if stage
/// `i` has a texture and neither it nor a stage before it is disabled. That goes for every
/// shared text and every name of the function that binds neither itself.
pub proof fn shaders_declare_the_sampled_stages(
    k: FfPsKey,
    v: VariantKey,
    shared: SharedText,
    entry: Seq<char>,
    i: int,
)
    requires
        0 <= i < 8,
        holds_no_binding(entry, i),
        holds_no_binding(shared.srgb_write_helper@, i),
        holds_no_binding(shared.point_sprite_prologue@, i),
        holds_no_binding(shared.fog_blend@, i),
    ensures
        occurs(texture_binding(i), emit_ps_ff_named_text(k, v, shared, entry)) <==> k.samples(i),
        occurs(sampler_binding(i), emit_ps_ff_named_text(k, v, shared, entry)) <==> k.samples(i),
        k.samples(i) <==> k.stages@[i].has_texture && forall|j: int|
            0 <= j <= i ==> !(#[trigger] k.stages@[j]).is_disabled_spec(),
{
    active_stages_are_the_leading_ones(k.stages@, i);
    if k.samples(i) {
        declared_bindings_are_the_sampled_stages(k, v, i);
        parameters_are_in_the_shader(texture_binding(i), k, v, shared, entry);
        parameters_are_in_the_shader(sampler_binding(i), k, v, shared, entry);
    } else {
        reveal(quiet);
        shader_is_quiet(k, v, shared, entry, i);
    }
}

} // verus!
