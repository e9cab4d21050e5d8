//! Which textures and samplers a fixed-function pixel shader declares.

use super::ff::FfPsKey;
use super::ff_ps::{texture_arg_text, texture_args_text, texture_type};
use super::variant::VariantKey;
use crate::text::{dec, digit, each, given};
use vstd::prelude::*;

verus! {

/// Whether `part` stands in `text` from position `p` on.
pub open spec fn occurs_at(part: Seq<char>, text: Seq<char>, p: int) -> bool {
    &&& 0 <= p
    &&& p + part.len() <= text.len()
    &&& forall|j: int| 0 <= j < part.len() ==> #[trigger] text[p + j] == part[j]
}

/// Whether `part` stands somewhere in `text`.
pub open spec fn occurs(part: Seq<char>, text: Seq<char>) -> bool {
    exists|p: int| occurs_at(part, text, p)
}

/// What binds a parameter to texture `i`.
pub open spec fn texture_binding(i: int) -> Seq<char> {
    "[[texture("@ + dec(i as nat) + ")]]"@
}

/// What binds a parameter to sampler `i`.
pub open spec fn sampler_binding(i: int) -> Seq<char> {
    "[[sampler("@ + dec(i as nat) + ")]]"@
}

/// Whether `s` has no `c` from `m` on up to but without `n`.
spec fn lacks(s: Seq<char>, c: char, m: int, n: int) -> bool
    decreases n - m,
{
    m >= n || (s[m] != c && lacks(s, c, m + 1, n))
}

proof fn lacks_each(s: Seq<char>, c: char, m: int, n: int)
    requires
        lacks(s, c, m, n),
    ensures
        forall|j: int| m <= j < n ==> s[j] != c,
    decreases n - m,
{
    if m < n {
        lacks_each(s, c, m + 1, n);
    }
}

proof fn type_has_no_bracket(v: VariantKey, i: int)
    ensures
        forall|j: int| 0 <= j < texture_type(v, i).len() ==> texture_type(v, i)[j] != '[',
{
    let t = texture_type(v, i);
    reveal_strlit("depth2d<float>");
    reveal_strlit("texture3d<float>");
    reveal_strlit("texturecube<float>");
    reveal_strlit("texture2d<float>");
    reveal_with_fuel(lacks, 20);
    assert(lacks("depth2d<float>"@, '[', 0, 14));
    assert(lacks("texture3d<float>"@, '[', 0, 16));
    assert(lacks("texturecube<float>"@, '[', 0, 18));
    assert(lacks("texture2d<float>"@, '[', 0, 16));
    assert(lacks(t, '[', 0, t.len() as int));
    lacks_each(t, '[', 0, t.len() as int);
}

proof fn literals_have_few_brackets()
    ensures
        ",\n    "@.len() == 6,
        forall|j: int| 0 <= j < 6 ==> ",\n    "@[j] != '[',
        " s"@.len() == 2,
        forall|j: int| 0 <= j < 2 ==> " s"@[j] != '[',
        " [[texture("@.len() == 11,
        " [[texture("@[0] != '[',
        forall|j: int| 3 <= j < 11 ==> " [[texture("@[j] != '[',
        ")]],\n    sampler samp"@.len() == 21,
        forall|j: int| 0 <= j < 21 ==> ")]],\n    sampler samp"@[j] != '[',
        " [[sampler("@.len() == 11,
        " [[sampler("@[0] != '[',
        forall|j: int| 3 <= j < 11 ==> " [[sampler("@[j] != '[',
        ")]]"@.len() == 3,
        forall|j: int| 0 <= j < 3 ==> ")]]"@[j] != '[',
{
    reveal_strlit(",\n    ");
    reveal_strlit(" s");
    reveal_strlit(" [[texture(");
    reveal_strlit(")]],\n    sampler samp");
    reveal_strlit(" [[sampler(");
    reveal_strlit(")]]");
    reveal_with_fuel(lacks, 23);
    lacks_each(",\n    "@, '[', 0, 6);
    lacks_each(" s"@, '[', 0, 2);
    lacks_each(" [[texture("@, '[', 3, 11);
    lacks_each(")]],\n    sampler samp"@, '[', 0, 21);
    lacks_each(" [[sampler("@, '[', 3, 11);
    lacks_each(")]]"@, '[', 0, 3);
}

/// Where the first bracket of the parameters of stage `i` is.
spec fn bracket(v: VariantKey, i: int) -> int {
    10 + texture_type(v, i).len() as int
}

proof fn brackets_of_a_stage(v: VariantKey, i: int)
    requires
        0 <= i < 8,
    ensures
        texture_arg_text(v, i).len() == bracket(v, i) + 48,
        forall|q: int|
            0 <= q < texture_arg_text(v, i).len() && #[trigger] texture_arg_text(v, i)[q] == '['
                ==> q == bracket(v, i) || q == bracket(v, i) + 1 || q == bracket(v, i) + 34 || q
                == bracket(v, i) + 35,
{
    type_has_no_bracket(v, i);
    literals_have_few_brackets();
    assert(dec(i as nat) =~= seq![digit(i as nat)]);
    assert(digit(i as nat) != '[');
}

proof fn bindings_of_a_stage(v: VariantKey, i: int)
    requires
        0 <= i < 8,
    ensures
        occurs_at(texture_binding(i), texture_arg_text(v, i), bracket(v, i)),
        occurs_at(sampler_binding(i), texture_arg_text(v, i), bracket(v, i) + 34),
{
    literals_have_few_brackets();
    bindings_are_short(i);
    let t = texture_arg_text(v, i);
    let a = bracket(v, i);
    reveal_strlit(" [[texture(");
    reveal_strlit(")]],\n    sampler samp");
    reveal_strlit(" [[sampler(");
    reveal_strlit(")]]");
    reveal_strlit("[[texture(");
    reveal_strlit("[[sampler(");
    assert(dec(i as nat) =~= seq![digit(i as nat)]);
    reveal_with_fuel(agree, 15);
    assert(agree(texture_binding(i), t, a, 14));
    agree_each(texture_binding(i), t, a, 14);
    assert(agree(sampler_binding(i), t, a + 34, 14));
    agree_each(sampler_binding(i), t, a + 34, 14);
}

/// Whether the first `n` characters of `part` stand in `text` from position `p` on.
spec fn agree(part: Seq<char>, text: Seq<char>, p: int, n: int) -> bool
    decreases n,
{
    n <= 0 || (text[p + (n - 1)] == part[n - 1] && agree(part, text, p, n - 1))
}

proof fn agree_each(part: Seq<char>, text: Seq<char>, p: int, n: int)
    requires
        agree(part, text, p, n),
    ensures
        forall|j: int| 0 <= j < n ==> #[trigger] text[p + j] == part[j],
    decreases n,
{
    if n > 0 {
        agree_each(part, text, p, n - 1);
    }
}

pub(super) proof fn bindings_are_short(i: int)
    requires
        0 <= i < 8,
    ensures
        texture_binding(i).len() == 14,
        texture_binding(i)[0] == '[',
        texture_binding(i)[1] == '[',
        texture_binding(i)[2] == 't',
        texture_binding(i)[10] == digit(i as nat),
        sampler_binding(i).len() == 14,
        sampler_binding(i)[0] == '[',
        sampler_binding(i)[1] == '[',
        sampler_binding(i)[2] == 's',
        sampler_binding(i)[10] == digit(i as nat),
{
    reveal_strlit("[[texture(");
    reveal_strlit("[[sampler(");
    reveal_strlit(")]]");
    assert(dec(i as nat) =~= seq![digit(i as nat)]);
}

/// The parameters of the first `n` stages.
spec fn leading(k: FfPsKey, v: VariantKey, n: nat) -> Seq<char> {
    each(n, |i: int| given(k.samples(i), texture_arg_text(v, i)))
}

proof fn leading_step(k: FfPsKey, v: VariantKey, n: nat)
    ensures
        leading(k, v, n + 1) == leading(k, v, n) + given(
            k.samples(n as int),
            texture_arg_text(v, n as int),
        ),
{
}

proof fn brackets_are_followed(k: FfPsKey, v: VariantKey, n: nat)
    requires
        n <= 8,
    ensures
        forall|q: int|
            0 <= q < leading(k, v, n).len() && #[trigger] leading(k, v, n)[q] == '[' ==> q + 13
                <= leading(k, v, n).len() && (leading(k, v, n)[q + 1] == '[' ==> q + 14 <= leading(
                k,
                v,
                n,
            ).len()),
    decreases n,
{
    if n > 0 {
        let m = (n - 1) as nat;
        brackets_are_followed(k, v, m);
        leading_step(k, v, m);
        brackets_of_a_stage(v, m as int);
        bindings_of_a_stage(v, m as int);
        bindings_are_short(m as int);
        let a = bracket(v, m as int);
        let t = texture_arg_text(v, m as int);
        assert(t[a + 2] == texture_binding(m as int)[2]);
        assert(t[a + 34 + 2] == sampler_binding(m as int)[2]);
        let base = leading(k, v, m);
        assert forall|q: int|
            0 <= q < leading(k, v, n).len() && #[trigger] leading(k, v, n)[q] == '[' implies q + 13
            <= leading(k, v, n).len() && (leading(k, v, n)[q + 1] == '[' ==> q + 14 <= leading(
            k,
            v,
            n,
        ).len()) by {
            if q < base.len() {
                assert(base[q] == '[');
                if leading(k, v, n)[q + 1] == '[' {
                    assert(base[q + 1] == '[');
                }
            } else {
                let o = q - base.len();
                assert(t[o] == '[');
                if o == a + 35 {
                    assert(leading(k, v, n)[q + 1] == t[a + 36]);
                }
            }
        }
    }
}

proof fn bindings_of_leading(k: FfPsKey, v: VariantKey, n: nat, i: int, p: int)
    requires
        n <= 8,
        0 <= i < 8,
    ensures
        occurs_at(texture_binding(i), leading(k, v, n), p) ==> i < n && k.samples(i),
        occurs_at(sampler_binding(i), leading(k, v, n), p) ==> i < n && k.samples(i),
    decreases n,
{
    bindings_are_short(i);
    if n > 0 {
        let m = (n - 1) as nat;
        bindings_of_leading(k, v, m, i, p);
        brackets_are_followed(k, v, m);
        leading_step(k, v, m);
        brackets_of_a_stage(v, m as int);
        bindings_of_a_stage(v, m as int);
        bindings_are_short(m as int);
        binding_in_last(k, v, n, i, p, texture_binding(i));
        binding_in_last(k, v, n, i, p, sampler_binding(i));
    }
}

proof fn binding_in_last(k: FfPsKey, v: VariantKey, n: nat, i: int, p: int, part: Seq<char>)
    requires
        0 < n <= 8,
        0 <= i < 8,
        part == texture_binding(i) || part == sampler_binding(i),
        occurs_at(part, leading(k, v, (n - 1) as nat), p) ==> i < n - 1 && k.samples(i),
    ensures
        occurs_at(part, leading(k, v, n), p) ==> i < n && k.samples(i),
{
    let m = (n - 1) as nat;
    let base = leading(k, v, m);
    let whole = leading(k, v, n);
    let a = bracket(v, m as int);
    let t = texture_arg_text(v, m as int);
    leading_step(k, v, m);
    bindings_are_short(i);
    if occurs_at(part, whole, p) {
        assert(whole[p + 0] == part[0]);
        assert(whole[p + 1] == part[1]);
        assert(whole[p + 2] == part[2]);
        assert(whole[p + 10] == part[10]);
        if p < base.len() {
            brackets_are_followed(k, v, m);
            assert(base[p] == '[');
            assert(p + 1 < base.len());
            assert(base[p + 1] == '[');
            assert forall|j: int| 0 <= j < part.len() implies #[trigger] base[p + j] == part[j] by {
                assert(whole[p + j] == part[j]);
            }
            assert(occurs_at(part, base, p));
        } else {
            let o = p - base.len();
            brackets_of_a_stage(v, m as int);
            bindings_of_a_stage(v, m as int);
            bindings_are_short(m as int);
            let x = texture_binding(m as int);
            let y = sampler_binding(m as int);
            assert(t[a + 2] == x[2]);
            assert(t[a + 10] == x[10]);
            assert(t[a + 34 + 2] == y[2]);
            assert(t[a + 34 + 10] == y[10]);
            assert(t[o] == '[');
            assert(t[o + 1] == '[');
            assert(o == a || o == a + 34);
            assert(digit(i as nat) == digit(m));
        }
    }
}

proof fn stages_are_contained(k: FfPsKey, v: VariantKey, n: nat, i: int) -> (p: int)
    requires
        0 <= i < n,
    ensures
        0 <= p,
        p + given(k.samples(i), texture_arg_text(v, i)).len() <= leading(k, v, n).len(),
        forall|j: int|
            0 <= j < given(k.samples(i), texture_arg_text(v, i)).len() ==> #[trigger] leading(
                k,
                v,
                n,
            )[p + j] == given(k.samples(i), texture_arg_text(v, i))[j],
    decreases n,
{
    let m = (n - 1) as nat;
    leading_step(k, v, m);
    if i == m {
        leading(k, v, m).len() as int
    } else {
        let p = stages_are_contained(k, v, m, i);
        let piece = given(k.samples(i), texture_arg_text(v, i));
        assert forall|j: int| 0 <= j < piece.len() implies #[trigger] leading(k, v, n)[p + j]
            == piece[j] by {
            assert(leading(k, v, m)[p + j] == piece[j]);
        }
        p
    }
}

/// The textures and the samplers that a pixel shader declares are those of the stages that
/// it samples, and no others.
pub proof fn declared_bindings_are_the_sampled_stages(k: FfPsKey, v: VariantKey, i: int)
    requires
        0 <= i < 8,
    ensures
        occurs(texture_binding(i), texture_args_text(k, v)) <==> k.samples(i),
        occurs(sampler_binding(i), texture_args_text(k, v)) <==> k.samples(i),
{
    let whole = texture_args_text(k, v);
    assert(whole == leading(k, v, 8));
    if k.samples(i) {
        let p = stages_are_contained(k, v, 8, i);
        let t = texture_arg_text(v, i);
        let a = bracket(v, i);
        bindings_of_a_stage(v, i);
        assert forall|j: int|
            0 <= j < texture_binding(i).len() implies #[trigger] whole[p + a + j]
            == texture_binding(i)[j] by {
            assert(t[a + j] == texture_binding(i)[j]);
            assert(whole[p + (a + j)] == t[a + j]);
        }
        assert(occurs_at(texture_binding(i), whole, p + a));
        assert forall|j: int|
            0 <= j < sampler_binding(i).len() implies #[trigger] whole[p + a + 34 + j]
            == sampler_binding(i)[j] by {
            assert(t[a + 34 + j] == sampler_binding(i)[j]);
            assert(whole[p + (a + 34 + j)] == t[a + 34 + j]);
        }
        assert(occurs_at(sampler_binding(i), whole, p + a + 34));
    }
    assert forall|p: int|
        occurs_at(texture_binding(i), whole, p) implies k.samples(i) by {
        bindings_of_leading(k, v, 8, i, p);
    }
    assert forall|p: int|
        occurs_at(sampler_binding(i), whole, p) implies k.samples(i) by {
        bindings_of_leading(k, v, 8, i, p);
    }
}

} // verus!
