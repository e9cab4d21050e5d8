//! Building text piece by piece.

use vstd::prelude::*;

verus! {

/// A piece of text that is there only when a condition holds.
pub open spec fn given(cond: bool, s: Seq<char>) -> Seq<char> {
    if cond {
        s
    } else {
        Seq::empty()
    }
}

/// The pieces `f(0)`, `f(1)`, up to but without `f(n)`, one behind the other.
pub open spec fn each(n: nat, f: spec_fn(int) -> Seq<char>) -> Seq<char>
    decreases n,
{
    if n == 0 {
        Seq::empty()
    } else {
        each((n - 1) as nat, f) + f(n - 1)
    }
}

/// Pieces that are equal one by one are equal together.
pub proof fn equal_pieces(n: nat, f: spec_fn(int) -> Seq<char>, g: spec_fn(int) -> Seq<char>)
    requires
        forall|i: int| 0 <= i < n ==> #[trigger] f(i) == g(i),
    ensures
        each(n, f) == each(n, g),
    decreases n,
{
    if n > 0 {
        equal_pieces((n - 1) as nat, f, g);
        assert(f(n - 1) == g(n - 1));
    }
}

/// The decimal digit of a number below ten.
pub open spec fn digit(d: nat) -> char {
    (48 + d) as char
}

/// A number in decimal.
pub open spec fn dec(n: nat) -> Seq<char>
    decreases n,
{
    if n < 10 {
        seq![digit(n)]
    } else {
        dec(n / 10) + seq![digit(n % 10)]
    }
}

/// Appends text.
pub fn push(out: &mut String, s: &str)
    ensures
        final(out)@ == old(out)@ + s@,
{
    out.append(s);
}

/// Appends text when a condition holds.
pub fn push_if(out: &mut String, cond: bool, s: &str)
    ensures
        final(out)@ == old(out)@ + given(cond, s@),
{
    if cond {
        out.append(s);
    } else {
        assert(old(out)@ + Seq::<char>::empty() =~= old(out)@);
    }
}

fn digit_text(d: u32) -> (r: &'static str)
    requires
        d < 10,
    ensures
        r@ == seq![digit(d as nat)],
{
    proof {
        reveal_strlit("0");
        reveal_strlit("1");
        reveal_strlit("2");
        reveal_strlit("3");
        reveal_strlit("4");
        reveal_strlit("5");
        reveal_strlit("6");
        reveal_strlit("7");
        reveal_strlit("8");
        reveal_strlit("9");
    }
    let r: &'static str = match d {
        0 => "0",
        1 => "1",
        2 => "2",
        3 => "3",
        4 => "4",
        5 => "5",
        6 => "6",
        7 => "7",
        8 => "8",
        _ => "9",
    };
    assert(r@ =~= seq![digit(d as nat)]);
    r
}

/// A number in decimal.
pub fn decimal(n: u64) -> (r: String)
    ensures
        r@ == dec(n as nat),
    decreases n,
{
    if n < 10 {
        let mut out: String = String::new();
        push(&mut out, digit_text(n as u32));
        assert(out@ =~= dec(n as nat));
        out
    } else {
        let mut out: String = decimal(n / 10);
        push(&mut out, digit_text((n % 10) as u32));
        out
    }
}

/// Appends a number in decimal.
pub fn push_num(out: &mut String, n: u32)
    ensures
        final(out)@ == old(out)@ + dec(n as nat),
{
    let s: String = decimal(n as u64);
    push(out, s.as_str());
}

/// A copy of some text.
pub fn owned(s: &str) -> (r: String)
    ensures
        r@ == s@,
{
    s.to_owned()
}

} // verus!
