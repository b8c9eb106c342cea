//! Deterministic names for the generated actor namespace and for the numbered
//! per-implementation-block namespaces.

use vstd::prelude::*;

verus! {

/// The characters of the internal namespace name derived from a type name:
/// a double-underscore prefix and an `Actor` suffix.
pub open spec fn actor_mod_chars(name: Seq<char>) -> Seq<char> {
    "__"@ + name + "Actor"@
}

/// Builds the internal actor-namespace name for a type name.
pub fn actor_mod_name(name: &str) -> (r: String)
    ensures
        r@ == actor_mod_chars(name@),
{
    let mut s = "__".to_owned();
    s.append(name);
    s.append("Actor");
    s
}

/// Applying the namespace derivation twice to equal type names yields equal
/// namespace names: the derivation is a pure function of the type name.
pub proof fn lemma_actor_mod_name_deterministic(a: Seq<char>, b: Seq<char>)
    requires
        a == b,
    ensures
        actor_mod_chars(a) == actor_mod_chars(b),
{
}

/// The decimal digit character for a value below ten.
pub open spec fn digit_char(d: nat) -> char {
    if d == 0 {
        '0'
    } else if d == 1 {
        '1'
    } else if d == 2 {
        '2'
    } else if d == 3 {
        '3'
    } else if d == 4 {
        '4'
    } else if d == 5 {
        '5'
    } else if d == 6 {
        '6'
    } else if d == 7 {
        '7'
    } else if d == 8 {
        '8'
    } else {
        '9'
    }
}

/// The decimal rendering of a number, most significant digit first, with no
/// leading zero except for the number zero itself.
pub open spec fn dec_chars(n: nat) -> Seq<char>
    decreases n,
{
    if n < 10 {
        seq![digit_char(n)]
    } else {
        dec_chars(n / 10).push(digit_char(n % 10))
    }
}

/// The characters of the numbered namespace generated for one handler
/// implementation block.
pub open spec fn impl_mod_chars(n: nat) -> Seq<char> {
    "__impl"@ + dec_chars(n)
}

/// The decimal digit character for a value below ten.
fn digit_str(d: u64) -> (r: &'static str)
    requires
        d < 10,
    ensures
        r@ == seq![digit_char(d as nat)],
{
    proof {
        reveal_strlit("0");
        reveal_strlit("1");
        reveal_strlit("2");
        reveal_strlit("3");
        reveal_strlit("4");
        reveal_strlit("5");
        reveal_strlit("6");
        reveal_strlit("7");
        reveal_strlit("8");
        reveal_strlit("9");
    }
    let r = if d == 0 {
        "0"
    } else if d == 1 {
        "1"
    } else if d == 2 {
        "2"
    } else if d == 3 {
        "3"
    } else if d == 4 {
        "4"
    } else if d == 5 {
        "5"
    } else if d == 6 {
        "6"
    } else if d == 7 {
        "7"
    } else if d == 8 {
        "8"
    } else {
        "9"
    };
    proof {
        assert(r@ =~= seq![digit_char(d as nat)]);
    }
    r
}

/// Renders a number in decimal.
pub fn dec_string(n: u64) -> (r: String)
    ensures
        r@ == dec_chars(n as nat),
    decreases n,
{
    if n < 10 {
        digit_str(n).to_owned()
    } else {
        let mut s = dec_string(n / 10);
        s.append(digit_str(n % 10));
        proof {
            assert(s@ =~= dec_chars(n as nat));
        }
        s
    }
}

/// The counter that numbers the generated per-implementation-block
/// namespaces: monotonically increasing, never reset, never reused within
/// one compilation run.
pub struct ImplBlockCounter {
    pub next: u64,
}

impl ImplBlockCounter {
    /// A fresh counter, starting at zero.
    pub fn new() -> (r: Self)
        ensures
            r.next == 0,
    {
        ImplBlockCounter { next: 0 }
    }

    /// Returns the namespace name for the current counter value and
    /// advances the counter, so no two calls yield the same name.
    pub fn fresh_impl_mod_name(&mut self) -> (r: String)
        requires
            old(self).next < u64::MAX,
        ensures
            final(self).next == old(self).next + 1,
            r@ == impl_mod_chars(old(self).next as nat),
    {
        let n = self.next;
        self.next = n + 1;
        let mut s = "__impl".to_owned();
        let digits = dec_string(n);
        s.append(digits.as_str());
        s
    }
}

/// Distinct digit values render as distinct digit characters.
proof fn lemma_digit_char_injective(a: nat, b: nat)
    requires
        a < 10,
        b < 10,
        digit_char(a) == digit_char(b),
    ensures
        a == b,
{
}

/// The decimal rendering of a number at least ten is at least two characters
/// long; every rendering is at least one character long.
proof fn lemma_dec_chars_len(n: nat)
    ensures
        dec_chars(n).len() >= 1,
        n >= 10 ==> dec_chars(n).len() >= 2,
    decreases n,
{
    if n >= 10 {
        lemma_dec_chars_len(n / 10);
    }
}

/// Decimal rendering is injective: distinct numbers render differently.
pub proof fn lemma_dec_chars_injective(a: nat, b: nat)
    requires
        dec_chars(a) == dec_chars(b),
    ensures
        a == b,
    decreases a,
{
    lemma_dec_chars_len(a);
    lemma_dec_chars_len(b);
    if a < 10 && b < 10 {
        assert(dec_chars(a) == seq![digit_char(a)]);
        assert(dec_chars(b) == seq![digit_char(b)]);
        assert(seq![digit_char(a)][0] == digit_char(a));
        assert(seq![digit_char(b)][0] == digit_char(b));
        assert(digit_char(a) == digit_char(b));
        lemma_digit_char_injective(a, b);
    } else if a < 10 && b >= 10 {
        assert(dec_chars(a).len() == 1);
        assert(dec_chars(b).len() >= 2);
    } else if a >= 10 && b < 10 {
        assert(dec_chars(a).len() >= 2);
        assert(dec_chars(b).len() == 1);
    } else {
        let pa = dec_chars(a / 10);
        let pb = dec_chars(b / 10);
        assert(a % 10 < 10 && b % 10 < 10) by (nonlinear_arith);
        assert(dec_chars(a).last() == digit_char(a % 10));
        assert(dec_chars(b).last() == digit_char(b % 10));
        assert(digit_char(a % 10) == digit_char(b % 10));
        lemma_digit_char_injective(a % 10, b % 10);
        assert(pa =~= dec_chars(a).drop_last());
        assert(pb =~= dec_chars(b).drop_last());
        assert(pa == pb);
        lemma_dec_chars_injective(a / 10, b / 10);
        assert(a == (a / 10) * 10 + a % 10) by (nonlinear_arith);
        assert(b == (b / 10) * 10 + b % 10) by (nonlinear_arith);
    }
}

/// The counter-backed namespace naming never returns the same name twice:
/// distinct counter values yield distinct namespace names.
pub proof fn lemma_impl_mod_names_distinct(a: nat, b: nat)
    requires
        a != b,
    ensures
        impl_mod_chars(a) != impl_mod_chars(b),
{
    if impl_mod_chars(a) == impl_mod_chars(b) {
        let p = "__impl"@;
        assert(dec_chars(a) =~= impl_mod_chars(a).subrange(
            p.len() as int,
            impl_mod_chars(a).len() as int,
        ));
        assert(dec_chars(b) =~= impl_mod_chars(b).subrange(
            p.len() as int,
            impl_mod_chars(b).len() as int,
        ));
        lemma_dec_chars_injective(a, b);
    }
}

} // verus!
