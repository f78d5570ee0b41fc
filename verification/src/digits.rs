use vstd::prelude::*;
use vstd::string::StringExecFns;

verus! {

/// The character for one decimal digit; values of ten and above never arise
/// and all map to the last digit.
pub open spec fn digit_char(d: nat) -> char {
    if d == 0 {
        '0'
    } else if d == 1 {
        '1'
    } else if d == 2 {
        '2'
    } else if d == 3 {
        '3'
    } else if d == 4 {
        '4'
    } else if d == 5 {
        '5'
    } else if d == 6 {
        '6'
    } else if d == 7 {
        '7'
    } else if d == 8 {
        '8'
    } else {
        '9'
    }
}

/// The decimal digits of `n`, most significant first, without leading zeros
/// (a single `'0'` for zero).
pub open spec fn spec_dec(n: nat) -> Seq<char>
    decreases n,
{
    if n < 10 {
        seq![digit_char(n)]
    } else {
        spec_dec(n / 10) + seq![digit_char(n % 10)]
    }
}

/// The low `w` decimal digits of `n`, zero-padded to exactly `w` characters.
pub open spec fn spec_padded(n: nat, w: nat) -> Seq<char>
    decreases w,
{
    if w == 0 {
        Seq::empty()
    } else {
        spec_padded(n / 10, (w - 1) as nat) + seq![digit_char(n % 10)]
    }
}

/// Ten to the `w`-th power: the count of values that `w` decimal digits hold.
pub open spec fn pow10(w: nat) -> nat
    decreases w,
{
    if w == 0 {
        1
    } else {
        10 * pow10((w - 1) as nat)
    }
}

/// A decimal digit character, `'0'` through `'9'`.
pub open spec fn is_dec_digit(c: char) -> bool {
    48 <= c as int && c as int <= 57
}

pub proof fn lemma_digit_char_is_digit(d: nat)
    ensures
        is_dec_digit(digit_char(d)),
{
    assert('0' as int == 48);
    assert('9' as int == 57);
}

pub proof fn lemma_digit_char_injective(d1: nat, d2: nat)
    requires
        d1 < 10,
        d2 < 10,
        digit_char(d1) == digit_char(d2),
    ensures
        d1 == d2,
{
}

pub proof fn lemma_dec_len(n: nat)
    ensures
        spec_dec(n).len() >= 1,
        spec_dec(n).len() == 1 <==> n < 10,
    decreases n,
{
    if n >= 10 {
        lemma_dec_len(n / 10);
    }
}

pub proof fn lemma_padded_len(n: nat, w: nat)
    ensures
        spec_padded(n, w).len() == w,
    decreases w,
{
    if w > 0 {
        lemma_padded_len(n / 10, (w - 1) as nat);
    }
}

pub proof fn lemma_dec_is_digits(n: nat)
    ensures
        forall|i: int| 0 <= i < spec_dec(n).len() ==> is_dec_digit(#[trigger] spec_dec(n)[i]),
    decreases n,
{
    if n < 10 {
        lemma_digit_char_is_digit(n);
    } else {
        lemma_dec_is_digits(n / 10);
        lemma_digit_char_is_digit(n % 10);
        let s = spec_dec(n);
        let a = spec_dec(n / 10);
        assert forall|i: int| 0 <= i < s.len() implies is_dec_digit(s[i]) by {
            if i < a.len() {
                assert(s[i] == a[i]);
            } else {
                assert(s[i] == digit_char(n % 10));
            }
        }
    }
}

pub proof fn lemma_padded_is_digits(n: nat, w: nat)
    ensures
        forall|i: int|
            0 <= i < spec_padded(n, w).len() ==> is_dec_digit(#[trigger] spec_padded(n, w)[i]),
    decreases w,
{
    if w > 0 {
        lemma_padded_is_digits(n / 10, (w - 1) as nat);
        lemma_digit_char_is_digit(n % 10);
        let s = spec_padded(n, w);
        let a = spec_padded(n / 10, (w - 1) as nat);
        assert forall|i: int| 0 <= i < s.len() implies is_dec_digit(s[i]) by {
            if i < a.len() {
                assert(s[i] == a[i]);
            } else {
                assert(s[i] == digit_char(n % 10));
            }
        }
    }
}

pub proof fn lemma_dec_injective(n1: nat, n2: nat)
    requires
        spec_dec(n1) == spec_dec(n2),
    ensures
        n1 == n2,
    decreases n1,
{
    lemma_dec_len(n1);
    lemma_dec_len(n2);
    if n1 < 10 {
        assert(n2 < 10);
        assert(spec_dec(n1)[0] == digit_char(n1));
        assert(spec_dec(n2)[0] == digit_char(n2));
        lemma_digit_char_injective(n1, n2);
    } else {
        assert(n2 >= 10);
        let s1 = spec_dec(n1);
        let s2 = spec_dec(n2);
        assert(s1[s1.len() - 1] == digit_char(n1 % 10));
        assert(s2[s2.len() - 1] == digit_char(n2 % 10));
        assert(spec_dec(n1 / 10) =~= s1.subrange(0, s1.len() - 1));
        assert(spec_dec(n2 / 10) =~= s2.subrange(0, s2.len() - 1));
        lemma_dec_injective(n1 / 10, n2 / 10);
        lemma_digit_char_injective(n1 % 10, n2 % 10);
    }
}

pub proof fn lemma_padded_injective(n1: nat, n2: nat, w: nat)
    requires
        n1 < pow10(w),
        n2 < pow10(w),
        spec_padded(n1, w) == spec_padded(n2, w),
    ensures
        n1 == n2,
    decreases w,
{
    if w == 0 {
        assert(pow10(0) == 1);
    } else {
        let s1 = spec_padded(n1, w);
        let s2 = spec_padded(n2, w);
        lemma_padded_len(n1, w);
        lemma_padded_len(n2, w);
        lemma_padded_len(n1 / 10, (w - 1) as nat);
        lemma_padded_len(n2 / 10, (w - 1) as nat);
        assert(s1[s1.len() - 1] == digit_char(n1 % 10));
        assert(s2[s2.len() - 1] == digit_char(n2 % 10));
        assert(spec_padded(n1 / 10, (w - 1) as nat) =~= s1.subrange(0, s1.len() - 1));
        assert(spec_padded(n2 / 10, (w - 1) as nat) =~= s2.subrange(0, s2.len() - 1));
        assert(n1 / 10 < pow10((w - 1) as nat) && n2 / 10 < pow10((w - 1) as nat)) by (nonlinear_arith)
            requires
                n1 < pow10(w),
                n2 < pow10(w),
                w > 0,
                pow10(w) == 10 * pow10((w - 1) as nat),
        ;
        lemma_padded_injective(n1 / 10, n2 / 10, (w - 1) as nat);
        assert(n1 % 10 == n2 % 10);
    }
}

pub proof fn lemma_pow10_nine()
    ensures
        pow10(9) == 1_000_000_000,
{
    reveal_with_fuel(pow10, 11);
}

fn append_digit(s: &mut String, d: u64)
    requires
        d < 10,
    ensures
        final(s)@ == old(s)@ + seq![digit_char(d as nat)],
{
    let piece: &str = if d == 0 {
        "0"
    } else if d == 1 {
        "1"
    } else if d == 2 {
        "2"
    } else if d == 3 {
        "3"
    } else if d == 4 {
        "4"
    } else if d == 5 {
        "5"
    } else if d == 6 {
        "6"
    } else if d == 7 {
        "7"
    } else if d == 8 {
        "8"
    } else {
        "9"
    };
    proof {
        reveal_strlit("0");
        reveal_strlit("1");
        reveal_strlit("2");
        reveal_strlit("3");
        reveal_strlit("4");
        reveal_strlit("5");
        reveal_strlit("6");
        reveal_strlit("7");
        reveal_strlit("8");
        reveal_strlit("9");
        assert(piece@ =~= seq![digit_char(d as nat)]);
    }
    s.append(piece);
}

/// Appends the decimal digits of `n`, most significant first.
pub fn append_dec(s: &mut String, n: u64)
    ensures
        final(s)@ == old(s)@ + spec_dec(n as nat),
    decreases n,
{
    if n >= 10 {
        append_dec(s, n / 10);
    }
    append_digit(s, n % 10);
    proof {
        assert(s@ =~= old(s)@ + spec_dec(n as nat));
    }
}

/// Appends the low `w` decimal digits of `n`, zero-padded to width `w`.
pub fn append_padded(s: &mut String, n: u64, w: u64)
    ensures
        final(s)@ == old(s)@ + spec_padded(n as nat, w as nat),
    decreases w,
{
    if w > 0 {
        append_padded(s, n / 10, w - 1);
        append_digit(s, n % 10);
    }
    proof {
        assert(s@ =~= old(s)@ + spec_padded(n as nat, w as nat));
    }
}

} // verus!
