//! Decimal rendering of integers, used to derive match identifiers.

use vstd::prelude::*;
use vstd::string::*;

verus! {

/// The character that stands for the decimal digit `d`.
pub open spec fn digit_char(d: int) -> char {
    if d == 0 {
        '0'
    } else if d == 1 {
        '1'
    } else if d == 2 {
        '2'
    } else if d == 3 {
        '3'
    } else if d == 4 {
        '4'
    } else if d == 5 {
        '5'
    } else if d == 6 {
        '6'
    } else if d == 7 {
        '7'
    } else if d == 8 {
        '8'
    } else {
        '9'
    }
}

/// The decimal digits of `n`, most significant first, without leading zeros.
pub open spec fn nat_digits(n: nat) -> Seq<char>
    decreases n,
{
    if n < 10 {
        seq![digit_char(n as int)]
    } else {
        nat_digits(n / 10).push(digit_char((n % 10) as int))
    }
}

/// The decimal rendering of `v`: a minus sign for a negative number, then the
/// digits of its magnitude.
pub open spec fn int_decimal(v: int) -> Seq<char> {
    if v < 0 {
        seq!['-'] + nat_digits((-v) as nat)
    } else {
        nat_digits(v as nat)
    }
}

/// The number that a sequence of digit characters denotes.
pub open spec fn digits_value(s: Seq<char>) -> nat
    decreases s.len(),
{
    if s.len() == 0 {
        0
    } else {
        digits_value(s.drop_last()) * 10 + char_digit(s.last())
    }
}

/// The digit that a character stands for. A character that is no digit is
/// read as nine; no such character occurs in the digits of a number.
pub open spec fn char_digit(c: char) -> nat {
    if c == '0' {
        0
    } else if c == '1' {
        1
    } else if c == '2' {
        2
    } else if c == '3' {
        3
    } else if c == '4' {
        4
    } else if c == '5' {
        5
    } else if c == '6' {
        6
    } else if c == '7' {
        7
    } else if c == '8' {
        8
    } else {
        9
    }
}

/// The digits of a number are digits, there is at least one, and reading
/// them back gives the number.
pub proof fn lemma_digits_value_of_nat_digits(n: nat)
    ensures
        digits_value(nat_digits(n)) == n,
        nat_digits(n).len() >= 1,
        forall|i: int| 0 <= i < nat_digits(n).len() ==> is_digit(#[trigger] nat_digits(n)[i]),
    decreases n,
{
    if n < 10 {
        let s = nat_digits(n);
        assert(s.drop_last() =~= Seq::<char>::empty());
        assert(digits_value(s.drop_last()) == 0);
    } else {
        lemma_digits_value_of_nat_digits(n / 10);
        let s = nat_digits(n);
        assert(s.drop_last() =~= nat_digits(n / 10));
    }
}

/// Whether a character is one of the ten decimal digits.
pub open spec fn is_digit(c: char) -> bool {
    c == '0' || c == '1' || c == '2' || c == '3' || c == '4' || c == '5' || c == '6' || c == '7'
        || c == '8' || c == '9'
}

/// Two integers with the same decimal rendering are the same integer.
pub proof fn lemma_int_decimal_injective(a: int, b: int)
    requires
        int_decimal(a) == int_decimal(b),
    ensures
        a == b,
{
    let na = if a < 0 { (-a) as nat } else { a as nat };
    let nb = if b < 0 { (-b) as nat } else { b as nat };
    lemma_digits_value_of_nat_digits(na);
    lemma_digits_value_of_nat_digits(nb);
    if a < 0 && b < 0 {
        assert((seq!['-'] + nat_digits(na)).subrange(1, 1 + nat_digits(na).len() as int)
            =~= nat_digits(na));
        assert((seq!['-'] + nat_digits(nb)).subrange(1, 1 + nat_digits(nb).len() as int)
            =~= nat_digits(nb));
    } else if a < 0 {
        assert(int_decimal(a)[0] == '-');
        assert(is_digit(nat_digits(nb)[0]));
    } else if b < 0 {
        assert(int_decimal(b)[0] == '-');
        assert(is_digit(nat_digits(na)[0]));
    }
}

/// The one-character string of the digit `d`.
fn digit_str(d: u64) -> (s: &'static str)
    requires
        d < 10,
    ensures
        s@ == seq![digit_char(d as int)],
{
    proof {
        reveal_strlit("0");
        reveal_strlit("1");
        reveal_strlit("2");
        reveal_strlit("3");
        reveal_strlit("4");
        reveal_strlit("5");
        reveal_strlit("6");
        reveal_strlit("7");
        reveal_strlit("8");
        reveal_strlit("9");
    }
    let s: &'static str = if d == 0 {
        "0"
    } else if d == 1 {
        "1"
    } else if d == 2 {
        "2"
    } else if d == 3 {
        "3"
    } else if d == 4 {
        "4"
    } else if d == 5 {
        "5"
    } else if d == 6 {
        "6"
    } else if d == 7 {
        "7"
    } else if d == 8 {
        "8"
    } else {
        "9"
    };
    assert(s@ =~= seq![digit_char(d as int)]);
    s
}

/// Appends the decimal digits of `n` to `out`.
pub fn push_nat_digits(out: &mut String, n: u64)
    ensures
        final(out)@ == old(out)@ + nat_digits(n as nat),
    decreases n,
{
    if n >= 10 {
        push_nat_digits(out, n / 10);
    }
    let ghost before = out@;
    out.append(digit_str(n % 10));
    proof {
        if n >= 10 {
            assert(out@ =~= old(out)@ + nat_digits(n as nat));
        } else {
            assert(out@ =~= old(out)@ + nat_digits(n as nat));
        }
    }
}

/// Appends the decimal rendering of `v` to `out`.
pub fn push_i32_decimal(out: &mut String, v: i32)
    ensures
        final(out)@ == old(out)@ + int_decimal(v as int),
{
    if v < 0 {
        proof {
            reveal_strlit("-");
        }
        out.append("-");
        let wide: i64 = v as i64;
        let magnitude: u64 = (-wide) as u64;
        push_nat_digits(out, magnitude);
        assert(out@ =~= old(out)@ + int_decimal(v as int));
    } else {
        push_nat_digits(out, v as u64);
    }
}

/// Whether a sequence of characters holds no dot.
pub open spec fn dot_free(s: Seq<char>) -> bool {
    forall|i: int| 0 <= i < s.len() ==> s[i] != '.'
}

/// The decimal rendering of an integer holds no dot.
pub proof fn lemma_int_decimal_dot_free(v: int)
    ensures
        dot_free(int_decimal(v)),
{
    let n = if v < 0 { (-v) as nat } else { v as nat };
    lemma_digits_value_of_nat_digits(n);
    assert forall|i: int| 0 <= i < int_decimal(v).len() implies int_decimal(v)[i] != '.' by {
        if v < 0 {
            if i > 0 {
                assert(int_decimal(v)[i] == nat_digits(n)[i - 1]);
                assert(is_digit(nat_digits(n)[i - 1]));
            }
        } else {
            assert(is_digit(nat_digits(n)[i]));
        }
    }
}

/// Two dot-free heads, each followed by a dot and a tail, give the same
/// sequence only where the heads are the same and the tails are the same.
pub proof fn lemma_split_at_dot(a: Seq<char>, x: Seq<char>, b: Seq<char>, y: Seq<char>)
    requires
        dot_free(a),
        dot_free(b),
        a + seq!['.'] + x == b + seq!['.'] + y,
    ensures
        a == b,
        x == y,
{
    let l = a + seq!['.'] + x;
    let r = b + seq!['.'] + y;
    if a.len() < b.len() {
        assert(l[a.len() as int] == '.');
        assert(r[a.len() as int] == b[a.len() as int]);
    } else if b.len() < a.len() {
        assert(r[b.len() as int] == '.');
        assert(l[b.len() as int] == a[b.len() as int]);
    }
    assert(a.len() == b.len());
    assert(l.len() == r.len());
    assert forall|i: int| 0 <= i < a.len() implies a[i] == b[i] by {
        assert(l[i] == a[i]);
        assert(r[i] == b[i]);
    }
    assert(a =~= b);
    assert forall|i: int| 0 <= i < x.len() implies x[i] == y[i] by {
        assert(l[a.len() + 1 + i] == x[i]);
        assert(r[b.len() + 1 + i] == y[i]);
    }
    assert(x =~= y);
}

} // verus!
