//! Canonical decimal text of integers.
//!
//! The canonical text of an integer is its shortest decimal numeral: digits
//! without a leading zero, behind a minus sign where the integer is negative.

use vstd::prelude::*;

verus! {

/// The character of the decimal digit `d`.
pub open spec fn digit_char(d: int) -> char
    recommends
        0 <= d < 10,
{
    if d == 0 {
        '0'
    } else if d == 1 {
        '1'
    } else if d == 2 {
        '2'
    } else if d == 3 {
        '3'
    } else if d == 4 {
        '4'
    } else if d == 5 {
        '5'
    } else if d == 6 {
        '6'
    } else if d == 7 {
        '7'
    } else if d == 8 {
        '8'
    } else {
        '9'
    }
}

/// Whether `c` is a decimal digit.
pub open spec fn is_digit(c: char) -> bool {
    exists|d: int| 0 <= d < 10 && digit_char(d) == c
}

/// The value of the decimal digit `c`.
pub open spec fn digit_value(c: char) -> int
    recommends
        is_digit(c),
{
    choose|d: int| 0 <= d < 10 && digit_char(d) == c
}

/// The canonical decimal text of the natural number `n`.
pub open spec fn nat_text(n: nat) -> Seq<char>
    decreases n,
{
    if n < 10 {
        seq![digit_char(n as int)]
    } else {
        nat_text(n / 10).push(digit_char((n % 10) as int))
    }
}

/// The canonical decimal text of the integer `n`.
pub open spec fn int_text(n: int) -> Seq<char> {
    if n < 0 {
        seq!['-'] + nat_text((-n) as nat)
    } else {
        nat_text(n as nat)
    }
}

/// The number that a sequence of digits denotes.
pub open spec fn nat_value(s: Seq<char>) -> nat
    decreases s.len(),
{
    if s.len() == 0 {
        0
    } else {
        (10 * nat_value(s.drop_last()) + digit_value(s.last())) as nat
    }
}

/// The integer that a decimal text denotes.
pub open spec fn int_value(s: Seq<char>) -> int {
    if s.len() > 0 && s[0] == '-' {
        -(nat_value(s.drop_first()) as int)
    } else {
        nat_value(s) as int
    }
}

/// Whether `s` is the canonical text of a natural number: one digit or more,
/// all of them digits, and no leading zero but in the text of zero itself.
pub open spec fn is_canonical_nat(s: Seq<char>) -> bool {
    &&& s.len() > 0
    &&& forall|i: int| 0 <= i < s.len() ==> is_digit(#[trigger] s[i])
    &&& (s.len() > 1 ==> s[0] != '0')
}

/// Whether `s` is the canonical text of an integer: that of a natural number,
/// or a minus sign before that of a positive one.
pub open spec fn is_canonical_int(s: Seq<char>) -> bool {
    if s.len() > 0 && s[0] == '-' {
        is_canonical_nat(s.drop_first()) && s.drop_first() != seq!['0']
    } else {
        is_canonical_nat(s)
    }
}

/// Each digit has the value that its character was made from.
pub proof fn lemma_digit_value(d: int)
    requires
        0 <= d < 10,
    ensures
        is_digit(digit_char(d)),
        digit_value(digit_char(d)) == d,
        digit_char(d) != '-',
{
    let c = digit_char(d);
    let v = digit_value(c);
    assert(0 <= v < 10 && digit_char(v) == c);
}

/// The text of a natural number is canonical and denotes that number.
pub proof fn lemma_nat_text_round_trip(n: nat)
    ensures
        is_canonical_nat(nat_text(n)),
        nat_value(nat_text(n)) == n,
        (nat_text(n) == seq!['0']) <==> n == 0,
    decreases n,
{
    let s = nat_text(n);
    if n < 10 {
        lemma_digit_value(n as int);
        assert(s.drop_last() =~= Seq::<char>::empty());
        assert(nat_value(s.drop_last()) == 0);
        assert(s.last() == digit_char(n as int));
        assert(s[0] == digit_char(n as int));
        if s == seq!['0'] {
            assert(s[0] == '0');
        }
        if n == 0 {
            assert(s =~= seq!['0']);
        }
    } else {
        let q = n / 10;
        let r = n % 10;
        lemma_nat_text_round_trip(q);
        lemma_digit_value(r as int);
        let t = nat_text(q);
        assert(s.drop_last() =~= t);
        assert(s.last() == digit_char(r as int));
        assert forall|i: int| 0 <= i < s.len() implies is_digit(#[trigger] s[i]) by {
            if i < t.len() {
                assert(s[i] == t[i]);
            }
        }
        assert(s[0] == t[0]);
        if t.len() == 1 {
            assert(t =~= seq![t[0]]);
        }
        assert(s.len() >= 2);
    }
}

/// Value, then text: the text of an integer denotes that integer and is
/// canonical.
pub proof fn lemma_int_text_round_trip(n: int)
    ensures
        is_canonical_int(int_text(n)),
        int_value(int_text(n)) == n,
{
    if n < 0 {
        let m = (-n) as nat;
        lemma_nat_text_round_trip(m);
        let s = int_text(n);
        assert(s[0] == '-');
        assert(s.drop_first() =~= nat_text(m));
    } else {
        let m = n as nat;
        lemma_nat_text_round_trip(m);
        let s = nat_text(m);
        assert(is_digit(s[0]));
        let d = digit_value(s[0]);
        assert(0 <= d < 10 && digit_char(d) == s[0]);
    }
}

/// Text, then value: a canonical text of a natural number is the text of the
/// number it denotes.
pub proof fn lemma_canonical_nat_round_trip(s: Seq<char>)
    requires
        is_canonical_nat(s),
    ensures
        nat_text(nat_value(s)) == s,
        s.len() > 1 ==> nat_value(s) >= 10,
    decreases s.len(),
{
    let c = s.last();
    assert(is_digit(s[s.len() - 1]));
    let d = digit_value(c);
    assert(0 <= d < 10 && digit_char(d) == c);
    if s.len() == 1 {
        assert(s.drop_last() =~= Seq::<char>::empty());
        assert(nat_value(s.drop_last()) == 0);
        assert(nat_value(s) == d);
        assert(nat_text(d as nat) =~= s);
    } else {
        let t = s.drop_last();
        assert forall|i: int| 0 <= i < t.len() implies is_digit(#[trigger] t[i]) by {
            assert(t[i] == s[i]);
        }
        assert(t[0] == s[0]);
        lemma_canonical_nat_round_trip(t);
        let q = nat_value(t);
        assert(is_digit(t[0]));
        let d0 = digit_value(t[0]);
        assert(0 <= d0 < 10 && digit_char(d0) == t[0]);
        if t.len() == 1 {
            assert(t.drop_last() =~= Seq::<char>::empty());
            assert(nat_value(t.drop_last()) == 0);
            assert(q == d0);
            assert(d0 != 0);
        }
        assert(q >= 1);
        let n = nat_value(s);
        assert(n == 10 * q + d);
        assert(n / 10 == q && n % 10 == d);
        assert(nat_text(n) =~= s);
    }
}

/// Text, then value: a canonical text of an integer is the text of the
/// integer it denotes.
pub proof fn lemma_canonical_int_round_trip(s: Seq<char>)
    requires
        is_canonical_int(s),
    ensures
        int_text(int_value(s)) == s,
{
    if s.len() > 0 && s[0] == '-' {
        let t = s.drop_first();
        lemma_canonical_nat_round_trip(t);
        let m = nat_value(t);
        if m == 0 {
            assert(nat_text(0) =~= seq!['0']);
        }
        assert(int_text(-(m as int)) =~= s);
    } else {
        lemma_canonical_nat_round_trip(s);
    }
}

/// The text of one decimal digit.
fn digit_str(d: u64) -> (s: &'static str)
    requires
        d < 10,
    ensures
        s@ == seq![digit_char(d as int)],
{
    proof {
        reveal_strlit("0");
        reveal_strlit("1");
        reveal_strlit("2");
        reveal_strlit("3");
        reveal_strlit("4");
        reveal_strlit("5");
        reveal_strlit("6");
        reveal_strlit("7");
        reveal_strlit("8");
        reveal_strlit("9");
    }
    let s = if d == 0 {
        "0"
    } else if d == 1 {
        "1"
    } else if d == 2 {
        "2"
    } else if d == 3 {
        "3"
    } else if d == 4 {
        "4"
    } else if d == 5 {
        "5"
    } else if d == 6 {
        "6"
    } else if d == 7 {
        "7"
    } else if d == 8 {
        "8"
    } else {
        "9"
    };
    assert(s@ =~= seq![digit_char(d as int)]);
    s
}

/// Writes the canonical decimal text of `n`.
pub fn format_nat(n: u64) -> (s: String)
    ensures
        s@ == nat_text(n as nat),
    decreases n,
{
    if n < 10 {
        String::from_str(digit_str(n))
    } else {
        let mut s = format_nat(n / 10);
        s.append(digit_str(n % 10));
        assert(s@ =~= nat_text(n as nat));
        s
    }
}

/// Writes the canonical decimal text of `n`.
pub fn format_int(n: i64) -> (s: String)
    ensures
        s@ == int_text(n as int),
{
    if n < 0 {
        let magnitude: u64 = ((-(n + 1)) as u64) + 1;
        let mut s = String::from_str("-");
        let digits = format_nat(magnitude);
        s.append(digits.as_str());
        proof {
            reveal_strlit("-");
            assert(s@ =~= int_text(n as int));
        }
        s
    } else {
        format_nat(n as u64)
    }
}

} // verus!
