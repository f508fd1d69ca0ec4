//! The status line that is published for a location.

use vstd::prelude::*;
use vstd::string::StringExecFns;

use crate::types::MapType;

verus! {

/// The decimal digit that stands for `d` (below ten).
pub open spec fn digit_char(d: nat) -> char {
    if d == 0 {
        '0'
    } else if d == 1 {
        '1'
    } else if d == 2 {
        '2'
    } else if d == 3 {
        '3'
    } else if d == 4 {
        '4'
    } else if d == 5 {
        '5'
    } else if d == 6 {
        '6'
    } else if d == 7 {
        '7'
    } else if d == 8 {
        '8'
    } else {
        '9'
    }
}

/// The decimal digits of `n`, most significant first, with no leading zero.
pub open spec fn digits_of(n: nat) -> Seq<char>
    decreases n,
{
    if n < 10 {
        seq![digit_char(n)]
    } else {
        digits_of(n / 10).push(digit_char(n % 10))
    }
}

/// `n` written in decimal, with a leading `-` when it is negative.
pub open spec fn decimal_of(n: int) -> Seq<char> {
    if n < 0 {
        seq!['-'] + digits_of((-n) as nat)
    } else {
        digits_of(n as nat)
    }
}

/// The status line for a depth and a location: `Current map: {depth}/{name}`.
pub open spec fn presence_text(depth: i32, map: MapType) -> Seq<char> {
    "Current map: "@ + decimal_of(depth as int) + "/"@ + map.name_of()
}

/// Every character of a decimal digit string is a digit.
pub proof fn lemma_digits_are_digits(n: nat)
    ensures
        digits_of(n).len() >= 1,
        n < 10 <==> digits_of(n).len() == 1,
        forall|i: int| 0 <= i < digits_of(n).len() ==> '0' <= #[trigger] digits_of(n)[i] <= '9',
    decreases n,
{
    if n >= 10 {
        lemma_digits_are_digits(n / 10);
    }
}

/// Different numbers have different digit strings.
pub proof fn lemma_digits_injective(a: nat, b: nat)
    requires
        digits_of(a) == digits_of(b),
    ensures
        a == b,
    decreases a,
{
    lemma_digits_are_digits(a);
    lemma_digits_are_digits(b);
    if a >= 10 && b >= 10 {
        let da = digits_of(a);
        assert(digit_char(a % 10) == da.last());
        assert(digits_of(a / 10) == da.drop_last());
        assert(digits_of(b / 10) == digits_of(b).drop_last());
        assert(digit_char(b % 10) == digits_of(b).last());
        assert(a % 10 == b % 10);
        lemma_digits_injective(a / 10, b / 10);
    } else if a < 10 && b < 10 {
        assert(digit_char(a) == digits_of(a)[0]);
        assert(digit_char(b) == digits_of(b)[0]);
    }
}

/// Different numbers are written differently in decimal.
pub proof fn lemma_decimal_injective(a: int, b: int)
    requires
        decimal_of(a) == decimal_of(b),
    ensures
        a == b,
{
    lemma_digits_are_digits(if a < 0 { (-a) as nat } else { a as nat });
    lemma_digits_are_digits(if b < 0 { (-b) as nat } else { b as nat });
    if a < 0 && b < 0 {
        assert(digits_of((-a) as nat) == decimal_of(a).drop_first());
        assert(digits_of((-b) as nat) == decimal_of(b).drop_first());
        lemma_digits_injective((-a) as nat, (-b) as nat);
    } else if a >= 0 && b >= 0 {
        lemma_digits_injective(a as nat, b as nat);
    } else if a < 0 {
        assert(digits_of(b as nat)[0] == decimal_of(b)[0]);
        assert(decimal_of(a)[0] == '-');
    } else {
        assert(digits_of(a as nat)[0] == decimal_of(a)[0]);
        assert(decimal_of(b)[0] == '-');
    }
}

/// A status line gives back its depth and its location: two lines are equal only
/// when both depth and location are.
pub proof fn lemma_presence_text_identifies(d1: i32, m1: MapType, d2: i32, m2: MapType)
    requires
        presence_text(d1, m1) == presence_text(d2, m2),
    ensures
        d1 == d2,
        m1 == m2,
{
    reveal_strlit("Current map: ");
    reveal_strlit("/");
    let p = "Current map: "@;
    let x1 = decimal_of(d1 as int);
    let x2 = decimal_of(d2 as int);
    let k1: int = p.len() as int + x1.len();
    let k2: int = p.len() as int + x2.len();
    let t1 = presence_text(d1, m1);
    let t2 = presence_text(d2, m2);
    lemma_digits_are_digits(if d1 < 0 { (-d1) as nat } else { d1 as nat });
    lemma_digits_are_digits(if d2 < 0 { (-d2) as nat } else { d2 as nat });
    assert forall|i: int| 0 <= i < x1.len() implies x1[i] != '/' by {
        if d1 < 0 && i > 0 {
            assert(x1[i] == digits_of((-d1) as nat)[i - 1]);
        }
    }
    assert forall|i: int| 0 <= i < x2.len() implies x2[i] != '/' by {
        if d2 < 0 && i > 0 {
            assert(x2[i] == digits_of((-d2) as nat)[i - 1]);
        }
    }
    assert(t1 == p + x1 + "/"@ + m1.name_of());
    if x1.len() < x2.len() {
        assert(t1[k1] == '/');
        assert(t2[k1] == x2[x1.len() as int]);
    } else if x2.len() < x1.len() {
        assert(t2[k2] == '/');
        assert(t1[k2] == x1[x2.len() as int]);
    }
    assert(x1.len() == x2.len());
    assert(x1 =~= t1.subrange(p.len() as int, k1));
    assert(x2 =~= t2.subrange(p.len() as int, k2));
    lemma_decimal_injective(d1 as int, d2 as int);
    assert(m1.name_of() =~= t1.subrange(k1 + 1, t1.len() as int));
    assert(m2.name_of() =~= t2.subrange(k2 + 1, t2.len() as int));
    crate::types::lemma_name_identifies_map(m1, m2);
}

fn digit_str(d: u32) -> (r: &'static str)
    requires
        d < 10,
    ensures
        r@ == seq![digit_char(d as nat)],
{
    if d == 0 {
        proof { reveal_strlit("0"); }
        "0"
    } else if d == 1 {
        proof { reveal_strlit("1"); }
        "1"
    } else if d == 2 {
        proof { reveal_strlit("2"); }
        "2"
    } else if d == 3 {
        proof { reveal_strlit("3"); }
        "3"
    } else if d == 4 {
        proof { reveal_strlit("4"); }
        "4"
    } else if d == 5 {
        proof { reveal_strlit("5"); }
        "5"
    } else if d == 6 {
        proof { reveal_strlit("6"); }
        "6"
    } else if d == 7 {
        proof { reveal_strlit("7"); }
        "7"
    } else if d == 8 {
        proof { reveal_strlit("8"); }
        "8"
    } else {
        proof { reveal_strlit("9"); }
        "9"
    }
}

fn push_digits(s: &mut String, n: u32)
    ensures
        final(s)@ == old(s)@ + digits_of(n as nat),
    decreases n,
{
    if n >= 10 {
        push_digits(s, n / 10);
    }
    s.append(digit_str(n % 10));
    assert(final(s)@ =~= old(s)@ + digits_of(n as nat));
}

/// Appends `n` in decimal to `s`.
pub fn push_decimal(s: &mut String, n: i32)
    ensures
        final(s)@ == old(s)@ + decimal_of(n as int),
{
    if n < 0 {
        proof { reveal_strlit("-"); }
        s.append("-");
        let magnitude: u32 = (0i64 - n as i64) as u32;
        push_digits(s, magnitude);
        assert(final(s)@ =~= old(s)@ + decimal_of(n as int));
    } else {
        push_digits(s, n as u32);
    }
}

/// The status line published for a location: `Current map: {depth}/{name}`.
pub fn get_presence(depth: i32, map_type: MapType) -> (r: String)
    ensures
        r@ == presence_text(depth, map_type),
{
    let mut s = String::from_str("Current map: ");
    push_decimal(&mut s, depth);
    s.append("/");
    s.append(map_type.name());
    s
}

} // verus!
