//! Text helpers: decimal rendering of integers.

use vstd::prelude::*;

verus! {

/// The character of a decimal digit `d` (`0 <= d < 10`).
pub open spec fn digit_char(d: nat) -> char {
    if d == 0 { '0' }
    else if d == 1 { '1' }
    else if d == 2 { '2' }
    else if d == 3 { '3' }
    else if d == 4 { '4' }
    else if d == 5 { '5' }
    else if d == 6 { '6' }
    else if d == 7 { '7' }
    else if d == 8 { '8' }
    else { '9' }
}

/// The decimal digits of a natural number, most significant first, without leading zeros.
pub open spec fn nat_decimal(n: nat) -> Seq<char>
    decreases n,
{
    if n < 10 {
        seq![digit_char(n)]
    } else {
        nat_decimal(n / 10).push(digit_char(n % 10))
    }
}

/// The decimal rendering of an integer: a leading `-` for negative numbers.
pub open spec fn int_decimal(n: int) -> Seq<char> {
    if n < 0 {
        seq!['-'] + nat_decimal((-n) as nat)
    } else {
        nat_decimal(n as nat)
    }
}

/// The value of a decimal digit character; `-1` for any other character.
pub open spec fn digit_value(c: char) -> int {
    if c == '0' { 0 }
    else if c == '1' { 1 }
    else if c == '2' { 2 }
    else if c == '3' { 3 }
    else if c == '4' { 4 }
    else if c == '5' { 5 }
    else if c == '6' { 6 }
    else if c == '7' { 7 }
    else if c == '8' { 8 }
    else if c == '9' { 9 }
    else { -1 }
}

/// The number a text of decimal digits denotes, most significant digit first.
pub open spec fn decimal_value(s: Seq<char>) -> int
    decreases s.len(),
{
    if s.len() == 0 {
        0
    } else {
        decimal_value(s.drop_last()) * 10 + digit_value(s.last())
    }
}

/// Whether a text is a decimal numeral: one or more digits, with no leading zero
/// unless it is just `0`.
pub open spec fn is_numeral(s: Seq<char>) -> bool {
    &&& s.len() >= 1
    &&& forall|i: int| 0 <= i < s.len() ==> 0 <= #[trigger] digit_value(s[i]) <= 9
    &&& (s.len() > 1 ==> s[0] != '0')
}

/// The rendering of a natural number is a numeral that reads back as that number.
pub proof fn lemma_decimal_reads_back(n: nat)
    ensures
        is_numeral(nat_decimal(n)),
        decimal_value(nat_decimal(n)) == n,
        n >= 10 <==> nat_decimal(n).len() >= 2,
    decreases n,
{
    if n < 10 {
        let s = nat_decimal(n);
        assert(s.drop_last() =~= Seq::<char>::empty());
        assert(decimal_value(s.drop_last()) == 0);
        assert(digit_value(s[0]) == n);
    } else {
        lemma_decimal_reads_back(n / 10);
        let t = nat_decimal(n / 10);
        let s = nat_decimal(n);
        assert(s == t.push(digit_char(n % 10)));
        assert(s.drop_last() =~= t);
        assert(digit_value(digit_char(n % 10)) == n % 10);
        assert(decimal_value(s) == (n / 10) * 10 + n % 10);
        assert forall|i: int| 0 <= i < s.len() implies 0 <= #[trigger] digit_value(s[i]) <= 9 by {
            if i < t.len() {
                assert(s[i] == t[i]);
            }
        }
        assert(s[0] == t[0]);
        if t.len() == 1 {
            assert(1 <= n / 10 < 10);
            assert(t[0] == digit_char(n / 10));
            assert(t[0] != '0');
        }
    }
}

/// Renderings of distinct natural numbers differ.
pub proof fn lemma_decimal_injective(m: nat, n: nat)
    requires
        m != n,
    ensures
        nat_decimal(m) != nat_decimal(n),
{
    lemma_decimal_reads_back(m);
    lemma_decimal_reads_back(n);
}

/// The rendering of an integer: non-negative numbers as their numeral, negative ones as
/// `-` followed by the numeral of their magnitude.
pub proof fn lemma_int_decimal_reads_back(n: int)
    ensures
        n >= 0 ==> is_numeral(int_decimal(n)) && decimal_value(int_decimal(n)) == n,
        n < 0 ==> int_decimal(n)[0] == '-' && is_numeral(int_decimal(n).drop_first())
            && decimal_value(int_decimal(n).drop_first()) == -n,
{
    if n >= 0 {
        lemma_decimal_reads_back(n as nat);
    } else {
        lemma_decimal_reads_back((-n) as nat);
        assert(int_decimal(n).drop_first() =~= nat_decimal((-n) as nat));
    }
}

fn digit_str(d: u64) -> (s: &'static str)
    requires
        d < 10,
    ensures
        s@ == seq![digit_char(d as nat)],
{
    proof {
        reveal_strlit("0");
        reveal_strlit("1");
        reveal_strlit("2");
        reveal_strlit("3");
        reveal_strlit("4");
        reveal_strlit("5");
        reveal_strlit("6");
        reveal_strlit("7");
        reveal_strlit("8");
        reveal_strlit("9");
    }
    match d {
        0 => "0",
        1 => "1",
        2 => "2",
        3 => "3",
        4 => "4",
        5 => "5",
        6 => "6",
        7 => "7",
        8 => "8",
        _ => "9",
    }
}

fn push_decimal(n: u64, out: &mut String)
    ensures
        final(out)@ == old(out)@ + nat_decimal(n as nat),
    decreases n,
{
    if n >= 10 {
        push_decimal(n / 10, out);
    }
    out.append(digit_str(n % 10));
    proof {
        if n >= 10 {
            assert(old(out)@ + nat_decimal(n as nat) =~= old(out)@ + nat_decimal((n / 10) as nat) + seq![digit_char((n % 10) as nat)]);
        }
    }
}

/// Renders `n` in decimal, as `n.to_string()` does.
pub fn format_i32(n: i32) -> (s: String)
    ensures
        s@ == int_decimal(n as int),
        n >= 0 ==> is_numeral(s@) && decimal_value(s@) == n,
        n < 0 ==> s@[0] == '-' && is_numeral(s@.drop_first()) && decimal_value(s@.drop_first()) == -n,
{
    proof {
        lemma_int_decimal_reads_back(n as int);
    }
    let mut s = String::new();
    if n < 0 {
        s.append("-");
        proof { reveal_strlit("-"); }
        let m: u64 = (0i64 - n as i64) as u64;
        push_decimal(m, &mut s);
    } else {
        push_decimal(n as u64, &mut s);
    }
    s
}

} // verus!
