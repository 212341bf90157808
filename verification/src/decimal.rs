//! Decimal digits: what a run of digits is worth, and how a number is written.

use vstd::prelude::*;

verus! {

/// Whether `c` is one of the ten digits `0` to `9`.
pub open spec fn is_digit(c: char) -> bool {
    '0' <= c && c <= '9'
}

/// The worth of the digit `c`; meaningful where `is_digit(c)`.
pub open spec fn digit_value(c: char) -> nat {
    (c as nat - 48) as nat
}

/// The digit that is worth `d`; meaningful for `d < 10`.
pub open spec fn digit_char(d: nat) -> char {
    if d == 0 {
        '0'
    } else if d == 1 {
        '1'
    } else if d == 2 {
        '2'
    } else if d == 3 {
        '3'
    } else if d == 4 {
        '4'
    } else if d == 5 {
        '5'
    } else if d == 6 {
        '6'
    } else if d == 7 {
        '7'
    } else if d == 8 {
        '8'
    } else {
        '9'
    }
}

/// Whether every character of `s` is a digit.
pub open spec fn all_digits(s: Seq<char>) -> bool {
    forall|i: int| 0 <= i < s.len() ==> is_digit(#[trigger] s[i])
}

/// The number that the digits of `s` write, most significant first; the
/// empty run is worth zero.
pub open spec fn decimal_value(s: Seq<char>) -> nat
    decreases s.len(),
{
    if s.len() == 0 {
        0
    } else {
        decimal_value(s.drop_last()) * 10 + digit_value(s.last())
    }
}

/// How `n` is written in decimal, without sign or padding.
pub open spec fn decimal_text(n: nat) -> Seq<char>
    decreases n,
{
    if n < 10 {
        seq![digit_char(n)]
    } else {
        decimal_text(n / 10).push(digit_char(n % 10))
    }
}

/// How `n` is written with at least two digits: a number below ten gets a
/// zero in front.
pub open spec fn two_digit_text(n: nat) -> Seq<char> {
    if n < 100 {
        seq![digit_char(n / 10), digit_char(n % 10)]
    } else {
        decimal_text(n)
    }
}

/// How `n` is written with at least four digits, zeros in front where it
/// has fewer.
pub open spec fn four_digit_text(n: nat) -> Seq<char> {
    if n < 10000 {
        seq![
            digit_char(n / 1000),
            digit_char(n / 100 % 10),
            digit_char(n / 10 % 10),
            digit_char(n % 10),
        ]
    } else {
        decimal_text(n)
    }
}

/// The number that `s` writes if `s` is exactly two digits.
pub open spec fn two_digit_value(s: Seq<char>) -> Option<nat> {
    if s.len() == 2 && is_digit(s[0]) && is_digit(s[1]) {
        Some(digit_value(s[0]) * 10 + digit_value(s[1]))
    } else {
        None
    }
}

/// Every digit is the digit of its own worth, and the other way round.
pub proof fn lemma_digit_round_trip(c: char, d: nat)
    ensures
        is_digit(c) ==> digit_value(c) < 10 && digit_char(digit_value(c)) == c,
        d < 10 ==> is_digit(digit_char(d)) && digit_value(digit_char(d)) == d,
{
}

/// Writing a number below one hundred with two digits and reading the two
/// digits back gives the number; reading two digits and writing their worth
/// gives the same two digits.
pub proof fn lemma_two_digit_round_trip(n: nat, s: Seq<char>)
    ensures
        n < 100 ==> two_digit_value(two_digit_text(n)) == Some(n),
        two_digit_value(s) matches Some(v) ==> v < 100 && two_digit_text(v) == s,
{
    if n < 100 {
        lemma_digit_round_trip('0', n / 10);
        lemma_digit_round_trip('0', n % 10);
    }
    if let Some(v) = two_digit_value(s) {
        lemma_digit_round_trip(s[0], 0);
        lemma_digit_round_trip(s[1], 0);
        assert(two_digit_text(v) =~= s);
    }
}

/// The text of the digit worth `d`.
fn digit_str(d: u8) -> (r: &'static str)
    requires
        d < 10,
    ensures
        r@ == seq![digit_char(d as nat)],
{
    proof {
        reveal_strlit("0");
        reveal_strlit("1");
        reveal_strlit("2");
        reveal_strlit("3");
        reveal_strlit("4");
        reveal_strlit("5");
        reveal_strlit("6");
        reveal_strlit("7");
        reveal_strlit("8");
        reveal_strlit("9");
    }
    let r = if d == 0 {
        "0"
    } else if d == 1 {
        "1"
    } else if d == 2 {
        "2"
    } else if d == 3 {
        "3"
    } else if d == 4 {
        "4"
    } else if d == 5 {
        "5"
    } else if d == 6 {
        "6"
    } else if d == 7 {
        "7"
    } else if d == 8 {
        "8"
    } else {
        "9"
    };
    assert(r@ =~= seq![digit_char(d as nat)]);
    r
}

/// The worth of `c` if it is a digit.
pub fn digit_of(c: char) -> (r: Option<u8>)
    ensures
        r is Some <==> is_digit(c),
        r matches Some(d) ==> d == digit_value(c) && d < 10,
{
    if '0' <= c && c <= '9' {
        Some((c as u32 - 48) as u8)
    } else {
        None
    }
}

/// Writes `n` in decimal, without sign or padding.
pub fn format_decimal(n: u16) -> (r: String)
    ensures
        r@ == decimal_text(n as nat),
    decreases n,
{
    if n < 10 {
        String::from_str(digit_str(n as u8))
    } else {
        let mut r = format_decimal(n / 10);
        r.append(digit_str((n % 10) as u8));
        assert(r@ =~= decimal_text(n as nat));
        r
    }
}

/// Writes `n` with at least two digits.
pub fn format_two_digits(n: u8) -> (r: String)
    ensures
        r@ == two_digit_text(n as nat),
{
    if n >= 100 {
        return format_decimal(n as u16);
    }
    let mut r = String::from_str(digit_str(n / 10));
    r.append(digit_str(n % 10));
    assert(r@ =~= two_digit_text(n as nat));
    r
}

/// Writes `n` with at least four digits.
pub fn format_four_digits(n: u16) -> (r: String)
    ensures
        r@ == four_digit_text(n as nat),
{
    if n >= 10000 {
        return format_decimal(n);
    }
    let mut r = String::from_str(digit_str((n / 1000) as u8));
    r.append(digit_str((n / 100 % 10) as u8));
    r.append(digit_str((n / 10 % 10) as u8));
    r.append(digit_str((n % 10) as u8));
    assert(r@ =~= four_digit_text(n as nat));
    r
}

/// Reads a number written with exactly two digits.
pub fn parse_two_digits(s: &str) -> (r: Option<u8>)
    ensures
        r is Some <==> two_digit_value(s@) is Some,
        r matches Some(v) ==> two_digit_value(s@) == Some(v as nat) && v < 100,
{
    if s.unicode_len() != 2 {
        return None;
    }
    match (digit_of(s.get_char(0)), digit_of(s.get_char(1))) {
        (Some(a), Some(b)) => Some(a * 10 + b),
        _ => None,
    }
}

/// The decimal text of a number is made of digits, has no zero in front
/// unless the number is zero, and is worth the number.
pub proof fn lemma_decimal_round_trip(n: nat)
    ensures
        decimal_text(n).len() > 0,
        all_digits(decimal_text(n)),
        decimal_value(decimal_text(n)) == n,
        decimal_text(n)[0] == '0' <==> n == 0,
    decreases n,
{
    if n < 10 {
        lemma_digit_round_trip('0', n);
        let t = decimal_text(n);
        assert(t.drop_last() =~= Seq::<char>::empty());
        assert(decimal_value(t.drop_last()) == 0);
    } else {
        lemma_decimal_round_trip(n / 10);
        lemma_digit_round_trip('0', n % 10);
        let t = decimal_text(n);
        assert(t.drop_last() =~= decimal_text(n / 10));
        assert(t.last() == digit_char(n % 10));
    }
}

/// The digits of an unsigned number as written: `s` without one leading `+`.
pub open spec fn unsigned_digits(s: Seq<char>) -> Seq<char> {
    if s.len() > 0 && s[0] == '+' {
        s.skip(1)
    } else {
        s
    }
}

/// The number below 256 that `s` writes: an optional `+`, then one or more
/// digits (leading zeros count for nothing) that are worth at most 255.
pub open spec fn small_number(s: Seq<char>) -> Option<u8> {
    let d = unsigned_digits(s);
    if d.len() > 0 && all_digits(d) && decimal_value(d) <= 255 {
        Some(decimal_value(d) as u8)
    } else {
        None
    }
}

/// A number up to 255 that is written in decimal is read back as itself.
pub proof fn lemma_small_number_round_trip(n: u8)
    ensures
        small_number(decimal_text(n as nat)) == Some(n),
{
    lemma_decimal_round_trip(n as nat);
    let t = decimal_text(n as nat);
    assert(t[0] != '+') by {
        assert(is_digit(t[0]));
    }
}

/// A run of digits is worth at least as much as any of its beginnings.
pub proof fn lemma_decimal_value_grows(s: Seq<char>, k: int)
    requires
        0 <= k <= s.len(),
    ensures
        decimal_value(s.take(k)) <= decimal_value(s),
    decreases s.len(),
{
    if k == s.len() {
        assert(s.take(k) =~= s);
    } else {
        lemma_decimal_value_grows(s.drop_last(), k);
        assert(s.drop_last().take(k) =~= s.take(k));
    }
}

/// The digits of a beginning of `s` are a beginning of the digits of `s`.
pub proof fn lemma_unsigned_digits_take(s: Seq<char>, k: int)
    requires
        0 < k <= s.len(),
    ensures
        s[0] == '+' ==> unsigned_digits(s.take(k)) == unsigned_digits(s).take(k - 1),
        s[0] != '+' ==> unsigned_digits(s.take(k)) == unsigned_digits(s).take(k),
{
    if s[0] == '+' {
        assert(unsigned_digits(s.take(k)) =~= unsigned_digits(s).take(k - 1));
    } else {
        assert(unsigned_digits(s.take(k)) =~= unsigned_digits(s).take(k));
    }
}

/// Reads a number below 256: an optional `+`, then digits.
pub fn parse_small_number(s: &str) -> (r: Option<u8>)
    ensures
        r == small_number(s@),
{
    let mut value: u16 = 0;
    let mut first = true;
    let mut signed = false;
    let mut any = false;
    let mut valid = true;
    let ghost text = s@;
    for c in it: s.chars()
        invariant
            it.seq() == text,
            first == (it.index() == 0),
            valid ==> {
                &&& value <= 255
                &&& signed == (it.index() > 0 && text[0] == '+')
                &&& any == (unsigned_digits(text.take(it.index())).len() > 0)
                &&& all_digits(unsigned_digits(text.take(it.index())))
                &&& value == decimal_value(unsigned_digits(text.take(it.index())))
            },
            !valid ==> small_number(text) is None,
    {
        let ghost k = it.index();
        let ghost before = unsigned_digits(text.take(k));
        let ghost after = unsigned_digits(text.take(k + 1));
        proof {
            assert(c == text[k]);
            lemma_unsigned_digits_take(text, k + 1);
            if k > 0 {
                lemma_unsigned_digits_take(text, k);
            }
        }
        if valid {
            if first && c == '+' {
                signed = true;
                assert(after =~= Seq::<char>::empty());
            } else {
                assert(after =~= before.push(c));
                assert(after.drop_last() =~= before);
                match digit_of(c) {
                    Some(d) => {
                        value = value * 10 + d as u16;
                        any = true;
                        if value > 255 {
                            valid = false;
                            proof {
                                let all = unsigned_digits(text);
                                let j = if text[0] == '+' { k } else { k + 1 };
                                assert(after == all.take(j));
                                lemma_decimal_value_grows(all, j);
                            }
                        }
                    },
                    None => {
                        valid = false;
                        proof {
                            let all = unsigned_digits(text);
                            let j = if text[0] == '+' { k - 1 } else { k };
                            assert(all[j] == c);
                        }
                    },
                }
            }
        }
        first = false;
    }
    proof {
        assert(text.take(text.len() as int) =~= text);
    }
    if valid && any {
        Some(value as u8)
    } else {
        None
    }
}

} // verus!
