//! Decimal and list formatting of numbers, built by appending to a `String`.
use vstd::prelude::*;

verus! {

/// The ASCII digit for `d` (0..=9).
pub open spec fn digit_char(d: nat) -> char {
    if d == 0 { '0' } else if d == 1 { '1' } else if d == 2 { '2' } else if d == 3 { '3' }
    else if d == 4 { '4' } else if d == 5 { '5' } else if d == 6 { '6' } else if d == 7 { '7' }
    else if d == 8 { '8' } else { '9' }
}

/// Decimal digits of `n`, most significant first, without leading zeros.
pub open spec fn decimal_chars(n: nat) -> Seq<char>
    decreases n,
{
    if n < 10 { seq![digit_char(n)] } else { decimal_chars(n / 10).push(digit_char(n % 10)) }
}

/// Decimal form of `x`, with a leading `-` when negative.
pub open spec fn signed_decimal_chars(x: int) -> Seq<char> {
    if x < 0 { seq!['-'] + decimal_chars((0 - x) as nat) } else { decimal_chars(x as nat) }
}

/// `true` or `false`.
pub open spec fn bool_chars(b: bool) -> Seq<char> {
    if b { seq!['t', 'r', 'u', 'e'] } else { seq!['f', 'a', 'l', 's', 'e'] }
}

fn digit_str(d: u64) -> (s: &'static str)
    requires
        d < 10,
    ensures
        s@ == seq![digit_char(d as nat)],
{
    proof {
        reveal_strlit("0");
        reveal_strlit("1");
        reveal_strlit("2");
        reveal_strlit("3");
        reveal_strlit("4");
        reveal_strlit("5");
        reveal_strlit("6");
        reveal_strlit("7");
        reveal_strlit("8");
        reveal_strlit("9");
    }
    let s = if d == 0 { "0" } else if d == 1 { "1" } else if d == 2 { "2" } else if d == 3 { "3" }
        else if d == 4 { "4" } else if d == 5 { "5" } else if d == 6 { "6" } else if d == 7 { "7" }
        else if d == 8 { "8" } else { "9" };
    assert(s@ =~= seq![digit_char(d as nat)]);
    s
}

/// Appends the decimal digits of `n`.
pub fn push_decimal(s: &mut String, n: u64)
    ensures
        final(s)@ == old(s)@ + decimal_chars(n as nat),
    decreases n,
{
    if n >= 10 {
        push_decimal(s, n / 10);
    }
    s.append(digit_str(n % 10));
    assert(final(s)@ =~= old(s)@ + decimal_chars(n as nat));
}

/// Appends the decimal form of `x`, with a leading `-` when negative.
pub fn push_signed_decimal(s: &mut String, x: i64)
    ensures
        final(s)@ == old(s)@ + signed_decimal_chars(x as int),
{
    proof {
        reveal_strlit("-");
    }
    if x < 0 {
        s.append("-");
        let m: u64 = if x == i64::MIN { 0x8000_0000_0000_0000u64 } else { (0 - x) as u64 };
        push_decimal(s, m);
    } else {
        push_decimal(s, x as u64);
    }
    assert(final(s)@ =~= old(s)@ + signed_decimal_chars(x as int));
}

/// The decimal form of `n`.
pub fn decimal_string(n: u64) -> (r: String)
    ensures
        r@ == decimal_chars(n as nat),
{
    let mut r = String::new();
    push_decimal(&mut r, n);
    assert(r@ =~= decimal_chars(n as nat));
    r
}

/// `true` or `false`.
pub fn bool_string(b: bool) -> (r: String)
    ensures
        r@ == bool_chars(b),
{
    proof {
        reveal_strlit("true");
        reveal_strlit("false");
    }
    let r = if b { String::from_str("true") } else { String::from_str("false") };
    assert(r@ =~= bool_chars(b));
    r
}

/// `items` in brackets, separated by ", ", as `{:?}` prints a list of integers.
pub open spec fn list_chars(items: Seq<i32>) -> Seq<char> {
    seq!['['] + list_body(items) + seq![']']
}

pub open spec fn list_body(items: Seq<i32>) -> Seq<char>
    decreases items.len(),
{
    if items.len() == 0 {
        Seq::empty()
    } else if items.len() == 1 {
        signed_decimal_chars(items[0] as int)
    } else {
        list_body(items.drop_last()) + seq![',', ' '] + signed_decimal_chars(items.last() as int)
    }
}

/// `items` printed as `{:?}` prints a list of integers, such as `[2, 1, 1]`.
pub fn list_string(items: &[i32]) -> (r: String)
    ensures
        r@ == list_chars(items@),
{
    proof {
        reveal_strlit("[");
        reveal_strlit("]");
        reveal_strlit(", ");
    }
    let mut r = String::from_str("[");
    let mut i: usize = 0;
    while i < items.len()
        invariant
            0 <= i <= items@.len(),
            r@ == seq!['['] + list_body(items@.take(i as int)),
        decreases items@.len() - i,
    {
        if i > 0 {
            r.append(", ");
        }
        push_signed_decimal(&mut r, items[i] as i64);
        proof {
            let t = items@.take((i + 1) as int);
            assert(t.drop_last() =~= items@.take(i as int));
            assert(t.last() == items@[i as int]);
            reveal_strlit(", ");
            assert(", "@ =~= seq![',', ' ']);
            if i == 0 {
                assert(t.len() == 1 && t[0] == items@[0]);
                assert(list_body(items@.take(0)) =~= Seq::<char>::empty());
                assert(r@ =~= seq!['['] + list_body(t));
            } else {
                assert(list_body(t) == list_body(items@.take(i as int)) + seq![',', ' '] + signed_decimal_chars(items@[i as int] as int));
                assert(r@ =~= seq!['['] + list_body(t));
            }
        }
        i = i + 1;
    }
    r.append("]");
    assert(items@.take(items@.len() as int) =~= items@);
    assert(r@ =~= list_chars(items@));
    r
}

} // verus!
