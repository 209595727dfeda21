//! Decimal numbers: how integers are read from text and written as text.

use vstd::prelude::*;
use crate::text::string_from_chars;

verus! {

/// An ASCII decimal digit.
pub open spec fn is_digit(c: char) -> bool {
    '0' <= c && c <= '9'
}

/// A non-empty run of ASCII decimal digits.
pub open spec fn all_digits(d: Seq<char>) -> bool {
    d.len() > 0 && forall|i: int| 0 <= i < d.len() ==> is_digit(#[trigger] d[i])
}

/// The value of a run of decimal digits, most significant first.
pub open spec fn digits_value(d: Seq<char>) -> int
    decreases d.len(),
{
    if d.len() == 0 {
        0
    } else {
        10 * digits_value(d.drop_last()) + (d.last() as int - '0' as int)
    }
}

/// The integer a signed decimal literal denotes: an optional `+` or `-`
/// followed by at least one digit and nothing else.
pub open spec fn signed_decimal(s: Seq<char>) -> Option<int> {
    if s.len() > 0 && (s[0] == '+' || s[0] == '-') {
        if all_digits(s.drop_first()) {
            if s[0] == '-' {
                Some(-digits_value(s.drop_first()))
            } else {
                Some(digits_value(s.drop_first()))
            }
        } else {
            None
        }
    } else if all_digits(s) {
        Some(digits_value(s))
    } else {
        None
    }
}

/// The integer an unsigned decimal literal denotes: an optional `+`
/// followed by at least one digit and nothing else.
pub open spec fn unsigned_decimal(s: Seq<char>) -> Option<int> {
    if s.len() > 0 && s[0] == '+' {
        if all_digits(s.drop_first()) {
            Some(digits_value(s.drop_first()))
        } else {
            None
        }
    } else if all_digits(s) {
        Some(digits_value(s))
    } else {
        None
    }
}

/// What `text.parse::<i64>()` gives: the literal's value when it is one and fits.
pub open spec fn i64_from_text(s: Seq<char>) -> Option<i64> {
    match signed_decimal(s) {
        Some(v) => if i64::MIN <= v && v <= i64::MAX { Some(v as i64) } else { None },
        None => None,
    }
}

/// What `text.parse::<i32>()` gives: the literal's value when it is one and fits.
pub open spec fn i32_from_text(s: Seq<char>) -> Option<i32> {
    match signed_decimal(s) {
        Some(v) => if i32::MIN <= v && v <= i32::MAX { Some(v as i32) } else { None },
        None => None,
    }
}

/// What `text.parse::<u16>()` gives: the literal's value when it is one and fits.
pub open spec fn u16_from_text(s: Seq<char>) -> Option<u16> {
    match unsigned_decimal(s) {
        Some(v) => if 0 <= v && v <= u16::MAX { Some(v as u16) } else { None },
        None => None,
    }
}

/// Reads an `i64` with `<i64 as FromStr>::from_str`. Its documentation: an
/// optional `+` or `-` sign followed by decimal digits only, any other
/// character (whitespace included) is an error, and so is a value out of range.
/// The contract claims exactly that; the error's kind is dropped.
#[verifier::external_body]
pub fn parse_i64(s: &str) -> (r: Option<i64>)
    ensures
        r == i64_from_text(s@),
{
    s.parse::<i64>().ok()
}

/// Reads an `i32` with `<i32 as FromStr>::from_str`; same grammar as
/// `parse_i64`, with the range of `i32`.
#[verifier::external_body]
pub fn parse_i32(s: &str) -> (r: Option<i32>)
    ensures
        r == i32_from_text(s@),
{
    s.parse::<i32>().ok()
}

/// Reads a `u16` with `<u16 as FromStr>::from_str`. Its documentation for
/// unsigned types: an optional `+` sign followed by decimal digits only;
/// anything else, and a value out of range, is an error.
#[verifier::external_body]
pub fn parse_u16(s: &str) -> (r: Option<u16>)
    ensures
        r == u16_from_text(s@),
{
    s.parse::<u16>().ok()
}

/// The character of a decimal digit.
pub open spec fn digit_char(d: int) -> char {
    if d == 0 { '0' } else if d == 1 { '1' } else if d == 2 { '2' } else if d == 3 { '3' }
    else if d == 4 { '4' } else if d == 5 { '5' } else if d == 6 { '6' } else if d == 7 { '7' }
    else if d == 8 { '8' } else { '9' }
}

/// The decimal digits of a natural number, most significant first, with no
/// leading zeros.
pub open spec fn nat_decimal(n: nat) -> Seq<char>
    decreases n,
{
    if n < 10 {
        seq![digit_char(n as int)]
    } else {
        nat_decimal(n / 10).push(digit_char((n % 10) as int))
    }
}

/// An integer written in decimal, with a leading `-` when negative, as
/// `to_string` writes it.
pub open spec fn int_decimal(n: int) -> Seq<char> {
    if n < 0 {
        seq!['-'] + nat_decimal((-n) as nat)
    } else {
        nat_decimal(n as nat)
    }
}

/// The character of a decimal digit.
pub fn digit_to_char(d: u64) -> (c: char)
    requires
        d < 10,
    ensures
        c == digit_char(d as int),
{
    if d == 0 { '0' } else if d == 1 { '1' } else if d == 2 { '2' } else if d == 3 { '3' }
    else if d == 4 { '4' } else if d == 5 { '5' } else if d == 6 { '6' } else if d == 7 { '7' }
    else if d == 8 { '8' } else { '9' }
}

/// The decimal digits of a natural number.
pub fn u64_digits(n: u64) -> (v: Vec<char>)
    ensures
        v@ == nat_decimal(n as nat),
{
    let mut m = n;
    let mut v: Vec<char> = Vec::new();
    while m >= 10
        invariant
            nat_decimal(n as nat) == nat_decimal(m as nat) + v@,
        decreases m,
    {
        let d = digit_to_char(m % 10);
        let ghost old_v = v@;
        v.insert(0, d);
        assert(nat_decimal(m as nat) == nat_decimal((m / 10) as nat).push(d));
        assert(nat_decimal((m / 10) as nat) + v@ =~= nat_decimal((m / 10) as nat).push(d) + old_v);
        m = m / 10;
    }
    let d = digit_to_char(m);
    let ghost old_v = v@;
    v.insert(0, d);
    assert(v@ =~= seq![d] + old_v);
    v
}

/// An integer's decimal characters, with a leading `-` when negative.
pub fn i64_chars(n: i64) -> (v: Vec<char>)
    ensures
        v@ == int_decimal(n as int),
{
    if n < 0 {
        let magnitude: u64 = (0i128 - (n as i128)) as u64;
        let digits = u64_digits(magnitude);
        let mut v: Vec<char> = Vec::new();
        v.push('-');
        let mut k: usize = 0;
        while k < digits.len()
            invariant
                k <= digits.len(),
                v@ == seq!['-'] + digits@.subrange(0, k as int),
            decreases digits.len() - k,
        {
            v.push(digits[k]);
            assert(digits@.subrange(0, k + 1) =~= digits@.subrange(0, k as int).push(digits@[k as int]));
            k = k + 1;
        }
        assert(digits@.subrange(0, digits.len() as int) =~= digits@);
        v
    } else {
        u64_digits(n as u64)
    }
}

/// An integer written in decimal (`i64::to_string`).
pub fn i64_to_text(n: i64) -> (r: String)
    ensures
        r@ == int_decimal(n as int),
{
    let v = i64_chars(n);
    string_from_chars(&v, 0, v.len())
}

/// Digits grouped in threes from the right, the groups separated by spaces.
pub open spec fn group_thousands(s: Seq<char>) -> Seq<char>
    decreases s.len(),
{
    if s.len() <= 3 {
        s
    } else {
        group_thousands(s.subrange(0, s.len() - 3)) + seq![' '] + s.subrange(s.len() - 3, s.len() as int)
    }
}

/// A price as shown to users: its decimal text grouped in threes from the
/// right (`1500000` is `1 500 000`). The sign counts as a character of the
/// text it is grouped with.
pub open spec fn price_text(price: int) -> Seq<char> {
    group_thousands(int_decimal(price))
}

/// The first `end` characters of `v`, grouped in threes from the right.
fn group_prefix(v: &Vec<char>, end: usize) -> (r: Vec<char>)
    requires
        end <= v.len(),
    ensures
        r@ == group_thousands(v@.subrange(0, end as int)),
    decreases end,
{
    if end <= 3 {
        let mut r: Vec<char> = Vec::new();
        let mut k: usize = 0;
        while k < end
            invariant
                k <= end <= v.len(),
                r@ == v@.subrange(0, k as int),
            decreases end - k,
        {
            r.push(v[k]);
            assert(v@.subrange(0, k + 1) =~= v@.subrange(0, k as int).push(v@[k as int]));
            k = k + 1;
        }
        r
    } else {
        let mut r = group_prefix(v, end - 3);
        let ghost head = r@;
        r.push(' ');
        r.push(v[end - 3]);
        r.push(v[end - 2]);
        r.push(v[end - 1]);
        let ghost s = v@.subrange(0, end as int);
        assert(s.subrange(0, s.len() - 3) =~= v@.subrange(0, end - 3));
        assert(r@ =~= head + seq![' '] + s.subrange(s.len() - 3, s.len() as int));
        r
    }
}

/// A price as shown to users, digits grouped in threes (`format_price`).
pub fn format_price(price: i64) -> (r: String)
    ensures
        r@ == price_text(price as int),
{
    let digits = i64_chars(price);
    let grouped = group_prefix(&digits, digits.len());
    assert(digits@.subrange(0, digits.len() as int) =~= digits@);
    string_from_chars(&grouped, 0, grouped.len())
}

/// The text with its spaces left out.
pub open spec fn without_spaces(s: Seq<char>) -> Seq<char>
    decreases s.len(),
{
    if s.len() == 0 {
        s
    } else if s.last() == ' ' {
        without_spaces(s.drop_last())
    } else {
        without_spaces(s.drop_last()).push(s.last())
    }
}

proof fn lemma_without_spaces_concat(a: Seq<char>, b: Seq<char>)
    ensures
        without_spaces(a + b) == without_spaces(a) + without_spaces(b),
    decreases b.len(),
{
    if b.len() == 0 {
        assert(a + b =~= a);
        assert(without_spaces(a) + without_spaces(b) =~= without_spaces(a));
    } else {
        assert((a + b).drop_last() =~= a + b.drop_last());
        assert((a + b).last() == b.last());
        lemma_without_spaces_concat(a, b.drop_last());
        if b.last() != ' ' {
            assert(without_spaces(a) + without_spaces(b.drop_last()).push(b.last())
                =~= (without_spaces(a) + without_spaces(b.drop_last())).push(b.last()));
        }
    }
}

proof fn lemma_without_spaces_fixed(s: Seq<char>)
    requires
        forall|i: int| 0 <= i < s.len() ==> s[i] != ' ',
    ensures
        without_spaces(s) == s,
    decreases s.len(),
{
    if s.len() > 0 {
        lemma_without_spaces_fixed(s.drop_last());
        assert(s.drop_last().push(s.last()) =~= s);
    }
}

proof fn lemma_nat_decimal_digits(n: nat)
    ensures
        forall|i: int| 0 <= i < nat_decimal(n).len() ==> is_digit(#[trigger] nat_decimal(n)[i]),
    decreases n,
{
    if n >= 10 {
        lemma_nat_decimal_digits(n / 10);
        let d = nat_decimal(n);
        assert forall|i: int| 0 <= i < d.len() implies is_digit(#[trigger] d[i]) by {
            if i < nat_decimal(n / 10).len() {
                assert(d[i] == nat_decimal(n / 10)[i]);
            }
        }
    }
}

proof fn lemma_group_without_spaces(s: Seq<char>)
    requires
        forall|i: int| 0 <= i < s.len() ==> s[i] != ' ',
    ensures
        without_spaces(group_thousands(s)) == s,
    decreases s.len(),
{
    if s.len() <= 3 {
        lemma_without_spaces_fixed(s);
    } else {
        let head = s.subrange(0, s.len() - 3);
        let tail = s.subrange(s.len() - 3, s.len() as int);
        lemma_group_without_spaces(head);
        lemma_without_spaces_concat(group_thousands(head) + seq![' '], tail);
        lemma_without_spaces_concat(group_thousands(head), seq![' ']);
        assert(seq![' '].drop_last() =~= Seq::<char>::empty());
        assert(seq![' '].last() == ' ');
        assert(without_spaces(seq![' ']) =~= Seq::<char>::empty()) by {
            reveal_with_fuel(without_spaces, 2);
        }
        lemma_without_spaces_fixed(tail);
        assert(head + tail =~= s);
    }
}

/// Taking the spaces out of a shown price gives back the price's plain
/// decimal text: the grouping adds spaces and nothing else.
pub proof fn price_text_is_grouped_decimal(price: int)
    ensures
        without_spaces(price_text(price)) == int_decimal(price),
{
    let d = int_decimal(price);
    if price < 0 {
        lemma_nat_decimal_digits((-price) as nat);
        assert forall|i: int| 0 <= i < d.len() implies d[i] != ' ' by {
            if i > 0 {
                assert(d[i] == nat_decimal((-price) as nat)[i - 1]);
            }
        }
    } else {
        lemma_nat_decimal_digits(price as nat);
    }
    lemma_group_without_spaces(d);
}

proof fn lemma_group_layout(s: Seq<char>)
    requires
        s.len() > 0,
        forall|i: int| 0 <= i < s.len() ==> s[i] != ' ',
    ensures
        group_thousands(s).len() == s.len() + (s.len() - 1) / 3,
        forall|i: int| 0 <= i < group_thousands(s).len() ==>
            ((#[trigger] group_thousands(s)[i] == ' ') == ((group_thousands(s).len() - i) % 4 == 0)),
    decreases s.len(),
{
    let r = group_thousands(s);
    if s.len() <= 3 {
        assert forall|i: int| 0 <= i < r.len() implies ((#[trigger] r[i] == ' ') == ((r.len() - i) % 4 == 0)) by {
            assert(r[i] == s[i]);
        }
    } else {
        let head = s.subrange(0, s.len() - 3);
        let tail = s.subrange(s.len() - 3, s.len() as int);
        lemma_group_layout(head);
        let rh = group_thousands(head);
        assert(r == rh + seq![' '] + tail);
        assert forall|i: int| 0 <= i < r.len() implies ((#[trigger] r[i] == ' ') == ((r.len() - i) % 4 == 0)) by {
            if i < rh.len() {
                assert(r[i] == rh[i]);
                assert(rh[i] == ' ' <==> (rh.len() - i) % 4 == 0);
            } else if i == rh.len() {
            } else {
                assert(r[i] == tail[i - rh.len() - 1]);
            }
        }
    }
}

/// A shown price is its characters in groups separated by single spaces:
/// a space stands exactly at every fourth place counted from the end, and the
/// length is no multiple of four. So every group but the first has three
/// characters, the first has one to three, and there are no leading, trailing
/// or double spaces.
pub proof fn price_text_layout(price: int)
    ensures
        price_text(price).len() % 4 != 0,
        forall|i: int| 0 <= i < price_text(price).len() ==>
            ((#[trigger] price_text(price)[i] == ' ') == ((price_text(price).len() - i) % 4 == 0)),
{
    let d = int_decimal(price);
    if price < 0 {
        lemma_nat_decimal_digits((-price) as nat);
        assert forall|i: int| 0 <= i < d.len() implies d[i] != ' ' by {
            if i > 0 {
                assert(d[i] == nat_decimal((-price) as nat)[i - 1]);
            }
        }
    } else {
        lemma_nat_decimal_digits(price as nat);
    }
    assert(d.len() > 0);
    lemma_group_layout(d);
}

} // verus!
