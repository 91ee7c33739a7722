//! Rendering the counter as message text.
//!
//! Values up to 9999 render as exactly four decimal digits, left-padded
//! with zeros; larger values render as their plain decimal representation,
//! untruncated.

use vstd::prelude::*;
use vstd::string::StringExecFns;

verus! {

/// The character for one decimal digit (`'9'` for anything out of range).
pub open spec fn digit_char(d: int) -> char {
    if d == 0 {
        '0'
    } else if d == 1 {
        '1'
    } else if d == 2 {
        '2'
    } else if d == 3 {
        '3'
    } else if d == 4 {
        '4'
    } else if d == 5 {
        '5'
    } else if d == 6 {
        '6'
    } else if d == 7 {
        '7'
    } else if d == 8 {
        '8'
    } else {
        '9'
    }
}

/// The numeric value of one decimal digit character (10 for any other
/// character, so that `is_digit_char` can be read off it).
pub open spec fn char_digit(c: char) -> int {
    if c == '0' {
        0
    } else if c == '1' {
        1
    } else if c == '2' {
        2
    } else if c == '3' {
        3
    } else if c == '4' {
        4
    } else if c == '5' {
        5
    } else if c == '6' {
        6
    } else if c == '7' {
        7
    } else if c == '8' {
        8
    } else if c == '9' {
        9
    } else {
        10
    }
}

pub open spec fn is_digit_char(c: char) -> bool {
    char_digit(c) < 10
}

/// The decimal representation of `v`, most significant digit first, with
/// no leading zero (a single `'0'` for 0).
pub open spec fn dec_rep(v: int) -> Seq<char>
    decreases v,
{
    if v < 10 {
        seq![digit_char(v)]
    } else {
        dec_rep(v / 10).push(digit_char(v % 10))
    }
}

/// The value that a string of digits denotes, most significant first.
pub open spec fn digits_value(s: Seq<char>) -> int
    decreases s.len(),
{
    if s.len() == 0 {
        0
    } else {
        digits_value(s.drop_last()) * 10 + char_digit(s.last())
    }
}

/// The text that renders counter value `v`: exactly four digits,
/// left-zero-padded, for values up to 9999; the plain decimal
/// representation beyond that.
pub open spec fn rendered(v: int) -> Seq<char> {
    if v < 10000 {
        seq![
            digit_char(v / 1000),
            digit_char((v / 100) % 10),
            digit_char((v / 10) % 10),
            digit_char(v % 10),
        ]
    } else {
        dec_rep(v)
    }
}

/// Reading a digit character back yields the digit it was made from.
proof fn lemma_digit_char_value(d: int)
    requires
        0 <= d < 10,
    ensures
        char_digit(digit_char(d)) == d,
{
}

/// The decimal representation of a nonnegative value is made of digits,
/// denotes the value itself, and carries no leading zero (except for the
/// single digit of 0).
pub proof fn lemma_dec_rep_value(v: int)
    requires
        0 <= v,
    ensures
        dec_rep(v).len() >= 1,
        digits_value(dec_rep(v)) == v,
        forall|i: int| 0 <= i < dec_rep(v).len() ==> is_digit_char(#[trigger] dec_rep(v)[i]),
        v > 0 ==> dec_rep(v)[0] != '0',
    decreases v,
{
    if v < 10 {
        lemma_digit_char_value(v);
        let s = dec_rep(v);
        assert(s =~= seq![digit_char(v)]);
        assert(s.drop_last() =~= Seq::<char>::empty());
        assert(digits_value(Seq::<char>::empty()) == 0);
        assert(digits_value(s) == digits_value(s.drop_last()) * 10 + char_digit(s.last()));
    } else {
        lemma_dec_rep_value(v / 10);
        lemma_digit_char_value(v % 10);
        let s = dec_rep(v);
        assert(s == dec_rep(v / 10).push(digit_char(v % 10)));
        assert(s.drop_last() =~= dec_rep(v / 10));
        assert(s.last() == digit_char(v % 10));
        assert(digits_value(s) == digits_value(s.drop_last()) * 10 + char_digit(s.last()));
        assert(digits_value(s) == (v / 10) * 10 + (v % 10));
    }
}

/// Formatting round-trip: for values up to 9999 the rendered text has
/// exactly four digit characters and denotes the value itself; for larger
/// values it is the exact decimal representation, untruncated and without
/// a leading zero.
pub proof fn lemma_render_round_trip(v: u64)
    ensures
        v < 10000 ==> rendered(v as int).len() == 4,
        v >= 10000 ==> rendered(v as int) == dec_rep(v as int) && rendered(v as int)[0] != '0',
        digits_value(rendered(v as int)) == v,
        forall|i: int|
            0 <= i < rendered(v as int).len() ==> is_digit_char(#[trigger] rendered(v as int)[i]),
{
    let w = v as int;
    if v < 10000 {
        let d3 = w / 1000;
        let d2 = (w / 100) % 10;
        let d1 = (w / 10) % 10;
        let d0 = w % 10;
        lemma_digit_char_value(d3);
        lemma_digit_char_value(d2);
        lemma_digit_char_value(d1);
        lemma_digit_char_value(d0);
        let s = rendered(w);
        let s3 = s.drop_last();
        let s2 = s3.drop_last();
        let s1 = s2.drop_last();
        let s0 = s1.drop_last();
        assert(s3 =~= seq![digit_char(d3), digit_char(d2), digit_char(d1)]);
        assert(s2 =~= seq![digit_char(d3), digit_char(d2)]);
        assert(s1 =~= seq![digit_char(d3)]);
        assert(s0 =~= Seq::<char>::empty());
        assert(digits_value(s0) == 0);
        assert(digits_value(s1) == digits_value(s0) * 10 + char_digit(s1.last()));
        assert(digits_value(s2) == digits_value(s1) * 10 + char_digit(s2.last()));
        assert(digits_value(s3) == digits_value(s2) * 10 + char_digit(s3.last()));
        assert(digits_value(s) == digits_value(s3) * 10 + char_digit(s.last()));
        assert(digits_value(s) == ((d3 * 10 + d2) * 10 + d1) * 10 + d0);
        assert(((d3 * 10 + d2) * 10 + d1) * 10 + d0 == w) by (nonlinear_arith)
            requires
                0 <= w < 10000,
                d3 == w / 1000,
                d2 == (w / 100) % 10,
                d1 == (w / 10) % 10,
                d0 == w % 10,
        ;
    } else {
        lemma_dec_rep_value(w);
    }
}

/// The one-character string for digit `d`.
fn digit_str(d: u64) -> (r: &'static str)
    requires
        d < 10,
    ensures
        r@.len() == 1,
        r@[0] == digit_char(d as int),
{
    proof {
        reveal_strlit("0");
        reveal_strlit("1");
        reveal_strlit("2");
        reveal_strlit("3");
        reveal_strlit("4");
        reveal_strlit("5");
        reveal_strlit("6");
        reveal_strlit("7");
        reveal_strlit("8");
        reveal_strlit("9");
    }
    match d {
        0 => "0",
        1 => "1",
        2 => "2",
        3 => "3",
        4 => "4",
        5 => "5",
        6 => "6",
        7 => "7",
        8 => "8",
        _ => "9",
    }
}

/// The plain decimal representation of `v`, no padding.
fn dec_string(v: u64) -> (r: String)
    ensures
        r@ == dec_rep(v as int),
    decreases v,
{
    if v < 10 {
        let r = String::from_str(digit_str(v));
        proof {
            assert(r@ =~= dec_rep(v as int));
        }
        r
    } else {
        let mut s = dec_string(v / 10);
        s.append(digit_str(v % 10));
        proof {
            assert(s@ =~= dec_rep(v as int));
        }
        s
    }
}

/// Render counter value `v` as message text.
pub fn render_counter(v: u64) -> (r: String)
    ensures
        r@ == rendered(v as int),
{
    if v <= 9999 {
        let mut s = String::from_str(digit_str(v / 1000));
        s.append(digit_str((v / 100) % 10));
        s.append(digit_str((v / 10) % 10));
        s.append(digit_str(v % 10));
        proof {
            assert(s@ =~= rendered(v as int));
        }
        s
    } else {
        dec_string(v)
    }
}

} // verus!
