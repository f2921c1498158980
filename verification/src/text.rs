//! Verified text building blocks: decimal rendering, list joining and
//! JSON string escaping, used by the wire protocol and the status texts.

use vstd::prelude::*;

verus! {

/// The decimal digit character for one digit value.
pub open spec fn spec_digit_char(d: int) -> char {
    if d == 0 {
        '0'
    } else if d == 1 {
        '1'
    } else if d == 2 {
        '2'
    } else if d == 3 {
        '3'
    } else if d == 4 {
        '4'
    } else if d == 5 {
        '5'
    } else if d == 6 {
        '6'
    } else if d == 7 {
        '7'
    } else if d == 8 {
        '8'
    } else {
        '9'
    }
}

/// The decimal digits of a non-negative number, most significant first.
pub open spec fn spec_nat_digits(n: int) -> Seq<char>
    decreases n,
{
    if n < 10 {
        seq![spec_digit_char(n)]
    } else {
        spec_nat_digits(n / 10).push(spec_digit_char(n % 10))
    }
}

/// The decimal rendering of an integer: a minus sign before the digits of
/// its absolute value when negative.
pub open spec fn spec_int_digits(n: int) -> Seq<char> {
    if n < 0 {
        seq!['-'] + spec_nat_digits(-n)
    } else {
        spec_nat_digits(n)
    }
}

/// One decimal digit as a string slice.
fn digit_str(d: u64) -> (r: &'static str)
    requires
        d < 10,
    ensures
        r@ == seq![spec_digit_char(d as int)],
{
    proof {
        reveal_strlit("0");
        reveal_strlit("1");
        reveal_strlit("2");
        reveal_strlit("3");
        reveal_strlit("4");
        reveal_strlit("5");
        reveal_strlit("6");
        reveal_strlit("7");
        reveal_strlit("8");
        reveal_strlit("9");
    }
    if d == 0 {
        "0"
    } else if d == 1 {
        "1"
    } else if d == 2 {
        "2"
    } else if d == 3 {
        "3"
    } else if d == 4 {
        "4"
    } else if d == 5 {
        "5"
    } else if d == 6 {
        "6"
    } else if d == 7 {
        "7"
    } else if d == 8 {
        "8"
    } else {
        "9"
    }
}

/// Renders a number in decimal.
pub fn u64_to_string(n: u64) -> (s: String)
    ensures
        s@ == spec_nat_digits(n as int),
    decreases n,
{
    let d = digit_str(n % 10);
    if n < 10 {
        d.to_owned()
    } else {
        let mut s = u64_to_string(n / 10);
        s.append(d);
        s
    }
}

/// Renders a signed number in decimal.
pub fn i64_to_string(n: i64) -> (s: String)
    ensures
        s@ == spec_int_digits(n as int),
{
    if n < 0 {
        proof {
            reveal_strlit("-");
        }
        let mut s = String::from_str("-");
        let mag: u64 = if n == i64::MIN {
            9223372036854775808u64
        } else {
            (-n) as u64
        };
        let digits = u64_to_string(mag);
        s.append(digits.as_str());
        s
    } else {
        u64_to_string(n as u64)
    }
}

/// The decimal renderings of a list of numbers, separated by commas.
pub open spec fn spec_join_nums(nums: Seq<int>) -> Seq<char>
    decreases nums.len(),
{
    if nums.len() == 0 {
        Seq::empty()
    } else if nums.len() == 1 {
        spec_nat_digits(nums[0])
    } else {
        spec_nat_digits(nums[0]) + seq![','] + spec_join_nums(nums.skip(1))
    }
}

/// Joins duty or port numbers with commas, from one position on.
fn join_u8_from(v: &Vec<u8>, from: usize) -> (s: String)
    requires
        from <= v@.len(),
    ensures
        s@ == spec_join_nums(v@.map_values(|x: u8| x as int).skip(from as int)),
    decreases v@.len() - from,
{
    let ghost nums = v@.map_values(|x: u8| x as int).skip(from as int);
    if from == v.len() {
        assert(nums =~= Seq::<int>::empty());
        String::new()
    } else if from == v.len() - 1 {
        assert(nums =~= seq![v@[from as int] as int]);
        u64_to_string(v[from] as u64)
    } else {
        proof {
            reveal_strlit(",");
        }
        let mut s = u64_to_string(v[from] as u64);
        s.append(",");
        let rest = join_u8_from(v, from + 1);
        s.append(rest.as_str());
        assert(v@.map_values(|x: u8| x as int).skip(from as int + 1) =~= nums.skip(1));
        assert(nums[0] == v@[from as int] as int);
        assert(s@ =~= spec_join_nums(nums));
        s
    }
}

/// Joins a whole list of numbers with commas.
pub fn join_u8(v: &Vec<u8>) -> (s: String)
    ensures
        s@ == spec_join_nums(v@.map_values(|x: u8| x as int)),
{
    let s = join_u8_from(v, 0);
    assert(v@.map_values(|x: u8| x as int).skip(0) =~= v@.map_values(|x: u8| x as int));
    s
}

/// How one character is written inside a JSON string literal: quotes and
/// backslashes take an escape, everything else stands as it is.
pub open spec fn spec_json_escape_char(c: char) -> Seq<char> {
    if c == '"' {
        seq!['\\', '"']
    } else if c == '\\' {
        seq!['\\', '\\']
    } else {
        seq![c]
    }
}

/// A whole text written inside a JSON string literal.
pub open spec fn spec_json_escape(s: Seq<char>) -> Seq<char>
    decreases s.len(),
{
    if s.len() == 0 {
        Seq::empty()
    } else {
        spec_json_escape_char(s[0]) + spec_json_escape(s.skip(1))
    }
}

/// Escapes a text for embedding in a JSON string literal.
pub fn json_escape(s: &str) -> (r: String)
    ensures
        r@ == spec_json_escape(s@),
{
    let n = s.unicode_len();
    let mut out = String::new();
    let mut i: usize = 0;
    assert(s@.skip(0) =~= s@);
    while i < n
        invariant
            n == s@.len(),
            i <= n,
            spec_json_escape(s@) == out@ + spec_json_escape(s@.skip(i as int)),
        decreases n - i,
    {
        let ghost rest = s@.skip(i as int);
        proof {
            reveal_strlit("\\\"");
            reveal_strlit("\\\\");
        }
        assert(rest[0] == s@[i as int]);
        assert(rest.skip(1) =~= s@.skip(i as int + 1));
        let c = s.get_char(i);
        if c == '"' {
            out.append("\\\"");
        } else if c == '\\' {
            out.append("\\\\");
        } else {
            let piece = one_char_string(c);
            out.append(piece.as_str());
        }
        assert(out@ + spec_json_escape(s@.skip(i as int + 1)) =~= spec_json_escape(s@));
        i = i + 1;
    }
    assert(s@.skip(n as int) =~= Seq::<char>::empty());
    assert(out@ =~= spec_json_escape(s@));
    out
}

/// Relies on char::to_string from std: the string of exactly that character.
#[verifier::external_body]
fn one_char_string(c: char) -> (s: String)
    ensures
        s@ == seq![c],
{
    c.to_string()
}

} // verus!
