//! Character-level helpers: reading a string's characters, decimal
//! rendering of integers, and building strings piece by piece.
use vstd::prelude::*;
use vstd::string::StringExecFns;

verus! {

/// The ASCII digit character for a value below ten.
pub open spec fn digit_char(d: nat) -> char {
    ((d + 48) as u8) as char
}

/// Whether a character is an ASCII decimal digit.
pub open spec fn is_digit(c: char) -> bool {
    '0' <= c <= '9'
}

/// The value of an ASCII decimal digit.
pub open spec fn digit_value(c: char) -> nat {
    (c as nat - 48) as nat
}

/// The shortest decimal rendering of a natural number.
pub open spec fn decimal(n: nat) -> Seq<char>
    decreases n,
{
    if n < 10 {
        seq![digit_char(n)]
    } else {
        decimal(n / 10).push(digit_char(n % 10))
    }
}

/// `k` zero characters.
pub open spec fn zeros(k: nat) -> Seq<char> {
    Seq::new(k, |i: int| '0')
}

/// The decimal rendering of `n`, left-padded with zeros to at least four characters.
pub open spec fn decimal_width4(n: nat) -> Seq<char> {
    if decimal(n).len() < 4 {
        zeros((4 - decimal(n).len()) as nat) + decimal(n)
    } else {
        decimal(n)
    }
}

pub proof fn lemma_decimal_len_bounds(n: nat)
    ensures
        n < 10 ==> decimal(n).len() == 1,
        10 <= n < 100 ==> decimal(n).len() == 2,
        100 <= n < 1000 ==> decimal(n).len() == 3,
        1000 <= n ==> decimal(n).len() >= 4,
    decreases n,
{
    if n >= 10 {
        lemma_decimal_len_bounds(n / 10);
    }
}

/// Relies on `String::push`: appends one character.
#[verifier::external_body]
pub(crate) fn push_char(s: &mut String, c: char)
    ensures
        final(s)@ == old(s)@.push(c),
{
    s.push(c);
}

/// A string holding the characters of `s`.
pub fn owned(s: &str) -> (r: String)
    ensures
        r@ == s@,
{
    s.to_owned()
}

/// Appends the characters of `t` to `s`.
pub fn append_str(s: &mut String, t: &str)
    ensures
        final(s)@ == old(s)@ + t@,
{
    s.append(t);
}

/// The characters of `s`, one by one.
pub fn chars_of(s: &str) -> (r: Vec<char>)
    ensures
        r@ == s@,
{
    let mut out: Vec<char> = Vec::new();
    for c in it: s.chars()
        invariant
            it.seq() == s@,
            out@ == it.seq().take(it.index() as int),
    {
        out.push(c);
    }
    assert(out@ =~= s@);
    out
}

/// Appends the decimal rendering of `n` to `s`.
pub fn append_decimal(s: &mut String, n: u64)
    ensures
        final(s)@ == old(s)@ + decimal(n as nat),
    decreases n,
{
    if n >= 10 {
        append_decimal(s, n / 10);
    }
    let d: u8 = (n % 10) as u8;
    push_char(s, (d + 48) as char);
    assert(final(s)@ =~= old(s)@ + decimal(n as nat));
}

/// Appends the decimal rendering of `n`, zero-padded to four characters.
pub fn append_decimal_width4(s: &mut String, n: u64)
    ensures
        final(s)@ == old(s)@ + decimal_width4(n as nat),
{
    proof {
        lemma_decimal_len_bounds(n as nat);
    }
    let ghost start = s@;
    if n < 10 {
        append_str(s, "000");
    } else if n < 100 {
        append_str(s, "00");
    } else if n < 1000 {
        append_str(s, "0");
    }
    proof {
        reveal_strlit("000");
        reveal_strlit("00");
        reveal_strlit("0");
    }
    let ghost mid = s@;
    append_decimal(s, n);
    assert(s@ =~= start + decimal_width4(n as nat)) by {
        if n < 10 {
            assert(mid =~= start + zeros(3));
        } else if n < 100 {
            assert(mid =~= start + zeros(2));
        } else if n < 1000 {
            assert(mid =~= start + zeros(1));
        } else {
            assert(mid =~= start);
        }
    }
}

/// The characters of each argument of a command line.
pub open spec fn arg_texts(v: Seq<String>) -> Seq<Seq<char>> {
    v.map_values(|a: String| a@)
}

/// Appends one argument to a command line.
pub fn push_arg(v: &mut Vec<String>, a: String)
    ensures
        arg_texts(final(v)@) == arg_texts(old(v)@).push(a@),
{
    v.push(a);
    assert(arg_texts(final(v)@) =~= arg_texts(old(v)@).push(a@));
}

/// The decimal rendering of `n` as a new string.
pub fn decimal_text(n: u64) -> (r: String)
    ensures
        r@ == decimal(n as nat),
{
    let mut s = String::new();
    append_decimal(&mut s, n);
    assert(s@ =~= decimal(n as nat));
    s
}

} // verus!
