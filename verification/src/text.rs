//! ASCII case normalization and decimal rendering, used for symbols, prices
//! and HTTP status codes.

use vstd::prelude::*;

verus! {

/// The ASCII lower-case form of a character: upper-case letters are mapped to
/// their lower-case equivalents, every other character is unchanged.
pub open spec fn lower_char(c: char) -> char {
    if 'A' <= c && c <= 'Z' {
        ((c as u8) + 32) as char
    } else {
        c
    }
}

/// The ASCII upper-case form of a character: lower-case letters are mapped to
/// their upper-case equivalents, every other character is unchanged.
pub open spec fn upper_char(c: char) -> char {
    if 'a' <= c && c <= 'z' {
        ((c as u8) - 32) as char
    } else {
        c
    }
}

/// The ASCII lower-case form of a character sequence.
pub open spec fn lower_seq(s: Seq<char>) -> Seq<char> {
    s.map_values(|c: char| lower_char(c))
}

/// The ASCII upper-case form of a character sequence.
pub open spec fn upper_seq(s: Seq<char>) -> Seq<char> {
    s.map_values(|c: char| upper_char(c))
}

/// Lower-casing is insensitive to any earlier case change of the same
/// character: folding a character after either case map gives the same result
/// as folding the original.
pub proof fn lemma_lower_char_case_insensitive(c: char)
    ensures
        lower_char(upper_char(c)) == lower_char(c),
        lower_char(lower_char(c)) == lower_char(c),
        upper_char(lower_char(c)) == upper_char(c),
        upper_char(upper_char(c)) == upper_char(c),
{
}

/// Relies on String::push: appends the given character to the string.
#[verifier::external_body]
fn push_char(s: &mut String, c: char)
    ensures
        final(s)@ == old(s)@.push(c),
{
    s.push(c);
}

/// Maps every ASCII upper-case letter of `s` to lower case, leaving all other
/// characters unchanged.
pub fn ascii_lower(s: &str) -> (r: String)
    ensures
        r@ == lower_seq(s@),
{
    let n = s.unicode_len();
    let mut r = String::new();
    let mut i: usize = 0;
    while i < n
        invariant
            n == s@.len(),
            i <= n,
            r@ == lower_seq(s@).take(i as int),
        decreases n - i,
    {
        let c = s.get_char(i);
        let l = if 'A' <= c && c <= 'Z' {
            ((c as u8) + 32) as char
        } else {
            c
        };
        push_char(&mut r, l);
        proof {
            assert(r@ =~= lower_seq(s@).take(i + 1));
        }
        i = i + 1;
    }
    proof {
        assert(r@ =~= lower_seq(s@));
    }
    r
}

/// Maps every ASCII lower-case letter of `s` to upper case, leaving all other
/// characters unchanged.
pub fn ascii_upper(s: &str) -> (r: String)
    ensures
        r@ == upper_seq(s@),
{
    let n = s.unicode_len();
    let mut r = String::new();
    let mut i: usize = 0;
    while i < n
        invariant
            n == s@.len(),
            i <= n,
            r@ == upper_seq(s@).take(i as int),
        decreases n - i,
    {
        let c = s.get_char(i);
        let u = if 'a' <= c && c <= 'z' {
            ((c as u8) - 32) as char
        } else {
            c
        };
        push_char(&mut r, u);
        proof {
            assert(r@ =~= upper_seq(s@).take(i + 1));
        }
        i = i + 1;
    }
    proof {
        assert(r@ =~= upper_seq(s@));
    }
    r
}

/// The character for a single decimal digit.
pub open spec fn digit_char(d: nat) -> char {
    if d == 0 {
        '0'
    } else if d == 1 {
        '1'
    } else if d == 2 {
        '2'
    } else if d == 3 {
        '3'
    } else if d == 4 {
        '4'
    } else if d == 5 {
        '5'
    } else if d == 6 {
        '6'
    } else if d == 7 {
        '7'
    } else if d == 8 {
        '8'
    } else {
        '9'
    }
}

/// The usual decimal rendering of a natural number, most significant digit
/// first, with no leading zeros (except for zero itself).
pub open spec fn dec_rep(n: nat) -> Seq<char>
    decreases n,
{
    if n < 10 {
        seq![digit_char(n)]
    } else {
        dec_rep(n / 10).push(digit_char(n % 10))
    }
}

fn push_digit(s: &mut String, d: u64)
    requires
        d < 10,
    ensures
        final(s)@ == old(s)@.push(digit_char(d as nat)),
{
    let c = ((48 + d as u8)) as char;
    assert(c == digit_char(d as nat));
    push_char(s, c);
}

/// Renders `n` in decimal, most significant digit first.
pub fn u64_to_dec(n: u64) -> (r: String)
    ensures
        r@ == dec_rep(n as nat),
    decreases n,
{
    if n < 10 {
        let mut r = String::new();
        push_digit(&mut r, n);
        proof {
            assert(r@ =~= dec_rep(n as nat));
        }
        r
    } else {
        let mut r = u64_to_dec(n / 10);
        push_digit(&mut r, n % 10);
        r
    }
}

/// The rendering of a cent amount as dollars with exactly two decimal
/// places: the whole dollars in decimal, a point, then the cents, zero-padded
/// to two digits.
pub open spec fn usd_rep(cents: nat) -> Seq<char> {
    dec_rep(cents / 100) + seq!['.', digit_char((cents % 100) / 10), digit_char(cents % 10)]
}

/// Renders a cent amount as dollars with exactly two decimal places.
pub fn usd_dec(cents: u64) -> (r: String)
    ensures
        r@ == usd_rep(cents as nat),
{
    let mut r = u64_to_dec(cents / 100);
    push_char(&mut r, '.');
    push_digit(&mut r, (cents % 100) / 10);
    push_digit(&mut r, cents % 10);
    proof {
        assert(r@ =~= usd_rep(cents as nat));
    }
    r
}

} // verus!
