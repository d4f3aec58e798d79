//! Character classification and text conversion helpers.
//!
//! The lexer classifies characters the way `std`'s `char` methods do, i.e.
//! Unicode-aware. Those methods have no specification in vstd, so each gets a
//! thin trusted wrapper here. The result of each classification is a named
//! spec function — a pure function of the character — pinned down exactly on
//! the ASCII range, where the Unicode tables are plainly documented.

use vstd::prelude::*;
use vstd::string::StrSliceExecFns;

verus! {

/// What `char::is_alphabetic` returns: a pure function of the character.
pub uninterp spec fn alpha_char(c: char) -> bool;

/// What `char::is_numeric` returns: a pure function of the character.
pub uninterp spec fn numeric_char(c: char) -> bool;

/// What `char::is_whitespace` returns: a pure function of the character.
pub uninterp spec fn whitespace_char(c: char) -> bool;

/// Relies on `char::is_alphabetic`; within ASCII it accepts exactly the
/// letters `A`-`Z` and `a`-`z`.
#[verifier::external_body]
pub fn is_alphabetic(c: char) -> (r: bool)
    ensures
        r == alpha_char(c),
        (c as u32) < 128 ==> (r <==> (65 <= c as u32 <= 90 || 97 <= c as u32 <= 122)),
{
    c.is_alphabetic()
}

/// Relies on `char::is_numeric`; within ASCII it accepts exactly the digits
/// `0`-`9`.
#[verifier::external_body]
pub fn is_numeric(c: char) -> (r: bool)
    ensures
        r == numeric_char(c),
        (c as u32) < 128 ==> (r <==> 48 <= c as u32 <= 57),
{
    c.is_numeric()
}

/// Relies on `char::is_whitespace`; within ASCII it accepts exactly the
/// characters with the `White_Space` property: tab, line feed, vertical tab,
/// form feed, carriage return and space.
#[verifier::external_body]
pub fn is_whitespace(c: char) -> (r: bool)
    ensures
        r == whitespace_char(c),
        (c as u32) < 128 ==> (r <==> (9 <= c as u32 <= 13 || c as u32 == 32)),
{
    c.is_whitespace()
}

/// Relies on `String: FromIterator<char>`: collecting an iterator over the
/// characters of `v` yields a string of exactly those characters, in order.
#[verifier::external_body]
pub fn chars_to_string(v: &Vec<char>) -> (r: String)
    ensures
        r@ == v@,
{
    v.iter().collect()
}

/// Copies the characters of a string into a vector, in order.
pub fn to_char_vec(s: &str) -> (v: Vec<char>)
    ensures
        v@ == s@,
{
    let n = s.unicode_len();
    let mut v: Vec<char> = Vec::new();
    let mut i: usize = 0;
    while i < n
        invariant
            i <= n,
            n == s@.len(),
            v@ == s@.take(i as int),
        decreases n - i,
    {
        let c = s.get_char(i);
        v.push(c);
        i = i + 1;
        proof {
            assert(v@ =~= s@.take(i as int));
        }
    }
    proof {
        assert(s@.take(n as int) =~= s@);
    }
    v
}

} // verus!
